//! Encryption at rest for the stored credential, done by the `cocoon` crate
//! under a key that is a password.

use vstd::prelude::*;
use vstd::string::StringSliceAdditionalSpecFns;
use vstd::utf8::{decode_utf8, encode_utf8, encode_utf8_decode_utf8, encode_utf8_valid_utf8, valid_utf8};
use crate::text::string_from_utf8;

verus! {

/// `cocoon::Error`, the error of the `cocoon` crate: it is carried from the
/// calls that fail to the place that tells its variants apart, and nothing is
/// said of what it holds.
#[verifier::external_type_specification]
#[verifier::external_body]
pub struct ExCocoonError(cocoon::Error);

/// Why the container crate refused.
#[derive(Clone, Copy, Debug, PartialEq, Eq, Structural)]
pub enum CocoonFailure {
    /// Reading or writing failed.
    Io,
    /// The bytes are no container.
    UnrecognizedFormat,
    /// The container was tampered with, or the key is another one.
    Cryptography,
    /// The container is too large for this machine.
    TooLarge,
    /// The container ends before its data does.
    TooShort,
}

/// Why a value could not be encrypted or decrypted.
#[derive(Clone, Copy, Debug, PartialEq, Eq, Structural)]
pub enum EncryptError {
    CocoonError(CocoonFailure),
    /// The decrypted bytes are no text.
    Utf8Error,
}

/// Bytes that a container has in front of its data: a header of 44 bytes and
/// a tag of 16.
pub const PREFIX_SIZE: usize = 60;

/// The length of the data that a container's header declares: its bytes 36
/// to 43 read as one number, the first byte weighing most. The container has
/// at least 44 bytes.
pub open spec fn declared_length(container: Seq<u8>) -> int {
    container[36] * 0x100_0000_0000_0000 + container[37] * 0x1_0000_0000_0000 + container[38]
        * 0x100_0000_0000 + container[39] * 0x1_0000_0000 + container[40] * 0x100_0000
        + container[41] * 0x1_0000 + container[42] * 0x100 + container[43]
}

/// Whether a container declares more data than this machine can address
/// behind the prefix. No such container holds what it declares.
pub open spec fn overlong(container: Seq<u8>) -> bool {
    container.len() >= PREFIX_SIZE && declared_length(container) > usize::MAX - PREFIX_SIZE
}

/// What a container holds under a key: the data that `Cocoon::unwrap` of the
/// `cocoon` crate returns for it, or `None` where it refuses.
pub uninterp spec fn unwrapped(key: Seq<u8>, container: Seq<u8>) -> Option<Seq<u8>>;

/// `Cocoon::new` and `Cocoon::wrap` of the `cocoon` crate: a container that
/// holds `data` under `key`. Salt and nonce are drawn at random, so two calls
/// give two containers; each of them unwraps to `data` under the same key.
/// A container is its prefix followed by the sealed data, which is as long as
/// the data, and its header declares that length.
#[verifier::external_body]
fn wrap(key: &[u8], data: &[u8]) -> (container: Result<Vec<u8>, cocoon::Error>)
    ensures
        container matches Ok(sealed) ==> unwrapped(key@, sealed@) == Some(data@),
        container matches Ok(sealed) ==> sealed@.len() == PREFIX_SIZE + data@.len(),
        container matches Ok(sealed) ==> declared_length(sealed@) == data@.len(),
{
    cocoon::Cocoon::new(key).wrap(data)
}

/// `Cocoon::new` and `Cocoon::unwrap` of the `cocoon` crate: the data that a
/// container holds under `key`.
///
/// The crate adds the prefix's size to the length that the header declares
/// and stops the process where the sum leaves the machine's range, so a
/// container that is overlong is not handed to it.
#[verifier::external_body]
fn unwrap(key: &[u8], container: &[u8]) -> (data: Result<Vec<u8>, cocoon::Error>)
    requires
        !overlong(container@),
    ensures
        match data {
            Ok(opened) => unwrapped(key@, container@) == Some(opened@),
            Err(_) => unwrapped(key@, container@).is_none(),
        },
{
    cocoon::Cocoon::new(key).unwrap(container)
}

/// Tells the variants of `cocoon::Error` apart.
#[verifier::external_body]
fn failure_of(error: cocoon::Error) -> CocoonFailure {
    match error {
        cocoon::Error::Io(_) => CocoonFailure::Io,
        cocoon::Error::UnrecognizedFormat => CocoonFailure::UnrecognizedFormat,
        cocoon::Error::Cryptography => CocoonFailure::Cryptography,
        cocoon::Error::TooLarge => CocoonFailure::TooLarge,
        cocoon::Error::TooShort => CocoonFailure::TooShort,
    }
}

/// The text that a container holds under a key, where it holds one. An
/// overlong container holds none.
pub open spec fn decrypted(key: Seq<char>, container: Seq<u8>) -> Option<Seq<char>> {
    if overlong(container) {
        None
    } else {
        match unwrapped(encode_utf8(key), container) {
            Some(data) => if valid_utf8(data) {
                Some(decode_utf8(data))
            } else {
                None
            },
            None => None,
        }
    }
}

/// Seals a text under a key.
///
/// Whatever container comes back, [`decrypt`] opens it under the same key and
/// finds the text.
pub fn encrypt(key: &str, value: String) -> (container: Result<Vec<u8>, EncryptError>)
    ensures
        container matches Ok(sealed) ==> decrypted(key@, sealed@) == Some(value@),
        container matches Err(error) ==> error is CocoonError,
{
    match wrap(key.as_bytes(), value.as_str().as_bytes()) {
        Ok(sealed) => {
            let sealed_len = sealed.len();
            proof {
                encode_utf8_valid_utf8(value@);
                encode_utf8_decode_utf8(value@);
                assert(declared_length(sealed@) + PREFIX_SIZE == sealed_len);
            }
            Ok(sealed)
        },
        Err(error) => Err(EncryptError::CocoonError(failure_of(error))),
    }
}

/// Whether a container declares more data than can stand behind its prefix
/// on this machine.
pub fn is_overlong(container: &[u8]) -> (long: bool)
    ensures
        long == overlong(container@),
{
    if container.len() < PREFIX_SIZE {
        return false;
    }
    let declared: u64 = container[36] as u64 * 0x100_0000_0000_0000 + container[37] as u64
        * 0x1_0000_0000_0000 + container[38] as u64 * 0x100_0000_0000 + container[39] as u64
        * 0x1_0000_0000 + container[40] as u64 * 0x100_0000 + container[41] as u64 * 0x1_0000
        + container[42] as u64 * 0x100 + container[43] as u64;
    let room: usize = usize::MAX - PREFIX_SIZE;
    declared > room as u64
}

/// Opens a container under a key and reads what it holds as text.
///
/// The result is `Ok` exactly where the container opens under the key and
/// holds valid UTF-8; it is `Utf8Error` where it opens and holds something
/// else. An overlong container is refused as `TooShort` before the container
/// crate sees it; every other refusal is the container crate's.
pub fn decrypt(key: &str, value: Vec<u8>) -> (text: Result<String, EncryptError>)
    ensures
        match text {
            Ok(opened) => decrypted(key@, value@) == Some(opened@),
            Err(EncryptError::Utf8Error) => {
                &&& !overlong(value@)
                &&& unwrapped(encode_utf8(key@), value@) matches Some(data)
                &&& !valid_utf8(data)
            },
            Err(EncryptError::CocoonError(failure)) => if overlong(value@) {
                failure == CocoonFailure::TooShort
            } else {
                unwrapped(encode_utf8(key@), value@).is_none()
            },
        },
{
    if is_overlong(value.as_slice()) {
        return Err(EncryptError::CocoonError(CocoonFailure::TooShort));
    }
    match unwrap(key.as_bytes(), value.as_slice()) {
        Ok(opened) => match string_from_utf8(opened) {
            Some(text) => Ok(text),
            None => Err(EncryptError::Utf8Error),
        },
        Err(error) => Err(EncryptError::CocoonError(failure_of(error))),
    }
}

} // verus!

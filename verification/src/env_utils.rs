//! Settings that come from the process environment, once somebody has read
//! them: the address the service is reached at, its port, and its secrets.

use vstd::prelude::*;
use vstd::string::{StrSliceExecFns, StringExecFns, StringSliceAdditionalSpecFns};
use crate::text::{decimal, push_decimal};
use crate::utils::{hash_string, hex_lower, sha256_digest};

verus! {

/// The port that is used where none is set.
pub const DEFAULT_PORT: u16 = 8080;

/// The seed of the webhook secret where none is set.
pub const DEFAULT_WEBHOOK_SEED: &'static str = "defaultwebhookseed";

/// The key that encrypts stored tokens where none is set.
pub const DEFAULT_DB_ENCRYPTION_KEY: &'static str = "defaultdbencryptionkey";

/// The value of a decimal digit, or `None` for any other character.
pub open spec fn digit_value(c: char) -> Option<nat> {
    if c == '0' {
        Some(0nat)
    } else if c == '1' {
        Some(1nat)
    } else if c == '2' {
        Some(2nat)
    } else if c == '3' {
        Some(3nat)
    } else if c == '4' {
        Some(4nat)
    } else if c == '5' {
        Some(5nat)
    } else if c == '6' {
        Some(6nat)
    } else if c == '7' {
        Some(7nat)
    } else if c == '8' {
        Some(8nat)
    } else if c == '9' {
        Some(9nat)
    } else {
        None
    }
}

/// The number that a text of decimal digits stands for; `None` where a
/// character is no digit. Nothing at all stands for zero here.
pub open spec fn digits_value(digits: Seq<char>) -> Option<nat>
    decreases digits.len(),
{
    if digits.len() == 0 {
        Some(0nat)
    } else {
        match (digits_value(digits.drop_last()), digit_value(digits.last())) {
            (Some(front), Some(last)) => Some(front * 10 + last),
            _ => None,
        }
    }
}

/// The port that a text stands for: decimal digits, at least one, with a plus
/// sign in front at most, and a value of no more than 65535.
pub open spec fn parsed_port(text: Seq<char>) -> Option<u16> {
    let digits = if text.len() > 0 && text[0] == '+' {
        text.skip(1)
    } else {
        text
    };
    if digits.len() == 0 {
        None
    } else {
        match digits_value(digits) {
            Some(value) => if value <= u16::MAX {
                Some(value as u16)
            } else {
                None
            },
            None => None,
        }
    }
}

fn digit_of(c: char) -> (value: Option<u32>)
    ensures
        match value {
            Some(v) => digit_value(c) == Some(v as nat),
            None => digit_value(c).is_none(),
        },
{
    if c == '0' {
        Some(0)
    } else if c == '1' {
        Some(1)
    } else if c == '2' {
        Some(2)
    } else if c == '3' {
        Some(3)
    } else if c == '4' {
        Some(4)
    } else if c == '5' {
        Some(5)
    } else if c == '6' {
        Some(6)
    } else if c == '7' {
        Some(7)
    } else if c == '8' {
        Some(8)
    } else if c == '9' {
        Some(9)
    } else {
        None
    }
}

/// A text of digits that has a non-digit, or a value above the limit, in its
/// front has it as a whole.
proof fn lemma_digits_prefix(digits: Seq<char>, front: int)
    requires
        0 <= front <= digits.len(),
    ensures
        digits_value(digits.take(front)).is_none() ==> digits_value(digits).is_none(),
        digits_value(digits) matches Some(whole) ==> digits_value(digits.take(front)).unwrap()
            <= whole,
    decreases digits.len() - front,
{
    if front == digits.len() {
        assert(digits.take(front) =~= digits);
    } else {
        lemma_digits_prefix(digits, front + 1);
        assert(digits.take(front + 1).drop_last() =~= digits.take(front));
    }
}

/// Reads a port number as the standard library's `u16` parser reads it.
pub fn parse_port(text: &str) -> (port: Option<u16>)
    ensures
        port == parsed_port(text@),
{
    let len = text.unicode_len();
    if len == 0 {
        return None;
    }
    let start: usize = if text.get_char(0) == '+' {
        1
    } else {
        0
    };
    if start == len {
        return None;
    }
    let ghost digits = text@.skip(start as int);
    proof {
        assert(text@.skip(0) =~= text@);
    }
    let mut value: u32 = 0;
    let mut i: usize = start;
    proof {
        assert(digits.take(0) =~= Seq::<char>::empty());
    }
    while i < len
        invariant
            start <= i <= len,
            len == text@.len(),
            digits == text@.skip(start as int),
            digits.len() > 0,
            digits == if text@.len() > 0 && text@[0] == '+' {
                text@.skip(1)
            } else {
                text@
            },
            digits_value(digits.take(i - start)) == Some(value as nat),
            value <= u16::MAX,
        decreases len - i,
    {
        let c = text.get_char(i);
        proof {
            assert(digits.take(i - start + 1).drop_last() =~= digits.take(i - start));
            assert(digits[i - start] == text@[i as int]);
            assert(digits.take(i - start + 1).last() == c);
            lemma_digits_prefix(digits, i - start + 1);
        }
        match digit_of(c) {
            None => {
                return None;
            },
            Some(d) => {
                value = value * 10 + d;
                if value > 65535 {
                    return None;
                }
            },
        }
        i = i + 1;
    }
    proof {
        assert(digits.take(len - start) =~= digits);
    }
    Some(value as u16)
}

/// The port to listen on: what the setting says where it says a port, else
/// `DEFAULT_PORT`.
pub fn get_port(port: Option<&str>) -> (chosen: u16)
    ensures
        chosen == match port {
            Some(text) => match parsed_port(text@) {
                Some(port) => port,
                None => DEFAULT_PORT,
            },
            None => DEFAULT_PORT,
        },
{
    match port {
        Some(text) => match parse_port(text) {
            Some(port) => port,
            None => DEFAULT_PORT,
        },
        None => DEFAULT_PORT,
    }
}

/// The address under which the service is reached.
pub open spec fn host_address(
    host: Option<Seq<char>>,
    fly_app_name: Option<Seq<char>>,
    port: u16,
) -> Seq<char> {
    match host {
        Some(host) => "https://"@ + host,
        None => match fly_app_name {
            Some(app) => "https://"@ + app + ".fly.dev"@,
            None => "http://localhost:"@ + decimal(port as nat),
        },
    }
}

/// The address under which the service is reached: the configured host, else
/// the hosting platform's name for the application, else this machine at
/// `port`.
pub fn get_host_uri(host: Option<&str>, fly_app_name: Option<&str>, port: u16) -> (uri: String)
    ensures
        uri@ == host_address(host.deep_view(), fly_app_name.deep_view(), port),
{
    match host {
        Some(host) => {
            let mut uri = String::from_str("https://");
            uri.append(host);
            uri
        },
        None => match fly_app_name {
            Some(app) => {
                let mut uri = String::from_str("https://");
                uri.append(app);
                uri.append(".fly.dev");
                uri
            },
            None => {
                let mut uri = String::from_str("http://localhost:");
                push_decimal(&mut uri, port as u64);
                uri
            },
        },
    }
}

/// The secret part of the webhook's path: the first 32 characters of the
/// fingerprint of the seed, or of `DEFAULT_WEBHOOK_SEED` where none is set.
pub fn get_webhook_secret(seed: Option<&str>) -> (secret: String)
    ensures
        secret@ == hex_lower(
            sha256_digest(
                match seed {
                    Some(seed) => seed.spec_bytes(),
                    None => DEFAULT_WEBHOOK_SEED.spec_bytes(),
                },
            ),
        ).take(32),
{
    let fingerprint = match seed {
        Some(seed) => hash_string(seed),
        None => hash_string(DEFAULT_WEBHOOK_SEED),
    };
    String::from_str(fingerprint.as_str().substring_char(0, 32))
}

/// The key that encrypts stored tokens: the configured one, else
/// `DEFAULT_DB_ENCRYPTION_KEY`.
pub fn get_db_encryption_key(key: Option<String>) -> (chosen: String)
    ensures
        chosen@ == match key {
            Some(key) => key@,
            None => DEFAULT_DB_ENCRYPTION_KEY@,
        },
{
    match key {
        Some(key) => key,
        None => String::from_str(DEFAULT_DB_ENCRYPTION_KEY),
    }
}

} // verus!

//! Small renderings: durations and counts in words, and the fingerprint of a
//! text.

use sha2::Digest;
use vstd::prelude::*;
use vstd::string::{StrSliceExecFns, StringExecFns, StringSliceAdditionalSpecFns};
use crate::text::{decimal, digit_char, push_char, push_decimal, push_signed_decimal, signed_decimal};

verus! {

/// `a` divided by a positive `b`, rounded towards zero.
pub open spec fn quotient(a: int, b: int) -> int {
    if a >= 0 {
        a / b
    } else {
        -((-a) / b)
    }
}

/// What is left of `a` after taking out `quotient(a, b)` times `b`; it has the
/// sign of `a`.
pub open spec fn remainder(a: int, b: int) -> int {
    a - b * quotient(a, b)
}

/// A duration in words, down to the minute.
///
/// Seconds that do not fill a minute are dropped. Under an hour only minutes
/// are named, "1 minute" in the singular. From an hour on the hours come
/// first, and minutes follow only where there are any; with exactly one hour
/// both words stay in the singular whatever the minutes.
pub open spec fn human_readable_minutes(seconds: int) -> Seq<char> {
    let minutes = quotient(seconds, 60);
    let hours = quotient(minutes, 60);
    let mins = remainder(minutes, 60);
    if hours == 0 {
        if mins == 0 {
            "0 minutes"@
        } else if mins == 1 {
            signed_decimal(mins) + " minute"@
        } else {
            signed_decimal(mins) + " minutes"@
        }
    } else if hours == 1 {
        if mins == 0 {
            signed_decimal(hours) + " hour"@
        } else {
            signed_decimal(hours) + " hour, "@ + signed_decimal(mins) + " minute"@
        }
    } else if mins == 0 {
        signed_decimal(hours) + " hours"@
    } else {
        signed_decimal(hours) + " hours, "@ + signed_decimal(mins) + " minutes"@
    }
}

/// Renders a number of seconds as hours and minutes in words.
pub fn minutes_to_human_readable(seconds: i64) -> (text: String)
    ensures
        text@ == human_readable_minutes(seconds as int),
{
    let minutes: i64 = seconds / 60;
    let hours: i64 = minutes / 60;
    let mins: i64 = minutes % 60;
    assert(minutes == quotient(seconds as int, 60));
    assert(hours == quotient(minutes as int, 60));
    assert(mins == remainder(minutes as int, 60));
    let mut text = String::new();
    if hours == 0 {
        if mins == 0 {
            text.append("0 minutes");
        } else if mins == 1 {
            push_signed_decimal(&mut text, mins);
            text.append(" minute");
        } else {
            push_signed_decimal(&mut text, mins);
            text.append(" minutes");
        }
    } else if hours == 1 {
        push_signed_decimal(&mut text, hours);
        if mins == 0 {
            text.append(" hour");
        } else {
            text.append(" hour, ");
            push_signed_decimal(&mut text, mins);
            text.append(" minute");
        }
    } else {
        push_signed_decimal(&mut text, hours);
        if mins == 0 {
            text.append(" hours");
        } else {
            text.append(" hours, ");
            push_signed_decimal(&mut text, mins);
            text.append(" minutes");
        }
    }
    assert(text@ =~= human_readable_minutes(seconds as int));
    text
}

/// How often something happened, in words; nothing for "never".
pub open spec fn human_readable_times(count: int) -> Seq<char> {
    if count == 0 {
        Seq::empty()
    } else if count == 1 {
        "1 time"@
    } else {
        signed_decimal(count) + " times"@
    }
}

/// Renders a count as "1 time", "3 times", or as nothing where it is zero.
pub fn count_to_times_human_readable(count: i32) -> (text: String)
    ensures
        text@ == human_readable_times(count as int),
{
    let mut text = String::new();
    if count == 0 {
    } else if count == 1 {
        text.append("1 time");
    } else {
        push_signed_decimal(&mut text, count as i64);
        text.append(" times");
    }
    assert(text@ =~= human_readable_times(count as int));
    text
}

/// The SHA-256 digest of some bytes: what `Sha256::finalize` of the `sha2`
/// crate returns once the bytes went through `Sha256::update`.
pub uninterp spec fn sha256_digest(data: Seq<u8>) -> Seq<u8>;

/// `Sha256::new`, `update` and `finalize` of the `sha2` crate: the digest of
/// the bytes, which is 32 bytes long.
#[verifier::external_body]
fn sha256(data: &[u8]) -> (digest: Vec<u8>)
    ensures
        digest@ == sha256_digest(data@),
        digest@.len() == 32,
{
    let mut hasher = sha2::Sha256::new();
    hasher.update(data);
    hasher.finalize().to_vec()
}

/// The character of a hexadecimal digit, in lowercase.
pub open spec fn hex_digit(nibble: int) -> char {
    if nibble < 10 {
        digit_char(nibble)
    } else if nibble == 10 {
        'a'
    } else if nibble == 11 {
        'b'
    } else if nibble == 12 {
        'c'
    } else if nibble == 13 {
        'd'
    } else if nibble == 14 {
        'e'
    } else {
        'f'
    }
}

/// Bytes in hexadecimal: two lowercase digits for each, the high one first.
pub open spec fn hex_lower(bytes: Seq<u8>) -> Seq<char> {
    Seq::new(
        2 * bytes.len(),
        |i: int|
            if i % 2 == 0 {
                hex_digit(bytes[i / 2] as int / 16)
            } else {
                hex_digit(bytes[i / 2] as int % 16)
            },
    )
}

fn hex_char(nibble: u8) -> (c: char)
    requires
        nibble < 16,
    ensures
        c == hex_digit(nibble as int),
{
    if nibble == 0 {
        '0'
    } else if nibble == 1 {
        '1'
    } else if nibble == 2 {
        '2'
    } else if nibble == 3 {
        '3'
    } else if nibble == 4 {
        '4'
    } else if nibble == 5 {
        '5'
    } else if nibble == 6 {
        '6'
    } else if nibble == 7 {
        '7'
    } else if nibble == 8 {
        '8'
    } else if nibble == 9 {
        '9'
    } else if nibble == 10 {
        'a'
    } else if nibble == 11 {
        'b'
    } else if nibble == 12 {
        'c'
    } else if nibble == 13 {
        'd'
    } else if nibble == 14 {
        'e'
    } else {
        'f'
    }
}

/// Writes bytes in lowercase hexadecimal.
pub fn to_hex(bytes: &[u8]) -> (text: String)
    ensures
        text@ == hex_lower(bytes@),
{
    let mut text = String::new();
    let mut i: usize = 0;
    while i < bytes.len()
        invariant
            i <= bytes.len(),
            text@ == hex_lower(bytes@.take(i as int)),
        decreases bytes.len() - i,
    {
        let ghost before = text@;
        push_char(&mut text, hex_char(bytes[i] / 16));
        push_char(&mut text, hex_char(bytes[i] % 16));
        i = i + 1;
        assert(text@ =~= hex_lower(bytes@.take(i as int)));
    }
    assert(bytes@.take(bytes.len() as int) =~= bytes@);
    text
}

/// The fingerprint of a text: the SHA-256 digest of its bytes in lowercase
/// hexadecimal, 64 characters long.
pub fn hash_string(string: &str) -> (fingerprint: String)
    ensures
        fingerprint@ == hex_lower(sha256_digest(string.spec_bytes())),
        fingerprint@.len() == 64,
{
    let digest = sha256(string.as_bytes());
    to_hex(digest.as_slice())
}

/// The first `count` characters of `digits` with a comma in front of every
/// character that is followed by a multiple of three further ones, the first
/// character excepted.
pub open spec fn grouped_prefix(digits: Seq<char>, count: nat) -> Seq<char>
    decreases count,
{
    if count == 0 || count > digits.len() {
        Seq::empty()
    } else {
        let front = grouped_prefix(digits, (count - 1) as nat);
        let c = digits[count - 1];
        if count > 1 && (digits.len() - (count - 1)) % 3 == 0 {
            front.push(',').push(c)
        } else {
            front.push(c)
        }
    }
}

/// The position of the first `.` at or after `from`, or the length of the
/// text where there is none.
pub open spec fn dot_from(text: Seq<char>, from: int) -> int
    decreases text.len() - from,
{
    if from < 0 || from >= text.len() {
        text.len() as int
    } else if text[from] == '.' {
        from
    } else {
        dot_from(text, from + 1)
    }
}

/// A number's text with its whole part in groups of three.
///
/// The whole part is what stands before the first `.`; it gets a comma every
/// three characters, counted from its end. What stands between the first `.`
/// and the next one, or the end, follows unchanged after a `.`; anything
/// after a second `.` is dropped.
pub open spec fn thousands(text: Seq<char>) -> Seq<char> {
    let first_dot = dot_from(text, 0);
    let whole = text.take(first_dot);
    let grouped = grouped_prefix(whole, whole.len());
    if first_dot >= text.len() {
        grouped
    } else {
        grouped.push('.') + text.subrange(first_dot + 1, dot_from(text, first_dot + 1))
    }
}

fn find_dot(text: &str, len: usize, from: usize) -> (at: usize)
    requires
        len == text@.len(),
        from <= len,
    ensures
        at == dot_from(text@, from as int),
        from <= at <= len,
{
    let mut at: usize = from;
    while at < len
        invariant
            from <= at <= len,
            len == text@.len(),
            dot_from(text@, at as int) == dot_from(text@, from as int),
        decreases len - at,
    {
        if text.get_char(at) == '.' {
            return at;
        }
        at = at + 1;
    }
    at
}

/// Writes a number's text with commas between the thousands of its whole
/// part.
pub fn format_thousands(number: &str) -> (text: String)
    ensures
        text@ == thousands(number@),
{
    let len = number.unicode_len();
    let first_dot = find_dot(number, len, 0);
    let ghost whole = number@.take(first_dot as int);
    let mut text = String::new();
    let mut i: usize = 0;
    while i < first_dot
        invariant
            i <= first_dot <= len,
            len == number@.len(),
            whole == number@.take(first_dot as int),
            text@ == grouped_prefix(whole, i as nat),
        decreases first_dot - i,
    {
        if i > 0 && (first_dot - i) % 3 == 0 {
            push_char(&mut text, ',');
        }
        push_char(&mut text, number.get_char(i));
        i = i + 1;
    }
    if first_dot < len {
        let second_dot = find_dot(number, len, first_dot + 1);
        push_char(&mut text, '.');
        text.append(number.substring_char(first_dot + 1, second_dot));
    }
    assert(text@ =~= thousands(number@));
    text
}

/// How long ago something happened, in words, given the whole seconds that
/// have passed; "unknown" where they are not known.
///
/// Under a minute, and for a moment yet to come, it is "just now"; then whole
/// minutes, hours and days are counted, a single day in the singular.
pub open spec fn time_ago_text(seconds: Option<i64>) -> Seq<char> {
    match seconds {
        None => "unknown"@,
        Some(secs) => if secs < 60 {
            "just now"@
        } else if secs < 3600 {
            decimal((secs / 60) as nat) + " minutes ago"@
        } else if secs < 86400 {
            decimal((secs / 3600) as nat) + " hours ago"@
        } else if secs / 86400 == 1 {
            "1 day ago"@
        } else {
            decimal((secs / 86400) as nat) + " days ago"@
        },
    }
}

/// Says in words how long ago something happened.
pub fn time_ago(seconds: Option<i64>) -> (text: String)
    ensures
        text@ == time_ago_text(seconds),
{
    let mut text = String::new();
    match seconds {
        None => {
            text.append("unknown");
        },
        Some(secs) => {
            if secs < 60 {
                text.append("just now");
            } else if secs < 3600 {
                push_decimal(&mut text, (secs / 60) as u64);
                text.append(" minutes ago");
            } else if secs < 86400 {
                push_decimal(&mut text, (secs / 3600) as u64);
                text.append(" hours ago");
            } else if secs / 86400 == 1 {
                text.append("1 day ago");
            } else {
                push_decimal(&mut text, (secs / 86400) as u64);
                text.append(" days ago");
            }
        },
    }
    assert(text@ =~= time_ago_text(seconds));
    text
}

/// Whether a text is a date and time that `DateTime::parse_from_rfc3339` of
/// the `chrono` crate accepts.
pub uninterp spec fn is_rfc3339(text: Seq<char>) -> bool;

/// `DateTime::parse_from_rfc3339`, `Utc::now` and
/// `DateTime::signed_duration_since` of the `chrono` crate: the whole seconds
/// from the moment that the text names to now, or `None` where the text names
/// no moment. The number depends on the clock, so nothing is said of it.
#[verifier::external_body]
fn seconds_since(dt_str: &str) -> (seconds: Option<i64>)
    ensures
        seconds.is_some() == is_rfc3339(dt_str@),
{
    match chrono::DateTime::parse_from_rfc3339(dt_str) {
        Ok(moment) => Some(chrono::Utc::now().signed_duration_since(moment).num_seconds()),
        Err(_) => None,
    }
}

/// Says in words how long ago the moment was that `dt_str` names.
///
/// The answer is "unknown" exactly for a text that names no moment. For any
/// other text it is what [`time_ago`] says of some number of seconds, which
/// the clock decides.
pub fn utc_to_time_ago_human_readable(dt_str: &str) -> (text: String)
    ensures
        !is_rfc3339(dt_str@) ==> text@ == time_ago_text(None),
        is_rfc3339(dt_str@) ==> exists|secs: i64| text@ == #[trigger] time_ago_text(Some(secs)),
{
    time_ago(seconds_since(dt_str))
}

} // verus!

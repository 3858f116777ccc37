//! What the web routes decide before they answer: the outcome of an OAuth
//! callback, and what a webhook asks the status store to remember.

use vstd::prelude::*;
use vstd::string::{StringExecFns, StringSliceAdditionalSpecFns};
use vstd::utf8::encode_utf8;
use crate::trail_data::{chars_of, find, first_occurrence};

verus! {

/// The parameters with which the authorization server calls back.
#[derive(Debug)]
pub enum StravaCallbackParams {
    /// The athlete agreed; `code` can be exchanged for a token.
    Success { code: String, scope: String, state: Option<String> },
    /// The athlete refused, or something went wrong.
    Error { error: String, state: Option<String> },
}

/// What to do about a callback.
#[derive(Debug)]
pub enum CallbackStep {
    /// Nothing came with the call: send the visitor to the home page.
    RedirectHome,
    /// Tell the visitor that the authorization failed, with this detail.
    ReportFailure(String),
    /// Exchange this code for a token.
    Exchange(String),
}

pub enum CallbackStepView {
    RedirectHome,
    ReportFailure(Seq<char>),
    Exchange(Seq<char>),
}

impl DeepView for CallbackStep {
    type V = CallbackStepView;

    open spec fn deep_view(&self) -> CallbackStepView {
        match self {
            CallbackStep::RedirectHome => CallbackStepView::RedirectHome,
            CallbackStep::ReportFailure(detail) => CallbackStepView::ReportFailure(detail@),
            CallbackStep::Exchange(code) => CallbackStepView::Exchange(code@),
        }
    }
}

/// The step that a callback's parameters call for.
pub open spec fn callback_step(parameters: Option<StravaCallbackParams>) -> CallbackStepView {
    match parameters {
        None => CallbackStepView::RedirectHome,
        Some(StravaCallbackParams::Error { error, .. }) => CallbackStepView::ReportFailure(error@),
        Some(StravaCallbackParams::Success { code, .. }) => CallbackStepView::Exchange(code@),
    }
}

/// Decides what to do about a callback of the authorization server.
pub fn strava_callback(parameters: Option<StravaCallbackParams>) -> (step: CallbackStep)
    ensures
        step.deep_view() == callback_step(parameters),
{
    match parameters {
        None => CallbackStep::RedirectHome,
        Some(StravaCallbackParams::Error { error, state: _ }) => CallbackStep::ReportFailure(error),
        Some(StravaCallbackParams::Success { code, scope: _, state: _ }) => CallbackStep::Exchange(
            code,
        ),
    }
}

/// A webhook's payload: the live-tracking feed to poll from now on.
#[derive(Debug)]
pub struct WebhookRequest {
    pub beacon_url: String,
}

/// The answer to a webhook.
#[derive(Debug)]
pub struct WebhookResponse {
    pub message: String,
}

/// The feed that the status store is to remember for a webhook.
pub fn webhook_beacon_url(payload: WebhookRequest) -> (beacon_url: Option<String>)
    ensures
        beacon_url.deep_view() == Some(payload.beacon_url@),
{
    Some(payload.beacon_url)
}

/// Seconds after which an on-trail flag that nobody rewrote is taken to be
/// stale.
pub const STALE_STATUS_SECS: u64 = 14400;

/// Whether the home page, seeing a flag written `elapsed_secs` ago, resets it.
pub fn status_is_stale(elapsed_secs: u64) -> (stale: bool)
    ensures
        stale == (elapsed_secs > STALE_STATUS_SECS),
{
    elapsed_secs > STALE_STATUS_SECS
}

/// Whether a form leaves a byte as it is: a letter or a digit of ASCII, or
/// one of `*`, `-`, `.` and `_`.
pub open spec fn stands_for_itself(byte: u8) -> bool {
    ||| byte == 0x2a
    ||| byte == 0x2d
    ||| byte == 0x2e
    ||| byte == 0x5f
    ||| 0x30 <= byte <= 0x39
    ||| 0x41 <= byte <= 0x5a
    ||| 0x61 <= byte <= 0x7a
}

/// The character of a hexadecimal digit, letters in capitals.
pub open spec fn upper_hex_digit(nibble: int) -> char {
    if nibble == 0 {
        '0'
    } else if nibble == 1 {
        '1'
    } else if nibble == 2 {
        '2'
    } else if nibble == 3 {
        '3'
    } else if nibble == 4 {
        '4'
    } else if nibble == 5 {
        '5'
    } else if nibble == 6 {
        '6'
    } else if nibble == 7 {
        '7'
    } else if nibble == 8 {
        '8'
    } else if nibble == 9 {
        '9'
    } else if nibble == 10 {
        'A'
    } else if nibble == 11 {
        'B'
    } else if nibble == 12 {
        'C'
    } else if nibble == 13 {
        'D'
    } else if nibble == 14 {
        'E'
    } else {
        'F'
    }
}

/// One byte as a form encodes it: itself where it stands for itself, a plus
/// sign for a space, and a percent sign with the byte's two hexadecimal
/// digits for every other byte.
pub open spec fn form_encoded_byte(byte: u8) -> Seq<char> {
    if stands_for_itself(byte) {
        seq![byte as char]
    } else if byte == 0x20 {
        seq!['+']
    } else {
        seq!['%', upper_hex_digit(byte as int / 16), upper_hex_digit(byte as int % 16)]
    }
}

/// Bytes as a form encodes them, one after the other.
pub open spec fn form_encoded(bytes: Seq<u8>) -> Seq<char>
    decreases bytes.len(),
{
    if bytes.len() == 0 {
        Seq::empty()
    } else {
        form_encoded(bytes.drop_last()) + form_encoded_byte(bytes.last())
    }
}

/// `form_urlencoded::byte_serialize` of the `url` crate, its pieces put
/// together: the bytes in the encoding of forms, which keeps the letters and
/// digits of ASCII and `*`, `-`, `.` and `_`, writes a space as a plus sign,
/// and writes every other byte as a percent sign and two hexadecimal digits
/// in capitals.
#[verifier::external_body]
fn byte_serialize(input: &[u8]) -> (encoded: String)
    ensures
        encoded@ == form_encoded(input@),
{
    url::form_urlencoded::byte_serialize(input).collect()
}

/// The service's own address as the authorization server is to call it back.
pub open spec fn callback_host(host: Option<Seq<char>>) -> Seq<char> {
    match host {
        Some(host) => "https://"@ + host,
        None => "http://localhost:8080"@,
    }
}

/// The address to which a visitor is sent to authorize the service, given
/// the service's own address in the encoding of forms.
pub open spec fn authorize_address(client_id: Seq<char>, encoded_host: Seq<char>) -> Seq<char> {
    "https://www.strava.com/oauth/authorize"@ + "?client_id="@ + client_id
        + "&response_type=code"@ + "&redirect_uri="@ + encoded_host + "/api/strava/callback"@
        + "&approval_prompt=force"@ + "&scope=read,activity:read"@
}

/// Writes the address to which a visitor is sent to authorize the service.
/// `encoded_host` is the service's own address, already in the encoding of
/// forms.
pub fn authorize_url(client_id: &str, encoded_host: &str) -> (auth_url: String)
    ensures
        auth_url@ == authorize_address(client_id@, encoded_host@),
{
    let mut auth_url = String::from_str("https://www.strava.com/oauth/authorize");
    auth_url.append("?client_id=");
    auth_url.append(client_id);
    auth_url.append("&response_type=code");
    auth_url.append("&redirect_uri=");
    auth_url.append(encoded_host);
    auth_url.append("/api/strava/callback");
    auth_url.append("&approval_prompt=force");
    auth_url.append("&scope=read,activity:read");
    auth_url
}

/// The address to which a visitor is sent to authorize the service, or
/// `None` where no client is configured, which makes the request a bad one.
pub fn strava_auth(client_id: Option<&str>, host: Option<&str>) -> (auth_url: Option<String>)
    ensures
        auth_url.deep_view() == match client_id {
            Some(client_id) => Some(
                authorize_address(
                    client_id@,
                    form_encoded(encode_utf8(callback_host(host.deep_view()))),
                ),
            ),
            None => None,
        },
{
    let client_id = match client_id {
        Some(client_id) => client_id,
        None => {
            return None;
        },
    };
    let host_uri = match host {
        Some(host) => {
            let mut host_uri = String::from_str("https://");
            host_uri.append(host);
            host_uri
        },
        None => String::from_str("http://localhost:8080"),
    };
    let encoded = byte_serialize(host_uri.as_str().as_bytes());
    Some(authorize_url(client_id, encoded.as_str()))
}

/// A duration in words as the `humantime` crate writes it: what
/// `format_duration` shows for so many seconds and nanoseconds.
pub uninterp spec fn formatted_duration(secs: u64, nanos: u32) -> Seq<char>;

/// `format_duration` of the `humantime` crate, shown as text: the duration in
/// units from years down to nanoseconds, separated by spaces. The duration is
/// made by `Duration::new`, which takes less than a second's worth of
/// nanoseconds without carrying.
#[verifier::external_body]
fn format_duration(secs: u64, nanos: u32) -> (text: String)
    requires
        nanos < 1_000_000_000,
    ensures
        text@ == formatted_duration(secs, nanos),
{
    humantime::format_duration(std::time::Duration::new(secs, nanos)).to_string()
}

/// The runs of characters between the whitespace of a text, in their order:
/// what `str::split_whitespace` of the standard library yields.
pub uninterp spec fn whitespace_groups(text: Seq<char>) -> Seq<Seq<char>>;

/// `str::split_whitespace` of the standard library: the parts of the text that
/// whitespace separates, none of them empty.
#[verifier::external_body]
fn split_whitespace(text: &str) -> (groups: Vec<String>)
    ensures
        groups.deep_view() == whitespace_groups(text@),
{
    text.split_whitespace().map(str::to_string).collect()
}

/// Whether `pattern` stands somewhere in `text`.
pub open spec fn contains(text: Seq<char>, pattern: Seq<char>) -> bool {
    first_occurrence(text, pattern, 0).is_some()
}

/// Whether a part of a duration counts seconds or more: its unit is none of
/// milliseconds, microseconds and nanoseconds.
pub open spec fn coarse(group: Seq<char>) -> bool {
    !contains(group, "ms"@) && !contains(group, "us"@) && !contains(group, "ns"@)
}

/// The test that the coarse parts of a duration pass.
pub open spec fn coarse_only() -> spec_fn(Seq<char>) -> bool {
    |group: Seq<char>| coarse(group)
}

/// Texts one after the other with a space between each two.
pub open spec fn spaced(groups: Seq<Seq<char>>) -> Seq<char>
    decreases groups.len(),
{
    if groups.len() == 0 {
        Seq::empty()
    } else if groups.len() == 1 {
        groups[0]
    } else {
        spaced(groups.drop_last()) + " "@ + groups.last()
    }
}

/// How long ago, from the parts of a duration: the coarse parts, a space
/// between each two, and " ago" behind them.
pub open spec fn ago_text(groups: Seq<Seq<char>>) -> Seq<char> {
    spaced(groups.filter(coarse_only())) + " ago"@
}

fn is_coarse(group: &str) -> (kept: bool)
    ensures
        kept == coarse(group@),
{
    let chars = chars_of(group);
    find(&chars, &chars_of("ms"), 0).is_none() && find(&chars, &chars_of("us"), 0).is_none()
        && find(&chars, &chars_of("ns"), 0).is_none()
}

/// Says how long ago, given the parts of a duration in words: parts finer
/// than a second are left out.
pub fn ago(groups: &Vec<String>) -> (text: String)
    ensures
        text@ == ago_text(groups.deep_view()),
{
    let ghost all = groups.deep_view();
    let mut text = String::new();
    let mut kept: usize = 0;
    let mut i: usize = 0;
    proof {
        reveal(Seq::filter);
        assert(all.take(0) =~= Seq::<Seq<char>>::empty());
    }
    while i < groups.len()
        invariant
            i <= groups.len(),
            all == groups.deep_view(),
            kept == all.take(i as int).filter(coarse_only()).len(),
            kept <= i,
            text@ == spaced(all.take(i as int).filter(coarse_only())),
        decreases groups.len() - i,
    {
        let ghost before = all.take(i as int);
        proof {
            assert(all.take(i + 1) =~= before.push(all[i as int]));
            before.lemma_filter_push(all[i as int], coarse_only());
            assert(all[i as int] == groups[i as int]@);
        }
        if is_coarse(groups[i].as_str()) {
            let ghost shown = before.filter(coarse_only());
            if kept > 0 {
                text.append(" ");
            }
            text.append(groups[i].as_str());
            kept = kept + 1;
            proof {
                let grown = shown.push(all[i as int]);
                assert(grown.drop_last() =~= shown);
                assert(text@ =~= spaced(grown));
            }
        }
        i = i + 1;
    }
    proof {
        assert(all.take(groups.len() as int) =~= all);
    }
    text.append(" ago");
    text
}

/// When the on-trail flag was last written, in words, given the time that
/// has passed since: seconds, and nanoseconds under a second.
pub open spec fn last_updated_text(elapsed: Option<(u64, u32)>) -> Seq<char> {
    match elapsed {
        None => "never"@,
        Some((secs, nanos)) => ago_text(whitespace_groups(formatted_duration(secs, nanos))),
    }
}

/// Says when the on-trail flag was last written: "never" where it never was,
/// else how long ago, down to the second.
pub fn last_updated(elapsed: Option<(u64, u32)>) -> (text: String)
    requires
        elapsed matches Some((_, nanos)) ==> nanos < 1_000_000_000,
    ensures
        text@ == last_updated_text(elapsed),
{
    match elapsed {
        None => String::from_str("never"),
        Some((secs, nanos)) => {
            let formatted = format_duration(secs, nanos);
            let groups = split_whitespace(formatted.as_str());
            ago(&groups)
        },
    }
}

} // verus!

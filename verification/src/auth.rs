//! The life of the OAuth credential: when the cached token still serves, when
//! it has to be refreshed or loaded, and what a grant's answer amounts to.
//!
//! The token endpoint and the token store are reached by the caller. A
//! [`TokenManager`] holds the token in memory and decides; the caller performs
//! the request it is told to make and hands the answer back.

use vstd::prelude::*;
use crate::http::ErrorKind;
use crate::text::{decimal, u64_to_string};
use vstd::string::StringExecFns;

verus! {

/// The credential as it is stored: replaced as a whole on every grant.
#[derive(Debug)]
pub struct TokenData {
    /// The moment, in seconds since the Unix epoch, at which the access
    /// token expires.
    pub expires_at: u64,
    pub access_token: String,
    pub refresh_token: String,
}

/// `TokenData` with its text as sequences of characters.
pub struct TokenDataView {
    pub expires_at: u64,
    pub access_token: Seq<char>,
    pub refresh_token: Seq<char>,
}

impl View for TokenData {
    type V = TokenDataView;

    open spec fn view(&self) -> TokenDataView {
        TokenDataView {
            expires_at: self.expires_at,
            access_token: self.access_token@,
            refresh_token: self.refresh_token@,
        }
    }
}

impl DeepView for TokenData {
    type V = TokenDataView;

    open spec fn deep_view(&self) -> TokenDataView {
        self@
    }
}

impl Clone for TokenData {
    fn clone(&self) -> (copy: TokenData)
        ensures
            copy@ == self@,
    {
        TokenData {
            expires_at: self.expires_at,
            access_token: self.access_token.clone(),
            refresh_token: self.refresh_token.clone(),
        }
    }
}

/// The account that a grant was made for.
#[derive(Clone, Copy, Debug, PartialEq, Eq, Structural)]
pub struct Athlete {
    pub id: u64,
}

/// What the token endpoint answers to a grant.
#[derive(Debug)]
pub struct StravaTokenResponse {
    pub token_type: String,
    pub expires_at: u64,
    pub expires_in: u64,
    pub refresh_token: String,
    pub access_token: String,
    pub athlete: Option<Athlete>,
}

/// The credential inside a grant's answer.
pub open spec fn granted_token(response: StravaTokenResponse) -> TokenDataView {
    TokenDataView {
        expires_at: response.expires_at,
        access_token: response.access_token@,
        refresh_token: response.refresh_token@,
    }
}

impl From<StravaTokenResponse> for TokenData {
    fn from(val: StravaTokenResponse) -> (token: TokenData) {
        TokenData {
            expires_at: val.expires_at,
            access_token: val.access_token,
            refresh_token: val.refresh_token,
        }
    }
}

impl vstd::std_specs::convert::FromSpecImpl<StravaTokenResponse> for TokenData {
    open spec fn obeys_from_spec() -> bool {
        true
    }

    open spec fn from_spec(val: StravaTokenResponse) -> TokenData {
        TokenData {
            expires_at: val.expires_at,
            access_token: val.access_token,
            refresh_token: val.refresh_token,
        }
    }
}

/// Why no credential could be had.
#[derive(Clone, Copy, Debug, PartialEq, Eq, Structural)]
pub enum AuthError {
    /// The token store holds no credential: somebody has to authorize first.
    NoStoredToken,
    /// The grant names an account, and no account is configured to expect.
    NoExpectedUser,
    /// The grant was made for another account than the configured one.
    UserMismatch,
    /// The token endpoint gave no usable answer.
    Grant(ErrorKind),
}

/// Whether a token still serves at `now`, in seconds since the Unix epoch:
/// its expiry lies in the future. A token that expires in this very second
/// has expired.
pub open spec fn usable_at(token: TokenDataView, now: u64) -> bool {
    token.expires_at > now
}

/// What has to happen before a token can be handed out.
#[derive(Debug)]
pub enum TokenStep {
    /// The cached token serves.
    Ready(TokenData),
    /// The cached token has expired: redeem this refresh token, then call
    /// [`TokenManager::get_token_from_refresh`].
    Refresh(String),
    /// Nothing is cached: read the token store, then call
    /// [`TokenManager::load`], which says what to do with what was found.
    Load,
}

/// `TokenStep` with its text as sequences of characters.
pub enum TokenStepView {
    Ready(TokenDataView),
    Refresh(Seq<char>),
    Load,
}

impl DeepView for TokenStep {
    type V = TokenStepView;

    open spec fn deep_view(&self) -> TokenStepView {
        match self {
            TokenStep::Ready(token) => TokenStepView::Ready(token@),
            TokenStep::Refresh(refresh_token) => TokenStepView::Refresh(refresh_token@),
            TokenStep::Load => TokenStepView::Load,
        }
    }
}

/// The step that a cache calls for at `now`.
pub open spec fn token_step(cached: Option<TokenDataView>, now: u64) -> TokenStepView {
    match cached {
        Some(token) => if usable_at(token, now) {
            TokenStepView::Ready(token)
        } else {
            TokenStepView::Refresh(token.refresh_token)
        },
        None => TokenStepView::Load,
    }
}

/// Whether a grant's answer is for the expected account.
///
/// An answer that names no account passes. One that names an account passes
/// where an account is configured and is that account's id in decimal,
/// character for character.
pub open spec fn account_check(
    athlete: Option<Athlete>,
    expected_user_id: Option<Seq<char>>,
) -> Result<(), AuthError> {
    match athlete {
        None => Ok(()),
        Some(athlete) => match expected_user_id {
            None => Err(AuthError::NoExpectedUser),
            Some(expected) => if decimal(athlete.id as nat) == expected {
                Ok(())
            } else {
                Err(AuthError::UserMismatch)
            },
        },
    }
}

/// What an authorization-code grant amounts to.
pub open spec fn code_grant_outcome(
    answer: Result<StravaTokenResponse, ErrorKind>,
    expected_user_id: Option<Seq<char>>,
) -> Result<TokenDataView, AuthError> {
    match answer {
        Err(kind) => Err(AuthError::Grant(kind)),
        Ok(response) => match account_check(response.athlete, expected_user_id) {
            Err(error) => Err(error),
            Ok(()) => Ok(granted_token(response)),
        },
    }
}

/// What a refresh-token grant amounts to.
pub open spec fn refresh_grant_outcome(answer: Result<StravaTokenResponse, ErrorKind>) -> Result<
    TokenDataView,
    AuthError,
> {
    match answer {
        Err(kind) => Err(AuthError::Grant(kind)),
        Ok(response) => Ok(granted_token(response)),
    }
}

/// The cache after an attempt to obtain a token: a token takes the place of
/// what was cached, a failure leaves the cache as it was.
pub open spec fn cache_after(
    cached: Option<TokenDataView>,
    outcome: Result<TokenDataView, AuthError>,
) -> Option<TokenDataView> {
    match outcome {
        Ok(token) => Some(token),
        Err(_) => cached,
    }
}

/// A result with its token as a view.
pub open spec fn result_view(result: Result<TokenData, AuthError>) -> Result<
    TokenDataView,
    AuthError,
> {
    match result {
        Ok(token) => Ok(token@),
        Err(error) => Err(error),
    }
}

/// A result with its step as a view.
pub open spec fn step_view(step: Result<TokenStep, AuthError>) -> Result<TokenStepView, AuthError> {
    match step {
        Ok(step) => Ok(step.deep_view()),
        Err(error) => Err(error),
    }
}

/// Checks a grant's answer against the expected account.
pub fn check_account(athlete: Option<Athlete>, expected_user_id: Option<&str>) -> (checked: Result<
    (),
    AuthError,
>)
    ensures
        checked == account_check(athlete, expected_user_id.deep_view()),
{
    match athlete {
        None => Ok(()),
        Some(athlete) => match expected_user_id {
            None => Err(AuthError::NoExpectedUser),
            Some(expected) => {
                let id = u64_to_string(athlete.id);
                if *id.as_str() == *expected {
                    Ok(())
                } else {
                    Err(AuthError::UserMismatch)
                }
            },
        },
    }
}

/// The holder of the one credential that the process uses.
#[derive(Debug)]
pub struct TokenManager {
    cached: Option<TokenData>,
}

impl TokenManager {
    /// The token held in memory.
    pub closed spec fn cached(self) -> Option<TokenDataView> {
        self.cached.deep_view()
    }

    /// A manager that has not seen a token yet.
    pub fn new() -> (manager: TokenManager)
        ensures
            manager.cached().is_none(),
    {
        TokenManager { cached: None }
    }

    /// Whether a token is held in memory, usable or not.
    pub fn has_token(&self) -> (held: bool)
        ensures
            held == self.cached().is_some(),
    {
        self.cached.is_some()
    }

    /// Says how a token is to be had at `now` (seconds since the Unix epoch):
    /// from memory while the cached one expires in the future, by a refresh
    /// when it does not, from the store when nothing is cached.
    pub fn get_token(&self, now: u64) -> (step: TokenStep)
        ensures
            step.deep_view() == token_step(self.cached(), now),
    {
        match &self.cached {
            Some(token) => {
                if token.expires_at > now {
                    TokenStep::Ready(token.clone())
                } else {
                    TokenStep::Refresh(token.refresh_token.clone())
                }
            },
            None => TokenStep::Load,
        }
    }

    /// Takes what the token store held and says how a token is to be had at
    /// `now` with it.
    ///
    /// A stored token is cached, and it is looked at as a cached one is: it
    /// serves where it expires in the future and is to be refreshed where it
    /// does not. An empty store is an error and leaves the cache as it was.
    pub fn load(&mut self, stored: Option<TokenData>, now: u64) -> (step: Result<
        TokenStep,
        AuthError,
    >)
        ensures
            step_view(step) == match stored.deep_view() {
                Some(found) => Ok::<TokenStepView, AuthError>(token_step(Some(found), now)),
                None => Err(AuthError::NoStoredToken),
            },
            final(self).cached() == match stored.deep_view() {
                Some(found) => Some(found),
                None => old(self).cached(),
            },
    {
        match stored {
            Some(found) => {
                self.cached = Some(found);
                Ok(self.get_token(now))
            },
            None => Err(AuthError::NoStoredToken),
        }
    }

    /// Takes the answer to a refresh-token grant. A granted token replaces
    /// the cached one and is returned, for the caller to write to the token
    /// store; a failure leaves the cache as it was.
    pub fn get_token_from_refresh(
        &mut self,
        answer: Result<StravaTokenResponse, ErrorKind>,
    ) -> (token: Result<TokenData, AuthError>)
        ensures
            result_view(token) == refresh_grant_outcome(answer),
            final(self).cached() == cache_after(old(self).cached(), refresh_grant_outcome(answer)),
    {
        match answer {
            Err(kind) => Err(AuthError::Grant(kind)),
            Ok(response) => {
                let granted = TokenData::from(response);
                let token = granted.clone();
                self.cached = Some(granted);
                Ok(token)
            },
        }
    }

    /// Takes the answer to an authorization-code grant.
    ///
    /// The grant counts only if it was made for the expected account. A
    /// granted token replaces the cached one and is returned, for the caller
    /// to write to the token store; a failure leaves the cache as it was.
    pub fn get_token_from_code(
        &mut self,
        answer: Result<StravaTokenResponse, ErrorKind>,
        expected_user_id: Option<&str>,
    ) -> (token: Result<TokenData, AuthError>)
        ensures
            result_view(token) == code_grant_outcome(answer, expected_user_id.deep_view()),
            final(self).cached() == cache_after(
                old(self).cached(),
                code_grant_outcome(answer, expected_user_id.deep_view()),
            ),
    {
        match answer {
            Err(kind) => Err(AuthError::Grant(kind)),
            Ok(response) => match check_account(response.athlete, expected_user_id) {
                Err(error) => Err(error),
                Ok(()) => {
                    let granted = TokenData::from(response);
                    let token = granted.clone();
                    self.cached = Some(granted);
                    Ok(token)
                },
            },
        }
    }
}

/// An expired token is refreshed once and then reused.
///
/// Where the cached token has expired at `now`, the manager asks for exactly
/// that token's refresh token to be redeemed. Once a grant has answered with a
/// token that serves at `now`, the cache holds that token, and a second
/// request at `now` is served from memory without another grant.
pub proof fn lemma_refresh_then_reuse(
    cached: TokenDataView,
    answer: Result<StravaTokenResponse, ErrorKind>,
    now: u64,
)
    requires
        !usable_at(cached, now),
        answer matches Ok(response) && usable_at(granted_token(response), now),
    ensures
        token_step(Some(cached), now) == TokenStepView::Refresh(cached.refresh_token),
        refresh_grant_outcome(answer) == Ok::<TokenDataView, AuthError>(
            granted_token(answer->Ok_0),
        ),
        token_step(cache_after(Some(cached), refresh_grant_outcome(answer)), now)
            == TokenStepView::Ready(granted_token(answer->Ok_0)),
{
}

/// A stored token that has expired is refreshed before it is handed out.
///
/// With nothing cached the manager asks for the store to be read. Where the
/// store holds a token that has expired at `now`, loading it asks for that
/// token's refresh token to be redeemed and hands no token out. Once a grant
/// has answered with a token that serves at `now`, that token is cached and a
/// further request at `now` is served from memory. A stored token that still
/// serves is handed out as it is.
pub proof fn lemma_stored_token_is_checked(
    stored: TokenDataView,
    answer: Result<StravaTokenResponse, ErrorKind>,
    now: u64,
)
    requires
        answer matches Ok(response) && usable_at(granted_token(response), now),
    ensures
        token_step(None, now) == TokenStepView::Load,
        usable_at(stored, now) ==> token_step(Some(stored), now) == TokenStepView::Ready(stored),
        !usable_at(stored, now) ==> token_step(Some(stored), now) == TokenStepView::Refresh(
            stored.refresh_token,
        ),
        token_step(cache_after(Some(stored), refresh_grant_outcome(answer)), now)
            == TokenStepView::Ready(granted_token(answer->Ok_0)),
{
}

/// A failed grant changes nothing: the same request for a token is due again,
/// so a failure stays local to the cycle in which it happened.
pub proof fn lemma_failed_grant_keeps_cache(
    cached: Option<TokenDataView>,
    error: AuthError,
    now: u64,
)
    ensures
        token_step(cache_after(cached, Err(error)), now) == token_step(cached, now),
{
}

/// Where an authorization code is exchanged for a token.
pub const CODE_TOKEN_URL: &'static str = "https://www.strava.com/api/v3/oauth/token";

/// Where a refresh token is redeemed.
pub const REFRESH_TOKEN_URL: &'static str = "https://www.strava.com/oauth/token";

/// The parameters of a grant: the client, the thing presented under `key`,
/// and the kind of grant.
pub open spec fn grant_parameters(
    client_id: Seq<char>,
    client_secret: Seq<char>,
    key: Seq<char>,
    presented: Seq<char>,
    grant_type: Seq<char>,
) -> Seq<(Seq<char>, Seq<char>)> {
    seq![
        ("client_id"@, client_id),
        ("client_secret"@, client_secret),
        (key, presented),
        ("grant_type"@, grant_type),
    ]
}

fn grant(client_id: &str, client_secret: &str, key: &str, presented: &str, grant_type: &str) -> (
    parameters: Vec<(String, String)>)
    ensures
        parameters.deep_view() == grant_parameters(
            client_id@,
            client_secret@,
            key@,
            presented@,
            grant_type@,
        ),
{
    let mut parameters: Vec<(String, String)> = Vec::new();
    parameters.push((String::from_str("client_id"), String::from_str(client_id)));
    parameters.push((String::from_str("client_secret"), String::from_str(client_secret)));
    parameters.push((String::from_str(key), String::from_str(presented)));
    parameters.push((String::from_str("grant_type"), String::from_str(grant_type)));
    assert(parameters.deep_view() =~= grant_parameters(
        client_id@,
        client_secret@,
        key@,
        presented@,
        grant_type@,
    ));
    parameters
}

/// The parameters sent to [`CODE_TOKEN_URL`] to exchange an authorization
/// code.
pub fn code_grant(client_id: &str, client_secret: &str, code: &str) -> (parameters: Vec<
    (String, String),
>)
    ensures
        parameters.deep_view() == grant_parameters(
            client_id@,
            client_secret@,
            "code"@,
            code@,
            "authorization_code"@,
        ),
{
    grant(client_id, client_secret, "code", code, "authorization_code")
}

/// The parameters sent to [`REFRESH_TOKEN_URL`] to redeem a refresh token.
pub fn refresh_grant(client_id: &str, client_secret: &str, refresh_token: &str) -> (parameters:
    Vec<(String, String)>)
    ensures
        parameters.deep_view() == grant_parameters(
            client_id@,
            client_secret@,
            "refresh_token"@,
            refresh_token@,
            "refresh_token"@,
        ),
{
    grant(client_id, client_secret, "refresh_token", refresh_token, "refresh_token")
}

} // verus!

//! Credential records and the decisions of the token side-flow: when a
//! bearer token is due for renewal, and what a token-endpoint response
//! means. The HTTP exchange itself happens outside the library and hands
//! these functions plain values.

use vstd::prelude::*;
use crate::clock::sat_sub;
use crate::clock::safe_duration_sub;
use crate::clock::now_secs;

verus! {

broadcast use vstd::string::group_string_axioms;

/// How long before a token's stated expiry it is already treated as
/// stale, absorbing clock and latency slack.
pub const RENEW_SLACK_SECS: u64 = 60 * 2;

/// End-user and application credentials for the token exchange.
#[derive(Clone, Debug)]
pub struct Creds {
    pub username: String,
    pub password: String,
    pub app_id: String,
    pub app_secret: String,
}

/// A bearer token with its stated lifetime. `ttl` is the advertised
/// expiry in seconds; `fetched_at` is the issuance time in seconds since
/// the Unix epoch.
#[derive(Clone, Debug)]
pub struct OAuth {
    pub access_token: String,
    pub ttl: u64,
    pub fetched_at: u64,
}

/// Why a token exchange failed.
#[derive(Debug)]
pub enum OAuthError {
    /// Username or password wrong.
    BadUserCreds,
    /// Application id or secret wrong.
    BadAppCreds,
    /// A network-level failure, described by the transport.
    NetworkError(String),
    /// A response outside the recognized shapes; carries its status code.
    Other(u16),
}

/// Whether a token fetched at `fetched_at` must be renewed at time `now`:
/// true once the elapsed time reaches the stated lifetime less the
/// renewal slack. All three are whole seconds; elapsed time saturates at
/// zero if the clock reads earlier than the issuance time.
pub open spec fn renew_due(ttl: int, fetched_at: int, now: int) -> bool {
    sat_sub(now, fetched_at) >= sat_sub(ttl, RENEW_SLACK_SECS as int)
}

impl OAuth {
    /// Renewal decision against an explicit clock reading, in seconds
    /// since the Unix epoch.
    pub fn should_renew_at(oauth: &OAuth, now: u64) -> (r: bool)
        ensures
            r == renew_due(oauth.ttl as int, oauth.fetched_at as int, now as int),
    {
        safe_duration_sub(now, oauth.fetched_at) >= safe_duration_sub(oauth.ttl, RENEW_SLACK_SECS)
    }

    /// A token must be renewed if its ttl is expired two minutes from
    /// now; the slack avoids the case where a token expires between the
    /// check and the request. Reads the wall clock, so nothing can be
    /// promised of the answer; the decision itself is
    /// [`OAuth::should_renew_at`].
    pub fn should_renew(oauth: &OAuth) -> bool {
        let now: u64 = now_secs();
        OAuth::should_renew_at(oauth, now)
    }
}

impl Default for OAuth {
    /// The default token is empty and already expired, so it always
    /// triggers renewal (see [`lemma_default_oauth_renews`]).
    fn default() -> (o: OAuth)
        ensures
            o.access_token@ == Seq::<char>::empty(),
            o.ttl == 0,
            o.fetched_at == 0,
    {
        OAuth { access_token: String::new(), ttl: 0, fetched_at: 0 }
    }
}

/// The default token triggers renewal at every clock reading.
pub proof fn lemma_default_oauth_renews(now: int)
    requires
        now >= 0,
    ensures
        renew_due(0, 0, now),
{
}

/// The exact meaning of a token-endpoint response, from plain values: the
/// HTTP status, the success body's token and expiry if one parsed, the
/// error body's code if one parsed, and the clock reading at fetch time.
/// A 401 status means the application credentials were rejected; a parsed
/// success body yields a fresh token; an error body of `invalid_grant`
/// means the end-user credentials were rejected; anything else is
/// surfaced with its status code.
pub open spec fn token_outcome(
    status: u16,
    token: Option<(String, u64)>,
    error: Option<String>,
    now: u64,
) -> Result<OAuth, OAuthError> {
    if status == 401 {
        Err(OAuthError::BadAppCreds)
    } else {
        match token {
            Some(t) => Ok(OAuth { access_token: t.0, ttl: t.1, fetched_at: now }),
            None => match error {
                Some(e) => if e@ == "invalid_grant"@ {
                    Err(OAuthError::BadUserCreds)
                } else {
                    Err(OAuthError::Other(status))
                },
                None => Err(OAuthError::Other(status)),
            },
        }
    }
}

/// Decides what a token-endpoint response means. `token` is the access
/// token and expiry-in-seconds of a parsed success body; `error` is the
/// code of a parsed error body; `now` is the clock reading at fetch time
/// and becomes the new token's issuance time.
pub fn interpret_token_response(
    status: u16,
    token: Option<(String, u64)>,
    error: Option<String>,
    now: u64,
) -> (r: Result<OAuth, OAuthError>)
    ensures
        r == token_outcome(status, token, error, now),
{
    if status == 401 {
        return Err(OAuthError::BadAppCreds);
    }
    match token {
        Some(t) => Ok(OAuth { access_token: t.0, ttl: t.1, fetched_at: now }),
        None => match error {
            Some(e) => {
                let invalid_grant: String = "invalid_grant".to_string();
                if e == invalid_grant {
                    Err(OAuthError::BadUserCreds)
                } else {
                    Err(OAuthError::Other(status))
                }
            },
            None => Err(OAuthError::Other(status)),
        },
    }
}

} // verus!

//! The search-client side of the crawl: the item record a search result
//! carries, the error taxonomy a search can surface, the translation of a
//! time window into the half-open query range, and the reading of an HTTP
//! status code. The transport itself lives outside the library; it hands
//! these functions plain values.

use vstd::prelude::*;
use crate::clock::sat_sub;
use crate::clock::safe_duration_sub;

verus! {

/// One harvested submission. Counters are non-negative and carried with
/// headroom for the source API's loose numeric typing; timestamps are
/// whole seconds since the Unix epoch.
#[derive(Clone, Debug)]
pub struct Submission {
    pub title: String,
    pub url: String,
    pub ups: u64,
    pub downs: u64,
    pub score: u64,
    pub author: String,
    pub subreddit: String,
    pub stickied: bool,
    pub permalink: String,
    pub locked: bool,
    /// Creation time with the forum's local offset applied.
    pub created: u64,
    /// Creation time in UTC.
    pub created_utc: u64,
    pub is_self: bool,
    pub is_video: bool,
    pub id: String,
    pub name: String,
    pub num_comments: u64,
    pub domain: String,
    /// Empty string if there is no thumbnail.
    pub thumbnail: String,
}

/// Why a search request failed. None of these is retried inside the
/// library; the caller decides whether to renew credentials, retry, or
/// abort.
#[derive(Debug)]
pub enum ApiError {
    /// The bearer token was missing, wrong, or expired.
    BadToken,
    /// A network-level failure, described by the transport.
    NetworkError(String),
    /// The response body did not parse into the expected shape.
    UnexpectedBody(String),
    /// A response outside the recognized shapes; carries its status code.
    Other(u16),
}

/// What a search's HTTP status code means, before the body is read.
pub open spec fn status_outcome(status: u16) -> Option<ApiError> {
    if status == 401 || status == 403 {
        Some(ApiError::BadToken)
    } else if status == 200 {
        None
    } else {
        Some(ApiError::Other(status))
    }
}

/// Reads a search response's status code. The endpoint answers 401 when
/// the bearer header is absent and 403 when the token is wrong, so both
/// mean a bad token; 200 means the body should be parsed; anything else
/// is surfaced with its code.
pub fn classify_search_status(status: u16) -> (r: Option<ApiError>)
    ensures
        r == status_outcome(status),
{
    if status == 401 || status == 403 {
        Some(ApiError::BadToken)
    } else if status == 200 {
        None
    } else {
        Some(ApiError::Other(status))
    }
}

/// Translates a window into the half-open query range `[start, stop)` of
/// seconds since the epoch: `start = max(epoch, cursor_before - window)`,
/// `stop = cursor_before`. The lower bound is clamped to the epoch so a
/// cursor near the epoch never underflows.
pub fn query_range(cursor_before: u64, window: u64) -> (r: (u64, u64))
    ensures
        r.0 == sat_sub(cursor_before as int, window as int),
        r.1 == cursor_before,
        r.0 <= r.1,
{
    (safe_duration_sub(cursor_before, window), cursor_before)
}

} // verus!

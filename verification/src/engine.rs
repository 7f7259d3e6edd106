//! The crawl engine: the state threaded from one step to the next, and
//! the single step transition that interprets a search response to decide
//! the next time window, pagination cursor, and page number, to resize
//! the window toward the target item-count band, and to detect when the
//! forum's whole history has been traversed.

use vstd::prelude::*;
use crate::api::Submission;
use crate::clock::sat_sub;
use crate::clock::now_secs;

verus! {

/// Seconds in a (non-leap) year; the default upper bound on the window.
pub const SECONDS_PER_YEAR: u64 = 31_536_000;

/// The forum's submission timestamps run ahead of UTC by this fixed
/// offset, so the starting cursor is pushed forward by it.
pub const FORUM_TIMESTAMP_OFFSET_SECS: u64 = 60 * 60 * 8;

/// The minimum spacing between two requests, in milliseconds.
pub const MIN_REQUEST_SPACING_MS: u64 = 1000;

/// Everything the crawl carries between steps. A new value is produced
/// on every successful step; nothing is mutated in place.
#[derive(Clone, Debug)]
pub struct State {
    /// The forum being harvested.
    pub subreddit: String,
    /// Hard lower bound on `interval`, in seconds.
    pub min_interval: u64,
    /// Hard upper bound on `interval`, in seconds.
    pub max_interval: u64,
    /// Continuation token for the current window; `None` means the next
    /// request starts a fresh window.
    pub after: Option<String>,
    /// 1 when starting a new window, incremented while paginating.
    pub page: u32,
    /// Exclusive upper bound of the next time window, in seconds since
    /// the Unix epoch; moves backward as the crawl progresses.
    pub max: u64,
    /// Current width of the time window, in seconds.
    pub interval: u64,
    /// When the previous request was dispatched, in milliseconds since
    /// the Unix epoch; used only to throttle.
    pub prev_request_at: u64,
}

/// What the user configures to create the initial state.
#[derive(Debug)]
pub struct Config {
    pub init_interval: u64,
    pub min_interval: u64,
    pub max_interval: u64,
    /// Starting cursor, in seconds since the Unix epoch.
    pub init_max: u64,
}

impl Default for Config {
    /// A 15-minute starting window bounded between 10 minutes and one
    /// year, starting from the current wall clock (of which nothing can
    /// be promised).
    fn default() -> (c: Config)
        ensures
            c.init_interval == 60 * 15,
            c.min_interval == 60 * 10,
            c.max_interval == SECONDS_PER_YEAR,
            c.min_interval <= c.init_interval <= c.max_interval,
    {
        Config {
            init_interval: 60 * 15,
            min_interval: 60 * 10,
            max_interval: SECONDS_PER_YEAR,
            init_max: now_secs(),
        }
    }
}

/// The invariant every reachable state satisfies: the window is inside
/// its hard bounds, pages count from one, and the page number says
/// whether the state was produced by a request that carried a
/// continuation token.
pub open spec fn wf(s: State) -> bool {
    &&& s.page >= 1
    &&& s.min_interval <= s.interval <= s.max_interval
    &&& (s.page == 1 <==> s.after is None)
}

impl State {
    /// The initial state for one forum: a fresh window of the configured
    /// width, page one, no continuation token, and a starting cursor
    /// pushed forward by the forum's timestamp offset. The previous
    /// request time starts at the epoch, so the first step is never
    /// throttled.
    pub fn new(subreddit: String, config: &Config) -> (s: State)
        requires
            config.min_interval <= config.init_interval <= config.max_interval,
            config.init_max + FORUM_TIMESTAMP_OFFSET_SECS <= u64::MAX,
        ensures
            s.subreddit == subreddit,
            s.min_interval == config.min_interval,
            s.max_interval == config.max_interval,
            s.after is None,
            s.page == 1,
            s.interval == config.init_interval,
            s.max == config.init_max + FORUM_TIMESTAMP_OFFSET_SECS,
            s.prev_request_at == 0,
            wf(s),
    {
        State {
            subreddit,
            min_interval: config.min_interval,
            max_interval: config.max_interval,
            after: None,
            page: 1,
            interval: config.init_interval,
            max: config.init_max + FORUM_TIMESTAMP_OFFSET_SECS,
            prev_request_at: 0,
        }
    }
}

/// Ensure a value lies in an inclusive range. If out of range, the
/// violated bound is returned.
///
///     clamp(1, 3, 10) == 3
///     clamp(11, 3, 10) == 10
///     clamp(5, 3, 10) == 5
pub open spec fn clamp_of(value: int, min: int, max: int) -> int {
    if value < min {
        min
    } else if value > max {
        max
    } else {
        value
    }
}

/// Executable counterpart of [`clamp_of`].
pub fn clamp(value: u64, min: u64, max: u64) -> (r: u64)
    ensures
        r == clamp_of(value as int, min as int, max as int),
{
    if value < min {
        min
    } else if value > max {
        max
    } else {
        value
    }
}

/// A grown window: half again as wide.
pub open spec fn grow_of(w: int) -> int {
    w + w / 2
}

/// A shrunk window: narrowed by a twentieth.
pub open spec fn shrink_of(w: int) -> int {
    w - w / 20
}

/// The window width asked for after a first-page response of `n` items,
/// before clamping: an empty or under-filled page (fewer than 50 items)
/// grows the window, a full page (100 items, implying more lie beyond
/// the page limit) shrinks it, and a count in the 50..=99 band leaves it
/// unchanged.
pub open spec fn raw_next_interval(w: int, n: int) -> int {
    if n == 0 {
        grow_of(w)
    } else if n < 50 {
        grow_of(w)
    } else if n == 100 {
        shrink_of(w)
    } else {
        w
    }
}

/// We adjust the interval until we get 50-99 submissions per request.
/// We want 50+ results so that we're making fewer requests, but at most
/// 99 so the page limit is never hit: a full page means the window's
/// true population is unknown and only reachable through lossy cursor
/// pagination.
pub fn get_next_interval(interval: u64, page_size: usize) -> (r: u64)
    requires
        page_size < 50 ==> interval + interval as int / 2 <= u64::MAX,
    ensures
        r == raw_next_interval(interval as int, page_size as int),
{
    if page_size == 0 {
        // no results: increasing interval
        interval + interval / 2
    } else if page_size < 50 {
        // found <50 submissions: increasing interval
        interval + interval / 2
    } else if page_size == 100 {
        // i.e. first page is full thus there's another page
        // found 100 submissions: shrinking interval
        interval - interval / 20
    } else {
        // found 50-99 submissions: not changing interval
        interval
    }
}

/// How long to wait before dispatching the next request, in
/// milliseconds: the remainder of the minimum spacing since the previous
/// request, or zero once it has elapsed. Waiting this long guarantees
/// the dispatch time is at least the minimum spacing after
/// `prev_request_at`.
pub fn throttle_delay_ms(prev_request_at: u64, now: u64) -> (r: u64)
    requires
        prev_request_at <= now,
    ensures
        now - prev_request_at >= MIN_REQUEST_SPACING_MS ==> r == 0,
        now - prev_request_at < MIN_REQUEST_SPACING_MS
            ==> r == MIN_REQUEST_SPACING_MS - (now - prev_request_at),
        now + r >= prev_request_at + MIN_REQUEST_SPACING_MS,
{
    let elapsed = now - prev_request_at;
    if elapsed >= MIN_REQUEST_SPACING_MS {
        0
    } else {
        MIN_REQUEST_SPACING_MS - elapsed
    }
}

/// Whether a step concludes the crawl: the request was issued at the
/// maximum allowed window width and still found nothing, so the forum's
/// entire history has been traversed. This is the only termination
/// condition.
pub open spec fn complete_of(s: State, n: int) -> bool {
    s.interval == s.max_interval && n == 0
}

/// The next cursor: unchanged while a continuation token keeps the
/// current window open; moved one window width further into the past
/// (clamped to the epoch) when the window closes.
pub open spec fn next_max_of(s: State, has_token: bool) -> int {
    if has_token {
        s.max as int
    } else {
        sat_sub(s.max as int, s.interval as int)
    }
}

/// The next window width: resized from the observed item count and
/// clamped into the hard bounds when the step was a first-page request;
/// frozen while paginating deeper, since resizing mid-window would
/// corrupt the range being walked.
pub open spec fn next_interval_of(s: State, n: int) -> int {
    if s.page == 1 {
        clamp_of(raw_next_interval(s.interval as int, n), s.min_interval as int, s.max_interval as int)
    } else {
        s.interval as int
    }
}

/// The next page number: deeper into the window while a continuation
/// token was returned, back to one when the window closes.
pub open spec fn next_page_of(s: State, has_token: bool) -> int {
    if has_token {
        s.page as int + 1
    } else {
        1
    }
}

/// What one step produces: a batch of items with the state to thread
/// into the next call, or the terminal signal that the crawl is done.
#[derive(Debug)]
pub enum StepOutcome {
    Progress(Vec<Submission>, State),
    Complete,
}

/// The full relation between a step's inputs and its outcome. `items` is
/// what the search returned, `next_after` its continuation token, and
/// `now_ms` the clock reading recorded as the new dispatch time.
pub open spec fn step_post(
    s: State,
    items: Seq<Submission>,
    next_after: Option<String>,
    now_ms: u64,
    r: StepOutcome,
) -> bool {
    match r {
        StepOutcome::Complete => complete_of(s, items.len() as int),
        StepOutcome::Progress(out, ns) => {
            &&& !complete_of(s, items.len() as int)
            &&& out@ == items
            &&& ns.subreddit == s.subreddit
            &&& ns.min_interval == s.min_interval
            &&& ns.max_interval == s.max_interval
            &&& ns.after == next_after
            &&& ns.page == next_page_of(s, next_after is Some)
            &&& ns.max == next_max_of(s, next_after is Some)
            &&& ns.interval == next_interval_of(s, items.len() as int)
            &&& ns.prev_request_at == now_ms
        },
    }
}

/// One step of the crawl, after the search response has arrived: decide
/// completion, advance or hold the cursor, resize or freeze the window,
/// and record the dispatch time. The items pass through unchanged. The
/// caller is responsible for the throttle delay before the request and
/// for looping.
pub fn step(
    state: &State,
    items: Vec<Submission>,
    next_after: Option<String>,
    now_ms: u64,
) -> (r: StepOutcome)
    requires
        wf(*state),
        state.page < u32::MAX,
        state.page == 1 ==> state.interval + state.interval as int / 2 <= u64::MAX,
    ensures
        step_post(*state, items@, next_after, now_ms, r),
        r is Complete <==> complete_of(*state, items@.len() as int),
        r matches StepOutcome::Progress(_out, ns) ==> wf(ns) && ns.max <= state.max,
        r matches StepOutcome::Progress(_out, ns) ==> ((next_after is None && state.max > 0
            && state.interval > 0) ==> ns.max < state.max),
{
    // If we queried with the maximum interval and still found nothing,
    // we have reached the end of the forum's history.
    if state.interval == state.max_interval && items.len() == 0 {
        return StepOutcome::Complete;
    }

    // The next request's upper bound is the lower bound of this one,
    // crawling back in time — unless a token keeps this window open.
    let next_max: u64 = match next_after {
        None => if state.max < state.interval {
            0
        } else {
            state.max - state.interval
        },
        Some(_) => state.max,
    };

    // Resize only on first-page requests; while paginating, the window
    // is frozen so the issued cursor/width pairing stays valid.
    let next_interval: u64 = if state.page == 1 {
        clamp(
            get_next_interval(state.interval, items.len()),
            state.min_interval,
            state.max_interval,
        )
    } else {
        state.interval
    };

    let next_page: u32 = match next_after {
        None => 1,
        Some(_) => state.page + 1,
    };

    let new_state = State {
        subreddit: state.subreddit.clone(),
        min_interval: state.min_interval,
        max_interval: state.max_interval,
        after: next_after,
        page: next_page,
        max: next_max,
        interval: next_interval,
        prev_request_at: now_ms,
    };

    StepOutcome::Progress(items, new_state)
}

} // verus!

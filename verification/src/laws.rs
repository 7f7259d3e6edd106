//! The guarantees the crawl engine gives across whole runs, stated over
//! the spec model of [`crate::engine::step`] and proved once and for
//! all: the cursor never moves forward, the window never leaves its hard
//! bounds, resizing happens only on first-page requests, counts inside
//! the target band leave the window alone, and counts outside it move
//! the window in the right direction.

use vstd::prelude::*;
use crate::api::Submission;
use crate::engine::State;
use crate::engine::StepOutcome;
use crate::engine::wf;
use crate::engine::complete_of;
use crate::engine::next_max_of;
use crate::engine::next_interval_of;
use crate::engine::next_page_of;
use crate::engine::raw_next_interval;
use crate::engine::step_post;

verus! {

/// One successful (non-terminal) step relates `s` to `ns` with observed
/// item count `n` and a response that did or did not carry a
/// continuation token.
pub open spec fn step_rel(s: State, ns: State, n: int, has_token: bool) -> bool {
    &&& 0 <= n
    &&& !complete_of(s, n)
    &&& ns.min_interval == s.min_interval
    &&& ns.max_interval == s.max_interval
    &&& ns.page == next_page_of(s, has_token)
    &&& ns.max == next_max_of(s, has_token)
    &&& ns.interval == next_interval_of(s, n)
    &&& ((ns.after is Some) == has_token)
}

/// `ns` can be produced from `s` by some successful step.
pub open spec fn steps_to(s: State, ns: State) -> bool {
    exists|n: int, has_token: bool| step_rel(s, ns, n, has_token)
}

/// Every `Progress` outcome of the step function is a step of the
/// relation the laws below quantify over.
pub proof fn lemma_step_in_relation(
    s: State,
    items: Seq<Submission>,
    next_after: Option<String>,
    now_ms: u64,
    out: Vec<Submission>,
    ns: State,
)
    requires
        wf(s),
        step_post(s, items, next_after, now_ms, StepOutcome::Progress(out, ns)),
    ensures
        steps_to(s, ns),
{
    assert(step_rel(s, ns, items.len() as int, next_after is Some));
}

/// Monotonic cursor, one step: a successful step never moves the cursor
/// forward in time.
pub proof fn lemma_cursor_monotonic_step(s: State, ns: State)
    requires
        steps_to(s, ns),
    ensures
        ns.max <= s.max,
{
    let (n, has_token) = choose|n: int, has_token: bool| step_rel(s, ns, n, has_token);
}

/// Monotonic cursor: along any chain of successful steps, every later
/// state's cursor is at or before every earlier state's cursor.
pub proof fn lemma_cursor_monotonic(tr: Seq<State>, i: int, j: int)
    requires
        forall|k: int| 0 <= k < tr.len() - 1 ==> #[trigger] steps_to(tr[k], tr[k + 1]),
        0 <= i <= j < tr.len(),
    ensures
        tr[j].max <= tr[i].max,
    decreases j - i,
{
    if i < j {
        lemma_cursor_monotonic(tr, i, j - 1);
        assert(steps_to(tr[j - 1], tr[(j - 1) + 1]));
        lemma_cursor_monotonic_step(tr[j - 1], tr[j]);
    }
}

/// Monotonic cursor, strictly: when a response carries no continuation
/// token the window closes, and a cursor not already at the epoch with
/// a non-degenerate window moves strictly backward.
pub proof fn lemma_cursor_strict_on_close(s: State, ns: State, n: int)
    requires
        step_rel(s, ns, n, false),
        s.max > 0,
        s.interval > 0,
    ensures
        ns.max < s.max,
{
}

/// Window bounds: a successful step out of a well-formed state lands in
/// a well-formed state, so in every reachable state the window lies
/// inside its hard bounds.
pub proof fn lemma_window_bounds(s: State, ns: State)
    requires
        wf(s),
        steps_to(s, ns),
    ensures
        wf(ns),
        ns.min_interval <= ns.interval <= ns.max_interval,
{
    let (n, has_token) = choose|n: int, has_token: bool| step_rel(s, ns, n, has_token);
}

/// Window bounds along a whole run: every state reachable from a
/// well-formed starting state by successful steps is well-formed, so
/// its window lies inside the hard bounds.
pub proof fn lemma_window_bounds_trace(tr: Seq<State>, k: int)
    requires
        tr.len() > 0,
        wf(tr[0]),
        forall|i: int| 0 <= i < tr.len() - 1 ==> #[trigger] steps_to(tr[i], tr[i + 1]),
        0 <= k < tr.len(),
    ensures
        wf(tr[k]),
        tr[k].min_interval <= tr[k].interval <= tr[k].max_interval,
    decreases k,
{
    if k > 0 {
        lemma_window_bounds_trace(tr, k - 1);
        assert(steps_to(tr[k - 1], tr[(k - 1) + 1]));
        lemma_window_bounds(tr[k - 1], tr[k]);
    }
}

/// Resize only on first pages: whatever the item count, a step taken
/// while paginating (input page number above one) keeps the window
/// width.
pub proof fn lemma_resize_only_on_first_page(s: State, n: int)
    requires
        s.page > 1,
    ensures
        next_interval_of(s, n) == s.interval,
{
}

/// Band stability: a first-page response whose item count lies in the
/// 50..=99 band keeps the window width.
pub proof fn lemma_band_stability(s: State, n: int)
    requires
        wf(s),
        s.page == 1,
        50 <= n <= 99,
    ensures
        next_interval_of(s, n) == s.interval,
{
}

/// Growth direction: an empty or under-filled page (fewer than 50
/// items) asks for a strictly wider window, before clamping. A window
/// of width below two seconds cannot grow by half of itself.
pub proof fn lemma_grow_direction(w: int, n: int)
    requires
        w >= 2,
        0 <= n < 50,
    ensures
        raw_next_interval(w, n) > w,
{
}

/// Shrink direction: a full page (100 items) asks for a strictly
/// narrower window, before clamping. A window of width below twenty
/// seconds cannot shrink by a twentieth of itself.
pub proof fn lemma_shrink_direction(w: int)
    requires
        w >= 20,
    ensures
        raw_next_interval(w, 100) < w,
{
}

} // verus!

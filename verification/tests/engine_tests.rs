use subcrawl::api::{classify_search_status, query_range, ApiError, Submission};
use subcrawl::engine::{
    clamp, get_next_interval, step, throttle_delay_ms, Config, State, StepOutcome,
    FORUM_TIMESTAMP_OFFSET_SECS, SECONDS_PER_YEAR,
};

fn sample_submission() -> Submission {
    Submission {
        title: "title".to_string(),
        url: "https://example.com/x".to_string(),
        ups: 10,
        downs: 2,
        score: 8,
        author: "someone".to_string(),
        subreddit: "rust".to_string(),
        stickied: false,
        permalink: "/r/rust/comments/abc".to_string(),
        locked: false,
        created: 1_500_028_800,
        created_utc: 1_500_000_000,
        is_self: true,
        is_video: false,
        id: "abc".to_string(),
        name: "t3_abc".to_string(),
        num_comments: 3,
        domain: "self.rust".to_string(),
        thumbnail: "".to_string(),
    }
}

fn submissions(n: usize) -> Vec<Submission> {
    let mut v = Vec::new();
    for _ in 0..n {
        v.push(sample_submission());
    }
    v
}

fn fresh_state(interval: u64, min: u64, max_interval: u64, cursor: u64) -> State {
    State {
        subreddit: "rust".to_string(),
        min_interval: min,
        max_interval,
        after: None,
        page: 1,
        max: cursor,
        interval,
        prev_request_at: 0,
    }
}

#[test]
fn full_page_with_token_paginates_deeper() {
    // window 900s, max window one year; 100 items and a continuation
    // token: cursor unchanged, page becomes 2, token kept, and — since
    // the input was a first-page request with a full page — the window
    // shrinks by a twentieth for the next fresh window.
    let s = fresh_state(900, 600, SECONDS_PER_YEAR, 1_500_000_000);
    let r = step(&s, submissions(100), Some("t3_cursor".to_string()), 5_000);
    match r {
        StepOutcome::Progress(items, ns) => {
            assert_eq!(items.len(), 100);
            assert_eq!(ns.interval, 855);
            assert_eq!(ns.page, 2);
            assert_eq!(ns.max, 1_500_000_000);
            assert_eq!(ns.after, Some("t3_cursor".to_string()));
            assert_eq!(ns.prev_request_at, 5_000);
            assert_eq!(ns.min_interval, 600);
            assert_eq!(ns.max_interval, SECONDS_PER_YEAR);
            assert_eq!(ns.subreddit, "rust".to_string());
        }
        StepOutcome::Complete => panic!("expected progress"),
    }
}

#[test]
fn empty_page_below_max_window_grows_and_advances() {
    // 0 items, no token, window below the maximum: the cursor moves one
    // window back, the page resets, and the window grows by half.
    let s = fresh_state(900, 600, SECONDS_PER_YEAR, 1_500_000_000);
    let r = step(&s, submissions(0), None, 5_000);
    match r {
        StepOutcome::Progress(items, ns) => {
            assert_eq!(items.len(), 0);
            assert_eq!(ns.page, 1);
            assert_eq!(ns.max, 1_500_000_000 - 900);
            assert_eq!(ns.interval, 1_350);
            assert_eq!(ns.after, None);
        }
        StepOutcome::Complete => panic!("expected progress"),
    }
}

#[test]
fn empty_page_at_max_window_completes() {
    let s = fresh_state(SECONDS_PER_YEAR, 600, SECONDS_PER_YEAR, 1_500_000_000);
    let r = step(&s, submissions(0), None, 5_000);
    assert!(matches!(r, StepOutcome::Complete));
}

#[test]
fn nonempty_page_at_max_window_does_not_complete() {
    let s = fresh_state(SECONDS_PER_YEAR, 600, SECONDS_PER_YEAR, 1_500_000_000);
    let r = step(&s, submissions(1), None, 5_000);
    assert!(matches!(r, StepOutcome::Progress(_, _)));
}

#[test]
fn empty_page_below_max_window_does_not_complete() {
    let s = fresh_state(900, 600, SECONDS_PER_YEAR, 1_500_000_000);
    let r = step(&s, submissions(0), None, 5_000);
    assert!(matches!(r, StepOutcome::Progress(_, _)));
}

#[test]
fn window_frozen_while_paginating() {
    // Input page 2: whatever the item count, the window must not move.
    let mut s = fresh_state(900, 600, SECONDS_PER_YEAR, 1_500_000_000);
    s.page = 2;
    s.after = Some("t3_prev".to_string());
    let r = step(&s, submissions(0), None, 5_000);
    match r {
        StepOutcome::Progress(_, ns) => {
            assert_eq!(ns.interval, 900);
            assert_eq!(ns.page, 1);
            assert_eq!(ns.max, 1_500_000_000 - 900);
        }
        StepOutcome::Complete => panic!("expected progress"),
    }
}

#[test]
fn band_count_keeps_window() {
    let s = fresh_state(900, 600, SECONDS_PER_YEAR, 1_500_000_000);
    let r = step(&s, submissions(57), None, 5_000);
    match r {
        StepOutcome::Progress(_, ns) => assert_eq!(ns.interval, 900),
        StepOutcome::Complete => panic!("expected progress"),
    }
}

#[test]
fn growth_clamps_at_max_window() {
    let s = fresh_state(900, 600, 1_000, 1_500_000_000);
    let r = step(&s, submissions(3), None, 5_000);
    match r {
        StepOutcome::Progress(_, ns) => assert_eq!(ns.interval, 1_000),
        StepOutcome::Complete => panic!("expected progress"),
    }
}

#[test]
fn shrink_clamps_at_min_window() {
    let s = fresh_state(600, 600, SECONDS_PER_YEAR, 1_500_000_000);
    let r = step(&s, submissions(100), Some("t3_cursor".to_string()), 5_000);
    match r {
        StepOutcome::Progress(_, ns) => assert_eq!(ns.interval, 600),
        StepOutcome::Complete => panic!("expected progress"),
    }
}

#[test]
fn cursor_never_increases_over_steps() {
    let mut s = fresh_state(900, 600, SECONDS_PER_YEAR, 1_500_000_000);
    let counts = [100usize, 0, 30, 57, 100, 0];
    let tokens = [true, false, false, false, true, false];
    let mut now: u64 = 10_000;
    for i in 0..counts.len() {
        let token = if tokens[i] { Some("t3_x".to_string()) } else { None };
        let prev_max = s.max;
        match step(&s, submissions(counts[i]), token, now) {
            StepOutcome::Progress(_, ns) => {
                assert!(ns.max <= prev_max);
                assert!(ns.min_interval <= ns.interval && ns.interval <= ns.max_interval);
                s = ns;
            }
            StepOutcome::Complete => panic!("unexpected completion"),
        }
        now += 1_000;
    }
}

#[test]
fn cursor_near_epoch_saturates() {
    let s = fresh_state(900, 600, SECONDS_PER_YEAR, 100);
    let r = step(&s, submissions(57), None, 5_000);
    match r {
        StepOutcome::Progress(_, ns) => assert_eq!(ns.max, 0),
        StepOutcome::Complete => panic!("expected progress"),
    }
}

#[test]
fn get_next_interval_rule() {
    assert_eq!(get_next_interval(900, 0), 1_350);
    assert_eq!(get_next_interval(900, 30), 1_350);
    assert_eq!(get_next_interval(900, 49), 1_350);
    assert_eq!(get_next_interval(900, 50), 900);
    assert_eq!(get_next_interval(900, 75), 900);
    assert_eq!(get_next_interval(900, 99), 900);
    assert_eq!(get_next_interval(900, 100), 855);
}

#[test]
fn clamp_returns_violated_bound() {
    assert_eq!(clamp(1, 3, 10), 3);
    assert_eq!(clamp(11, 3, 10), 10);
    assert_eq!(clamp(5, 3, 10), 5);
}

#[test]
fn throttle_delay_fills_up_to_one_second() {
    assert_eq!(throttle_delay_ms(1_000, 1_400), 600);
    assert_eq!(throttle_delay_ms(1_000, 2_000), 0);
    assert_eq!(throttle_delay_ms(1_000, 5_000), 0);
    assert_eq!(throttle_delay_ms(1_000, 1_000), 1_000);
    // A fresh state's previous-request time is the epoch, so the first
    // request is never delayed.
    assert_eq!(throttle_delay_ms(0, 1_700_000_000_000), 0);
}

#[test]
fn query_range_is_half_open_and_epoch_clamped() {
    assert_eq!(query_range(10_000, 900), (9_100, 10_000));
    assert_eq!(query_range(100, 900), (0, 100));
    assert_eq!(query_range(0, 900), (0, 0));
}

#[test]
fn state_new_applies_offset_and_config() {
    let config = Config {
        init_interval: 900,
        min_interval: 600,
        max_interval: SECONDS_PER_YEAR,
        init_max: 1_500_000_000,
    };
    let s = State::new("rust".to_string(), &config);
    assert_eq!(s.subreddit, "rust".to_string());
    assert_eq!(s.min_interval, 600);
    assert_eq!(s.max_interval, SECONDS_PER_YEAR);
    assert_eq!(s.after, None);
    assert_eq!(s.page, 1);
    assert_eq!(s.interval, 900);
    assert_eq!(s.max, 1_500_000_000 + FORUM_TIMESTAMP_OFFSET_SECS);
    assert_eq!(s.max, 1_500_028_800);
    assert_eq!(s.prev_request_at, 0);
}

#[test]
fn config_default_bounds() {
    let c = Config::default();
    assert_eq!(c.init_interval, 900);
    assert_eq!(c.min_interval, 600);
    assert_eq!(c.max_interval, SECONDS_PER_YEAR);
}

#[test]
fn search_status_classification() {
    assert!(matches!(classify_search_status(401), Some(ApiError::BadToken)));
    assert!(matches!(classify_search_status(403), Some(ApiError::BadToken)));
    assert!(classify_search_status(200).is_none());
    assert!(matches!(classify_search_status(500), Some(ApiError::Other(500))));
    assert!(matches!(classify_search_status(404), Some(ApiError::Other(404))));
}

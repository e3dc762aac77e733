use server::metrics::{
    client_identity, is_slow_response, RecentLyricsCount, RequestCounter, INITIAL_DELAY_SECS,
    RECENT_WINDOW_MINS, SLOW_RESPONSE_MILLIS, TICK_SECS,
};

#[test]
fn three_requests_are_reported_and_counter_is_zero_after() {
    let mut c = RequestCounter::new();
    c.record();
    c.record();
    c.record();
    assert_eq!(c.current(), 3);
    assert_eq!(c.take(), 3);
    assert_eq!(c.current(), 0);
}

#[test]
fn new_counter_reports_zero() {
    let mut c = RequestCounter::new();
    assert_eq!(c.current(), 0);
    assert_eq!(c.take(), 0);
    assert_eq!(c.take(), 0);
}

#[test]
fn each_period_reports_only_its_own_requests() {
    let mut c = RequestCounter::new();
    for _ in 0..7 {
        c.record();
    }
    assert_eq!(c.take(), 7);
    for _ in 0..2 {
        c.record();
    }
    assert_eq!(c.take(), 2);
    assert_eq!(c.take(), 0);
}

#[test]
fn current_does_not_reset() {
    let mut c = RequestCounter::new();
    c.record();
    assert_eq!(c.current(), 1);
    assert_eq!(c.current(), 1);
    c.record();
    assert_eq!(c.current(), 2);
}

#[test]
fn recent_lyrics_count_is_overwritten_not_added() {
    let mut r = RecentLyricsCount::new();
    assert_eq!(r.load(), 0);
    r.store(12);
    assert_eq!(r.load(), 12);
    r.store(5);
    assert_eq!(r.load(), 5);
    r.store(0);
    assert_eq!(r.load(), 0);
}

#[test]
fn periodic_task_timing() {
    assert_eq!(INITIAL_DELAY_SECS, 60);
    assert_eq!(TICK_SECS, 60);
    assert_eq!(RECENT_WINDOW_MINS, 10);
}

#[test]
fn slow_response_is_above_half_a_second() {
    assert_eq!(SLOW_RESPONSE_MILLIS, 500);
    assert!(!is_slow_response(0));
    assert!(!is_slow_response(499));
    assert!(!is_slow_response(500));
    assert!(is_slow_response(501));
    assert!(is_slow_response(u128::MAX));
}

#[test]
fn client_identity_prefers_lrclib_client() {
    assert_eq!(client_identity(Some("app/1.0"), Some("xua"), Some("ua")), "app/1.0");
    assert_eq!(client_identity(Some("app/1.0"), None, None), "app/1.0");
}

#[test]
fn client_identity_falls_back_to_x_user_agent() {
    assert_eq!(client_identity(None, Some("xua"), Some("ua")), "xua");
    assert_eq!(client_identity(None, Some("xua"), None), "xua");
}

#[test]
fn client_identity_falls_back_to_user_agent() {
    assert_eq!(client_identity(None, None, Some("ua")), "ua");
}

#[test]
fn client_identity_is_empty_without_headers() {
    assert_eq!(client_identity(None, None, None), "");
}

#[test]
fn client_identity_keeps_an_empty_header() {
    assert_eq!(client_identity(Some(""), Some("xua"), Some("ua")), "");
}

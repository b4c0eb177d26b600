use uptime_pusher::pusher::status_text;
use uptime_pusher::schedule::next_wake;
use uptime_pusher::schedule::sleep_duration;
use uptime_pusher::UptimePusher;
use uptime_pusher::HEARTBEAT_INTERVAL_SECS;
use uptime_pusher::PUSH_TIMEOUT_SECS;

#[test]
fn construct_rejects_invalid_url() {
    assert!(UptimePusher::try_new("foobar", false).is_none());
    assert!(UptimePusher::try_new("", false).is_none());
    assert!(UptimePusher::try_new("/relative/path", true).is_none());
}

#[test]
fn construct_accepts_valid_url() {
    let p = UptimePusher::try_new("https://monitor.example/api/push/abc123", false);
    assert!(p.is_some());
    let p = p.unwrap();
    assert_eq!(p.endpoint_str(), "https://monitor.example/api/push/abc123");
    assert!(!p.silent());
    assert_eq!(p.interval(), 55);
    assert_eq!(p.interval(), HEARTBEAT_INTERVAL_SECS);
}

#[test]
fn construct_keeps_silence_flag() {
    let p = UptimePusher::try_new("https://monitor.example/api/push/abc123", true).unwrap();
    assert!(p.silent());
}

#[test]
fn request_url_up_with_message() {
    let p = UptimePusher::try_new("https://monitor.example/api/push/abc123", true).unwrap();
    let u = p.build_request_url(true, "hello");
    assert_eq!(
        u.as_str(),
        "https://monitor.example/api/push/abc123?status=up&msg=hello"
    );
}

#[test]
fn request_url_down_with_empty_message() {
    let p = UptimePusher::try_new("https://monitor.example/api/push/abc123", true).unwrap();
    let u = p.build_request_url(false, "");
    assert_eq!(
        u.as_str(),
        "https://monitor.example/api/push/abc123?status=down&msg="
    );
}

#[test]
fn request_url_keeps_existing_query_pairs() {
    let p = UptimePusher::try_new("https://monitor.example/push?token=abc", true).unwrap();
    let u = p.build_request_url(true, "hi");
    assert_eq!(
        u.as_str(),
        "https://monitor.example/push?token=abc&status=up&msg=hi"
    );
}

#[test]
fn request_url_encodes_message() {
    let p = UptimePusher::try_new("https://monitor.example/push", true).unwrap();
    let u = p.build_request_url(true, "bar & baz");
    assert_eq!(
        u.as_str(),
        "https://monitor.example/push?status=up&msg=bar+%26+baz"
    );
}

#[test]
fn status_text_matches_flag() {
    assert_eq!(status_text(true), "up");
    assert_eq!(status_text(false), "down");
}

#[test]
fn plan_waits_one_interval() {
    let p = UptimePusher::try_new("https://monitor.example/push", true).unwrap();
    let plan = p.plan_iteration(1000);
    assert_eq!(plan.wake_at, 1055);
    assert_eq!(plan.sleep_for, Some(55));
}

#[test]
fn plan_from_zero() {
    let p = UptimePusher::try_new("https://monitor.example/push", true).unwrap();
    let plan = p.plan_iteration(0);
    assert_eq!(plan.wake_at, 55);
    assert_eq!(plan.sleep_for, Some(55));
}

#[test]
fn next_wake_saturates_at_clock_max() {
    assert_eq!(next_wake(u64::MAX - 10, 55), u64::MAX);
    assert_eq!(next_wake(u64::MAX, 55), u64::MAX);
    assert_eq!(next_wake(100, 55), 155);
}

#[test]
fn sleep_is_skipped_when_wake_is_past() {
    assert_eq!(sleep_duration(5, 10), None);
    assert_eq!(sleep_duration(10, 10), Some(0));
    assert_eq!(sleep_duration(65, 10), Some(55));
}

#[test]
fn silent_pusher_never_reports() {
    let p = UptimePusher::try_new("https://monitor.example/push", true).unwrap();
    assert!(!p.should_report(true));
    assert!(!p.should_report(false));
}

#[test]
fn loud_pusher_reports_only_failures() {
    let p = UptimePusher::try_new("https://monitor.example/push", false).unwrap();
    assert!(p.should_report(true));
    assert!(!p.should_report(false));
}

#[test]
fn manual_push_is_soft_on_unreachable_endpoint() {
    // Port 9 on the loopback interface is not listening, so the GET fails
    // locally and quickly; the failure must stay soft.
    let p = UptimePusher::try_new("http://127.0.0.1:9/push", true).unwrap();
    assert!(p.try_push_status_and_msg(true, "hello").is_ok());
    assert!(p.try_push_status_and_msg(false, "").is_ok());
    assert!(p.push_ok().is_ok());
}

#[test]
fn timeout_is_bounded() {
    assert_eq!(PUSH_TIMEOUT_SECS, 10);
    assert!(PUSH_TIMEOUT_SECS < HEARTBEAT_INTERVAL_SECS);
}

//! Timing discipline of the heartbeat loop: when the next push is dispatched,
//! how long the loop sleeps, and when a push outcome is reported.

use vstd::prelude::*;

verus! {

/// Seconds between heartbeats. The remote monitor declares the subject down
/// after roughly sixty seconds of silence; fifty-five leaves margin for
/// network jitter and local scheduling delay.
pub const HEARTBEAT_INTERVAL_SECS: u64 = 55;

/// Upper bound, in seconds, on one outbound push, so that a hung network
/// call cannot block the caller or the loop indefinitely.
pub const PUSH_TIMEOUT_SECS: u64 = 10;

/// The instant the loop wakes for its next push: the current instant plus
/// the interval, pinned to the clock's maximum where the sum would not fit.
pub open spec fn spec_next_wake(now: u64, interval: u64) -> u64 {
    if now + interval <= u64::MAX {
        (now + interval) as u64
    } else {
        u64::MAX
    }
}

/// How long to sleep to reach `wake_at` from `now`: `None` when `wake_at`
/// is already in the past, in which case the loop skips sleeping and
/// proceeds straight to the next push instead of failing.
pub open spec fn spec_sleep_duration(wake_at: u64, now: u64) -> Option<u64> {
    if wake_at >= now {
        Some((wake_at - now) as u64)
    } else {
        None
    }
}

/// Whether a push outcome is reported on the diagnostic channel: only
/// failures, and only when the pusher was not configured silent.
pub open spec fn spec_reports(silent: bool, push_failed: bool) -> bool {
    push_failed && !silent
}

/// The instant of the nth push of a loop whose pushes take no time: the
/// first push happens at `start`, and each later one at the wake instant
/// computed from the one before.
pub open spec fn spec_nth_dispatch(start: u64, interval: u64, n: nat) -> u64
    decreases n,
{
    if n == 0 {
        start
    } else {
        spec_next_wake(spec_nth_dispatch(start, interval, (n - 1) as nat), interval)
    }
}

/// What one loop iteration does after its push: the absolute instant of the
/// next wake, and the sleep that reaches it (`None` means the sleep is
/// skipped).
pub struct IterationPlan {
    pub wake_at: u64,
    pub sleep_for: Option<u64>,
}

/// The wake instant one interval after `now`.
pub fn next_wake(now: u64, interval: u64) -> (r: u64)
    ensures
        r == spec_next_wake(now, interval),
{
    if now <= u64::MAX - interval {
        now + interval
    } else {
        u64::MAX
    }
}

/// The sleep the loop performs to reach `wake_at`, `None` where the target
/// instant is not forward-going and the sleep is skipped.
pub fn sleep_duration(wake_at: u64, now: u64) -> (r: Option<u64>)
    ensures
        r == spec_sleep_duration(wake_at, now),
{
    if wake_at >= now {
        Some(wake_at - now)
    } else {
        None
    }
}

/// With an instantaneous push, successive dispatches sit exactly one
/// interval apart: the iteration dispatched at `now` plans its next wake
/// `interval` seconds later and sleeps for the whole interval.
pub proof fn lemma_steady_period(now: u64, interval: u64)
    requires
        now + interval <= u64::MAX,
    ensures
        spec_next_wake(now, interval) == now + interval,
        spec_sleep_duration(spec_next_wake(now, interval), now) == Some(interval),
{
}

/// A wake instant computed from `now` never lies before `now`, so within
/// this model the loop always has a sleep to perform; the skip branch of
/// `spec_sleep_duration` guards only against clock anomalies the model
/// cannot produce.
pub proof fn lemma_wake_is_forward(now: u64, interval: u64)
    ensures
        spec_next_wake(now, interval) >= now,
        spec_sleep_duration(spec_next_wake(now, interval), now) is Some,
{
}

/// Over any run of consecutive instantaneous pushes that stays within the
/// clock's range, the nth dispatch happens exactly n intervals after the
/// first: no drift accumulates in either direction.
pub proof fn lemma_dispatch_gaps(start: u64, interval: u64, n: nat)
    requires
        start + n * interval <= u64::MAX,
    ensures
        spec_nth_dispatch(start, interval, n) == start + n * interval,
    decreases n,
{
    if n > 0 {
        let m = (n - 1) as nat;
        assert(m * interval + interval == n * interval) by (nonlinear_arith)
            requires
                m == n - 1,
        ;
        assert(m * interval <= n * interval) by (nonlinear_arith)
            requires
                m == n - 1,
        ;
        lemma_dispatch_gaps(start, interval, m);
    } else {
        assert(n * interval == 0) by (nonlinear_arith)
            requires
                n == 0nat,
        ;
    }
}

/// In silent mode no push outcome is ever reported, failed or not.
pub proof fn lemma_silent_suppresses_reports(push_failed: bool)
    ensures
        !spec_reports(true, push_failed),
{
}

/// When not silent, an outcome is reported exactly when the push failed.
pub proof fn lemma_loud_reports_failures(push_failed: bool)
    ensures
        spec_reports(false, push_failed) == push_failed,
{
}

} // verus!

//! The heartbeat pusher itself: a validated endpoint, the fixed interval,
//! and the silence flag, with the push operation that contacts the monitor.

use std::io::Write;
use vstd::prelude::*;
use crate::schedule::{
    HEARTBEAT_INTERVAL_SECS,
    PUSH_TIMEOUT_SECS,
    IterationPlan,
    next_wake,
    sleep_duration,
    spec_next_wake,
    spec_sleep_duration,
    spec_reports,
};

verus! {

/// Whether `s` is a syntactically valid absolute URL, exactly as
/// `url::Url::parse` accepts it.
pub uninterp spec fn url_ok(s: Seq<char>) -> bool;

/// The serialization of the URL obtained by parsing `base` and appending the
/// form-urlencoded query pairs `k1=v1` and `k2=v2` after any pairs `base`
/// already carries.
pub uninterp spec fn with_query_pairs(
    base: Seq<char>,
    k1: Seq<char>,
    v1: Seq<char>,
    k2: Seq<char>,
    v2: Seq<char>,
) -> Seq<char>;

/// Relies on url::Url::parse: it returns Ok exactly on strings it can parse
/// as an absolute URL, and on nothing else.
#[verifier::external_body]
fn check_url(s: &str) -> (r: bool)
    ensures
        r == url_ok(s@),
{
    url::Url::parse(s).is_ok()
}

/// Relies on url::Url::parse and url::Url::query_pairs_mut: parsing a valid
/// absolute URL succeeds, appending query pairs keeps the ones already
/// present, and the resulting serialization depends on the five strings
/// alone.
#[verifier::external_body]
fn append_query_pairs(base: &str, k1: &str, v1: &str, k2: &str, v2: &str) -> (r: String)
    requires
        url_ok(base@),
    ensures
        r@ == with_query_pairs(base@, k1@, v1@, k2@, v2@),
{
    let mut u = url::Url::parse(base).unwrap();
    u.query_pairs_mut().append_pair(k1, v1).append_pair(k2, v2);
    u.as_str().to_owned()
}

/// Relies on ureq::get(url).timeout(d).call(): one blocking GET, bounded by
/// the timeout; Err carries the display text of any transport failure or
/// non-2xx response. Nothing is promised of the outcome: it depends on the
/// network.
#[verifier::external_body]
fn http_get(u: &str, timeout_secs: u64) -> (r: Result<(), String>) {
    match ureq::get(u).timeout(std::time::Duration::from_secs(timeout_secs)).call() {
        Ok(_) => Ok(()),
        Err(e) => Err(e.to_string()),
    }
}

/// Relies on std::io::Stdout's Write impl: emits one human-readable
/// diagnostic line naming the failed push.
#[verifier::external_body]
fn report_push_failure(detail: &str) {
    let _ = writeln!(std::io::stdout(), "Failed to push uptime-kuma: {}", detail);
}

/// The text sent as the `status` query parameter.
pub open spec fn spec_status_text(status_ok: bool) -> Seq<char> {
    if status_ok {
        "up"@
    } else {
        "down"@
    }
}

/// `"up"` for an up status, `"down"` for a down one.
pub fn status_text(status_ok: bool) -> (r: &'static str)
    ensures
        r@ == spec_status_text(status_ok),
{
    if status_ok {
        "up"
    } else {
        "down"
    }
}

/// A local error preceding the dispatch of a push. The endpoint is validated
/// at construction, so a constructed pusher never produces one; remote
/// failures are soft and never surface as an error either.
#[derive(Clone, Copy, Debug, PartialEq, Eq, Structural)]
pub struct TransportError;

/// A heartbeat client for one monitoring endpoint. Its configuration is
/// fixed at construction: the endpoint is always a syntactically valid
/// absolute URL, and the interval always the fixed heartbeat interval.
pub struct UptimePusher {
    endpoint: String,
    heartbeat_delay_secs: u64,
    silent: bool,
}

impl UptimePusher {
    #[verifier::type_invariant]
    spec fn well_formed(self) -> bool {
        &&& url_ok(self.endpoint@)
        &&& self.heartbeat_delay_secs == HEARTBEAT_INTERVAL_SECS
    }

    /// The configured endpoint text.
    pub closed spec fn endpoint(self) -> Seq<char> {
        self.endpoint@
    }

    /// Whether failed pushes are discarded rather than reported.
    pub closed spec fn is_silent(self) -> bool {
        self.silent
    }

    /// Seconds between two heartbeats of the background loop.
    pub closed spec fn interval_secs(self) -> u64 {
        self.heartbeat_delay_secs
    }

    /// The endpoint text. It is always a syntactically valid absolute URL:
    /// an invalid one can never reach the running state.
    pub fn endpoint_str(&self) -> (r: &str)
        ensures
            r@ == self.endpoint(),
            url_ok(r@),
    {
        proof {
            use_type_invariant(self);
        }
        self.endpoint.as_str()
    }

    /// Whether failed pushes are discarded. Fixed at construction.
    pub fn silent(&self) -> (r: bool)
        ensures
            r == self.is_silent(),
    {
        self.silent
    }

    /// Seconds between two heartbeats: always the fixed heartbeat interval,
    /// for the pusher's whole lifetime.
    pub fn interval(&self) -> (r: u64)
        ensures
            r == self.interval_secs(),
            r == HEARTBEAT_INTERVAL_SECS,
    {
        proof {
            use_type_invariant(self);
        }
        self.heartbeat_delay_secs
    }

    /// Validates the endpoint eagerly and constructs the pusher, with the
    /// fixed interval. Fails exactly on a syntactically invalid URL, and
    /// performs no network call either way: a broken configuration is caught
    /// here, at startup, never at push time.
    pub fn try_new(url_text: &str, silent: bool) -> (r: Option<UptimePusher>)
        ensures
            r is Some <==> url_ok(url_text@),
            r matches Some(p) ==> {
                &&& p.endpoint() == url_text@
                &&& p.is_silent() == silent
                &&& p.interval_secs() == HEARTBEAT_INTERVAL_SECS
            },
    {
        if check_url(url_text) {
            Some(UptimePusher::new(url_text, silent))
        } else {
            None
        }
    }

    /// Constructs a pusher from an endpoint already known to be a valid
    /// absolute URL. A caller that cannot establish validity uses `try_new`
    /// and stops the program on `None`: an invalid heartbeat configuration
    /// has no degraded mode.
    pub fn new(url_text: &str, silent: bool) -> (p: UptimePusher)
        requires
            url_ok(url_text@),
        ensures
            p.endpoint() == url_text@,
            p.is_silent() == silent,
            p.interval_secs() == HEARTBEAT_INTERVAL_SECS,
    {
        UptimePusher {
            endpoint: url_text.to_owned(),
            heartbeat_delay_secs: HEARTBEAT_INTERVAL_SECS,
            silent,
        }
    }

    /// The exact URL one push contacts: the endpoint with `status` and `msg`
    /// appended to its query, the status text chosen by `status_ok`.
    pub fn build_request_url(&self, status_ok: bool, msg: &str) -> (r: String)
        ensures
            r@ == with_query_pairs(
                self.endpoint(),
                "status"@,
                spec_status_text(status_ok),
                "msg"@,
                msg@,
            ),
    {
        proof {
            use_type_invariant(self);
        }
        append_query_pairs(self.endpoint.as_str(), "status", status_text(status_ok), "msg", msg)
    }

    /// Whether a push outcome is reported on the diagnostic channel: only a
    /// failure, and only when this pusher is not silent.
    pub fn should_report(&self, push_failed: bool) -> (r: bool)
        ensures
            r == spec_reports(self.is_silent(), push_failed),
    {
        push_failed && !self.silent
    }

    /// Issues exactly one GET to the endpoint with `status` and `msg`
    /// appended, bounded by the push timeout. A transport failure is soft:
    /// it is reported on the diagnostic channel unless the pusher is silent,
    /// and never escalated, so the result is always Ok — the endpoint was
    /// validated at construction, and no local error can precede the
    /// dispatch.
    pub fn try_push_status_and_msg(&self, status_ok: bool, msg: &str) -> (r: Result<
        (),
        TransportError,
    >)
        ensures
            r is Ok,
    {
        let request_url = self.build_request_url(status_ok, msg);
        let outcome = http_get(request_url.as_str(), PUSH_TIMEOUT_SECS);
        let failed = outcome.is_err();
        if self.should_report(failed) {
            if let Err(detail) = &outcome {
                report_push_failure(detail.as_str());
            }
        }
        Ok(())
    }

    /// Pushes an up status with an empty message: the common case the
    /// background loop repeats. Same contract as the full push.
    pub fn push_ok(&self) -> (r: Result<(), TransportError>)
        ensures
            r is Ok,
    {
        self.try_push_status_and_msg(true, "")
    }

    /// The decision one loop iteration takes after its push, given the
    /// current instant in seconds on a monotonic clock: wake one interval
    /// later, and sleep until then unless the wake instant is somehow not
    /// forward-going, in which case the sleep is skipped. The push's outcome
    /// is no input to the plan: a failure never pauses or stops the loop.
    pub fn plan_iteration(&self, now: u64) -> (p: IterationPlan)
        ensures
            p.wake_at == spec_next_wake(now, HEARTBEAT_INTERVAL_SECS),
            p.sleep_for == spec_sleep_duration(p.wake_at, now),
    {
        proof {
            use_type_invariant(self);
        }
        let wake_at = next_wake(now, self.heartbeat_delay_secs);
        let sleep_for = sleep_duration(wake_at, now);
        IterationPlan { wake_at, sleep_for }
    }
}

} // verus!

//! The request/response hooks: stamp each request with its start, and on the
//! response count it and time it under its label tuple.
use vstd::prelude::*;
use vstd::multiset::Multiset;
use std::sync::{Arc, RwLock};
use std::time::{Duration, Instant};
use crate::labels::{labels_of, response_labels, route_view, LabelTuple, LabelsView};
use crate::metrics::PrometheusMetrics;
use crate::model::{
    event_increments, event_observations, increments, is_routed, law_routed_requests_counted,
    ResponseEvent,
};

verus! {

/// std's `Instant`, a reading of the monotonic clock, carried as an opaque value.
#[verifier::external_type_specification]
#[verifier::external_body]
pub struct ExInstant(std::time::Instant);

/// std's `RwLock`, carried as an opaque value.
#[verifier::external_type_specification]
#[verifier::external_body]
#[verifier::reject_recursive_types(T)]
pub struct ExRwLock<T: ?Sized>(std::sync::RwLock<T>);

/// Relies on `Instant::now`: a reading of the monotonic clock.
#[verifier::external_body]
fn monotonic_now() -> Instant {
    Instant::now()
}

/// Relies on `Instant::elapsed`: the time since `start` on the monotonic
/// clock (zero if the clock has not moved on).
#[verifier::external_body]
fn elapsed_since(start: &Instant) -> Duration {
    start.elapsed()
}

/// Relies on `RwLock::read`: a shared read of the bundle, through which a
/// handle to the same vectors is taken; `None` when the lock is poisoned.
#[verifier::external_body]
fn read_bundle(lock: &RwLock<PrometheusMetrics>) -> Option<PrometheusMetrics> {
    lock.read().ok().map(|guard| PrometheusMetrics::clone(&guard))
}

/// The start of one request on the monotonic clock, if it was stamped.
#[derive(Clone, Copy)]
pub struct TimerStart(pub Option<Instant>);

impl TimerStart {
    /// Whether the request's start was stamped.
    pub open spec fn is_started(self) -> bool {
        self.0.is_some()
    }

    /// A stamp of the present instant, taken when a request is received.
    pub fn started() -> (r: TimerStart)
        ensures
            r.is_started(),
    {
        TimerStart(Some(monotonic_now()))
    }

    /// The entry of a request that was never stamped.
    pub fn unset() -> (r: TimerStart)
        ensures
            !r.is_started(),
    {
        TimerStart(None)
    }

    /// The time since the stamp, or `None` without one.
    pub fn elapsed(&self) -> (r: Option<Duration>)
        ensures
            r.is_some() == self.is_started(),
    {
        match &self.0 {
            Some(start) => Some(elapsed_since(start)),
            None => None,
        }
    }
}

/// What the response hook recorded for one request: the label tuple it
/// resolved, if any, whether the counter there reported an increment, and
/// whether the histogram there reported an observation.
pub struct ResponseRecord {
    pub labels: Option<LabelTuple>,
    pub counted: bool,
    pub observed: bool,
}

impl ResponseRecord {
    /// The counter increments made.
    pub open spec fn increments(self) -> Multiset<LabelsView> {
        match self.labels {
            Some(l) => if self.counted {
                Multiset::singleton(l@)
            } else {
                Multiset::empty()
            },
            None => Multiset::empty(),
        }
    }

    /// The histogram observations made.
    pub open spec fn observations(self) -> Multiset<LabelsView> {
        match self.labels {
            Some(l) => if self.observed {
                Multiset::singleton(l@)
            } else {
                Multiset::empty()
            },
            None => Multiset::empty(),
        }
    }

    /// Nothing was recorded.
    pub open spec fn is_empty(self) -> bool {
        !self.counted && !self.observed
    }
}

/// All counter increments that a run of responses reported.
pub open spec fn recorded_increments(records: Seq<ResponseRecord>) -> Multiset<LabelsView>
    decreases records.len(),
{
    if records.len() == 0 {
        Multiset::empty()
    } else {
        recorded_increments(records.drop_last()).add(records.last().increments())
    }
}

/// When every record of a run is what `record_response` gives for its
/// request, the run's records add up to what the requests call for; and
/// when all N requests had a matched route, the counters' sum grows by N.
pub proof fn law_records_total(records: Seq<ResponseRecord>, events: Seq<ResponseEvent>)
    requires
        records.len() == events.len(),
        forall|i: int|
            0 <= i < records.len() ==> (#[trigger] records[i]).increments() == event_increments(
                events[i],
            ),
    ensures
        recorded_increments(records) == increments(events),
        (forall|i: int| 0 <= i < events.len() ==> is_routed(#[trigger] events[i]))
            ==> recorded_increments(records).len() == records.len(),
    decreases records.len(),
{
    if records.len() > 0 {
        let rs = records.drop_last();
        let es = events.drop_last();
        assert forall|i: int| 0 <= i < rs.len() implies (#[trigger] rs[i]).increments()
            == event_increments(es[i]) by {
            assert(rs[i] == records[i]);
            assert(es[i] == events[i]);
        }
        law_records_total(rs, es);
        assert(records.last() == records[records.len() - 1]);
    }
    if forall|i: int| 0 <= i < events.len() ==> is_routed(#[trigger] events[i]) {
        law_routed_requests_counted(events);
    }
}

/// The request as the response hook sees it.
pub open spec fn event_of(route: Option<&str>, method: &str, status: u16, timer: TimerStart) -> ResponseEvent {
    ResponseEvent { route: route_view(route), method: method@, status, timed: timer.is_started() }
}

impl PrometheusMetrics {
    /// Records one response: with a matched route, one increment of the
    /// counter at `(route, method, status)`, and one observation of the time
    /// since the request's stamp at the same labels when there is a stamp;
    /// without a route, nothing.
    pub fn record_response(&self, route: Option<&str>, method: &str, status: u16, timer: &TimerStart) -> (r:
        ResponseRecord)
        ensures
            r.increments() == event_increments(event_of(route, method, status, *timer)),
            r.observations() == event_observations(event_of(route, method, status, *timer)),
    {
        match response_labels(route, method, status) {
            None => ResponseRecord { labels: None, counted: false, observed: false },
            Some(labels) => {
                let counted = self.count_request(&labels);
                let observed = match timer.elapsed() {
                    Some(elapsed) => self.observe_request(&labels, elapsed),
                    None => false,
                };
                ResponseRecord { labels: Some(labels), counted, observed }
            },
        }
    }
}

/// The middleware: a shared handle to a bundle behind a reader/writer lock,
/// so that the scrape handler sees the same counters and the bundle can be
/// swapped under an exclusive write.
pub struct ArcRwLockPrometheus {
    pub rwLock: Arc<RwLock<PrometheusMetrics>>,
}

impl ArcRwLockPrometheus {
    /// Wraps the shared bundle.
    pub fn new(prometheus: Arc<RwLock<PrometheusMetrics>>) -> (r: Self)
        ensures
            r.rwLock == prometheus,
    {
        ArcRwLockPrometheus { rwLock: prometheus }
    }

    /// The request-receipt hook: the stamp to attach to the request.
    pub fn on_request(&self) -> (r: TimerStart)
        ensures
            r.is_started(),
    {
        TimerStart::started()
    }

    /// The response hook. Without a matched route it records nothing and
    /// leaves the lock alone. Otherwise it takes a shared read of the bundle
    /// and records the response there, exactly as `record_response` does; if
    /// the lock is poisoned the request is left unrecorded, never failed.
    pub fn on_response(&self, route: Option<&str>, method: &str, status: u16, timer: &TimerStart) -> (r:
        ResponseRecord)
        ensures
            route.is_none() ==> r.is_empty(),
            r.is_empty() || (r.increments() == event_increments(event_of(route, method, status, *timer))
                && r.observations() == event_observations(event_of(route, method, status, *timer))),
    {
        if route.is_none() {
            return ResponseRecord { labels: None, counted: false, observed: false };
        }
        match read_bundle(&self.rwLock) {
            Some(bundle) => bundle.record_response(route, method, status, timer),
            None => ResponseRecord { labels: None, counted: false, observed: false },
        }
    }
}

impl Clone for ArcRwLockPrometheus {
    /// Another middleware over the same locked bundle.
    fn clone(&self) -> (r: Self)
        ensures
            r.rwLock == self.rwLock,
    {
        ArcRwLockPrometheus { rwLock: Arc::clone(&self.rwLock) }
    }
}

} // verus!

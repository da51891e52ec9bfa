//! The metrics bundle: one request counter vector and one request duration
//! histogram vector, both registered in the bundle's own registry.
use vstd::prelude::*;
use crate::labels::LabelTuple;
use prometheus::{HistogramOpts, HistogramVec, IntCounterVec, Opts, Registry};

verus! {

// The counts inside a vector are shared by every clone of its handle and
// moved by other threads, so they are no function of a value here and get no
// name; only the label names a vector was made with do.

/// The request counter vector: a prometheus `IntCounterVec`, a handle whose
/// clones share one set of counters. Only this module makes one.
#[verifier::external_body]
pub struct RequestCounterVec(IntCounterVec);

/// The request duration histogram vector: a prometheus `HistogramVec` with
/// the default buckets, a handle whose clones share one set of histograms.
/// Only this module makes one.
#[verifier::external_body]
pub struct RequestHistogramVec(HistogramVec);

/// prometheus's `Registry`, carried as an opaque handle.
#[verifier::external_type_specification]
#[verifier::external_body]
pub struct ExRegistry(prometheus::Registry);

/// prometheus's error type, mapped to `ConstructionError` where it arises.
#[verifier::external_type_specification]
#[verifier::external_body]
pub struct ExPrometheusError(prometheus::Error);

/// The label names that a counter vector was made with.
pub uninterp spec fn counter_label_names(v: RequestCounterVec) -> Seq<Seq<char>>;

/// The label names that a histogram vector was made with.
pub uninterp spec fn histogram_label_names(v: RequestHistogramVec) -> Seq<Seq<char>>;

/// The full metric name that a counter vector was made with.
pub uninterp spec fn counter_full_name(v: RequestCounterVec) -> Seq<char>;

/// The help text that a counter vector was made with.
pub uninterp spec fn counter_help(v: RequestCounterVec) -> Seq<char>;

/// The full metric name that a histogram vector was made with.
pub uninterp spec fn histogram_full_name(v: RequestHistogramVec) -> Seq<char>;

/// The help text that a histogram vector was made with.
pub uninterp spec fn histogram_help(v: RequestHistogramVec) -> Seq<char>;

/// The identifier prometheus gives the descriptor of a metric with this full
/// name and no constant labels (a hash of the name).
pub uninterp spec fn descriptor_id(full_name: Seq<char>) -> u64;

/// A letter of ASCII, or an underscore.
pub open spec fn is_ident_start(c: char) -> bool {
    ('a' <= c && c <= 'z') || ('A' <= c && c <= 'Z') || c == '_'
}

/// A character that may follow the first one of a label name.
pub open spec fn is_ident_rest(c: char) -> bool {
    is_ident_start(c) || ('0' <= c && c <= '9')
}

/// A valid label name: `[a-zA-Z_][a-zA-Z0-9_]*`.
pub open spec fn valid_label_name(s: Seq<char>) -> bool {
    &&& s.len() > 0
    &&& is_ident_start(s[0])
    &&& forall|i: int| 1 <= i < s.len() ==> is_ident_rest(#[trigger] s[i])
}

/// A valid metric name: `[a-zA-Z_:][a-zA-Z0-9_:]*`.
pub open spec fn valid_metric_name(s: Seq<char>) -> bool {
    &&& s.len() > 0
    &&& (is_ident_start(s[0]) || s[0] == ':')
    &&& forall|i: int| 1 <= i < s.len() ==> (is_ident_rest(#[trigger] s[i]) || s[i] == ':')
}

/// The exported name of metric `name` under `namespace`.
pub open spec fn full_name(namespace: Seq<char>, name: Seq<char>) -> Seq<char> {
    if namespace.len() == 0 {
        name
    } else {
        namespace + seq!['_'] + name
    }
}

/// Label names fit for a metric vector: valid, pairwise distinct, and none is
/// the name that histograms keep for their buckets.
pub open spec fn fit_label_names(names: Seq<&str>) -> bool {
    &&& names.len() > 0
    &&& forall|i: int| 0 <= i < names.len() ==> valid_label_name(#[trigger] names[i]@)
    &&& forall|i: int, j: int|
        0 <= i < j < names.len() ==> (#[trigger] names[i])@ != (#[trigger] names[j])@
    &&& forall|i: int| 0 <= i < names.len() ==> (#[trigger] names[i])@ != seq!['l', 'e']
}

/// The texts of a list of label names.
pub open spec fn names_view(names: Seq<&str>) -> Seq<Seq<char>> {
    names.map_values(|s: &str| s@)
}

/// Relies on `Opts::new(..).namespace(..)` and `IntCounterVec::new`: the
/// vector is made unless the full metric name is invalid, and keeps the
/// label names it was given.
#[verifier::external_body]
fn make_counter_vec(namespace: &str, name: &str, help: &str, label_names: &[&str]) -> (r: Result<
    RequestCounterVec,
    prometheus::Error,
>)
    requires
        name@.len() > 0,
        help@.len() > 0,
        fit_label_names(label_names@),
    ensures
        r.is_ok() == valid_metric_name(full_name(namespace@, name@)),
        r matches Ok(v) ==> counter_label_names(v) == names_view(label_names@)
            && counter_full_name(v) == full_name(namespace@, name@) && counter_help(v) == help@,
{
    IntCounterVec::new(Opts::new(name, help).namespace(namespace), label_names).map(RequestCounterVec)
}

/// Relies on `Opts::new(..).namespace(..)`, `HistogramOpts::from` (default
/// buckets) and `HistogramVec::new`: the vector is made unless the full
/// metric name is invalid, and keeps the label names it was given.
#[verifier::external_body]
fn make_histogram_vec(namespace: &str, name: &str, help: &str, label_names: &[&str]) -> (r: Result<
    RequestHistogramVec,
    prometheus::Error,
>)
    requires
        name@.len() > 0,
        help@.len() > 0,
        fit_label_names(label_names@),
    ensures
        r.is_ok() == valid_metric_name(full_name(namespace@, name@)),
        r matches Ok(v) ==> histogram_label_names(v) == names_view(label_names@)
            && histogram_full_name(v) == full_name(namespace@, name@) && histogram_help(v) == help@,
{
    HistogramVec::new(HistogramOpts::from(Opts::new(name, help).namespace(namespace)), label_names)
        .map(RequestHistogramVec)
}

/// Relies on the derived `Clone` of `Registry`: another handle to the same
/// registry.
#[verifier::external_body]
fn share_registry(registry: &Registry) -> (r: Registry)
    ensures
        r == *registry,
{
    registry.clone()
}

/// Relies on `Registry::new` and `Registry::register`, given handles that
/// share the two vectors: in a fresh registry the first registration always
/// succeeds, and the second fails exactly when its descriptor identifier is
/// already taken (the names differ, and each vector has one descriptor).
#[verifier::external_body]
fn registry_with(counter: &RequestCounterVec, histogram: &RequestHistogramVec) -> (r: Result<
    Registry,
    prometheus::Error,
>)
    requires
        counter_full_name(*counter) != histogram_full_name(*histogram),
    ensures
        r.is_ok() == (descriptor_id(counter_full_name(*counter)) != descriptor_id(
            histogram_full_name(*histogram),
        )),
{
    let registry = Registry::new();
    registry.register(Box::new(counter.0.clone()))?;
    registry.register(Box::new(histogram.0.clone()))?;
    Ok(registry)
}

/// Relies on the derived `Clone` of prometheus's `MetricVec`: another handle
/// to the same vector.
#[verifier::external_body]
fn share_counter_vec(v: &RequestCounterVec) -> (r: RequestCounterVec)
    ensures
        r == *v,
{
    RequestCounterVec(v.0.clone())
}

/// Relies on the derived `Clone` of prometheus's `MetricVec`: another handle
/// to the same vector.
#[verifier::external_body]
fn share_histogram_vec(v: &RequestHistogramVec) -> (r: RequestHistogramVec)
    ensures
        r == *v,
{
    RequestHistogramVec(v.0.clone())
}

/// Relies on `MetricVec::get_metric_with_label_values`, which fails exactly
/// when the number of values differs from the number of label names, and on
/// `GenericCounter::inc`. Returns whether the counter was incremented.
#[verifier::external_body]
fn inc_counter(v: &RequestCounterVec, values: &[&str]) -> (r: bool)
    ensures
        r == (values@.len() == counter_label_names(*v).len()),
{
    match v.0.get_metric_with_label_values(values) {
        Ok(counter) => {
            counter.inc();
            true
        },
        Err(_) => false,
    }
}

/// Relies on `MetricVec::get_metric_with_label_values`, which fails exactly
/// when the number of values differs from the number of label names or a
/// label is named `le` (given the default buckets, which every vector here
/// has), and on `Histogram::observe` with the duration in seconds. Returns whether the observation was recorded.
#[verifier::external_body]
fn observe_duration(v: &RequestHistogramVec, values: &[&str], d: std::time::Duration) -> (r:
    bool)
    ensures
        r == (values@.len() == histogram_label_names(*v).len() && !histogram_label_names(
            *v,
        ).contains(seq!['l', 'e'])),
{
    match v.0.get_metric_with_label_values(values) {
        Ok(histogram) => {
            histogram.observe(d.as_secs_f64());
            true
        },
        Err(_) => false,
    }
}

/// Relies on `MetricVec::get_metric_with_label_values` (as for
/// `inc_counter`) and `GenericCounter::get`: the present count, which other
/// handles may move at any time.
#[verifier::external_body]
fn counter_value(v: &RequestCounterVec, values: &[&str]) -> (r: Option<u64>)
    ensures
        r.is_some() == (values@.len() == counter_label_names(*v).len()),
{
    v.0.get_metric_with_label_values(values).ok().map(|counter| counter.get())
}

/// Relies on `MetricVec::get_metric_with_label_values` (as for
/// `observe_duration`) and `Histogram::get_sample_count`: the present number
/// of observations, which other handles may move at any time.
#[verifier::external_body]
fn histogram_sample_count(v: &RequestHistogramVec, values: &[&str]) -> (r: Option<u64>)
    ensures
        r.is_some() == (values@.len() == histogram_label_names(*v).len() && !histogram_label_names(
            *v,
        ).contains(seq!['l', 'e'])),
{
    v.0.get_metric_with_label_values(values).ok().map(|histogram| histogram.get_sample_count())
}

/// The label schema of both vectors, in order.
pub open spec fn label_schema() -> Seq<Seq<char>> {
    seq![
        seq!['e', 'n', 'd', 'p', 'o', 'i', 'n', 't'],
        seq!['m', 'e', 't', 'h', 'o', 'd'],
        seq!['s', 't', 'a', 't', 'u', 's'],
    ]
}

/// The base name of the request counter.
pub open spec fn total_name() -> Seq<char> {
    "http_requests_total"@
}

/// The base name of the request duration histogram.
pub open spec fn duration_name() -> Seq<char> {
    "http_requests_duration_seconds"@
}

/// The help text of the request counter.
pub open spec fn total_help() -> Seq<char> {
    "Total number of HTTP requests"@
}

/// The help text of the request duration histogram.
pub open spec fn duration_help() -> Seq<char> {
    "HTTP request duration in seconds for all requests"@
}

/// Why a bundle could not be built.
#[derive(Debug, Clone, Copy, PartialEq, Eq, Structural)]
pub enum ConstructionError {
    /// The namespace makes an invalid metric name.
    InvalidName,
    /// The registry refused the second vector: both names got one
    /// descriptor identifier.
    Registration,
}

/// One request counter vector and one request duration histogram vector,
/// both labelled `(endpoint, method, status)`, registered once each in the
/// bundle's own registry. Clones share the same vectors and registry.
pub struct PrometheusMetrics {
    http_requests_total: RequestCounterVec,
    http_requests_duration_seconds: RequestHistogramVec,
    registry: Registry,
    namespace: String,
}

/// What the counter vector of a bundle under `namespace` was made with.
pub open spec fn is_total_vec(v: RequestCounterVec, namespace: Seq<char>) -> bool {
    &&& counter_label_names(v) == label_schema()
    &&& counter_full_name(v) == full_name(namespace, total_name())
    &&& counter_help(v) == total_help()
}

/// What the histogram vector of a bundle under `namespace` was made with.
pub open spec fn is_duration_vec(v: RequestHistogramVec, namespace: Seq<char>) -> bool {
    &&& histogram_label_names(v) == label_schema()
    &&& histogram_full_name(v) == full_name(namespace, duration_name())
    &&& histogram_help(v) == duration_help()
}

/// Whether `namespace` gives both metrics valid names that prometheus tells
/// apart by their descriptor identifiers: exactly the namespaces on which a
/// bundle can be built.
pub open spec fn accepted_namespace(namespace: Seq<char>) -> bool {
    &&& valid_metric_name(full_name(namespace, total_name()))
    &&& valid_metric_name(full_name(namespace, duration_name()))
    &&& descriptor_id(full_name(namespace, total_name())) != descriptor_id(
        full_name(namespace, duration_name()),
    )
}

impl PrometheusMetrics {
    /// Both vectors carry the label schema, their full names under the
    /// bundle's namespace and their help texts.
    #[verifier::type_invariant]
    spec fn well_formed(self) -> bool {
        &&& is_total_vec(self.http_requests_total, self.namespace@)
        &&& is_duration_vec(self.http_requests_duration_seconds, self.namespace@)
    }

    /// The namespace that prefixes both metric names.
    pub closed spec fn namespace_view(self) -> Seq<char> {
        self.namespace@
    }

    /// The registry that holds both vectors.
    pub closed spec fn registry_view(self) -> Registry {
        self.registry
    }

    /// The request counter vector.
    pub closed spec fn counter_view(self) -> RequestCounterVec {
        self.http_requests_total
    }

    /// The request duration histogram vector.
    pub closed spec fn histogram_view(self) -> RequestHistogramVec {
        self.http_requests_duration_seconds
    }

    /// Builds the two vectors under `namespace`, a fresh registry, and
    /// registers both vectors in it. Fails with `InvalidName` exactly when
    /// the namespace makes either metric name invalid, and with
    /// `Registration` exactly when prometheus gives both names one
    /// descriptor identifier.
    pub fn new(namespace: &str) -> (r: Result<Self, ConstructionError>)
        ensures
            r.is_ok() == accepted_namespace(namespace@),
            (r == Err::<Self, _>(ConstructionError::InvalidName)) == !(valid_metric_name(
                full_name(namespace@, total_name()),
            ) && valid_metric_name(full_name(namespace@, duration_name()))),
            r matches Ok(m) ==> {
                &&& m.namespace_view() == namespace@
                &&& is_total_vec(m.counter_view(), namespace@)
                &&& is_duration_vec(m.histogram_view(), namespace@)
            },
    {
        let names: [&str; 3] = ["endpoint", "method", "status"];
        proof {
            reveal_strlit("endpoint");
            reveal_strlit("method");
            reveal_strlit("status");
            reveal_strlit("http_requests_total");
            reveal_strlit("http_requests_duration_seconds");
            reveal_strlit("Total number of HTTP requests");
            reveal_strlit("HTTP request duration in seconds for all requests");
            assert(names@ =~= seq!["endpoint", "method", "status"]);
            assert("endpoint"@ =~= label_schema()[0]);
            assert("method"@ =~= label_schema()[1]);
            assert("status"@ =~= label_schema()[2]);
            assert(names_view(names@) =~= label_schema());
        }
        let total = match make_counter_vec(
            namespace,
            "http_requests_total",
            "Total number of HTTP requests",
            names.as_slice(),
        ) {
            Ok(v) => v,
            Err(_) => {
                return Err(ConstructionError::InvalidName);
            },
        };
        let duration = match make_histogram_vec(
            namespace,
            "http_requests_duration_seconds",
            "HTTP request duration in seconds for all requests",
            names.as_slice(),
        ) {
            Ok(v) => v,
            Err(_) => {
                return Err(ConstructionError::InvalidName);
            },
        };
        proof {
            let t = full_name(namespace@, total_name());
            let d = full_name(namespace@, duration_name());
            assert(t.len() != d.len());
        }
        let registry = match registry_with(&total, &duration) {
            Ok(registry) => registry,
            Err(_) => {
                return Err(ConstructionError::Registration);
            },
        };
        Ok(
            PrometheusMetrics {
                http_requests_total: total,
                http_requests_duration_seconds: duration,
                registry,
                namespace: namespace.to_owned(),
            },
        )
    }
}

impl PrometheusMetrics {
    /// Adds one to the request counter at `labels`, and reports it. The
    /// vector takes the three labels of its schema, so it always happens.
    pub(crate) fn count_request(&self, labels: &LabelTuple) -> (r: bool)
        ensures
            r,
    {
        proof {
            use_type_invariant(self);
        }
        let values: [&str; 3] = [labels.endpoint.as_str(), labels.method.as_str(), labels.status.as_str()];
        inc_counter(&self.http_requests_total, values.as_slice())
    }

    /// Records one request duration at `labels`, and reports it. The vector
    /// takes the three labels of its schema, none named `le`, so it always
    /// happens.
    pub(crate) fn observe_request(&self, labels: &LabelTuple, elapsed: std::time::Duration) -> (r: bool)
        ensures
            r,
    {
        proof {
            use_type_invariant(self);
            lemma_schema_has_no_bucket_label();
        }
        let values: [&str; 3] = [labels.endpoint.as_str(), labels.method.as_str(), labels.status.as_str()];
        observe_duration(&self.http_requests_duration_seconds, values.as_slice(), elapsed)
    }
}

/// No label of the schema is named `le`.
proof fn lemma_schema_has_no_bucket_label()
    ensures
        !label_schema().contains(seq!['l', 'e']),
{
    if label_schema().contains(seq!['l', 'e']) {
        let i = choose|i: int| 0 <= i < 3 && label_schema()[i] == seq!['l', 'e'];
        assert(label_schema()[i][0] != 'l' || label_schema()[i].len() != 2);
    }
}

impl RequestCounterVec {
    /// Adds one to the counter at `values`, creating the series at zero
    /// first if it is new; `false`, and nothing done, when the number of
    /// values is not the number of labels.
    pub fn inc(&self, values: &[&str]) -> (r: bool)
        ensures
            r == (values@.len() == counter_label_names(*self).len()),
    {
        inc_counter(self, values)
    }

    /// The counter at `values` (created at zero if new), or `None` when the
    /// number of values is not the number of labels.
    pub fn get(&self, values: &[&str]) -> (r: Option<u64>)
        ensures
            r.is_some() == (values@.len() == counter_label_names(*self).len()),
    {
        counter_value(self, values)
    }
}

impl RequestHistogramVec {
    /// Records one duration at `values`; `false`, and nothing done, when the
    /// number of values is not the number of labels or a label is `le`.
    pub fn observe(&self, values: &[&str], elapsed: std::time::Duration) -> (r: bool)
        ensures
            r == (values@.len() == histogram_label_names(*self).len() && !histogram_label_names(
                *self,
            ).contains(seq!['l', 'e'])),
    {
        observe_duration(self, values, elapsed)
    }

    /// The number of observations at `values` (the series is created empty
    /// if new), or `None` as for `observe`.
    pub fn sample_count(&self, values: &[&str]) -> (r: Option<u64>)
        ensures
            r.is_some() == (values@.len() == histogram_label_names(*self).len()
                && !histogram_label_names(*self).contains(seq!['l', 'e'])),
    {
        histogram_sample_count(self, values)
    }
}

impl PrometheusMetrics {
    /// The registry that holds both vectors.
    pub fn registry(&self) -> (r: &Registry)
        ensures
            *r == self.registry_view(),
    {
        &self.registry
    }

    /// The request counter vector, the one registered in the registry.
    pub fn http_requests_total(&self) -> (r: &RequestCounterVec)
        ensures
            *r == self.counter_view(),
            is_total_vec(*r, self.namespace_view()),
    {
        proof {
            use_type_invariant(self);
        }
        &self.http_requests_total
    }

    /// The request duration histogram vector, the one registered in the
    /// registry.
    pub fn http_requests_duration_seconds(&self) -> (r: &RequestHistogramVec)
        ensures
            *r == self.histogram_view(),
            is_duration_vec(*r, self.namespace_view()),
    {
        proof {
            use_type_invariant(self);
        }
        &self.http_requests_duration_seconds
    }

    /// The namespace that prefixes both metric names.
    pub fn namespace(&self) -> (r: &str)
        ensures
            r@ == self.namespace_view(),
    {
        self.namespace.as_str()
    }
}

impl Clone for PrometheusMetrics {
    /// Another bundle over the same vectors and registry; nothing is made
    /// or registered anew.
    fn clone(&self) -> (r: Self)
        ensures
            r.namespace_view() == self.namespace_view(),
            r.registry_view() == self.registry_view(),
            r.counter_view() == self.counter_view(),
            r.histogram_view() == self.histogram_view(),
    {
        proof {
            use_type_invariant(self);
        }
        PrometheusMetrics {
            http_requests_total: share_counter_vec(&self.http_requests_total),
            http_requests_duration_seconds: share_histogram_vec(&self.http_requests_duration_seconds),
            registry: share_registry(&self.registry),
            namespace: self.namespace.clone(),
        }
    }
}

} // verus!

use std::sync::{Arc, RwLock};
use std::time::{Duration, Instant};

use prometheus::proto::Metric;
use prometheus::TextEncoder;
use rocket_metric_collector::labels::{response_labels, status_label};
use rocket_metric_collector::metrics::{ConstructionError, PrometheusMetrics};
use rocket_metric_collector::middleware::{ArcRwLockPrometheus, TimerStart};

fn bundle(namespace: &str) -> PrometheusMetrics {
    match PrometheusMetrics::new(namespace) {
        Ok(m) => m,
        Err(e) => panic!("construction failed: {:?}", e),
    }
}

fn shared(namespace: &str) -> ArcRwLockPrometheus {
    ArcRwLockPrometheus::new(Arc::new(RwLock::new(bundle(namespace))))
}

fn stamped_ago(ms: u64) -> TimerStart {
    TimerStart(Some(Instant::now().checked_sub(Duration::from_millis(ms)).unwrap()))
}

fn series(m: &PrometheusMetrics, family: &str, labels: &[&str]) -> Option<Metric> {
    let families = m.registry().gather();
    let f = families.iter().find(|f| f.get_name() == family)?;
    f.get_metric()
        .iter()
        .find(|s| {
            let pairs = s.get_label();
            pairs.len() == labels.len()
                && ["endpoint", "method", "status"]
                    .iter()
                    .zip(labels.iter())
                    .all(|(n, v)| pairs.iter().any(|p| p.get_name() == *n && p.get_value() == *v))
        })
        .cloned()
}

fn count(m: &PrometheusMetrics, labels: &[&str]) -> u64 {
    let name = format!("{}_http_requests_total", m.namespace());
    series(m, &name, labels).map(|s| s.get_counter().get_value() as u64).unwrap_or(0)
}

fn samples(m: &PrometheusMetrics, labels: &[&str]) -> u64 {
    duration_sum_and_count(m, labels).1
}

fn duration_sum_and_count(m: &PrometheusMetrics, labels: &[&str]) -> (f64, u64) {
    let name = format!("{}_http_requests_duration_seconds", m.namespace());
    series(m, &name, labels)
        .map(|s| (s.get_histogram().get_sample_sum(), s.get_histogram().get_sample_count()))
        .unwrap_or((0.0, 0))
}

fn exposition(m: &PrometheusMetrics) -> String {
    TextEncoder::new().encode_to_string(&m.registry().gather()).unwrap()
}

fn series_lines(text: &str, prefix: &str) -> usize {
    text.lines().filter(|l| l.starts_with(prefix)).count()
}

#[test]
fn status_label_is_decimal() {
    assert_eq!(status_label(200), "200");
    assert_eq!(status_label(404), "404");
    assert_eq!(status_label(7), "7");
    assert_eq!(status_label(0), "0");
    assert_eq!(status_label(65535), "65535");
}

#[test]
fn labels_use_route_template() {
    let l = response_labels(Some("/users/<id>"), "GET", 200).unwrap();
    assert_eq!(l.endpoint, "/users/<id>");
    assert_eq!(l.method, "GET");
    assert_eq!(l.status, "200");
    assert!(response_labels(None, "GET", 200).is_none());
}

#[test]
fn new_keeps_namespace() {
    let m = bundle("svc");
    assert_eq!(m.namespace(), "svc");
    assert!(PrometheusMetrics::new("").is_ok());
}

#[test]
fn new_rejects_invalid_namespace() {
    assert!(matches!(PrometheusMetrics::new("my-app"), Err(ConstructionError::InvalidName)));
    assert!(matches!(PrometheusMetrics::new("9lives"), Err(ConstructionError::InvalidName)));
}

#[test]
fn fresh_bundle_exposes_no_series() {
    let m = bundle("svc");
    let text = exposition(&m);
    assert_eq!(series_lines(&text, "svc_http_requests_total{"), 0);
    assert_eq!(series_lines(&text, "svc_http_requests_duration_seconds"), 0);
}

#[test]
fn single_get_hello() {
    let mw = shared("svc");
    let r = mw.on_response(Some("/hello"), "GET", 200, &stamped_ago(12));
    assert!(r.observed);
    assert_eq!(r.labels.as_ref().unwrap().status, "200");
    let m = mw.rwLock.read().unwrap();
    let labels = ["/hello", "GET", "200"];
    assert_eq!(count(&m, &labels), 1);
    assert_eq!(samples(&m, &labels), 1);
    assert!(duration_sum_and_count(&m, &labels).0 >= 0.012);
    let text = exposition(&m);
    assert!(text.contains(
        "svc_http_requests_total{endpoint=\"/hello\",method=\"GET\",status=\"200\"} 1"
    ));
    assert!(text.contains(
        "svc_http_requests_duration_seconds_bucket{endpoint=\"/hello\",method=\"GET\",status=\"200\",le=\"0.01\"} 0"
    ));
    assert!(text.contains(
        "svc_http_requests_duration_seconds_count{endpoint=\"/hello\",method=\"GET\",status=\"200\"} 1"
    ));
}

#[test]
fn hundred_parallel_gets() {
    let mw = shared("svc");
    let workers: Vec<ArcRwLockPrometheus> = (0..100).map(|_| Clone::clone(&mw)).collect();
    let stamps: Vec<TimerStart> = workers.iter().map(|w| w.on_request()).collect();
    for (w, t) in workers.iter().zip(stamps.iter()).rev() {
        w.on_response(Some("/users/<id>"), "GET", 200, t);
    }
    let m = mw.rwLock.read().unwrap();
    assert_eq!(count(&m, &["/users/<id>", "GET", "200"]), 100);
    assert_eq!(samples(&m, &["/users/<id>", "GET", "200"]), 100);
}

#[test]
fn post_submit_server_error() {
    let mw = shared("svc");
    mw.on_response(Some("/submit"), "POST", 500, &mw.on_request());
    let m = mw.rwLock.read().unwrap();
    assert_eq!(count(&m, &["/submit", "POST", "500"]), 1);
    assert_eq!(samples(&m, &["/submit", "POST", "500"]), 1);
}

#[test]
fn unrouted_request_records_nothing() {
    let mw = shared("svc");
    let r = mw.on_response(None, "GET", 404, &TimerStart::started());
    assert!(r.labels.is_none());
    assert!(!r.observed);
    let m = mw.rwLock.read().unwrap();
    let text = exposition(&m);
    assert_eq!(series_lines(&text, "svc_http_requests_total{"), 0);
    assert_eq!(series_lines(&text, "svc_http_requests_duration_seconds"), 0);
    // prometheus leaves families without series out of what it gathers.
    assert!(!text.contains("svc_http_requests_total"));
    assert!(!text.contains("svc_http_requests_duration_seconds"));
}

#[test]
fn mixed_traffic_three_series() {
    let mw = shared("svc");
    for _ in 0..3 {
        mw.on_response(Some("/a"), "GET", 200, &TimerStart::started());
    }
    for _ in 0..2 {
        mw.on_response(Some("/a"), "GET", 404, &TimerStart::started());
    }
    mw.on_response(Some("/b"), "GET", 200, &TimerStart::started());
    let m = mw.rwLock.read().unwrap();
    assert_eq!(count(&m, &["/a", "GET", "200"]), 3);
    assert_eq!(count(&m, &["/a", "GET", "404"]), 2);
    assert_eq!(count(&m, &["/b", "GET", "200"]), 1);
    assert_eq!(samples(&m, &["/a", "GET", "200"]), 3);
    assert_eq!(samples(&m, &["/a", "GET", "404"]), 2);
    assert_eq!(samples(&m, &["/b", "GET", "200"]), 1);
    let text = exposition(&m);
    assert_eq!(series_lines(&text, "svc_http_requests_total{"), 3);
    assert_eq!(series_lines(&text, "svc_http_requests_duration_seconds_count{"), 3);
}

#[test]
fn scrape_during_traffic() {
    let mw = shared("svc");
    let scraper = Arc::clone(&mw.rwLock);
    for i in 0..200u64 {
        mw.on_response(Some("/x"), "GET", 200, &TimerStart::started());
        let text = exposition(&scraper.read().unwrap());
        assert!(text.contains(&format!(
            "svc_http_requests_total{{endpoint=\"/x\",method=\"GET\",status=\"200\"}} {}",
            i + 1
        )));
    }
    let text = exposition(&scraper.read().unwrap());
    assert!(text.contains("svc_http_requests_total{endpoint=\"/x\",method=\"GET\",status=\"200\"} 200"));
}

#[test]
fn missing_timer_counts_without_observation() {
    let mw = shared("svc");
    let r = mw.on_response(Some("/late"), "GET", 200, &TimerStart::unset());
    assert!(r.labels.is_some());
    assert!(!r.observed);
    let m = mw.rwLock.read().unwrap();
    assert_eq!(count(&m, &["/late", "GET", "200"]), 1);
    assert_eq!(samples(&m, &["/late", "GET", "200"]), 0);
}

#[test]
fn routed_requests_sum_to_their_number() {
    let m = bundle("svc");
    let requests = [("/a", "GET", 200u16), ("/b", "POST", 201), ("/a", "GET", 200), ("/c", "DELETE", 204)];
    for (route, method, status) in requests.iter() {
        m.record_response(Some(route), method, *status, &TimerStart::started());
    }
    let total = count(&m, &["/a", "GET", "200"]) + count(&m, &["/b", "POST", "201"]) + count(&m, &["/c", "DELETE", "204"]);
    assert_eq!(total, 4);
}

#[test]
fn observations_never_exceed_counts() {
    let m = bundle("svc");
    m.record_response(Some("/a"), "GET", 200, &TimerStart::started());
    m.record_response(Some("/a"), "GET", 200, &TimerStart::unset());
    m.record_response(Some("/a"), "GET", 200, &TimerStart::started());
    assert_eq!(count(&m, &["/a", "GET", "200"]), 3);
    assert_eq!(samples(&m, &["/a", "GET", "200"]), 2);
}

#[test]
fn observation_is_non_negative() {
    let m = bundle("svc");
    m.record_response(Some("/a"), "GET", 200, &TimerStart::started());
    let (sum, n) = duration_sum_and_count(&m, &["/a", "GET", "200"]);
    assert_eq!(n, 1);
    assert!(sum >= 0.0);
    assert!(sum < 5.0);
}

#[test]
fn exposition_is_idempotent() {
    let m = bundle("svc");
    m.record_response(Some("/a"), "GET", 200, &TimerStart::started());
    m.record_response(Some("/b"), "GET", 500, &TimerStart::started());
    let first = exposition(&m);
    let second = exposition(&m);
    assert_eq!(first, second);
}

#[test]
fn clones_share_counters() {
    let m = bundle("svc");
    let c = m.clone();
    assert_eq!(c.namespace(), "svc");
    c.record_response(Some("/a"), "GET", 200, &TimerStart::started());
    assert_eq!(count(&m, &["/a", "GET", "200"]), 1);
    let mw = shared("svc");
    let other = Clone::clone(&mw);
    other.on_response(Some("/a"), "GET", 200, &TimerStart::started());
    assert!(Arc::ptr_eq(&other.rwLock, &mw.rwLock));
    let handle = Arc::clone(&mw.rwLock);
    assert_eq!(count(&handle.read().unwrap(), &["/a", "GET", "200"]), 1);
}

#[test]
fn timer_elapsed_only_when_stamped() {
    assert!(TimerStart::started().elapsed().is_some());
    assert!(TimerStart::unset().elapsed().is_none());
    assert!(stamped_ago(20).elapsed().unwrap() >= Duration::from_millis(20));
}

#[test]
fn counter_handle_is_the_registered_one() {
    let m = bundle("svc");
    let labels = ["/a", "GET", "200"];
    assert!(m.http_requests_total().inc(&labels));
    assert!(m.http_requests_total().inc(&labels));
    assert_eq!(m.http_requests_total().get(&labels), Some(2));
    assert_eq!(count(&m, &labels), 2);
    assert!(!m.http_requests_total().inc(&["/a", "GET"]));
    assert_eq!(m.http_requests_total().get(&["/a"]), None);
}

#[test]
fn histogram_handle_is_the_registered_one() {
    let m = bundle("svc");
    let labels = ["/a", "GET", "200"];
    assert!(m.http_requests_duration_seconds().observe(&labels, Duration::from_millis(250)));
    assert_eq!(m.http_requests_duration_seconds().sample_count(&labels), Some(1));
    let (sum, n) = duration_sum_and_count(&m, &labels);
    assert_eq!(n, 1);
    assert!((sum - 0.25).abs() < 1e-9);
    assert!(!m.http_requests_duration_seconds().observe(&["/a"], Duration::from_millis(1)));
    assert_eq!(m.http_requests_duration_seconds().sample_count(&["/a"]), None);
}

#[test]
fn bundles_with_one_namespace_are_independent() {
    let m1 = bundle("svc");
    let m2 = bundle("svc");
    m1.record_response(Some("/a"), "GET", 200, &TimerStart::started());
    assert_eq!(count(&m1, &["/a", "GET", "200"]), 1);
    assert_eq!(samples(&m1, &["/a", "GET", "200"]), 1);
    let text = exposition(&m2);
    assert_eq!(series_lines(&text, "svc_http_requests_total{"), 0);
}

#[test]
fn record_reports_count_and_observation() {
    let m = bundle("svc");
    let r = m.record_response(Some("/a"), "GET", 200, &TimerStart::started());
    assert!(r.counted && r.observed);
    let r = m.record_response(Some("/a"), "GET", 200, &TimerStart::unset());
    assert!(r.counted && !r.observed);
    let r = m.record_response(None, "GET", 200, &TimerStart::started());
    assert!(!r.counted && !r.observed && r.labels.is_none());
}

//! Request metrics for an HTTP server: a counter and a latency histogram per
//! `(endpoint, method, status)`, kept in a prometheus registry.
#![allow(non_snake_case)]

pub mod labels;
pub mod model;
pub mod metrics;
pub mod middleware;

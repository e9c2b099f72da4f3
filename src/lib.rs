//! A client library for a Loki log-aggregation backend: it builds push
//! requests (protobuf, snappy block compression), builds query and label
//! requests, and parses the backend's JSON answers into typed results.
use vstd::prelude::*;

pub mod buffer;
pub mod client;
pub mod error;
pub mod json;
pub mod query;
pub mod screens;
pub mod time;
pub mod ui;

verus! {

/// Where the backend lives.
pub struct LokiConfig {
    pub loki_url: String,
}

impl Default for LokiConfig {
    fn default() -> (r: Self)
        ensures
            r.loki_url@ == "http://localhost:3100"@,
    {
        LokiConfig { loki_url: String::from_str("http://localhost:3100") }
    }
}

} // verus!

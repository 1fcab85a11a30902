//! The shape of a health endpoint's JSON reply, as plain values.

use vstd::prelude::*;

verus! {

/// One component's status inside a health endpoint's reply.
#[derive(Debug, Clone)]
pub struct HealthCheck {
    pub name: String,
    pub status: String,
    pub details: Option<String>,
    pub duration: Option<u64>,
}

/// A health endpoint's reply: an overall status string, an optional
/// version, and a list of per-component statuses.
#[derive(Debug, Clone)]
pub struct HealthResponse {
    pub status: String,
    pub version: Option<String>,
    pub checks: Vec<HealthCheck>,
}

} // verus!

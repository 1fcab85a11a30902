//! Check definitions and the outcome of one probe.

use vstd::prelude::*;
use crate::models::health::HealthCheck;

verus! {

/// The probe strategy of a check: query a JSON health endpoint, or fetch a
/// page and look for a keyword.
#[derive(Debug, Clone, PartialEq, Eq, Structural)]
pub enum CheckType {
    Health,
    Keyword,
}

/// The normalized result of one probe attempt.
///
/// `Error` covers every failure mode: transport failure, timeout, a reply
/// that cannot be read, or a check whose required keyword is missing.
#[derive(Debug, Clone, PartialEq, Eq, Structural)]
pub enum Status {
    Healthy,
    Unhealthy,
    Error,
}

/// One configured monitoring target.
///
/// `keyword` is only meaningful for `CheckType::Keyword`; its absence there
/// is tolerated at startup and turns every probe of the check into
/// `Status::Error`.
#[derive(Debug, Clone)]
pub struct Check {
    pub name: String,
    pub url: String,
    pub check_type: CheckType,
    pub keyword: Option<String>,
}

/// What the cache remembers of a check: the probe's outcome together with
/// the monotonic timestamp (in milliseconds) at which it was observed.
/// An entry is immutable once written; a refresh replaces it wholesale.
#[derive(Debug, Clone)]
pub struct CheckResult {
    pub name: String,
    pub url: String,
    pub status: Status,
    pub version: Option<String>,
    pub sub_checks: Vec<HealthCheck>,
    pub last_checked: u64,
}

} // verus!

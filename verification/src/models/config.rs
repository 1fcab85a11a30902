//! Static configuration: a project name, a staleness timeout, and the
//! checks grouped by environment.

use vstd::prelude::*;
use vstd::string::StringExecFns;
use crate::models::check::Check;
use crate::models::check::CheckType;

verus! {

/// The whole configuration, loaded once at startup and never reloaded.
#[derive(Debug, Clone)]
pub struct Config {
    pub project_name: String,
    pub stale_timeout_seconds: u64,
    pub environments: Vec<Environment>,
}

/// A named grouping of checks (for example "prod" or "staging").
#[derive(Debug, Clone)]
pub struct Environment {
    pub name: String,
    pub checks: Vec<Check>,
}

/// What `check_type_from_str` returns: exactly `"health"` and `"keyword"`
/// (case-sensitive) name a probe kind; anything else is unrecognized.
pub open spec fn spec_check_type(s: Seq<char>) -> Option<CheckType> {
    if s == "health"@ {
        Some(CheckType::Health)
    } else if s == "keyword"@ {
        Some(CheckType::Keyword)
    } else {
        None
    }
}

/// Maps a configuration's `check_type` string to a probe kind:
/// exactly `"health"` and `"keyword"` (case-sensitive) are recognized.
/// An unrecognized value is a configuration error, fatal at startup.
pub fn check_type_from_str(s: &str) -> (r: Option<CheckType>)
    ensures
        r == spec_check_type(s@),
{
    let t = s.to_owned();
    if t == String::from_str("health") {
        Some(CheckType::Health)
    } else if t == String::from_str("keyword") {
        Some(CheckType::Keyword)
    } else {
        None
    }
}

} // verus!

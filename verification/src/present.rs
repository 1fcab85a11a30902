//! Pure helpers for the presentation layer.
//!
//! The dashboard itself is an external consumer that only reads the cache;
//! the small decisions it makes — how an outcome is labelled and styled,
//! which checks belong to which display group — are verified here.

use vstd::prelude::*;
use vstd::string::StringExecFns;
use crate::models::check::Check;
use crate::models::check::CheckType;
use crate::models::check::Status;
use crate::models::health::HealthCheck;

verus! {

/// The style class of a probe outcome.
pub open spec fn spec_status_class(s: Status) -> Seq<char> {
    match s {
        Status::Healthy => "healthy"@,
        Status::Unhealthy => "unhealthy"@,
        Status::Error => "error"@,
    }
}

/// The label of a probe outcome.
pub open spec fn spec_status_text(s: Status) -> Seq<char> {
    match s {
        Status::Healthy => "Healthy \u{2713}"@,
        Status::Unhealthy => "Unhealthy \u{2717}"@,
        Status::Error => "Error \u{26a0}"@,
    }
}

/// Maps a probe outcome to its style class.
pub fn status_class(status: &Status) -> (r: &'static str)
    ensures
        r@ == spec_status_class(*status),
{
    match status {
        Status::Healthy => "healthy",
        Status::Unhealthy => "unhealthy",
        Status::Error => "error",
    }
}

/// Maps a probe outcome to its label.
pub fn status_text(status: &Status) -> (r: &'static str)
    ensures
        r@ == spec_status_text(*status),
{
    match status {
        Status::Healthy => "Healthy \u{2713}",
        Status::Unhealthy => "Unhealthy \u{2717}",
        Status::Error => "Error \u{26a0}",
    }
}

/// Whether a sub-check's status text counts as healthy: exactly `"Healthy"`,
/// case-sensitively, as in the overall classification.
pub fn sub_status_is_healthy(sub: &HealthCheck) -> (r: bool)
    ensures
        r == (sub.status@ == "Healthy"@),
{
    sub.status == String::from_str("Healthy")
}

/// The indices, in configuration order, of the checks with the given probe
/// kind: the dashboard groups health checks and keyword checks separately.
pub fn checks_of_type(checks: &Vec<Check>, kind: CheckType) -> (r: Vec<usize>)
    ensures
        forall|t: int|
            0 <= t < r@.len() ==> #[trigger] r@[t] < checks@.len() && checks@[r@[t] as int].check_type
                == kind,
        forall|t1: int, t2: int|
            #![trigger r@[t1], r@[t2]]
            0 <= t1 < t2 < r@.len() ==> r@[t1] < r@[t2],
        forall|idx: int|
            0 <= idx < checks@.len() && (#[trigger] checks@[idx]).check_type == kind ==> exists|t: int|
                0 <= t < r@.len() && r@[t] == idx,
{
    let mut out: Vec<usize> = Vec::new();
    let n = checks.len();
    let mut idx: usize = 0;
    while idx < n
        invariant
            n == checks@.len(),
            idx <= n,
            forall|t: int|
                0 <= t < out@.len() ==> #[trigger] out@[t] < idx && checks@[out@[t] as int].check_type
                    == kind,
            forall|t1: int, t2: int|
                #![trigger out@[t1], out@[t2]]
                0 <= t1 < t2 < out@.len() ==> out@[t1] < out@[t2],
            forall|i2: int|
                0 <= i2 < idx && (#[trigger] checks@[i2]).check_type == kind ==> exists|t: int|
                    0 <= t < out@.len() && out@[t] == i2,
        decreases n - idx,
    {
        if checks[idx].check_type == kind {
            let ghost old_out = out@;
            out.push(idx);
            proof {
                assert forall|t1: int, t2: int| 0 <= t1 < t2 < out@.len() implies out@[t1]
                    < out@[t2] by {
                    assert(out@[t1] == old_out[t1]);
                    if t2 < out@.len() - 1 {
                        assert(out@[t2] == old_out[t2]);
                    }
                }
                assert forall|i2: int|
                    0 <= i2 < idx + 1 && (#[trigger] checks@[i2]).check_type == kind implies exists|t: int|
                    0 <= t < out@.len() && out@[t] == i2 by {
                    if i2 == idx {
                        assert(0 <= out@.len() - 1 < out@.len() && out@[out@.len() - 1] == i2);
                    } else {
                        let t0 = choose|t: int| 0 <= t < old_out.len() && old_out[t] == i2;
                        assert(0 <= t0 < out@.len() && out@[t0] == i2);
                    }
                }
            }
        }
        idx += 1;
    }
    out
}

} // verus!

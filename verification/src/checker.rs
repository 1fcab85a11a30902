//! The probe executor's decision logic.
//!
//! The network fetch itself happens outside this library; what it handed
//! back — a parsed health reply, a page body, or nothing on failure — is
//! classified here into the normalized probe outcome. Every failure mode
//! collapses into `Status::Error`; classification never fails.

use vstd::prelude::*;
use vstd::string::StrSliceExecFns;
use vstd::string::StringExecFns;
use crate::models::check::Check;
use crate::models::check::CheckResult;
use crate::models::check::CheckType;
use crate::models::check::Status;
use crate::models::health::HealthResponse;

verus! {

/// The keyword occurs at position `i` of the body.
pub open spec fn spec_match_at(body: Seq<char>, keyword: Seq<char>, i: int) -> bool {
    0 <= i && i + keyword.len() <= body.len() && body.subrange(i, i + keyword.len()) == keyword
}

/// The keyword occurs somewhere in the body, as a literal, case-sensitive
/// substring.
pub open spec fn spec_contains(body: Seq<char>, keyword: Seq<char>) -> bool {
    exists|i: int| spec_match_at(body, keyword, i)
}

/// Whether the keyword starts at position `i` of the body.
fn match_at(body: &str, keyword: &str, i: usize) -> (r: bool)
    requires
        i + keyword@.len() <= body@.len(),
        body@.len() <= usize::MAX,
    ensures
        r == spec_match_at(body@, keyword@, i as int),
{
    let m = keyword.unicode_len();
    let mut j: usize = 0;
    while j < m
        invariant
            j <= m,
            m == keyword@.len(),
            i + m <= body@.len() <= usize::MAX,
            forall|j2: int| 0 <= j2 < j ==> body@[i + j2] == keyword@[j2],
        decreases m - j,
    {
        let bc = body.get_char(i + j);
        let kc = keyword.get_char(j);
        if bc != kc {
            assert(!spec_match_at(body@, keyword@, i as int)) by {
                if body@.subrange(i as int, i + m as int) == keyword@ {
                    assert(body@.subrange(i as int, i + m as int)[j as int] == body@[i + j]);
                }
            }
            return false;
        }
        j += 1;
    }
    assert(body@.subrange(i as int, i + m as int) =~= keyword@);
    true
}

/// Whether `keyword` occurs in `body` as a literal, case-sensitive
/// substring. An empty keyword occurs in every body.
pub fn contains_keyword(body: &str, keyword: &str) -> (r: bool)
    ensures
        r == spec_contains(body@, keyword@),
{
    let n = body.unicode_len();
    let m = keyword.unicode_len();
    if m > n {
        assert forall|i: int| !spec_match_at(body@, keyword@, i) by {}
        return false;
    }
    if m == 0 {
        assert(spec_match_at(body@, keyword@, 0)) by {
            assert(body@.subrange(0, 0) =~= keyword@);
        }
        return true;
    }
    let mut i: usize = 0;
    while i <= n - m
        invariant
            n == body@.len(),
            m == keyword@.len(),
            0 < m <= n,
            i <= n - m + 1,
            forall|i2: int| 0 <= i2 < i ==> !spec_match_at(body@, keyword@, i2),
        decreases n - m + 1 - i,
    {
        if match_at(body, keyword, i) {
            assert(spec_match_at(body@, keyword@, i as int));
            return true;
        }
        i += 1;
    }
    assert forall|i2: int| !spec_match_at(body@, keyword@, i2) by {}
    false
}

/// The classification of a health endpoint's overall status text: exactly
/// `"Healthy"` is healthy, anything else is unhealthy.
pub open spec fn spec_health_status(status_text: Seq<char>) -> Status {
    if status_text == "Healthy"@ {
        Status::Healthy
    } else {
        Status::Unhealthy
    }
}

/// The outcome of a HealthJSON probe: classified from the reply's status
/// text when a reply was parsed, and an error when none was.
pub open spec fn spec_health_outcome(response: Option<HealthResponse>) -> Status {
    match response {
        Option::Some(h) => spec_health_status(h.status@),
        Option::None => Status::Error,
    }
}

/// The outcome of a KeywordMatch probe: an error when the check has no
/// keyword or the fetch failed, otherwise healthy exactly when the keyword
/// occurs in the page body.
pub open spec fn spec_keyword_outcome(keyword: Option<String>, body: Option<String>) -> Status {
    match (keyword, body) {
        (Option::Some(kw), Option::Some(b)) => if spec_contains(b@, kw@) {
            Status::Healthy
        } else {
            Status::Unhealthy
        },
        _ => Status::Error,
    }
}

/// Builds the result of one HealthJSON probe from the endpoint's parsed
/// reply (`None` when the request, the response, or its parse failed).
/// Version and sub-checks propagate verbatim from the reply.
pub fn health_check_result(check: &Check, response: Option<HealthResponse>, now_ms: u64) -> (r:
    CheckResult)
    ensures
        r.name == check.name && r.url == check.url && r.last_checked == now_ms,
        r.status == spec_health_outcome(response),
        response matches Some(h) ==> r.version == h.version && r.sub_checks == h.checks,
        response is None ==> r.version is None && r.sub_checks@.len() == 0,
{
    match response {
        Some(health) => {
            let healthy = health.status == String::from_str("Healthy");
            CheckResult {
                name: check.name.clone(),
                url: check.url.clone(),
                status: if healthy {
                    Status::Healthy
                } else {
                    Status::Unhealthy
                },
                version: health.version,
                sub_checks: health.checks,
                last_checked: now_ms,
            }
        },
        None => CheckResult {
            name: check.name.clone(),
            url: check.url.clone(),
            status: Status::Error,
            version: None,
            sub_checks: Vec::new(),
            last_checked: now_ms,
        },
    }
}

/// Builds the result of one KeywordMatch probe from the fetched page body
/// (`None` when the request failed). A check without a keyword yields an
/// error outcome whatever the body; this probe kind never has a version or
/// sub-checks.
pub fn keyword_check_result(check: &Check, body: Option<String>, now_ms: u64) -> (r: CheckResult)
    ensures
        r.name == check.name && r.url == check.url && r.last_checked == now_ms,
        r.status == spec_keyword_outcome(check.keyword, body),
        r.version is None && r.sub_checks@.len() == 0,
{
    let status = match (&check.keyword, &body) {
        (Some(kw), Some(b)) => if contains_keyword(b.as_str(), kw.as_str()) {
            Status::Healthy
        } else {
            Status::Unhealthy
        },
        _ => Status::Error,
    };
    CheckResult {
        name: check.name.clone(),
        url: check.url.clone(),
        status: status,
        version: None,
        sub_checks: Vec::new(),
        last_checked: now_ms,
    }
}

/// What one probe handed back, before classification: the parsed reply of a
/// HealthJSON endpoint, or the page body of a KeywordMatch fetch. `None`
/// inside either variant records a transport failure, a timeout, or an
/// unreadable reply.
pub enum ProbeData {
    Health(Option<HealthResponse>),
    Keyword(Option<String>),
}

/// Classifies one probe of a check, dispatching on the check's probe kind.
/// All failure modes collapse into an `Error` outcome; the caller is never
/// interrupted by a failing endpoint.
pub fn run_check(check: &Check, data: ProbeData, now_ms: u64) -> (r: CheckResult)
    requires
        data is Health <==> check.check_type == CheckType::Health,
    ensures
        r.name == check.name && r.url == check.url && r.last_checked == now_ms,
        data matches ProbeData::Health(response) ==> r.status == spec_health_outcome(response),
        data matches ProbeData::Keyword(body) ==> r.status == spec_keyword_outcome(
            check.keyword,
            body,
        ) && r.version is None && r.sub_checks@.len() == 0,
{
    match data {
        ProbeData::Health(response) => health_check_result(check, response, now_ms),
        ProbeData::Keyword(body) => keyword_check_result(check, body, now_ms),
    }
}

} // verus!

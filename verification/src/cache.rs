//! The result cache and the staleness policy.
//!
//! The cache maps a check's identity — environment name and check name,
//! joined by a colon — to the most recent probe result. It is backed by a
//! sharded concurrent map so that the dashboard can read it while the
//! scheduler refreshes entries; within this library it is written through
//! an exclusive reference, so every write is visible in its contract.

use vstd::prelude::*;
use vstd::string::StringExecFns;
use crate::models::check::CheckResult;
use crate::models::config::Config;

verus! {

#[verifier::external_type_specification]
#[verifier::external_body]
#[verifier::reject_recursive_types(K)]
#[verifier::reject_recursive_types(V)]
#[verifier::reject_recursive_types(S)]
pub struct ExDashMap<K, V, S>(dashmap::DashMap<K, V, S>);

/// The entries a backing map holds, as a map from key view to result.
pub uninterp spec fn map_entries(m: dashmap::DashMap<String, CheckResult>) -> Map<
    Seq<char>,
    CheckResult,
>;

/// The store of the latest observed result per check identity.
///
/// Entries are only ever replaced wholesale, never mutated in place, and no
/// entry is deleted during normal operation.
pub struct Cache {
    map: dashmap::DashMap<String, CheckResult>,
}

impl View for Cache {
    type V = Map<Seq<char>, CheckResult>;

    /// The entries of a cache, as a map from key view to result.
    closed spec fn view(&self) -> Map<Seq<char>, CheckResult> {
        map_entries(self.map)
    }
}

/// What a cache lookup returns: the entry under the key, if one exists.
pub open spec fn spec_lookup(m: Map<Seq<char>, CheckResult>, k: Seq<char>) -> Option<
    CheckResult,
> {
    if m.contains_key(k) {
        Some(m[k])
    } else {
        None
    }
}

impl Cache {
    /// Relies on dashmap::DashMap::get: returns the value stored under the
    /// key, if any; the body clones it out of the read guard.
    #[verifier::external_body]
    fn get_raw(&self, key: &String) -> (r: Option<CheckResult>)
        ensures
            r == spec_lookup(map_entries(self.map), key@),
    {
        match self.map.get(key) {
            Some(entry) => Some(entry.value().clone()),
            None => None,
        }
    }

    /// Relies on dashmap::DashMap::insert: stores the value under the key,
    /// replacing the previous entry for that key, if there was one.
    #[verifier::external_body]
    fn insert_raw(&mut self, key: String, value: CheckResult)
        ensures
            map_entries(final(self).map) == map_entries(old(self).map).insert(key@, value),
    {
        self.map.insert(key, value);
    }
}

/// A cache with no entries: the state before any check was ever probed.
pub open spec fn empty_entries() -> Map<Seq<char>, CheckResult> {
    Map::empty()
}

/// Relies on dashmap::DashMap::new: creates an empty map.
#[verifier::external_body]
pub fn create_cache() -> (r: Cache)
    ensures
        r@ == empty_entries(),
{
    Cache { map: dashmap::DashMap::new() }
}

/// Reads the latest recorded result for a key, or `None` when the check has
/// never been probed.
pub fn get_result(cache: &Cache, key: &String) -> (r: Option<CheckResult>)
    ensures
        r == spec_lookup(cache@, key@),
{
    cache.get_raw(key)
}

/// Records a probe result under a key, unconditionally replacing whatever
/// was there before (last write wins).
pub fn record_result(cache: &mut Cache, key: String, result: CheckResult)
    ensures
        final(cache)@ == old(cache)@.insert(key@, result),
{
    cache.insert_raw(key, result)
}

/// The cache key of a check: environment name and check name joined by a
/// colon, both used verbatim (case- and whitespace-sensitive).
pub open spec fn spec_cache_key(env_name: Seq<char>, check_name: Seq<char>) -> Seq<char> {
    env_name + ":"@ + check_name
}

/// Renders the cache key of a check.
pub fn cache_key(env_name: &str, check_name: &str) -> (r: String)
    ensures
        r@ == spec_cache_key(env_name@, check_name@),
{
    let mut key = env_name.to_owned();
    key.append(":");
    key.append(check_name);
    key
}

/// When a cached result is stale: strictly more than `timeout_secs` seconds
/// have passed since it was observed. At exactly the timeout it is still
/// fresh.
pub open spec fn spec_is_stale(last_checked: int, timeout_secs: int, now_ms: int) -> bool {
    now_ms - last_checked > timeout_secs * 1000
}

/// Decides whether a cached result is stale at `now_ms` under a timeout of
/// `timeout_secs` seconds.
pub fn is_stale(result: &CheckResult, timeout_secs: u64, now_ms: u64) -> (r: bool)
    ensures
        r == spec_is_stale(result.last_checked as int, timeout_secs as int, now_ms as int),
{
    (now_ms as u128) > (result.last_checked as u128) + (timeout_secs as u128) * 1000
}

/// The staleness policy: a check with no cached entry is always due, and a
/// cached entry makes the check due exactly when it is stale.
pub open spec fn spec_is_due(entry: Option<CheckResult>, timeout_secs: int, now_ms: int) -> bool {
    match entry {
        Option::None => true,
        Option::Some(e) => spec_is_stale(e.last_checked as int, timeout_secs, now_ms),
    }
}

/// Decides whether a check is due for a fresh probe, given its cached entry
/// (or its absence).
pub fn is_due(entry: &Option<CheckResult>, timeout_secs: u64, now_ms: u64) -> (r: bool)
    ensures
        r == spec_is_due(*entry, timeout_secs as int, now_ms as int),
{
    match entry {
        None => true,
        Some(result) => is_stale(result, timeout_secs, now_ms),
    }
}

/// One polling decision: look the key up in the cache and apply the
/// staleness policy to what was found.
pub fn check_due(cache: &Cache, key: &String, timeout_secs: u64, now_ms: u64) -> (r: bool)
    ensures
        r == spec_is_due(spec_lookup(cache@, key@), timeout_secs as int, now_ms as int),
{
    let entry = get_result(cache, key);
    is_due(&entry, timeout_secs, now_ms)
}

/// A check the policy calls fresh always has a cache entry: absence alone
/// makes a check due, so every configured check is probed at least once.
pub proof fn lemma_not_due_implies_present(
    entry: Option<CheckResult>,
    timeout_secs: int,
    now_ms: int,
)
    ensures
        !spec_is_due(entry, timeout_secs, now_ms) ==> entry is Some,
{
}

/// The cache key of check `j` inside environment `i` of the configuration.
pub open spec fn key_of(config: Config, i: int, j: int) -> Seq<char> {
    spec_cache_key(
        config.environments@[i].name@,
        config.environments@[i].checks@[j].name@,
    )
}

/// Whether `k` is the cache key of some configured check.
pub open spec fn is_configured_key(config: Config, k: Seq<char>) -> bool {
    exists|i: int, j: int|
        0 <= i < config.environments@.len() && 0 <= j < config.environments@[i].checks@.len()
            && #[trigger] key_of(config, i, j) == k
}

/// Check identities are unique within a configuration: distinct configured
/// checks render distinct cache keys.
pub open spec fn distinct_keys(config: Config) -> bool {
    forall|i1: int, j1: int, i2: int, j2: int|
        0 <= i1 < config.environments@.len() && 0 <= j1 < config.environments@[i1].checks@.len()
            && 0 <= i2 < config.environments@.len() && 0 <= j2
            < config.environments@[i2].checks@.len() && (i1 != i2 || j1 != j2) ==> #[trigger] key_of(
            config,
            i1,
            j1,
        ) != #[trigger] key_of(config, i2, j2)
}

/// One unconditional scheduler pass: the probe result of every configured
/// check, supplied row by row in configuration order, is written into the
/// cache under the check's key, overwriting whatever was there. Afterwards
/// every configured check has an entry — its supplied result — no other key
/// is touched, and no entry is ever lost.
pub fn poll_all_checks(config: &Config, cache: Cache, results: Vec<Vec<CheckResult>>) -> (r: Cache)
    requires
        distinct_keys(*config),
        results@.len() == config.environments@.len(),
        forall|i: int|
            0 <= i < results@.len() ==> #[trigger] results@[i]@.len()
                == config.environments@[i].checks@.len(),
    ensures
        forall|i: int, j: int|
            0 <= i < config.environments@.len() && 0 <= j
                < config.environments@[i].checks@.len() ==> spec_lookup(
                r@,
                #[trigger] key_of(*config, i, j),
            ) == Some(results@[i]@[j]),
        forall|k: Seq<char>|
            !is_configured_key(*config, k) ==> spec_lookup(r@, k) == spec_lookup(cache@, k),
        forall|k: Seq<char>| cache@.contains_key(k) ==> r@.contains_key(k),
{
    let ghost m0 = cache@;
    let ghost all = results@;
    let mut cache = cache;
    let mut remaining = results;
    let n_envs = config.environments.len();
    let mut i: usize = 0;
    while i < n_envs
        invariant
            distinct_keys(*config),
            n_envs == config.environments@.len(),
            i <= n_envs,
            all.len() == n_envs,
            remaining@ == all.skip(i as int),
            forall|i2: int|
                0 <= i2 < all.len() ==> #[trigger] all[i2]@.len()
                    == config.environments@[i2].checks@.len(),
            forall|i2: int, j2: int|
                0 <= i2 < i && 0 <= j2 < config.environments@[i2].checks@.len() ==> spec_lookup(
                    cache@,
                    #[trigger] key_of(*config, i2, j2),
                ) == Some(all[i2]@[j2]),
            forall|k: Seq<char>|
                !is_configured_key(*config, k) ==> spec_lookup(cache@, k) == spec_lookup(m0, k),
            forall|k: Seq<char>| m0.contains_key(k) ==> cache@.contains_key(k),
        decreases n_envs - i,
    {
        let mut row = remaining.remove(0);
        proof {
            assert(all.skip(i as int).remove(0) =~= all.skip(i as int + 1));
        }
        let n_checks = config.environments[i].checks.len();
        let ghost row_all = all[i as int]@;
        let mut j: usize = 0;
        while j < n_checks
            invariant
                distinct_keys(*config),
                n_envs == config.environments@.len(),
                i < n_envs,
                all.len() == n_envs,
                n_checks == config.environments@[i as int].checks@.len(),
                row_all == all[i as int]@,
                row_all.len() == n_checks,
                j <= n_checks,
                row@ == row_all.skip(j as int),
                forall|i2: int, j2: int|
                    0 <= i2 < i && 0 <= j2 < config.environments@[i2].checks@.len()
                        ==> spec_lookup(cache@, #[trigger] key_of(*config, i2, j2)) == Some(
                        all[i2]@[j2],
                    ),
                forall|j2: int|
                    0 <= j2 < j ==> spec_lookup(cache@, #[trigger] key_of(*config, i as int, j2))
                        == Some(row_all[j2]),
                forall|k: Seq<char>|
                    !is_configured_key(*config, k) ==> spec_lookup(cache@, k) == spec_lookup(m0, k),
                forall|k: Seq<char>| m0.contains_key(k) ==> cache@.contains_key(k),
            decreases n_checks - j,
        {
            let result = row.remove(0);
            proof {
                assert(row_all.skip(j as int).remove(0) =~= row_all.skip(j as int + 1));
                assert(row_all.skip(j as int)[0] == row_all[j as int]);
            }
            let key = cache_key(
                config.environments[i].name.as_str(),
                config.environments[i].checks[j].name.as_str(),
            );
            proof {
                assert(key@ == key_of(*config, i as int, j as int));
                assert(is_configured_key(*config, key@)) by {
                    assert(0 <= i < config.environments@.len() && 0 <= j
                        < config.environments@[i as int].checks@.len() && key_of(
                        *config,
                        i as int,
                        j as int,
                    ) == key@);
                }
            }
            record_result(&mut cache, key, result);
            j += 1;
        }
        i += 1;
    }
    cache
}

/// Collects what the cache knows of every configured check, in
/// configuration order: one pair of rendered key and entry per configured
/// check that has been probed. Checks never probed are absent, and nothing
/// but configured keys is handed out.
pub fn collect_entries(config: &Config, cache: &Cache) -> (r: Vec<(String, CheckResult)>)
    ensures
        forall|t: int|
            0 <= t < r@.len() ==> spec_lookup(cache@, (#[trigger] r@[t]).0@) == Some(r@[t].1)
                && is_configured_key(*config, r@[t].0@),
        forall|i: int, j: int|
            0 <= i < config.environments@.len() && 0 <= j < config.environments@[i].checks@.len()
                && cache@.contains_key(#[trigger] key_of(*config, i, j)) ==> exists|t: int|
                0 <= t < r@.len() && (#[trigger] r@[t]).0@ == key_of(*config, i, j),
{
    let mut out: Vec<(String, CheckResult)> = Vec::new();
    let n_envs = config.environments.len();
    let mut i: usize = 0;
    while i < n_envs
        invariant
            n_envs == config.environments@.len(),
            i <= n_envs,
            forall|t: int|
                0 <= t < out@.len() ==> spec_lookup(cache@, (#[trigger] out@[t]).0@) == Some(
                    out@[t].1,
                ) && is_configured_key(*config, out@[t].0@),
            forall|i2: int, j2: int|
                0 <= i2 < i && 0 <= j2 < config.environments@[i2].checks@.len()
                    && cache@.contains_key(#[trigger] key_of(*config, i2, j2)) ==> exists|t: int|
                    0 <= t < out@.len() && (#[trigger] out@[t]).0@ == key_of(*config, i2, j2),
        decreases n_envs - i,
    {
        let n_checks = config.environments[i].checks.len();
        let mut j: usize = 0;
        while j < n_checks
            invariant
                n_envs == config.environments@.len(),
                i < n_envs,
                n_checks == config.environments@[i as int].checks@.len(),
                j <= n_checks,
                forall|t: int|
                    0 <= t < out@.len() ==> spec_lookup(cache@, (#[trigger] out@[t]).0@) == Some(
                        out@[t].1,
                    ) && is_configured_key(*config, out@[t].0@),
                forall|i2: int, j2: int|
                    0 <= i2 < i && 0 <= j2 < config.environments@[i2].checks@.len()
                        && cache@.contains_key(#[trigger] key_of(*config, i2, j2)) ==> exists|t: int|
                        0 <= t < out@.len() && (#[trigger] out@[t]).0@ == key_of(*config, i2, j2),
                forall|j2: int|
                    0 <= j2 < j && cache@.contains_key(#[trigger] key_of(*config, i as int, j2))
                        ==> exists|t: int|
                        0 <= t < out@.len() && (#[trigger] out@[t]).0@ == key_of(
                            *config,
                            i as int,
                            j2,
                        ),
            decreases n_checks - j,
        {
            let key = cache_key(
                config.environments[i].name.as_str(),
                config.environments[i].checks[j].name.as_str(),
            );
            proof {
                assert(key@ == key_of(*config, i as int, j as int));
                assert(is_configured_key(*config, key@)) by {
                    assert(0 <= i < config.environments@.len() && 0 <= j
                        < config.environments@[i as int].checks@.len() && key_of(
                        *config,
                        i as int,
                        j as int,
                    ) == key@);
                }
            }
            let entry = get_result(cache, &key);
            if let Some(result) = entry {
                let ghost old_out = out@;
                out.push((key, result));
                proof {
                    assert forall|i2: int, j2: int|
                        0 <= i2 < i && 0 <= j2 < config.environments@[i2].checks@.len()
                            && cache@.contains_key(#[trigger] key_of(*config, i2, j2)) implies exists|t: int|
                        0 <= t < out@.len() && (#[trigger] out@[t]).0@ == key_of(
                            *config,
                            i2,
                            j2,
                        ) by {
                        let t0 = choose|t: int|
                            0 <= t < old_out.len() && (#[trigger] old_out[t]).0@ == key_of(
                                *config,
                                i2,
                                j2,
                            );
                        assert(0 <= t0 < out@.len() && out@[t0].0@ == key_of(*config, i2, j2));
                    }
                    assert forall|j2: int|
                        0 <= j2 < j + 1 && cache@.contains_key(
                            #[trigger] key_of(*config, i as int, j2),
                        ) implies exists|t: int|
                        0 <= t < out@.len() && (#[trigger] out@[t]).0@ == key_of(
                            *config,
                            i as int,
                            j2,
                        ) by {
                        if j2 == j {
                            assert(out@[out@.len() - 1].0@ == key_of(*config, i as int, j2));
                        } else {
                            let t0 = choose|t: int|
                                0 <= t < old_out.len() && (#[trigger] old_out[t]).0@ == key_of(
                                    *config,
                                    i as int,
                                    j2,
                                );
                            assert(0 <= t0 < out@.len() && out@[t0].0@ == key_of(
                                *config,
                                i as int,
                                j2,
                            ));
                        }
                    }
                }
            }
            j += 1;
        }
        i += 1;
    }
    out
}

/// After any scheduler pass, every check the pass visited has a cache
/// entry: a check either was due and its fresh result was recorded, or it
/// was not due — and then an entry already existed, since absence alone
/// makes a check due, and the pass left it in place.
pub proof fn lemma_pass_covers_every_check(
    before: Map<Seq<char>, CheckResult>,
    after: Map<Seq<char>, CheckResult>,
    timeout_secs: int,
    now_ms: int,
    k: Seq<char>,
)
    requires
        spec_is_due(spec_lookup(before, k), timeout_secs, now_ms) ==> after.contains_key(k),
        !spec_is_due(spec_lookup(before, k), timeout_secs, now_ms) ==> (after.contains_key(k)
            <==> before.contains_key(k)),
    ensures
        after.contains_key(k),
{
    if !spec_is_due(spec_lookup(before, k), timeout_secs, now_ms) {
        lemma_not_due_implies_present(spec_lookup(before, k), timeout_secs, now_ms);
    }
}

/// Last write wins: recording a result twice under one key leaves exactly
/// the cache state of recording only the second result.
pub proof fn lemma_record_idempotent(
    m: Map<Seq<char>, CheckResult>,
    k: Seq<char>,
    first: CheckResult,
    second: CheckResult,
)
    ensures
        m.insert(k, first).insert(k, second) == m.insert(k, second),
{
    assert(m.insert(k, first).insert(k, second) =~= m.insert(k, second));
}

} // verus!

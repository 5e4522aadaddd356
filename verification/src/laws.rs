//! The aggregation model's guarantees, stated and proved in one place.
//!
//! Each proof function states one law over the spec functions that the
//! executable functions' contracts use (`aggregate_status`, `transport_code`,
//! `upsert`), so a reader finds the guarantees written down rather than left
//! implied by the contracts they follow from.

use vstd::prelude::*;

use crate::registry::{distinct_keys, has_key, key_index, lemma_upsert_facts, upsert};
use crate::response::{aggregate_status, transport_code, CheckResult, CheckStatus};

verus! {

/// A registry with zero checks yields zero results: the readiness verdict is
/// `Healthy` and the transport code is 200.
pub proof fn lemma_readiness_of_empty_registry(results: Seq<CheckResult>)
    requires
        results.len() == 0,
    ensures
        aggregate_status(results) == CheckStatus::Healthy,
        transport_code(aggregate_status(results)) == 200,
{
}

/// When every check's result is `Healthy`, the readiness verdict is
/// `Healthy` and the transport code is 200.
pub proof fn lemma_readiness_all_healthy(results: Seq<CheckResult>)
    requires
        forall|i: int| 0 <= i < results.len()
            ==> (#[trigger] results[i]).status == CheckStatus::Healthy,
    ensures
        aggregate_status(results) == CheckStatus::Healthy,
        transport_code(aggregate_status(results)) == 200,
{
    if exists|i: int| 0 <= i < results.len()
        && results[i].status == CheckStatus::Unhealthy {
        let i = choose|i: int| 0 <= i < results.len()
            && results[i].status == CheckStatus::Unhealthy;
        assert(results[i].status == CheckStatus::Healthy);
    }
}

/// When at least one check's result is `Unhealthy`, the readiness verdict is
/// `Unhealthy` and the transport code is 503, however many other results are
/// healthy.
pub proof fn lemma_readiness_any_unhealthy(results: Seq<CheckResult>, i: int)
    requires
        0 <= i < results.len(),
        results[i].status == CheckStatus::Unhealthy,
    ensures
        aggregate_status(results) == CheckStatus::Unhealthy,
        transport_code(aggregate_status(results)) == 503,
{
}

/// Adding a check under a name already present replaces the prior entry:
/// after adding `v1` and then `v2` under one name, the registry is no larger
/// than after the first add, the name is present, and its entry carries `v2`
/// — only the latest check remains.
pub proof fn lemma_readd_replaces<T>(
    s: Seq<(String, T)>,
    name1: String,
    name2: String,
    v1: T,
    v2: T,
)
    requires
        distinct_keys(s),
        name1@ == name2@,
    ensures
        upsert(upsert(s, name1, v1), name2, v2).len() == upsert(s, name1, v1).len(),
        has_key(upsert(upsert(s, name1, v1), name2, v2), name2@),
        upsert(upsert(s, name1, v1), name2, v2)[
            key_index(upsert(upsert(s, name1, v1), name2, v2), name2@)
        ] == (name2, v2),
{
    lemma_upsert_facts(s, name1, v1);
    let once = upsert(s, name1, v1);
    lemma_upsert_facts(once, name2, v2);
    assert(has_key(once, name2@));
    assert(upsert(once, name2, v2) == once.update(key_index(once, name2@), (name2, v2)));
}

} // verus!

//! The fan-in half of the pool usage rollup.
//!
//! A pool has no usage endpoint of its own, so its usage is computed: the
//! transport fetches the pool's metadata, lists its member databases, and
//! issues every member's usage fetch concurrently, so the wall-clock cost
//! is bounded by the slowest single member, not the sum of all of them.
//! The library then reduces the collected outcomes here.  The reduction is
//! all-or-nothing: if any member fetch failed, the whole rollup fails with
//! that error, since a partial rollup would silently understate usage.  The
//! reduce itself is a sum, indifferent to the order in which the concurrent
//! fetches completed — [`lemma_sum_order_irrelevant`] proves that.

use vstd::prelude::*;
use vstd::seq_lib::group_to_multiset_ensures;
use crate::azure_apis::get_database_usage::{spec_find_value, DatabaseUsageResponse};
use crate::azure_apis::get_elastic_pool::ElasticPool;
use crate::errors::AzureDashboardError;

verus! {

/// The sizes displayed for an elastic pool.
#[derive(Debug)]
pub struct ElasticPoolUsageViewModel {
    /// The amount of data used across the pool's members, in bytes.
    pub database_size_used: u64,
    /// The amount of data allocated across the pool's members, in bytes.
    pub database_size_allocated: u64,
    /// The maximum size of the pool, in bytes — pool-level, never summed
    /// from members.
    pub database_size_max: u64,
}

/// The sum of the used sizes reported by `responses`.
pub open spec fn spec_sum_used(responses: Seq<DatabaseUsageResponse>) -> int
    decreases responses.len(),
{
    if responses.len() == 0 {
        0
    } else {
        spec_sum_used(responses.drop_last()) + responses.last().spec_used_size()
    }
}

/// The sum of the allocated sizes reported by `responses`.
pub open spec fn spec_sum_allocated(responses: Seq<DatabaseUsageResponse>) -> int
    decreases responses.len(),
{
    if responses.len() == 0 {
        0
    } else {
        spec_sum_allocated(responses.drop_last()) + responses.last().spec_allocated_size()
    }
}

/// The first error among the member results, if any member fetch failed.
pub open spec fn spec_first_error(
    results: Seq<Result<DatabaseUsageResponse, AzureDashboardError>>,
) -> Option<AzureDashboardError>
    decreases results.len(),
{
    if results.len() == 0 {
        None
    } else {
        match results[0] {
            Err(e) => Some(e),
            Ok(_) => spec_first_error(results.skip(1)),
        }
    }
}

/// The responses of the member results, meaningful when every member
/// succeeded.
pub open spec fn spec_ok_responses(
    results: Seq<Result<DatabaseUsageResponse, AzureDashboardError>>,
) -> Seq<DatabaseUsageResponse> {
    results.map_values(
        |result: Result<DatabaseUsageResponse, AzureDashboardError>| result->Ok_0,
    )
}

/// Reduces a pool's member usage outcomes into its rollup.
///
/// All-or-nothing: if any member fetch failed, the rollup fails with the
/// first such error and no partial sums escape.  Otherwise the used and
/// allocated sizes of all members are summed — each member's value was
/// rounded before it reached the library, so the sums match an auditor's —
/// and `max` is the pool-level ceiling from the pool's own metadata.  The
/// sums exceeding the machine word is reported as an internal error rather
/// than a wrong number.
pub fn aggregate_pool_usage(
    pool: &ElasticPool,
    member_results: Vec<Result<DatabaseUsageResponse, AzureDashboardError>>,
) -> (r: Result<ElasticPoolUsageViewModel, AzureDashboardError>)
    ensures
        match spec_first_error(member_results@) {
            Some(e) => r matches Err(f) && f == e,
            None => ({
                let responses = spec_ok_responses(member_results@);
                if spec_sum_used(responses) <= u64::MAX && spec_sum_allocated(responses)
                    <= u64::MAX {
                    r matches Ok(v) && v.database_size_used == spec_sum_used(responses)
                        && v.database_size_allocated == spec_sum_allocated(responses)
                        && v.database_size_max == pool.properties.max_size_bytes
                } else {
                    r == Err::<ElasticPoolUsageViewModel, AzureDashboardError>(
                        AzureDashboardError::InternalError,
                    )
                }
            }),
        },
{
    let ghost responses = spec_ok_responses(member_results@);
    let n = member_results.len();
    let mut i: usize = 0;
    let mut used_total: u128 = 0;
    let mut allocated_total: u128 = 0;
    proof {
        assert(member_results@.skip(0) =~= member_results@);
    }
    while i < n
        invariant
            i <= n,
            n == member_results@.len(),
            responses == spec_ok_responses(member_results@),
            forall|j: int| 0 <= j < i ==> (#[trigger] member_results@[j]) is Ok,
            spec_first_error(member_results@) == spec_first_error(member_results@.skip(i as int)),
            used_total == spec_sum_used(responses.take(i as int)),
            allocated_total == spec_sum_allocated(responses.take(i as int)),
            used_total <= i * (u64::MAX as int),
            allocated_total <= i * (u64::MAX as int),
        decreases n - i,
    {
        proof {
            assert(member_results@.skip(i as int)[0] == member_results@[i as int]);
            assert(responses.take(i + 1).drop_last() =~= responses.take(i as int));
            assert(responses.take(i + 1).last() == responses[i as int]);
            assert(responses[i as int] == member_results@[i as int]->Ok_0);
        }
        match &member_results[i] {
            Err(e) => {
                return Err(e.clone());
            },
            Ok(response) => {
                let (used, allocated, _) = response.get_sizes();
                proof {
                    assert(i * (u64::MAX as int) + (u64::MAX as int) == (i + 1) * (
                    u64::MAX as int)) by (nonlinear_arith);
                }
                used_total = used_total + used as u128;
                allocated_total = allocated_total + allocated as u128;
                proof {
                    assert(member_results@.skip(i as int).skip(1) =~= member_results@.skip(
                        i + 1,
                    ));
                }
                i = i + 1;
            },
        }
    }
    proof {
        assert(responses.take(n as int) =~= responses);
    }
    if used_total <= u64::MAX as u128 && allocated_total <= u64::MAX as u128 {
        Ok(
            ElasticPoolUsageViewModel {
                database_size_used: used_total as u64,
                database_size_allocated: allocated_total as u64,
                database_size_max: pool.max_size_bytes(),
            },
        )
    } else {
        Err(AzureDashboardError::InternalError)
    }
}

/// All-or-nothing aggregation: a failed member fetch — wherever it sits in
/// the fan-out — makes the whole reduction report an error, so no rollup
/// built from the surviving members can escape.
pub proof fn lemma_all_or_nothing(
    results: Seq<Result<DatabaseUsageResponse, AzureDashboardError>>,
    i: int,
)
    requires
        0 <= i < results.len(),
        results[i] is Err,
    ensures
        spec_first_error(results) is Some,
    decreases results.len(),
{
    if results[0] is Ok {
        assert(results.skip(1)[i - 1] == results[i]);
        lemma_all_or_nothing(results.skip(1), i - 1);
    }
}

/// The used sum splits over concatenation.
proof fn lemma_sum_used_concat(a: Seq<DatabaseUsageResponse>, b: Seq<DatabaseUsageResponse>)
    ensures
        spec_sum_used(a + b) == spec_sum_used(a) + spec_sum_used(b),
    decreases b.len(),
{
    if b.len() == 0 {
        assert(a + b =~= a);
    } else {
        assert((a + b).drop_last() =~= a + b.drop_last());
        assert((a + b).last() == b.last());
        lemma_sum_used_concat(a, b.drop_last());
    }
}

/// The allocated sum splits over concatenation.
proof fn lemma_sum_allocated_concat(a: Seq<DatabaseUsageResponse>, b: Seq<DatabaseUsageResponse>)
    ensures
        spec_sum_allocated(a + b) == spec_sum_allocated(a) + spec_sum_allocated(b),
    decreases b.len(),
{
    if b.len() == 0 {
        assert(a + b =~= a);
    } else {
        assert((a + b).drop_last() =~= a + b.drop_last());
        assert((a + b).last() == b.last());
        lemma_sum_allocated_concat(a, b.drop_last());
    }
}

/// Removing one response takes exactly its contribution out of each sum.
proof fn lemma_sum_remove(responses: Seq<DatabaseUsageResponse>, i: int)
    requires
        0 <= i < responses.len(),
    ensures
        spec_sum_used(responses) == spec_sum_used(responses.remove(i))
            + responses[i].spec_used_size(),
        spec_sum_allocated(responses) == spec_sum_allocated(responses.remove(i))
            + responses[i].spec_allocated_size(),
{
    let prefix = responses.subrange(0, i);
    let middle = responses.subrange(i, i + 1);
    let suffix = responses.subrange(i + 1, responses.len() as int);
    assert(responses =~= (prefix + middle) + suffix);
    assert(responses.remove(i) =~= prefix + suffix);
    assert(middle.drop_last() =~= Seq::<DatabaseUsageResponse>::empty());
    assert(spec_sum_used(Seq::<DatabaseUsageResponse>::empty()) == 0);
    assert(spec_sum_allocated(Seq::<DatabaseUsageResponse>::empty()) == 0);
    assert(middle.len() == 1);
    assert(middle.last() == responses[i]);
    assert(spec_sum_used(middle) == responses[i].spec_used_size());
    assert(spec_sum_allocated(middle) == responses[i].spec_allocated_size());
    lemma_sum_used_concat(prefix + middle, suffix);
    lemma_sum_used_concat(prefix, middle);
    lemma_sum_used_concat(prefix, suffix);
    lemma_sum_allocated_concat(prefix + middle, suffix);
    lemma_sum_allocated_concat(prefix, middle);
    lemma_sum_allocated_concat(prefix, suffix);
}

/// Missing metric tolerance: a member whose response lacks the
/// "database_allocated_size" gauge contributes exactly zero — the allocated
/// sum equals the one computed without that member — while the member still
/// takes part in the aggregation rather than failing it.
pub proof fn lemma_missing_metric_contributes_zero(
    responses: Seq<DatabaseUsageResponse>,
    i: int,
)
    requires
        0 <= i < responses.len(),
        spec_find_value(responses[i].values@, "database_allocated_size"@) is None,
    ensures
        spec_sum_allocated(responses) == spec_sum_allocated(responses.remove(i)),
{
    lemma_sum_remove(responses, i);
}

/// The reduce is indifferent to completion order: two collections of the
/// same member responses — however the concurrent fetches interleaved —
/// have the same used and allocated sums, so the rollup does not depend on
/// which member answered first.
pub proof fn lemma_sum_order_irrelevant(
    a: Seq<DatabaseUsageResponse>,
    b: Seq<DatabaseUsageResponse>,
)
    requires
        a.to_multiset() == b.to_multiset(),
    ensures
        spec_sum_used(a) == spec_sum_used(b),
        spec_sum_allocated(a) == spec_sum_allocated(b),
    decreases a.len(),
{
    broadcast use group_to_multiset_ensures;

    if a.len() == 0 {
        assert(b.to_multiset().len() == 0);
    } else {
        let x = a.last();
        assert(a =~= a.drop_last().push(x));
        assert(a.to_multiset() == a.drop_last().to_multiset().insert(x));
        assert(b.to_multiset().count(x) > 0);
        assert(b.contains(x));
        let j = choose|j: int| 0 <= j < b.len() && b[j] == x;
        lemma_sum_remove(b, j);
        lemma_sum_remove(a, a.len() - 1);
        assert(a.remove(a.len() - 1) =~= a.drop_last());
        assert(a.drop_last().to_multiset() =~= a.to_multiset().remove(x));
        assert(b.remove(j).to_multiset() =~= b.to_multiset().remove(x));
        lemma_sum_order_irrelevant(a.drop_last(), b.remove(j));
    }
}

} // verus!

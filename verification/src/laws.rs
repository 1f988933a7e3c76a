//! System-wide laws of the store, stated once over its model and proved from
//! the invariant and the operation contracts.

use vstd::prelude::*;

use crate::store::FarmStore;
use crate::store::batch_weight_sum;
use crate::store::expense_sum;
use crate::store::harvest_weight_sum;
use crate::store::lemma_expense_sum_absent;
use crate::store::lemma_revenue_sum_absent;
use crate::store::revenue_sum;

verus! {

/// Uniqueness of identifiers: in a well-formed store no two records share an
/// identifier — two distinct positions of one collection carry distinct
/// identifiers, and no identifier names records of two different kinds.
pub proof fn lemma_ids_unique(s: FarmStore)
    requires
        s.inv(),
    ensures
        forall|i: int, j: int|
            #![trigger s.ponds@[i].id, s.ponds@[j].id]
            0 <= i < s.ponds@.len() && 0 <= j < s.ponds@.len() && i != j ==> s.ponds@[i].id
                != s.ponds@[j].id,
        forall|i: int, j: int|
            #![trigger s.batches@[i].id, s.batches@[j].id]
            0 <= i < s.batches@.len() && 0 <= j < s.batches@.len() && i != j ==> s.batches@[i].id
                != s.batches@[j].id,
        forall|i: int, j: int|
            #![trigger s.feedings@[i].id, s.feedings@[j].id]
            0 <= i < s.feedings@.len() && 0 <= j < s.feedings@.len() && i != j ==> s.feedings@[i].id
                != s.feedings@[j].id,
        forall|i: int, j: int|
            #![trigger s.expenses@[i].id, s.expenses@[j].id]
            0 <= i < s.expenses@.len() && 0 <= j < s.expenses@.len() && i != j ==> s.expenses@[i].id
                != s.expenses@[j].id,
        forall|i: int, j: int|
            #![trigger s.harvests@[i].id, s.harvests@[j].id]
            0 <= i < s.harvests@.len() && 0 <= j < s.harvests@.len() && i != j ==> s.harvests@[i].id
                != s.harvests@[j].id,
        forall|x: u64| #[trigger] s.kind_count(x) <= 1,
{
}

/// Identifiers strictly increase in call order: a successful creation returns
/// one more than the counter it found and leaves the counter there, and no
/// operation ever lowers the counter, so a creation that runs after another
/// returns a strictly larger identifier. With `lemma_ids_unique` this gives
/// pairwise distinct identifiers over any sequence of creations of any mix of
/// kinds.
pub proof fn lemma_creation_ids_increase(
    counter_before_first: u64,
    first_id: u64,
    counter_before_second: u64,
    second_id: u64,
)
    requires
        first_id == counter_before_first + 1,
        counter_before_first + 1 <= counter_before_second,
        second_id == counter_before_second + 1,
    ensures
        first_id < second_id,
{
}

/// The derived-balance law: in a well-formed store every pond's cached stock
/// balance equals the harvested weight minus the batch weight recorded
/// against it — the cached running total never drifts from the detail records
/// that produced it.
pub proof fn lemma_balance_derived(s: FarmStore, fishpond_id: u64)
    requires
        s.inv(),
        s.has_pond(fishpond_id),
    ensures
        s.spec_pond(fishpond_id).current_stock == harvest_weight_sum(s.harvests@, fishpond_id)
            - batch_weight_sum(s.batches@, fishpond_id),
{
    let i = s.pond_idx(fishpond_id);
    assert(0 <= i < s.ponds@.len() && s.ponds@[i].id == fishpond_id);
    assert(s.ponds@[i].current_stock == harvest_weight_sum(s.harvests@, s.ponds@[i].id)
        - batch_weight_sum(s.batches@, s.ponds@[i].id));
}

/// Aggregation over an empty subset: a pond against which no expense and no
/// harvest is recorded has total expenses and total revenue zero — a valid
/// result, not an error.
pub proof fn lemma_empty_aggregation_zero(s: FarmStore, fishpond_id: u64)
    requires
        forall|i: int|
            0 <= i < s.expenses@.len() ==> (#[trigger] s.expenses@[i]).fishpond_id != fishpond_id,
        forall|i: int|
            0 <= i < s.harvests@.len() ==> (#[trigger] s.harvests@[i]).fishpond_id != fishpond_id,
    ensures
        expense_sum(s.expenses@, fishpond_id) == 0,
        revenue_sum(s.harvests@, fishpond_id) == 0,
{
    lemma_expense_sum_absent(s.expenses@, fishpond_id);
    lemma_revenue_sum_absent(s.harvests@, fishpond_id);
}

/// Idempotent read: both aggregation queries promise a result equal to a
/// function of the store alone, so any two reads of the same store agree —
/// repeated calls with no intervening write return identical results.
pub proof fn lemma_repeated_read_identical(
    s: FarmStore,
    fishpond_id: u64,
    first: u128,
    second: u128,
)
    requires
        first == revenue_sum(s.harvests@, fishpond_id),
        second == revenue_sum(s.harvests@, fishpond_id),
    ensures
        first == second,
{
}

} // verus!

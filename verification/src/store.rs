//! The entity store: a durable counter, five typed record collections, the
//! referential validator, the balance updater and the two aggregation queries.
//!
//! The store's invariant ties everything together: identifiers lie in
//! `1..=counter` and are pairwise distinct across all five collections, every
//! child record references an existing pond, and each pond's `current_stock`
//! equals the harvested weight minus the batch weight recorded against it.

use vstd::arithmetic::mul::lemma_mul_inequality;
use vstd::prelude::*;
use vstd::string::StrSliceExecFns;
use vstd::string::StringExecFns;

use crate::records::AddFishBatchPayload;
use crate::records::CreateFishpondPayload;
use crate::records::Expense;
use crate::records::FeedingSchedule;
use crate::records::FishBatch;
use crate::records::Fishpond;
use crate::records::Harvest;
use crate::records::MAX_AMOUNT;
use crate::records::Message;
use crate::records::RecordExpensePayload;
use crate::records::RecordFeedingPayload;
use crate::records::RecordHarvestPayload;
use crate::records::valid_batch_payload;
use crate::records::valid_expense_payload;
use crate::records::valid_feeding_payload;
use crate::records::valid_harvest_payload;
use crate::records::valid_pond_payload;

verus! {

/// Sum of the weights of the batches recorded against `pond_id`.
pub open spec fn batch_weight_sum(bs: Seq<FishBatch>, pond_id: u64) -> int
    decreases bs.len(),
{
    if bs.len() == 0 {
        0
    } else {
        batch_weight_sum(bs.drop_last(), pond_id) + if bs.last().fishpond_id == pond_id {
            bs.last().weight as int
        } else {
            0int
        }
    }
}

/// Sum of the weights of the harvests recorded against `pond_id`.
pub open spec fn harvest_weight_sum(hs: Seq<Harvest>, pond_id: u64) -> int
    decreases hs.len(),
{
    if hs.len() == 0 {
        0
    } else {
        harvest_weight_sum(hs.drop_last(), pond_id) + if hs.last().fishpond_id == pond_id {
            hs.last().weight as int
        } else {
            0int
        }
    }
}

/// Sum of the stored revenues of the harvests recorded against `pond_id`.
pub open spec fn revenue_sum(hs: Seq<Harvest>, pond_id: u64) -> int
    decreases hs.len(),
{
    if hs.len() == 0 {
        0
    } else {
        revenue_sum(hs.drop_last(), pond_id) + if hs.last().fishpond_id == pond_id {
            hs.last().total_revenue as int
        } else {
            0int
        }
    }
}

/// Sum of the amounts of the expenses recorded against `pond_id`.
pub open spec fn expense_sum(es: Seq<Expense>, pond_id: u64) -> int
    decreases es.len(),
{
    if es.len() == 0 {
        0
    } else {
        expense_sum(es.drop_last(), pond_id) + if es.last().fishpond_id == pond_id {
            es.last().amount as int
        } else {
            0int
        }
    }
}

/// Appending a batch adds its weight to the sum of the pond it references and
/// leaves every other pond's sum unchanged.
pub proof fn lemma_batch_sum_push(bs: Seq<FishBatch>, b: FishBatch, pond_id: u64)
    ensures
        batch_weight_sum(bs.push(b), pond_id) == batch_weight_sum(bs, pond_id) + if b.fishpond_id
            == pond_id {
            b.weight as int
        } else {
            0int
        },
{
    assert(bs.push(b).drop_last() =~= bs);
}

/// Appending a harvest adds its weight to the sum of the pond it references
/// and leaves every other pond's sum unchanged.
pub proof fn lemma_harvest_sum_push(hs: Seq<Harvest>, h: Harvest, pond_id: u64)
    ensures
        harvest_weight_sum(hs.push(h), pond_id) == harvest_weight_sum(hs, pond_id)
            + if h.fishpond_id == pond_id {
            h.weight as int
        } else {
            0int
        },
{
    assert(hs.push(h).drop_last() =~= hs);
}

/// A pond referenced by no batch has batch weight sum zero.
pub proof fn lemma_batch_sum_absent(bs: Seq<FishBatch>, pond_id: u64)
    requires
        forall|i: int| 0 <= i < bs.len() ==> (#[trigger] bs[i]).fishpond_id != pond_id,
    ensures
        batch_weight_sum(bs, pond_id) == 0,
    decreases bs.len(),
{
    if bs.len() > 0 {
        assert(forall|i: int|
            0 <= i < bs.drop_last().len() ==> (#[trigger] bs.drop_last()[i]).fishpond_id
                != pond_id);
        lemma_batch_sum_absent(bs.drop_last(), pond_id);
    }
}

/// A pond referenced by no harvest has harvest weight sum zero.
pub proof fn lemma_harvest_sum_absent(hs: Seq<Harvest>, pond_id: u64)
    requires
        forall|i: int| 0 <= i < hs.len() ==> (#[trigger] hs[i]).fishpond_id != pond_id,
    ensures
        harvest_weight_sum(hs, pond_id) == 0,
    decreases hs.len(),
{
    if hs.len() > 0 {
        assert(forall|i: int|
            0 <= i < hs.drop_last().len() ==> (#[trigger] hs.drop_last()[i]).fishpond_id
                != pond_id);
        lemma_harvest_sum_absent(hs.drop_last(), pond_id);
    }
}

/// A pond referenced by no expense has expense sum zero: aggregation over an
/// empty subset is zero, not an error.
pub proof fn lemma_expense_sum_absent(es: Seq<Expense>, pond_id: u64)
    requires
        forall|i: int| 0 <= i < es.len() ==> (#[trigger] es[i]).fishpond_id != pond_id,
    ensures
        expense_sum(es, pond_id) == 0,
    decreases es.len(),
{
    if es.len() > 0 {
        assert(forall|i: int|
            0 <= i < es.drop_last().len() ==> (#[trigger] es.drop_last()[i]).fishpond_id
                != pond_id);
        lemma_expense_sum_absent(es.drop_last(), pond_id);
    }
}

/// A pond referenced by no harvest has revenue sum zero: aggregation over an
/// empty subset is zero, not an error.
pub proof fn lemma_revenue_sum_absent(hs: Seq<Harvest>, pond_id: u64)
    requires
        forall|i: int| 0 <= i < hs.len() ==> (#[trigger] hs[i]).fishpond_id != pond_id,
    ensures
        revenue_sum(hs, pond_id) == 0,
    decreases hs.len(),
{
    if hs.len() > 0 {
        assert(forall|i: int|
            0 <= i < hs.drop_last().len() ==> (#[trigger] hs.drop_last()[i]).fishpond_id
                != pond_id);
        lemma_revenue_sum_absent(hs.drop_last(), pond_id);
    }
}

/// Batch weight sums are non-negative and bounded by the number of batches
/// times the largest admitted amount.
pub proof fn lemma_batch_sum_bounds(bs: Seq<FishBatch>, pond_id: u64)
    requires
        forall|i: int| 0 <= i < bs.len() ==> (#[trigger] bs[i]).weight <= MAX_AMOUNT,
    ensures
        0 <= batch_weight_sum(bs, pond_id) <= bs.len() * MAX_AMOUNT,
    decreases bs.len(),
{
    if bs.len() > 0 {
        assert(forall|i: int|
            0 <= i < bs.drop_last().len() ==> (#[trigger] bs.drop_last()[i]).weight <= MAX_AMOUNT);
        lemma_batch_sum_bounds(bs.drop_last(), pond_id);
    }
}

/// Harvest weight sums are non-negative and bounded by the number of harvests
/// times the largest admitted amount.
pub proof fn lemma_harvest_sum_bounds(hs: Seq<Harvest>, pond_id: u64)
    requires
        forall|i: int| 0 <= i < hs.len() ==> (#[trigger] hs[i]).weight <= MAX_AMOUNT,
    ensures
        0 <= harvest_weight_sum(hs, pond_id) <= hs.len() * MAX_AMOUNT,
    decreases hs.len(),
{
    if hs.len() > 0 {
        assert(forall|i: int|
            0 <= i < hs.drop_last().len() ==> (#[trigger] hs.drop_last()[i]).weight <= MAX_AMOUNT);
        lemma_harvest_sum_bounds(hs.drop_last(), pond_id);
    }
}

/// `after` is `before` with its stock balance moved by `delta` and every other
/// field unchanged.
pub open spec fn stock_adjusted(before: Fishpond, after: Fishpond, delta: int) -> bool {
    &&& after.id == before.id
    &&& after.name == before.name
    &&& after.location == before.location
    &&& after.owner == before.owner
    &&& after.contact == before.contact
    &&& after.total_capacity == before.total_capacity
    &&& after.created_at == before.created_at
    &&& after.current_stock == before.current_stock + delta
}

/// The persistent entity store: one identifier counter and five typed record
/// collections, each kept in ascending identifier order.
pub struct FarmStore {
    /// Last identifier issued; the next record gets `counter + 1`.
    pub counter: u64,
    pub ponds: Vec<Fishpond>,
    pub batches: Vec<FishBatch>,
    pub feedings: Vec<FeedingSchedule>,
    pub expenses: Vec<Expense>,
    pub harvests: Vec<Harvest>,
}

impl FarmStore {
    /// Some pond with this identifier is stored.
    pub open spec fn has_pond(self, id: u64) -> bool {
        exists|i: int| 0 <= i < self.ponds@.len() && #[trigger] self.ponds@[i].id == id
    }

    /// Some batch with this identifier is stored.
    pub open spec fn has_batch(self, id: u64) -> bool {
        exists|i: int| 0 <= i < self.batches@.len() && #[trigger] self.batches@[i].id == id
    }

    /// Some feeding schedule with this identifier is stored.
    pub open spec fn has_feeding(self, id: u64) -> bool {
        exists|i: int| 0 <= i < self.feedings@.len() && #[trigger] self.feedings@[i].id == id
    }

    /// Some expense with this identifier is stored.
    pub open spec fn has_expense(self, id: u64) -> bool {
        exists|i: int| 0 <= i < self.expenses@.len() && #[trigger] self.expenses@[i].id == id
    }

    /// Some harvest with this identifier is stored.
    pub open spec fn has_harvest(self, id: u64) -> bool {
        exists|i: int| 0 <= i < self.harvests@.len() && #[trigger] self.harvests@[i].id == id
    }

    /// How many of the five record kinds hold a record with this identifier.
    pub open spec fn kind_count(self, id: u64) -> int {
        (if self.has_pond(id) { 1int } else { 0int }) + (if self.has_batch(id) { 1int } else { 0int })
            + (if self.has_feeding(id) { 1int } else { 0int })
            + (if self.has_expense(id) { 1int } else { 0int })
            + (if self.has_harvest(id) { 1int } else { 0int })
    }

    /// Index of the pond with this identifier (meaningful when `has_pond`).
    pub open spec fn pond_idx(self, id: u64) -> int {
        choose|i: int| 0 <= i < self.ponds@.len() && #[trigger] self.ponds@[i].id == id
    }

    /// The stored pond with this identifier (meaningful when `has_pond`).
    pub open spec fn spec_pond(self, id: u64) -> Fishpond {
        self.ponds@[self.pond_idx(id)]
    }

    /// Every stored identifier was issued by the counter: it lies in
    /// `1..=counter`.
    pub open spec fn ids_in_range(self) -> bool {
        &&& forall|i: int| 0 <= i < self.ponds@.len() ==> 1 <= #[trigger] self.ponds@[i].id <= self.counter
        &&& forall|i: int| 0 <= i < self.batches@.len() ==> 1 <= #[trigger] self.batches@[i].id <= self.counter
        &&& forall|i: int| 0 <= i < self.feedings@.len() ==> 1 <= #[trigger] self.feedings@[i].id <= self.counter
        &&& forall|i: int| 0 <= i < self.expenses@.len() ==> 1 <= #[trigger] self.expenses@[i].id <= self.counter
        &&& forall|i: int| 0 <= i < self.harvests@.len() ==> 1 <= #[trigger] self.harvests@[i].id <= self.counter
    }

    /// Within each collection, identifiers strictly increase with position, so
    /// no identifier repeats inside a collection.
    pub open spec fn ids_sorted(self) -> bool {
        &&& forall|i: int, j: int|
            #![trigger self.ponds@[i].id, self.ponds@[j].id]
            0 <= i < j < self.ponds@.len() ==> self.ponds@[i].id < self.ponds@[j].id
        &&& forall|i: int, j: int|
            #![trigger self.batches@[i].id, self.batches@[j].id]
            0 <= i < j < self.batches@.len() ==> self.batches@[i].id < self.batches@[j].id
        &&& forall|i: int, j: int|
            #![trigger self.feedings@[i].id, self.feedings@[j].id]
            0 <= i < j < self.feedings@.len() ==> self.feedings@[i].id < self.feedings@[j].id
        &&& forall|i: int, j: int|
            #![trigger self.expenses@[i].id, self.expenses@[j].id]
            0 <= i < j < self.expenses@.len() ==> self.expenses@[i].id < self.expenses@[j].id
        &&& forall|i: int, j: int|
            #![trigger self.harvests@[i].id, self.harvests@[j].id]
            0 <= i < j < self.harvests@.len() ==> self.harvests@[i].id < self.harvests@[j].id
    }

    /// No identifier names records of two different kinds.
    pub open spec fn kinds_disjoint(self) -> bool {
        forall|id: u64| #[trigger] self.kind_count(id) <= 1
    }

    /// Every child record references a pond that is stored.
    pub open spec fn children_reference_ponds(self) -> bool {
        &&& forall|i: int|
            0 <= i < self.batches@.len() ==> self.has_pond(#[trigger] self.batches@[i].fishpond_id)
        &&& forall|i: int|
            0 <= i < self.feedings@.len() ==> self.has_pond(#[trigger] self.feedings@[i].fishpond_id)
        &&& forall|i: int|
            0 <= i < self.expenses@.len() ==> self.has_pond(#[trigger] self.expenses@[i].fishpond_id)
        &&& forall|i: int|
            0 <= i < self.harvests@.len() ==> self.has_pond(#[trigger] self.harvests@[i].fishpond_id)
    }

    /// Every stored record passed its validation rule, amounts are within the
    /// accounting bound, and each harvest's stored revenue is exactly its
    /// weight times its price per kilogram.
    pub open spec fn records_valid(self) -> bool {
        &&& forall|i: int|
            0 <= i < self.ponds@.len() ==> (#[trigger] self.ponds@[i]).name@.len() > 0
                && self.ponds@[i].contact@.len() > 0
        &&& forall|i: int|
            0 <= i < self.batches@.len() ==> (#[trigger] self.batches@[i]).species@.len() > 0
                && 1 <= self.batches@[i].weight <= MAX_AMOUNT && self.batches@[i].quantity >= 1
        &&& forall|i: int|
            0 <= i < self.feedings@.len() ==> (#[trigger] self.feedings@[i]).feed_type@.len() > 0
                && self.feedings@[i].quantity >= 1
        &&& forall|i: int|
            0 <= i < self.expenses@.len() ==> 1 <= (#[trigger] self.expenses@[i]).amount <= MAX_AMOUNT
        &&& forall|i: int|
            0 <= i < self.harvests@.len() ==> 1 <= (#[trigger] self.harvests@[i]).weight <= MAX_AMOUNT
                && 1 <= self.harvests@[i].revenue_per_kg <= MAX_AMOUNT
                && self.harvests@[i].total_revenue == self.harvests@[i].weight * self.harvests@[i].revenue_per_kg
    }

    /// How many records the store holds over all five collections.
    pub open spec fn record_count(self) -> int {
        self.ponds@.len() + self.batches@.len() + self.feedings@.len() + self.expenses@.len()
            + self.harvests@.len() as int
    }

    /// Each pond's cached balance equals the harvested weight minus the batch
    /// weight recorded against it: the derived-balance law.
    pub open spec fn balances_derived(self) -> bool {
        forall|i: int|
            0 <= i < self.ponds@.len() ==> (#[trigger] self.ponds@[i]).current_stock
                == harvest_weight_sum(self.harvests@, self.ponds@[i].id) - batch_weight_sum(
                self.batches@,
                self.ponds@[i].id,
            )
    }

    /// Well-formedness of the whole store. Established by `new`, preserved by
    /// every operation.
    pub open spec fn inv(self) -> bool {
        &&& self.ids_in_range()
        &&& self.ids_sorted()
        &&& self.kinds_disjoint()
        &&& self.children_reference_ponds()
        &&& self.records_valid()
        &&& self.record_count() <= self.counter
        &&& self.balances_derived()
    }

    /// A fresh store: counter at zero, no records of any kind.
    pub fn new() -> (s: FarmStore)
        ensures
            s.inv(),
            s.counter == 0,
            s.ponds@.len() == 0,
            s.batches@.len() == 0,
            s.feedings@.len() == 0,
            s.expenses@.len() == 0,
            s.harvests@.len() == 0,
    {
        FarmStore {
            counter: 0,
            ponds: Vec::new(),
            batches: Vec::new(),
            feedings: Vec::new(),
            expenses: Vec::new(),
            harvests: Vec::new(),
        }
    }

    /// The referential validator: a direct existence probe on the pond
    /// collection.
    pub fn pond_exists(&self, fishpond_id: u64) -> (r: bool)
        ensures
            r == self.has_pond(fishpond_id),
    {
        let mut i: usize = 0;
        while i < self.ponds.len()
            invariant
                i <= self.ponds@.len(),
                forall|j: int| 0 <= j < i ==> #[trigger] self.ponds@[j].id != fishpond_id,
            decreases self.ponds@.len() - i,
        {
            if self.ponds[i].id == fishpond_id {
                return true;
            }
            i = i + 1;
        }
        false
    }

    /// The durable counter: issues the next identifier, strictly greater than
    /// every identifier issued before. Identifier space exhaustion is outside
    /// the design, hence the bound on the counter.
    pub fn next_id(&mut self) -> (id: u64)
        requires
            old(self).counter < u64::MAX,
        ensures
            id == old(self).counter + 1,
            final(self).counter == old(self).counter + 1,
            final(self).ponds == old(self).ponds,
            final(self).batches == old(self).batches,
            final(self).feedings == old(self).feedings,
            final(self).expenses == old(self).expenses,
            final(self).harvests == old(self).harvests,
    {
        self.counter = self.counter + 1;
        self.counter
    }

    /// Create a pond. A request whose name or contact is empty is rejected
    /// with `InvalidPayload` and nothing changes; otherwise the next
    /// identifier is issued and the pond is stored with a zero stock balance.
    pub fn create_fishpond(&mut self, payload: CreateFishpondPayload, now: u64) -> (r: Result<
        Fishpond,
        Message,
    >)
        requires
            old(self).inv(),
            old(self).counter < u64::MAX,
        ensures
            final(self).inv(),
            old(self).counter <= final(self).counter,
            !valid_pond_payload(payload) ==> (r matches Err(Message::InvalidPayload(t)) && (t@
                == "Missing required fields"@ && *final(self) == *old(self))),
            valid_pond_payload(payload) ==> (r matches Ok(p) && ({
                &&& p.id == old(self).counter + 1
                &&& p.name == payload.name
                &&& p.location == payload.location
                &&& p.owner == payload.owner
                &&& p.contact == payload.contact
                &&& p.total_capacity == payload.total_capacity
                &&& p.current_stock == 0
                &&& p.created_at == now
                &&& final(self).counter == old(self).counter + 1
                &&& final(self).ponds@ == old(self).ponds@.push(p)
                &&& final(self).batches == old(self).batches
                &&& final(self).feedings == old(self).feedings
                &&& final(self).expenses == old(self).expenses
                &&& final(self).harvests == old(self).harvests
            })),
    {
        if payload.name.as_str().unicode_len() == 0 || payload.contact.as_str().unicode_len()
            == 0 {
            return Err(Message::InvalidPayload(String::from_str("Missing required fields")));
        }
        let id = self.next_id();
        let pond = Fishpond {
            id,
            name: payload.name,
            location: payload.location,
            owner: payload.owner,
            contact: payload.contact,
            total_capacity: payload.total_capacity,
            current_stock: 0i128,
            created_at: now,
        };
        let ret = Fishpond {
            id: pond.id,
            name: pond.name.clone(),
            location: pond.location.clone(),
            owner: pond.owner.clone(),
            contact: pond.contact.clone(),
            total_capacity: pond.total_capacity,
            current_stock: pond.current_stock,
            created_at: pond.created_at,
        };
        let ghost pre = *old(self);
        let ghost new_pond = pond;
        self.ponds.push(pond);
        proof {
            let post = *self;
            assert(ret == new_pond);
            assert(post.ponds@ == pre.ponds@.push(new_pond));
            lemma_has_pond_after_push(pre, post, new_pond);
            assert forall|x: u64| #[trigger] post.kind_count(x) <= 1 by {
                if x == new_pond.id {
                    lemma_fresh_id_absent(pre, x);
                } else {
                    assert(pre.kind_count(x) <= 1);
                    assert(post.has_pond(x) == pre.has_pond(x));
                }
            }
            assert forall|i: int|
                0 <= i < post.batches@.len() implies post.has_pond(
                #[trigger] post.batches@[i].fishpond_id,
            ) by {
                assert(pre.has_pond(pre.batches@[i].fishpond_id));
            }
            assert forall|i: int|
                0 <= i < post.feedings@.len() implies post.has_pond(
                #[trigger] post.feedings@[i].fishpond_id,
            ) by {
                assert(pre.has_pond(pre.feedings@[i].fishpond_id));
            }
            assert forall|i: int|
                0 <= i < post.expenses@.len() implies post.has_pond(
                #[trigger] post.expenses@[i].fishpond_id,
            ) by {
                assert(pre.has_pond(pre.expenses@[i].fishpond_id));
            }
            assert forall|i: int|
                0 <= i < post.harvests@.len() implies post.has_pond(
                #[trigger] post.harvests@[i].fishpond_id,
            ) by {
                assert(pre.has_pond(pre.harvests@[i].fishpond_id));
            }
            assert forall|i: int|
                0 <= i < post.ponds@.len() implies (#[trigger] post.ponds@[i]).current_stock
                == harvest_weight_sum(post.harvests@, post.ponds@[i].id) - batch_weight_sum(
                post.batches@,
                post.ponds@[i].id,
            ) by {
                if i < pre.ponds@.len() {
                    assert(post.ponds@[i] == pre.ponds@[i]);
                } else {
                    assert(post.ponds@[i] == new_pond);
                    lemma_fresh_id_absent(pre, new_pond.id);
                    assert forall|j: int|
                        0 <= j < pre.batches@.len() implies (#[trigger] pre.batches@[j]).fishpond_id
                        != new_pond.id by {
                        if pre.batches@[j].fishpond_id == new_pond.id {
                            assert(pre.has_pond(new_pond.id));
                        }
                    }
                    assert forall|j: int|
                        0 <= j < pre.harvests@.len() implies (
                    #[trigger] pre.harvests@[j]).fishpond_id != new_pond.id by {
                        if pre.harvests@[j].fishpond_id == new_pond.id {
                            assert(pre.has_pond(new_pond.id));
                        }
                    }
                    lemma_batch_sum_absent(pre.batches@, new_pond.id);
                    lemma_harvest_sum_absent(pre.harvests@, new_pond.id);
                }
            }
        }
        Ok(ret)
    }

    /// Record a feeding schedule for an existing pond. Validation first, then
    /// the referential check; only then is an identifier issued.
    pub fn record_feeding(&mut self, payload: RecordFeedingPayload, now: u64) -> (r: Result<
        FeedingSchedule,
        Message,
    >)
        requires
            old(self).inv(),
            old(self).counter < u64::MAX,
        ensures
            final(self).inv(),
            old(self).counter <= final(self).counter,
            !valid_feeding_payload(payload) ==> (r matches Err(Message::InvalidPayload(t)) && (t@
                == "Invalid feeding data"@ && *final(self) == *old(self))),
            valid_feeding_payload(payload) && !old(self).has_pond(payload.fishpond_id) ==> (r
                matches Err(Message::NotFound(t)) && (t@ == "Fishpond not found"@ && *final(self)
                == *old(self))),
            valid_feeding_payload(payload) && old(self).has_pond(payload.fishpond_id) ==> (r
                matches Ok(f) && ({
                &&& f.id == old(self).counter + 1
                &&& f.fishpond_id == payload.fishpond_id
                &&& f.feed_type == payload.feed_type
                &&& f.quantity == payload.quantity
                &&& f.schedule_time == now
                &&& final(self).counter == old(self).counter + 1
                &&& final(self).feedings@ == old(self).feedings@.push(f)
                &&& final(self).ponds == old(self).ponds
                &&& final(self).batches == old(self).batches
                &&& final(self).expenses == old(self).expenses
                &&& final(self).harvests == old(self).harvests
            })),
    {
        if payload.feed_type.as_str().unicode_len() == 0 || payload.quantity == 0 {
            return Err(Message::InvalidPayload(String::from_str("Invalid feeding data")));
        }
        if !self.pond_exists(payload.fishpond_id) {
            return Err(Message::NotFound(String::from_str("Fishpond not found")));
        }
        let id = self.next_id();
        let rec = FeedingSchedule {
            id,
            fishpond_id: payload.fishpond_id,
            feed_type: payload.feed_type,
            quantity: payload.quantity,
            schedule_time: now,
        };
        let ret = FeedingSchedule {
            id: rec.id,
            fishpond_id: rec.fishpond_id,
            feed_type: rec.feed_type.clone(),
            quantity: rec.quantity,
            schedule_time: rec.schedule_time,
        };
        let ghost pre = *old(self);
        let ghost new_rec = rec;
        self.feedings.push(rec);
        proof {
            let post = *self;
            assert(ret == new_rec);
            assert(post.feedings@[pre.feedings@.len() as int].id == new_rec.id);
            assert forall|x: u64| #[trigger] post.kind_count(x) <= 1 by {
                if x == new_rec.id {
                    lemma_fresh_id_absent(pre, x);
                } else {
                    assert(pre.kind_count(x) <= 1);
                    if post.has_feeding(x) {
                        let i = choose|i: int|
                            0 <= i < post.feedings@.len() && #[trigger] post.feedings@[i].id == x;
                        assert(i < pre.feedings@.len());
                        assert(pre.feedings@[i].id == x);
                    }
                    if pre.has_feeding(x) {
                        let i = choose|i: int|
                            0 <= i < pre.feedings@.len() && #[trigger] pre.feedings@[i].id == x;
                        assert(post.feedings@[i].id == x);
                    }
                    assert(post.has_feeding(x) == pre.has_feeding(x));
                }
            }
        }
        Ok(ret)
    }

    /// Record an expense against an existing pond. Validation first, then the
    /// referential check; only then is an identifier issued. The amount must
    /// lie within the exact-accounting bound `MAX_AMOUNT`, the machine limit
    /// that keeps every aggregate sum within integer range.
    pub fn record_expense(&mut self, payload: RecordExpensePayload, now: u64) -> (r: Result<
        Expense,
        Message,
    >)
        requires
            old(self).inv(),
            old(self).counter < u64::MAX,
            payload.amount <= MAX_AMOUNT,
        ensures
            final(self).inv(),
            old(self).counter <= final(self).counter,
            !valid_expense_payload(payload) ==> (r matches Err(Message::InvalidPayload(t)) && (t@
                == "Invalid expense amount"@ && *final(self) == *old(self))),
            valid_expense_payload(payload) && !old(self).has_pond(payload.fishpond_id) ==> (r
                matches Err(Message::NotFound(t)) && (t@ == "Fishpond not found"@ && *final(self)
                == *old(self))),
            valid_expense_payload(payload) && old(self).has_pond(payload.fishpond_id) ==> (r
                matches Ok(e) && ({
                &&& e.id == old(self).counter + 1
                &&& e.fishpond_id == payload.fishpond_id
                &&& e.category == payload.category
                &&& e.amount == payload.amount
                &&& e.description == payload.description
                &&& e.date == now
                &&& final(self).counter == old(self).counter + 1
                &&& final(self).expenses@ == old(self).expenses@.push(e)
                &&& final(self).ponds == old(self).ponds
                &&& final(self).batches == old(self).batches
                &&& final(self).feedings == old(self).feedings
                &&& final(self).harvests == old(self).harvests
            })),
    {
        if payload.amount == 0 {
            return Err(Message::InvalidPayload(String::from_str("Invalid expense amount")));
        }
        if !self.pond_exists(payload.fishpond_id) {
            return Err(Message::NotFound(String::from_str("Fishpond not found")));
        }
        let id = self.next_id();
        let rec = Expense {
            id,
            fishpond_id: payload.fishpond_id,
            category: payload.category,
            amount: payload.amount,
            description: payload.description,
            date: now,
        };
        let ret = Expense {
            id: rec.id,
            fishpond_id: rec.fishpond_id,
            category: rec.category.clone(),
            amount: rec.amount,
            description: rec.description.clone(),
            date: rec.date,
        };
        let ghost pre = *old(self);
        let ghost new_rec = rec;
        self.expenses.push(rec);
        proof {
            let post = *self;
            assert(ret == new_rec);
            assert(post.expenses@[pre.expenses@.len() as int].id == new_rec.id);
            assert forall|x: u64| #[trigger] post.kind_count(x) <= 1 by {
                if x == new_rec.id {
                    lemma_fresh_id_absent(pre, x);
                } else {
                    assert(pre.kind_count(x) <= 1);
                    if post.has_expense(x) {
                        let i = choose|i: int|
                            0 <= i < post.expenses@.len() && #[trigger] post.expenses@[i].id == x;
                        assert(i < pre.expenses@.len());
                        assert(pre.expenses@[i].id == x);
                    }
                    if pre.has_expense(x) {
                        let i = choose|i: int|
                            0 <= i < pre.expenses@.len() && #[trigger] pre.expenses@[i].id == x;
                        assert(post.expenses@[i].id == x);
                    }
                    assert(post.has_expense(x) == pre.has_expense(x));
                }
            }
        }
        Ok(ret)
    }

    /// Mutable access to one pond of the collection.
    fn pond_at_mut(&mut self, i: usize) -> (p: &mut Fishpond)
        requires
            i < old(self).ponds@.len(),
        ensures
            *p == old(self).ponds@[i as int],
            final(self).ponds@ == old(self).ponds@.update(i as int, *final(p)),
            final(self).counter == old(self).counter,
            final(self).batches == old(self).batches,
            final(self).feedings == old(self).feedings,
            final(self).expenses == old(self).expenses,
            final(self).harvests == old(self).harvests,
    {
        &mut self.ponds[i]
    }

    /// Add a batch of fish to an existing pond: validate, issue the next
    /// identifier, store the batch, then subtract the batch weight from the
    /// owning pond's stock balance (the balance updater). The weight must lie
    /// within the exact-accounting bound `MAX_AMOUNT`, the machine limit that
    /// keeps every balance within integer range.
    pub fn add_fish_batch(&mut self, payload: AddFishBatchPayload, now: u64) -> (r: Result<
        FishBatch,
        Message,
    >)
        requires
            old(self).inv(),
            old(self).counter < u64::MAX,
            payload.weight <= MAX_AMOUNT,
        ensures
            final(self).inv(),
            old(self).counter <= final(self).counter,
            !valid_batch_payload(payload) ==> (r matches Err(Message::InvalidPayload(t)) && (t@
                == "Invalid fish batch data"@ && *final(self) == *old(self))),
            valid_batch_payload(payload) && !old(self).has_pond(payload.fishpond_id) ==> (r
                matches Err(Message::NotFound(t)) && (t@ == "Fishpond not found"@ && *final(self)
                == *old(self))),
            valid_batch_payload(payload) && old(self).has_pond(payload.fishpond_id) ==> (r matches
                Ok(b) && ({
                let i = old(self).pond_idx(payload.fishpond_id);
                &&& b.id == old(self).counter + 1
                &&& b.fishpond_id == payload.fishpond_id
                &&& b.species == payload.species
                &&& b.weight == payload.weight
                &&& b.quantity == payload.quantity
                &&& b.arrival_date == now
                &&& final(self).counter == old(self).counter + 1
                &&& final(self).batches@ == old(self).batches@.push(b)
                &&& final(self).feedings == old(self).feedings
                &&& final(self).expenses == old(self).expenses
                &&& final(self).harvests == old(self).harvests
                &&& final(self).ponds@.len() == old(self).ponds@.len()
                &&& forall|j: int|
                    0 <= j < old(self).ponds@.len() && j != i ==> #[trigger] final(self).ponds@[j]
                        == old(self).ponds@[j]
                &&& stock_adjusted(
                    old(self).ponds@[i],
                    final(self).ponds@[i],
                    -(payload.weight as int),
                )
            })),
    {
        if payload.species.as_str().unicode_len() == 0 || payload.weight == 0 || payload.quantity
            == 0 {
            return Err(Message::InvalidPayload(String::from_str("Invalid fish batch data")));
        }
        if !self.pond_exists(payload.fishpond_id) {
            return Err(Message::NotFound(String::from_str("Fishpond not found")));
        }
        let ghost pre = *old(self);
        let idx = self.find_pond_index(payload.fishpond_id);
        let id = self.next_id();
        let batch = FishBatch {
            id,
            fishpond_id: payload.fishpond_id,
            species: payload.species,
            weight: payload.weight,
            quantity: payload.quantity,
            arrival_date: now,
        };
        let ret = FishBatch {
            id: batch.id,
            fishpond_id: batch.fishpond_id,
            species: batch.species.clone(),
            weight: batch.weight,
            quantity: batch.quantity,
            arrival_date: batch.arrival_date,
        };
        let ghost new_rec = batch;
        self.batches.push(batch);
        let s0 = self.ponds[idx].current_stock;
        proof {
            let pid = pre.ponds@[idx as int].id;
            assert(s0 == harvest_weight_sum(pre.harvests@, pid) - batch_weight_sum(
                pre.batches@,
                pid,
            ));
            lemma_batch_sum_bounds(pre.batches@, pid);
            lemma_harvest_sum_bounds(pre.harvests@, pid);
            lemma_mul_inequality(pre.batches@.len() as int, u64::MAX as int, MAX_AMOUNT as int);
            lemma_mul_inequality(pre.harvests@.len() as int, u64::MAX as int, MAX_AMOUNT as int);
        }
        let new_stock = s0 - (payload.weight as i128);
        let pond_ref = self.pond_at_mut(idx);
        pond_ref.current_stock = new_stock;
        proof {
            let post = *self;
            let i = idx as int;
            assert(ret == new_rec);
            lemma_pond_idx_is(pre, payload.fishpond_id, i);
            assert(post.ponds@ == pre.ponds@.update(i, post.ponds@[i]));
            assert(forall|k: int|
                0 <= k < post.ponds@.len() ==> #[trigger] post.ponds@[k].id == pre.ponds@[k].id);
            lemma_has_pond_same_ids(pre, post);
            assert(post.batches@[pre.batches@.len() as int].id == new_rec.id);
            assert forall|x: u64| #[trigger] post.kind_count(x) <= 1 by {
                assert(post.has_pond(x) == pre.has_pond(x));
                if x == new_rec.id {
                    lemma_fresh_id_absent(pre, x);
                } else {
                    assert(pre.kind_count(x) <= 1);
                    if post.has_batch(x) {
                        let k = choose|k: int|
                            0 <= k < post.batches@.len() && #[trigger] post.batches@[k].id == x;
                        assert(k < pre.batches@.len());
                        assert(pre.batches@[k].id == x);
                    }
                    if pre.has_batch(x) {
                        let k = choose|k: int|
                            0 <= k < pre.batches@.len() && #[trigger] pre.batches@[k].id == x;
                        assert(post.batches@[k].id == x);
                    }
                    assert(post.has_batch(x) == pre.has_batch(x));
                }
            }
            assert forall|j: int|
                0 <= j < post.ponds@.len() implies (#[trigger] post.ponds@[j]).current_stock
                == harvest_weight_sum(post.harvests@, post.ponds@[j].id) - batch_weight_sum(
                post.batches@,
                post.ponds@[j].id,
            ) by {
                let pid = post.ponds@[j].id;
                lemma_batch_sum_push(pre.batches@, new_rec, pid);
                assert(pre.ponds@[j].current_stock == harvest_weight_sum(pre.harvests@, pid)
                    - batch_weight_sum(pre.batches@, pid));
                if j != i {
                    assert(pre.ponds@[j].id != pre.ponds@[i].id);
                    assert(post.ponds@[j] == pre.ponds@[j]);
                }
            }
        }
        Ok(ret)
    }

    /// Record a harvest from an existing pond: validate, issue the next
    /// identifier, store the harvest with its derived revenue (weight times
    /// price, exact), then add the harvested weight to the owning pond's
    /// stock balance (the balance updater). Weight and price must lie within
    /// the exact-accounting bound `MAX_AMOUNT`, the machine limit that keeps
    /// every revenue and balance within integer range.
    pub fn record_harvest(&mut self, payload: RecordHarvestPayload, now: u64) -> (r: Result<
        Harvest,
        Message,
    >)
        requires
            old(self).inv(),
            old(self).counter < u64::MAX,
            payload.weight <= MAX_AMOUNT,
            payload.revenue_per_kg <= MAX_AMOUNT,
        ensures
            final(self).inv(),
            old(self).counter <= final(self).counter,
            !valid_harvest_payload(payload) ==> (r matches Err(Message::InvalidPayload(t)) && (t@
                == "Invalid harvest data"@ && *final(self) == *old(self))),
            valid_harvest_payload(payload) && !old(self).has_pond(payload.fishpond_id) ==> (r
                matches Err(Message::NotFound(t)) && (t@ == "Fishpond not found"@ && *final(self)
                == *old(self))),
            valid_harvest_payload(payload) && old(self).has_pond(payload.fishpond_id) ==> (r
                matches Ok(h) && ({
                let i = old(self).pond_idx(payload.fishpond_id);
                &&& h.id == old(self).counter + 1
                &&& h.fishpond_id == payload.fishpond_id
                &&& h.species == payload.species
                &&& h.weight == payload.weight
                &&& h.revenue_per_kg == payload.revenue_per_kg
                &&& h.total_revenue == payload.weight * payload.revenue_per_kg
                &&& h.harvest_date == now
                &&& final(self).counter == old(self).counter + 1
                &&& final(self).harvests@ == old(self).harvests@.push(h)
                &&& final(self).feedings == old(self).feedings
                &&& final(self).expenses == old(self).expenses
                &&& final(self).batches == old(self).batches
                &&& final(self).ponds@.len() == old(self).ponds@.len()
                &&& forall|j: int|
                    0 <= j < old(self).ponds@.len() && j != i ==> #[trigger] final(self).ponds@[j]
                        == old(self).ponds@[j]
                &&& stock_adjusted(
                    old(self).ponds@[i],
                    final(self).ponds@[i],
                    payload.weight as int,
                )
            })),
    {
        if payload.weight == 0 || payload.revenue_per_kg == 0 {
            return Err(Message::InvalidPayload(String::from_str("Invalid harvest data")));
        }
        if !self.pond_exists(payload.fishpond_id) {
            return Err(Message::NotFound(String::from_str("Fishpond not found")));
        }
        let ghost pre = *old(self);
        let idx = self.find_pond_index(payload.fishpond_id);
        let id = self.next_id();
        proof {
            assert(payload.weight * payload.revenue_per_kg <= MAX_AMOUNT * MAX_AMOUNT)
                by (nonlinear_arith)
                requires
                    0 < payload.weight <= MAX_AMOUNT,
                    0 < payload.revenue_per_kg <= MAX_AMOUNT,
            ;
        }
        let total_revenue = payload.weight * payload.revenue_per_kg;
        let harvest = Harvest {
            id,
            fishpond_id: payload.fishpond_id,
            species: payload.species,
            weight: payload.weight,
            revenue_per_kg: payload.revenue_per_kg,
            total_revenue,
            harvest_date: now,
        };
        let ret = Harvest {
            id: harvest.id,
            fishpond_id: harvest.fishpond_id,
            species: harvest.species.clone(),
            weight: harvest.weight,
            revenue_per_kg: harvest.revenue_per_kg,
            total_revenue: harvest.total_revenue,
            harvest_date: harvest.harvest_date,
        };
        let ghost new_rec = harvest;
        self.harvests.push(harvest);
        let s0 = self.ponds[idx].current_stock;
        proof {
            let pid = pre.ponds@[idx as int].id;
            assert(s0 == harvest_weight_sum(pre.harvests@, pid) - batch_weight_sum(
                pre.batches@,
                pid,
            ));
            lemma_batch_sum_bounds(pre.batches@, pid);
            lemma_harvest_sum_bounds(pre.harvests@, pid);
            lemma_mul_inequality(pre.batches@.len() as int, u64::MAX as int, MAX_AMOUNT as int);
            lemma_mul_inequality(pre.harvests@.len() as int, u64::MAX as int, MAX_AMOUNT as int);
        }
        let new_stock = s0 + (payload.weight as i128);
        let pond_ref = self.pond_at_mut(idx);
        pond_ref.current_stock = new_stock;
        proof {
            let post = *self;
            let i = idx as int;
            assert(ret == new_rec);
            lemma_pond_idx_is(pre, payload.fishpond_id, i);
            assert(post.ponds@ == pre.ponds@.update(i, post.ponds@[i]));
            assert(forall|k: int|
                0 <= k < post.ponds@.len() ==> #[trigger] post.ponds@[k].id == pre.ponds@[k].id);
            lemma_has_pond_same_ids(pre, post);
            assert(post.harvests@[pre.harvests@.len() as int].id == new_rec.id);
            assert forall|x: u64| #[trigger] post.kind_count(x) <= 1 by {
                assert(post.has_pond(x) == pre.has_pond(x));
                if x == new_rec.id {
                    lemma_fresh_id_absent(pre, x);
                } else {
                    assert(pre.kind_count(x) <= 1);
                    if post.has_harvest(x) {
                        let k = choose|k: int|
                            0 <= k < post.harvests@.len() && #[trigger] post.harvests@[k].id == x;
                        assert(k < pre.harvests@.len());
                        assert(pre.harvests@[k].id == x);
                    }
                    if pre.has_harvest(x) {
                        let k = choose|k: int|
                            0 <= k < pre.harvests@.len() && #[trigger] pre.harvests@[k].id == x;
                        assert(post.harvests@[k].id == x);
                    }
                    assert(post.has_harvest(x) == pre.has_harvest(x));
                }
            }
            assert forall|j: int|
                0 <= j < post.ponds@.len() implies (#[trigger] post.ponds@[j]).current_stock
                == harvest_weight_sum(post.harvests@, post.ponds@[j].id) - batch_weight_sum(
                post.batches@,
                post.ponds@[j].id,
            ) by {
                let pid = post.ponds@[j].id;
                lemma_harvest_sum_push(pre.harvests@, new_rec, pid);
                assert(pre.ponds@[j].current_stock == harvest_weight_sum(pre.harvests@, pid)
                    - batch_weight_sum(pre.batches@, pid));
                if j != i {
                    assert(pre.ponds@[j].id != pre.ponds@[i].id);
                    assert(post.ponds@[j] == pre.ponds@[j]);
                }
            }
        }
        Ok(ret)
    }

    /// Look up the position of an existing pond.
    fn find_pond_index(&self, fishpond_id: u64) -> (idx: usize)
        requires
            self.ids_sorted(),
            self.has_pond(fishpond_id),
        ensures
            idx < self.ponds@.len(),
            self.ponds@[idx as int].id == fishpond_id,
            idx as int == self.pond_idx(fishpond_id),
    {
        let mut i: usize = 0;
        while i < self.ponds.len()
            invariant
                self.ids_sorted(),
                self.has_pond(fishpond_id),
                i <= self.ponds@.len(),
                forall|j: int| 0 <= j < i ==> #[trigger] self.ponds@[j].id != fishpond_id,
            decreases self.ponds@.len() - i,
        {
            if self.ponds[i].id == fishpond_id {
                proof {
                    lemma_pond_idx_is(*self, fishpond_id, i as int);
                }
                return i;
            }
            i = i + 1;
        }
        proof {
            let w = choose|w: int|
                0 <= w < self.ponds@.len() && #[trigger] self.ponds@[w].id == fishpond_id;
            assert(self.ponds@[w].id != fishpond_id);
        }
        0
    }

    /// Total revenue of the harvests recorded against a pond: a full scan of
    /// the harvest collection, folding the stored revenues of the matching
    /// records. Zero matches give zero, not an error; a missing pond gives
    /// `NotFound`.
    pub fn calculate_total_revenue(&self, fishpond_id: u64) -> (r: Result<u128, Message>)
        requires
            self.inv(),
        ensures
            self.has_pond(fishpond_id) ==> (r matches Ok(total) && total == revenue_sum(
                self.harvests@,
                fishpond_id,
            )),
            !self.has_pond(fishpond_id) ==> (r matches Err(Message::NotFound(t)) && t@
                == "Fishpond not found"@),
    {
        if !self.pond_exists(fishpond_id) {
            return Err(Message::NotFound(String::from_str("Fishpond not found")));
        }
        let mut total: u128 = 0;
        let mut i: usize = 0;
        while i < self.harvests.len()
            invariant
                self.inv(),
                i <= self.harvests@.len(),
                total == revenue_sum(self.harvests@.take(i as int), fishpond_id),
                total <= (i as int) * (MAX_AMOUNT * MAX_AMOUNT),
            decreases self.harvests@.len() - i,
        {
            proof {
                let h = self.harvests@[i as int];
                assert(self.harvests@.take((i + 1) as int).drop_last() =~= self.harvests@.take(
                    i as int,
                ));
                assert(self.harvests@.take((i + 1) as int).last() == h);
                assert(h.total_revenue <= MAX_AMOUNT * MAX_AMOUNT) by (nonlinear_arith)
                    requires
                        h.total_revenue == h.weight * h.revenue_per_kg,
                        0 < h.weight <= MAX_AMOUNT,
                        0 < h.revenue_per_kg <= MAX_AMOUNT,
                ;
                assert((i as int) * (MAX_AMOUNT * MAX_AMOUNT) + (MAX_AMOUNT * MAX_AMOUNT) == ((
                i + 1) as int) * (MAX_AMOUNT * MAX_AMOUNT)) by (nonlinear_arith);
            }
            if self.harvests[i].fishpond_id == fishpond_id {
                total = total + (self.harvests[i].total_revenue as u128);
            }
            i = i + 1;
        }
        proof {
            assert(self.harvests@.take(self.harvests@.len() as int) =~= self.harvests@);
        }
        Ok(total)
    }

    /// Total expenses recorded against a pond: a full scan of the expense
    /// collection, folding the amounts of the matching records. Zero matches
    /// give zero, not an error; a missing pond gives `NotFound`.
    pub fn calculate_total_expenses(&self, fishpond_id: u64) -> (r: Result<u128, Message>)
        requires
            self.inv(),
        ensures
            self.has_pond(fishpond_id) ==> (r matches Ok(total) && total == expense_sum(
                self.expenses@,
                fishpond_id,
            )),
            !self.has_pond(fishpond_id) ==> (r matches Err(Message::NotFound(t)) && t@
                == "Fishpond not found"@),
    {
        if !self.pond_exists(fishpond_id) {
            return Err(Message::NotFound(String::from_str("Fishpond not found")));
        }
        let mut total: u128 = 0;
        let mut i: usize = 0;
        while i < self.expenses.len()
            invariant
                self.inv(),
                i <= self.expenses@.len(),
                total == expense_sum(self.expenses@.take(i as int), fishpond_id),
                total <= (i as int) * MAX_AMOUNT,
            decreases self.expenses@.len() - i,
        {
            proof {
                assert(self.expenses@.take((i + 1) as int).drop_last() =~= self.expenses@.take(
                    i as int,
                ));
                assert(self.expenses@.take((i + 1) as int).last() == self.expenses@[i as int]);
            }
            if self.expenses[i].fishpond_id == fishpond_id {
                total = total + (self.expenses[i].amount as u128);
            }
            i = i + 1;
        }
        proof {
            assert(self.expenses@.take(self.expenses@.len() as int) =~= self.expenses@);
        }
        Ok(total)
    }

    /// Read access to a stored pond, by identifier.
    pub fn get_fishpond(&self, fishpond_id: u64) -> (r: Option<&Fishpond>)
        requires
            self.ids_sorted(),
        ensures
            self.has_pond(fishpond_id) ==> (r matches Some(p) && *p == self.spec_pond(fishpond_id)
                && p.id == fishpond_id),
            !self.has_pond(fishpond_id) ==> r is None,
    {
        let mut i: usize = 0;
        while i < self.ponds.len()
            invariant
                self.ids_sorted(),
                i <= self.ponds@.len(),
                forall|j: int| 0 <= j < i ==> #[trigger] self.ponds@[j].id != fishpond_id,
            decreases self.ponds@.len() - i,
        {
            if self.ponds[i].id == fishpond_id {
                proof {
                    lemma_pond_idx_is(*self, fishpond_id, i as int);
                }
                return Some(&self.ponds[i]);
            }
            i = i + 1;
        }
        None
    }
}

/// An identifier above the counter names no record of any kind: every stored
/// identifier was issued, and issued identifiers never exceed the counter.
pub proof fn lemma_fresh_id_absent(s: FarmStore, id: u64)
    requires
        s.ids_in_range(),
        s.counter < id,
    ensures
        !s.has_pond(id),
        !s.has_batch(id),
        !s.has_feeding(id),
        !s.has_expense(id),
        !s.has_harvest(id),
{
    if s.has_pond(id) {
        let i = choose|i: int| 0 <= i < s.ponds@.len() && #[trigger] s.ponds@[i].id == id;
        assert(s.ponds@[i].id <= s.counter);
    }
    if s.has_batch(id) {
        let i = choose|i: int| 0 <= i < s.batches@.len() && #[trigger] s.batches@[i].id == id;
        assert(s.batches@[i].id <= s.counter);
    }
    if s.has_feeding(id) {
        let i = choose|i: int| 0 <= i < s.feedings@.len() && #[trigger] s.feedings@[i].id == id;
        assert(s.feedings@[i].id <= s.counter);
    }
    if s.has_expense(id) {
        let i = choose|i: int| 0 <= i < s.expenses@.len() && #[trigger] s.expenses@[i].id == id;
        assert(s.expenses@[i].id <= s.counter);
    }
    if s.has_harvest(id) {
        let i = choose|i: int| 0 <= i < s.harvests@.len() && #[trigger] s.harvests@[i].id == id;
        assert(s.harvests@[i].id <= s.counter);
    }
}

/// Appending a pond keeps every stored pond identifier stored, stores the new
/// pond's identifier, and stores no other new identifier.
pub proof fn lemma_has_pond_after_push(pre: FarmStore, post: FarmStore, p: Fishpond)
    requires
        post.ponds@ == pre.ponds@.push(p),
    ensures
        forall|x: u64| pre.has_pond(x) ==> #[trigger] post.has_pond(x),
        post.has_pond(p.id),
        forall|x: u64| #[trigger] post.has_pond(x) && x != p.id ==> pre.has_pond(x),
{
    assert(post.ponds@[pre.ponds@.len() as int].id == p.id);
    assert forall|x: u64| pre.has_pond(x) implies #[trigger] post.has_pond(x) by {
        let i = choose|i: int| 0 <= i < pre.ponds@.len() && #[trigger] pre.ponds@[i].id == x;
        assert(post.ponds@[i].id == x);
    }
    assert forall|x: u64| #[trigger] post.has_pond(x) && x != p.id implies pre.has_pond(x) by {
        let i = choose|i: int| 0 <= i < post.ponds@.len() && #[trigger] post.ponds@[i].id == x;
        assert(i < pre.ponds@.len());
        assert(pre.ponds@[i].id == x);
    }
}

/// Two stores whose pond collections carry the same identifiers at the same
/// positions store the same pond identifiers.
pub proof fn lemma_has_pond_same_ids(a: FarmStore, b: FarmStore)
    requires
        a.ponds@.len() == b.ponds@.len(),
        forall|i: int| 0 <= i < a.ponds@.len() ==> #[trigger] a.ponds@[i].id == b.ponds@[i].id,
    ensures
        forall|x: u64| #[trigger] a.has_pond(x) == b.has_pond(x),
{
    assert forall|x: u64| #[trigger] a.has_pond(x) == b.has_pond(x) by {
        if a.has_pond(x) {
            let i = choose|i: int| 0 <= i < a.ponds@.len() && #[trigger] a.ponds@[i].id == x;
            assert(b.ponds@[i].id == x);
        }
        if b.has_pond(x) {
            let i = choose|i: int| 0 <= i < b.ponds@.len() && #[trigger] b.ponds@[i].id == x;
            assert(a.ponds@[i].id == x);
        }
    }
}

/// In a collection with strictly increasing identifiers, an identifier names
/// at most one position: a position that holds it is the `pond_idx` position.
pub proof fn lemma_pond_idx_is(s: FarmStore, id: u64, i: int)
    requires
        s.ids_sorted(),
        0 <= i < s.ponds@.len(),
        s.ponds@[i].id == id,
    ensures
        s.has_pond(id),
        s.pond_idx(id) == i,
{
    assert(s.has_pond(id));
    let k = s.pond_idx(id);
    assert(0 <= k < s.ponds@.len() && s.ponds@[k].id == id);
    if k < i {
        assert(s.ponds@[k].id < s.ponds@[i].id);
    }
    if k > i {
        assert(s.ponds@[i].id < s.ponds@[k].id);
    }
}

} // verus!

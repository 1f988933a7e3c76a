//! Record types of the aquaculture ledger: the parent pond, its four kinds of
//! child records, the request payloads, and the message type that fallible
//! operations return.
//!
//! Quantities (weights, prices, expense amounts) are exact integer amounts in
//! thousandths of a unit (a gram when the unit is a kilogram), so that balances
//! and sums are exact and free of rounding.

use vstd::prelude::*;

verus! {

/// Upper bound on any single weight, price-per-kilogram or expense amount
/// accepted by a creation operation. Keeping single amounts below this bound
/// keeps the derived stock balance and every aggregate sum within machine
/// integer range, however many records are created.
pub const MAX_AMOUNT: u64 = 1_000_000_000;

/// The parent entity: one physical pond. `current_stock` is the one mutable
/// field in the system, a running balance maintained by the store.
#[derive(Clone, Debug)]
pub struct Fishpond {
    pub id: u64,
    pub name: String,
    pub location: String,
    pub owner: String,
    pub contact: String,
    /// Declared ceiling, thousandths of a kilogram.
    pub total_capacity: u64,
    /// Derived balance: harvested weight minus batch weight recorded against
    /// this pond since creation. May be negative.
    pub current_stock: i128,
    pub created_at: u64,
}

/// A batch of fish added to a pond. Immutable once written.
#[derive(Clone, Debug)]
pub struct FishBatch {
    pub id: u64,
    pub fishpond_id: u64,
    pub species: String,
    /// Thousandths of a kilogram, positive.
    pub weight: u64,
    /// Number of fish, positive.
    pub quantity: u64,
    pub arrival_date: u64,
}

/// A planned feeding for a pond. Immutable once written.
#[derive(Clone, Debug)]
pub struct FeedingSchedule {
    pub id: u64,
    pub fishpond_id: u64,
    pub feed_type: String,
    /// Thousandths of a kilogram of feed, positive.
    pub quantity: u64,
    pub schedule_time: u64,
}

/// A cost recorded against a pond. Immutable once written.
#[derive(Clone, Debug)]
pub struct Expense {
    pub id: u64,
    pub fishpond_id: u64,
    pub category: String,
    /// Thousandths of a currency unit, positive.
    pub amount: u64,
    pub description: String,
    pub date: u64,
}

/// A harvest taken from a pond. `total_revenue` is derived at creation and
/// never recomputed. Immutable once written.
#[derive(Clone, Debug)]
pub struct Harvest {
    pub id: u64,
    pub fishpond_id: u64,
    pub species: String,
    /// Thousandths of a kilogram, positive.
    pub weight: u64,
    /// Thousandths of a currency unit per kilogram, positive.
    pub revenue_per_kg: u64,
    /// Exactly `weight * revenue_per_kg`, in millionths of a currency unit.
    pub total_revenue: u64,
    pub harvest_date: u64,
}

/// Request to create a pond.
#[derive(Clone, Debug)]
pub struct CreateFishpondPayload {
    pub name: String,
    pub location: String,
    pub owner: String,
    pub contact: String,
    pub total_capacity: u64,
}

/// Request to add a batch of fish to an existing pond.
#[derive(Clone, Debug)]
pub struct AddFishBatchPayload {
    pub fishpond_id: u64,
    pub species: String,
    pub weight: u64,
    pub quantity: u64,
}

/// Request to plan a feeding for an existing pond.
#[derive(Clone, Debug)]
pub struct RecordFeedingPayload {
    pub fishpond_id: u64,
    pub feed_type: String,
    pub quantity: u64,
}

/// Request to record a cost against an existing pond.
#[derive(Clone, Debug)]
pub struct RecordExpensePayload {
    pub fishpond_id: u64,
    pub category: String,
    pub amount: u64,
    pub description: String,
}

/// Request to record a harvest from an existing pond.
#[derive(Clone, Debug)]
pub struct RecordHarvestPayload {
    pub fishpond_id: u64,
    pub species: String,
    pub weight: u64,
    pub revenue_per_kg: u64,
}

/// Outcome message carried by every fallible operation. `Success` and `Error`
/// are kept for forward compatibility; no current operation produces them.
#[derive(Clone, Debug)]
pub enum Message {
    Success(String),
    Error(String),
    NotFound(String),
    InvalidPayload(String),
}

/// A pond request is well formed when name and contact are non-empty.
pub open spec fn valid_pond_payload(p: CreateFishpondPayload) -> bool {
    p.name@.len() > 0 && p.contact@.len() > 0
}

/// A batch request is well formed when the species is named and weight and
/// quantity are positive.
pub open spec fn valid_batch_payload(p: AddFishBatchPayload) -> bool {
    p.species@.len() > 0 && p.weight > 0 && p.quantity > 0
}

/// A feeding request is well formed when the feed type is named and the
/// quantity is positive.
pub open spec fn valid_feeding_payload(p: RecordFeedingPayload) -> bool {
    p.feed_type@.len() > 0 && p.quantity > 0
}

/// An expense request is well formed when the amount is positive.
pub open spec fn valid_expense_payload(p: RecordExpensePayload) -> bool {
    p.amount > 0
}

/// A harvest request is well formed when weight and price are positive.
pub open spec fn valid_harvest_payload(p: RecordHarvestPayload) -> bool {
    p.weight > 0 && p.revenue_per_kg > 0
}

} // verus!

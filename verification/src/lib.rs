//! A persistent record-keeping backend for aquaculture ponds.
//!
//! The store assigns every record a stable unique identifier from one
//! monotone counter, enforces that child records (fish batches, feeding
//! schedules, expenses, harvests) reference an existing pond, keeps each
//! pond's `current_stock` equal to the harvested weight minus the batch
//! weight recorded against it, and answers aggregation queries (total
//! revenue, total expenses) over a pond's records.
//!
//! Quantities are exact integer amounts in thousandths of a unit, so sums
//! and balances are exact. The surrounding process supplies timestamps and
//! durability; the store itself is a plain value with a proved invariant.

pub mod records;
pub mod store;
pub mod laws;

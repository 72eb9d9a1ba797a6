//! Live per-process network bandwidth aggregation.
//!
//! The crate receives a stream of record-level bandwidth events (a record is
//! a distinct traffic flow attributed to a process and a device), reconciles
//! them into a keyed table of live records, and recomputes the global
//! sent/received totals after every change.  Rates are carried as unsigned
//! integers in thousandths of a kilobit per second, so that sums are exact.
//!
//! Anomalies degrade instead of failing: a Remove for an unknown record id
//! is rejected without touching the table, and a user id the system cannot
//! resolve is shown as its decimal form.

pub mod channel;
pub mod event;
pub mod laws;
pub mod reconcile;
pub mod store;

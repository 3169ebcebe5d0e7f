//! Timer lifecycle and ledger consistency for a billable-time tracker.
pub mod clock;
pub mod error;
pub mod ledger;
pub mod entry;
pub mod mirror;
pub mod money;
pub mod text;
pub mod timer;
pub mod tracker;

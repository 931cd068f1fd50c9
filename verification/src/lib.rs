//! A hierarchical resource-budget accountant for nested contract calls.
//!
//! A top-level call is funded by an origin identity that reserves a spending
//! limit against a ledger; recursive calls open nested scopes whose limits are
//! carved out of the remaining budget. Storage usage is charged to the current
//! scope and propagated to every ancestor immediately, so no scope can ever
//! oversell an ancestor's ceiling, even transiently. A reverted scope is
//! unwound exactly; a committed scope is settled against the ledger; the
//! origin's reservation is released exactly once when the whole tree ends.

pub mod laws;
pub mod meter;
pub mod usage;

pub use meter::AccountId;
pub use meter::Ext;
pub use meter::Frame;
pub use meter::Meter;
pub use meter::MeterError;
pub use meter::NestedMeter;
pub use meter::Nested;
pub use meter::RawMeter;
pub use meter::Root;
pub use meter::State;

pub use usage::Balance;
pub use usage::Cost;
pub use usage::Usage;

//! A small fleet of simulated lifts: the per-lift movement state machine,
//! the status table that follows the fleet, and the dispatcher that hands a
//! passenger's journey to one lift.
pub mod dispatch;
pub mod error;
pub mod model;
pub mod scheduler;
pub mod ticker;

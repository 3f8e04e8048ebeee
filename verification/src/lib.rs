//! Decoding and comparison of watchdog timer configuration registers.
//!
//! The crate turns raw 32-bit register values into per-unit watchdog
//! statuses, compares two statuses of one unit, renders the result as text,
//! and lays down the order of a run that captures the statuses before and
//! after a platform initialization. It never touches hardware itself:
//! callers read the registers at the addresses given by
//! [`unit::WatchdogUnit::register_address`] and hand the values in.

pub mod unit;
pub mod status;
pub mod diff;
pub mod report;
pub mod snapshot;
pub mod sequence;

//! Comparison of two statuses of one watchdog unit.

use vstd::prelude::*;
use crate::status::{decoded, StatusView, WatchdogStatus};
use crate::unit::{enable_bit_set, WatchdogUnit};

verus! {

/// What changed for one unit between two statuses, with the values compared.
#[derive(Clone, Copy, Debug, PartialEq, Eq, Structural)]
pub struct DiffResult {
    pub unit: WatchdogUnit,
    pub enabled_changed: bool,
    pub raw_changed: bool,
    pub before_enabled: bool,
    pub after_enabled: bool,
    pub before_raw: u32,
    pub after_raw: u32,
}

/// The comparison of `before` with `after`: each flag says whether the two
/// values of its field differ, with no tolerance.
pub open spec fn compared(before: StatusView, after: StatusView) -> DiffResult {
    DiffResult {
        unit: before.unit,
        enabled_changed: before.enabled != after.enabled,
        raw_changed: before.raw != after.raw,
        before_enabled: before.enabled,
        after_enabled: after.enabled,
        before_raw: before.raw,
        after_raw: after.raw,
    }
}

impl DiffResult {
    /// Whether the flags say what the four recorded values say.
    pub open spec fn consistent(self) -> bool {
        &&& self.enabled_changed == (self.before_enabled != self.after_enabled)
        &&& self.raw_changed == (self.before_raw != self.after_raw)
    }

    /// Whether neither the flag nor the raw value changed.
    pub fn unchanged(&self) -> (same: bool)
        ensures
            same == (!self.enabled_changed && !self.raw_changed),
    {
        !self.enabled_changed && !self.raw_changed
    }
}

/// Compares two statuses of the same unit.
pub fn diff(before: &WatchdogStatus, after: &WatchdogStatus) -> (result: DiffResult)
    requires
        before@.unit == after@.unit,
    ensures
        result == compared(before@, after@),
        result.consistent(),
{
    let before_enabled: bool = before.enabled();
    let after_enabled: bool = after.enabled();
    let before_raw: u32 = before.raw();
    let after_raw: u32 = after.raw();
    DiffResult {
        unit: before.unit(),
        enabled_changed: before_enabled != after_enabled,
        raw_changed: before_raw != after_raw,
        before_enabled,
        after_enabled,
        before_raw,
        after_raw,
    }
}

/// Comparing a status with itself reports no change.
pub proof fn lemma_diff_of_identical_is_unchanged(unit: WatchdogUnit, raw: u32)
    ensures
        !compared(decoded(unit, raw), decoded(unit, raw)).enabled_changed,
        !compared(decoded(unit, raw), decoded(unit, raw)).raw_changed,
{
}

/// The raw value is reported as changed exactly when the two raw values
/// differ.
pub proof fn lemma_raw_changed_is_exact(unit: WatchdogUnit, before: u32, after: u32)
    ensures
        compared(decoded(unit, before), decoded(unit, after)).raw_changed == (before != after),
{
}

/// The enabled flag changes exactly when the enable bit does, and then the
/// raw value has changed too.
pub proof fn lemma_enabled_change_is_bit_change(unit: WatchdogUnit, before: u32, after: u32)
    ensures
        compared(decoded(unit, before), decoded(unit, after)).enabled_changed
            == (enable_bit_set(before) != enable_bit_set(after)),
        compared(decoded(unit, before), decoded(unit, after)).enabled_changed
            ==> compared(decoded(unit, before), decoded(unit, after)).raw_changed,
{
}

} // verus!

//! A watchdog unit's status: its raw register value and the enabled flag
//! that the unit's rule derives from it.

use vstd::prelude::*;
use crate::unit::{enabled_under, BitRule, WatchdogUnit};

verus! {

/// What a status holds, as a plain value for contracts.
pub struct StatusView {
    pub unit: WatchdogUnit,
    pub enabled: bool,
    pub raw: u32,
}

/// The status that `unit` has when its register holds `raw`.
pub open spec fn decoded(unit: WatchdogUnit, raw: u32) -> StatusView {
    StatusView { unit, enabled: enabled_under(unit.spec_rule(), raw), raw }
}

/// The status of one watchdog unit at one instant.
///
/// The enabled flag is always the one that the unit's rule gives for the
/// raw value: a status can only be made by [`WatchdogStatus::decode`].
#[derive(Clone, Copy, Debug)]
pub struct WatchdogStatus {
    unit: WatchdogUnit,
    enabled: bool,
    raw: u32,
}

impl View for WatchdogStatus {
    type V = StatusView;

    closed spec fn view(&self) -> StatusView {
        StatusView { unit: self.unit, enabled: self.enabled, raw: self.raw }
    }
}

impl WatchdogStatus {
    #[verifier::type_invariant]
    closed spec fn flag_follows_raw(self) -> bool {
        self.enabled == enabled_under(self.unit.spec_rule(), self.raw)
    }

    /// Decodes the raw value read from `unit`'s register.
    pub fn decode(unit: WatchdogUnit, raw: u32) -> (status: WatchdogStatus)
        ensures
            status@ == decoded(unit, raw),
    {
        let enabled: bool = unit.rule().apply(raw);
        WatchdogStatus { unit, enabled, raw }
    }

    /// The unit that the status belongs to.
    pub fn unit(&self) -> (unit: WatchdogUnit)
        ensures
            unit == self@.unit,
    {
        self.unit
    }

    /// Whether the watchdog was enabled; always what the unit's rule makes
    /// of the raw value.
    pub fn enabled(&self) -> (enabled: bool)
        ensures
            enabled == self@.enabled,
            enabled == enabled_under(self@.unit.spec_rule(), self@.raw),
    {
        proof {
            use_type_invariant(self);
        }
        self.enabled
    }

    /// The raw register value that the status was decoded from.
    pub fn raw(&self) -> (raw: u32)
        ensures
            raw == self@.raw,
    {
        self.raw
    }
}

/// A unit under the direct rule is enabled exactly when bit 31 of its
/// register is set.
pub proof fn lemma_direct_rule_reads_bit31(unit: WatchdogUnit, raw: u32)
    requires
        unit.spec_rule() == BitRule::Direct,
    ensures
        decoded(unit, raw).enabled == ((raw >> 31) & 1 == 1),
{
}

/// A unit under the inverted rule is enabled exactly when bit 31 of its
/// register is clear.
pub proof fn lemma_inverted_rule_reads_bit31(unit: WatchdogUnit, raw: u32)
    requires
        unit.spec_rule() == BitRule::Inverted,
    ensures
        decoded(unit, raw).enabled == ((raw >> 31) & 1 == 0),
{
    assert(((raw >> 31) & 1 == 0) == !((raw >> 31) & 1 == 1)) by (bit_vector);
}

/// The super watchdog is the one unit under the inverted rule.
pub proof fn lemma_only_swd_is_inverted(unit: WatchdogUnit)
    ensures
        (unit.spec_rule() == BitRule::Inverted) == (unit == WatchdogUnit::Swd),
{
}

} // verus!

//! The watchdog units, their register addresses and their enable-bit rules.

use vstd::prelude::*;

verus! {

/// Base address of the low-power watchdog block, which holds RWDT and SWD.
pub const LP_WDT_BASE: u32 = 0x600B_1C00;

/// Base address of timer group 0.
pub const TIMG0_BASE: u32 = 0x6000_8000;

/// Base address of timer group 1.
pub const TIMG1_BASE: u32 = 0x6000_9000;

/// Offset of the RWDT main configuration register from its base.
pub const RWDT_CONFIG0_OFFSET: u32 = 0x0;

/// Offset of a timer group's watchdog configuration register from its base.
pub const MWDT_CONFIG0_OFFSET: u32 = 0x48;

/// Offset of the SWD control register from the low-power watchdog base.
pub const SWD_CONF_OFFSET: u32 = 0x104;

/// Position of the bit that carries the enable state in every unit's register.
pub const ENABLE_BIT: u32 = 31;

/// How the enable bit of a unit's register is read.
#[derive(Clone, Copy, Debug, PartialEq, Eq, Structural)]
pub enum BitRule {
    /// Bit set means the watchdog is enabled.
    Direct,
    /// Bit set means the watchdog is disabled.
    Inverted,
}

/// One of the four watchdog units of the device.
#[derive(Clone, Copy, Debug, PartialEq, Eq, Structural)]
pub enum WatchdogUnit {
    /// Real-time clock watchdog.
    Rwdt,
    /// Main watchdog of timer group 0.
    Timg0Mwdt,
    /// Main watchdog of timer group 1.
    Timg1Mwdt,
    /// Super watchdog; its register bit enables automatic feeding.
    Swd,
}

/// Whether the enable bit of `raw` is set.
pub open spec fn enable_bit_set(raw: u32) -> bool {
    (raw >> ENABLE_BIT) & 1 == 1
}

/// The enabled flag that `rule` derives from `raw`.
pub open spec fn enabled_under(rule: BitRule, raw: u32) -> bool {
    match rule {
        BitRule::Direct => enable_bit_set(raw),
        BitRule::Inverted => !enable_bit_set(raw),
    }
}

impl BitRule {
    /// Applies the rule to a raw register value.
    pub fn apply(&self, raw: u32) -> (enabled: bool)
        ensures
            enabled == enabled_under(*self, raw),
    {
        let masked: u32 = raw & (1u32 << ENABLE_BIT);
        assert((masked != 0) == enable_bit_set(raw)) by (bit_vector)
            requires
                masked == raw & (1u32 << ENABLE_BIT),
        ;
        match self {
            BitRule::Direct => masked != 0,
            BitRule::Inverted => masked == 0,
        }
    }
}

impl WatchdogUnit {
    /// The base address of the peripheral block that holds the unit.
    pub open spec fn spec_base_address(self) -> u32 {
        match self {
            WatchdogUnit::Rwdt => LP_WDT_BASE,
            WatchdogUnit::Timg0Mwdt => TIMG0_BASE,
            WatchdogUnit::Timg1Mwdt => TIMG1_BASE,
            WatchdogUnit::Swd => LP_WDT_BASE,
        }
    }

    /// The offset of the unit's register from its base address.
    pub open spec fn spec_config_offset(self) -> u32 {
        match self {
            WatchdogUnit::Rwdt => RWDT_CONFIG0_OFFSET,
            WatchdogUnit::Timg0Mwdt => MWDT_CONFIG0_OFFSET,
            WatchdogUnit::Timg1Mwdt => MWDT_CONFIG0_OFFSET,
            WatchdogUnit::Swd => SWD_CONF_OFFSET,
        }
    }

    /// The rule by which the unit's enable bit is read.
    pub open spec fn spec_rule(self) -> BitRule {
        match self {
            WatchdogUnit::Swd => BitRule::Inverted,
            _ => BitRule::Direct,
        }
    }

    /// The name under which the unit appears in reports.
    pub open spec fn spec_name(self) -> Seq<char> {
        match self {
            WatchdogUnit::Rwdt => "RWDT"@,
            WatchdogUnit::Timg0Mwdt => "TIMG0 MWDT"@,
            WatchdogUnit::Timg1Mwdt => "TIMG1 MWDT"@,
            WatchdogUnit::Swd => "SWD"@,
        }
    }

    /// The address of the unit's register: base plus offset.
    pub open spec fn spec_register_address(self) -> int {
        self.spec_base_address() + self.spec_config_offset()
    }

    /// The base address of the peripheral block that holds the unit.
    #[verifier::when_used_as_spec(spec_base_address)]
    pub fn base_address(self) -> (addr: u32)
        ensures
            addr == self.spec_base_address(),
    {
        match self {
            WatchdogUnit::Rwdt => LP_WDT_BASE,
            WatchdogUnit::Timg0Mwdt => TIMG0_BASE,
            WatchdogUnit::Timg1Mwdt => TIMG1_BASE,
            WatchdogUnit::Swd => LP_WDT_BASE,
        }
    }

    /// The offset of the unit's register from its base address.
    #[verifier::when_used_as_spec(spec_config_offset)]
    pub fn config_offset(self) -> (offset: u32)
        ensures
            offset == self.spec_config_offset(),
    {
        match self {
            WatchdogUnit::Rwdt => RWDT_CONFIG0_OFFSET,
            WatchdogUnit::Timg0Mwdt => MWDT_CONFIG0_OFFSET,
            WatchdogUnit::Timg1Mwdt => MWDT_CONFIG0_OFFSET,
            WatchdogUnit::Swd => SWD_CONF_OFFSET,
        }
    }

    /// The rule by which the unit's enable bit is read.
    #[verifier::when_used_as_spec(spec_rule)]
    pub fn rule(self) -> (rule: BitRule)
        ensures
            rule == self.spec_rule(),
    {
        match self {
            WatchdogUnit::Swd => BitRule::Inverted,
            _ => BitRule::Direct,
        }
    }

    /// The name under which the unit appears in reports.
    pub fn name(self) -> (name: &'static str)
        ensures
            name@ == self.spec_name(),
    {
        match self {
            WatchdogUnit::Rwdt => "RWDT",
            WatchdogUnit::Timg0Mwdt => "TIMG0 MWDT",
            WatchdogUnit::Timg1Mwdt => "TIMG1 MWDT",
            WatchdogUnit::Swd => "SWD",
        }
    }

    /// The address of the unit's register. The sum never leaves 32 bits.
    pub fn register_address(self) -> (addr: u32)
        ensures
            addr == self.spec_register_address(),
    {
        self.base_address() + self.config_offset()
    }
}

} // verus!

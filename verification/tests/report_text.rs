use watchdog_probe::diff::diff;
use watchdog_probe::report::{
    legend, render_bool, render_flag_change, render_hex, render_raw_change, render_status,
};
use watchdog_probe::snapshot::{monitored, render_changes, Snapshot};
use watchdog_probe::status::WatchdogStatus;
use watchdog_probe::unit::WatchdogUnit;

#[test]
fn hex_is_eight_digits_zero_padded() {
    assert_eq!(render_hex(0x0000_0000), "0x00000000");
    assert_eq!(render_hex(0x0000_000f), "0x0000000f");
    assert_eq!(render_hex(0x1234_5678), "0x12345678");
    assert_eq!(render_hex(0x8000_0000), "0x80000000");
    assert_eq!(render_hex(0x9abc_def0), "0x9abcdef0");
    assert_eq!(render_hex(0xffff_ffff), "0xffffffff");
}

#[test]
fn hex_agrees_with_std_formatting() {
    let mut value: u32 = 1;
    for _ in 0..200 {
        assert_eq!(render_hex(value), format!("0x{:08x}", value));
        value = value.wrapping_mul(1_664_525).wrapping_add(1_013_904_223);
    }
}

#[test]
fn flags_are_written_as_words() {
    assert_eq!(render_bool(true), "true");
    assert_eq!(render_bool(false), "false");
}

#[test]
fn status_lines() {
    let rwdt = WatchdogStatus::decode(WatchdogUnit::Rwdt, 0x8000_0000);
    assert_eq!(render_status(&rwdt), "RWDT enabled: true, config0: 0x80000000");
    let timg0 = WatchdogStatus::decode(WatchdogUnit::Timg0Mwdt, 0x0004_c000);
    assert_eq!(render_status(&timg0), "TIMG0 MWDT enabled: false, config0: 0x0004c000");
    let swd = WatchdogStatus::decode(WatchdogUnit::Swd, 0x8000_0000);
    assert_eq!(render_status(&swd), "SWD enabled: false, config0: 0x80000000");
}

#[test]
fn changed_lines_show_both_values() {
    let before = WatchdogStatus::decode(WatchdogUnit::Rwdt, 0x8000_0000);
    let after = WatchdogStatus::decode(WatchdogUnit::Rwdt, 0x0000_0000);
    let result = diff(&before, &after);
    assert_eq!(render_flag_change(&result), "  RWDT status changed: true -> false");
    assert_eq!(render_raw_change(&result), "  RWDT config0 changed: 0x80000000 -> 0x00000000");
}

#[test]
fn unchanged_lines_show_one_value() {
    let before = WatchdogStatus::decode(WatchdogUnit::Timg1Mwdt, 0x1234_5678);
    let after = WatchdogStatus::decode(WatchdogUnit::Timg1Mwdt, 0x1234_5678);
    let result = diff(&before, &after);
    assert_eq!(render_flag_change(&result), "  TIMG1 MWDT status unchanged: false");
    assert_eq!(render_raw_change(&result), "  TIMG1 MWDT config0 unchanged: 0x12345678");
}

#[test]
fn super_watchdog_lines_follow_the_inverted_rule() {
    let before = WatchdogStatus::decode(WatchdogUnit::Swd, 0x0000_0000);
    let after = WatchdogStatus::decode(WatchdogUnit::Swd, 0x8000_0000);
    let result = diff(&before, &after);
    assert_eq!(render_flag_change(&result), "  SWD status changed: true -> false");
    assert_eq!(render_raw_change(&result), "  SWD config0 changed: 0x00000000 -> 0x80000000");
}

#[test]
fn snapshot_holds_the_monitored_units_in_order() {
    assert_eq!(
        monitored(),
        vec![WatchdogUnit::Rwdt, WatchdogUnit::Timg0Mwdt, WatchdogUnit::Timg1Mwdt]
    );
    let snapshot = Snapshot::from_raw(0x8000_0000, 0x0000_0001, 0xffff_ffff);
    let rwdt = snapshot.get(WatchdogUnit::Rwdt).unwrap();
    assert_eq!(rwdt.unit(), WatchdogUnit::Rwdt);
    assert_eq!(rwdt.raw(), 0x8000_0000);
    assert!(rwdt.enabled());
    let timg0 = snapshot.get(WatchdogUnit::Timg0Mwdt).unwrap();
    assert_eq!(timg0.unit(), WatchdogUnit::Timg0Mwdt);
    assert_eq!(timg0.raw(), 0x0000_0001);
    assert!(!timg0.enabled());
    let timg1 = snapshot.get(WatchdogUnit::Timg1Mwdt).unwrap();
    assert_eq!(timg1.unit(), WatchdogUnit::Timg1Mwdt);
    assert_eq!(timg1.raw(), 0xffff_ffff);
    assert!(timg1.enabled());
    assert!(snapshot.get(WatchdogUnit::Swd).is_none());
}

#[test]
fn snapshot_lines() {
    let snapshot = Snapshot::from_raw(0x8000_0000, 0x0000_0001, 0xffff_ffff);
    assert_eq!(
        snapshot.render(),
        vec![
            "RWDT enabled: true, config0: 0x80000000",
            "TIMG0 MWDT enabled: false, config0: 0x00000001",
            "TIMG1 MWDT enabled: true, config0: 0xffffffff",
        ]
    );
}

#[test]
fn snapshot_diff_and_its_lines() {
    let before = Snapshot::from_raw(0x8000_0000, 0x0004_c000, 0x0000_0000);
    let after = Snapshot::from_raw(0x0000_0000, 0x0004_c000, 0x0000_0010);
    let results = before.diff(&after);
    assert_eq!(results.len(), 3);
    assert_eq!(results[0].unit, WatchdogUnit::Rwdt);
    assert!(results[0].enabled_changed && results[0].raw_changed);
    assert_eq!(results[1].unit, WatchdogUnit::Timg0Mwdt);
    assert!(!results[1].enabled_changed && !results[1].raw_changed);
    assert_eq!(results[2].unit, WatchdogUnit::Timg1Mwdt);
    assert!(!results[2].enabled_changed && results[2].raw_changed);
    assert_eq!(
        render_changes(&results),
        vec![
            "  RWDT status changed: true -> false",
            "  RWDT config0 changed: 0x80000000 -> 0x00000000",
            "  TIMG0 MWDT status unchanged: false",
            "  TIMG0 MWDT config0 unchanged: 0x0004c000",
            "  TIMG1 MWDT status unchanged: false",
            "  TIMG1 MWDT config0 changed: 0x00000000 -> 0x00000010",
        ]
    );
}

#[test]
fn no_comparisons_no_lines() {
    assert!(render_changes(&Vec::new()).is_empty());
}

#[test]
fn legend_names_the_registers() {
    assert_eq!(
        legend(),
        vec![
            "Watchdog control registers inspected:",
            "- LP_WDT base: 0x600B1C00 (RWDT control)",
            "- TIMG0 base: 0x60008000 (MWDT0 control)",
            "- TIMG1 base: 0x60009000 (MWDT1 control)",
            "- Key register field: wdtconfig0.wdt_en (bit 31)",
        ]
    );
}

#[test]
fn different_values_have_different_texts() {
    let values: [u32; 6] = [0, 1, 0x10, 0x8000_0000, 0x0800_0000, 0xffff_ffff];
    for a in values {
        for b in values {
            assert_eq!(render_hex(a) == render_hex(b), a == b);
        }
    }
}

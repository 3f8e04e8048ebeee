use watchdog_probe::sequence::{Action, Event, Phase, IDLE_WAKE_MILLIS};

fn registers(rwdt: u32, timg0: u32, timg1: u32) -> Event {
    Event::Registers { rwdt, timg0, timg1 }
}

#[test]
fn a_run_opens_with_the_title() {
    let (phase, lines) = Phase::start();
    assert!(matches!(phase, Phase::AwaitBefore));
    assert_eq!(phase.pending(), Action::ReadRegisters);
    assert_eq!(
        lines,
        vec![
            "ESP32-C6 Watchdog Test - Checking WDT status before and after esp_hal::init()",
            "======================================================================",
            "",
            "Checking watchdog status BEFORE esp_hal::init():",
        ]
    );
}

#[test]
fn a_run_in_order_prints_the_whole_report() {
    let (phase, _) = Phase::start();

    let (phase, lines) = phase.step(registers(0x8000_0000, 0x0004_c000, 0x0000_0000));
    assert!(matches!(phase, Phase::AwaitInit { .. }));
    assert_eq!(phase.pending(), Action::Initialize);
    assert_eq!(
        lines,
        vec![
            "RWDT enabled: true, config0: 0x80000000",
            "TIMG0 MWDT enabled: false, config0: 0x0004c000",
            "TIMG1 MWDT enabled: false, config0: 0x00000000",
            "",
            "==> Calling esp_hal::init() with default config...",
        ]
    );

    let (phase, lines) = phase.step(Event::Initialized);
    assert!(matches!(phase, Phase::AwaitAfter { .. }));
    assert_eq!(phase.pending(), Action::ReadRegisters);
    assert_eq!(lines, vec!["", "Checking watchdog status AFTER esp_hal::init():"]);

    let (phase, lines) = phase.step(registers(0x0000_0000, 0x0004_c000, 0x8000_0010));
    assert!(matches!(phase, Phase::Idle));
    assert_eq!(phase.pending(), Action::Idle { millis: 500 });
    assert_eq!(
        lines,
        vec![
            "RWDT enabled: false, config0: 0x00000000",
            "TIMG0 MWDT enabled: false, config0: 0x0004c000",
            "TIMG1 MWDT enabled: true, config0: 0x80000010",
            "",
            "Changes after esp_hal::init():",
            "  RWDT status changed: true -> false",
            "  RWDT config0 changed: 0x80000000 -> 0x00000000",
            "  TIMG0 MWDT status unchanged: false",
            "  TIMG0 MWDT config0 unchanged: 0x0004c000",
            "  TIMG1 MWDT status changed: false -> true",
            "  TIMG1 MWDT config0 changed: 0x00000000 -> 0x80000010",
            "",
            "Watchdog control registers inspected:",
            "- LP_WDT base: 0x600B1C00 (RWDT control)",
            "- TIMG0 base: 0x60008000 (MWDT0 control)",
            "- TIMG1 base: 0x60009000 (MWDT1 control)",
            "- Key register field: wdtconfig0.wdt_en (bit 31)",
        ]
    );
}

#[test]
fn the_first_pass_is_kept_through_the_initialization() {
    let (phase, _) = Phase::start();
    let (phase, _) = phase.step(registers(1, 2, 3));
    match &phase {
        Phase::AwaitInit { before } => {
            assert_eq!(
                before.render(),
                vec![
                    "RWDT enabled: false, config0: 0x00000001",
                    "TIMG0 MWDT enabled: false, config0: 0x00000002",
                    "TIMG1 MWDT enabled: false, config0: 0x00000003",
                ]
            );
        }
        other => panic!("unexpected phase {:?}", other),
    }
    let (phase, _) = phase.step(Event::Initialized);
    match &phase {
        Phase::AwaitAfter { before } => {
            assert_eq!(before.render()[2], "TIMG1 MWDT enabled: false, config0: 0x00000003");
        }
        other => panic!("unexpected phase {:?}", other),
    }
}

#[test]
fn an_event_out_of_turn_changes_nothing() {
    let (phase, _) = Phase::start();
    let (phase, lines) = phase.step(Event::Initialized);
    assert!(matches!(phase, Phase::AwaitBefore));
    assert!(lines.is_empty());
    let (phase, lines) = phase.step(Event::Woke);
    assert!(matches!(phase, Phase::AwaitBefore));
    assert!(lines.is_empty());

    let (phase, _) = phase.step(registers(0, 0, 0));
    let (phase, lines) = phase.step(registers(9, 9, 9));
    assert!(matches!(phase, Phase::AwaitInit { .. }));
    assert_eq!(phase.pending(), Action::Initialize);
    assert!(lines.is_empty());
    let (phase, lines) = phase.step(Event::Woke);
    assert!(matches!(phase, Phase::AwaitInit { .. }));
    assert!(lines.is_empty());

    let (phase, _) = phase.step(Event::Initialized);
    let (phase, lines) = phase.step(Event::Initialized);
    assert!(matches!(phase, Phase::AwaitAfter { .. }));
    assert_eq!(phase.pending(), Action::ReadRegisters);
    assert!(lines.is_empty());
}

#[test]
fn idle_reads_nothing_more() {
    let (phase, _) = Phase::start();
    let (phase, _) = phase.step(registers(0, 0, 0));
    let (phase, _) = phase.step(Event::Initialized);
    let (mut phase, _) = phase.step(registers(0, 0, 0));
    for event in [Event::Woke, registers(1, 2, 3), Event::Initialized, Event::Woke] {
        let (next, lines) = phase.step(event);
        assert!(matches!(next, Phase::Idle));
        assert_eq!(next.pending(), Action::Idle { millis: 500 });
        assert!(lines.is_empty());
        phase = next;
    }
}

#[test]
fn idle_wakes_every_half_second() {
    assert_eq!(IDLE_WAKE_MILLIS, 500);
}

#[test]
fn a_fault_halts_for_good() {
    let mut phase = watchdog_probe::sequence::panic();
    assert!(matches!(phase, Phase::Halted));
    assert_eq!(phase.pending(), Action::Halt);
    for event in [Event::Woke, registers(1, 2, 3), Event::Initialized] {
        let (next, lines) = phase.step(event);
        assert!(matches!(next, Phase::Halted));
        assert_eq!(next.pending(), Action::Halt);
        assert!(lines.is_empty());
        phase = next;
    }
}

//! The order of one diagnostic run, as a state machine.
//!
//! The machine reads no register and calls no initialization itself. Each
//! phase waits for one thing that the caller does; the caller reports it as
//! an event and gets back the next phase and the lines to print. A run goes
//! through the phases in one order only: read the registers, initialize,
//! read the registers again, then idle for good.

use vstd::prelude::*;
use vstd::string::*;
use crate::report::{change_lines, legend, legend_lines, snapshot_lines, text_of};
use crate::snapshot::{captured, compared_all, render_changes, Snapshot};
use crate::status::StatusView;

verus! {

/// The time between two wakes of the idle phase, in milliseconds.
pub const IDLE_WAKE_MILLIS: u64 = 500;

/// What the caller has to do for a phase.
#[derive(Clone, Copy, Debug, PartialEq, Eq, Structural)]
pub enum Action {
    /// Read the registers of the monitored units, in order.
    ReadRegisters,
    /// Run the platform initialization, once.
    Initialize,
    /// Wait for `millis` milliseconds, then report the wake.
    Idle { millis: u64 },
    /// Stop for good.
    Halt,
}

/// What the caller reports back.
#[derive(Clone, Copy, Debug, PartialEq, Eq, Structural)]
pub enum Event {
    /// The registers of the monitored units were read.
    Registers { rwdt: u32, timg0: u32, timg1: u32 },
    /// The platform initialization returned.
    Initialized,
    /// The idle wait is over.
    Woke,
}

/// Where a run stands.
#[derive(Debug)]
pub enum Phase {
    /// Waiting for the first pass over the registers.
    AwaitBefore,
    /// Waiting for the platform initialization to return.
    AwaitInit { before: Snapshot },
    /// Waiting for the second pass over the registers.
    AwaitAfter { before: Snapshot },
    /// The report is out; nothing more is read.
    Idle,
    /// Stopped after a fault.
    Halted,
}

/// A phase as a plain value for contracts.
pub enum PhaseView {
    AwaitBefore,
    AwaitInit { before: Seq<StatusView> },
    AwaitAfter { before: Seq<StatusView> },
    Idle,
    Halted,
}

/// The lines that open a report.
pub open spec fn opening_lines() -> Seq<Seq<char>> {
    seq![
        "ESP32-C6 Watchdog Test - Checking WDT status before and after esp_hal::init()"@,
        "======================================================================"@,
        ""@,
        "Checking watchdog status BEFORE esp_hal::init():"@,
    ]
}

/// The lines that follow the first pass over the registers.
pub open spec fn before_lines(before: Seq<StatusView>) -> Seq<Seq<char>> {
    snapshot_lines(before) + seq![""@, "==> Calling esp_hal::init() with default config..."@]
}

/// The lines that follow the initialization.
pub open spec fn initialized_lines() -> Seq<Seq<char>> {
    seq![""@, "Checking watchdog status AFTER esp_hal::init():"@]
}

/// The lines that follow the second pass over the registers: the new
/// statuses, what changed for each unit, and the legend.
pub open spec fn after_lines(before: Seq<StatusView>, after: Seq<StatusView>) -> Seq<Seq<char>> {
    snapshot_lines(after) + seq![""@, "Changes after esp_hal::init():"@] + change_lines(
        compared_all(before, after),
    ) + seq![""@] + legend_lines()
}

impl PhaseView {
    /// What the caller has to do for the phase.
    pub open spec fn pending(self) -> Action {
        match self {
            PhaseView::AwaitBefore => Action::ReadRegisters,
            PhaseView::AwaitInit { .. } => Action::Initialize,
            PhaseView::AwaitAfter { .. } => Action::ReadRegisters,
            PhaseView::Idle => Action::Idle { millis: IDLE_WAKE_MILLIS },
            PhaseView::Halted => Action::Halt,
        }
    }

    /// The phase that follows when `event` is reported. An event that the
    /// phase does not wait for leaves it as it is.
    pub open spec fn next(self, event: Event) -> PhaseView {
        match (self, event) {
            (PhaseView::AwaitBefore, Event::Registers { rwdt, timg0, timg1 }) => {
                PhaseView::AwaitInit { before: captured(rwdt, timg0, timg1) }
            },
            (PhaseView::AwaitInit { before }, Event::Initialized) => {
                PhaseView::AwaitAfter { before }
            },
            (PhaseView::AwaitAfter { before }, Event::Registers { .. }) => PhaseView::Idle,
            _ => self,
        }
    }

    /// The lines to print when `event` is reported. An event that the phase
    /// does not wait for prints nothing.
    pub open spec fn emitted(self, event: Event) -> Seq<Seq<char>> {
        match (self, event) {
            (PhaseView::AwaitBefore, Event::Registers { rwdt, timg0, timg1 }) => {
                before_lines(captured(rwdt, timg0, timg1))
            },
            (PhaseView::AwaitInit { before }, Event::Initialized) => initialized_lines(),
            (PhaseView::AwaitAfter { before }, Event::Registers { rwdt, timg0, timg1 }) => {
                after_lines(before, captured(rwdt, timg0, timg1))
            },
            _ => Seq::empty(),
        }
    }
}

impl View for Phase {
    type V = PhaseView;

    open spec fn view(&self) -> PhaseView {
        match self {
            Phase::AwaitBefore => PhaseView::AwaitBefore,
            Phase::AwaitInit { before } => PhaseView::AwaitInit { before: before@ },
            Phase::AwaitAfter { before } => PhaseView::AwaitAfter { before: before@ },
            Phase::Idle => PhaseView::Idle,
            Phase::Halted => PhaseView::Halted,
        }
    }
}

/// Adds one line of fixed text.
fn push_line(lines: &mut Vec<String>, text: &str)
    ensures
        text_of(final(lines)@) == text_of(old(lines)@).push(text@),
{
    lines.push(String::from_str(text));
    assert(text_of(lines@) =~= text_of(old(lines)@).push(text@));
}

/// Adds the lines of `more`, in order.
fn push_lines(lines: &mut Vec<String>, more: Vec<String>)
    ensures
        text_of(final(lines)@) == text_of(old(lines)@) + text_of(more@),
{
    let mut more = more;
    let ghost added = more@;
    lines.append(&mut more);
    assert(text_of(lines@) =~= text_of(old(lines)@) + text_of(added));
}

impl Phase {
    /// Begins a run: the first phase, and the lines that open the report.
    pub fn start() -> (begun: (Phase, Vec<String>))
        ensures
            begun.0@ == PhaseView::AwaitBefore,
            text_of(begun.1@) == opening_lines(),
    {
        let mut lines: Vec<String> = Vec::new();
        assert(text_of(lines@) =~= Seq::<Seq<char>>::empty());
        push_line(
            &mut lines,
            "ESP32-C6 Watchdog Test - Checking WDT status before and after esp_hal::init()",
        );
        push_line(
            &mut lines,
            "======================================================================",
        );
        push_line(&mut lines, "");
        push_line(&mut lines, "Checking watchdog status BEFORE esp_hal::init():");
        assert(text_of(lines@) =~= opening_lines());
        (Phase::AwaitBefore, lines)
    }

    /// What the caller has to do for the phase.
    pub fn pending(&self) -> (action: Action)
        ensures
            action == self@.pending(),
    {
        match self {
            Phase::AwaitBefore => Action::ReadRegisters,
            Phase::AwaitInit { .. } => Action::Initialize,
            Phase::AwaitAfter { .. } => Action::ReadRegisters,
            Phase::Idle => Action::Idle { millis: IDLE_WAKE_MILLIS },
            Phase::Halted => Action::Halt,
        }
    }

    /// Takes one event: gives the next phase and the lines to print.
    pub fn step(self, event: Event) -> (stepped: (Phase, Vec<String>))
        ensures
            stepped.0@ == self@.next(event),
            text_of(stepped.1@) == self@.emitted(event),
    {
        let mut lines: Vec<String> = Vec::new();
        assert(text_of(lines@) =~= Seq::<Seq<char>>::empty());
        match (self, event) {
            (Phase::AwaitBefore, Event::Registers { rwdt, timg0, timg1 }) => {
                let before = Snapshot::from_raw(rwdt, timg0, timg1);
                push_lines(&mut lines, before.render());
                push_line(&mut lines, "");
                push_line(&mut lines, "==> Calling esp_hal::init() with default config...");
                assert(text_of(lines@) =~= before_lines(before@));
                (Phase::AwaitInit { before }, lines)
            },
            (Phase::AwaitInit { before }, Event::Initialized) => {
                push_line(&mut lines, "");
                push_line(&mut lines, "Checking watchdog status AFTER esp_hal::init():");
                assert(text_of(lines@) =~= initialized_lines());
                (Phase::AwaitAfter { before }, lines)
            },
            (Phase::AwaitAfter { before }, Event::Registers { rwdt, timg0, timg1 }) => {
                let after = Snapshot::from_raw(rwdt, timg0, timg1);
                let diffs = before.diff(&after);
                push_lines(&mut lines, after.render());
                push_line(&mut lines, "");
                push_line(&mut lines, "Changes after esp_hal::init():");
                push_lines(&mut lines, render_changes(&diffs));
                push_line(&mut lines, "");
                push_lines(&mut lines, legend());
                assert(text_of(lines@) =~= after_lines(before@, after@));
                (Phase::Idle, lines)
            },
            (phase, _) => (phase, lines),
        }
    }
}

/// What the program does on a fault that it cannot handle: it stops for
/// good, with no recovery, no retry and nothing more reported.
pub fn panic() -> (halted: Phase)
    ensures
        halted@ == PhaseView::Halted,
        halted@.pending() == Action::Halt,
{
    Phase::Halted
}

/// A run that is told of the first pass, the initialization and the second
/// pass, in that order, ends in the idle phase, and asks for the
/// initialization exactly between the two passes.
pub proof fn lemma_run_in_order_ends_idle(first: Event, second: Event)
    requires
        first is Registers,
        second is Registers,
    ensures
        PhaseView::AwaitBefore.pending() == Action::ReadRegisters,
        PhaseView::AwaitBefore.next(first).pending() == Action::Initialize,
        PhaseView::AwaitBefore.next(first).next(Event::Initialized).pending()
            == Action::ReadRegisters,
        PhaseView::AwaitBefore.next(first).next(Event::Initialized).next(second)
            == PhaseView::Idle,
{
}

/// The initialization is asked for only after the first pass over the
/// registers, and never again once it has returned.
pub proof fn lemma_initialize_only_after_first_pass(phase: PhaseView, event: Event)
    ensures
        phase.next(event).pending() == Action::Initialize ==> (phase is AwaitBefore
            && event is Registers) || (phase is AwaitInit && !(event is Initialized)),
        (phase is AwaitAfter || phase is Idle || phase is Halted) ==> phase.next(event).pending()
            != Action::Initialize,
{
}

/// The second pass is compared with the first pass that the run began
/// with: the first snapshot is carried unchanged through the initialization.
pub proof fn lemma_first_pass_is_kept(first: Event, second: Event)
    requires
        first is Registers,
        second is Registers,
    ensures
        PhaseView::AwaitBefore.next(first).next(Event::Initialized).emitted(second) == after_lines(
            captured(first->rwdt, first->timg0, first->timg1),
            captured(second->rwdt, second->timg0, second->timg1),
        ),
{
}

/// Once a run idles or is halted, no event moves it or prints anything.
pub proof fn lemma_settled_phases_stay(phase: PhaseView, event: Event)
    requires
        phase is Idle || phase is Halted,
    ensures
        phase.next(event) == phase,
        phase.emitted(event) == Seq::<Seq<char>>::empty(),
{
}

/// An event that prints nothing leaves the phase as it is.
pub proof fn lemma_silent_event_keeps_phase(phase: PhaseView, event: Event)
    ensures
        phase.next(event) != phase ==> phase.emitted(event).len() > 0,
{
    match (phase, event) {
        (PhaseView::AwaitBefore, Event::Registers { rwdt, timg0, timg1 }) => {
            assert(before_lines(captured(rwdt, timg0, timg1)).len() > 0);
        },
        (PhaseView::AwaitInit { before }, Event::Initialized) => {
            assert(initialized_lines().len() > 0);
        },
        (PhaseView::AwaitAfter { before }, Event::Registers { rwdt, timg0, timg1 }) => {
            assert(after_lines(before, captured(rwdt, timg0, timg1)).len() > 0);
        },
        _ => {},
    }
}

} // verus!

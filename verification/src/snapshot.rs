//! A snapshot: the statuses of the monitored units, captured in one pass,
//! and the comparison of two snapshots unit by unit.
//!
//! The monitored units are RWDT and the two timer-group watchdogs, in that
//! order. The super watchdog can be decoded on its own but is not part of
//! a snapshot.

use vstd::prelude::*;
use vstd::string::*;
use crate::diff::{compared, diff, DiffResult};
use crate::report::{change_lines, flag_line, raw_line, render_flag_change, render_raw_change,
    render_status, snapshot_lines, status_line, text_of};
use crate::status::{decoded, StatusView, WatchdogStatus};
use crate::unit::WatchdogUnit;

verus! {

/// The units that a snapshot holds, in the order in which they are read.
pub open spec fn monitored_units() -> Seq<WatchdogUnit> {
    seq![WatchdogUnit::Rwdt, WatchdogUnit::Timg0Mwdt, WatchdogUnit::Timg1Mwdt]
}

/// The snapshot that three raw register values decode to.
pub open spec fn captured(rwdt: u32, timg0: u32, timg1: u32) -> Seq<StatusView> {
    seq![
        decoded(WatchdogUnit::Rwdt, rwdt),
        decoded(WatchdogUnit::Timg0Mwdt, timg0),
        decoded(WatchdogUnit::Timg1Mwdt, timg1),
    ]
}

/// The comparison of two snapshots, unit by unit.
pub open spec fn compared_all(before: Seq<StatusView>, after: Seq<StatusView>) -> Seq<DiffResult> {
    Seq::new(before.len(), |i: int| compared(before[i], after[i]))
}

/// Whether `statuses` holds one status per monitored unit, in order.
pub open spec fn covers_monitored_units(statuses: Seq<StatusView>) -> bool {
    &&& statuses.len() == monitored_units().len()
    &&& forall|i: int| 0 <= i < statuses.len() ==> (#[trigger] statuses[i]).unit == monitored_units()[i]
}

/// The units that a snapshot holds, in the order in which they are read.
pub fn monitored() -> (units: Vec<WatchdogUnit>)
    ensures
        units@ == monitored_units(),
{
    let mut units: Vec<WatchdogUnit> = Vec::new();
    units.push(WatchdogUnit::Rwdt);
    units.push(WatchdogUnit::Timg0Mwdt);
    units.push(WatchdogUnit::Timg1Mwdt);
    assert(units@ =~= monitored_units());
    units
}

/// One status per monitored unit. It does not change once it is made.
#[derive(Debug)]
pub struct Snapshot {
    statuses: Vec<WatchdogStatus>,
}

impl View for Snapshot {
    type V = Seq<StatusView>;

    closed spec fn view(&self) -> Seq<StatusView> {
        Seq::new(self.statuses@.len(), |i: int| self.statuses@[i]@)
    }
}

impl Snapshot {
    #[verifier::type_invariant]
    closed spec fn one_status_per_unit(self) -> bool {
        covers_monitored_units(self@)
    }

    /// Decodes the three raw values of one pass over the registers.
    pub fn from_raw(rwdt: u32, timg0: u32, timg1: u32) -> (snapshot: Snapshot)
        ensures
            snapshot@ == captured(rwdt, timg0, timg1),
            covers_monitored_units(snapshot@),
    {
        let mut statuses: Vec<WatchdogStatus> = Vec::new();
        statuses.push(WatchdogStatus::decode(WatchdogUnit::Rwdt, rwdt));
        statuses.push(WatchdogStatus::decode(WatchdogUnit::Timg0Mwdt, timg0));
        statuses.push(WatchdogStatus::decode(WatchdogUnit::Timg1Mwdt, timg1));
        let snapshot = Snapshot { statuses };
        assert(snapshot@ =~= captured(rwdt, timg0, timg1));
        snapshot
    }

    /// The status of `unit`, if the snapshot holds that unit.
    pub fn get(&self, unit: WatchdogUnit) -> (found: Option<WatchdogStatus>)
        ensures
            covers_monitored_units(self@),
            match found {
                Some(status) => exists|i: int|
                    0 <= i < self@.len() && monitored_units()[i] == unit && status@ == self@[i],
                None => !monitored_units().contains(unit),
            },
    {
        proof {
            use_type_invariant(self);
        }
        let index: usize = match unit {
            WatchdogUnit::Rwdt => 0,
            WatchdogUnit::Timg0Mwdt => 1,
            WatchdogUnit::Timg1Mwdt => 2,
            WatchdogUnit::Swd => {
                return None;
            },
        };
        assert(monitored_units()[index as int] == unit);
        let status = self.statuses[index];
        assert(status@ == self@[index as int]);
        Some(status)
    }

    /// Compares the snapshot with a later one, unit by unit.
    pub fn diff(&self, after: &Snapshot) -> (results: Vec<DiffResult>)
        ensures
            results@ == compared_all(self@, after@),
            results@.len() == monitored_units().len(),
            forall|i: int| 0 <= i < results@.len() ==> results@[i].unit == monitored_units()[i],
    {
        proof {
            use_type_invariant(self);
            use_type_invariant(after);
        }
        let mut results: Vec<DiffResult> = Vec::new();
        let mut i: usize = 0;
        while i < self.statuses.len()
            invariant
                i <= self.statuses@.len(),
                covers_monitored_units(self@),
                covers_monitored_units(after@),
                results@.len() == i,
                forall|k: int| 0 <= k < i ==> results@[k] == compared(self@[k], after@[k]),
            decreases self.statuses@.len() - i,
        {
            assert(self@[i as int].unit == after@[i as int].unit);
            let result = diff(&self.statuses[i], &after.statuses[i]);
            results.push(result);
            i = i + 1;
        }
        assert(results@ =~= compared_all(self@, after@));
        results
    }

    /// Writes one line per status, in the order of the units.
    pub fn render(&self) -> (lines: Vec<String>)
        ensures
            text_of(lines@) == snapshot_lines(self@),
    {
        let mut lines: Vec<String> = Vec::new();
        let mut i: usize = 0;
        while i < self.statuses.len()
            invariant
                i <= self.statuses@.len(),
                lines@.len() == i,
                forall|k: int| 0 <= k < i ==> lines@[k]@ == status_line(self@[k]),
            decreases self.statuses@.len() - i,
        {
            let line = render_status(&self.statuses[i]);
            lines.push(line);
            i = i + 1;
        }
        assert(text_of(lines@) =~= snapshot_lines(self@));
        lines
    }
}

/// Writes two lines per comparison: first the one on the enabled flag, then
/// the one on the raw value.
pub fn render_changes(diffs: &Vec<DiffResult>) -> (lines: Vec<String>)
    ensures
        text_of(lines@) == change_lines(diffs@),
{
    let mut lines: Vec<String> = Vec::new();
    let mut i: usize = 0;
    while i < diffs.len()
        invariant
            i <= diffs@.len(),
            lines@.len() == 2 * i,
            forall|k: int| 0 <= k < i ==> lines@[2 * k]@ == flag_line(diffs@[k]),
            forall|k: int| 0 <= k < i ==> lines@[2 * k + 1]@ == raw_line(diffs@[k]),
        decreases diffs@.len() - i,
    {
        let flag = render_flag_change(&diffs[i]);
        let raw = render_raw_change(&diffs[i]);
        lines.push(flag);
        lines.push(raw);
        i = i + 1;
    }
    assert forall|j: int| 0 <= j < lines@.len() implies text_of(lines@)[j] == change_lines(
        diffs@,
    )[j] by {
        let k = j / 2;
        if j % 2 == 0 {
            assert(j == 2 * k);
        } else {
            assert(j == 2 * k + 1);
        }
    }
    assert(text_of(lines@) =~= change_lines(diffs@));
    lines
}

} // verus!

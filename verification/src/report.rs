//! The text of the report: one line per status, two lines per comparison,
//! and the legend of the registers that were read.
//!
//! Raw values are always written as `0x` and eight lower-case hexadecimal
//! digits, so that two of them can be compared by eye.

use vstd::prelude::*;
use vstd::string::*;
use crate::diff::DiffResult;
use crate::status::{StatusView, WatchdogStatus};

verus! {

/// The lower-case hexadecimal digit for `n`, where `0 <= n < 16`.
pub open spec fn hex_digit(n: int) -> char {
    "0123456789abcdef"@[n]
}

/// The last `width` hexadecimal digits of `value`, most significant first,
/// padded with zeros on the left.
pub open spec fn hex_digits(value: nat, width: nat) -> Seq<char>
    decreases width,
{
    if width == 0 {
        Seq::empty()
    } else {
        hex_digits(value / 16, (width - 1) as nat).push(hex_digit((value % 16) as int))
    }
}

/// A raw register value as text: `0x` and eight hexadecimal digits.
pub open spec fn hex_text(raw: u32) -> Seq<char> {
    "0x"@ + hex_digits(raw as nat, 8)
}

/// A flag as text.
pub open spec fn bool_text(flag: bool) -> Seq<char> {
    if flag {
        "true"@
    } else {
        "false"@
    }
}

/// The line that shows one status.
pub open spec fn status_line(status: StatusView) -> Seq<char> {
    status.unit.spec_name() + " enabled: "@ + bool_text(status.enabled) + ", config0: "@
        + hex_text(status.raw)
}

/// The line that says whether the enabled flag changed.
pub open spec fn flag_line(diff: DiffResult) -> Seq<char> {
    if diff.enabled_changed {
        "  "@ + diff.unit.spec_name() + " status changed: "@ + bool_text(diff.before_enabled)
            + " -> "@ + bool_text(diff.after_enabled)
    } else {
        "  "@ + diff.unit.spec_name() + " status unchanged: "@ + bool_text(diff.before_enabled)
    }
}

/// The line that says whether the raw register value changed.
pub open spec fn raw_line(diff: DiffResult) -> Seq<char> {
    if diff.raw_changed {
        "  "@ + diff.unit.spec_name() + " config0 changed: "@ + hex_text(diff.before_raw)
            + " -> "@ + hex_text(diff.after_raw)
    } else {
        "  "@ + diff.unit.spec_name() + " config0 unchanged: "@ + hex_text(diff.before_raw)
    }
}

/// The text of each of `lines`.
pub open spec fn text_of(lines: Seq<String>) -> Seq<Seq<char>> {
    Seq::new(lines.len(), |i: int| lines[i]@)
}

/// One line per status, in order.
pub open spec fn snapshot_lines(statuses: Seq<StatusView>) -> Seq<Seq<char>> {
    Seq::new(statuses.len(), |i: int| status_line(statuses[i]))
}

/// Two lines per comparison, in order: the line on the enabled flag, then
/// the line on the raw value.
pub open spec fn change_lines(diffs: Seq<DiffResult>) -> Seq<Seq<char>> {
    Seq::new(
        2 * diffs.len(),
        |i: int|
            if i % 2 == 0 {
                flag_line(diffs[i / 2])
            } else {
                raw_line(diffs[i / 2])
            },
    )
}

/// The legend that closes a report: the registers that were read and the
/// field that was decoded.
pub open spec fn legend_lines() -> Seq<Seq<char>> {
    seq![
        "Watchdog control registers inspected:"@,
        "- LP_WDT base: 0x600B1C00 (RWDT control)"@,
        "- TIMG0 base: 0x60008000 (MWDT0 control)"@,
        "- TIMG1 base: 0x60009000 (MWDT1 control)"@,
        "- Key register field: wdtconfig0.wdt_en (bit 31)"@,
    ]
}

/// The text of one hexadecimal digit.
fn hex_digit_str(n: u32) -> (text: &'static str)
    requires
        n < 16,
    ensures
        text@ == seq![hex_digit(n as int)],
{
    let digits: &'static str = "0123456789abcdef";
    proof {
        reveal_strlit("0123456789abcdef");
    }
    let from: usize = n as usize;
    let text = digits.substring_ascii(from, from + 1);
    assert(text@ =~= seq![hex_digit(n as int)]);
    text
}

/// The text of a flag: `true` or `false`.
pub fn render_bool(flag: bool) -> (text: &'static str)
    ensures
        text@ == bool_text(flag),
{
    if flag {
        "true"
    } else {
        "false"
    }
}

/// Dropping the lowest hexadecimal digit of `raw >> shift` leaves
/// `raw >> (shift + 4)`, and masking with `0xf` gives that digit.
proof fn lemma_shifted_digits(raw: u32, shift: u32)
    by (bit_vector)
    requires
        shift <= 28,
    ensures
        shift <= 24 ==> (raw >> shift) / 16 == raw >> ((shift + 4) as u32),
        (raw >> shift) % 16 == (raw >> shift) & 0xf,
        (raw >> shift) & 0xf < 16,
{
}

/// Writes a raw register value as `0x` and eight hexadecimal digits.
pub fn render_hex(raw: u32) -> (text: String)
    ensures
        text@ == hex_text(raw),
        text@.len() == 10,
{
    let mut text = String::from_str("0x");
    let mut done: u32 = 0;
    let ghost mut top: u32 = 0;
    while done < 8
        invariant
            done <= 8,
            done > 0 ==> top == raw >> ((32 - 4 * done) as u32),
            text@ == "0x"@ + hex_digits(top as nat, done as nat),
        decreases 8 - done,
    {
        let shift: u32 = 28 - 4 * done;
        let next: u32 = raw >> shift;
        let digit: u32 = next & 0xf;
        proof {
            lemma_shifted_digits(raw, shift);
            assert(hex_digits((next / 16) as nat, done as nat) == hex_digits(
                top as nat,
                done as nat,
            ));
            assert(("0x"@ + hex_digits(top as nat, done as nat)) + seq![hex_digit(digit as int)]
                =~= "0x"@ + hex_digits(next as nat, (done + 1) as nat));
            top = next;
        }
        text.append(hex_digit_str(digit));
        done = done + 1;
    }
    proof {
        assert(raw >> 0u32 == raw) by (bit_vector);
        lemma_hex_digits_len(raw as nat, 8);
        reveal_strlit("0x");
    }
    text
}

/// `hex_digits` gives exactly `width` digits.
pub proof fn lemma_hex_digits_len(value: nat, width: nat)
    ensures
        hex_digits(value, width).len() == width,
    decreases width,
{
    if width > 0 {
        lemma_hex_digits_len(value / 16, (width - 1) as nat);
    }
}

/// The least number that does not fit in `width` hexadecimal digits.
pub open spec fn hex_limit(width: nat) -> nat
    decreases width,
{
    if width == 0 {
        1
    } else {
        16 * hex_limit((width - 1) as nat)
    }
}

/// Two numbers that fit in `width` digits and are written with the same
/// digits are the same number.
pub proof fn lemma_hex_digits_tell_apart(a: nat, b: nat, width: nat)
    requires
        a < hex_limit(width),
        b < hex_limit(width),
        hex_digits(a, width) == hex_digits(b, width),
    ensures
        a == b,
    decreases width,
{
    if width > 0 {
        let shorter = (width - 1) as nat;
        let head_a = hex_digits(a / 16, shorter);
        let head_b = hex_digits(b / 16, shorter);
        let last_a = hex_digit((a % 16) as int);
        let last_b = hex_digit((b % 16) as int);
        assert(head_a.push(last_a).last() == last_a);
        assert(head_b.push(last_b).last() == last_b);
        assert(head_a.push(last_a).drop_last() =~= head_a);
        assert(head_b.push(last_b).drop_last() =~= head_b);
        assert(a % 16 == b % 16) by {
            reveal_strlit("0123456789abcdef");
        }
        lemma_hex_digits_tell_apart(a / 16, b / 16, shorter);
    }
}

/// Two raw values are written as the same text only if they are the same
/// value: a line that shows two texts shows two different ones exactly when
/// the raw value changed.
pub proof fn lemma_hex_text_tells_apart(before: u32, after: u32)
    ensures
        (hex_text(before) == hex_text(after)) == (before == after),
{
    if hex_text(before) == hex_text(after) {
        let digits_before = hex_digits(before as nat, 8);
        let digits_after = hex_digits(after as nat, 8);
        reveal_strlit("0x");
        assert(digits_before =~= hex_text(before).subrange(2, hex_text(before).len() as int));
        assert(digits_after =~= hex_text(after).subrange(2, hex_text(after).len() as int));
        assert(hex_limit(8) == 0x1_0000_0000) by {
            reveal_with_fuel(hex_limit, 9);
        }
        lemma_hex_digits_tell_apart(before as nat, after as nat, 8);
    }
}

/// Writes the line that shows one status.
pub fn render_status(status: &WatchdogStatus) -> (line: String)
    ensures
        line@ == status_line(status@),
{
    let mut line = String::from_str(status.unit().name());
    line.append(" enabled: ");
    line.append(render_bool(status.enabled()));
    line.append(", config0: ");
    let raw = render_hex(status.raw());
    line.append(raw.as_str());
    line
}

/// Writes the line that says whether the enabled flag changed.
pub fn render_flag_change(diff: &DiffResult) -> (line: String)
    ensures
        line@ == flag_line(*diff),
{
    let mut line = String::from_str("  ");
    line.append(diff.unit.name());
    if diff.enabled_changed {
        line.append(" status changed: ");
        line.append(render_bool(diff.before_enabled));
        line.append(" -> ");
        line.append(render_bool(diff.after_enabled));
    } else {
        line.append(" status unchanged: ");
        line.append(render_bool(diff.before_enabled));
    }
    line
}

/// Writes the line that says whether the raw register value changed.
pub fn render_raw_change(diff: &DiffResult) -> (line: String)
    ensures
        line@ == raw_line(*diff),
{
    let mut line = String::from_str("  ");
    line.append(diff.unit.name());
    let before = render_hex(diff.before_raw);
    if diff.raw_changed {
        line.append(" config0 changed: ");
        line.append(before.as_str());
        line.append(" -> ");
        let after = render_hex(diff.after_raw);
        line.append(after.as_str());
    } else {
        line.append(" config0 unchanged: ");
        line.append(before.as_str());
    }
    line
}

/// Writes the legend that closes a report.
pub fn legend() -> (lines: Vec<String>)
    ensures
        text_of(lines@) == legend_lines(),
{
    let mut lines: Vec<String> = Vec::new();
    lines.push(String::from_str("Watchdog control registers inspected:"));
    lines.push(String::from_str("- LP_WDT base: 0x600B1C00 (RWDT control)"));
    lines.push(String::from_str("- TIMG0 base: 0x60008000 (MWDT0 control)"));
    lines.push(String::from_str("- TIMG1 base: 0x60009000 (MWDT1 control)"));
    lines.push(String::from_str("- Key register field: wdtconfig0.wdt_en (bit 31)"));
    assert(text_of(lines@) =~= legend_lines());
    lines
}

} // verus!

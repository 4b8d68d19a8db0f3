//! What every walkthrough shares: status messages, step definitions, the log of
//! operations performed, and the texts the panels show.
use vstd::prelude::*;
use crate::encoding::{decimal_chars, hex_preview, hex_preview_spec, push_decimal_str};

verus! {

/// The tone of a status message.
#[derive(Clone, Copy, Debug, PartialEq, Eq, Structural)]
pub enum StatusKind {
    Info,
    Success,
    Failure,
}

/// A status message: its tone and its text.
#[derive(Clone, Debug)]
pub struct StatusMsg {
    pub kind: StatusKind,
    pub text: String,
}

/// What a contract says of a status message.
pub type StatusModel = (StatusKind, Seq<char>);

impl View for StatusMsg {
    type V = StatusModel;

    open spec fn view(&self) -> StatusModel {
        (self.kind, self.text@)
    }
}

impl StatusMsg {
    /// An informational message.
    pub fn info(text: String) -> (m: StatusMsg)
        ensures
            m@ == (StatusKind::Info, text@),
    {
        StatusMsg { kind: StatusKind::Info, text }
    }

    /// A success message.
    pub fn ok(text: String) -> (m: StatusMsg)
        ensures
            m@ == (StatusKind::Success, text@),
    {
        StatusMsg { kind: StatusKind::Success, text }
    }

    /// A failure message.
    pub fn err(text: String) -> (m: StatusMsg)
        ensures
            m@ == (StatusKind::Failure, text@),
    {
        StatusMsg { kind: StatusKind::Failure, text }
    }
}

/// A step of a walkthrough: its title and why it matters.
#[derive(Clone, Copy, Debug)]
pub struct StepDef {
    pub title: &'static str,
    pub why: &'static str,
}

/// The titles of a list of steps.
pub open spec fn step_titles(steps: Seq<StepDef>) -> Seq<Seq<char>> {
    steps.map_values(|d: StepDef| d.title@)
}

/// The explanations of a list of steps.
pub open spec fn step_whys(steps: Seq<StepDef>) -> Seq<Seq<char>> {
    steps.map_values(|d: StepDef| d.why@)
}

/// The number of steps of every walkthrough.
pub const STEP_COUNT: usize = 5;

/// The texts of a log of operations.
pub open spec fn lines(v: Seq<String>) -> Seq<Seq<char>> {
    v.map_values(|s: String| s@)
}

/// An owned copy of a text.
pub fn text(s: &str) -> (t: String)
    ensures
        t@ == s@,
{
    String::from_str(s)
}

/// Two texts one after the other.
pub fn joined(a: &str, b: &str) -> (t: String)
    ensures
        t@ == a@ + b@,
{
    let mut t = String::from_str(a);
    t.append(b);
    t
}

/// Appends a line to a log of operations.
pub fn push_line(log: &mut Vec<String>, line: String)
    ensures
        lines(final(log)@) == lines(old(log)@).push(line@),
{
    let ghost before = log@;
    let ghost item = line@;
    log.push(line);
    assert(lines(log@) =~= lines(before).push(item));
}

/// The 32-byte root secret a walkthrough starts its sessions from: `first`, thirty
/// zero bytes, then `last`.
pub open spec fn demo_root_spec(first: u8, last: u8) -> Seq<u8> {
    Seq::new(32, |i: int| if i == 0 { first } else if i == 31 { last } else { 0u8 })
}

/// The 32-byte root secret a walkthrough starts its sessions from.
pub fn demo_root(first: u8, last: u8) -> (root: Vec<u8>)
    ensures
        root@ == demo_root_spec(first, last),
{
    let mut root: Vec<u8> = Vec::new();
    root.push(first);
    let mut i: usize = 1;
    while i < 31
        invariant
            1 <= i <= 31,
            root@.len() == i,
            root@[0] == first,
            forall|j: int| 1 <= j < i ==> root@[j] == 0u8,
        decreases 31 - i,
    {
        root.push(0u8);
        i = i + 1;
    }
    root.push(last);
    assert(root@ =~= demo_root_spec(first, last));
    root
}

/// `len` copies of one byte.
pub fn filled_bytes(value: u8, len: usize) -> (v: Vec<u8>)
    ensures
        v@ == Seq::new(len as nat, |i: int| value),
{
    let mut v: Vec<u8> = Vec::new();
    let mut i: usize = 0;
    while i < len
        invariant
            i <= len,
            v@ == Seq::new(i as nat, |j: int| value),
        decreases len - i,
    {
        v.push(value);
        i = i + 1;
        assert(v@ =~= Seq::new(i as nat, |j: int| value));
    }
    v
}

/// The message shown after stepping back to a step.
pub fn back_message(title: &str) -> (m: StatusMsg)
    ensures
        m@ == (StatusKind::Info, "Back to: "@ + title@),
{
    StatusMsg::info(joined("Back to: ", title))
}

/// How a step stands in the list of steps.
#[derive(Clone, Copy, Debug, PartialEq, Eq, Structural)]
pub enum StepProgress {
    Done,
    Active,
    Pending,
}

/// The label of step `i` in the list of steps, `n. title` counting from one, and how
/// it stands when `current` is the active step.
pub fn step_list_entry(index: usize, title: &str, current: usize) -> (r: (String, StepProgress))
    requires
        index < usize::MAX,
    ensures
        r.0@ == decimal_chars((index + 1) as nat) + ". "@ + title@,
        r.1 == (if index == current {
            StepProgress::Active
        } else if index < current {
            StepProgress::Done
        } else {
            StepProgress::Pending
        }),
{
    let mut label = String::new();
    push_decimal_str(&mut label, (index + 1) as u64);
    label.append(". ");
    label.append(title);
    let progress = if index == current {
        StepProgress::Active
    } else if index < current {
        StepProgress::Done
    } else {
        StepProgress::Pending
    };
    (label, progress)
}

/// What the step controls offer on step `current`: whether Back and Next are enabled,
/// and the label of Next (`Done` past the last step, else the walkthrough's label).
pub fn step_controls(current: usize, next_text: &str) -> (r: (bool, bool, String))
    ensures
        r.0 == (current > 0),
        r.1 == (current < STEP_COUNT),
        r.2@ == (if current >= STEP_COUNT {
            "Done"@
        } else {
            next_text@
        }),
{
    let at_end = current >= STEP_COUNT;
    let label = if at_end {
        text("Done")
    } else {
        text(next_text)
    };
    (current > 0, !at_end, label)
}

/// The heading of the active step, `Step n of total: title`, and its explanation;
/// past the last step the title is `Done` and the explanation says the walkthrough is
/// complete.
pub fn step_header(steps: &Vec<StepDef>, current: usize) -> (r: (String, String))
    requires
        current < usize::MAX,
    ensures
        r.0@ == "Step "@ + decimal_chars((current + 1) as nat) + " of "@ + decimal_chars(steps@.len())
            + ": "@ + (if current < steps@.len() {
            steps@[current as int].title@
        } else {
            "Done"@
        }),
        r.1@ == (if current < steps@.len() {
            steps@[current as int].why@
        } else {
            "Walk through is complete. Reset to try again."@
        }),
{
    let mut heading = String::from_str("Step ");
    push_decimal_str(&mut heading, (current + 1) as u64);
    heading.append(" of ");
    push_decimal_str(&mut heading, steps.len() as u64);
    heading.append(": ");
    if current < steps.len() {
        heading.append(steps[current].title);
        (heading, String::from_str(steps[current].why))
    } else {
        heading.append("Done");
        (heading, String::from_str("Walk through is complete. Reset to try again."))
    }
}

/// The value a key field shows: a dash when there is no key yet, a mask for a private
/// key while private keys are hidden, else the preview of its hexadecimal encoding.
pub fn hex_field_value(bytes: &Option<Vec<u8>>, show_private: bool, is_private: bool) -> (s: String)
    ensures
        s@ == match bytes {
            None => "\u{2014}"@,
            Some(b) => if is_private && !show_private {
                "\u{2022}\u{2022}\u{2022}\u{2022} (hidden \u{2014} toggle Show private keys)"@
            } else {
                hex_preview_spec(b@, 40)
            },
        },
{
    match bytes {
        None => String::from_str("\u{2014}"),
        Some(b) => if is_private && !show_private {
            String::from_str("\u{2022}\u{2022}\u{2022}\u{2022} (hidden \u{2014} toggle Show private keys)")
        } else {
            hex_preview(b.as_slice(), 40)
        },
    }
}

/// A key field of a party's panel: its label, its bytes once known, and whether it is
/// private.
#[derive(Clone, Debug)]
pub struct LabeledBytes {
    pub label: String,
    pub bytes: Option<Vec<u8>>,
    pub is_private: bool,
}

/// The value a field of a party's panel shows.
pub fn labeled_value(field: &LabeledBytes, show_private: bool) -> (s: String)
    ensures
        s@ == match field.bytes {
            None => "\u{2014}"@,
            Some(b) => if field.is_private && !show_private {
                "\u{2022}\u{2022}\u{2022}\u{2022} (hidden \u{2014} toggle Show private keys)"@
            } else {
                hex_preview_spec(b@, 40)
            },
        },
{
    hex_field_value(&field.bytes, show_private, field.is_private)
}

/// The text of a chip that tells whether two values match: the label, then a dash
/// while unknown, `YES` or `NO`.
pub fn match_chip_text(label: &str, matched: Option<bool>) -> (s: String)
    ensures
        s@ == label@ + match matched {
            None => ": \u{2014}"@,
            Some(true) => ": YES"@,
            Some(false) => ": NO"@,
        },
{
    let mut s = String::from_str(label);
    match matched {
        None => s.append(": \u{2014}"),
        Some(true) => s.append(": YES"),
        Some(false) => s.append(": NO"),
    }
    s
}

/// The label of the button that shows or hides private keys.
pub fn private_toggle_label(show: bool) -> (s: String)
    ensures
        s@ == (if show {
            "Hide private keys"@
        } else {
            "Show private keys"@
        }),
{
    if show {
        String::from_str("Hide private keys")
    } else {
        String::from_str("Show private keys")
    }
}

/// The two lines of a party's counter card.
pub fn counter_card_lines(send_n: &str, recv_n: &str, skipped: &str, has_send_chain: &str, has_recv_chain: &str) -> (r: (String, String))
    ensures
        r.0@ == "send_n="@ + send_n@ + "  recv_n="@ + recv_n@ + "  skipped="@ + skipped@,
        r.1@ == "sending_chain="@ + has_send_chain@ + "  receiving_chain="@ + has_recv_chain@,
{
    let mut first = String::from_str("send_n=");
    first.append(send_n);
    first.append("  recv_n=");
    first.append(recv_n);
    first.append("  skipped=");
    first.append(skipped);
    let mut second = String::from_str("sending_chain=");
    second.append(has_send_chain);
    second.append("  receiving_chain=");
    second.append(has_recv_chain);
    (first, second)
}

} // verus!

//! What is told to the user: the lines that describe a listed display, and
//! the lines on the course of a position request.

use vstd::prelude::*;
use vstd::string::*;
use crate::apply::{Failure, Outcome};
use crate::command::{PositionRequest, RequestView};
use crate::device::StateFlags;
use crate::listing::ListEntry;
use crate::mode::Placement;
use crate::text::{decimal_text, render_i32, render_u32, texts};

verus! {

/// The text that a sequence of UTF-16 code units stands for, with the
/// replacement character in place of each unit that is part of no character.
pub uninterp spec fn utf16_lossy(units: Seq<u16>) -> Seq<char>;

/// Decodes UTF-16 with `String::from_utf16_lossy`. Nothing is claimed of the
/// text but that it depends on the units alone.
#[verifier::external_body]
fn decode_utf16(units: &Vec<u16>) -> (text: String)
    ensures
        text@ == utf16_lossy(units@),
{
    String::from_utf16_lossy(units)
}

/// The units of a wide string that stand before its first zero: all of
/// them where there is no zero.
pub open spec fn up_to_zero(units: Seq<u16>) -> Seq<u16>
    decreases units.len(),
{
    if units.len() == 0 || units[0] == 0 {
        Seq::empty()
    } else {
        seq![units[0]] + up_to_zero(units.skip(1))
    }
}

/// Where the first `end` units are not zero and the next one is, or there
/// is no next one, the units before the first zero are the first `end`.
proof fn lemma_up_to_zero(units: Seq<u16>, end: int)
    requires
        0 <= end <= units.len(),
        forall|i: int| 0 <= i < end ==> units[i] != 0,
        end == units.len() || units[end] == 0,
    ensures
        up_to_zero(units) == units.take(end),
    decreases end,
{
    if end == 0 {
        assert(units.take(0) =~= Seq::<u16>::empty());
    } else {
        lemma_up_to_zero(units.skip(1), end - 1);
        assert(units.take(end) =~= seq![units[0]] + units.skip(1).take(end - 1));
    }
}

/// The units of `units` that stand before its first zero.
pub fn trim_at_zero(units: &Vec<u16>) -> (trimmed: Vec<u16>)
    ensures
        trimmed@ == up_to_zero(units@),
{
    let mut trimmed: Vec<u16> = Vec::new();
    let mut i: usize = 0;
    while i < units.len() && units[i] != 0
        invariant
            0 <= i <= units@.len(),
            trimmed@ == units@.take(i as int),
            forall|j: int| 0 <= j < i ==> units@[j] != 0,
        decreases units@.len() - i,
    {
        trimmed.push(units[i]);
        assert(trimmed@ =~= units@.take(i + 1));
        i += 1;
    }
    proof {
        lemma_up_to_zero(units@, i as int);
    }
    trimmed
}

/// The text of a wide string as the display system gives it: what stands
/// before the terminating zero, decoded.
pub fn wide_text(units: &Vec<u16>) -> (text: String)
    ensures
        text@ == utf16_lossy(up_to_zero(units@)),
{
    let trimmed = trim_at_zero(units);
    decode_utf16(&trimmed)
}

/// `true` or `false` in words.
pub open spec fn truth_text(value: bool) -> Seq<char> {
    if value {
        "true"@
    } else {
        "false"@
    }
}

/// Two texts as a pair in braces.
pub open spec fn pair_text(first: Seq<char>, second: Seq<char>) -> Seq<char> {
    "{"@ + first + ", "@ + second + "}"@
}

/// The lines that describe a display: an empty line, its number, name,
/// description and state, and its resolution and position where they are
/// known.
pub open spec fn description_lines(
    number: u32,
    name: Seq<char>,
    description: Seq<char>,
    flags: StateFlags,
    placement: Option<Placement>,
) -> Seq<Seq<char>> {
    let lines = seq![
        Seq::empty(),
        "Display #"@ + decimal_text(number as int),
        "Device name: "@ + name,
        "Device string: "@ + description,
        "Active: "@ + truth_text(flags.active),
        "Mirroring: "@ + truth_text(flags.mirroring),
        "Modes pruned: "@ + truth_text(flags.modes_pruned),
        "Primary: "@ + truth_text(flags.primary),
        "Removable: "@ + truth_text(flags.removable),
        "VGA compatible: "@ + truth_text(flags.vga_compatible),
    ];
    match placement {
        Some(place) => lines.push(
            "Dimensions: "@ + pair_text(
                decimal_text(place.width as int),
                decimal_text(place.height as int),
            ),
        ).push(
            "Position: "@ + pair_text(decimal_text(place.x as int), decimal_text(place.y as int)),
        ),
        None => lines,
    }
}

/// `label` followed by `value`.
fn labelled(label: &str, value: &str) -> (line: String)
    ensures
        line@ == label@ + value@,
{
    let mut line = String::new();
    line.append(label);
    line.append(value);
    assert(line@ =~= label@ + value@);
    line
}

/// `label` followed by `true` or `false`.
fn labelled_truth(label: &str, value: bool) -> (line: String)
    ensures
        line@ == label@ + truth_text(value),
{
    labelled(
        label,
        if value {
            "true"
        } else {
            "false"
        },
    )
}

/// `label` followed by two texts as a pair in braces.
fn labelled_pair(label: &str, first: &str, second: &str) -> (line: String)
    ensures
        line@ == label@ + pair_text(first@, second@),
{
    let mut line = String::new();
    line.append(label);
    line.append("{");
    line.append(first);
    line.append(", ");
    line.append(second);
    line.append("}");
    assert(line@ =~= label@ + pair_text(first@, second@));
    line
}

/// The lines that describe a display whose name and description are given
/// as texts.
pub fn describe(
    number: u32,
    name: &str,
    description: &str,
    flags: StateFlags,
    placement: Option<Placement>,
) -> (lines: Vec<String>)
    ensures
        texts(lines@) == description_lines(number, name@, description@, flags, placement),
{
    let mut lines: Vec<String> = Vec::new();
    lines.push(String::new());
    lines.push(labelled("Display #", render_u32(number).as_str()));
    lines.push(labelled("Device name: ", name));
    lines.push(labelled("Device string: ", description));
    lines.push(labelled_truth("Active: ", flags.active));
    lines.push(labelled_truth("Mirroring: ", flags.mirroring));
    lines.push(labelled_truth("Modes pruned: ", flags.modes_pruned));
    lines.push(labelled_truth("Primary: ", flags.primary));
    lines.push(labelled_truth("Removable: ", flags.removable));
    lines.push(labelled_truth("VGA compatible: ", flags.vga_compatible));
    if let Some(place) = placement {
        lines.push(
            labelled_pair(
                "Dimensions: ",
                render_u32(place.width).as_str(),
                render_u32(place.height).as_str(),
            ),
        );
        lines.push(
            labelled_pair(
                "Position: ",
                render_i32(place.x).as_str(),
                render_i32(place.y).as_str(),
            ),
        );
    }
    assert(texts(lines@) =~= description_lines(number, name@, description@, flags, placement));
    lines
}

/// The lines that describe a listed display.
pub fn entry_lines(entry: &ListEntry) -> (lines: Vec<String>)
    ensures
        texts(lines@) == description_lines(
            entry@.number,
            utf16_lossy(up_to_zero(entry@.device.name)),
            utf16_lossy(up_to_zero(entry@.device.description)),
            entry@.device.flags,
            entry@.placement,
        ),
{
    let name = wide_text(&entry.device.name);
    let description = wide_text(&entry.device.description);
    describe(
        entry.number,
        name.as_str(),
        description.as_str(),
        entry.device.flags,
        entry.placement,
    )
}

/// What is said when a request is taken up. The display is named by its
/// place in the enumeration, which is one less than its number.
pub open spec fn announcement_text(request: RequestView) -> Seq<char> {
    "Applying position "@ + pair_text(
        decimal_text(request.x as int),
        decimal_text(request.y as int),
    ) + " to Display #"@ + decimal_text(request.display - 1) + "..."@
}

/// What is said when `request` is taken up.
pub fn announcement(request: &PositionRequest) -> (line: String)
    ensures
        line@ == announcement_text(request@),
{
    let mut line = labelled_pair(
        "Applying position ",
        render_i32(request.x()).as_str(),
        render_i32(request.y()).as_str(),
    );
    line.append(" to Display #");
    line.append(render_u32(request.index()).as_str());
    line.append("...");
    assert(line@ =~= announcement_text(request@));
    line
}

/// What is said when a request has ended: that it is done, or why it failed
/// and that it is skipped, with an empty line after it.
pub open spec fn outcome_lines(failure: Option<Failure>) -> Seq<Seq<char>> {
    match failure {
        None => seq!["Done!"@],
        Some(failure) => seq![failure.message_text(), "Skipping..."@, Seq::empty()],
    }
}

/// What is said when a request has ended as `outcome` tells.
pub fn outcome_report(outcome: &Outcome) -> (lines: Vec<String>)
    ensures
        texts(lines@) == outcome_lines(outcome@.failure),
{
    let mut lines: Vec<String> = Vec::new();
    match outcome.failure {
        None => {
            lines.push(String::from_str("Done!"));
        },
        Some(failure) => {
            lines.push(String::from_str(failure.message()));
            lines.push(String::from_str("Skipping..."));
            lines.push(String::new());
        },
    }
    assert(texts(lines@) =~= outcome_lines(outcome@.failure));
    lines
}

} // verus!

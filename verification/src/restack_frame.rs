//! The frame around every stage of an interactive restack: the step indicator, the key
//! footer, the smallest terminal each stage accepts, and the review's scroll position.

use ratatui::text::Line;
use ratatui::widgets::{Paragraph, Wrap};
use vstd::prelude::*;

use crate::git_output::string_views;
use crate::restack_keys::{InteractionAction, InteractionStage};
use crate::terminal_text::{escape, escaped};
use crate::text::{decimal, decimal_string, literal, push_str};

verus! {

/// Whether an action still works while the terminal is too small to show the stage.
pub open spec fn allowed_when_undersized(action: InteractionAction) -> bool {
    action == InteractionAction::Back || action == InteractionAction::Cancel
}

/// Only going back and cancelling work while the terminal is too small.
pub fn action_allowed_when_undersized(action: InteractionAction) -> (allowed: bool)
    ensures
        allowed == allowed_when_undersized(action),
{
    match action {
        InteractionAction::Back | InteractionAction::Cancel => true,
        _ => false,
    }
}

/// The position of a stage among the three steps: select, review, publish.
pub open spec fn step_of(stage: InteractionStage) -> nat {
    match stage {
        InteractionStage::UnsupportedHistory | InteractionStage::Selection => 0,
        InteractionStage::Review => 1,
        InteractionStage::Confirmation => 2,
    }
}

/// One step of the indicator: done, current, or still ahead.
pub open spec fn step_text(index: nat, current: nat, label: Seq<char>) -> Seq<char> {
    let marker = if index < current {
        "✓"@
    } else if index == current {
        "● "@ + decimal(index + 1)
    } else {
        "○ "@ + decimal(index + 1)
    };
    marker + " "@ + label
}

/// The step indicator under the brand line.
pub open spec fn steps_line(stage: InteractionStage) -> Seq<char> {
    let current = step_of(stage);
    step_text(0, current, "Select"@) + " › "@ + step_text(1, current, "Review"@) + " › "@ + step_text(
        2,
        current,
        "Publish"@,
    )
}

fn push_step(line: &mut String, index: u64, current: u64, label: &str)
    requires
        index < 3,
    ensures
        final(line)@ == old(line)@ + step_text(index as nat, current as nat, label@),
{
    proof {
        reveal_strlit("✓");
        reveal_strlit("● ");
        reveal_strlit("○ ");
        reveal_strlit(" ");
    }
    if index < current {
        push_str(line, "✓");
    } else if index == current {
        push_str(line, "● ");
        push_str(line, &decimal_string(index + 1));
    } else {
        push_str(line, "○ ");
        push_str(line, &decimal_string(index + 1));
    }
    push_str(line, " ");
    push_str(line, label);
}

/// The step indicator: `● 1 Select › ○ 2 Review › ○ 3 Publish` and its later forms.
pub fn workflow_steps(stage: InteractionStage) -> (line: String)
    ensures
        line@ == steps_line(stage),
{
    let current: u64 = match stage {
        InteractionStage::UnsupportedHistory | InteractionStage::Selection => 0,
        InteractionStage::Review => 1,
        InteractionStage::Confirmation => 2,
    };
    let mut line = String::new();
    push_step(&mut line, 0, current, "Select");
    push_str(&mut line, " › ");
    push_step(&mut line, 1, current, "Review");
    push_str(&mut line, " › ");
    push_step(&mut line, 2, current, "Publish");
    proof {
        assert(line@ =~= steps_line(stage));
    }
    line
}

/// One key of the footer: the key, then its label and two spaces.
pub open spec fn control_text(key: Seq<char>, label: Seq<char>) -> Seq<char> {
    key + " "@ + label + "  "@
}

/// The footer of a stage: the keys it takes, or the filter being typed.
pub open spec fn footer_line(
    stage: InteractionStage,
    filtering: bool,
    filter: Seq<char>,
    show_shortcuts: bool,
    scrollable: bool,
) -> Seq<char> {
    match stage {
        InteractionStage::UnsupportedHistory => control_text("r"@, "Rebuild from inventory"@)
            + control_text("Esc"@, "Cancel"@),
        InteractionStage::Selection => if filtering {
            "Filter: "@ + escaped(filter) + "▏"@
        } else {
            control_text("Enter"@, "Review"@) + control_text("Space"@, "Toggle"@) + control_text(
                "/"@,
                "Filter"@,
            ) + control_text("?"@, if show_shortcuts { "Hide shortcuts"@ } else { "Shortcuts"@ })
                + control_text("Esc"@, "Cancel"@)
        },
        InteractionStage::Review => control_text("Enter"@, "Confirm publish"@) + (if scrollable {
            control_text("PgUp/Dn Home/End"@, "Scroll"@)
        } else {
            Seq::empty()
        }) + control_text("d"@, "Details"@) + control_text("Esc"@, "Revise"@) + control_text(
            "q"@,
            "Cancel"@,
        ),
        InteractionStage::Confirmation => control_text("Ctrl+Y"@, "Publish"@) + control_text(
            "Esc"@,
            "Review details"@,
        ) + control_text("q"@, "Abandon plan"@),
    }
}

fn push_control(line: &mut String, key: &str, label: &str)
    ensures
        final(line)@ == old(line)@ + control_text(key@, label@),
{
    proof {
        reveal_strlit(" ");
        reveal_strlit("  ");
    }
    let ghost start = line@;
    push_str(line, key);
    push_str(line, " ");
    push_str(line, label);
    push_str(line, "  ");
    proof {
        assert(line@ =~= start + control_text(key@, label@));
    }
}

/// The footer under a stage.
pub fn footer_controls(
    stage: InteractionStage,
    filtering: bool,
    filter: &str,
    show_shortcuts: bool,
    scrollable: bool,
) -> (line: String)
    ensures
        line@ == footer_line(stage, filtering, filter@, show_shortcuts, scrollable),
{
    let mut line = String::new();
    let ghost empty = line@;
    match stage {
        InteractionStage::UnsupportedHistory => {
            push_control(&mut line, "r", "Rebuild from inventory");
            push_control(&mut line, "Esc", "Cancel");
        },
        InteractionStage::Selection => {
            if filtering {
                line = literal("Filter: ");
                push_str(&mut line, &escape(filter));
                push_str(&mut line, "▏");
                return line;
            }
            push_control(&mut line, "Enter", "Review");
            push_control(&mut line, "Space", "Toggle");
            push_control(&mut line, "/", "Filter");
            push_control(
                &mut line,
                "?",
                if show_shortcuts {
                    "Hide shortcuts"
                } else {
                    "Shortcuts"
                },
            );
            push_control(&mut line, "Esc", "Cancel");
        },
        InteractionStage::Review => {
            push_control(&mut line, "Enter", "Confirm publish");
            let ghost before = line@;
            if scrollable {
                push_control(&mut line, "PgUp/Dn Home/End", "Scroll");
            }
            proof {
                if !scrollable {
                    assert(line@ =~= before + Seq::<char>::empty());
                }
            }
            push_control(&mut line, "d", "Details");
            push_control(&mut line, "Esc", "Revise");
            push_control(&mut line, "q", "Cancel");
        },
        InteractionStage::Confirmation => {
            push_control(&mut line, "Ctrl+Y", "Publish");
            push_control(&mut line, "Esc", "Review details");
            push_control(&mut line, "q", "Abandon plan");
        },
    }
    proof {
        assert(empty =~= Seq::<char>::empty());
        assert(line@ =~= footer_line(stage, filtering, filter@, show_shortcuts, scrollable));
    }
    line
}

/// How many rows the footer of a stage takes at a width.
pub open spec fn footer_rows(stage: InteractionStage, width: nat) -> nat {
    match stage {
        InteractionStage::Selection => if width < 90 { 2 } else { 1 },
        InteractionStage::Review => if width < 72 { 3 } else if width < 96 { 2 } else { 1 },
        _ => 1,
    }
}

/// The rows the footer of a stage takes at a width.
pub fn footer_height(stage: InteractionStage, width: u16) -> (rows: u16)
    ensures
        rows == footer_rows(stage, width as nat),
{
    match stage {
        InteractionStage::Selection => if width < 90 {
            2
        } else {
            1
        },
        InteractionStage::Review => if width < 72 {
            3
        } else if width < 96 {
            2
        } else {
            1
        },
        _ => 1,
    }
}

/// The smallest height at which a stage is shown; a confirmation needs its wrapped text
/// and six more rows, and never less than sixteen.
pub open spec fn minimum_rows(stage: InteractionStage, confirmation_rows: nat) -> nat {
    match stage {
        InteractionStage::Confirmation => {
            let needed = if confirmation_rows + 6 > 65535 { 65535 } else { confirmation_rows + 6 };
            if needed < 16 { 16 } else { needed }
        },
        InteractionStage::Review => 12,
        _ => 18,
    }
}

/// The smallest height at which a stage is shown, given the rows that the confirmation
/// text wraps to at the content width.
pub fn minimum_height(stage: InteractionStage, confirmation_rows: usize) -> (rows: u16)
    ensures
        rows == minimum_rows(stage, confirmation_rows as nat),
{
    match stage {
        InteractionStage::Confirmation => {
            let text_rows: u16 = if confirmation_rows > 65535 {
                65535
            } else {
                confirmation_rows as u16
            };
            let needed: u16 = if text_rows > 65529 {
                65535
            } else {
                text_rows + 6
            };
            if needed < 16 {
                16
            } else {
                needed
            }
        },
        InteractionStage::Review => 12,
        _ => 18,
    }
}

/// Whether the terminal is too small for the stage: under 56 columns or under its
/// minimum height.
pub open spec fn undersized(width: nat, height: nat, minimum: nat) -> bool {
    width < 56 || height < minimum
}

/// Whether the terminal is too small for the stage.
pub fn is_undersized(width: u16, height: u16, minimum: u16) -> (small: bool)
    ensures
        small == undersized(width as nat, height as nat, minimum as nat),
{
    width < 56 || height < minimum
}

/// What replaces a stage on a terminal that is too small for it.
pub open spec fn too_small_lines(minimum: nat) -> Seq<Seq<char>> {
    seq![
        "Terminal too small for a safe restack review."@,
        "Resize to at least 56 columns × "@ + decimal(minimum) + " rows."@,
    ]
}

/// The two lines that replace a stage on a terminal that is too small for it.
pub fn too_small_text(minimum: u16) -> (lines: Vec<String>)
    ensures
        lines@.len() == 2,
        lines@[0]@ == too_small_lines(minimum as nat)[0],
        lines@[1]@ == too_small_lines(minimum as nat)[1],
{
    let first = literal("Terminal too small for a safe restack review.");
    let mut second = literal("Resize to at least 56 columns × ");
    push_str(&mut second, &decimal_string(minimum as u64));
    push_str(&mut second, " rows.");
    vec![first, second]
}

/// How far the review can scroll: the wrapped lines beyond the area's height.
pub open spec fn max_scroll(line_count: nat, height: nat) -> nat {
    if line_count > height { (line_count - height) as nat } else { 0 }
}

/// The scroll position shown: a request past the end counts back from the end the way
/// `usize::MAX - n` asks for the n-th row above the last, and the row fits in a `u16`.
pub open spec fn shown_scroll(requested: nat, line_count: nat, height: nat) -> nat {
    let most = max_scroll(line_count, height);
    let position = if requested > most {
        let from_end = (usize::MAX - requested) as nat;
        if most > from_end { (most - from_end) as nat } else { 0 }
    } else {
        requested
    };
    if position > 65535 { 65535 } else { position }
}

/// The review's scroll row for a requested position, and whether the review scrolls at all.
pub fn review_scroll(requested: usize, line_count: usize, height: u16) -> (shown: (u16, bool))
    ensures
        shown.0 == shown_scroll(requested as nat, line_count as nat, height as nat),
        shown.1 == (max_scroll(line_count as nat, height as nat) > 0),
{
    let area = height as usize;
    let most: usize = if line_count > area {
        line_count - area
    } else {
        0
    };
    let position: usize = if requested > most {
        let from_end = usize::MAX - requested;
        if most > from_end {
            most - from_end
        } else {
            0
        }
    } else {
        requested
    };
    let row: u16 = if position > 65535 {
        65535
    } else {
        position as u16
    };
    (row, most > 0)
}

/// How many rows ratatui's `Paragraph::line_count` gives for `lines` wrapped at word
/// boundaries, without trimming, in an area `width` cells wide.
pub uninterp spec fn wrapped_line_count(lines: Seq<Seq<char>>, width: nat) -> nat;

/// `ratatui::widgets::Paragraph::line_count` of `lines`, one `Line` each, wrapped with
/// `Wrap { trim: false }` at `width` cells. ratatui's wrapping rules are named, not
/// restated.
#[verifier::external_body]
fn paragraph_line_count(lines: &Vec<String>, width: u16) -> (count: usize)
    ensures
        count == wrapped_line_count(string_views(lines@), width as nat),
{
    let text: Vec<Line> = lines.iter().map(|line| Line::raw(line.as_str())).collect();
    Paragraph::new(text).wrap(Wrap { trim: false }).line_count(width)
}

/// The width that a text is wrapped at: the area's, and at least one cell.
pub open spec fn wrap_width(width: nat) -> nat {
    if width == 0 { 1 } else { width }
}

/// The rows that `lines` take when wrapped at word boundaries in an area `width` cells
/// wide; an area without width counts as one cell wide.
pub fn wrapped_text_height(lines: &Vec<String>, width: u16) -> (height: usize)
    ensures
        height == wrapped_line_count(string_views(lines@), wrap_width(width as nat)),
{
    let cells: u16 = if width == 0 { 1 } else { width };
    paragraph_line_count(lines, cells)
}

/// The review's scroll row and whether it scrolls at all, for the review text wrapped in
/// an area of `width` by `height` cells.
pub fn review_area_scroll(lines: &Vec<String>, width: u16, height: u16, requested: usize) -> (shown: (u16, bool))
    ensures
        shown.0 == shown_scroll(
            requested as nat,
            wrapped_line_count(string_views(lines@), wrap_width(width as nat)),
            height as nat,
        ),
        shown.1 == (max_scroll(wrapped_line_count(string_views(lines@), wrap_width(width as nat)), height as nat) > 0),
{
    let line_count = wrapped_text_height(lines, width);
    review_scroll(requested, line_count, height)
}

/// The smallest height for the confirmation stage, given its text and the content width.
pub fn confirmation_minimum_height(lines: &Vec<String>, width: u16) -> (rows: u16)
    ensures
        rows == minimum_rows(
            InteractionStage::Confirmation,
            wrapped_line_count(string_views(lines@), wrap_width(width as nat)),
        ),
{
    let text_rows = wrapped_text_height(lines, width);
    minimum_height(InteractionStage::Confirmation, text_rows)
}

/// Whether a text wrapped in an area of `width` by `height` cells runs past its bottom.
pub fn overflows_area(lines: &Vec<String>, width: u16, height: u16) -> (overflows: bool)
    ensures
        overflows == (wrapped_line_count(string_views(lines@), wrap_width(width as nat)) > height),
{
    wrapped_text_height(lines, width) > height as usize
}

} // verus!

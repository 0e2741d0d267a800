//! How the setup screens emphasise their cells: the prompt of the focused or rejected
//! field, the placeholder of an empty field, the cursor cell, each button's border and
//! face, and the lines of an error or warning. Each mark is a rectangle of cells; a later
//! mark is drawn over an earlier one.

use vstd::prelude::*;

use crate::canvas::{grid, paragraph, row_strings, text_grid};
use crate::git_output::string_views;
use crate::onboarding::{ConnectionStatus, OnboardingModel, OnboardingScreen, CURSOR_BLINK_HALF_PERIOD_MS};
use crate::onboarding_view::{
    button_text, button_width, content_width, escaped_chars, fallback_height, feedback_chars, feedback_room,
    feedback_rows, feedback_text, field_display, field_prompt, field_retained, model_pending_symbol, pending_chars,
    SetupButton, BODY_TOP,
};
use crate::restack_keys::{contains_text, occurs_in};
use crate::terminal_text::escaped;
use crate::text_compare::chars_of;

verus! {

/// The style of an emphasised cell.
#[derive(Clone, Copy, Debug, PartialEq, Eq, Structural)]
pub enum Tone {
    /// The prompt of the focused field.
    Focus,
    /// The prompt of a rejected field, and an error.
    Error,
    Warning,
    /// What is dimmed: an unfocused prompt, a placeholder, an idle button.
    Muted,
    /// The cursor cell, shown reversed.
    Cursor,
    /// The border of the focused button.
    Primary,
    /// The face of the focused button.
    ActionFocus,
    /// A button while the verification runs.
    Pending,
    /// A button once connected.
    Success,
}

/// The cells of rows `top..bottom` and columns `left..right`, in one tone.
#[derive(Clone, Copy, Debug, PartialEq, Eq, Structural)]
pub struct Mark {
    pub top: usize,
    pub bottom: usize,
    pub left: usize,
    pub right: usize,
    pub tone: Tone,
}

pub open spec fn mark(top: nat, bottom: nat, left: nat, right: nat, tone: Tone) -> Mark {
    Mark { top: top as usize, bottom: bottom as usize, left: left as usize, right: right as usize, tone }
}

/// `x`, but no further than `limit`.
pub open spec fn clip(x: nat, limit: nat) -> nat {
    if x <= limit {
        x
    } else {
        limit
    }
}

/// A rejected field's prompt shows the error; the focused one, the focus; others are dim.
pub open spec fn prompt_tone(focused: bool, invalid: bool) -> Tone {
    if invalid {
        Tone::Error
    } else if focused {
        Tone::Focus
    } else {
        Tone::Muted
    }
}

/// The marks of an input on row `row`: its prompt; its placeholder when it shows one;
/// and, when it has the focus and the cursor is lit, the cell at the cursor, which stays
/// within the content width. A kept secret shows no cursor.
pub open spec fn field_marks(
    row: nat,
    label: Seq<char>,
    value: Seq<char>,
    placeholder: Seq<char>,
    masked: bool,
    can_retain: bool,
    focused: bool,
    invalid: bool,
    cursor_on: bool,
    cursor: nat,
    cw: nat,
) -> Seq<Mark> {
    let retained = field_retained(value, masked, can_retain);
    let p = field_prompt(label, retained).len();
    let prompt = seq![mark(row, row + 1, 0, clip(p, cw), prompt_tone(focused, invalid))];
    let hint = if field_display(value, masked, can_retain).len() == 0 {
        seq![mark(row, row + 1, clip(p, cw), clip(p + placeholder.len(), cw), Tone::Muted)]
    } else {
        Seq::empty()
    };
    let available: nat = if cw > p + 1 { (cw - p - 1) as nat } else { 0 };
    let at = p + clip(cursor, available);
    let caret = if focused && cursor_on && !retained && at < cw {
        seq![mark(row, row + 1, at, at + 1, Tone::Cursor)]
    } else {
        Seq::empty()
    };
    prompt + hint + caret
}

/// The marks of a button three rows high at row `row`: its border, then its face.
pub open spec fn button_marks(
    row: nat,
    label: Seq<char>,
    focused: bool,
    status: ConnectionStatus,
    pending_symbol: Seq<char>,
    cw: nat,
) -> Seq<Mark> {
    let w = button_width(button_text(label, status, pending_symbol).len(), cw);
    let shows = focused && status != ConnectionStatus::Pending;
    let border = match status {
        ConnectionStatus::Pending => Tone::Pending,
        ConnectionStatus::Connected => Tone::Success,
        ConnectionStatus::NotConnected => if shows { Tone::Primary } else { Tone::Muted },
    };
    let face = match status {
        ConnectionStatus::Pending => Tone::Pending,
        ConnectionStatus::Connected => Tone::Success,
        ConnectionStatus::NotConnected => if shows { Tone::ActionFocus } else { Tone::Muted },
    };
    let inner_right: nat = if w >= 2 { (w - 1) as nat } else { clip(1, w) };
    seq![mark(row, row + 3, 0, w, border), mark(row + 1, row + 2, clip(1, w), inner_right, face)]
}

/// How far a drawn row reaches: up to its last character that is not a space.
pub open spec fn visible_len(row: Seq<char>) -> nat
    decreases row.len(),
{
    if row.len() == 0 {
        0
    } else if row.last() == ' ' {
        visible_len(row.drop_last())
    } else {
        row.len()
    }
}

/// The marks of the feedback drawn from body row `offset`: on each row of the drawn
/// paragraph, its text, in the tone of an error or of a warning.
pub open spec fn feedback_marks(m: OnboardingModel, offset: nat, cw: nat, height: nat) -> Seq<Mark> {
    let rows = feedback_rows(m, offset as int, cw, height);
    let top = BODY_TOP as nat + offset;
    let tone = if m.error is Some { Tone::Error } else { Tone::Warning };
    if feedback_text(m).len() == 0 {
        Seq::empty()
    } else {
        Seq::new(rows.len(), |i: int| mark(top + i as nat, top + i as nat + 1, 0, clip(visible_len(rows[i]), cw), tone))
    }
}

/// Whether the model's error names the field `label`.
pub open spec fn names_field(m: OnboardingModel, label: Seq<char>) -> bool {
    m.error matches Some(error) && contains_text(error@, label)
}

/// Whether the cursor is lit in this phase of its blink.
pub open spec fn cursor_lit(m: OnboardingModel) -> bool {
    m.reduced_motion || (m.cursor_blink_elapsed_ms / CURSOR_BLINK_HALF_PERIOD_MS) % 2 == 0
}

/// The emphasised cells of the screen that a terminal of `width` by `height` cells shows
/// for the model; a screen asking for a larger terminal has none.
pub open spec fn screen_marks(m: OnboardingModel, width: nat, height: nat) -> Seq<Mark> {
    if width < 60 || height < 24 {
        Seq::empty()
    } else {
        let cw = content_width(width);
        let b = BODY_TOP as nat;
        let symbol = model_pending_symbol(m);
        match m.stage {
            OnboardingScreen::JiraDetails => field_marks(
                b + 4,
                "Jira site"@,
                escaped(m.hostname.value@),
                "company.atlassian.net"@,
                false,
                false,
                m.focus == 0,
                names_field(m, "Jira site"@),
                cursor_lit(m),
                m.hostname.cursor as nat,
                cw,
            ) + field_marks(
                b + 6,
                "Atlassian email"@,
                escaped(m.email.value@),
                "you@example.com"@,
                false,
                false,
                m.focus == 1,
                names_field(m, "Atlassian email"@),
                cursor_lit(m),
                m.email.cursor as nat,
                cw,
            ) + button_marks(b + 9, "Continue to API token"@, m.focus == 2, ConnectionStatus::NotConnected, symbol, cw)
                + feedback_marks(m, 13, cw, height),
            OnboardingScreen::JiraToken => {
                let fh = fallback_height(m) as nat;
                field_marks(
                    b + 4,
                    "Atlassian API token"@,
                    m.jira_token.value@,
                    "paste token"@,
                    true,
                    m.can_retain_jira_token,
                    m.focus == 0,
                    names_field(m, "Atlassian API token"@),
                    cursor_lit(m),
                    m.jira_token.cursor as nat,
                    cw,
                ) + button_marks(b + 7 + fh, "Connect Jira"@, m.focus == 1, m.jira_status, symbol, cw)
                    + feedback_marks(m, 11 + fh, cw, height)
            },
            OnboardingScreen::Save => button_marks(
                b + 11,
                "Save configuration"@,
                true,
                ConnectionStatus::NotConnected,
                symbol,
                cw,
            ) + feedback_marks(m, 16, cw, height),
        }
    }
}

fn clip_at(x: usize, limit: usize) -> (clipped: usize)
    ensures
        clipped == clip(x as nat, limit as nat),
{
    if x <= limit {
        x
    } else {
        limit
    }
}

fn append_marks(marks: &mut Vec<Mark>, more: Vec<Mark>)
    ensures
        final(marks)@ == old(marks)@ + more@,
{
    let ghost start = marks@;
    let mut i: usize = 0;
    while i < more.len()
        invariant
            i <= more@.len(),
            marks@ == start + more@.take(i as int),
        decreases more.len() - i,
    {
        marks.push(more[i]);
        i = i + 1;
        proof {
            assert(more@.take(i as int) =~= more@.take(i - 1).push(more@[i - 1]));
        }
    }
    proof {
        assert(more@.take(more@.len() as int) =~= more@);
    }
}

fn field_mark_list(
    row: usize,
    label: &str,
    value: &Vec<char>,
    placeholder: &str,
    masked: bool,
    can_retain: bool,
    focused: bool,
    invalid: bool,
    cursor_on: bool,
    cursor: usize,
    cw: usize,
) -> (marks: Vec<Mark>)
    requires
        row <= 1000,
        label@.len() <= 64,
        placeholder@.len() <= 64,
        cw <= 1000,
    ensures
        marks@ == field_marks(
            row as nat,
            label@,
            value@,
            placeholder@,
            masked,
            can_retain,
            focused,
            invalid,
            cursor_on,
            cursor as nat,
            cw as nat,
        ),
{
    proof {
        reveal_strlit(" (stored)> ");
        reveal_strlit("> ");
        reveal_strlit("••••••••••••");
    }
    let retained = masked && value.len() == 0 && can_retain;
    let p: usize = chars_of(label).len() + if retained { 11 } else { 2 };
    let tone = if invalid {
        Tone::Error
    } else if focused {
        Tone::Focus
    } else {
        Tone::Muted
    };
    let mut marks: Vec<Mark> = Vec::new();
    marks.push(Mark { top: row, bottom: row + 1, left: 0, right: clip_at(p, cw), tone });
    let shows_nothing = !retained && value.len() == 0;
    if shows_nothing {
        let end = clip_at(p + chars_of(placeholder).len(), cw);
        marks.push(Mark { top: row, bottom: row + 1, left: clip_at(p, cw), right: end, tone: Tone::Muted });
    }
    let available: usize = if cw > p + 1 {
        cw - p - 1
    } else {
        0
    };
    let at = p + clip_at(cursor, available);
    if focused && cursor_on && !retained && at < cw {
        marks.push(Mark { top: row, bottom: row + 1, left: at, right: at + 1, tone: Tone::Cursor });
    }
    proof {
        assert(field_prompt(label@, retained).len() == p);
        assert(field_display(value@, masked, can_retain).len() == 0 <==> shows_nothing);
        let prompt = seq![mark(row as nat, row as nat + 1, 0, clip(p as nat, cw as nat), prompt_tone(focused, invalid))];
        assert(marks@ =~= field_marks(
            row as nat,
            label@,
            value@,
            placeholder@,
            masked,
            can_retain,
            focused,
            invalid,
            cursor_on,
            cursor as nat,
            cw as nat,
        ));
    }
    marks
}

fn button_mark_list(row: usize, button: &SetupButton, cw: usize) -> (marks: Vec<Mark>)
    requires
        row <= 1000,
        cw <= 1000,
    ensures
        marks@ == button_marks(row as nat, button.label@, button.focused, button.status, button.pending_symbol@, cw as nat),
{
    let text_len = button.text().len();
    let w: usize = if text_len <= cw && cw - text_len >= 6 {
        text_len + 6
    } else {
        cw
    };
    let shows = button.shows_focus();
    let border = match button.status {
        ConnectionStatus::Pending => Tone::Pending,
        ConnectionStatus::Connected => Tone::Success,
        ConnectionStatus::NotConnected => if shows {
            Tone::Primary
        } else {
            Tone::Muted
        },
    };
    let face = match button.status {
        ConnectionStatus::Pending => Tone::Pending,
        ConnectionStatus::Connected => Tone::Success,
        ConnectionStatus::NotConnected => if shows {
            Tone::ActionFocus
        } else {
            Tone::Muted
        },
    };
    let inner_right: usize = if w >= 2 {
        w - 1
    } else {
        clip_at(1, w)
    };
    let marks = vec![
        Mark { top: row, bottom: row + 3, left: 0, right: w, tone: border },
        Mark { top: row + 1, bottom: row + 2, left: clip_at(1, w), right: inner_right, tone: face },
    ];
    proof {
        assert(w as nat == button_width(text_len as nat, cw as nat));
        assert(marks@ =~= button_marks(
            row as nat,
            button.label@,
            button.focused,
            button.status,
            button.pending_symbol@,
            cw as nat,
        ));
    }
    marks
}

fn visible_length(row: &Vec<char>) -> (length: usize)
    ensures
        length == visible_len(row@),
{
    let mut k: usize = row.len();
    proof {
        assert(row@.take(k as int) =~= row@);
    }
    while k > 0 && row[k - 1] == ' '
        invariant
            k <= row@.len(),
            visible_len(row@) == visible_len(row@.take(k as int)),
        decreases k,
    {
        proof {
            assert(row@.take(k as int).drop_last() =~= row@.take(k - 1));
        }
        k = k - 1;
    }
    proof {
        if k > 0 {
            assert(row@.take(k as int).last() == row@[k - 1]);
        }
    }
    k
}

fn feedback_mark_list(m: &OnboardingModel, offset: usize, cw: usize, height: usize) -> (marks: Vec<Mark>)
    requires
        offset <= 100,
        cw <= 100,
        height >= 1,
        height <= 65535,
    ensures
        marks@ == feedback_marks(*m, offset as nat, cw as nat, height as nat),
{
    let text = feedback_chars(m);
    let mut marks: Vec<Mark> = Vec::new();
    if text.len() == 0 {
        proof {
            assert(marks@ =~= feedback_marks(*m, offset as nat, cw as nat, height as nat));
        }
        return marks;
    }
    let top = BODY_TOP + offset;
    let room: usize = if height - 1 > top {
        height - 1 - top
    } else {
        0
    };
    let texts = row_strings(&vec![text]);
    proof {
        assert(string_views(texts@) =~= seq![feedback_text(*m)]);
        assert(room as nat == feedback_room(offset as int, height as nat));
    }
    let rows = text_grid(&paragraph(&texts, cw as u16, room as u16, false, true));
    let tone = if m.error.is_some() {
        Tone::Error
    } else {
        Tone::Warning
    };
    let ghost expected = feedback_marks(*m, offset as nat, cw as nat, height as nat);
    let mut i: usize = 0;
    while i < rows.len()
        invariant
            rows@.len() == room,
            room <= 65535,
            top == BODY_TOP + offset,
            offset <= 100,
            grid(rows@) == feedback_rows(*m, offset as int, cw as nat, height as nat),
            feedback_text(*m).len() > 0,
            tone == (if m.error is Some { Tone::Error } else { Tone::Warning }),
            expected == feedback_marks(*m, offset as nat, cw as nat, height as nat),
            i <= rows@.len(),
            marks@.len() == i,
            forall|j: int| 0 <= j < i ==> #[trigger] marks@[j] == expected[j],
        decreases rows.len() - i,
    {
        let width = clip_at(visible_length(&rows[i]), cw);
        marks.push(Mark { top: top + i, bottom: top + i + 1, left: 0, right: width, tone });
        proof {
            assert(grid(rows@)[i as int] == rows@[i as int]@);
        }
        i = i + 1;
    }
    proof {
        assert(marks@ =~= expected);
    }
    marks
}

/// The emphasised cells of the setup screen for the model, in drawing order.
pub fn render_marks(model: &OnboardingModel, width: u16, height: u16) -> (marks: Vec<Mark>)
    ensures
        marks@ == screen_marks(*model, width as nat, height as nat),
{
    let mut marks: Vec<Mark> = Vec::new();
    if width < 60 || height < 24 {
        return marks;
    }
    proof {
        reveal_strlit("Jira site");
        reveal_strlit("company.atlassian.net");
        reveal_strlit("Atlassian email");
        reveal_strlit("you@example.com");
        reveal_strlit("Atlassian API token");
        reveal_strlit("paste token");
    }
    let cw: usize = if (width as usize) <= 100 {
        width as usize
    } else {
        100
    };
    let h = height as usize;
    let b = BODY_TOP;
    let cursor_on = model.cursor_visible();
    let invalid = |label: &str| -> (named: bool)
        ensures
            named == names_field(*model, label@),
        {
            match &model.error {
                Some(error) => occurs_in(&chars_of(error), &chars_of(label)),
                None => false,
            }
        };
    let symbol = pending_chars(model);
    match model.stage {
        OnboardingScreen::JiraDetails => {
            let host = escaped_chars(&model.hostname.value);
            let host_invalid = invalid("Jira site");
            append_marks(&mut marks, field_mark_list(b + 4, "Jira site", &host, "company.atlassian.net", false, false,
                model.focus == 0, host_invalid, cursor_on, model.hostname.cursor, cw));
            let email = escaped_chars(&model.email.value);
            let email_invalid = invalid("Atlassian email");
            append_marks(&mut marks, field_mark_list(b + 6, "Atlassian email", &email, "you@example.com", false, false,
                model.focus == 1, email_invalid, cursor_on, model.email.cursor, cw));
            let button = SetupButton::new("Continue to API token", model.focus == 2, ConnectionStatus::NotConnected, symbol);
            append_marks(&mut marks, button_mark_list(b + 9, &button, cw));
            append_marks(&mut marks, feedback_mark_list(model, 13, cw, h));
        },
        OnboardingScreen::JiraToken => {
            let fh: usize = if !model.jira_page_can_open || model.warning.is_some() {
                3
            } else {
                0
            };
            let token = chars_of(&model.jira_token.value);
            let token_invalid = invalid("Atlassian API token");
            append_marks(&mut marks, field_mark_list(b + 4, "Atlassian API token", &token, "paste token", true,
                model.can_retain_jira_token, model.focus == 0, token_invalid, cursor_on, model.jira_token.cursor, cw));
            let button = SetupButton::new("Connect Jira", model.focus == 1, model.jira_status, symbol);
            append_marks(&mut marks, button_mark_list(b + 7 + fh, &button, cw));
            append_marks(&mut marks, feedback_mark_list(model, 11 + fh, cw, h));
        },
        OnboardingScreen::Save => {
            let button = SetupButton::new("Save configuration", true, ConnectionStatus::NotConnected, symbol);
            append_marks(&mut marks, button_mark_list(b + 11, &button, cw));
            append_marks(&mut marks, feedback_mark_list(model, 16, cw, h));
        },
    }
    proof {
        assert(marks@ =~= screen_marks(*model, width as nat, height as nat));
    }
    marks
}

} // verus!

//! What the setup screens show, cell by cell: the brand header, the screen's fields,
//! buttons and messages, the key help, or a request to enlarge a small terminal.

use vstd::prelude::*;

use crate::canvas::{
    blank, blank_grid, centered_offset, grid, lemma_blank_shaped, lemma_put_lines_shaped,
    lemma_put_shaped, paragraph, paragraph_rows, push_all, put, put_line_block, put_lines, put_text, row_strings,
    shaped, text_grid,
};
use crate::onboarding::{
    pending_symbol_spec, size_is_undersized, ConnectionStatus, OnboardingModel, OnboardingScreen,
    MIN_TERMINAL_HEIGHT, MIN_TERMINAL_WIDTH,
};
use crate::git_output::string_views;
use crate::terminal_text::{escape, escaped};
use crate::text::{decimal, decimal_string, repeat, repeat_char};
use crate::text_compare::{chars_of, same_text};

verus! {

/// The first line of the Graduate banner.
pub const GRADUATE_ART_TOP: &'static str = "█▀▀ █▀█ ▄▀█ █▀▄ █ █ ▄▀█ ▀█▀ █▀▀";

/// The second line of the Graduate banner.
pub const GRADUATE_ART_BOTTOM: &'static str = "█▄█ █▀▄ █▀█ █▄▀ █▄█ █▀█  █  ██▄";

/// The widest the screen content grows, in columns.
pub const CONTENT_MAX_WIDTH: usize = 100;

/// The first row of a screen's body: below a blank row, the two banner rows and a gap.
pub const BODY_TOP: usize = 5;

/// The columns that the screen content uses.
pub open spec fn content_width(width: nat) -> nat {
    if width <= CONTENT_MAX_WIDTH {
        width
    } else {
        CONTENT_MAX_WIDTH as nat
    }
}

/// A masked input that is empty but whose stored secret is kept.
pub open spec fn field_retained(value: Seq<char>, masked: bool, can_retain: bool) -> bool {
    masked && value.len() == 0 && can_retain
}

/// What an input shows of its value: the value, one dot per character when masked, or a
/// fixed row of dots for a kept secret.
pub open spec fn field_display(value: Seq<char>, masked: bool, can_retain: bool) -> Seq<char> {
    if field_retained(value, masked, can_retain) {
        "••••••••••••"@
    } else if masked {
        repeat('•', value.len())
    } else {
        value
    }
}

/// The prompt before an input's value.
pub open spec fn field_prompt(label: Seq<char>, retained: bool) -> Seq<char> {
    if retained {
        label + " (stored)> "@
    } else {
        label + "> "@
    }
}

/// An input's row: its prompt, then what it shows, or the placeholder when that is empty.
pub open spec fn field_line(
    label: Seq<char>,
    value: Seq<char>,
    placeholder: Seq<char>,
    masked: bool,
    can_retain: bool,
) -> Seq<char> {
    let display = field_display(value, masked, can_retain);
    field_prompt(label, field_retained(value, masked, can_retain)) + if display.len() == 0 {
        placeholder
    } else {
        display
    }
}

/// The text on a button: a spinner while verifying, a check mark once connected (except
/// on the save button), else its label.
pub open spec fn button_text(label: Seq<char>, status: ConnectionStatus, pending_symbol: Seq<char>) -> Seq<
    char,
> {
    match status {
        ConnectionStatus::Pending => pending_symbol + " Verifying Jira…"@,
        ConnectionStatus::Connected => if label != "Save configuration"@ {
            "✓ "@ + label + " connected"@
        } else {
            label
        },
        ConnectionStatus::NotConnected => label,
    }
}

/// The width of a button: its text with room for the border and padding, within the area.
pub open spec fn button_width(text_len: nat, area_width: nat) -> nat {
    if text_len + 6 <= area_width {
        text_len + 6
    } else {
        area_width
    }
}

/// A bordered button three rows high at row `r`, with its text centered inside.
pub open spec fn draw_button(rows: Seq<Seq<char>>, r: int, area_width: nat, text: Seq<char>) -> Seq<
    Seq<char>,
> {
    let w = button_width(text.len(), area_width);
    let inner = (w - 2) as nat;
    let top = put(rows, r, 0, area_width as int, seq!['┌'] + repeat('─', inner) + seq!['┐']);
    let left = put(top, r + 1, 0, area_width as int, seq!['│']);
    let right = put(left, r + 1, w - 1, area_width as int, seq!['│']);
    let label = put(
        right,
        r + 1,
        1 + centered_offset(text.len() as int, inner as int),
        w - 1,
        text,
    );
    put(label, r + 2, 0, area_width as int, seq!['└'] + repeat('─', inner) + seq!['┘'])
}

/// The error, or else the warning, shown under a screen's controls.
pub open spec fn feedback_text(m: OnboardingModel) -> Seq<char> {
    match m.error {
        Some(error) => "✕ Error: "@ + escaped(error@),
        None => match m.warning {
            Some(warning) => "! Warning: "@ + escaped(warning@),
            None => Seq::empty(),
        },
    }
}

/// The rows between body row `offset` and the key help on the last row.
pub open spec fn feedback_room(offset: int, height: nat) -> nat {
    if height - 1 > BODY_TOP + offset {
        (height - 1 - (BODY_TOP + offset)) as nat
    } else {
        0
    }
}

/// The feedback paragraph as ratatui draws it, wrapped with trimming, in the rows
/// between body row `offset` and the key help.
pub open spec fn feedback_rows(m: OnboardingModel, offset: int, cw: nat, height: nat) -> Seq<Seq<char>> {
    paragraph_rows(seq![feedback_text(m)], cw, feedback_room(offset, height), false, true)
}

/// The feedback paragraph written from body row `offset` down to the key help.
pub open spec fn draw_feedback(rows: Seq<Seq<char>>, m: OnboardingModel, offset: int, cw: nat, height: nat) -> Seq<
    Seq<char>,
> {
    put_lines(rows, BODY_TOP + offset, height - 1, feedback_rows(m, offset, cw, height), 0, cw as int, false)
}

/// The spinner frame or ellipsis of the model's buttons.
pub open spec fn model_pending_symbol(m: OnboardingModel) -> Seq<char> {
    pending_symbol_spec(m.reduced_motion, m.jira_status, m.pending_animation_elapsed_ms)
}

/// The site and email screen.
pub open spec fn details_rows(rows: Seq<Seq<char>>, m: OnboardingModel, cw: nat, height: nat) -> Seq<
    Seq<char>,
> {
    let b = BODY_TOP as int;
    let c = cw as int;
    let r1 = put(rows, b, 0, c, "Connect your Jira account"@);
    let r2 = put(r1, b + 1, 0, c, "Enter the Atlassian account Graduate should use."@);
    let r3 = put(
        r2,
        b + 4,
        0,
        c,
        field_line("Jira site"@, escaped(m.hostname.value@), "company.atlassian.net"@, false, false),
    );
    let r4 = put(
        r3,
        b + 6,
        0,
        c,
        field_line("Atlassian email"@, escaped(m.email.value@), "you@example.com"@, false, false),
    );
    let r5 = draw_button(
        r4,
        b + 9,
        cw,
        button_text("Continue to API token"@, ConnectionStatus::NotConnected, model_pending_symbol(m)),
    );
    draw_feedback(r5, m, 13, cw, height)
}

/// Rows given to the token page's instruction and address when they are shown.
pub open spec fn fallback_height(m: OnboardingModel) -> int {
    if !m.jira_page_can_open || m.warning is Some {
        3
    } else {
        0
    }
}

/// The API token screen.
pub open spec fn token_rows(rows: Seq<Seq<char>>, m: OnboardingModel, cw: nat, height: nat) -> Seq<
    Seq<char>,
> {
    let b = BODY_TOP as int;
    let c = cw as int;
    let fh = fallback_height(m);
    let r1 = put(rows, b, 0, c, "Connect Jira"@);
    let r2 = put(r1, b + 1, 0, c, "Paste an Atlassian API token."@);
    let r3 = put(
        r2,
        b + 4,
        0,
        c,
        field_line("Atlassian API token"@, m.jira_token.value@, "paste token"@, true, m.can_retain_jira_token),
    );
    let r4 = if fh > 0 {
        put_lines(
            r3,
            b + 6,
            b + 6 + fh,
            paragraph_rows(seq![escaped(m.jira_instruction@), escaped(m.jira_url@)], cw, fh as nat, false, false),
            0,
            c,
            false,
        )
    } else {
        r3
    };
    let r5 = draw_button(
        r4,
        b + 7 + fh,
        cw,
        button_text("Connect Jira"@, m.jira_status, model_pending_symbol(m)),
    );
    draw_feedback(r5, m, 11 + fh, cw, height)
}

/// The review screen.
pub open spec fn save_rows(rows: Seq<Seq<char>>, m: OnboardingModel, cw: nat, height: nat) -> Seq<
    Seq<char>,
> {
    let b = BODY_TOP as int;
    let c = cw as int;
    let r1 = put(rows, b, 0, c, "Review Jira setup"@);
    let r2 = put(r1, b + 1, 0, c, "Graduate will save this connection."@);
    let r3 = put(r2, b + 3, 0, c, "Field     Value"@);
    let r4 = put(r3, b + 4, 0, c, repeat('─', cw));
    let r5 = put(r4, b + 5, 0, c, "Site      "@ + escaped(m.hostname.value@));
    let r6 = put(r5, b + 6, 0, c, "Account   "@ + escaped(m.email.value@));
    let r7 = put(r6, b + 7, 0, c, "Identity  "@ + escaped(m.display_name@));
    let r8 = put(r7, b + 9, 0, c, "Does this look right?"@);
    let r9 = draw_button(
        r8,
        b + 11,
        cw,
        button_text("Save configuration"@, ConnectionStatus::NotConnected, model_pending_symbol(m)),
    );
    let r10 = put(r9, b + 14, 0, c, "J Change Jira account"@);
    draw_feedback(r10, m, 16, cw, height)
}

/// The key help of each screen.
pub open spec fn footer_text(stage: OnboardingScreen) -> Seq<char> {
    match stage {
        OnboardingScreen::JiraDetails => "↑↓/tab navigate • enter select • esc cancel"@,
        OnboardingScreen::JiraToken => "↑↓/tab navigate • enter select • esc back"@,
        OnboardingScreen::Save => "enter save • j change account • esc change token"@,
    }
}

/// The lines asking for a larger terminal.
pub open spec fn resize_texts(width: nat, height: nat) -> Seq<Seq<char>> {
    seq![
        "Terminal too small"@,
        Seq::empty(),
        "Current size: "@ + decimal(width) + " columns by "@ + decimal(height) + " rows."@,
        "Resize to at least 60 columns by 24 rows to continue."@,
        "Your input is preserved."@,
        "Ctrl-C cancels without saving."@,
    ]
}

/// The request for a larger terminal as ratatui draws it over the whole screen:
/// centered and wrapped with trimming.
pub open spec fn resize_lines(width: nat, height: nat) -> Seq<Seq<char>> {
    paragraph_rows(resize_texts(width, height), width, height, true, true)
}

/// Everything a terminal of `width` by `height` cells shows for the model.
pub open spec fn screen(m: OnboardingModel, width: nat, height: nat) -> Seq<Seq<char>> {
    let rows = blank(width, height);
    if width < MIN_TERMINAL_WIDTH || height < MIN_TERMINAL_HEIGHT {
        put_lines(rows, 0, height as int, resize_lines(width, height), 0, width as int, false)
    } else {
        let cw = content_width(width);
        let c = cw as int;
        let header = put(put(rows, 1, 0, c, GRADUATE_ART_TOP@), 2, 0, c, GRADUATE_ART_BOTTOM@);
        let body = match m.stage {
            OnboardingScreen::JiraDetails => details_rows(header, m, cw, height),
            OnboardingScreen::JiraToken => token_rows(header, m, cw, height),
            OnboardingScreen::Save => save_rows(header, m, cw, height),
        };
        put(body, height - 1, 0, c, footer_text(m.stage))
    }
}

/// A button of the setup screens: its label, whether it has the focus, the state of the
/// Jira verification it reports, and the spinner frame shown while that is pending.
pub struct SetupButton {
    pub label: String,
    pub focused: bool,
    pub status: ConnectionStatus,
    pub pending_symbol: String,
}

impl SetupButton {
    pub fn new(label: &str, focused: bool, status: ConnectionStatus, pending_symbol: &str) -> (button:
        SetupButton)
        ensures
            button.label@ == label@,
            button.focused == focused,
            button.status == status,
            button.pending_symbol@ == pending_symbol@,
    {
        SetupButton {
            label: label.to_owned(),
            focused,
            status,
            pending_symbol: pending_symbol.to_owned(),
        }
    }

    /// A button shows its focus only while no verification is pending.
    pub fn shows_focus(&self) -> (focus: bool)
        ensures
            focus == (self.focused && self.status != ConnectionStatus::Pending),
    {
        self.focused && self.status != ConnectionStatus::Pending
    }

    /// The text the button shows.
    pub fn text(&self) -> (text: Vec<char>)
        ensures
            text@ == button_text(self.label@, self.status, self.pending_symbol@),
    {
        match self.status {
            ConnectionStatus::Pending => {
                let mut text = chars_of(&self.pending_symbol);
                push_all(&mut text, &chars_of(" Verifying Jira…"));
                text
            },
            ConnectionStatus::Connected => {
                if same_text(&self.label, "Save configuration") {
                    chars_of(&self.label)
                } else {
                    let mut text = chars_of("✓ ");
                    push_all(&mut text, &chars_of(&self.label));
                    push_all(&mut text, &chars_of(" connected"));
                    text
                }
            },
            ConnectionStatus::NotConnected => chars_of(&self.label),
        }
    }
}

fn border_line(left: char, inner: usize, right: char) -> (line: Vec<char>)
    ensures
        line@ == seq![left] + repeat('─', inner as nat) + seq![right],
{
    let mut line: Vec<char> = Vec::new();
    line.push(left);
    push_all(&mut line, &chars_of(&repeat_char('─', inner)));
    line.push(right);
    proof {
        assert(line@ =~= seq![left] + repeat('─', inner as nat) + seq![right]);
    }
    line
}

fn single(c: char) -> (line: Vec<char>)
    ensures
        line@ == seq![c],
{
    let mut line: Vec<char> = Vec::new();
    line.push(c);
    proof {
        assert(line@ =~= seq![c]);
    }
    line
}

/// Draws a button three rows high at row `r`.
fn put_button(rows: &mut Vec<Vec<char>>, r: usize, area_width: usize, text: &Vec<char>)
    requires
        area_width >= 6,
        r <= usize::MAX - 3,
    ensures
        grid(final(rows)@) == draw_button(grid(old(rows)@), r as int, area_width as nat, text@),
{
    let w: usize = if text.len() <= area_width - 6 {
        text.len() + 6
    } else {
        area_width
    };
    let inner = w - 2;
    put_text(rows, r, 0, area_width, &border_line('┌', inner, '┐'));
    put_text(rows, r + 1, 0, area_width, &single('│'));
    put_text(rows, r + 1, w - 1, area_width, &single('│'));
    let at = 1 + crate::canvas::centered_at(text.len(), inner);
    proof {
        assert(centered_offset(text.len() as int, inner as int) <= inner / 2);
    }
    put_text(rows, r + 1, at, w - 1, text);
    put_text(rows, r + 2, 0, area_width, &border_line('└', inner, '┘'));
}

/// The text of an input's row.
fn field_line_chars(label: &str, value: &Vec<char>, placeholder: &str, masked: bool, can_retain: bool) -> (line:
    Vec<char>)
    ensures
        line@ == field_line(label@, value@, placeholder@, masked, can_retain),
{
    let retained = masked && value.len() == 0 && can_retain;
    let display: Vec<char> = if retained {
        chars_of("••••••••••••")
    } else if masked {
        chars_of(&repeat_char('•', value.len()))
    } else {
        value.clone()
    };
    let mut line = chars_of(label);
    if retained {
        push_all(&mut line, &chars_of(" (stored)> "));
    } else {
        push_all(&mut line, &chars_of("> "));
    }
    if display.len() == 0 {
        push_all(&mut line, &chars_of(placeholder));
    } else {
        push_all(&mut line, &display);
    }
    line
}

pub(crate) fn escaped_chars(value: &str) -> (chars: Vec<char>)
    ensures
        chars@ == escaped(value@),
{
    chars_of(&escape(value))
}

fn labelled(label: &str, value: &str) -> (line: Vec<char>)
    ensures
        line@ == label@ + escaped(value@),
{
    let mut line = chars_of(label);
    push_all(&mut line, &escaped_chars(value));
    line
}

pub(crate) fn feedback_chars(m: &OnboardingModel) -> (text: Vec<char>)
    ensures
        text@ == feedback_text(*m),
{
    match &m.error {
        Some(error) => labelled("✕ Error: ", error),
        None => match &m.warning {
            Some(warning) => labelled("! Warning: ", warning),
            None => Vec::new(),
        },
    }
}

fn put_feedback(rows: &mut Vec<Vec<char>>, m: &OnboardingModel, offset: usize, cw: usize, height: usize)
    requires
        height >= 1,
        height <= 65535,
        offset <= 100,
        cw <= 100,
    ensures
        grid(final(rows)@) == draw_feedback(grid(old(rows)@), *m, offset as int, cw as nat, height as nat),
{
    let top = BODY_TOP + offset;
    let room: usize = if height - 1 > top {
        height - 1 - top
    } else {
        0
    };
    let texts = row_strings(&vec![feedback_chars(m)]);
    proof {
        assert(string_views(texts@) =~= seq![feedback_text(*m)]);
    }
    let drawn = paragraph(&texts, cw as u16, room as u16, false, true);
    let lines = text_grid(&drawn);
    put_line_block(rows, top, height - 1, &lines, 0, cw, false);
}

pub(crate) fn pending_chars(m: &OnboardingModel) -> (symbol: &'static str)
    ensures
        symbol@ == model_pending_symbol(*m),
{
    m.pending_symbol()
}

fn put_details(rows: &mut Vec<Vec<char>>, m: &OnboardingModel, cw: usize, height: usize)
    requires
        cw >= 6,
        cw <= 100,
        height >= 1,
        height <= 65535,
    ensures
        grid(final(rows)@) == details_rows(grid(old(rows)@), *m, cw as nat, height as nat),
{
    let b = BODY_TOP;
    put_text(rows, b, 0, cw, &chars_of("Connect your Jira account"));
    put_text(rows, b + 1, 0, cw, &chars_of("Enter the Atlassian account Graduate should use."));
    let host = field_line_chars(
        "Jira site",
        &escaped_chars(&m.hostname.value),
        "company.atlassian.net",
        false,
        false,
    );
    put_text(rows, b + 4, 0, cw, &host);
    let email = field_line_chars(
        "Atlassian email",
        &escaped_chars(&m.email.value),
        "you@example.com",
        false,
        false,
    );
    put_text(rows, b + 6, 0, cw, &email);
    let button = SetupButton::new(
        "Continue to API token",
        m.focus == 2,
        ConnectionStatus::NotConnected,
        pending_chars(m),
    );
    put_button(rows, b + 9, cw, &button.text());
    put_feedback(rows, m, 13, cw, height);
}

fn put_token(rows: &mut Vec<Vec<char>>, m: &OnboardingModel, cw: usize, height: usize)
    requires
        cw >= 6,
        cw <= 100,
        height >= 1,
        height <= 65535,
    ensures
        grid(final(rows)@) == token_rows(grid(old(rows)@), *m, cw as nat, height as nat),
{
    let b = BODY_TOP;
    let fh: usize = if !m.jira_page_can_open || m.warning.is_some() {
        3
    } else {
        0
    };
    put_text(rows, b, 0, cw, &chars_of("Connect Jira"));
    put_text(rows, b + 1, 0, cw, &chars_of("Paste an Atlassian API token."));
    let token = field_line_chars(
        "Atlassian API token",
        &chars_of(&m.jira_token.value),
        "paste token",
        true,
        m.can_retain_jira_token,
    );
    put_text(rows, b + 4, 0, cw, &token);
    if fh > 0 {
        let texts = vec![escape(&m.jira_instruction), escape(&m.jira_url)];
        proof {
            assert(string_views(texts@) =~= seq![escaped(m.jira_instruction@), escaped(m.jira_url@)]);
        }
        let drawn = paragraph(&texts, cw as u16, fh as u16, false, false);
        let lines = text_grid(&drawn);
        put_line_block(rows, b + 6, b + 6 + fh, &lines, 0, cw, false);
    }
    let button = SetupButton::new("Connect Jira", m.focus == 1, m.jira_status, pending_chars(m));
    put_button(rows, b + 7 + fh, cw, &button.text());
    put_feedback(rows, m, 11 + fh, cw, height);
}

fn put_save(rows: &mut Vec<Vec<char>>, m: &OnboardingModel, cw: usize, height: usize)
    requires
        cw >= 6,
        cw <= 100,
        height >= 1,
        height <= 65535,
    ensures
        grid(final(rows)@) == save_rows(grid(old(rows)@), *m, cw as nat, height as nat),
{
    let b = BODY_TOP;
    put_text(rows, b, 0, cw, &chars_of("Review Jira setup"));
    put_text(rows, b + 1, 0, cw, &chars_of("Graduate will save this connection."));
    put_text(rows, b + 3, 0, cw, &chars_of("Field     Value"));
    put_text(rows, b + 4, 0, cw, &chars_of(&repeat_char('─', cw)));
    put_text(rows, b + 5, 0, cw, &labelled("Site      ", &m.hostname.value));
    put_text(rows, b + 6, 0, cw, &labelled("Account   ", &m.email.value));
    put_text(rows, b + 7, 0, cw, &labelled("Identity  ", &m.display_name));
    put_text(rows, b + 9, 0, cw, &chars_of("Does this look right?"));
    let button = SetupButton::new(
        "Save configuration",
        true,
        ConnectionStatus::NotConnected,
        pending_chars(m),
    );
    put_button(rows, b + 11, cw, &button.text());
    put_text(rows, b + 14, 0, cw, &chars_of("J Change Jira account"));
    put_feedback(rows, m, 16, cw, height);
}

fn footer_chars(stage: OnboardingScreen) -> (text: Vec<char>)
    ensures
        text@ == footer_text(stage),
{
    match stage {
        OnboardingScreen::JiraDetails => chars_of("↑↓/tab navigate • enter select • esc cancel"),
        OnboardingScreen::JiraToken => chars_of("↑↓/tab navigate • enter select • esc back"),
        OnboardingScreen::Save => chars_of("enter save • j change account • esc change token"),
    }
}

fn append_lines(lines: &mut Vec<Vec<char>>, more: Vec<Vec<char>>)
    ensures
        grid(final(lines)@) == grid(old(lines)@) + grid(more@),
{
    let ghost first = lines@;
    let mut i: usize = 0;
    while i < more.len()
        invariant
            i <= more.len(),
            grid(lines@) == grid(first) + grid(more@).take(i as int),
        decreases more.len() - i,
    {
        let ghost before = lines@;
        lines.push(more[i].clone());
        i = i + 1;
        proof {
            assert(grid(lines@) =~= grid(before).push(more@[i - 1]@));
            assert(grid(more@).take(i as int) =~= grid(more@).take(i - 1).push(more@[i - 1]@));
        }
    }
    proof {
        assert(grid(more@).take(more.len() as int) =~= grid(more@));
    }
}

fn resize_message(width: u16, height: u16) -> (lines: Vec<Vec<char>>)
    ensures
        grid(lines@) == resize_lines(width as nat, height as nat),
{
    let mut size = chars_of("Current size: ");
    push_all(&mut size, &chars_of(&decimal_string(width as u64)));
    push_all(&mut size, &chars_of(" columns by "));
    push_all(&mut size, &chars_of(&decimal_string(height as u64)));
    push_all(&mut size, &chars_of(" rows."));
    let texts = row_strings(
        &vec![
            chars_of("Terminal too small"),
            Vec::new(),
            size,
            chars_of("Resize to at least 60 columns by 24 rows to continue."),
            chars_of("Your input is preserved."),
            chars_of("Ctrl-C cancels without saving."),
        ],
    );
    proof {
        assert(string_views(texts@) =~= resize_texts(width as nat, height as nat));
    }
    text_grid(&paragraph(&texts, width, height, true, true))
}

/// The rows a terminal of `width` by `height` cells shows for the model.
pub fn render_screen(model: &OnboardingModel, width: u16, height: u16) -> (rows: Vec<String>)
    ensures
        rows.len() == height,
        forall|i: int| 0 <= i < height ==> #[trigger] rows[i]@ == screen(*model, width as nat, height as nat)[i],
{
    let w = width as usize;
    let h = height as usize;
    let mut grid_rows = blank_grid(w, h);
    if size_is_undersized(width, height) {
        let lines = resize_message(width, height);
        put_line_block(&mut grid_rows, 0, h, &lines, 0, w, false);
    } else {
        let cw: usize = if w <= CONTENT_MAX_WIDTH {
            w
        } else {
            CONTENT_MAX_WIDTH
        };
        put_text(&mut grid_rows, 1, 0, cw, &chars_of(GRADUATE_ART_TOP));
        put_text(&mut grid_rows, 2, 0, cw, &chars_of(GRADUATE_ART_BOTTOM));
        match model.stage {
            OnboardingScreen::JiraDetails => put_details(&mut grid_rows, model, cw, h),
            OnboardingScreen::JiraToken => put_token(&mut grid_rows, model, cw, h),
            OnboardingScreen::Save => put_save(&mut grid_rows, model, cw, h),
        }
        put_text(&mut grid_rows, h - 1, 0, cw, &footer_chars(model.stage));
    }
    proof {
        lemma_screen_shaped(*model, w as nat, h as nat);
    }
    row_strings(&grid_rows)
}

/// Every screen fills the terminal exactly: `height` rows of `width` cells.
pub proof fn lemma_screen_shaped(m: OnboardingModel, width: nat, height: nat)
    ensures
        shaped(screen(m, width, height), width, height),
{
    broadcast use lemma_blank_shaped, lemma_put_shaped, lemma_put_lines_shaped;

    let rows = blank(width, height);
    if !(width < MIN_TERMINAL_WIDTH || height < MIN_TERMINAL_HEIGHT) {
        let cw = content_width(width);
        let header = put(put(rows, 1, 0, cw as int, GRADUATE_ART_TOP@), 2, 0, cw as int, GRADUATE_ART_BOTTOM@);
        assert(shaped(header, width, height));
        match m.stage {
            OnboardingScreen::JiraDetails => assert(shaped(details_rows(header, m, cw, height), width, height)),
            OnboardingScreen::JiraToken => assert(shaped(token_rows(header, m, cw, height), width, height)),
            OnboardingScreen::Save => assert(shaped(save_rows(header, m, cw, height), width, height)),
        }
    }
}

/// The screen shows nothing of the API token but how many characters it has: two models
/// that differ only in tokens of the same length look the same.
pub proof fn lemma_screen_hides_token_text(m: OnboardingModel, other_token: String, width: nat, height: nat)
    requires
        other_token@.len() == m.jira_token.value@.len(),
    ensures
        screen(m, width, height) == screen(
            OnboardingModel {
                jira_token: crate::onboarding::TextInput {
                    value: other_token,
                    cursor: m.jira_token.cursor,
                },
                ..m
            },
            width,
            height,
        ),
{
    let other = OnboardingModel {
        jira_token: crate::onboarding::TextInput { value: other_token, cursor: m.jira_token.cursor },
        ..m
    };
    assert(field_line("Atlassian API token"@, m.jira_token.value@, "paste token"@, true, m.can_retain_jira_token)
        == field_line("Atlassian API token"@, other.jira_token.value@, "paste token"@, true, other.can_retain_jira_token));
}

} // verus!

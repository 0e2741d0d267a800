//! The state of the interactive Jira setup screens and how keys move it.

use crossterm::event::{
    Event as TerminalInput, KeyCode as TerminalCode, KeyEvent as TerminalKey, KeyEventKind,
    KeyModifiers as TerminalModifiers,
};
use tui_input::backend::crossterm::EventHandler;
use vstd::prelude::*;

use crate::terminal_text::{is_control, is_control_spec};
use crate::text::literal;
use crate::text_compare::chars_of;

pub use crate::keys::{KeyCode, KeyInput, KeyModifiers};

verus! {

/// The smallest terminal, in columns, that the setup screens draw in.
pub const MIN_TERMINAL_WIDTH: u16 = 60;

/// The smallest terminal, in rows, that the setup screens draw in.
pub const MIN_TERMINAL_HEIGHT: u16 = 24;

/// Milliseconds between animation ticks.
pub const ANIMATION_TICK_MS: u64 = 40;

/// Milliseconds per spinner frame.
pub const PLAYFUL_FRAME_MS: u64 = 80;

/// Milliseconds the cursor stays on, and then off.
pub const CURSOR_BLINK_HALF_PERIOD_MS: u64 = 500;

/// The screens of the setup flow.
#[derive(Clone, Copy, Debug, PartialEq, Eq, Structural)]
pub enum OnboardingScreen {
    JiraDetails,
    JiraToken,
    Save,
}

/// Whether the entered Jira account has been verified.
#[derive(Clone, Copy, Debug, PartialEq, Eq, Structural)]
pub enum ConnectionStatus {
    NotConnected,
    Pending,
    Connected,
}

/// The Jira field that a validation error concerns.
#[derive(Clone, Copy, Debug, PartialEq, Eq, Structural)]
pub enum JiraField {
    Site,
    AtlassianEmail,
    AtlassianToken,
    AccountId,
}

/// What the setup flow should do after a key.
#[derive(Clone, Copy, Debug, PartialEq, Eq, Structural)]
pub enum Action {
    Stay,
    Continue,
    ConnectJira,
    Save,
    EditJira,
    Back,
    Cancel,
}

/// The result of a key: an action for the flow, and whether the key edits the focused
/// text input.
#[derive(Clone, Copy, Debug, PartialEq, Eq, Structural)]
pub struct KeyOutcome {
    pub action: Action,
    pub edit_focused_input: bool,
}

/// A single-line text input: its text and the cursor, counted in characters.
#[derive(Clone, Debug)]
pub struct TextInput {
    pub value: String,
    pub cursor: usize,
}

impl TextInput {
    /// An input holding `text` with the cursor at its end.
    pub fn from_text(text: &str) -> (input: TextInput)
        ensures
            input.value@ == text@,
            input.cursor == text@.len(),
    {
        let count = chars_of(text).len();
        TextInput { value: text.to_owned(), cursor: count }
    }

    /// An empty input.
    pub fn empty() -> (input: TextInput)
        ensures
            input.value@.len() == 0,
            input.cursor == 0,
    {
        TextInput { value: String::new(), cursor: 0 }
    }
}

/// The characters of `text` that are not control characters, in order.
pub open spec fn without_controls(text: Seq<char>) -> Seq<char>
    decreases text.len(),
{
    if text.len() == 0 {
        Seq::empty()
    } else if is_control_spec(text.last()) {
        without_controls(text.drop_last())
    } else {
        without_controls(text.drop_last()).push(text.last())
    }
}

/// The cursor of an input, at most the length of its text.
pub open spec fn clamped_cursor(input: TextInput) -> nat {
    if input.cursor <= input.value@.len() {
        input.cursor as nat
    } else {
        input.value@.len()
    }
}

/// The input after pasting `text`: the characters that are not control characters go in
/// at the cursor, which moves past them.
pub open spec fn pasted(input: TextInput, text: Seq<char>) -> (Seq<char>, nat) {
    let at = clamped_cursor(input);
    let inserted = without_controls(text);
    (input.value@.take(at as int) + inserted + input.value@.skip(at as int), at + inserted.len())
}

/// tui-input's `Input::handle(InputRequest::InsertChar(c))` on an input holding `value`
/// with its cursor at `cursor`: the character goes in before the `cursor`-th character
/// (counted in characters), and the cursor moves past it.
#[verifier::external_body]
fn input_insert_char(value: &str, cursor: usize, c: char) -> (inserted: (String, usize))
    requires
        cursor <= value@.len(),
    ensures
        inserted.0@ == value@.take(cursor as int).push(c) + value@.skip(cursor as int),
        inserted.1 == cursor + 1,
{
    let mut input = tui_input::Input::new(value.to_owned()).with_cursor(cursor);
    input.handle(tui_input::InputRequest::InsertChar(c));
    (input.value().to_owned(), input.cursor())
}

#[verifier::external_type_specification]
#[verifier::external_body]
pub struct ExTerminalKey(crossterm::event::KeyEvent);

/// crossterm's `KeyEvent::new_with_kind` for the code of a key, variant for variant,
/// with no modifier yet: a press for a pressed or repeated key, a release otherwise.
/// `Other` stands for the keys that the library does not name and becomes crossterm's
/// `Null`; tui-input edits with none of them.
#[verifier::external_body]
fn terminal_key(key: KeyInput) -> (event: crossterm::event::KeyEvent) {
    let code = match key.code {
        KeyCode::Char(c) => TerminalCode::Char(c), KeyCode::Enter => TerminalCode::Enter,
        KeyCode::Esc => TerminalCode::Esc, KeyCode::Tab => TerminalCode::Tab,
        KeyCode::BackTab => TerminalCode::BackTab, KeyCode::Up => TerminalCode::Up,
        KeyCode::Down => TerminalCode::Down, KeyCode::Left => TerminalCode::Left,
        KeyCode::Right => TerminalCode::Right, KeyCode::Home => TerminalCode::Home,
        KeyCode::End => TerminalCode::End, KeyCode::PageUp => TerminalCode::PageUp,
        KeyCode::PageDown => TerminalCode::PageDown, KeyCode::Backspace => TerminalCode::Backspace,
        KeyCode::Delete => TerminalCode::Delete, KeyCode::Other => TerminalCode::Null,
    };
    let kind = if key.pressed { KeyEventKind::Press } else { KeyEventKind::Release };
    TerminalKey::new_with_kind(code, TerminalModifiers::empty(), kind)
}

/// The crossterm key event with each modifier flag of `modifiers` set as it is held.
#[verifier::external_body]
fn with_terminal_modifiers(event: crossterm::event::KeyEvent, modifiers: KeyModifiers) -> (held: crossterm::event::KeyEvent) {
    let mut held = event;
    held.modifiers.set(TerminalModifiers::SHIFT, modifiers.shift);
    held.modifiers.set(TerminalModifiers::CONTROL, modifiers.control);
    held.modifiers.set(TerminalModifiers::ALT, modifiers.alt);
    held.modifiers.set(TerminalModifiers::SUPER, modifiers.super_key);
    held.modifiers.set(TerminalModifiers::HYPER, modifiers.hyper);
    held.modifiers.set(TerminalModifiers::META, modifiers.meta);
    held
}

/// What tui-input's `Input::handle_event` does with `key` on an input holding `value`
/// with its cursor at `cursor`: the new text, the new cursor and whether the text
/// changed, or `None` when the key is no edit.
pub uninterp spec fn input_edited(value: Seq<char>, cursor: nat, key: KeyInput) -> Option<(Seq<char>, nat, bool)>;

/// tui-input's `Input::handle_event` on an input holding `value` with its cursor at
/// `cursor`, for the key as crossterm reports it. tui-input's editing rules (character
/// insertion, deletion, cursor and word movement) are named, not restated.
#[verifier::external_body]
fn input_edit(value: &str, cursor: usize, key: KeyInput) -> (edited: Option<(String, usize, bool)>)
    ensures
        match edited {
            Some((text, at, changed)) => input_edited(value@, cursor as nat, key) == Some((text@, at as nat, changed)),
            None => input_edited(value@, cursor as nat, key) is None,
        },
{
    let mut input = tui_input::Input::new(value.to_owned()).with_cursor(cursor);
    let event = with_terminal_modifiers(terminal_key(key), key.modifiers);
    let state = input.handle_event(&TerminalInput::Key(event));
    state.map(|changed| (input.value().to_owned(), input.cursor(), changed.value))
}

/// The model with its focused input replaced by `input`; a change of text also means
/// the verification no longer applies: nothing is connected, no error shows, and the
/// cursor blink restarts.
pub open spec fn with_focused_input(m: OnboardingModel, input: TextInput, changed: bool) -> OnboardingModel {
    let placed = if m.stage == OnboardingScreen::JiraDetails && m.focus == 0 {
        OnboardingModel { hostname: input, ..m }
    } else if m.stage == OnboardingScreen::JiraDetails && m.focus == 1 {
        OnboardingModel { email: input, ..m }
    } else if m.stage == OnboardingScreen::JiraToken && m.focus == 0 {
        OnboardingModel { jira_token: input, ..m }
    } else {
        m
    };
    if changed {
        OnboardingModel {
            cursor_blink_elapsed_ms: 0,
            jira_status: ConnectionStatus::NotConnected,
            error: None,
            ..placed
        }
    } else {
        placed
    }
}

/// `after` is `before` with its focused input edited by `key` as tui-input edits it; with
/// no text input focused, or a key that is no edit, nothing changes.
pub open spec fn edited_by_key(before: OnboardingModel, after: OnboardingModel, key: KeyInput) -> bool {
    match before.focused_input() {
        None => after == before,
        Some(input) => match input_edited(input.value@, input.cursor as nat, key) {
            None => after == before,
            Some((value, cursor, changed)) => after.focused_input() matches Some(edited) && edited.value@ == value
                && edited.cursor == cursor && after == with_focused_input(before, edited, changed),
        },
    }
}

/// The texts, the connection state and the error are those of `before`.
pub open spec fn same_entries(before: OnboardingModel, after: OnboardingModel) -> bool {
    &&& after.hostname == before.hostname
    &&& after.email == before.email
    &&& after.jira_token == before.jira_token
    &&& after.jira_status == before.jira_status
    &&& after.error == before.error
}

impl TextInput {
    /// Inserts the characters of `text` that are not control characters at the cursor.
    /// Returns whether the text changed.
    pub fn paste(&mut self, text: &str) -> (changed: bool)
        ensures
            changed == (without_controls(text@).len() > 0),
            changed ==> (final(self).value@, final(self).cursor as nat) == pasted(*old(self), text@),
            !changed ==> *final(self) == *old(self),
    {
        let chars = chars_of(text);
        let length = chars_of(&self.value).len();
        let at: usize = if self.cursor <= length {
            self.cursor
        } else {
            length
        };
        let ghost before = self.value@;
        let mut value = self.value.clone();
        let mut cursor = at;
        let mut changed = false;
        proof {
            assert(value@ == before);
            assert(before.take(at as int) + Seq::<char>::empty() + before.skip(at as int) =~= before);
            assert(text@.take(0) =~= Seq::<char>::empty());
        }
        let mut i: usize = 0;
        while i < chars.len()
            invariant
                chars@ == text@,
                i <= chars.len(),
                at <= before.len(),
                value@ == before.take(at as int) + without_controls(text@.take(i as int))
                    + before.skip(at as int),
                cursor == at + without_controls(text@.take(i as int)).len(),
                changed == (without_controls(text@.take(i as int)).len() > 0),
            decreases chars.len() - i,
        {
            let c = chars[i];
            let ghost done = without_controls(text@.take(i as int));
            proof {
                assert(text@.take(i + 1).drop_last() =~= text@.take(i as int));
                assert(text@.take(i + 1).last() == c);
            }
            if !is_control(c) {
                proof {
                    assert(value@.take(cursor as int) =~= before.take(at as int) + done);
                    assert(value@.skip(cursor as int) =~= before.skip(at as int));
                }
                let (next, moved) = input_insert_char(&value, cursor, c);
                value = next;
                cursor = moved;
                changed = true;
                proof {
                    assert(value@ =~= before.take(at as int) + done.push(c) + before.skip(at as int));
                }
            }
            i = i + 1;
        }
        proof {
            assert(text@.take(chars.len() as int) =~= text@);
        }
        if changed {
            self.value = value;
            self.cursor = cursor;
        }
        changed
    }
}

/// The message after Jira refused the entered account.
pub open spec fn rejected_message() -> Seq<char> {
    "Could not connect to Jira: Jira rejected the site, Atlassian email, or API token."@
}

/// The warning after a verification was abandoned.
pub open spec fn cancelled_warning() -> Seq<char> {
    "Jira verification cancelled. Nothing was saved."@
}

/// The screen before `stage` in the setup order (details, token, save); the first has
/// none, so going back from it cancels the setup.
pub open spec fn previous_screen_of(stage: OnboardingScreen) -> Option<OnboardingScreen> {
    match stage {
        OnboardingScreen::JiraDetails => None,
        OnboardingScreen::JiraToken => Some(OnboardingScreen::JiraDetails),
        OnboardingScreen::Save => Some(OnboardingScreen::JiraToken),
    }
}

/// The screen before `stage`, if any.
pub fn previous_screen(stage: OnboardingScreen) -> (previous: Option<OnboardingScreen>)
    ensures
        previous == previous_screen_of(stage),
{
    match stage {
        OnboardingScreen::JiraDetails => None,
        OnboardingScreen::JiraToken => Some(OnboardingScreen::JiraDetails),
        OnboardingScreen::Save => Some(OnboardingScreen::JiraToken),
    }
}

/// Everything the setup screens show and remember.
pub struct OnboardingModel {
    pub pending_animation_elapsed_ms: u64,
    pub cursor_blink_elapsed_ms: u64,
    pub reduced_motion: bool,
    pub stage: OnboardingScreen,
    pub focus: usize,
    pub hostname: TextInput,
    pub email: TextInput,
    pub display_name: String,
    pub jira_token: TextInput,
    pub can_retain_jira_token: bool,
    pub jira_instruction: String,
    pub jira_url: String,
    pub jira_page_can_open: bool,
    pub jira_page_loaded: bool,
    pub jira_status: ConnectionStatus,
    pub error: Option<String>,
    pub warning: Option<String>,
}

/// How many controls each screen has: two fields and a button, a field and a button,
/// or the save button.
pub open spec fn focus_count_of(stage: OnboardingScreen) -> nat {
    match stage {
        OnboardingScreen::JiraDetails => 3,
        OnboardingScreen::JiraToken => 2,
        OnboardingScreen::Save => 1,
    }
}

/// Whether the focused control is a text input.
pub open spec fn text_input_focused_spec(stage: OnboardingScreen, focus: nat) -> bool {
    (stage == OnboardingScreen::JiraDetails && (focus == 0 || focus == 1)) || (stage
        == OnboardingScreen::JiraToken && focus == 0)
}

/// The action and editing that a key causes, given the screen and focus before it.
pub open spec fn key_outcome(stage: OnboardingScreen, focus: nat, key: KeyInput) -> KeyOutcome {
    let none = KeyOutcome { action: Action::Stay, edit_focused_input: false };
    if !key.pressed {
        none
    } else if key.modifiers.control && key.code == KeyCode::Char('c') {
        KeyOutcome { action: Action::Cancel, edit_focused_input: false }
    } else {
        match key.code {
            KeyCode::Esc => if stage == OnboardingScreen::JiraDetails {
                KeyOutcome { action: Action::Cancel, edit_focused_input: false }
            } else {
                KeyOutcome { action: Action::Back, edit_focused_input: false }
            },
            KeyCode::Tab | KeyCode::BackTab | KeyCode::Up | KeyCode::Down => none,
            KeyCode::Enter => match stage {
                OnboardingScreen::JiraDetails => if focus == 2 {
                    KeyOutcome { action: Action::Continue, edit_focused_input: false }
                } else {
                    none
                },
                OnboardingScreen::JiraToken => if focus == 1 {
                    KeyOutcome { action: Action::ConnectJira, edit_focused_input: false }
                } else {
                    none
                },
                OnboardingScreen::Save => KeyOutcome { action: Action::Save, edit_focused_input: false },
            },
            KeyCode::Char(c) => if (c == 'j' || c == 'J') && stage == OnboardingScreen::Save
                && !key.modifiers.control && !key.modifiers.alt && !key.modifiers.super_key
                    && !key.modifiers.hyper && !key.modifiers.meta {
                KeyOutcome { action: Action::EditJira, edit_focused_input: false }
            } else {
                KeyOutcome { action: Action::Stay, edit_focused_input: text_input_focused_spec(stage, focus) }
            },
            _ => KeyOutcome {
                action: Action::Stay,
                edit_focused_input: text_input_focused_spec(stage, focus),
            },
        }
    }
}

/// The focus after a key.
pub open spec fn focus_after_key(stage: OnboardingScreen, focus: nat, key: KeyInput) -> nat {
    let count = focus_count_of(stage);
    let next = (focus + 1) % count;
    let previous = ((focus + count - 1) % (count as int)) as nat;
    if !key.pressed || (key.modifiers.control && key.code == KeyCode::Char('c')) {
        focus
    } else {
        match key.code {
            KeyCode::Tab => if key.modifiers.shift {
                previous
            } else {
                next
            },
            KeyCode::BackTab | KeyCode::Up => previous,
            KeyCode::Down => next,
            KeyCode::Enter => match stage {
                OnboardingScreen::JiraDetails => if focus == 2 {
                    focus
                } else {
                    next
                },
                OnboardingScreen::JiraToken => if focus == 1 {
                    focus
                } else {
                    next
                },
                OnboardingScreen::Save => focus,
            },
            _ => focus,
        }
    }
}

impl OnboardingModel {
    /// The focus designates one of the screen's controls.
    pub open spec fn focus_in_range(&self) -> bool {
        self.focus < focus_count_of(self.stage)
    }

    /// The number of focusable controls on the current screen.
    pub fn focus_count(&self) -> (count: usize)
        ensures
            count == focus_count_of(self.stage),
    {
        match self.stage {
            OnboardingScreen::JiraDetails => 3,
            OnboardingScreen::JiraToken => 2,
            OnboardingScreen::Save => 1,
        }
    }

    /// Restarts the cursor blink so the cursor shows right after input.
    pub fn reset_cursor_blink(&mut self)
        ensures
            *final(self) == (OnboardingModel { cursor_blink_elapsed_ms: 0, ..*old(self) }),
    {
        self.cursor_blink_elapsed_ms = 0;
    }

    /// Moves the focus to the next control, wrapping around.
    pub fn focus_next(&mut self)
        ensures
            final(self).focus == (old(self).focus + 1) % (focus_count_of(old(self).stage) as int),
            final(self).stage == old(self).stage,
            final(self).cursor_blink_elapsed_ms == 0,
            final(self).focus_in_range(),
            same_entries(*old(self), *final(self)),
    {
        let count = self.focus_count();
        proof {
            vstd::arithmetic::div_mod::lemma_add_mod_noop_right(1, self.focus as int, count as int);
        }
        self.focus = (self.focus % count + 1) % count;
        self.reset_cursor_blink();
    }

    /// Moves the focus to the previous control, wrapping around.
    pub fn focus_previous(&mut self)
        ensures
            final(self).focus == (old(self).focus + focus_count_of(old(self).stage) - 1)
                % focus_count_of(old(self).stage) as int,
            final(self).stage == old(self).stage,
            final(self).cursor_blink_elapsed_ms == 0,
            final(self).focus_in_range(),
            same_entries(*old(self), *final(self)),
    {
        let count = self.focus_count();
        proof {
            vstd::arithmetic::div_mod::lemma_add_mod_noop_right(count - 1, self.focus as int, count as int);
        }
        self.focus = (self.focus % count + (count - 1)) % count;
        self.reset_cursor_blink();
    }

    /// Whether the focused control is a text input.
    pub fn text_input_focused(&self) -> (focused: bool)
        ensures
            focused == text_input_focused_spec(self.stage, self.focus as nat),
    {
        match self.stage {
            OnboardingScreen::JiraDetails => self.focus == 0 || self.focus == 1,
            OnboardingScreen::JiraToken => self.focus == 0,
            OnboardingScreen::Save => false,
        }
    }

    /// Records that the focused input changed: the verification no longer applies.
    pub fn input_changed(&mut self)
        ensures
            *final(self) == (OnboardingModel {
                cursor_blink_elapsed_ms: 0,
                jira_status: ConnectionStatus::NotConnected,
                error: None,
                ..*old(self)
            }),
    {
        self.reset_cursor_blink();
        self.jira_status = ConnectionStatus::NotConnected;
        self.error = None;
    }

    /// The focused text input's text and cursor, if a text input has the focus.
    pub open spec fn focused_input(&self) -> Option<TextInput> {
        if self.stage == OnboardingScreen::JiraDetails && self.focus == 0 {
            Some(self.hostname)
        } else if self.stage == OnboardingScreen::JiraDetails && self.focus == 1 {
            Some(self.email)
        } else if self.stage == OnboardingScreen::JiraToken && self.focus == 0 {
            Some(self.jira_token)
        } else {
            None
        }
    }

    /// The text and cursor of the focused input, if a text input has the focus.
    pub fn focused_text(&self) -> (focused: Option<(String, usize)>)
        ensures
            match self.focused_input() {
                Some(input) => focused matches Some((value, cursor)) && value@ == input.value@ && cursor
                    == input.cursor,
                None => focused is None,
            },
    {
        if self.stage == OnboardingScreen::JiraDetails && self.focus == 0 {
            Some((literal(self.hostname.value.as_str()), self.hostname.cursor))
        } else if self.stage == OnboardingScreen::JiraDetails && self.focus == 1 {
            Some((literal(self.email.value.as_str()), self.email.cursor))
        } else if self.stage == OnboardingScreen::JiraToken && self.focus == 0 {
            Some((literal(self.jira_token.value.as_str()), self.jira_token.cursor))
        } else {
            None
        }
    }

    /// Pastes `text` into the focused input. When the text changed, the verification no
    /// longer applies and the error is cleared. Returns whether it changed.
    pub fn paste(&mut self, text: &str) -> (changed: bool)
        ensures
            changed == (old(self).focused_input() is Some && without_controls(text@).len() > 0),
            changed ==> ({
                let input = final(self).focused_input().unwrap();
                (input.value@, input.cursor as nat) == pasted(old(self).focused_input().unwrap(), text@)
            }),
            changed ==> final(self).jira_status == ConnectionStatus::NotConnected
                && final(self).error is None && final(self).cursor_blink_elapsed_ms == 0,
            !changed ==> *final(self) == *old(self),
            final(self).stage == old(self).stage,
            final(self).focus == old(self).focus,
    {
        let changed = if self.stage == OnboardingScreen::JiraDetails && self.focus == 0 {
            self.hostname.paste(text)
        } else if self.stage == OnboardingScreen::JiraDetails && self.focus == 1 {
            self.email.paste(text)
        } else if self.stage == OnboardingScreen::JiraToken && self.focus == 0 {
            self.jira_token.paste(text)
        } else {
            false
        };
        if changed {
            self.input_changed();
        }
        changed
    }

    /// Stores the result of editing the focused input with a key: its new text and
    /// cursor. When the text changed, the verification no longer applies.
    pub fn apply_text_edit(&mut self, value: String, cursor: usize, value_changed: bool)
        ensures
            old(self).focused_input() is Some ==> final(self).focused_input() == Some(
                TextInput { value, cursor },
            ) && *final(self) == with_focused_input(*old(self), TextInput { value, cursor }, value_changed),
            old(self).focused_input() is None ==> *final(self) == *old(self),
            old(self).focused_input() is Some && value_changed ==> final(self).jira_status
                == ConnectionStatus::NotConnected && final(self).error is None,
            old(self).focused_input() is Some && !value_changed ==> final(self).jira_status
                == old(self).jira_status && final(self).error == old(self).error,
            final(self).stage == old(self).stage,
            final(self).focus == old(self).focus,
    {
        let focused = self.stage == OnboardingScreen::JiraDetails && (self.focus == 0 || self.focus == 1)
            || self.stage == OnboardingScreen::JiraToken && self.focus == 0;
        if !focused {
            return;
        }
        let input = TextInput { value, cursor };
        if self.stage == OnboardingScreen::JiraDetails && self.focus == 0 {
            self.hostname = input;
        } else if self.stage == OnboardingScreen::JiraDetails {
            self.email = input;
        } else {
            self.jira_token = input;
        }
        if value_changed {
            self.input_changed();
        }
    }

    /// Edits the focused text input with a key as tui-input does; returns whether its
    /// text changed. A changed text clears the verification and any error.
    pub fn edit_focused_input(&mut self, key: KeyInput) -> (changed: bool)
        ensures
            edited_by_key(*old(self), *final(self), key),
            changed == (match old(self).focused_input() {
                Some(input) => input_edited(input.value@, input.cursor as nat, key) matches Some(edit) && edit.2,
                None => false,
            }),
    {
        match self.focused_text() {
            None => false,
            Some((value, cursor)) => match input_edit(&value, cursor, key) {
                None => false,
                Some((text, at, changed)) => {
                    self.apply_text_edit(text, at, changed);
                    changed
                },
            },
        }
    }

    /// Enter: submits the screen's button, or moves to the next control.
    pub fn activate_or_advance(&mut self) -> (action: Action)
        ensures
            action == key_outcome(
                old(self).stage,
                old(self).focus as nat,
                KeyInput {
                    code: KeyCode::Enter,
                    modifiers: KeyModifiers { shift: false, control: false, alt: false, super_key: false, hyper: false, meta: false },
                    pressed: true,
                },
            ).action,
            final(self).focus == focus_after_key(
                old(self).stage,
                old(self).focus as nat,
                KeyInput {
                    code: KeyCode::Enter,
                    modifiers: KeyModifiers { shift: false, control: false, alt: false, super_key: false, hyper: false, meta: false },
                    pressed: true,
                },
            ),
            final(self).stage == old(self).stage,
            old(self).focus_in_range() ==> final(self).focus_in_range(),
            same_entries(*old(self), *final(self)),
            final(self).cursor_blink_elapsed_ms == if action == Action::Stay {
                0
            } else {
                old(self).cursor_blink_elapsed_ms
            },
    {
        match self.stage {
            OnboardingScreen::JiraDetails => {
                if self.focus == 2 {
                    return Action::Continue;
                }
            },
            OnboardingScreen::JiraToken => {
                if self.focus == 1 {
                    return Action::ConnectJira;
                }
            },
            OnboardingScreen::Save => {
                return Action::Save;
            },
        }
        self.focus_next();
        Action::Stay
    }

    /// Handles a key: navigation and submission, and otherwise an edit of the focused
    /// text input as tui-input makes it.
    pub fn handle_key(&mut self, key: KeyInput) -> (outcome: KeyOutcome)
        ensures
            outcome == key_outcome(old(self).stage, old(self).focus as nat, key),
            final(self).focus == focus_after_key(old(self).stage, old(self).focus as nat, key),
            final(self).stage == old(self).stage,
            old(self).focus_in_range() ==> final(self).focus_in_range(),
            key.pressed ==> final(self).cursor_blink_elapsed_ms == 0,
            !key.pressed ==> final(self).cursor_blink_elapsed_ms == old(self).cursor_blink_elapsed_ms,
            outcome.edit_focused_input ==> edited_by_key(
                OnboardingModel { cursor_blink_elapsed_ms: 0, ..*old(self) },
                *final(self),
                key,
            ),
            !outcome.edit_focused_input ==> same_entries(*old(self), *final(self)),
    {
        let none = KeyOutcome { action: Action::Stay, edit_focused_input: false };
        if !key.pressed {
            return none;
        }
        self.reset_cursor_blink();
        if key.modifiers.control && key.code == KeyCode::Char('c') {
            return KeyOutcome { action: Action::Cancel, edit_focused_input: false };
        }
        match key.code {
            KeyCode::Esc => {
                if self.stage == OnboardingScreen::JiraDetails {
                    KeyOutcome { action: Action::Cancel, edit_focused_input: false }
                } else {
                    KeyOutcome { action: Action::Back, edit_focused_input: false }
                }
            },
            KeyCode::Tab => {
                if key.modifiers.shift {
                    self.focus_previous();
                } else {
                    self.focus_next();
                }
                none
            },
            KeyCode::BackTab | KeyCode::Up => {
                self.focus_previous();
                none
            },
            KeyCode::Down => {
                self.focus_next();
                none
            },
            KeyCode::Enter => {
                let action = self.activate_or_advance();
                KeyOutcome { action, edit_focused_input: false }
            },
            KeyCode::Char(c) => {
                if (c == 'j' || c == 'J') && self.stage == OnboardingScreen::Save
                    && !key.modifiers.control && !key.modifiers.alt && !key.modifiers.super_key
                    && !key.modifiers.hyper && !key.modifiers.meta {
                    KeyOutcome { action: Action::EditJira, edit_focused_input: false }
                } else {
                    let edit = self.text_input_focused();
                    self.edit_focused_input(key);
                    KeyOutcome { action: Action::Stay, edit_focused_input: edit }
                }
            },
            _ => {
                let edit = self.text_input_focused();
                self.edit_focused_input(key);
                KeyOutcome { action: Action::Stay, edit_focused_input: edit }
            },
        }
    }

    /// Moves to `stage` with the first control focused and no message shown.
    pub fn set_stage(&mut self, stage: OnboardingScreen)
        ensures
            final(self).stage == stage,
            final(self).focus == 0,
            final(self).error is None,
            final(self).warning is None,
            final(self).cursor_blink_elapsed_ms == 0,
            final(self).focus_in_range(),
            final(self).hostname == old(self).hostname,
            final(self).email == old(self).email,
            final(self).jira_token == old(self).jira_token,
            final(self).display_name == old(self).display_name,
            final(self).can_retain_jira_token == old(self).can_retain_jira_token,
            final(self).jira_status == old(self).jira_status,
    {
        self.stage = stage;
        self.focus = 0;
        self.error = None;
        self.warning = None;
        self.reset_cursor_blink();
    }

    /// Shows a validation error and focuses the field it concerns: the email field for an
    /// email error, the first control otherwise.
    pub fn show_validation_error(&mut self, field: Option<JiraField>, message: String)
        ensures
            final(self).focus == if field == Some(JiraField::AtlassianEmail) {
                1usize
            } else {
                0usize
            },
            final(self).jira_status == ConnectionStatus::NotConnected,
            final(self).error == Some(message),
            final(self).stage == old(self).stage,
            old(self).stage != OnboardingScreen::Save ==> final(self).focus_in_range(),
            final(self).jira_token == old(self).jira_token,
    {
        self.focus = match field {
            Some(JiraField::AtlassianEmail) => 1,
            _ => 0,
        };
        self.jira_status = ConnectionStatus::NotConnected;
        self.error = Some(message);
    }

    /// Starts verifying the entered account: no message, the button pending, its spinner
    /// from the first frame.
    pub fn begin_verification(&mut self)
        ensures
            final(self).error is None,
            final(self).warning is None,
            final(self).jira_status == ConnectionStatus::Pending,
            final(self).pending_animation_elapsed_ms == 0,
            final(self).stage == old(self).stage,
            final(self).focus == old(self).focus,
    {
        self.error = None;
        self.warning = None;
        self.jira_status = ConnectionStatus::Pending;
        self.pending_animation_elapsed_ms = 0;
    }

    /// The token to verify: `None` keeps the stored token, which happens when the field
    /// is empty and a stored token may be kept; otherwise the typed token.
    pub fn verification_token(&self) -> (token: Option<String>)
        ensures
            (self.jira_token.value@.len() == 0 && self.can_retain_jira_token) ==> token is None,
            !(self.jira_token.value@.len() == 0 && self.can_retain_jira_token) ==> (token matches Some(t)
                && t@ == self.jira_token.value@),
    {
        if chars_of(self.jira_token.value.as_str()).len() == 0 && self.can_retain_jira_token {
            None
        } else {
            Some(literal(self.jira_token.value.as_str()))
        }
    }

    /// Jira accepted the account: the fields show what was verified, the name falls back
    /// to the email, the typed token is cleared, and the save screen follows.
    pub fn connection_verified(&mut self, site: &str, email: &str, display_name: &str, can_retain_token: bool)
        ensures
            final(self).hostname.value@ == site@,
            final(self).email.value@ == email@,
            final(self).display_name@ == if display_name@.len() == 0 {
                email@
            } else {
                display_name@
            },
            final(self).jira_token.value@.len() == 0,
            final(self).can_retain_jira_token == can_retain_token,
            final(self).jira_status == ConnectionStatus::Connected,
            final(self).stage == OnboardingScreen::Save,
            final(self).focus == 0,
            final(self).error is None,
    {
        self.hostname = TextInput::from_text(site);
        self.email = TextInput::from_text(email);
        self.display_name = if chars_of(display_name).len() == 0 {
            literal(email)
        } else {
            literal(display_name)
        };
        self.jira_token = TextInput::empty();
        self.can_retain_jira_token = can_retain_token;
        self.jira_status = ConnectionStatus::Connected;
        self.set_stage(OnboardingScreen::Save);
    }

    /// Jira refused the account: the token is cleared and the refusal explained.
    pub fn connection_rejected(&mut self)
        ensures
            final(self).jira_status == ConnectionStatus::NotConnected,
            final(self).jira_token.value@.len() == 0,
            final(self).focus == 0,
            final(self).error matches Some(m) && m@ == rejected_message(),
            final(self).stage == old(self).stage,
    {
        self.jira_status = ConnectionStatus::NotConnected;
        self.jira_token = TextInput::empty();
        self.focus = 0;
        self.error = Some(literal("Could not connect to Jira: Jira rejected the site, Atlassian email, or API token."));
    }

    /// The entered account is not valid: the token is cleared and the field at fault is
    /// shown with the message.
    pub fn connection_invalid(&mut self, field: Option<JiraField>, message: String)
        ensures
            final(self).jira_token.value@.len() == 0,
            final(self).jira_status == ConnectionStatus::NotConnected,
            final(self).error == Some(message),
            final(self).focus == if field == Some(JiraField::AtlassianEmail) {
                1usize
            } else {
                0usize
            },
            final(self).stage == old(self).stage,
    {
        self.jira_token = TextInput::empty();
        self.show_validation_error(field, message);
    }

    /// The verification was abandoned with Esc: nothing is connected and nothing saved.
    pub fn verification_cancelled(&mut self)
        ensures
            final(self).jira_status == ConnectionStatus::NotConnected,
            final(self).warning matches Some(w) && w@ == cancelled_warning(),
            final(self).stage == old(self).stage,
            final(self).focus == old(self).focus,
    {
        self.jira_status = ConnectionStatus::NotConnected;
        self.warning = Some(literal("Jira verification cancelled. Nothing was saved."));
    }

    /// Goes back to `target`, the screen before this one; without one the setup is
    /// cancelled (`false`). Leaving or returning to the token screen clears the typed
    /// token, and returning to it forgets the verification.
    pub fn go_back(&mut self, target: Option<OnboardingScreen>) -> (stays: bool)
        ensures
            stays == target is Some,
            target matches Some(screen) ==> final(self).stage == screen && final(self).focus == 0
                && final(self).error is None,
            (old(self).stage == OnboardingScreen::JiraToken || target == Some(OnboardingScreen::JiraToken))
                ==> final(self).jira_token.value@.len() == 0,
            target == Some(OnboardingScreen::JiraToken) ==> final(self).jira_status == ConnectionStatus::NotConnected,
            target != Some(OnboardingScreen::JiraToken) ==> final(self).jira_status == old(self).jira_status,
    {
        if self.stage == OnboardingScreen::JiraToken {
            self.jira_token = TextInput::empty();
        }
        match target {
            None => false,
            Some(screen) => {
                if screen == OnboardingScreen::JiraToken {
                    self.jira_status = ConnectionStatus::NotConnected;
                    self.jira_token = TextInput::empty();
                }
                self.set_stage(screen);
                true
            },
        }
    }

    /// Returns from the save screen to the Jira details: the verification no longer
    /// applies and the token is cleared.
    pub fn edit_details(&mut self)
        ensures
            final(self).stage == OnboardingScreen::JiraDetails,
            final(self).focus == 0,
            final(self).jira_status == ConnectionStatus::NotConnected,
            final(self).jira_token.value@.len() == 0,
    {
        self.jira_status = ConnectionStatus::NotConnected;
        self.jira_token = TextInput::empty();
        self.set_stage(OnboardingScreen::JiraDetails);
    }

    /// Whether anything on screen animates, so the screen must redraw on a timer.
    pub fn animations_active(&self) -> (active: bool)
        ensures
            active == (!self.reduced_motion && (self.jira_status == ConnectionStatus::Pending
                || text_input_focused_spec(self.stage, self.focus as nat))),
    {
        (!self.reduced_motion && self.jira_status == ConnectionStatus::Pending) || (
        !self.reduced_motion && self.text_input_focused())
    }

    /// Advances the spinner while verifying and the cursor blink while typing.
    pub fn advance_animations(&mut self, elapsed_ms: u64)
        ensures
            final(self).pending_animation_elapsed_ms == if old(self).jira_status
                == ConnectionStatus::Pending {
                saturating(old(self).pending_animation_elapsed_ms + elapsed_ms)
            } else {
                old(self).pending_animation_elapsed_ms
            },
            final(self).cursor_blink_elapsed_ms == if !old(self).reduced_motion
                && text_input_focused_spec(old(self).stage, old(self).focus as nat) {
                saturating(old(self).cursor_blink_elapsed_ms + elapsed_ms)
            } else {
                old(self).cursor_blink_elapsed_ms
            },
            final(self).stage == old(self).stage,
            final(self).focus == old(self).focus,
    {
        if self.jira_status == ConnectionStatus::Pending {
            self.pending_animation_elapsed_ms = self.pending_animation_elapsed_ms.saturating_add(
                elapsed_ms,
            );
        }
        if !self.reduced_motion && self.text_input_focused() {
            self.cursor_blink_elapsed_ms = self.cursor_blink_elapsed_ms.saturating_add(elapsed_ms);
        }
    }

    /// The cursor shows during the first half of each blink period, or always when motion
    /// is reduced.
    pub fn cursor_visible(&self) -> (visible: bool)
        ensures
            visible == (self.reduced_motion || (self.cursor_blink_elapsed_ms
                / CURSOR_BLINK_HALF_PERIOD_MS) % 2 == 0),
    {
        self.reduced_motion || (self.cursor_blink_elapsed_ms / CURSOR_BLINK_HALF_PERIOD_MS) % 2 == 0
    }

    /// The spinner frame shown while verifying, or an ellipsis when nothing spins.
    pub fn pending_symbol(&self) -> (symbol: &'static str)
        ensures
            symbol@ == pending_symbol_spec(self.reduced_motion, self.jira_status, self.pending_animation_elapsed_ms),
    {
        if self.reduced_motion || self.jira_status != ConnectionStatus::Pending {
            proof {
                reveal_strlit("…");
            }
            return "…";
        }
        let frame = (self.pending_animation_elapsed_ms / PLAYFUL_FRAME_MS) % 10;
        spinner_frame(frame)
    }
}

/// `value + elapsed`, saturating at the largest count.
pub open spec fn saturating(value: int) -> u64 {
    if value > u64::MAX {
        u64::MAX
    } else {
        value as u64
    }
}

/// The braille spinner frames.
pub open spec fn spinner_frames() -> Seq<Seq<char>> {
    seq!["⠋"@, "⠙"@, "⠹"@, "⠸"@, "⠼"@, "⠴"@, "⠦"@, "⠧"@, "⠇"@, "⠏"@]
}

/// The symbol of a button while its verification is pending.
pub open spec fn pending_symbol_spec(reduced_motion: bool, status: ConnectionStatus, elapsed_ms: u64) -> Seq<char> {
    if reduced_motion || status != ConnectionStatus::Pending {
        "…"@
    } else {
        spinner_frames()[((elapsed_ms / PLAYFUL_FRAME_MS) % 10) as int]
    }
}

fn spinner_frame(frame: u64) -> (symbol: &'static str)
    requires
        frame < 10,
    ensures
        symbol@ == spinner_frames()[frame as int],
{
    proof {
        reveal_strlit("⠋");
        reveal_strlit("⠙");
        reveal_strlit("⠹");
        reveal_strlit("⠸");
        reveal_strlit("⠼");
        reveal_strlit("⠴");
        reveal_strlit("⠦");
        reveal_strlit("⠧");
        reveal_strlit("⠇");
        reveal_strlit("⠏");
    }
    match frame {
        0 => "⠋",
        1 => "⠙",
        2 => "⠹",
        3 => "⠸",
        4 => "⠼",
        5 => "⠴",
        6 => "⠦",
        7 => "⠧",
        8 => "⠇",
        _ => "⠏",
    }
}

/// Whether a terminal of this size is too small for the setup screens.
pub fn size_is_undersized(width: u16, height: u16) -> (undersized: bool)
    ensures
        undersized == (width < MIN_TERMINAL_WIDTH || height < MIN_TERMINAL_HEIGHT),
{
    width < MIN_TERMINAL_WIDTH || height < MIN_TERMINAL_HEIGHT
}

/// Ctrl-C pressed or repeated.
pub fn is_cancel_event(key: KeyInput) -> (cancel: bool)
    ensures
        cancel == (key.pressed && key.modifiers.control && key.code == KeyCode::Char('c')),
{
    key.pressed && key.modifiers.control && key.code == KeyCode::Char('c')
}

/// Esc pressed or repeated.
pub fn is_back_event(key: KeyInput) -> (back: bool)
    ensures
        back == (key.pressed && key.code == KeyCode::Esc),
{
    key.pressed && key.code == KeyCode::Esc
}

/// The code point of a character with ASCII letters taken in lowercase.
pub open spec fn ascii_lower(c: char) -> u32 {
    if 'A' <= c <= 'Z' {
        ((c as u32) + 32) as u32
    } else {
        c as u32
    }
}

/// The text without leading and trailing white space.
pub open spec fn trimmed(value: Seq<char>) -> Seq<char>
    decreases value.len(),
{
    if value.len() > 0 && crate::text_compare::is_whitespace_spec(value[0]) {
        trimmed(value.drop_first())
    } else if value.len() > 0 && crate::text_compare::is_whitespace_spec(value.last()) {
        trimmed(value.drop_last())
    } else {
        value
    }
}

/// `a` and `b` are equal when ASCII letters are compared without case.
pub open spec fn eq_ignore_ascii_case(a: Seq<char>, b: Seq<char>) -> bool {
    a.len() == b.len() && forall|i: int| 0 <= i < a.len() ==> ascii_lower(#[trigger] a[i]) == ascii_lower(b[i])
}

/// The values of `GRADUATE_REDUCED_MOTION` that ask for reduced motion: `1`, or `true`,
/// `yes` or `on` in any case, with surrounding white space ignored.
pub open spec fn is_truthy(value: Seq<char>) -> bool {
    let v = trimmed(value);
    v == "1"@ || eq_ignore_ascii_case(v, "true"@) || eq_ignore_ascii_case(v, "yes"@)
        || eq_ignore_ascii_case(v, "on"@)
}

#[verifier::spinoff_prover]
pub(crate) fn trim_chars(value: &str) -> (result: Vec<char>)
    ensures
        result@ == trimmed(value@),
{
    let chars = chars_of(value);
    let mut start: usize = 0;
    let mut end: usize = chars.len();
    proof {
        assert(value@.subrange(0, value@.len() as int) =~= value@);
    }
    while start < end && crate::text_compare::is_whitespace(chars[start])
        invariant
            chars@ == value@,
            start <= end <= chars.len(),
            end == chars.len(),
            trimmed(value@) == trimmed(value@.subrange(start as int, end as int)),
        decreases end - start,
    {
        proof {
            assert(value@.subrange(start as int, end as int).drop_first() =~= value@.subrange(start + 1, end as int));
        }
        start = start + 1;
    }
    while start < end && crate::text_compare::is_whitespace(chars[end - 1])
        invariant
            chars@ == value@,
            start <= end <= chars.len(),
            trimmed(value@) == trimmed(value@.subrange(start as int, end as int)),
            start < end ==> !crate::text_compare::is_whitespace_spec(value@[start as int]),
        decreases end - start,
    {
        proof {
            let s = value@.subrange(start as int, end as int);
            assert(s.drop_last() =~= value@.subrange(start as int, end - 1));
            assert(s[0] == value@[start as int]);
        }
        end = end - 1;
    }
    let mut result = Vec::new();
    let mut i: usize = start;
    while i < end
        invariant
            chars@ == value@,
            start <= i <= end <= chars.len(),
            result@ == value@.subrange(start as int, i as int),
        decreases end - i,
    {
        result.push(chars[i]);
        i = i + 1;
        proof {
            assert(result@ =~= value@.subrange(start as int, i as int));
        }
    }
    proof {
        let s = value@.subrange(start as int, end as int);
        if s.len() > 0 {
            assert(s[0] == value@[start as int]);
            assert(s.last() == value@[end - 1]);
        }
    }
    result
}

fn lower(c: char) -> (l: u32)
    ensures
        l == ascii_lower(c),
{
    let code = c as u32;
    if 'A' <= c && c <= 'Z' {
        code + 32
    } else {
        code
    }
}

fn equals_ignoring_case(a: &Vec<char>, b: &str) -> (result: bool)
    ensures
        result == eq_ignore_ascii_case(a@, b@),
{
    let bc = chars_of(b);
    if a.len() != bc.len() {
        return false;
    }
    let mut i: usize = 0;
    while i < a.len()
        invariant
            bc@ == b@,
            a.len() == bc.len(),
            i <= a.len(),
            forall|j: int| 0 <= j < i ==> ascii_lower(#[trigger] a@[j]) == ascii_lower(bc@[j]),
        decreases a.len() - i,
    {
        if lower(a[i]) != lower(bc[i]) {
            return false;
        }
        i = i + 1;
    }
    true
}

/// Whether the value of `GRADUATE_REDUCED_MOTION` asks for reduced motion.
pub fn reduced_motion_value(value: Option<&str>) -> (reduced: bool)
    ensures
        reduced == (value matches Some(v) && is_truthy(v@)),
{
    match value {
        None => false,
        Some(v) => {
            let t = trim_chars(v);
            proof {
                reveal_strlit("1");
            }
            let one = t.len() == 1 && t[0] == '1';
            proof {
                if t@.len() == 1 && t@[0] == '1' {
                    assert(t@ =~= "1"@);
                } else if t@ == "1"@ {
                    assert("1"@[0] == '1');
                }
            }
            one || equals_ignoring_case(&t, "true") || equals_ignoring_case(&t, "yes")
                || equals_ignoring_case(&t, "on")
        },
    }
}

/// Moving forward then back returns to the same control.
pub proof fn lemma_focus_next_then_previous(stage: OnboardingScreen, focus: nat)
    requires
        focus < focus_count_of(stage),
    ensures
        ({
            let count = focus_count_of(stage);
            let next = (focus + 1) % count;
            (next + count - 1) % count as int == focus
        }),
{
}

/// Every key keeps the focus on one of the screen's controls.
pub proof fn lemma_keys_keep_focus_in_range(stage: OnboardingScreen, focus: nat, key: KeyInput)
    requires
        focus < focus_count_of(stage),
    ensures
        focus_after_key(stage, focus, key) < focus_count_of(stage),
{
}

/// Ctrl-C cancels from every screen and every control.
pub proof fn lemma_ctrl_c_always_cancels(stage: OnboardingScreen, focus: nat, key: KeyInput)
    requires
        key.pressed,
        key.modifiers.control,
        key.code == KeyCode::Char('c'),
    ensures
        key_outcome(stage, focus, key).action == Action::Cancel,
        focus_after_key(stage, focus, key) == focus,
{
}

/// A pressed Enter on the last control of a screen submits it and keeps the focus there:
/// Continue on the details, ConnectJira on the token's connect button, Save on the
/// review. On a text field it submits nothing and moves to the next control.
pub proof fn lemma_enter_submits_the_last_control(key: KeyInput)
    requires
        key.pressed,
        key.code == KeyCode::Enter,
    ensures
        key_outcome(OnboardingScreen::JiraDetails, 2, key).action == Action::Continue,
        focus_after_key(OnboardingScreen::JiraDetails, 2, key) == 2,
        key_outcome(OnboardingScreen::JiraToken, 1, key).action == Action::ConnectJira,
        focus_after_key(OnboardingScreen::JiraToken, 1, key) == 1,
        key_outcome(OnboardingScreen::Save, 0, key).action == Action::Save,
        focus_after_key(OnboardingScreen::Save, 0, key) == 0,
        key_outcome(OnboardingScreen::JiraDetails, 0, key).action == Action::Stay,
        focus_after_key(OnboardingScreen::JiraDetails, 0, key) == 1,
        key_outcome(OnboardingScreen::JiraDetails, 1, key).action == Action::Stay,
        focus_after_key(OnboardingScreen::JiraDetails, 1, key) == 2,
        key_outcome(OnboardingScreen::JiraToken, 0, key).action == Action::Stay,
        focus_after_key(OnboardingScreen::JiraToken, 0, key) == 1,
        !key_outcome(OnboardingScreen::JiraDetails, 0, key).edit_focused_input,
        !key_outcome(OnboardingScreen::JiraToken, 0, key).edit_focused_input,
{
}

/// Esc cancels on the first screen and goes back on the others; Tab, Down and Up move
/// the focus cyclically over the screen's controls and never submit.
pub proof fn lemma_escape_and_moves(stage: OnboardingScreen, focus: nat, key: KeyInput)
    requires
        key.pressed,
        !key.modifiers.control,
    ensures
        key.code == KeyCode::Esc ==> key_outcome(stage, focus, key).action == if stage == OnboardingScreen::JiraDetails {
            Action::Cancel
        } else {
            Action::Back
        },
        key.code == KeyCode::Esc ==> focus_after_key(stage, focus, key) == focus,
        (key.code == KeyCode::Down || (key.code == KeyCode::Tab && !key.modifiers.shift)) ==> {
            &&& key_outcome(stage, focus, key).action == Action::Stay
            &&& !key_outcome(stage, focus, key).edit_focused_input
            &&& focus_after_key(stage, focus, key) == (focus + 1) % focus_count_of(stage)
        },
        (key.code == KeyCode::Up || key.code == KeyCode::BackTab) ==> {
            &&& key_outcome(stage, focus, key).action == Action::Stay
            &&& !key_outcome(stage, focus, key).edit_focused_input
            &&& (focus_after_key(stage, focus, key) + 1) % focus_count_of(stage) == focus % focus_count_of(stage)
        },
        focus_count_of(stage) == if stage == OnboardingScreen::JiraDetails {
            3nat
        } else if stage == OnboardingScreen::JiraToken {
            2nat
        } else {
            1nat
        },
{
    let count = focus_count_of(stage);
    if key.code == KeyCode::Up || key.code == KeyCode::BackTab {
        let previous = ((focus + count - 1) % (count as int)) as nat;
        assert((previous + 1) % count == focus % count) by (nonlinear_arith)
            requires
                count > 0,
                previous == (focus + count - 1) % (count as int),
        {
            vstd::arithmetic::div_mod::lemma_add_mod_noop(focus + count - 1, 1, count as int);
            vstd::arithmetic::div_mod::lemma_mod_add_multiples_vanish(focus as int, count as int);
        }
    }
}

} // verus!

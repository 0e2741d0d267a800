//! What keys do in the interactive restack: selection, review, confirmation, and the
//! screen that explains an unreadable history; and the feature filter of the selection.

use vstd::prelude::*;

use crate::keys::{KeyCode, KeyInput};
use crate::text::push_char;
use crate::text_compare::chars_of;

verus! {

/// The stages of an interactive restack.
#[derive(Clone, Copy, Debug, PartialEq, Eq, Structural)]
pub enum InteractionStage {
    UnsupportedHistory,
    Selection,
    Review,
    Confirmation,
}

/// What a key asks of the interactive restack.
#[derive(Clone, Copy, Debug, PartialEq, Eq, Structural)]
pub enum InteractionAction {
    Cancel,
    AcceptInventoryFallback,
    MoveUp,
    MoveDown,
    MovePageUp,
    MovePageDown,
    MoveFirst,
    MoveLast,
    MoveTo(usize),
    ToggleDetails,
    Toggle,
    KeepAll,
    RemoveAll,
    Continue,
    Back,
    Confirm,
}

/// Ctrl-C.
pub open spec fn is_ctrl_c(key: KeyInput) -> bool {
    key.modifiers.control && key.code == KeyCode::Char('c')
}

/// The action a key names in a stage, when nothing else claims it.
pub open spec fn stage_action(stage: InteractionStage, key: KeyInput) -> Option<InteractionAction> {
    let selection = stage == InteractionStage::Selection;
    let review = stage == InteractionStage::Review;
    if is_ctrl_c(key) || key.code == KeyCode::Char('q') {
        Some(InteractionAction::Cancel)
    } else if stage == InteractionStage::UnsupportedHistory && key.code == KeyCode::Char('r') {
        Some(InteractionAction::AcceptInventoryFallback)
    } else if (stage == InteractionStage::UnsupportedHistory || selection) && key.code == KeyCode::Esc {
        Some(InteractionAction::Cancel)
    } else if (selection || review) && (key.code == KeyCode::Up || key.code == KeyCode::Char('k')) {
        Some(InteractionAction::MoveUp)
    } else if (selection || review) && (key.code == KeyCode::Down || key.code == KeyCode::Char('j')) {
        Some(InteractionAction::MoveDown)
    } else if (selection || review) && key.code == KeyCode::PageUp {
        Some(InteractionAction::MovePageUp)
    } else if (selection || review) && key.code == KeyCode::PageDown {
        Some(InteractionAction::MovePageDown)
    } else if (selection || review) && key.code == KeyCode::Home {
        Some(InteractionAction::MoveFirst)
    } else if (selection || review) && key.code == KeyCode::End {
        Some(InteractionAction::MoveLast)
    } else if review && key.code == KeyCode::Char('d') {
        Some(InteractionAction::ToggleDetails)
    } else if selection && key.code == KeyCode::Char(' ') {
        Some(InteractionAction::Toggle)
    } else if selection && key.code == KeyCode::Char('a') {
        Some(InteractionAction::KeepAll)
    } else if selection && key.code == KeyCode::Char('x') {
        Some(InteractionAction::RemoveAll)
    } else if (selection || review) && key.code == KeyCode::Enter {
        Some(InteractionAction::Continue)
    } else if (review || stage == InteractionStage::Confirmation) && key.code == KeyCode::Esc {
        Some(InteractionAction::Back)
    } else if stage == InteractionStage::Confirmation && (key.code == KeyCode::Char('y')
        || key.code == KeyCode::Char('Y')) && key.modifiers.control {
        Some(InteractionAction::Confirm)
    } else {
        None
    }
}

/// The action a key asks for in a stage: Ctrl-C and `q` always cancel; publication is
/// confirmed only by Ctrl-Y.
pub fn action_for_key(stage: InteractionStage, key: KeyInput) -> (action: Option<InteractionAction>)
    ensures
        action == stage_action(stage, key),
{
    if key.modifiers.control && key.code == KeyCode::Char('c') {
        return Some(InteractionAction::Cancel);
    }
    let selection = stage == InteractionStage::Selection;
    let review = stage == InteractionStage::Review;
    let code = key.code;
    if code == KeyCode::Char('q') {
        Some(InteractionAction::Cancel)
    } else if stage == InteractionStage::UnsupportedHistory && code == KeyCode::Char('r') {
        Some(InteractionAction::AcceptInventoryFallback)
    } else if (stage == InteractionStage::UnsupportedHistory || selection) && code == KeyCode::Esc {
        Some(InteractionAction::Cancel)
    } else if (selection || review) && (code == KeyCode::Up || code == KeyCode::Char('k')) {
        Some(InteractionAction::MoveUp)
    } else if (selection || review) && (code == KeyCode::Down || code == KeyCode::Char('j')) {
        Some(InteractionAction::MoveDown)
    } else if (selection || review) && code == KeyCode::PageUp {
        Some(InteractionAction::MovePageUp)
    } else if (selection || review) && code == KeyCode::PageDown {
        Some(InteractionAction::MovePageDown)
    } else if (selection || review) && code == KeyCode::Home {
        Some(InteractionAction::MoveFirst)
    } else if (selection || review) && code == KeyCode::End {
        Some(InteractionAction::MoveLast)
    } else if review && code == KeyCode::Char('d') {
        Some(InteractionAction::ToggleDetails)
    } else if selection && code == KeyCode::Char(' ') {
        Some(InteractionAction::Toggle)
    } else if selection && code == KeyCode::Char('a') {
        Some(InteractionAction::KeepAll)
    } else if selection && code == KeyCode::Char('x') {
        Some(InteractionAction::RemoveAll)
    } else if (selection || review) && code == KeyCode::Enter {
        Some(InteractionAction::Continue)
    } else if (review || stage == InteractionStage::Confirmation) && code == KeyCode::Esc {
        Some(InteractionAction::Back)
    } else if stage == InteractionStage::Confirmation && (code == KeyCode::Char('y') || code
        == KeyCode::Char('Y')) && key.modifiers.control {
        Some(InteractionAction::Confirm)
    } else {
        None
    }
}

/// `str::to_lowercase` of a text.
pub uninterp spec fn lowercase(text: Seq<char>) -> Seq<char>;

/// `str::to_lowercase`: the text with every character in lowercase, by the Unicode rules.
#[verifier::external_body]
fn to_lowercase(text: &str) -> (lower: String)
    ensures
        lower@ == lowercase(text@),
{
    text.to_lowercase()
}

/// Whether `needle` occurs in `haystack`.
pub open spec fn contains_text(haystack: Seq<char>, needle: Seq<char>) -> bool {
    exists|k: int| 0 <= k && k + needle.len() <= haystack.len() && #[trigger] haystack.subrange(k, k + needle.len()) == needle
}

pub(crate) fn occurs_in(haystack: &Vec<char>, needle: &Vec<char>) -> (found: bool)
    ensures
        found == contains_text(haystack@, needle@),
{
    if needle.len() > haystack.len() {
        return false;
    }
    let last = haystack.len() - needle.len();
    let mut k: usize = 0;
    while k <= last
        invariant
            last == haystack.len() - needle.len(),
            needle.len() <= haystack.len(),
            k <= last + 1,
            forall|j: int| 0 <= j < k ==> #[trigger] haystack@.subrange(j, j + needle@.len()) != needle@,
        decreases last + 1 - k,
    {
        let mut i: usize = 0;
        let mut same = true;
        while i < needle.len()
            invariant
                k <= last,
                last == haystack.len() - needle.len(),
                i <= needle.len(),
                same == forall|m: int| 0 <= m < i ==> haystack@[k + m] == needle@[m],
            decreases needle.len() - i,
        {
            if haystack[k + i] != needle[i] {
                same = false;
            }
            i = i + 1;
        }
        if same {
            proof {
                assert(haystack@.subrange(k as int, k + needle@.len()) =~= needle@);
            }
            return true;
        }
        proof {
            let m = choose|m: int| 0 <= m < needle.len() && haystack@[k + m] != needle@[m];
            assert(haystack@.subrange(k as int, k + needle@.len())[m] != needle@[m]);
        }
        k = k + 1;
    }
    false
}

/// The features of the selection: their names, the carried branches with the first of
/// the features that carries each, and the feature under the cursor.
#[derive(Clone, Debug)]
pub struct FeatureList {
    pub names: Vec<String>,
    pub carried: Vec<(String, Option<String>)>,
    pub cursor: usize,
}

/// The selection's filter and display state.
#[derive(Clone, Debug)]
pub struct SelectionView {
    pub filter: String,
    pub filtering: bool,
    pub show_shortcuts: bool,
}

/// Whether feature `i` is shown under the lowercase filter `filter`: every feature when
/// the filter is empty, else those whose name, or the name of a branch they are the first
/// carrier of, contains it.
pub open spec fn shown(features: FeatureList, i: int, filter: Seq<char>) -> bool {
    ||| filter.len() == 0
    ||| contains_text(lowercase(features.names@[i]@), filter)
    ||| exists|j: int| 0 <= j < features.carried@.len() && #[trigger] carrier_match(features.carried@[j], features.names@[i]@, filter)
}

/// Whether a carried branch has `name` as its first carrier and its lowercase name
/// contains `filter`.
pub open spec fn carrier_match(entry: (String, Option<String>), name: Seq<char>, filter: Seq<char>) -> bool {
    entry.1 matches Some(first) && first@ == name && contains_text(lowercase(entry.0@), filter)
}

/// The positions of the features shown under the lowercase filter, among the first `n`.
pub open spec fn shown_among(features: FeatureList, filter: Seq<char>, n: int) -> Seq<usize>
    decreases n,
{
    if n <= 0 {
        Seq::empty()
    } else if shown(features, n - 1, filter) {
        shown_among(features, filter, n - 1).push((n - 1) as usize)
    } else {
        shown_among(features, filter, n - 1)
    }
}

/// The positions of the features that the filter shows, in order.
pub open spec fn filtered_spec(features: FeatureList, filter: Seq<char>) -> Seq<usize> {
    shown_among(features, lowercase(filter), features.names@.len() as int)
}

/// The rows shown among the first `n` features are indices below `n`, at most `n` of them.
pub proof fn lemma_shown_among_bounds(features: FeatureList, filter: Seq<char>, n: int)
    requires
        n <= features.names@.len(),
    ensures
        forall|k: int| 0 <= k < shown_among(features, filter, n).len() ==> #[trigger] shown_among(features, filter, n)[k] < n,
        shown_among(features, filter, n).len() <= if n < 0 { 0 } else { n },
    decreases n,
{
    if n > 0 {
        lemma_shown_among_bounds(features, filter, n - 1);
    }
}

/// Whether the feature named `name` is the first carrier of a branch whose lowercase
/// name contains `filter`.
fn carries_match(features: &FeatureList, name: &String, filter: &Vec<char>) -> (found: bool)
    ensures
        found == exists|j: int| 0 <= j < features.carried@.len() && #[trigger] carrier_match(features.carried@[j], name@, filter@),
{
    let mut j: usize = 0;
    while j < features.carried.len()
        invariant
            j <= features.carried.len(),
            forall|m: int| 0 <= m < j ==> !#[trigger] carrier_match(features.carried@[m], name@, filter@),
        decreases features.carried.len() - j,
    {
        let (carried, first) = &features.carried[j];
        let hit = match first {
            Some(first) => crate::text_compare::same_text(first, name) && occurs_in(
                &chars_of(&to_lowercase(carried)),
                filter,
            ),
            None => false,
        };
        if hit {
            proof {
                assert(carrier_match(features.carried@[j as int], name@, filter@));
            }
            return true;
        }
        j = j + 1;
    }
    false
}

/// The positions of the features that the filter shows, in order; the filter and the
/// names are compared in lowercase.
pub fn filtered_feature_indices(features: &FeatureList, filter: &str) -> (indices: Vec<usize>)
    ensures
        indices@ == filtered_spec(*features, filter@),
{
    let lower = chars_of(&to_lowercase(filter));
    let mut indices: Vec<usize> = Vec::new();
    let mut i: usize = 0;
    while i < features.names.len()
        invariant
            lower@ == lowercase(filter@),
            i <= features.names.len(),
            indices@ == shown_among(*features, lower@, i as int),
        decreases features.names.len() - i,
    {
        let name = &features.names[i];
        let show = lower.len() == 0 || occurs_in(&chars_of(&to_lowercase(name)), &lower)
            || carries_match(features, name, &lower);
        if show {
            indices.push(i);
        }
        i = i + 1;
    }
    indices
}

/// The action after a key in the filter: the first feature the filter shows, if any.
pub open spec fn first_shown(features: FeatureList, filter: Seq<char>) -> Option<InteractionAction> {
    let shown = filtered_spec(features, filter);
    if shown.len() == 0 {
        None
    } else {
        Some(InteractionAction::MoveTo(shown[0]))
    }
}

/// Where the cursor stands among the shown features, or the first place.
pub open spec fn cursor_position(shown: Seq<usize>, cursor: usize) -> int {
    if exists|k: int| 0 <= k < shown.len() && shown[k] == cursor {
        choose|k: int| 0 <= k < shown.len() && shown[k] == cursor && forall|m: int| 0 <= m < k ==> shown[m] != cursor
    } else {
        0
    }
}

/// The place a movement key leads to among `count` shown features from `position`,
/// kept within the list.
pub open spec fn moved_position(code: KeyCode, position: int, count: int) -> Option<int> {
    let last = if count > 0 { count - 1 } else { 0 };
    let target = if code == KeyCode::Up || code == KeyCode::Char('k') {
        Some(if position > 0 { position - 1 } else { 0 })
    } else if code == KeyCode::Down || code == KeyCode::Char('j') {
        Some(position + 1)
    } else if code == KeyCode::PageUp {
        Some(if position > 10 { position - 10 } else { 0 })
    } else if code == KeyCode::PageDown {
        Some(position + 10)
    } else if code == KeyCode::Home {
        Some(0)
    } else if code == KeyCode::End {
        Some(last)
    } else {
        None
    };
    match target {
        Some(t) => Some(if t < last { t } else { last }),
        None => None,
    }
}

/// The filter text without its last character.
pub open spec fn without_last(text: Seq<char>) -> Seq<char> {
    if text.len() > 0 {
        text.drop_last()
    } else {
        text
    }
}

fn drop_last_char(text: &String) -> (shorter: String)
    ensures
        shorter@ == without_last(text@),
{
    let chars = chars_of(text.as_str());
    let end: usize = if chars.len() > 0 {
        chars.len() - 1
    } else {
        0
    };
    let mut shorter = String::new();
    let mut i: usize = 0;
    while i < end
        invariant
            chars@ == text@,
            end <= chars.len(),
            i <= end,
            shorter@ == text@.take(i as int),
        decreases end - i,
    {
        push_char(&mut shorter, chars[i]);
        i = i + 1;
        proof {
            assert(shorter@ =~= text@.take(i as int));
        }
    }
    proof {
        if chars.len() > 0 {
            assert(text@.take(end as int) =~= text@.drop_last());
        } else {
            assert(text@.take(0) =~= text@);
        }
    }
    shorter
}

fn position_of(shown: &Vec<usize>, cursor: usize) -> (position: usize)
    ensures
        position == cursor_position(shown@, cursor),
{
    let mut k: usize = 0;
    while k < shown.len()
        invariant
            k <= shown.len(),
            forall|m: int| 0 <= m < k ==> shown@[m] != cursor,
        decreases shown.len() - k,
    {
        if shown[k] == cursor {
            proof {
                let c = choose|c: int| 0 <= c < shown@.len() && shown@[c] == cursor && forall|m: int| 0 <= m < c ==> shown@[m] != cursor;
                if c < k {
                } else if c > k {
                    assert(shown@[k as int] == cursor);
                }
                assert(c == k);
            }
            return k;
        }
        k = k + 1;
    }
    0
}

/// The selection's answer to a key: Ctrl-C cancels; on the unreadable-history screen the
/// stage's keys apply; while filtering, keys edit the filter and the cursor jumps to the
/// first feature it shows; `/` starts filtering and `?` toggles the shortcut list; movement
/// keys move among the shown features; other keys take the stage's action.
pub fn selection_action_for_key(
    stage: InteractionStage,
    features: &FeatureList,
    view: &mut SelectionView,
    key: KeyInput,
) -> (action: Option<InteractionAction>)
    ensures
        is_ctrl_c(key) ==> action == Some(InteractionAction::Cancel) && *final(view) == *old(view),
        !is_ctrl_c(key) && stage == InteractionStage::UnsupportedHistory ==> action == stage_action(
            stage,
            key,
        ) && *final(view) == *old(view),
        !is_ctrl_c(key) && stage != InteractionStage::UnsupportedHistory && old(view).filtering ==> {
            match key.code {
                KeyCode::Esc => !final(view).filtering && final(view).filter@.len() == 0
                    && final(view).show_shortcuts == old(view).show_shortcuts && action == first_shown(
                    *features,
                    final(view).filter@,
                ),
                KeyCode::Enter => !final(view).filtering && final(view).filter@ == old(view).filter@
                    && final(view).show_shortcuts == old(view).show_shortcuts && action == first_shown(
                    *features,
                    final(view).filter@,
                ),
                KeyCode::Backspace => final(view).filtering && final(view).filter@ == without_last(
                    old(view).filter@,
                ) && final(view).show_shortcuts == old(view).show_shortcuts && action == first_shown(
                    *features,
                    final(view).filter@,
                ),
                KeyCode::Char(c) => if !key.modifiers.control && !key.modifiers.alt {
                    final(view).filtering && final(view).filter@ == old(view).filter@.push(c)
                        && final(view).show_shortcuts == old(view).show_shortcuts && action
                        == first_shown(*features, final(view).filter@)
                } else {
                    action is None && *final(view) == *old(view)
                },
                _ => action is None && *final(view) == *old(view),
            }
        },
        !is_ctrl_c(key) && stage != InteractionStage::UnsupportedHistory && !old(view).filtering
            ==> {
            if key.code == KeyCode::Char('/') {
                action is None && final(view).filtering && final(view).filter@ == old(view).filter@
                    && final(view).show_shortcuts == old(view).show_shortcuts
            } else if key.code == KeyCode::Char('?') {
                action is None && !final(view).filtering && final(view).filter@ == old(view).filter@
                    && final(view).show_shortcuts == !old(view).show_shortcuts
            } else {
                let shown = filtered_spec(*features, old(view).filter@);
                let position = cursor_position(shown, features.cursor);
                *final(view) == *old(view) && match moved_position(key.code, position, shown.len() as int) {
                    None => action == stage_action(InteractionStage::Selection, key),
                    Some(target) => if 0 <= target < shown.len() {
                        action == Some(InteractionAction::MoveTo(shown[target]))
                    } else {
                        action is None
                    },
                }
            }
        },
{
    if key.modifiers.control && key.code == KeyCode::Char('c') {
        return Some(InteractionAction::Cancel);
    }
    if stage == InteractionStage::UnsupportedHistory {
        return action_for_key(stage, key);
    }
    if view.filtering {
        match key.code {
            KeyCode::Esc => {
                view.filtering = false;
                view.filter = String::new();
            },
            KeyCode::Enter => {
                view.filtering = false;
            },
            KeyCode::Backspace => {
                view.filter = drop_last_char(&view.filter);
            },
            KeyCode::Char(c) => {
                if key.modifiers.control || key.modifiers.alt {
                    return None;
                }
                push_char(&mut view.filter, c);
            },
            _ => {
                return None;
            },
        }
        let shown = filtered_feature_indices(features, &view.filter);
        if shown.len() == 0 {
            return None;
        }
        return Some(InteractionAction::MoveTo(shown[0]));
    }
    if key.code == KeyCode::Char('/') {
        view.filtering = true;
        return None;
    }
    if key.code == KeyCode::Char('?') {
        view.show_shortcuts = !view.show_shortcuts;
        return None;
    }
    let shown = filtered_feature_indices(features, &view.filter);
    let position = position_of(&shown, features.cursor);
    let last: usize = if shown.len() > 0 {
        shown.len() - 1
    } else {
        0
    };
    proof {
        lemma_shown_among_bounds(*features, lowercase(view.filter@), features.names@.len() as int);
    }
    let target: usize = match key.code {
        KeyCode::Up | KeyCode::Char('k') => if position > 0 {
            position - 1
        } else {
            0
        },
        KeyCode::Down | KeyCode::Char('j') => position.saturating_add(1),
        KeyCode::PageUp => if position > 10 {
            position - 10
        } else {
            0
        },
        KeyCode::PageDown => position.saturating_add(10),
        KeyCode::Home => 0,
        KeyCode::End => last,
        _ => {
            return action_for_key(InteractionStage::Selection, key);
        },
    };
    let target = if target < last {
        target
    } else {
        last
    };
    if target < shown.len() {
        Some(InteractionAction::MoveTo(shown[target]))
    } else {
        None
    }
}

/// Enter goes on from the selection and from the review, whatever modifiers are held;
/// Ctrl-C and `q` cancel in every stage; publication is confirmed by Ctrl+Y on the
/// confirmation and by nothing else.
pub proof fn lemma_stage_keys(stage: InteractionStage, key: KeyInput)
    ensures
        (stage == InteractionStage::Selection || stage == InteractionStage::Review) && key.code == KeyCode::Enter
            ==> stage_action(stage, key) == Some(InteractionAction::Continue),
        ((key.modifiers.control && key.code == KeyCode::Char('c')) || key.code == KeyCode::Char('q'))
            ==> stage_action(stage, key) == Some(InteractionAction::Cancel),
        stage_action(stage, key) == Some(InteractionAction::Confirm) <==> (stage == InteractionStage::Confirmation
            && key.modifiers.control && (key.code == KeyCode::Char('y') || key.code == KeyCode::Char('Y'))),
        (stage == InteractionStage::Confirmation || stage == InteractionStage::UnsupportedHistory) && key.code
            == KeyCode::Enter ==> stage_action(stage, key) is None,
        key.code == KeyCode::Esc ==> stage_action(stage, key) == if stage == InteractionStage::Review || stage
            == InteractionStage::Confirmation {
            Some(InteractionAction::Back)
        } else {
            Some(InteractionAction::Cancel)
        },
        stage == InteractionStage::UnsupportedHistory && key.code == KeyCode::Char('r') ==> stage_action(stage, key)
            == Some(InteractionAction::AcceptInventoryFallback),
        (stage == InteractionStage::Selection || stage == InteractionStage::Review) ==> {
            &&& (key.code == KeyCode::Up || key.code == KeyCode::Char('k')) ==> stage_action(stage, key) == Some(
                InteractionAction::MoveUp,
            )
            &&& (key.code == KeyCode::Down || key.code == KeyCode::Char('j')) ==> stage_action(stage, key) == Some(
                InteractionAction::MoveDown,
            )
            &&& key.code == KeyCode::PageUp ==> stage_action(stage, key) == Some(InteractionAction::MovePageUp)
            &&& key.code == KeyCode::PageDown ==> stage_action(stage, key) == Some(InteractionAction::MovePageDown)
            &&& key.code == KeyCode::Home ==> stage_action(stage, key) == Some(InteractionAction::MoveFirst)
            &&& key.code == KeyCode::End ==> stage_action(stage, key) == Some(InteractionAction::MoveLast)
        },
        stage_action(stage, key) == Some(InteractionAction::ToggleDetails) <==> (stage == InteractionStage::Review
            && key.code == KeyCode::Char('d')),
        stage == InteractionStage::Selection ==> {
            &&& key.code == KeyCode::Char(' ') ==> stage_action(stage, key) == Some(InteractionAction::Toggle)
            &&& key.code == KeyCode::Char('a') ==> stage_action(stage, key) == Some(InteractionAction::KeepAll)
            &&& key.code == KeyCode::Char('x') ==> stage_action(stage, key) == Some(InteractionAction::RemoveAll)
        },
{
}

} // verus!

use graduate_cli::canvas::{blank_grid, put_text, row_strings};
use graduate_cli::jira::{declared_capacity, issue_summary, status_error, IssueResponse, MAX_RESPONSE_BYTES};
use graduate_cli::error::CliError;
use graduate_cli::keys::{KeyCode, KeyInput, KeyModifiers};
use graduate_cli::restack_keys::{
    action_for_key, filtered_feature_indices, selection_action_for_key, FeatureList,
    InteractionAction, InteractionStage, SelectionView,
};
use graduate_cli::terminal_state::{CleanupStep, LifecycleState};

fn key(code: KeyCode) -> KeyInput {
    KeyInput {
        code,
        modifiers: KeyModifiers { shift: false, control: false, alt: false, super_key: false, hyper: false, meta: false },
        pressed: true,
    }
}

fn ctrl(code: KeyCode) -> KeyInput {
    let mut input = key(code);
    input.modifiers.control = true;
    input
}

#[test]
fn explicit_confirmation_and_cancel_keys_have_distinct_actions() {
    assert_eq!(action_for_key(InteractionStage::Confirmation, ctrl(KeyCode::Char('y'))), Some(InteractionAction::Confirm));
    assert_eq!(action_for_key(InteractionStage::Confirmation, key(KeyCode::Char('y'))), None);
    assert_eq!(action_for_key(InteractionStage::Confirmation, key(KeyCode::Enter)), None);
    assert_eq!(action_for_key(InteractionStage::Confirmation, key(KeyCode::Esc)), Some(InteractionAction::Back));
    assert_eq!(action_for_key(InteractionStage::Review, key(KeyCode::Esc)), Some(InteractionAction::Back));
    assert_eq!(action_for_key(InteractionStage::Selection, key(KeyCode::Esc)), Some(InteractionAction::Cancel));
    assert_eq!(action_for_key(InteractionStage::Review, ctrl(KeyCode::Char('c'))), Some(InteractionAction::Cancel));
    assert_eq!(action_for_key(InteractionStage::Review, key(KeyCode::Char('q'))), Some(InteractionAction::Cancel));
    assert_eq!(action_for_key(InteractionStage::Review, key(KeyCode::Char('d'))), Some(InteractionAction::ToggleDetails));
    assert_eq!(action_for_key(InteractionStage::Selection, key(KeyCode::Char(' '))), Some(InteractionAction::Toggle));
}

#[test]
fn unsupported_history_keys_accept_the_fallback_or_cancel() {
    assert_eq!(
        action_for_key(InteractionStage::UnsupportedHistory, key(KeyCode::Char('r'))),
        Some(InteractionAction::AcceptInventoryFallback)
    );
    assert_eq!(action_for_key(InteractionStage::UnsupportedHistory, key(KeyCode::Esc)), Some(InteractionAction::Cancel));
    assert_eq!(action_for_key(InteractionStage::UnsupportedHistory, key(KeyCode::Enter)), None);
}

fn features() -> FeatureList {
    FeatureList {
        names: vec!["feature/PROJ-12-one".to_owned(), "feature/two".to_owned(), "fix/Three".to_owned()],
        carried: vec![("feature/carried-ZED".to_owned(), Some("feature/two".to_owned()))],
        cursor: 1,
    }
}

fn view() -> SelectionView {
    SelectionView { filter: String::new(), filtering: false, show_shortcuts: false }
}

#[test]
fn the_filter_matches_names_and_carried_branches_without_case() {
    let list = features();
    assert_eq!(filtered_feature_indices(&list, ""), vec![0, 1, 2]);
    assert_eq!(filtered_feature_indices(&list, "proj"), vec![0]);
    assert_eq!(filtered_feature_indices(&list, "THREE"), vec![2]);
    assert_eq!(filtered_feature_indices(&list, "zed"), vec![1]);
    assert_eq!(filtered_feature_indices(&list, "nothing"), Vec::<usize>::new());
}

#[test]
fn checklist_filter_narrows_rows_and_keeps_selection_on_a_visible_branch() {
    let list = features();
    let mut view = view();
    assert_eq!(selection_action_for_key(InteractionStage::Selection, &list, &mut view, key(KeyCode::Char('/'))), None);
    assert!(view.filtering);
    let action = selection_action_for_key(InteractionStage::Selection, &list, &mut view, key(KeyCode::Char('f')));
    assert_eq!(action, Some(InteractionAction::MoveTo(0)));
    let action = selection_action_for_key(InteractionStage::Selection, &list, &mut view, key(KeyCode::Char('i')));
    assert_eq!(action, Some(InteractionAction::MoveTo(2)));
    assert_eq!(view.filter, "fi");
    let action = selection_action_for_key(InteractionStage::Selection, &list, &mut view, key(KeyCode::Backspace));
    assert_eq!(action, Some(InteractionAction::MoveTo(0)));
    assert_eq!(view.filter, "f");
    let _ = selection_action_for_key(InteractionStage::Selection, &list, &mut view, key(KeyCode::Esc));
    assert!(!view.filtering);
    assert_eq!(view.filter, "");
}

#[test]
fn movement_stays_among_the_shown_features() {
    let list = features();
    let mut view = view();
    assert_eq!(
        selection_action_for_key(InteractionStage::Selection, &list, &mut view, key(KeyCode::Down)),
        Some(InteractionAction::MoveTo(2))
    );
    assert_eq!(
        selection_action_for_key(InteractionStage::Selection, &list, &mut view, key(KeyCode::PageDown)),
        Some(InteractionAction::MoveTo(2))
    );
    assert_eq!(
        selection_action_for_key(InteractionStage::Selection, &list, &mut view, key(KeyCode::Home)),
        Some(InteractionAction::MoveTo(0))
    );
    assert_eq!(
        selection_action_for_key(InteractionStage::Selection, &list, &mut view, key(KeyCode::Char('a'))),
        Some(InteractionAction::KeepAll)
    );
    assert_eq!(
        selection_action_for_key(InteractionStage::Selection, &list, &mut view, key(KeyCode::Char('?'))),
        None
    );
    assert!(view.show_shortcuts);
    assert_eq!(
        selection_action_for_key(InteractionStage::Selection, &list, &mut view, ctrl(KeyCode::Char('c'))),
        Some(InteractionAction::Cancel)
    );
}

#[test]
fn restoration_attempts_every_step_and_returns_the_first_error() {
    let mut lifecycle = LifecycleState {
        cursor_hidden: true,
        bracketed_paste: true,
        alternate_screen: true,
        raw_mode: true,
    };
    let attempted = lifecycle.pending_steps();
    assert_eq!(
        attempted,
        vec![
            CleanupStep::DisableBracketedPaste,
            CleanupStep::LeaveAlternateScreen,
            CleanupStep::ShowCursor,
            CleanupStep::DisableRawMode,
        ]
    );
    let outcomes: Vec<bool> = attempted
        .iter()
        .map(|step| *step != CleanupStep::DisableBracketedPaste)
        .collect();
    assert_eq!(lifecycle.restore_with(&outcomes), Some(0));
    assert_eq!(
        lifecycle,
        LifecycleState {
            cursor_hidden: false,
            bracketed_paste: true,
            alternate_screen: false,
            raw_mode: false,
        }
    );
    assert_eq!(lifecycle.pending_steps(), vec![CleanupStep::DisableBracketedPaste]);
    assert_eq!(lifecycle.restore_with(&vec![true]), None);
    assert_eq!(lifecycle, LifecycleState::default());
}

#[test]
fn jira_statuses_map_to_errors() {
    assert!(matches!(status_error(401), Some(CliError::Authentication)));
    assert!(matches!(status_error(403), Some(CliError::Authentication)));
    assert!(matches!(status_error(404), Some(CliError::JiraStatus(404))));
    assert!(status_error(204).is_none());
    assert!(matches!(declared_capacity(Some(MAX_RESPONSE_BYTES as u64 + 1)), Err(CliError::JiraResponse(_))));
    assert_eq!(declared_capacity(Some(10)).ok(), Some(10));
    assert_eq!(declared_capacity(None).ok(), Some(0));
}

#[test]
fn issue_summaries_link_to_the_browser_page() {
    let summary = issue_summary(
        "example.atlassian.net",
        "PROJ-123",
        IssueResponse {
            api_url: "https://example.atlassian.net/rest/api/3/issue/1".to_owned(),
            summary: "Fix it".to_owned(),
            status: "Done".to_owned(),
            assignee: None,
            fix_versions: vec!["1.0".to_owned()],
        },
    );
    assert_eq!(summary.url, "https://example.atlassian.net/browse/PROJ-123");
    assert_eq!(summary.key, "PROJ-123");
    assert_eq!(summary.fix_versions, vec!["1.0".to_owned()]);
}

#[test]
fn text_is_clipped_into_the_grid() {
    let mut rows = blank_grid(8, 2);
    put_text(&mut rows, 0, 2, 6, &"abcdef".chars().collect());
    let text = row_strings(&rows);
    assert_eq!(text, vec!["  abcd  ".to_owned(), "        ".to_owned()]);
}

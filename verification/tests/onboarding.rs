use graduate_cli::onboarding::{
    previous_screen, reduced_motion_value, size_is_undersized, Action, ConnectionStatus, JiraField, KeyCode, KeyInput,
    KeyModifiers, OnboardingModel, OnboardingScreen, TextInput, MIN_TERMINAL_HEIGHT,
    MIN_TERMINAL_WIDTH,
};
use graduate_cli::onboarding_marks::{render_marks, Mark, Tone};
use graduate_cli::onboarding_view::{render_screen, SetupButton, GRADUATE_ART_TOP};

const TEST_WIDTH: u16 = 100;

const TEST_HEIGHT: u16 = 50;

fn model(stage: OnboardingScreen) -> OnboardingModel {
    OnboardingModel {
        pending_animation_elapsed_ms: 0,
        cursor_blink_elapsed_ms: 0,
        reduced_motion: true,
        stage,
        focus: 0,
        hostname: TextInput::from_text("company.atlassian.net"),
        email: TextInput::from_text("person@example.com"),
        display_name: "Example Person".to_owned(),
        jira_token: TextInput::empty(),
        can_retain_jira_token: false,
        jira_instruction: "Create or manage your Atlassian API token:".to_owned(),
        jira_url: "https://id.atlassian.com/manage-profile/security/api-tokens".to_owned(),
        jira_page_can_open: false,
        jira_page_loaded: true,
        jira_status: ConnectionStatus::NotConnected,
        error: None,
        warning: None,
    }
}

fn render_text(width: u16, height: u16, model: &OnboardingModel) -> String {
    let mut rendered = String::new();
    for row in render_screen(model, width, height) {
        rendered.push_str(&row);
        rendered.push('\n');
    }
    rendered
}

fn key(code: KeyCode) -> KeyInput {
    KeyInput {
        code,
        modifiers: KeyModifiers { shift: false, control: false, alt: false, super_key: false, hyper: false, meta: false },
        pressed: true,
    }
}

#[test]
fn tests_jira_details_use_compact_inline_prompts() {
    let rendered = render_text(TEST_WIDTH, TEST_HEIGHT, &model(OnboardingScreen::JiraDetails));

    assert!(rendered.contains(GRADUATE_ART_TOP));
    assert!(rendered.contains("Jira site> company.atlassian.net"));
    assert!(rendered.contains("Atlassian email> person@example.com"));
    assert!(rendered.contains("Continue to API token"));
    assert!(!rendered.contains("Your Atlassian workspace address"));
    assert!(rendered.contains("┌"));
    assert!(rendered.contains("┘"));
    assert!(!rendered.contains("Review & save"));
    let heading = rendered
        .lines()
        .find(|line| line.contains("Connect your Jira account"))
        .expect("Jira heading was not rendered");
    assert!(heading.starts_with("Connect your Jira account"));
    assert!(rendered.contains("Enter the Atlassian account Graduate should use"));
}

#[test]
fn tests_token_screen_masks_input_and_renders_a_focusable_connect_button() {
    let mut model = model(OnboardingScreen::JiraToken);
    model.jira_token = TextInput::from_text("never-render-this-secret");
    model.focus = 1;

    let rendered = render_text(TEST_WIDTH, TEST_HEIGHT, &model);

    assert!(rendered.contains("Atlassian API token"));
    assert!(rendered.contains("••••"));
    assert!(!rendered.contains("never-render-this-secret"));
    assert!(rendered.contains("Connect Jira"));
    assert!(rendered.contains("┌"));
}

#[test]
fn tests_retained_token_is_labeled_without_loading_the_secret() {
    let mut model = model(OnboardingScreen::JiraToken);
    model.can_retain_jira_token = true;

    let rendered = render_text(TEST_WIDTH, TEST_HEIGHT, &model);

    assert!(rendered.contains("Atlassian API token (stored)"));
    assert!(rendered.contains("••••••••••••"));
}

#[test]
fn tests_review_uses_a_compact_field_table_and_confirmation() {
    let mut model = model(OnboardingScreen::Save);
    model.jira_status = ConnectionStatus::Connected;

    let rendered = render_text(TEST_WIDTH, TEST_HEIGHT, &model);

    assert!(rendered.contains("Review Jira setup"));
    assert!(rendered.contains("Field     Value"));
    assert!(rendered.contains("Site      company.atlassian.net"));
    assert!(rendered.contains("Does this look right?"));
    assert!(rendered.contains("Save configuration"));
    assert!(rendered.contains("┌"));
    assert!(rendered.contains("J Change Jira account"));
    assert!(!rendered.contains("Tempo"));
}

#[test]
fn tests_resize_message_replaces_the_form_but_preserves_cancel_help() {
    let rendered = render_text(
        MIN_TERMINAL_WIDTH - 1,
        MIN_TERMINAL_HEIGHT - 1,
        &model(OnboardingScreen::JiraDetails),
    );

    assert!(rendered.contains("Terminal too small"));
    assert!(rendered.contains("Ctrl-C cancels without saving"));
    assert!(!rendered.contains("Atlassian email"));
}

#[test]
fn tests_every_screen_fits_a_60_by_24_split_pane() {
    for (stage, heading, action) in [
        (OnboardingScreen::JiraDetails, "Connect your Jira account", "Continue to API token"),
        (OnboardingScreen::JiraToken, "Connect Jira", "Connect Jira"),
        (OnboardingScreen::Save, "Review Jira setup", "Save configuration"),
    ] {
        let rendered = render_text(60, 24, &model(stage));

        assert!(!rendered.contains("Terminal too small"));
        assert!(rendered.contains(GRADUATE_ART_TOP));
        assert!(rendered.contains(heading));
        assert!(rendered.contains(action));
        assert!(rendered.contains("┌"));
        assert!(rendered.contains("┘"));
    }
}

#[test]
fn tests_untrusted_review_values_are_rendered_visibly() {
    let mut model = model(OnboardingScreen::Save);
    model.display_name = "Person\nInjected\u{202e}".to_owned();

    let rendered = render_text(TEST_WIDTH, TEST_HEIGHT, &model);

    assert!(rendered.contains("Person\\nInjected\\u{202e}"));
    assert!(!rendered.contains("Person\nInjected"));
}

#[test]
fn tests_reduced_motion_environment_accepts_only_explicit_truthy_values() {
    for value in [Some("1"), Some("true"), Some("YES"), Some("on")] {
        assert!(reduced_motion_value(value));
    }
    for value in [None, Some(""), Some("0"), Some("false"), Some("no")] {
        assert!(!reduced_motion_value(value));
    }
}

#[test]
fn jira_auth_tui_reduced_motion_environment_accepts_only_explicit_truthy_values() {
    for value in [Some("1"), Some("true"), Some("YES"), Some("on")] {
        assert!(reduced_motion_value(value));
    }
    for value in [None, Some(""), Some("0"), Some("false"), Some("no")] {
        assert!(!reduced_motion_value(value));
    }
}

#[test]
fn reduced_motion_ignores_surrounding_white_space_and_case() {
    assert!(reduced_motion_value(Some("  On\t")));
    assert!(reduced_motion_value(Some("TrUe")));
    assert!(!reduced_motion_value(Some("11")));
    assert!(!reduced_motion_value(Some("y")));
}

#[test]
fn enter_moves_through_both_fields_to_the_continue_button() {
    let mut model = model(OnboardingScreen::JiraDetails);

    assert_eq!(model.handle_key(key(KeyCode::Enter)).action, Action::Stay);
    assert_eq!(model.focus, 1);
    assert_eq!(model.handle_key(key(KeyCode::Enter)).action, Action::Stay);
    assert_eq!(model.focus, 2);
    assert_eq!(model.handle_key(key(KeyCode::Enter)).action, Action::Continue);
}

#[test]
fn arrow_keys_move_focus_in_both_directions() {
    let mut model = model(OnboardingScreen::JiraDetails);

    let _ = model.handle_key(key(KeyCode::Down));
    assert_eq!(model.focus, 1);

    let _ = model.handle_key(key(KeyCode::Up));
    assert_eq!(model.focus, 0);

    let _ = model.handle_key(key(KeyCode::Up));
    assert_eq!(model.focus, 2);
}

#[test]
fn core_validation_errors_select_the_matching_field() {
    let mut model = model(OnboardingScreen::JiraDetails);

    model.show_validation_error(
        Some(JiraField::AtlassianEmail),
        "Atlassian email is required".to_owned(),
    );

    assert_eq!(model.focus, 1);
    assert_eq!(model.error.as_deref(), Some("Atlassian email is required"));
}

#[test]
fn ctrl_c_cancels_and_escape_goes_back_after_the_first_screen() {
    let mut model = model(OnboardingScreen::JiraToken);
    let mut ctrl_c = key(KeyCode::Char('c'));
    ctrl_c.modifiers.control = true;
    assert_eq!(model.handle_key(ctrl_c).action, Action::Cancel);
    assert_eq!(model.handle_key(key(KeyCode::Esc)).action, Action::Back);

    let mut details = self::model(OnboardingScreen::JiraDetails);
    assert_eq!(details.handle_key(key(KeyCode::Esc)).action, Action::Cancel);
}

#[test]
fn released_keys_do_nothing() {
    let mut model = model(OnboardingScreen::JiraDetails);
    let mut released = key(KeyCode::Down);
    released.pressed = false;
    let outcome = model.handle_key(released);
    assert_eq!(outcome.action, Action::Stay);
    assert_eq!(model.focus, 0);
}

#[test]
fn j_changes_the_account_only_on_the_review_screen() {
    let mut review = model(OnboardingScreen::Save);
    assert_eq!(review.handle_key(key(KeyCode::Char('J'))).action, Action::EditJira);
    let mut details = model(OnboardingScreen::JiraDetails);
    let outcome = details.handle_key(key(KeyCode::Char('j')));
    assert_eq!(outcome.action, Action::Stay);
    assert!(outcome.edit_focused_input);
}

#[test]
fn paste_skips_control_characters_and_clears_the_verification() {
    let mut model = model(OnboardingScreen::JiraDetails);
    model.hostname = TextInput { value: "café".to_owned(), cursor: 3 };
    model.jira_status = ConnectionStatus::Connected;
    model.error = Some("Jira site is required".to_owned());

    assert!(model.paste("x\ny"));

    assert_eq!(model.hostname.value, "cafxyé");
    assert_eq!(model.hostname.cursor, 5);
    assert_eq!(model.jira_status, ConnectionStatus::NotConnected);
    assert_eq!(model.error, None);
    assert!(!model.paste("\u{7}"));
}

#[test]
fn pasting_on_a_button_changes_nothing() {
    let mut model = model(OnboardingScreen::JiraDetails);
    model.focus = 2;
    assert!(!model.paste("text"));
    assert_eq!(model.hostname.value, "company.atlassian.net");
}

#[test]
fn undersized_terminals_are_detected() {
    assert!(size_is_undersized(59, 24));
    assert!(size_is_undersized(60, 23));
    assert!(!size_is_undersized(60, 24));
}

#[test]
fn pending_verification_shows_a_spinner_unless_motion_is_reduced() {
    let mut model = model(OnboardingScreen::JiraToken);
    model.jira_status = ConnectionStatus::Pending;
    assert_eq!(model.pending_symbol(), "…");
    model.reduced_motion = false;
    model.pending_animation_elapsed_ms = 170;
    assert_eq!(model.pending_symbol(), "⠹");
    model.advance_animations(40);
    assert_eq!(model.pending_animation_elapsed_ms, 210);
}

#[test]
fn cursor_blinks_every_half_second() {
    let mut model = model(OnboardingScreen::JiraDetails);
    model.reduced_motion = false;
    assert!(model.cursor_visible());
    model.advance_animations(500);
    assert!(!model.cursor_visible());
    model.advance_animations(500);
    assert!(model.cursor_visible());
}

#[test]
fn buttons_report_verification_progress() {
    let pending = SetupButton::new("Connect Jira", true, ConnectionStatus::Pending, "⠋");
    assert_eq!(pending.text().into_iter().collect::<String>(), "⠋ Verifying Jira…");
    assert!(!pending.shows_focus());
    let connected = SetupButton::new("Connect Jira", true, ConnectionStatus::Connected, "…");
    assert_eq!(connected.text().into_iter().collect::<String>(), "✓ Connect Jira connected");
    let save = SetupButton::new("Save configuration", true, ConnectionStatus::Connected, "…");
    assert_eq!(save.text().into_iter().collect::<String>(), "Save configuration");
}

#[test]
fn screens_fill_the_terminal_exactly() {
    for (width, height) in [(60u16, 24u16), (100, 50), (130, 30), (20, 5)] {
        let rows = render_screen(&model(OnboardingScreen::Save), width, height);
        assert_eq!(rows.len(), usize::from(height));
        assert!(rows.iter().all(|row| row.chars().count() == usize::from(width)));
    }
}

#[test]
fn the_button_starts_at_the_left_edge() {
    let rows = render_screen(&model(OnboardingScreen::JiraDetails), TEST_WIDTH, TEST_HEIGHT);
    let top = rows.iter().find(|row| row.contains('┌')).expect("button was not rendered");
    assert!(top.starts_with('┌'));
    let middle = rows.iter().find(|row| row.contains("Continue to API token")).expect("label");
    assert!(middle.starts_with("│  Continue to API token  │"));
}

#[test]
fn feedback_wraps_long_errors_at_spaces() {
    let mut model = model(OnboardingScreen::JiraDetails);
    model.error = Some("word ".repeat(30));
    let rows = render_screen(&model, 60, 24);
    let first = rows.iter().position(|row| row.starts_with("✕ Error: word")).expect("error");
    assert!(rows[first + 1].starts_with("word word"));
}

#[test]
fn verification_keeps_a_stored_token_only_when_none_is_typed() {
    let mut setup = model(OnboardingScreen::JiraToken);
    setup.can_retain_jira_token = true;
    assert_eq!(setup.verification_token(), None);
    setup.jira_token = TextInput::from_text("typed");
    assert_eq!(setup.verification_token(), Some("typed".to_owned()));
    setup.jira_token = TextInput::empty();
    setup.can_retain_jira_token = false;
    assert_eq!(setup.verification_token(), Some(String::new()));
}

#[test]
fn a_verified_account_moves_to_the_save_screen() {
    let mut setup = model(OnboardingScreen::JiraToken);
    setup.jira_token = TextInput::from_text("secret");
    setup.begin_verification();
    assert_eq!(setup.jira_status, ConnectionStatus::Pending);
    setup.connection_verified("site.atlassian.net", "pat@example.com", "", true);
    assert_eq!(setup.stage, OnboardingScreen::Save);
    assert_eq!(setup.jira_status, ConnectionStatus::Connected);
    assert_eq!(setup.display_name, "pat@example.com");
    assert_eq!(setup.hostname.value, "site.atlassian.net");
    assert!(setup.jira_token.value.is_empty());
    assert!(setup.can_retain_jira_token);
}

#[test]
fn a_rejected_or_invalid_account_clears_the_token_and_explains() {
    let mut setup = model(OnboardingScreen::JiraToken);
    setup.jira_token = TextInput::from_text("secret");
    setup.connection_rejected();
    assert_eq!(setup.jira_status, ConnectionStatus::NotConnected);
    assert!(setup.jira_token.value.is_empty());
    assert_eq!(
        setup.error.as_deref(),
        Some("Could not connect to Jira: Jira rejected the site, Atlassian email, or API token.")
    );
    setup.jira_token = TextInput::from_text("secret");
    setup.connection_invalid(Some(JiraField::AtlassianEmail), "bad email".to_owned());
    assert_eq!(setup.focus, 1);
    assert_eq!(setup.error.as_deref(), Some("bad email"));
    assert!(setup.jira_token.value.is_empty());
    setup.verification_cancelled();
    assert_eq!(setup.warning.as_deref(), Some("Jira verification cancelled. Nothing was saved."));
}

#[test]
fn going_back_follows_the_setup_order_and_forgets_the_token() {
    assert_eq!(previous_screen(OnboardingScreen::Save), Some(OnboardingScreen::JiraToken));
    assert_eq!(previous_screen(OnboardingScreen::JiraToken), Some(OnboardingScreen::JiraDetails));
    assert_eq!(previous_screen(OnboardingScreen::JiraDetails), None);
    let mut setup = model(OnboardingScreen::Save);
    setup.jira_status = ConnectionStatus::Connected;
    assert!(setup.go_back(Some(OnboardingScreen::JiraToken)));
    assert_eq!(setup.stage, OnboardingScreen::JiraToken);
    assert_eq!(setup.jira_status, ConnectionStatus::NotConnected);
    setup.jira_token = TextInput::from_text("typed");
    assert!(setup.go_back(Some(OnboardingScreen::JiraDetails)));
    assert!(setup.jira_token.value.is_empty());
    assert!(!setup.go_back(None));
    let mut saved = model(OnboardingScreen::Save);
    saved.edit_details();
    assert_eq!(saved.stage, OnboardingScreen::JiraDetails);
    assert_eq!(saved.jira_status, ConnectionStatus::NotConnected);
}

#[test]
fn edits_land_in_the_focused_field_and_clear_the_connection_state() {
    let mut details = model(OnboardingScreen::JiraDetails);
    details.focus = 1;
    details.jira_status = ConnectionStatus::Connected;
    details.error = Some("Jira rejected these credentials.".to_owned());
    assert_eq!(details.focused_text(), Some(("person@example.com".to_owned(), 18)));
    details.apply_text_edit("person@example.org".to_owned(), 18, true);
    assert_eq!(details.email.value, "person@example.org");
    assert_eq!(details.jira_status, ConnectionStatus::NotConnected);
    assert_eq!(details.error, None);

    let mut save = model(OnboardingScreen::Save);
    assert_eq!(save.focused_text(), None);
    save.apply_text_edit("ignored".to_owned(), 7, true);
    assert_eq!(save.hostname.value, "company.atlassian.net");
    assert_eq!(save.email.value, "person@example.com");
}

#[test]
fn invalid_connections_clear_the_token_and_focus_the_named_field() {
    let mut token = model(OnboardingScreen::JiraToken);
    token.jira_token = TextInput::from_text("secret");
    token.focus = 1;
    token.connection_invalid(Some(JiraField::AtlassianEmail), "Enter a valid email.".to_owned());
    assert_eq!(token.jira_token.value, "");
    assert_eq!(token.focus, 1);
    assert_eq!(token.error.as_deref(), Some("Enter a valid email."));
    assert_eq!(token.jira_status, ConnectionStatus::NotConnected);
    assert_eq!(token.stage, OnboardingScreen::JiraToken);
    token.connection_invalid(None, "Jira is unavailable.".to_owned());
    assert_eq!(token.focus, 0);
}

#[test]
fn animations_run_only_without_reduced_motion_while_typing_or_verifying() {
    let mut details = model(OnboardingScreen::JiraDetails);
    assert!(!details.animations_active());
    details.reduced_motion = false;
    assert!(details.animations_active());
    details.focus = 2;
    assert!(!details.animations_active());
    details.jira_status = ConnectionStatus::Pending;
    assert!(details.animations_active());
}

#[test]
fn ctrl_c_cancels_and_esc_goes_back_only_when_pressed() {
    let ctrl_c = KeyInput {
        code: KeyCode::Char('c'),
        modifiers: KeyModifiers { shift: false, control: true, alt: false, super_key: false, hyper: false, meta: false },
        pressed: true,
    };
    assert!(graduate_cli::onboarding::is_cancel_event(ctrl_c));
    assert!(!graduate_cli::onboarding::is_cancel_event(key(KeyCode::Char('c'))));
    assert!(!graduate_cli::onboarding::is_cancel_event(KeyInput { pressed: false, ..ctrl_c }));
    assert!(graduate_cli::onboarding::is_back_event(key(KeyCode::Esc)));
    assert!(!graduate_cli::onboarding::is_back_event(KeyInput { pressed: false, ..key(KeyCode::Esc) }));
    assert!(!graduate_cli::onboarding::is_back_event(key(KeyCode::Enter)));
}

fn edit_at_unicode_cursor() -> OnboardingModel {
    let mut model = model(OnboardingScreen::JiraDetails);
    model.hostname = TextInput::from_text("café");
    let _ = model.handle_key(key(KeyCode::Left));
    let _ = model.handle_key(key(KeyCode::Char('!')));
    model
}

#[test]
fn jira_auth_tui_text_input_edits_at_the_unicode_aware_cursor() {
    assert_eq!(edit_at_unicode_cursor().hostname.value, "caf!é");
}

#[test]
fn tests_text_input_edits_at_the_unicode_aware_cursor() {
    assert_eq!(edit_at_unicode_cursor().hostname.value, "caf!é");
}

#[test]
fn key_edits_reach_only_the_focused_input_and_reset_the_connection() {
    let mut details = model(OnboardingScreen::JiraDetails);
    details.focus = 1;
    details.jira_status = ConnectionStatus::Connected;
    let _ = details.handle_key(key(KeyCode::Backspace));
    assert_eq!(details.email.value, "person@example.co");
    assert_eq!(details.email.cursor, 17);
    assert_eq!(details.hostname.value, "company.atlassian.net");
    assert_eq!(details.jira_status, ConnectionStatus::NotConnected);
    details.jira_status = ConnectionStatus::Connected;
    let _ = details.handle_key(key(KeyCode::Home));
    assert_eq!(details.email.cursor, 0);
    assert_eq!(details.jira_status, ConnectionStatus::Connected);
    let word_back = KeyInput {
        code: KeyCode::Char('w'),
        modifiers: KeyModifiers { shift: false, control: true, alt: false, super_key: false, hyper: false, meta: false },
        pressed: true,
    };
    let _ = details.handle_key(key(KeyCode::End));
    let _ = details.handle_key(word_back);
    assert_eq!(details.email.value, "person@");
    let mut save = model(OnboardingScreen::Save);
    let _ = save.handle_key(key(KeyCode::Char('x')));
    assert_eq!(save.hostname.value, "company.atlassian.net");
}

fn marks_of(model: &OnboardingModel) -> Vec<Mark> {
    render_marks(model, TEST_WIDTH, TEST_HEIGHT)
}

#[test]
fn the_focused_field_and_its_cursor_are_emphasised() {
    let mut details = model(OnboardingScreen::JiraDetails);
    details.hostname = TextInput { value: "company.atlassian.net".to_owned(), cursor: 3 };
    let marks = marks_of(&details);
    let rendered = render_screen(&details, TEST_WIDTH, TEST_HEIGHT);
    let site_row = rendered.iter().position(|row| row.starts_with("Jira site> ")).unwrap_or(usize::MAX);
    assert!(marks.contains(&Mark { top: site_row, bottom: site_row + 1, left: 0, right: 11, tone: Tone::Focus }));
    assert!(marks.contains(&Mark { top: site_row, bottom: site_row + 1, left: 14, right: 15, tone: Tone::Cursor }));
    let email_row = rendered.iter().position(|row| row.starts_with("Atlassian email> ")).unwrap_or(usize::MAX);
    assert!(marks.contains(&Mark { top: email_row, bottom: email_row + 1, left: 0, right: 17, tone: Tone::Muted }));
    let button = rendered.iter().position(|row| row.contains("Continue to API token")).unwrap_or(usize::MAX);
    assert!(marks.contains(&Mark { top: button - 1, bottom: button + 2, left: 0, right: 27, tone: Tone::Muted }));

    details.focus = 2;
    let focused_button = marks_of(&details);
    assert!(focused_button.contains(&Mark { top: button - 1, bottom: button + 2, left: 0, right: 27, tone: Tone::Primary }));
    assert!(focused_button.contains(&Mark { top: button, bottom: button + 1, left: 1, right: 26, tone: Tone::ActionFocus }));
    assert!(!focused_button.iter().any(|mark| mark.tone == Tone::Cursor));
}

#[test]
fn a_rejected_field_and_the_error_are_shown_as_errors() {
    let mut details = model(OnboardingScreen::JiraDetails);
    details.focus = 2;
    details.error = Some("Enter the Atlassian email of the account.".to_owned());
    let marks = marks_of(&details);
    let rendered = render_screen(&details, TEST_WIDTH, TEST_HEIGHT);
    let email_row = rendered.iter().position(|row| row.starts_with("Atlassian email> ")).unwrap_or(usize::MAX);
    assert!(marks.contains(&Mark { top: email_row, bottom: email_row + 1, left: 0, right: 17, tone: Tone::Error }));
    let error_row = rendered.iter().position(|row| row.starts_with("✕ Error: ")).unwrap_or(usize::MAX);
    let width = rendered[error_row].trim_end().chars().count();
    assert!(marks.contains(&Mark { top: error_row, bottom: error_row + 1, left: 0, right: width, tone: Tone::Error }));
    assert!(render_marks(&details, 59, TEST_HEIGHT).is_empty());
}

#[test]
fn an_empty_token_field_dims_its_placeholder_and_a_kept_secret_has_no_cursor() {
    let mut token = model(OnboardingScreen::JiraToken);
    let marks = marks_of(&token);
    let rendered = render_screen(&token, TEST_WIDTH, TEST_HEIGHT);
    let row = rendered.iter().position(|line| line.starts_with("Atlassian API token> ")).unwrap_or(usize::MAX);
    assert!(marks.contains(&Mark { top: row, bottom: row + 1, left: 21, right: 32, tone: Tone::Muted }));
    assert!(marks.contains(&Mark { top: row, bottom: row + 1, left: 21, right: 22, tone: Tone::Cursor }));
    token.can_retain_jira_token = true;
    assert!(!marks_of(&token).iter().any(|mark| mark.tone == Tone::Cursor));
}

#[test]
fn focus_outside_the_controls_wraps_back_onto_them() {
    let mut forward = model(OnboardingScreen::JiraDetails);
    forward.focus = 4;
    let _ = forward.handle_key(key(KeyCode::Tab));
    assert_eq!(forward.focus, 2);
    let mut backward = model(OnboardingScreen::JiraToken);
    backward.focus = 5;
    let _ = backward.handle_key(key(KeyCode::Up));
    assert_eq!(backward.focus, 0);
    let mut entered = model(OnboardingScreen::JiraDetails);
    entered.focus = usize::MAX;
    let _ = entered.handle_key(key(KeyCode::Enter));
    assert_eq!(entered.focus, 1);
}

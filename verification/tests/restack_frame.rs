use graduate_cli::restack_frame::{
    action_allowed_when_undersized, confirmation_minimum_height, footer_controls, footer_height,
    is_undersized, minimum_height, overflows_area, review_area_scroll, review_scroll, too_small_text,
    workflow_steps, wrapped_text_height,
};
use graduate_cli::restack_keys::{InteractionAction, InteractionStage};

#[test]
fn steps_mark_done_current_and_ahead() {
    assert_eq!(
        workflow_steps(InteractionStage::UnsupportedHistory),
        "● 1 Select › ○ 2 Review › ○ 3 Publish"
    );
    assert_eq!(
        workflow_steps(InteractionStage::Review),
        "✓ Select › ● 2 Review › ○ 3 Publish"
    );
    assert_eq!(
        workflow_steps(InteractionStage::Confirmation),
        "✓ Select › ✓ Review › ● 3 Publish"
    );
}

#[test]
fn footer_lists_the_keys_of_each_stage() {
    assert_eq!(
        footer_controls(InteractionStage::UnsupportedHistory, false, "", false, false),
        "r Rebuild from inventory  Esc Cancel  "
    );
    assert_eq!(
        footer_controls(InteractionStage::Selection, false, "", true, false),
        "Enter Review  Space Toggle  / Filter  ? Hide shortcuts  Esc Cancel  "
    );
    assert_eq!(
        footer_controls(InteractionStage::Selection, true, "tw\u{1b}o", false, false),
        "Filter: tw\\u{1b}o▏"
    );
    assert_eq!(
        footer_controls(InteractionStage::Review, false, "", false, true),
        "Enter Confirm publish  PgUp/Dn Home/End Scroll  d Details  Esc Revise  q Cancel  "
    );
    assert_eq!(
        footer_controls(InteractionStage::Review, false, "", false, false),
        "Enter Confirm publish  d Details  Esc Revise  q Cancel  "
    );
    assert_eq!(
        footer_controls(InteractionStage::Confirmation, false, "", false, false),
        "Ctrl+Y Publish  Esc Review details  q Abandon plan  "
    );
}

#[test]
fn footer_height_grows_on_narrow_terminals() {
    assert_eq!(footer_height(InteractionStage::Selection, 89), 2);
    assert_eq!(footer_height(InteractionStage::Selection, 90), 1);
    assert_eq!(footer_height(InteractionStage::Review, 71), 3);
    assert_eq!(footer_height(InteractionStage::Review, 95), 2);
    assert_eq!(footer_height(InteractionStage::Review, 96), 1);
    assert_eq!(footer_height(InteractionStage::Confirmation, 40), 1);
}

#[test]
fn minimum_heights_follow_the_stage() {
    assert_eq!(minimum_height(InteractionStage::Selection, 0), 18);
    assert_eq!(minimum_height(InteractionStage::UnsupportedHistory, 0), 18);
    assert_eq!(minimum_height(InteractionStage::Review, 100), 12);
    assert_eq!(minimum_height(InteractionStage::Confirmation, 4), 16);
    assert_eq!(minimum_height(InteractionStage::Confirmation, 20), 26);
    assert_eq!(minimum_height(InteractionStage::Confirmation, 1_000_000), 65535);
}

#[test]
fn undersized_terminals_show_resize_guidance_and_only_allow_leaving() {
    assert!(is_undersized(55, 40, 18));
    assert!(is_undersized(80, 17, 18));
    assert!(!is_undersized(56, 18, 18));
    assert_eq!(
        too_small_text(18),
        vec![
            "Terminal too small for a safe restack review.".to_owned(),
            "Resize to at least 56 columns × 18 rows.".to_owned(),
        ]
    );
    assert!(action_allowed_when_undersized(InteractionAction::Back));
    assert!(action_allowed_when_undersized(InteractionAction::Cancel));
    assert!(!action_allowed_when_undersized(InteractionAction::Continue));
    assert!(!action_allowed_when_undersized(InteractionAction::Confirm));
}

#[test]
fn review_scroll_stops_at_the_end_and_counts_back_from_it() {
    assert_eq!(review_scroll(3, 40, 30), (3, true));
    assert_eq!(review_scroll(25, 40, 30), (0, true));
    assert_eq!(review_scroll(usize::MAX, 40, 30), (10, true));
    assert_eq!(review_scroll(usize::MAX - 2, 40, 30), (8, true));
    assert_eq!(review_scroll(0, 10, 30), (0, false));
    assert_eq!(review_scroll(100_000, 200_000, 10), (65535, true));
}

#[test]
fn review_tests_wrapped_height_uses_paragraph_word_boundaries() {
    let text = vec!["aaaa aaaa aaaa".to_owned()];

    assert_eq!(wrapped_text_height(&text, 8), 3);
}

#[test]
fn restack_tui_wrapped_height_uses_paragraph_word_boundaries() {
    let text = vec!["aaaa aaaa aaaa".to_owned()];

    assert_eq!(wrapped_text_height(&text, 8), 3);
}

#[test]
fn wrapped_height_counts_every_line_and_treats_no_width_as_one_cell() {
    let text = vec!["one two".to_owned(), String::new(), "three".to_owned()];
    assert_eq!(wrapped_text_height(&text, 80), 3);
    assert_eq!(wrapped_text_height(&vec!["ab".to_owned()], 0), 2);
}

#[test]
fn wrapped_text_decides_scrolling_overflow_and_the_confirmation_height() {
    let long: Vec<String> = (0..30).map(|index| format!("line {index}")).collect();
    assert_eq!(review_area_scroll(&long, 80, 10, 5), (5, true));
    assert_eq!(review_area_scroll(&long, 80, 10, usize::MAX - 3), (17, true));
    assert_eq!(review_area_scroll(&long, 80, 10, 100), (0, true));
    assert_eq!(review_area_scroll(&long, 80, 40, 5), (0, false));
    assert!(overflows_area(&long, 80, 29));
    assert!(!overflows_area(&long, 80, 30));
    assert_eq!(confirmation_minimum_height(&long, 80), 36);
    assert_eq!(confirmation_minimum_height(&vec!["short".to_owned()], 80), 16);
    assert_eq!(confirmation_minimum_height(&vec!["aaaa aaaa aaaa".to_owned()], 4), 16);
}

use graduate_cli::checklist::{
    checklist_items, checklist_layout, context_height, dropped_banner_text, empty_filter_text,
    feature_item, inventory_banner, list_height, list_overflows, selection_context,
    selection_state, selection_summary, selection_title, CarriedRowView, ChecklistEntry, CursorContext,
    FeatureRowView,
};
use graduate_cli::restack_frame::{footer_controls, footer_height, workflow_steps};
use graduate_cli::restack_keys::InteractionStage;

fn row(index: usize, jira_key: Option<&str>, has_history: bool, retained: bool, locked: bool) -> FeatureRowView {
    FeatureRowView {
        index,
        name: "feature/ABC-1".to_owned(),
        tip: "0123456789abcdef".to_owned(),
        jira_key: jira_key.map(|key| key.to_owned()),
        has_history,
        retained,
        locked,
    }
}

fn context() -> CursorContext {
    CursorContext {
        tainted: None,
        dependents: Vec::new(),
        environment: "dev".to_owned(),
        main: "main".to_owned(),
        show_shortcuts: false,
        reachability: false,
    }
}

#[test]
fn checklist_columns_follow_the_area_width() {
    assert_eq!(checklist_layout(120), (116, true, 38));
    assert_eq!(checklist_layout(96), (92, true, 29));
    assert_eq!(checklist_layout(80), (76, false, 46));
    assert_eq!(checklist_layout(40), (36, false, 19));
    assert_eq!(checklist_layout(2), (0, false, 16));
}

#[test]
fn wide_feature_row_holds_everything_on_one_line() {
    let lines = feature_item(&row(0, Some("ABC-1"), true, true, false), 116, true, 16);
    assert_eq!(
        lines,
        vec!["✓   #1  feature/ABC-1     0123456         ABC-1  history: available".to_owned()]
    );
}

#[test]
fn narrow_feature_row_splits_name_and_details() {
    let lines = feature_item(&row(4, None, false, false, true), 60, false, 19);
    assert_eq!(
        lines,
        vec![
            "–◆  feature/ABC-1                  —".to_owned(),
            "    #5 · 0123456                      history: —  ◆ required".to_owned(),
        ]
    );
}

#[test]
fn narrow_feature_row_keeps_one_space_when_crowded() {
    let lines = feature_item(&row(4, None, false, false, true), 36, false, 19);
    assert_eq!(lines[1], "    #5 · 0123456 history: —  ◆ required");
}

#[test]
fn feature_row_escapes_and_cuts_the_branch_name() {
    let mut feature = row(0, None, false, true, false);
    feature.name = "feature/\u{1b}[31mvery-long-branch-name".to_owned();
    let lines = feature_item(&feature, 116, true, 16);
    assert!(lines[0].starts_with("✓   #1  feature/\\u{1b}[…  "));
}

#[test]
fn selection_counts_show_the_filter_only_when_wide() {
    assert_eq!(selection_summary(3, 5, 2, true, 80), "3 retained · 2 removed · 2/5 shown");
    assert_eq!(selection_summary(3, 5, 2, true, 70), "3 retained · 2 removed");
    assert_eq!(selection_summary(5, 5, 5, false, 120), "5 retained · 0 removed");
}

#[test]
fn dropped_banner_counts_commits() {
    assert_eq!(dropped_banner_text(0), "no commits dropped");
    assert_eq!(dropped_banner_text(1), "1 commit will be dropped");
    assert_eq!(dropped_banner_text(4), "4 commits will be dropped");
}

#[test]
fn selection_context_explains_a_tainted_feature() {
    let mut cursor = context();
    cursor.tainted = Some("feature/a".to_owned());
    assert_eq!(
        selection_context(&cursor),
        "↳ Tainted: feature/a merged dev into itself. Recreate it from main and cherry-pick your commits."
    );
}

#[test]
fn selection_context_names_retained_dependents() {
    let mut cursor = context();
    cursor.dependents = vec!["feature/b".to_owned(), "feature/c".to_owned()];
    assert_eq!(
        selection_context(&cursor),
        "◆ Required by feature/b, feature/c. Remove those retained features first."
    );
}

#[test]
fn selection_context_falls_back_to_the_legend() {
    let mut cursor = context();
    assert_eq!(
        selection_context(&cursor),
        "✓ retained · – removed · ◆ retained dependency · ↳ tainted · history = reusable resolution"
    );
    cursor.reachability = true;
    assert_eq!(
        selection_context(&cursor),
        "✓ retained · – removed · ◆ dependency · ↳ carried · ↳ tainted"
    );
    cursor.show_shortcuts = true;
    assert_eq!(
        selection_context(&cursor),
        "Shortcuts: a keep all · x remove all · Home/End first/last · PgUp/PgDn page · q/Ctrl-C cancel"
    );
}

fn fixture_entries() -> Vec<ChecklistEntry> {
    vec![
        ChecklistEntry {
            row: FeatureRowView {
                index: 0,
                name: "feature/PROJ-12-one".to_owned(),
                tip: "a".repeat(40),
                jira_key: Some("PROJ-12".to_owned()),
                has_history: true,
                retained: true,
                locked: true,
            },
            tainted_merges: None,
            carried: Vec::new(),
        },
        ChecklistEntry {
            row: FeatureRowView {
                index: 1,
                name: "feature/two".to_owned(),
                tip: "b".repeat(40),
                jira_key: None,
                has_history: false,
                retained: true,
                locked: false,
            },
            tainted_merges: None,
            carried: Vec::new(),
        },
    ]
}

/// The text of a selection screen at a terminal size, piece by piece as the frame shows it.
fn rendered_selection(
    entries: &[ChecklistEntry],
    retained: usize,
    context: &CursorContext,
    filter: &str,
    filtering: bool,
    width: u16,
    height: u16,
) -> (String, u16) {
    let area_width = width.min(115);
    let (row_width, wide, branch_width) = checklist_layout(area_width);
    let mut text = String::new();
    text.push_str(&workflow_steps(InteractionStage::Selection));
    text.push('\n');
    text.push_str(&selection_title("origin", "qa"));
    text.push('\n');
    text.push_str(&selection_summary(
        retained,
        2,
        entries.len(),
        !filter.is_empty(),
        area_width,
    ));
    text.push('\n');
    let items = checklist_items(&entries.to_vec(), row_width, wide, branch_width);
    if items.is_empty() {
        text.push_str(&empty_filter_text(filter));
        text.push('\n');
    }
    for item in items {
        text.push_str(&item);
        text.push('\n');
    }
    text.push_str(&selection_context(context));
    text.push('\n');
    text.push_str(&footer_controls(
        InteractionStage::Selection,
        filtering,
        filter,
        context.show_shortcuts,
        false,
    ));
    let footer_row = height - footer_height(InteractionStage::Selection, area_width);
    (text, footer_row)
}

fn required_context() -> CursorContext {
    let mut cursor = context();
    cursor.environment = "qa".to_owned();
    cursor.dependents = vec!["feature/two".to_owned()];
    cursor
}

#[test]
fn checklist_tests_checklist_renders_order_identity_jira_key_and_rerere_availability() {
    let (rendered, footer_row) =
        rendered_selection(&fixture_entries(), 2, &required_context(), "", false, 115, 38);

    assert!(rendered.contains("SELECT FEATURES"));
    assert!(rendered.contains("● 1 Select › ○ 2 Review › ○ 3 Publish"));
    assert!(!rendered.contains("Filter:"));
    assert!(rendered.contains("feature/PROJ-12-one"));
    assert!(rendered.contains("aaaaaaa"));
    assert!(rendered.contains("PROJ-12"));
    assert!(rendered.contains("available"));
    assert!(rendered.contains("feature/two"));
    assert!(rendered.contains("2 retained · 0 removed"));
    assert!(rendered.contains("◆ Required by feature/two"));
    assert!(rendered.contains("Enter Review"));
    assert!(footer_row >= 36);
}

#[test]
fn checklist_tests_checklist_updates_the_impact_summary_after_a_toggle() {
    let mut entries = fixture_entries();
    entries[0].row.retained = false;
    entries[0].row.locked = false;
    let (rendered, _) = rendered_selection(&entries, 1, &context(), "", false, 115, 38);

    assert!(rendered.contains("1 retained · 1 removed"));
    assert!(rendered.contains("Space Toggle"));
}

#[test]
fn checklist_tests_compact_checklist_reflows_issue_and_history_instead_of_hiding_them() {
    let (rendered, _) =
        rendered_selection(&fixture_entries(), 2, &required_context(), "", false, 80, 24);

    assert!(!rendered.contains("Filter:"));
    assert!(rendered.contains("PROJ-12"));
    assert!(rendered.contains("available"));
    assert!(rendered.contains("/ Filter"));
    assert!(rendered.contains("? Shortcuts"));
    assert!(rendered.contains("◆ Required by feature/two"));
    assert!(!rendered.contains("a keep all"));
}

#[test]
fn checklist_tests_wide_checklist_collapses_each_feature_to_one_evidence_row() {
    let (rendered, _) =
        rendered_selection(&fixture_entries(), 2, &required_context(), "", false, 100, 24);
    let feature_line = rendered
        .lines()
        .find(|line| line.contains("feature/PROJ-12-one"))
        .expect("wide feature row was not rendered");

    assert!(feature_line.contains("aaaaaaa"));
    assert!(feature_line.contains("PROJ-12"));
    assert!(feature_line.contains("history: available"));
}

#[test]
fn checklist_filter_shows_the_typed_filter_and_the_shown_count() {
    let entries = vec![fixture_entries().remove(1)];
    let (rendered, _) = rendered_selection(&entries, 2, &context(), "two", true, 80, 24);

    assert!(rendered.contains("feature/two"));
    assert!(!rendered.contains("feature/PROJ-12-one"));
    assert!(rendered.contains("1/2"));
    assert!(rendered.contains("Filter: two▏"));
    assert!(!rendered.contains("Enter Review"));
}

#[test]
fn checklist_explains_an_empty_filter() {
    let (rendered, _) = rendered_selection(&[], 2, &context(), "missing", false, 80, 24);

    assert!(rendered.contains("No branches match “missing”"));
    assert!(rendered.contains("0/2"));
}

#[test]
fn tainted_and_carried_rows_follow_their_feature() {
    let mut entries = fixture_entries();
    entries[0].tainted_merges = Some(2);
    entries[1].carried = vec![CarriedRowView {
        name: "feature/carried".to_owned(),
        tip: "c".repeat(40),
        also: vec!["feature/x".to_owned(), "feature/y".to_owned()],
    }];
    let lines = checklist_items(&entries, 116, true, 16);
    assert_eq!(lines.len(), 4);
    assert_eq!(lines[1], "      ↳ tainted  2 environment merges absorbed");
    assert_eq!(
        lines[3],
        "      ↳ carried  feature/carried  ccccccc  (also via feature/x, feature/y)"
    );
}

#[test]
fn inventory_banner_leaves_room_for_the_dropped_count() {
    assert_eq!(
        inventory_banner(115, 1),
        "Inventory mode: reachability · oldest tip first · no reused resolutions"
    );
    assert_eq!(inventory_banner(80, 0), "Inventory mode · no rerere");
    assert_eq!(inventory_banner(40, 12), "Inventory m…");
}

#[test]
fn help_line_height_rounds_up_and_the_list_takes_the_rest() {
    assert_eq!(context_height("abcdef", 3), 2);
    assert_eq!(context_height("abcdefg", 3), 3);
    assert_eq!(context_height("", 80), 1);
    assert_eq!(context_height("abc", 0), 3);
    assert_eq!(list_height(24, 2), 20);
    assert_eq!(list_height(3, 2), 0);
    assert!(list_overflows(&vec![String::new(); 5], 4));
    assert!(!list_overflows(&vec![String::new(); 4], 4));
}

#[test]
fn an_empty_filter_result_selects_nothing_and_does_not_scroll() {
    assert_eq!(selection_state(&Vec::new(), 0, false, 10), (None, false));
    assert_eq!(empty_filter_text("missing"), "No branches match “missing”.");
}

#[test]
fn the_cursor_feature_is_selected_among_the_list_items() {
    let carried = CarriedRowView { name: "feature/old".to_owned(), tip: "abc".to_owned(), also: Vec::new() };
    let entries = vec![
        ChecklistEntry { row: row(0, None, false, true, false), tainted_merges: Some(2), carried: vec![carried] },
        ChecklistEntry { row: row(3, None, false, true, false), tainted_merges: None, carried: Vec::new() },
    ];
    assert_eq!(selection_state(&entries, 0, true, 10), (Some(0), false));
    assert_eq!(selection_state(&entries, 3, true, 10), (Some(3), false));
    assert_eq!(selection_state(&entries, 5, true, 10), (None, false));
    assert_eq!(selection_state(&entries, 3, true, 4), (Some(3), false));
    assert_eq!(selection_state(&entries, 3, true, 3), (Some(3), true));
    assert_eq!(selection_state(&entries, 3, false, 5), (Some(3), true));
    assert_eq!(selection_state(&entries, 3, false, 6), (Some(3), false));
}

use graduate_cli::confirmation::{confirmation_text, ConfirmationView, CONFIRMATION_TITLE};
use graduate_cli::history_explanation::{unsupported_history_text, HistoryScreen, UnsupportedReason};
use graduate_cli::plan_summary::MergeResolution;
use graduate_cli::restack::BranchIdentity;
use graduate_cli::restack_frame::{
    confirmation_minimum_height, footer_controls, footer_height, is_undersized, minimum_height,
    review_area_scroll, too_small_text, workflow_steps,
};
use graduate_cli::restack_keys::InteractionStage;
use graduate_cli::review::{review_text, ReviewView, TechnicalDetails};

/// A stage's text as the frame lays it out: three header rows with the workflow steps,
/// a spacer, the stage's body scrolled to `scroll` and clipped to the rows left, and the
/// footer at the bottom; or the resize guidance when the terminal is too small. The
/// confirmation's minimum height and the review's scroll come from the wrapped body.
fn framed_at(stage: InteractionStage, body: Vec<String>, width: u16, height: u16, scroll: usize) -> String {
    let content_width = width.min(115);
    let minimum = if stage == InteractionStage::Confirmation {
        confirmation_minimum_height(&body, content_width)
    } else {
        minimum_height(stage, 0)
    };
    if is_undersized(width, height, minimum) {
        return too_small_text(minimum).join("\n");
    }
    let footer = footer_height(stage, content_width);
    let available = height.saturating_sub(4 + footer);
    let mut panel = Vec::new();
    if stage == InteractionStage::Confirmation {
        panel.push(CONFIRMATION_TITLE.to_owned());
    }
    panel.extend(body);
    let offset = if stage == InteractionStage::Review {
        usize::from(review_area_scroll(&panel, content_width, available, scroll).0)
    } else {
        0
    };
    let mut rows = vec![String::new(), workflow_steps(stage), String::new(), String::new()];
    for index in 0..usize::from(available) {
        rows.push(panel.get(offset + index).cloned().unwrap_or_default());
    }
    rows.push(footer_controls(stage, false, "", false, false));
    rows.join("\n")
}

fn framed(stage: InteractionStage, body: Vec<String>, width: u16, height: u16) -> String {
    framed_at(stage, body, width, height, 0)
}

fn review_view() -> ReviewView {
    ReviewView {
        remote: "origin".to_owned(),
        environment: "qa".to_owned(),
        main: "main".to_owned(),
        environment_tip: "environment-tip".to_owned(),
        preview_commit: "preview".to_owned(),
        retained: vec![BranchIdentity { name: "feature/PROJ-12-one".to_owned(), tip: "a".repeat(40) }],
        removed: vec![BranchIdentity { name: "feature/two".to_owned(), tip: "b".repeat(40) }],
        resolutions: vec![MergeResolution::Clean],
        reachability: false,
        orphaned: Vec::new(),
        tainted: Vec::new(),
        details: TechnicalDetails {
            main_ref: "refs/remotes/origin/main".to_owned(),
            main_tip: "main-tip".to_owned(),
            environment_ref: "refs/remotes/origin/qa".to_owned(),
            final_tree: "tree-tip".to_owned(),
            author_name: "Pat".to_owned(),
            author_email: "pat@example.com".to_owned(),
            fetch_sha256: "f".repeat(64),
            push_sha256: "p".repeat(64),
            dropped_markers: 0,
            unsupported: None,
            carried: 0,
        },
    }
}

fn confirmation_view() -> ConfirmationView {
    ConfirmationView {
        remote: "origin".to_owned(),
        environment: "qa".to_owned(),
        environment_tip: "environment-tip".to_owned(),
        preview_commit: "preview".to_owned(),
        retained: 1,
        removed: vec![BranchIdentity { name: "feature/two".to_owned(), tip: "b".repeat(40) }],
        resolutions: vec![MergeResolution::Clean],
        dropped: 0,
    }
}

#[test]
fn review_tests_undersized_terminal_replaces_the_workflow_with_resize_guidance() {
    let rendered = framed(InteractionStage::Selection, vec!["SELECT FEATURES  origin/qa".to_owned()], 55, 11);

    assert!(rendered.contains("Terminal too small for a safe restack review"));
    assert!(rendered.contains("56 columns × 18 rows"));
    assert!(!rendered.contains("SELECT FEATURES"));
}

#[test]
fn review_tests_review_and_confirmation_show_the_exact_rewrite_and_safety_effects() {
    let review = framed(InteractionStage::Review, review_text(&review_view(), false), 115, 38);

    assert!(review.contains("RESTACK REVIEW"));
    assert!(review.contains("Remote rewrite"));
    assert!(review.contains("environ"));
    assert!(review.contains("preview"));
    assert!(review.contains("1 retained · 1 omitted from the rebuilt environment · 1 clean merge"));
    assert!(review.contains("publish stops if origin/qa changed since this review"));
    assert!(!review.contains("Unchanged"));
    assert!(!review.contains("Target          origin/qa"));
    assert!(!review.contains("Commit signing"));
    assert!(!review.contains("Starts from"));
    assert!(!review.contains("Builds"));
    assert!(review.contains("Retained merge order"));
    assert!(review.contains("Selected feature tips are rebuilt in this order"));
    assert!(review.contains("✓ clean"));
    let retained_header = review
        .lines()
        .find(|line| line.contains("BRANCH") && line.contains("OUTCOME"))
        .expect("retained header was not rendered");
    let retained_row = review
        .lines()
        .find(|line| line.contains("feature/PROJ-12-one"))
        .expect("retained row was not rendered");
    assert_eq!(retained_header.find('#'), retained_row.find('1'));
    assert_eq!(retained_header.find("BRANCH"), retained_row.find("feature/PROJ-12-one"));
    assert!(review.contains("Omitted from origin/qa"));
    assert!(review.contains("remote branches are not changed or deleted; press Esc to revise"));
    assert!(review.contains("omitted by your selection"));
    assert!(review.contains("Plan details  ·  d show refs, identities, endpoints, and signing"));
    assert!(!review.contains("sha256:ffffffff"));
    assert!(review.contains("Enter Confirm publish"));
    assert!(!review.contains("↑/↓ Scroll"));
    let footer_row = review
        .lines()
        .position(|line| line.contains("Enter Confirm publish"))
        .expect("review footer was not rendered");
    assert!(footer_row >= 36);

    let details = framed(InteractionStage::Review, review_text(&review_view(), true), 115, 38);
    assert!(details.contains("refs/remotes/origin/main @ main-tip"));
    assert!(details.contains("Pat <pat@example.com>"));
    assert!(details.contains("sha256:ffffffff"));
    assert!(details.contains("unsigned canonical merge commits"));
    assert!(details.contains("0 exact phase marker(s)"));
    assert!(details.contains("history proof; every commit attributed"));
    let identities = framed_at(InteractionStage::Review, review_text(&review_view(), true), 115, 40, 22);
    assert!(identities.contains("Exact feature identities"));
    assert!(identities.contains("retained  feature/PROJ-12-one @ aaaaaaaaaa"));
    assert!(identities.contains("removed   feature/two @ bbbbbbbbbb"));

    let body = confirmation_text(Some(&confirmation_view()));
    let confirmation = framed(InteractionStage::Confirmation, body, 115, 38);
    assert!(confirmation.contains("publish stops if origin/qa changed since review"));
    assert!(confirmation.contains("(exact lease)"));
    assert!(confirmation.contains("Current tip     origin/qa @ environ"));
    assert!(confirmation.contains("Reviewed tip    origin/qa @ preview"));
    assert!(confirmation.contains("rebuild origin/qa from 1 retained feature"));
    assert!(confirmation.contains("1 omitted · 1 clean merge"));
    assert!(confirmation.contains("Omitted from the reviewed result"));
    assert!(confirmation.contains("feature/two @ bbbbbbb"));
    assert!(confirmation.contains("collaborators tracking it must resync after publish"));
    assert!(confirmation.contains("Feature branches and local work remain unchanged"));
    assert!(confirmation.contains("Press Ctrl+Y to replace origin/qa"));
    assert!(confirmation.contains("q abandons this plan without changing refs"));
    assert!(confirmation.contains("Ctrl+Y Publish"));
    assert!(confirmation.contains("Esc Review details"));
    assert!(confirmation.contains("q Abandon plan"));
    assert!(!confirmation.contains("unsigned"));
    let compact_body = confirmation_text(Some(&confirmation_view()));
    let compact_confirmation = framed(InteractionStage::Confirmation, compact_body, 80, 24);
    assert!(compact_confirmation.contains("rebuild origin/qa from 1 retained feature"));
    assert!(compact_confirmation.contains("publish stops if origin/qa changed since review"));
    assert!(compact_confirmation.contains("collaborators tracking it must resync"));
    assert!(compact_confirmation.contains("Press Ctrl+Y to replace origin/qa"));
    assert!(compact_confirmation.contains("Ctrl+Y Publish"));
}

#[test]
fn confirmation_tests_confirmation_bounds_large_omission_lists_and_points_back_to_review() {
    let mut view = confirmation_view();
    view.removed = (1..=5)
        .map(|index| BranchIdentity { name: format!("feature/removed-{index}"), tip: format!("{index:040}") })
        .collect();
    let body = confirmation_text(Some(&view));
    let confirmation = framed(InteractionStage::Confirmation, body, 115, 38);

    assert!(confirmation.contains("5 omitted"));
    assert!(confirmation.contains("feature/removed-1"));
    assert!(confirmation.contains("feature/removed-3"));
    assert!(!confirmation.contains("feature/removed-4"));
    assert!(confirmation.contains("and 2 more; press Esc to review every omission"));
}

fn history_screen(
    kind: &str,
    commit: Option<String>,
    feature_parent: Option<String>,
    branches: Vec<String>,
    parents: Option<u64>,
) -> HistoryScreen {
    HistoryScreen {
        remote: "origin".to_owned(),
        environment: "qa".to_owned(),
        main: "main".to_owned(),
        reason: Some(UnsupportedReason { kind: kind.to_owned(), commit, feature_parent, branches, parents }),
        top_level: 1,
        carried: 1,
        dropped: 1,
    }
}

#[test]
fn unsupported_history_tests_unsupported_history_screen_explains_every_reason_and_fits_the_minimum_size() {
    let reasons = vec![
        (
            history_screen(
                "ambiguousFeatureRefs",
                Some("886faef4b24230540b9a5d8ae057a233a7dd0126".to_owned()),
                Some("0bbff862c139d704a3c6431d9fa7f16c55c1aa5a".to_owned()),
                (1..=17).map(|n| format!("HPM-{n}")).collect(),
                None,
            ),
            vec!["brings in 0bbff86, which 17", "cannot tell which one it meant", "HPM-3", "and 14 more"],
        ),
        (
            history_screen("deletedFeatureRef", Some("a".repeat(40)), Some("b".repeat(40)), Vec::new(), None),
            vec!["no remote branch contains it any more"],
        ),
        (
            history_screen("directCommit", Some("c".repeat(40)), None, Vec::new(), None),
            vec!["was made directly on qa"],
        ),
        (
            history_screen("fastForwardHistory", Some("d".repeat(40)), None, vec!["feature/ff".to_owned()], None),
            vec!["fast-forwarded through ddddddd", "feature/ff"],
        ),
        (
            history_screen("octopusMerge", Some("e".repeat(40)), None, Vec::new(), Some(3)),
            vec!["has 3 parents"],
        ),
        (
            history_screen("missingCommit", Some("f".repeat(40)), None, Vec::new(), None),
            vec!["is missing from the fetched history"],
        ),
    ];
    for (screen, expectations) in reasons {
        for (width, height) in [(60, 24), (100, 30)] {
            let rendered = framed(InteractionStage::UnsupportedHistory, unsupported_history_text(&screen), width, height);
            assert!(rendered.contains("HISTORY CANNOT BE READ"), "{width}x{height}: {rendered}");
            for expectation in &expectations {
                assert!(rendered.contains(expectation), "{width}x{height} missing {expectation:?}:\n{rendered}");
            }
            assert!(rendered.contains("Rebuilding from inventory instead"));
            assert!(rendered.contains("Membership: remote tips in qa, not in main. You pick."));
            assert!(rendered.contains("No reused resolutions"));
            assert!(rendered.contains("dropped; listed first"));
            assert!(rendered.contains("1 top-level branch · 1 carried · 1 commit dropped"));
            assert!(rendered.contains("Rebuild from inventory"));
            assert!(rendered.contains("Cancel"));
            assert!(!rendered.contains("SELECT FEATURES"));
        }
    }
}

fn short_confirmation_at_the_publish_warning_boundary() {
    let body = confirmation_text(Some(&confirmation_view()));
    let minimum = confirmation_minimum_height(&body, 56);

    let rendered = framed(InteractionStage::Confirmation, body.clone(), 56, minimum.saturating_sub(1));
    assert!(rendered.contains("Terminal too small for a safe restack review"));
    assert!(rendered.contains(&format!("56 columns × {minimum} rows")));
    assert!(!rendered.contains("PUBLISH REMOTE REWRITE"));

    let boundary = framed(InteractionStage::Confirmation, body, 56, minimum);
    assert!(boundary.contains("PUBLISH REMOTE REWRITE"));
    assert!(boundary.contains("Feature branches and local work"));
    assert!(boundary.contains("Press Ctrl+Y to replace origin/qa"));
}

#[test]
fn review_tests_short_confirmation_requires_enough_height_for_the_publish_warning() {
    short_confirmation_at_the_publish_warning_boundary();
}

#[test]
fn restack_tui_short_confirmation_requires_enough_height_for_the_publish_warning() {
    short_confirmation_at_the_publish_warning_boundary();
}

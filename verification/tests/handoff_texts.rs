use graduate_cli::handoff::{
    cancelled_text, conflict_text, success_text, ConflictHandoff, PublishedSummary,
};

fn summary(rebuilt_dropping: Option<usize>) -> PublishedSummary {
    PublishedSummary {
        remote: "origin".to_owned(),
        environment: "qa".to_owned(),
        environment_tip: "1111111aaaa".to_owned(),
        preview_commit: "2222222bbbb".to_owned(),
        final_tree: "3333333cccc".to_owned(),
        retained: 1,
        removed: 1,
        rebuilt_dropping,
    }
}

#[test]
fn cancelled_restacks_say_no_remote_ref_changed() {
    assert_eq!(cancelled_text("qa"), "Restack of qa cancelled; no remote refs changed.");
}

#[test]
fn published_restacks_report_short_ids_and_counts() {
    assert_eq!(
        success_text(&summary(None)),
        "Restacked origin/qa: 1111111 -> 2222222 (tree 3333333); 1 retained, 1 omitted from the environment."
    );
    assert_eq!(
        success_text(&summary(Some(2))),
        "Restacked origin/qa: 1111111 -> 2222222 (tree 3333333); 1 retained, 1 omitted from the environment. Rebuilt from inventory; 2 commits dropped."
    );
    assert!(success_text(&summary(Some(1))).ends_with(" Rebuilt from inventory; 1 commit dropped."));
    assert!(success_text(&summary(Some(0))).ends_with(" Rebuilt from inventory; no commits dropped."));
}

#[test]
fn paused_restacks_list_every_unresolved_path_and_the_resume_command() {
    let handoff = ConflictHandoff {
        environment: "qa".to_owned(),
        branch: "feature/a".to_owned(),
        unresolved_paths: vec!["src/a.rs".to_owned(), "src/b.rs".to_owned()],
        resume_token: "v1.token".to_owned(),
        work_area: "/tmp/work".to_owned(),
    };
    assert_eq!(
        conflict_text(&handoff),
        "Restack of qa paused on feature/a.\nUnresolved paths:\n  - src/a.rs\n  - src/b.rs\nWork area: /tmp/work\n\nResolve this preserved session:\n  1. Edit the unresolved files in the work area.\n  2. Stage every resolution there; leave no unstaged or untracked files.\n  3. Resume with: gd restack qa --resume v1.token\n\nDo not commit; Graduate creates the canonical merge commit.\nThis resumable session expires after 24 hours of inactivity."
    );
}

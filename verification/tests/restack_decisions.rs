use graduate_cli::error::{interactive_error, CliError, DetailValue, MachineError, MachineKind};
use graduate_cli::git_output::{rerere_outcome, GitOutput, IsolatedRepository};
use graduate_cli::confirmation::{confirmation_text, resolution_summary, ConfirmationView};
use graduate_cli::history_explanation::unsupported_history_text;
use graduate_cli::review::{
    pad_text, review_text, truncate_text, OrphanRow, ReviewView, TaintedRow, TechnicalDetails,
};
use graduate_cli::plan_summary::{
    merge_first_parents, outcome_name, resolution_counts, MergeResolution,
};
use graduate_cli::preflight::{
    authorize_plan, configured_author, read_success_text, source_config, source_object_directory,
};
use graduate_cli::publication::{
    check_publishable, check_remote_endpoints, failed_push_decision, remote_unavailable_error,
    resume_preview, RemoteEndpoints, ResumedPreview, SessionAction,
};
use graduate_cli::restack::{
    abort_session, check_session_origin, continue_session_step, record_conflict, seal_progress,
    sealed_record, valid_identity_value, valid_plan_digest, BranchIdentity, ResumeStep,
    RestackArgs, SessionOrigin, SessionProgress,
};
use graduate_cli::restack_errors::{
    conflict_error, inventory_error, plan_error, selection_error, selection_error_message,
    InventoryError, PlanError, SelectionError,
};
use graduate_cli::session::SessionStatus;
use graduate_cli::publication::{finish_resumed_preview, RebuildOutcome};
use graduate_cli::reconstruction::{complete_reconstruction, conflict_result, MergeOutcome};

fn machine(error: &CliError) -> &MachineError {
    match error {
        CliError::Machine(machine) => machine,
        other => panic!("expected a machine error, got {other:?}"),
    }
}

fn text(value: &DetailValue) -> &str {
    match value {
        DetailValue::Text(text) => text,
        other => panic!("expected text, got {other:?}"),
    }
}

fn keys(error: &CliError) -> Vec<&str> {
    machine(error).details.iter().map(|(key, _)| key.as_str()).collect()
}

fn repository() -> IsolatedRepository {
    IsolatedRepository::open("/cache/sessions/abc/repository").expect("has a parent")
}

#[test]
fn work_area_files_sit_beside_the_repository() {
    let repository = repository();
    assert_eq!(repository.root, "/cache/sessions/abc/repository");
    assert_eq!(repository.hooks, "/cache/sessions/abc/hooks");
    assert_eq!(repository.global_config, "/cache/sessions/abc/global.gitconfig");
    let error = IsolatedRepository::open("/").expect_err("no parent");
    assert_eq!(machine(&error).code, "isolated_setup_failed");
}

#[test]
fn command_text_loses_only_its_closing_line_breaks() {
    let repository = repository();
    let text = repository
        .read_text(GitOutput::Succeeded(b"abc def\r\n\n".to_vec()), "parents")
        .expect("utf-8");
    assert_eq!(text, "abc def");
    let error = repository.read_text(GitOutput::Succeeded(vec![0xff, 0xfe]), "parents").unwrap_err();
    assert_eq!(machine(&error).code, "validation_failed");
    assert_eq!(text_of_stage(&error), "parents");
    let error = repository.read_text(GitOutput::NotRun, "parents").unwrap_err();
    assert_eq!(machine(&error).code, "reconstruction_failed");
    let error = repository.read_text(GitOutput::Failed, "parents").unwrap_err();
    assert_eq!(machine(&error).code, "validation_failed");
}

fn text_of_stage(error: &CliError) -> &str {
    text(&machine(error).details[0].1)
}

#[test]
fn rerere_lists_the_remaining_paths() {
    let repository = repository();
    let paths = repository
        .rerere_remaining(GitOutput::Succeeded(b"a.txt\r\n\nsrc/b.rs\n".to_vec()))
        .expect("lines");
    assert_eq!(paths, vec!["a.txt".to_owned(), "src/b.rs".to_owned()]);
}

#[test]
fn unresolved_paths_are_nul_separated_utf8() {
    let repository = repository();
    let paths = repository
        .unresolved_paths(GitOutput::Succeeded(b"one\0\0two words\0".to_vec()))
        .expect("paths");
    assert_eq!(paths, vec!["one".to_owned(), "two words".to_owned()]);
    let error = repository
        .unresolved_paths(GitOutput::Succeeded(b"ok\0\xff\0".to_vec()))
        .unwrap_err();
    assert_eq!(machine(&error).code, "invalid_path_encoding");
}

#[test]
fn index_validation_reports_the_first_failed_check() {
    let repository = repository();
    let ok = || GitOutput::Succeeded(Vec::new());
    assert!(repository.validate_index(ok(), ok(), ok()).is_ok());
    let error = repository
        .validate_index(GitOutput::Succeeded(b"x".to_vec()), ok(), ok())
        .unwrap_err();
    assert_eq!(text_of_stage(&error), "unmergedIndex");
    let error = repository.validate_index(ok(), GitOutput::Failed, ok()).unwrap_err();
    assert_eq!(text_of_stage(&error), "stagedDiffCheck");
    let error = repository.validate_clean_state(GitOutput::Succeeded(b"?? x\0".to_vec()), ok()).unwrap_err();
    assert_eq!(text_of_stage(&error), "indexState");
    assert!(repository.validate_clean_state(ok(), ok()).is_ok());
}

#[test]
fn reconstructed_commits_are_checked_field_by_field() {
    let repository = repository();
    let good = |bytes: &[u8]| GitOutput::Succeeded(bytes.to_vec());
    let check = |parents: &[u8], identity: &[u8], raw: &[u8]| {
        repository.validate_commit(
            good(parents),
            good(b"Merge feature\n"),
            good(identity),
            good(raw),
            "c",
            "p",
            "f",
            "Merge feature",
            "Pat",
            "pat@example.com",
        )
    };
    let identity = b"Pat\0pat@example.com\0Pat\0pat@example.com\n";
    assert!(check(b"c p f\n", identity, b"tree t\nparent p\n\nmessage").is_ok());
    assert_eq!(text_of_stage(&check(b"c f p\n", identity, b"tree t\n").unwrap_err()), "parents");
    assert_eq!(
        text_of_stage(&check(b"c p f\n", b"Sam\0s@x\0Sam\0s@x\n", b"tree t\n").unwrap_err()),
        "identity"
    );
    assert_eq!(
        text_of_stage(&check(b"c p f\n", identity, b"tree t\ngpgsig -----BEGIN\n\nmsg").unwrap_err()),
        "signature"
    );
    assert!(check(b"c p f\n", identity, b"tree t\n\ngpgsig in the message").is_ok());
}

#[test]
fn rerere_stages_what_it_resolved() {
    let conflicted = vec!["a".to_owned(), "b".to_owned(), "c".to_owned()];
    let (resolved, all) = rerere_outcome(&conflicted, &vec!["b".to_owned()]).expect("conflicts");
    assert_eq!(resolved, vec!["a".to_owned(), "c".to_owned()]);
    assert!(!all);
    let (resolved, all) = rerere_outcome(&conflicted, &Vec::new()).expect("conflicts");
    assert_eq!(resolved, conflicted);
    assert!(all);
    let error = rerere_outcome(&Vec::new(), &Vec::new()).unwrap_err();
    assert_eq!(text_of_stage(&error), "merge");
}

#[test]
fn inventory_errors_list_their_details_in_key_order() {
    let error = inventory_error(InventoryError::AmbiguousFeatureRefs {
        merge_commit: "886faef".to_owned(),
        feature_parent: "0bbff86".to_owned(),
        branches: vec!["HPM-1".to_owned()],
    });
    assert_eq!(machine(&error).code, "unsupported_history");
    assert_eq!(keys(&error), vec!["branches", "featureParent", "kind", "mergeCommit"]);
    let error = inventory_error(InventoryError::OctopusMerge { merge_commit: "e".to_owned(), parents: 3 });
    assert_eq!(keys(&error), vec!["kind", "mergeCommit", "parents"]);
    assert!(matches!(machine(&error).details[2].1, DetailValue::Number(3)));
}

#[test]
fn plan_error_reports_orphan_mismatches_as_machine_json() {
    let error = plan_error(PlanError::OrphanedCommits { expected: 2, actual: 1, mismatch: "abc".to_owned() });
    assert_eq!(machine(&error).code, "validation_failed");
    assert_eq!(keys(&error), vec!["actual", "expected", "mismatch", "stage"]);
    assert_eq!(text(&machine(&error).details[2].1), "abc");
    assert_eq!(text(&machine(&error).details[3].1), "orphanedCommits");
}

#[test]
fn refused_removals_name_the_branch_and_its_dependents() {
    let error = selection_error(SelectionError::RetainedDependency {
        branch: "feature/a".to_owned(),
        dependents: vec!["feature/b".to_owned()],
    });
    assert_eq!(machine(&error).kind, MachineKind::Usage);
    assert_eq!(keys(&error), vec!["branch", "dependents", "kind"]);
    assert_eq!(text(&machine(&error).details[2].1), "retainedDependency");
    let message = selection_error_message(&SelectionError::RetainedDependency {
        branch: "a\n".to_owned(),
        dependents: vec!["b".to_owned(), "c".to_owned()],
    });
    assert_eq!(message, "Cannot remove a\\n while retained by b, c.");
    assert_eq!(
        selection_error_message(&SelectionError::Unknown { branch: "x".to_owned() }),
        "Cannot remove x from this inventory."
    );
}

#[test]
fn conflicts_carry_the_resume_token_and_work_area() {
    let error = conflict_error("feature/a", vec!["f.txt".to_owned()], "v1.token", Some("/w"), 99);
    assert_eq!(machine(&error).code, "reconstruction_conflict");
    assert_eq!(keys(&error), vec!["branch", "expiresAt", "resumeToken", "unresolvedPaths", "workArea"]);
    let error = conflict_error("feature/a", Vec::new(), "v1.token", None, 99);
    assert_eq!(machine(&error).code, "session_unavailable");
    let error = resume_preview(
        ResumedPreview::Conflict {
            branch: "b".to_owned(),
            unresolved_paths: Vec::new(),
            work_area: Some("/w".to_owned()),
            expires_at: 1,
        },
        "v1.t",
    )
    .unwrap_err();
    assert_eq!(machine(&error).code, "reconstruction_conflict");
    assert!(resume_preview(ResumedPreview::Sealed, "v1.t").is_ok());
}

fn progress() -> SessionProgress {
    SessionProgress {
        status: SessionStatus::Conflicted,
        retained: vec![
            BranchIdentity { name: "feature/a".to_owned(), tip: "aaa".to_owned() },
            BranchIdentity { name: "feature/b".to_owned(), tip: "bbb".to_owned() },
        ],
        merge_count: 1,
        next_feature: 1,
        expected_feature_tip: Some("bbb".to_owned()),
        expected_head: "head".to_owned(),
        final_tree: None,
        preview_commit: None,
        plan_digest: None,
    }
}

#[test]
fn a_recorded_conflict_resumes_at_its_feature() {
    assert_eq!(continue_session_step(&progress()).ok(), Some(ResumeStep::CompleteFeature(1)));
    let mut moved = progress();
    record_conflict(&mut moved, 0, 0, "h0".to_owned(), "aaa".to_owned());
    assert_eq!(continue_session_step(&moved).ok(), Some(ResumeStep::CompleteFeature(0)));
    let mut stale = progress();
    stale.expected_feature_tip = Some("other".to_owned());
    let error = continue_session_step(&stale).unwrap_err();
    assert_eq!(text_of_stage(&error), "featurePosition");
}

#[test]
fn a_sealed_session_gives_back_its_plan() {
    let mut sealed = progress();
    seal_progress(&mut sealed, 2, "preview".to_owned(), "tree".to_owned(), "sha256:d".to_owned());
    assert_eq!(continue_session_step(&sealed).ok(), Some(ResumeStep::ReopenSealed));
    let record = sealed_record(&sealed).expect("complete");
    assert_eq!(record.preview_commit, "preview");
    assert_eq!(record.final_tree, "tree");
    assert_eq!(record.plan_digest, "sha256:d");
    let mut incomplete = sealed;
    incomplete.merge_count = 1;
    assert!(sealed_record(&incomplete).is_err());
}

#[test]
fn aborting_consumes_any_session_not_yet_consumed() {
    assert_eq!(abort_session(SessionStatus::Sealed).ok(), Some(SessionStatus::Consumed));
    assert!(abort_session(SessionStatus::Consumed).is_err());
}

#[test]
fn sessions_resume_only_from_their_origin() {
    let args = RestackArgs {
        environment: "qa".to_owned(),
        main: Some("trunk".to_owned()),
        remote: None,
        params: None,
        dry_run: false,
        apply: false,
        resume: Some("v1.t".to_owned()),
        abort: false,
    };
    let origin = SessionOrigin {
        repository_id: "/repo/.git".to_owned(),
        environment: "qa".to_owned(),
        remote: "origin".to_owned(),
        main: "main".to_owned(),
    };
    let error = check_session_origin(&args, "/repo/.git", &origin).unwrap_err();
    assert_eq!(text_of_stage(&error), "main");
    let error = check_session_origin(&args, "/other/.git", &origin).unwrap_err();
    assert_eq!(text_of_stage(&error), "repository");
    let same_main = RestackArgs { main: None, ..args };
    assert!(check_session_origin(&same_main, "/repo/.git", &origin).is_ok());
}

#[test]
fn publication_needs_a_sealed_session_and_the_reviewed_endpoints() {
    assert!(check_publishable(SessionStatus::Sealed).is_ok());
    assert!(check_publishable(SessionStatus::Publishing).is_err());
    let reviewed = RemoteEndpoints { fetch_sha256: "f".to_owned(), push_sha256: "p".to_owned() };
    assert!(check_remote_endpoints(&reviewed, &reviewed.clone()).is_ok());
    let moved = RemoteEndpoints { push_sha256: "q".to_owned(), ..reviewed.clone() };
    let error = check_remote_endpoints(&reviewed, &moved).unwrap_err();
    assert_eq!(machine(&error).code, "stale_plan");
    assert_eq!(machine(&remote_unavailable_error("origin")).code, "remote_unavailable");
}

#[test]
fn a_failed_push_is_judged_by_the_remote_ref() {
    let (action, result) = failed_push_decision(Some("old"), "old", "new", "qa");
    assert_eq!(action, SessionAction::RestoreSealed);
    assert_eq!(machine(&result.unwrap_err()).code, "push_rejected");
    let (action, result) = failed_push_decision(Some("new"), "old", "new", "qa");
    assert_eq!(action, SessionAction::Consume);
    assert!(result.is_ok());
    let (action, result) = failed_push_decision(None, "old", "new", "qa");
    assert_eq!(action, SessionAction::Keep);
    assert_eq!(machine(&result.unwrap_err()).code, "push_outcome_unknown");
}

#[test]
fn the_object_store_is_one_path_on_one_line() {
    assert_eq!(
        source_object_directory(GitOutput::Succeeded(b"/repo/.git/objects\r\n".to_vec())).unwrap(),
        b"/repo/.git/objects".to_vec()
    );
    for bytes in [&b"\n"[..], b"/a\n/b\n", b"/a\r/b"] {
        let error = source_object_directory(GitOutput::Succeeded(bytes.to_vec())).unwrap_err();
        assert_eq!(machine(&error).code, "object_store_unavailable");
    }
    assert_eq!(machine(&source_object_directory(GitOutput::NotRun).unwrap_err()).code, "git_unavailable");
}

#[test]
fn the_author_comes_from_the_configured_identity() {
    let author = configured_author(
        GitOutput::Succeeded(b"Pat\n".to_vec()),
        GitOutput::Succeeded(b"pat@example.com\n".to_vec()),
    )
    .expect("identity");
    assert_eq!(author.name, "Pat");
    assert_eq!(author.email, "pat@example.com");
    let error = configured_author(GitOutput::Succeeded(b"  \n".to_vec()), GitOutput::Succeeded(b"e\n".to_vec()))
        .unwrap_err();
    assert_eq!(machine(&error).code, "missing_identity");
    assert_eq!(machine(&source_config(GitOutput::Failed).unwrap_err()).code, "missing_identity");
    assert!(valid_identity_value("Pat"));
    assert!(!valid_identity_value("Pat\u{7}"));
    assert_eq!(read_success_text(GitOutput::Succeeded(b"oid\n".to_vec()), "commitTree").unwrap(), "oid");
}

#[test]
fn plans_publish_only_under_the_reviewed_digest() {
    let digest = format!("sha256:{}", "a".repeat(64));
    assert!(authorize_plan(&digest, Some(&digest)).is_ok());
    assert!(authorize_plan(&digest, None).is_err());
    assert!(valid_plan_digest(&"a".repeat(64)) || valid_plan_digest(&digest));
}

#[test]
fn merge_counts_and_parents_follow_the_merges() {
    let merges = vec![MergeResolution::Clean, MergeResolution::Reused, MergeResolution::Clean];
    assert_eq!(resolution_counts(&merges), (2, 1, 0));
    assert_eq!(outcome_name(MergeResolution::Reused), "rerere");
    let parents = merge_first_parents("main", &vec!["m1".to_owned(), "m2".to_owned()]);
    assert_eq!(parents, vec!["main".to_owned(), "m1".to_owned()]);
}

#[test]
fn interactive_restacks_show_machine_errors_to_people() {
    let error = interactive_error(remote_unavailable_error("origin"));
    assert!(matches!(error, CliError::Restack(_)));
    assert!(matches!(interactive_error(CliError::LoginCancelled), CliError::LoginCancelled));
}

fn history_screen(
    kind: &str,
    commit: Option<String>,
    feature_parent: Option<String>,
    branches: Vec<String>,
    parents: Option<u64>,
) -> graduate_cli::history_explanation::HistoryScreen {
    graduate_cli::history_explanation::HistoryScreen {
        remote: "origin".to_owned(),
        environment: "qa".to_owned(),
        main: "main".to_owned(),
        reason: Some(graduate_cli::history_explanation::UnsupportedReason {
            kind: kind.to_owned(),
            commit,
            feature_parent,
            branches,
            parents,
        }),
        top_level: 1,
        carried: 1,
        dropped: 1,
    }
}

#[test]
fn unsupported_history_text_explains_every_reason() {
    let cases = vec![
        (
            history_screen(
                "ambiguousFeatureRefs",
                Some("886faef4b24230540b9a5d8ae057a233a7dd0126".to_owned()),
                Some("0bbff862c139d704a3c6431d9fa7f16c55c1aa5a".to_owned()),
                (1..=17).map(|n| format!("HPM-{n}")).collect(),
                None,
            ),
            vec!["brings in 0bbff86, which 17", "cannot tell which one it meant", "HPM-3", "and 14 more"],
        ),
        (
            history_screen("deletedFeatureRef", Some("a".repeat(40)), Some("b".repeat(40)), Vec::new(), None),
            vec!["no remote branch contains it any more"],
        ),
        (
            history_screen("directCommit", Some("c".repeat(40)), None, Vec::new(), None),
            vec!["was made directly on qa"],
        ),
        (
            history_screen("fastForwardHistory", Some("d".repeat(40)), None, vec!["feature/ff".to_owned()], None),
            vec!["fast-forwarded through ddddddd", "feature/ff"],
        ),
        (
            history_screen("octopusMerge", Some("e".repeat(40)), None, Vec::new(), Some(3)),
            vec!["has 3 parents"],
        ),
        (
            history_screen("missingCommit", Some("f".repeat(40)), None, Vec::new(), None),
            vec!["is missing from the fetched history"],
        ),
    ];
    for (screen, expectations) in cases {
        let text = unsupported_history_text(&screen).join("\n");
        assert!(text.starts_with("HISTORY CANNOT BE READ  ·  origin/qa"), "{text}");
        for expectation in expectations {
            assert!(text.contains(expectation), "missing {expectation:?}:\n{text}");
        }
        assert!(text.contains("Rebuilding from inventory instead"));
        assert!(text.contains("Membership: remote tips in qa, not in main. You pick."));
        assert!(text.contains("No reused resolutions"));
        assert!(text.contains("dropped; listed first"));
        assert!(text.contains("1 top-level branch · 1 carried · 1 commit dropped"));
        assert!(!text.contains("HPM-4"));
    }
    let unclassified = graduate_cli::history_explanation::HistoryScreen {
        reason: None,
        ..history_screen("x", None, None, Vec::new(), None)
    };
    assert_eq!(
        unsupported_history_text(&unclassified),
        vec![
            "HISTORY CANNOT BE READ  ·  origin/qa".to_owned(),
            String::new(),
            "The environment history could not be classified.".to_owned()
        ]
    );
}

#[test]
fn confirmation_bounds_large_omission_lists() {
    let view = ConfirmationView {
        remote: "origin".to_owned(),
        environment: "qa".to_owned(),
        environment_tip: "e".repeat(40),
        preview_commit: "preview".to_owned(),
        retained: 1,
        removed: (1..=5)
            .map(|index| BranchIdentity { name: format!("feature/removed-{index}"), tip: format!("{index:040}") })
            .collect(),
        resolutions: vec![MergeResolution::Clean],
        dropped: 0,
    };
    let text = confirmation_text(Some(&view)).join("\n");
    assert!(text.contains("5 omitted"));
    assert!(text.contains("feature/removed-1"));
    assert!(text.contains("feature/removed-3"));
    assert!(!text.contains("feature/removed-4"));
    assert!(text.contains("and 2 more; press Esc to review every omission"));
    assert!(text.contains("rebuild origin/qa from 1 retained feature · 5 omitted · 1 clean merge"));
    assert!(text.contains("Reviewed tip    origin/qa @ preview"));
    assert!(!text.contains("Drops "));
    let dropping = ConfirmationView { dropped: 200, removed: Vec::new(), ..view };
    let text = confirmation_text(Some(&dropping)).join("\n");
    assert!(text.contains("Drops 200 commits that no retained branch contains."));
    assert!(!text.contains("Omitted from the reviewed result"));
}

#[test]
fn resolution_summaries_name_each_kind() {
    assert_eq!(resolution_summary(&Vec::new()), "0 merges");
    assert_eq!(resolution_summary(&vec![MergeResolution::Clean, MergeResolution::Clean]), "2 clean merges");
    assert_eq!(
        resolution_summary(&vec![MergeResolution::Clean, MergeResolution::Reused, MergeResolution::Manual]),
        "3 merges: 1 clean · 1 history reused · 1 manual"
    );
}

fn review_view() -> ReviewView {
    ReviewView {
        remote: "origin".to_owned(),
        environment: "qa".to_owned(),
        main: "main".to_owned(),
        environment_tip: "environment-tip".to_owned(),
        preview_commit: "preview".to_owned(),
        retained: vec![BranchIdentity { name: "feature/PROJ-12-one".to_owned(), tip: "a".repeat(40) }],
        removed: vec![BranchIdentity { name: "feature/two".to_owned(), tip: "b".repeat(40) }],
        resolutions: vec![MergeResolution::Clean],
        reachability: false,
        orphaned: Vec::new(),
        tainted: Vec::new(),
        details: TechnicalDetails {
            main_ref: "refs/remotes/origin/main".to_owned(),
            main_tip: "main-tip".to_owned(),
            environment_ref: "refs/remotes/origin/qa".to_owned(),
            final_tree: "tree-tip".to_owned(),
            author_name: "Pat".to_owned(),
            author_email: "pat@example.com".to_owned(),
            fetch_sha256: "f".repeat(64),
            push_sha256: "p".repeat(64),
            dropped_markers: 0,
            unsupported: None,
            carried: 0,
        },
    }
}

#[test]
fn review_shows_the_exact_rewrite_and_safety_effects() {
    let text = review_text(&review_view(), false).join("\n");
    for expected in [
        "RESTACK REVIEW  ·  origin/qa",
        "Remote rewrite",
        "1 retained · 1 omitted from the rebuilt environment · 1 clean merge",
        "publish stops if origin/qa changed since this review",
        "Retained merge order",
        "Selected feature tips are rebuilt in this order",
        "✓ clean",
        "BRANCH",
        "OUTCOME",
        "feature/PROJ-12-one",
        "Omitted from origin/qa",
        "remote branches are not changed or deleted; press Esc to revise",
        "omitted by your selection",
        "Plan details  ·  d show refs, identities, endpoints, and signing",
    ] {
        assert!(text.contains(expected), "missing {expected:?}:\n{text}");
    }
    assert!(!text.contains("sha256:ffffffff"));
    let row = format!("   1  {:<32}  aaaaaaa  ✓ clean", "feature/PROJ-12-one");
    assert!(text.contains(&row), "{text}");
    let details = review_text(&review_view(), true).join("\n");
    for expected in [
        "refs/remotes/origin/main @ main-tip",
        "Pat <pat@example.com>",
        "sha256:ffffffff",
        "unsigned canonical merge commits",
        "0 exact phase marker(s)",
        "history proof; every commit attributed",
        "Exact feature identities",
        "retained  feature/PROJ-12-one @ aaaaaaaaaa",
        "removed   feature/two @ bbbbbbbbbb",
    ] {
        assert!(details.contains(expected), "missing {expected:?}:\n{details}");
    }
}

#[test]
fn review_lists_dropped_and_tainted_branches() {
    let mut view = review_view();
    view.reachability = true;
    view.orphaned = vec![OrphanRow {
        commit: "c".repeat(40),
        date: "2024-01-02".to_owned(),
        author: "A very long author name here".to_owned(),
        subject: "Subject".to_owned(),
    }];
    view.tainted = (1..=5)
        .map(|n| TaintedRow { name: format!("feature/t{n}"), tip: "d".repeat(40), absorbed: n })
        .collect();
    let text = review_text(&view, false).join("\n");
    assert!(text.contains("reachability · oldest tip first · resolutions not reused · 1 commit dropped"));
    assert!(text.contains("rebuilt oldest tip first, then by name."));
    assert!(text.contains("Dropped commits (1)"));
    assert!(text.contains("  ccccccc  2024-01-02  A very long a…  Subject"), "{text}");
    assert!(text.contains("Tainted branches (5)"));
    assert!(text.contains("1 environment merge absorbed"));
    assert!(text.contains("feature/t3"));
    assert!(!text.contains("feature/t4"));
    assert!(text.contains("  … and 2 more"));
}

#[test]
fn checklist_truncates_wide_unicode_by_terminal_columns() {
    let value = "feature/界界界界界界界界界界";
    let truncated = truncate_text(value, 16);
    let padded = pad_text(&truncated, 16);
    assert!(ratatui::text::Line::raw(truncated.as_str()).width() <= 16);
    assert_eq!(ratatui::text::Line::raw(padded.as_str()).width(), 16);
    assert!(truncated.ends_with('…'));
    assert_eq!(truncate_text("short", 16), "short");
}

#[test]
fn interactive_error_keeps_structured_details() {
    let error = interactive_error(graduate_cli::error::machine_failure(
        "unsupported_history",
        "the environment history cannot be reconstructed without guessing",
        vec![
            ("kind".to_owned(), DetailValue::Text("ambiguousFeatureRefs".to_owned())),
            ("mergeCommit".to_owned(), DetailValue::Text("886faef".to_owned())),
        ],
    ));
    assert_eq!(
        error.text(),
        "restack failed: the environment history cannot be reconstructed without guessing ({\"kind\":\"ambiguousFeatureRefs\",\"mergeCommit\":\"886faef\"})"
    );
}

#[test]
fn error_texts_name_each_failure() {
    let bare = interactive_error(graduate_cli::error::machine_failure("fetch_failed", "fetch failed", Vec::new()));
    assert_eq!(bare.text(), "restack failed: fetch failed");
    let numbered = interactive_error(graduate_cli::error::machine_failure(
        "session_schema_mismatch",
        "different release",
        vec![
            ("expected".to_owned(), DetailValue::Number(2)),
            ("names".to_owned(), DetailValue::Texts(vec!["a".to_owned(), "b\"c".to_owned()])),
            ("params".to_owned(), DetailValue::Json("{\"removeBranches\":[]}".to_owned())),
        ],
    ));
    assert_eq!(
        numbered.text(),
        "restack failed: different release ({\"expected\":2,\"names\":[\"a\",\"b\\\"c\"],\"params\":{\"removeBranches\":[]}})"
    );
    assert_eq!(CliError::JiraStatus(503).text(), "Jira answered with HTTP status 503");
    assert_eq!(CliError::Authentication.text(), "Jira rejected the email and API token");
    assert_eq!(CliError::LoginCancelled.text(), "setup cancelled");
    assert_eq!(CliError::Config("bad config".to_owned()).text(), "bad config");
    let machine = graduate_cli::error::machine_usage("invalid_usage", "--abort requires --resume", Vec::new());
    assert_eq!(machine.text(), "--abort requires --resume");
}

#[test]
fn confirmation_without_a_plan_says_it_is_unavailable() {
    assert_eq!(confirmation_text(None), vec!["The reviewed plan is unavailable.".to_owned()]);
}

fn merge(branch: &str, tip: &str, commit: &str) -> MergeOutcome {
    MergeOutcome {
        branch: branch.to_owned(),
        tip: tip.to_owned(),
        commit: commit.to_owned(),
        tree: format!("tree-{commit}"),
        resolution: MergeResolution::Clean,
    }
}

#[test]
fn a_session_in_another_state_is_stale() {
    let publishing = SessionProgress { status: SessionStatus::Publishing, ..progress() };
    let error = continue_session_step(&publishing).err().unwrap_or(CliError::LoginCancelled);
    assert_eq!(machine(&error).code, "stale_session");
    assert_eq!(machine(&error).message, "the restack session does not match this invocation");
    assert_eq!(text(&machine(&error).details[0].1), "sessionStatus");
}

#[test]
fn a_rebuild_ends_at_the_last_merge_commit_or_the_base() {
    let done = complete_reconstruction(vec![merge("feature/a", "aaa", "c1"), merge("feature/b", "bbb", "c2")], "main-tip", "t2".to_owned());
    assert_eq!(done.preview_commit, "c2");
    assert_eq!(done.merges.len(), 2);
    assert_eq!(done.final_tree, "t2");
    let empty = complete_reconstruction(Vec::new(), "main-tip", "base-tree".to_owned());
    assert_eq!(empty.preview_commit, "main-tip");
}

#[test]
fn a_conflict_names_the_next_retained_branch_and_the_head_before_it() {
    let retained = progress().retained;
    let conflict = conflict_result(&retained, vec![merge("feature/a", "aaa", "c1")], "main-tip", vec!["a.rs".to_owned()]);
    assert_eq!(conflict.feature_index, 1);
    assert_eq!(conflict.feature, retained[1]);
    assert_eq!(conflict.expected_head, "c1");
    assert_eq!(conflict.merges.len(), 1);
    assert_eq!(conflict.unresolved_paths, vec!["a.rs".to_owned()]);
    let first = conflict_result(&retained, Vec::new(), "main-tip", vec!["b.rs".to_owned()]);
    assert_eq!((first.feature_index, first.expected_head.as_str()), (0, "main-tip"));
}

#[test]
fn a_resumed_preview_records_a_new_conflict_or_seals_the_session() {
    let retained = vec![
        BranchIdentity { name: "feature/a".to_owned(), tip: "aaa".to_owned() },
        BranchIdentity { name: "feature/b".to_owned(), tip: "bbb".to_owned() },
        BranchIdentity { name: "feature/c".to_owned(), tip: "ccc".to_owned() },
    ];
    let start = SessionProgress { retained: retained.clone(), ..progress() };
    let mut paused = start.clone();
    let conflict = conflict_result(
        &retained,
        vec![merge("feature/a", "aaa", "c1"), merge("feature/b", "bbb", "c2")],
        "main-tip",
        vec!["c.rs".to_owned()],
    );
    let result = finish_resumed_preview(&mut paused, RebuildOutcome::Conflict(conflict), "v1.token", Some("/work".to_owned()), 99);
    assert_eq!(paused.status, SessionStatus::Conflicted);
    assert_eq!((paused.merge_count, paused.next_feature), (2, 2));
    assert_eq!(paused.expected_head, "c2");
    assert_eq!(paused.expected_feature_tip.as_deref(), Some("ccc"));
    assert_eq!(continue_session_step(&paused).ok(), Some(ResumeStep::CompleteFeature(2)));
    let error = result.err().unwrap_or(CliError::LoginCancelled);
    assert_eq!(machine(&error).code, "reconstruction_conflict");
    assert_eq!(text(&machine(&error).details[2].1), "v1.token");

    let mut sealed = start;
    let done = complete_reconstruction(
        vec![merge("feature/a", "aaa", "c1"), merge("feature/b", "bbb", "c2"), merge("feature/c", "ccc", "c3")],
        "main-tip",
        "t3".to_owned(),
    );
    let finished = finish_resumed_preview(
        &mut sealed,
        RebuildOutcome::Complete { reconstruction: done, plan_digest: "d".repeat(64) },
        "v1.token",
        Some("/work".to_owned()),
        99,
    );
    assert!(finished.is_ok());
    assert_eq!(sealed.status, SessionStatus::Sealed);
    assert_eq!((sealed.merge_count, sealed.next_feature), (3, 3));
    assert_eq!(sealed.preview_commit.as_deref(), Some("c3"));
    assert_eq!(sealed.expected_head, "c3");
    assert_eq!(sealed.final_tree.as_deref(), Some("t3"));
    assert_eq!(continue_session_step(&sealed).ok(), Some(ResumeStep::ReopenSealed));
    assert!(sealed_record(&sealed).is_ok());
}

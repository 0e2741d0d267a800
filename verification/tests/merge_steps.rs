use graduate_cli::error::{CliError, DetailValue};
use graduate_cli::merge_steps::{
    check_final_tree, check_publication_result, check_sealed_digest, check_sealed_repository, check_resolution_recorded, check_resolution_staged, check_resumed_merge,
    check_training_tree, check_unchanged_base, training_plan, with_tainted_removals, HistoricalMerge,
    TrainingFeature,
};
use graduate_cli::merge_steps::{accept_work_area, check_control_files, ControlFile, ControlFilesFound, HooksDirectory};
use graduate_cli::git_output::IsolatedRepository;
use graduate_cli::restack::BranchIdentity;

fn code_and_detail(result: Result<(), CliError>) -> (String, String) {
    match result {
        Err(CliError::Machine(error)) => match &error.details[0].1 {
            DetailValue::Text(text) => (error.code.clone(), text.clone()),
            _ => panic!("expected a text detail"),
        },
        _ => panic!("expected a machine error"),
    }
}

fn historical(commit: &str) -> HistoricalMerge {
    HistoricalMerge {
        commit: commit.to_owned(),
        first_parent: format!("{commit}-env"),
        feature_parent: format!("{commit}-feature"),
        tree: format!("{commit}-tree"),
    }
}

#[test]
fn training_replays_only_retained_features_in_snapshot_order() {
    let features = vec![
        TrainingFeature { name: "feature/a".to_owned(), historical_merges: vec![historical("a1"), historical("a2")] },
        TrainingFeature { name: "feature/b".to_owned(), historical_merges: vec![historical("b1")] },
        TrainingFeature { name: "feature/c".to_owned(), historical_merges: vec![historical("c1")] },
    ];
    let retained = vec![
        BranchIdentity { name: "feature/c".to_owned(), tip: "c".to_owned() },
        BranchIdentity { name: "feature/a".to_owned(), tip: "a".to_owned() },
    ];
    assert_eq!(training_plan(&features, &retained), vec![(0, 0), (0, 1), (2, 0)]);
    assert!(training_plan(&features, &Vec::new()).is_empty());
}

#[test]
fn a_replayed_resolution_must_give_the_recorded_tree() {
    assert!(check_training_tree("tree", "tree").is_ok());
    assert_eq!(
        code_and_detail(check_training_tree("other", "tree")),
        ("validation_failed".to_owned(), "trainingTree".to_owned())
    );
}

#[test]
fn a_resumed_merge_is_the_merge_that_stopped() {
    let feature = BranchIdentity { name: "feature/a".to_owned(), tip: "tip".to_owned() };
    assert!(check_resumed_merge("head", "head", "log", "log", "tip", &feature).is_ok());
    assert_eq!(
        code_and_detail(check_resumed_merge("moved", "head", "log", "log", "tip", &feature)),
        ("invalid_session_state".to_owned(), "agentCommit".to_owned())
    );
    assert_eq!(
        code_and_detail(check_resumed_merge("head", "head", "changed", "log", "tip", &feature)),
        ("invalid_session_state".to_owned(), "agentCommit".to_owned())
    );
    assert_eq!(
        code_and_detail(check_resumed_merge("head", "head", "log", "log", "other", &feature)),
        ("invalid_session_state".to_owned(), "mergeParent".to_owned())
    );
}

#[test]
fn a_resolution_must_be_staged_and_recorded() {
    assert!(check_resolution_staged(&Vec::new(), &Vec::new(), &Vec::new()).is_ok());
    for (unresolved, unstaged, untracked) in [
        (vec!["a.txt".to_owned()], Vec::new(), Vec::new()),
        (Vec::new(), b"a.txt\0".to_vec(), Vec::new()),
        (Vec::new(), Vec::new(), b"new.txt\0".to_vec()),
    ] {
        assert_eq!(
            code_and_detail(check_resolution_staged(&unresolved, &unstaged, &untracked)),
            ("invalid_session_state".to_owned(), "resolutionNotStaged".to_owned())
        );
    }
    assert!(check_resolution_recorded(&Vec::new()).is_ok());
    assert_eq!(
        code_and_detail(check_resolution_recorded(&vec!["a.txt".to_owned()])),
        ("invalid_session_state".to_owned(), "resolutionNotStaged".to_owned())
    );
}

#[test]
fn the_rebuilt_tree_is_the_tree_the_merges_made() {
    assert!(check_final_tree("tree", "tree").is_ok());
    assert_eq!(
        code_and_detail(check_final_tree("tree", "other")),
        ("validation_failed".to_owned(), "finalTree".to_owned())
    );
    assert!(check_unchanged_base("tree", "tree", "base", "base").is_ok());
    assert_eq!(
        code_and_detail(check_unchanged_base("tree", "tree", "moved", "base")),
        ("validation_failed".to_owned(), "finalTree".to_owned())
    );
    assert_eq!(
        code_and_detail(check_unchanged_base("tree", "other", "base", "base")),
        ("validation_failed".to_owned(), "finalTree".to_owned())
    );
}

#[test]
fn publication_needs_the_reviewed_head_and_tree() {
    assert!(check_publication_result("preview", "tree", "preview", "tree").is_ok());
    assert_eq!(
        code_and_detail(check_publication_result("other", "tree", "preview", "tree")),
        ("validation_failed".to_owned(), "publicationResult".to_owned())
    );
    assert_eq!(
        code_and_detail(check_publication_result("preview", "other", "preview", "tree")),
        ("validation_failed".to_owned(), "publicationResult".to_owned())
    );
}

#[test]
fn tainted_features_are_removed_unless_already_listed() {
    let names = |values: &[&str]| values.iter().map(|value| (*value).to_owned()).collect::<Vec<String>>();
    assert_eq!(
        with_tainted_removals(&names(&["feature/x", "feature/t1"]), &names(&["feature/t1", "feature/t2", "feature/t2"])),
        names(&["feature/x", "feature/t1", "feature/t2"])
    );
    assert_eq!(with_tainted_removals(&names(&["a", "a"]), &Vec::new()), names(&["a", "a"]));
}

#[test]
fn a_sealed_session_must_be_untouched_and_rebuild_its_digest() {
    assert!(check_sealed_repository("log", "log").is_ok());
    assert_eq!(
        code_and_detail(check_sealed_repository("other", "log")),
        ("invalid_session_state".to_owned(), "sealedResult".to_owned())
    );
    assert!(check_sealed_digest("d", "d").is_ok());
    assert_eq!(
        code_and_detail(check_sealed_digest("e", "d")),
        ("invalid_session_state".to_owned(), "sealedPlan".to_owned())
    );
}

#[test]
fn control_files_are_checked_in_order_and_name_the_first_problem() {
    let objects = b"/repo/.git/objects".to_vec();
    let mut alternates = objects.clone();
    alternates.push(b'\n');
    let empty = ControlFile::Contents(Vec::new());
    let good = ControlFile::Contents(alternates);
    let listed = HooksDirectory::Listed { empty: true };
    assert!(check_control_files(true, listed, &empty, &empty, &good, &objects).is_ok());
    let reason = |result: Result<(), CliError>| code_and_detail(result).1;
    assert_eq!(reason(check_control_files(false, listed, &empty, &empty, &good, &objects)), "layout");
    assert_eq!(reason(check_control_files(true, HooksDirectory::NotPlain, &empty, &empty, &good, &objects)), "layout");
    assert_eq!(reason(check_control_files(true, HooksDirectory::Unlistable, &empty, &empty, &good, &objects)), "hooks");
    let hooked = HooksDirectory::Listed { empty: false };
    assert_eq!(reason(check_control_files(true, hooked, &ControlFile::NotPlain, &empty, &good, &objects)), "hooks");
    let configured = ControlFile::Contents(b"[core]".to_vec());
    assert_eq!(reason(check_control_files(true, listed, &configured, &empty, &good, &objects)), "configuration");
    assert_eq!(reason(check_control_files(true, listed, &empty, &ControlFile::Unreadable, &good, &objects)), "configuration");
    assert_eq!(reason(check_control_files(true, listed, &empty, &ControlFile::NotPlain, &good, &objects)), "layout");
    assert_eq!(reason(check_control_files(true, listed, &empty, &empty, &ControlFile::Unreadable, &objects)), "objectStore");
    let without_newline = ControlFile::Contents(objects.clone());
    assert_eq!(reason(check_control_files(true, listed, &empty, &empty, &without_newline, &objects)), "objectStore");
    assert_eq!(reason(check_control_files(true, listed, &empty, &empty, &ControlFile::NotPlain, &objects)), "layout");
    assert_eq!(code_and_detail(check_control_files(false, listed, &empty, &empty, &good, &objects)).0, "invalid_session_state");
}

#[test]
fn an_opened_work_area_is_accepted_only_with_untouched_control_files() {
    let objects = b"/repo/.git/objects".to_vec();
    let mut alternates = objects.clone();
    alternates.push(b'\n');
    let repository = IsolatedRepository::open("/sessions/abc/repository").ok().unwrap_or_else(|| panic!("opened"));
    let found = ControlFilesFound {
        root_plain: true,
        hooks: HooksDirectory::Listed { empty: true },
        global_config: ControlFile::Contents(Vec::new()),
        repository_config: ControlFile::Contents(Vec::new()),
        alternates: ControlFile::Contents(alternates),
    };
    let accepted = accept_work_area(repository.clone(), &found, &objects).ok().map(|r| r.root);
    assert_eq!(accepted.as_deref(), Some("/sessions/abc/repository"));
    let hooked = ControlFilesFound { hooks: HooksDirectory::Listed { empty: false }, ..found };
    assert_eq!(code_and_detail(accept_work_area(repository, &hooked, &objects).map(|_| ())).1, "hooks");
}

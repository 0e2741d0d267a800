use graduate_cli::error::{CliError, DetailValue};
use graduate_cli::plan_summary::MergeResolution;
use graduate_cli::reconstruction::{
    check_reconstruction_end, merge_step, next_reconstruct_action, record_merge, MergeEvent,
    MergeOutcome, MergeStep, ReconstructAction,
};
use graduate_cli::restack::BranchIdentity;

fn branch(name: &str, tip: &str) -> BranchIdentity {
    BranchIdentity { name: name.to_owned(), tip: tip.to_owned() }
}

fn texts(values: &[&str]) -> Vec<String> {
    values.iter().map(|value| (*value).to_owned()).collect()
}

fn stage_of(error: CliError) -> (String, String) {
    match error {
        CliError::Machine(machine) => match &machine.details[0].1 {
            DetailValue::Text(stage) => (machine.code.clone(), stage.clone()),
            _ => panic!("expected a text detail"),
        },
        _ => panic!("expected a machine error"),
    }
}

#[test]
fn the_rebuild_merges_each_retained_branch_in_order_then_completes() {
    let retained = vec![branch("feature/a", "aaa"), branch("feature/b", "bbb")];
    let mut merges: Vec<MergeOutcome> = Vec::new();
    assert_eq!(next_reconstruct_action(&retained, &merges), ReconstructAction::Merge { index: 0 });
    record_merge(&mut merges, &retained, "c1".to_owned(), "t1".to_owned(), MergeResolution::Clean);
    assert_eq!(next_reconstruct_action(&retained, &merges), ReconstructAction::Merge { index: 1 });
    record_merge(&mut merges, &retained, "c2".to_owned(), "t2".to_owned(), MergeResolution::Reused);
    assert_eq!(next_reconstruct_action(&retained, &merges), ReconstructAction::Complete);
    let recorded: Vec<(&str, &str, &str)> =
        merges.iter().map(|merge| (merge.branch.as_str(), merge.tip.as_str(), merge.commit.as_str())).collect();
    assert_eq!(recorded, vec![("feature/a", "aaa", "c1"), ("feature/b", "bbb", "c2")]);
    assert_eq!(merges[1].resolution, MergeResolution::Reused);
    assert_eq!(next_reconstruct_action(&Vec::new(), &Vec::new()), ReconstructAction::Complete);
}

#[test]
fn merge_attempts_commit_replay_pause_or_fail() {
    match merge_step(&MergeEvent::Merged) {
        Ok(MergeStep::Commit { resolution, stage }) => {
            assert_eq!(resolution, MergeResolution::Clean);
            assert!(stage.is_empty());
        }
        _ => panic!("a clean merge is committed"),
    }
    assert!(matches!(
        merge_step(&MergeEvent::Conflicted { conflicted: texts(&["a.rs"]) }),
        Ok(MergeStep::ReplayResolutions)
    ));
    let failed = merge_step(&MergeEvent::Conflicted { conflicted: Vec::new() }).err().map(stage_of);
    assert_eq!(failed, Some(("reconstruction_failed".to_owned(), "merge".to_owned())));
    match merge_step(&MergeEvent::Replayed { conflicted: texts(&["a.rs", "b.rs"]), remaining: Vec::new() }) {
        Ok(MergeStep::Commit { resolution, stage }) => {
            assert_eq!(resolution, MergeResolution::Reused);
            assert_eq!(stage, texts(&["a.rs", "b.rs"]));
        }
        _ => panic!("a fully replayed merge is committed"),
    }
    match merge_step(&MergeEvent::Replayed { conflicted: texts(&["a.rs", "b.rs"]), remaining: texts(&["b.rs"]) }) {
        Ok(MergeStep::Pause { unresolved }) => assert_eq!(unresolved, texts(&["b.rs"])),
        _ => panic!("remaining conflicts pause the rebuild"),
    }
}

#[test]
fn the_rebuilt_head_has_the_last_merge_tree_or_is_the_base() {
    let retained = vec![branch("feature/a", "aaa")];
    let mut merges: Vec<MergeOutcome> = Vec::new();
    assert!(check_reconstruction_end(&merges, "base-tree", "base-tree", "main", "main").is_ok());
    let moved = check_reconstruction_end(&merges, "base-tree", "base-tree", "other", "main").err().map(stage_of);
    assert_eq!(moved, Some(("validation_failed".to_owned(), "finalTree".to_owned())));
    record_merge(&mut merges, &retained, "c1".to_owned(), "t1".to_owned(), MergeResolution::Clean);
    assert!(check_reconstruction_end(&merges, "t1", "base-tree", "c1", "main").is_ok());
    assert!(check_reconstruction_end(&merges, "t2", "base-tree", "c1", "main").is_err());
}

use std::collections::BTreeMap;

use graduate_cli::error::CliError;
use graduate_cli::history_walk::{
    check_promotion_branch, choose_main_branch, commit_subject, dropped_commit, feature_branches,
    listing_order, orphan_rows, promotable_positions, promotion_commit, text_before,
    timestamp_tips, visited_among, AncestorWalk,
};
use graduate_cli::error::DetailValue;
use graduate_cli::machine_json::OrphanedCommit;

fn ids(values: &[&str]) -> Vec<String> {
    values.iter().map(|value| (*value).to_owned()).collect()
}

/// Walks `graph` from `start` as the inspection does, reading parents commit by commit.
fn walk(graph: &BTreeMap<&str, Vec<&str>>, start: &str, excluded: &[&str]) -> Vec<String> {
    let mut walk = AncestorWalk::new(start.to_owned(), ids(excluded));
    while let Some(id) = walk.next() {
        let parents = graph.get(id.as_str()).map(|parents| ids(parents)).unwrap_or_default();
        walk.extend(parents);
    }
    walk.visited
}

fn graph() -> BTreeMap<&'static str, Vec<&'static str>> {
    BTreeMap::from([
        ("base", vec![]),
        ("m1", vec!["base"]),
        ("a", vec!["m1"]),
        ("b", vec!["m1"]),
        ("merge", vec!["a", "b"]),
        ("top", vec!["merge"]),
    ])
}

#[test]
fn the_walk_visits_each_ancestor_once_breadth_first() {
    assert_eq!(walk(&graph(), "top", &[]), ids(&["top", "merge", "a", "b", "m1", "base"]));
}

#[test]
fn the_walk_never_enters_excluded_history() {
    assert_eq!(walk(&graph(), "top", &["m1"]), ids(&["top", "merge", "a", "b"]));
    assert!(walk(&graph(), "m1", &["m1"]).is_empty());
}

#[test]
fn unique_ancestors_are_the_visited_commits_among_the_unique_ones() {
    let visited = walk(&graph(), "top", &["m1"]);
    assert_eq!(visited_among(&visited, &ids(&["b", "top", "x"])), ids(&["top", "b"]));
}

#[test]
fn the_subject_is_the_trimmed_first_line() {
    assert_eq!(commit_subject("  Fix the build  \n\nLonger text"), "Fix the build");
    assert_eq!(commit_subject("Windows line\r\nnext"), "Windows line");
    assert_eq!(commit_subject(""), "");
    assert_eq!(commit_subject("\nsecond"), "");
    assert_eq!(commit_subject("only"), "only");
}

#[test]
fn the_main_branch_comes_from_the_flag_the_remote_head_or_a_common_name() {
    let common = vec![false, true, true, false];
    assert_eq!(choose_main_branch(Some("release"), Ok(()), Some("main".to_owned()), &common).ok(), Some("release".to_owned()));
    assert!(matches!(
        choose_main_branch(Some("release"), Err(CliError::Git("missing".to_owned())), None, &common),
        Err(CliError::Git(message)) if message == "missing"
    ));
    assert_eq!(choose_main_branch(None, Ok(()), Some("default".to_owned()), &common).ok(), Some("default".to_owned()));
    assert_eq!(choose_main_branch(None, Ok(()), None, &common).ok(), Some("master".to_owned()));
    assert!(matches!(
        choose_main_branch(None, Ok(()), None, &vec![false; 4]),
        Err(CliError::Git(message))
            if message == "could not determine the main branch from the remote default or common names; pass --main <BRANCH>"
    ));
}

#[test]
fn text_order_is_code_point_order_with_prefixes_first() {
    assert!(text_before("abc", "abd"));
    assert!(text_before("ab", "abc"));
    assert!(!text_before("abc", "abc"));
    assert!(!text_before("b", "a"));
    assert!(text_before("Z", "a"));
    assert!(text_before("é", "😀"));
}

#[test]
fn commits_are_listed_newest_first_then_by_id() {
    let keys = vec![(10, "c".to_owned()), (20, "b".to_owned()), (10, "a".to_owned()), (30, "z".to_owned())];
    assert_eq!(listing_order(&keys), vec![3, 1, 2, 0]);
    assert!(listing_order(&Vec::new()).is_empty());
}

#[test]
fn timestamps_are_read_once_for_tips_between_main_and_the_environment() {
    let tips = ids(&["a", "b", "a", "m", "x"]);
    assert_eq!(timestamp_tips(&tips, &ids(&["a", "b", "m"]), &ids(&["m"])), vec![0, 1]);
}

#[test]
fn feature_branches_are_the_remote_refs_that_are_not_environments_sorted_by_name() {
    let refs = ids(&[
        "refs/remotes/origin/zeta",
        "refs/remotes/origin/qa",
        "refs/remotes/origin/HEAD",
        "refs/remotes/origin/main",
        "refs/remotes/origin/backup/old",
        "refs/remotes/upstream/alpha",
        "refs/remotes/origin/alpha",
        "refs/remotes/origin/feature/b",
    ]);
    let branches = feature_branches(&refs, "refs/remotes/origin/", "dev", "main");
    assert_eq!(
        branches,
        vec![(6, "alpha".to_owned()), (7, "feature/b".to_owned()), (0, "zeta".to_owned())]
    );
}

#[test]
fn commit_rows_carry_the_short_id_subject_and_date() {
    let commit = promotion_commit("0123456789abcdef", "Pat", 86_400, "Subject\nbody");
    assert_eq!(commit.id, "0123456789abcdef");
    assert_eq!(commit.short_id, "0123456");
    assert_eq!(commit.subject, "Subject");
    assert_eq!(commit.author, "Pat");
    assert_eq!(commit.date, "1970-01-02");
    let row = dropped_commit("stray", "Pat", 1_767_312_000, "  lost work \n");
    assert_eq!((row.commit.as_str(), row.subject.as_str(), row.date.as_str()), ("stray", "lost work", "2026-01-02"));
}

#[test]
fn promotion_branches_must_be_between_main_and_the_environment() {
    let environment = ids(&["a", "b", "m"]);
    let main = ids(&["m"]);
    assert!(check_promotion_branch("feature/a", Some("a"), "qa", "main", &environment, &main).is_ok());
    let message = |result: Result<(), CliError>| match result {
        Err(CliError::InvalidInput(message)) => message,
        _ => String::new(),
    };
    assert_eq!(
        message(check_promotion_branch("qa", Some("a"), "qa", "main", &environment, &main)),
        "--params branch `qa` is not a selectable feature branch"
    );
    assert_eq!(
        message(check_promotion_branch("feature/x", None, "qa", "main", &environment, &main)),
        "--params branch `feature/x` does not exist on the selected remote"
    );
    assert_eq!(
        message(check_promotion_branch("feature/m", Some("m"), "qa", "main", &environment, &main)),
        "--params branch `feature/m` has already reached `main`"
    );
    assert_eq!(
        message(check_promotion_branch("feature/y", Some("y"), "qa", "main", &environment, &main)),
        "--params branch `feature/y` has not reached `qa`"
    );
    assert_eq!(promotable_positions(&ids(&["a", "m", "y", "b"]), &environment, &main), vec![0, 3]);
}

fn row(commit: &str, subject: &str) -> OrphanedCommit {
    OrphanedCommit {
        commit: commit.to_owned(),
        subject: subject.to_owned(),
        author: "Pat".to_owned(),
        date: "2026-01-02".to_owned(),
    }
}

#[test]
fn orphan_rows_follow_the_dropped_ids_and_name_the_first_uncaptured_one() {
    let rows = vec![row("a", "first"), row("b", "second"), row("a", "again")];
    let found = orphan_rows(&ids(&["b", "a"]), &rows).ok().unwrap_or_default();
    let subjects: Vec<&str> = found.iter().map(|row| row.subject.as_str()).collect();
    assert_eq!(subjects, vec!["second", "again"]);
    match orphan_rows(&ids(&["a", "c", "d"]), &rows) {
        Err(CliError::Machine(error)) => {
            assert_eq!(error.code, "inspection_failed");
            assert_eq!(error.message, "an orphaned commit was not captured during inspection");
            assert_eq!(error.details.len(), 2);
            assert_eq!(error.details[0].0, "commit");
            assert!(matches!(&error.details[0].1, DetailValue::Text(id) if id == "c"));
            assert_eq!(error.details[1].0, "stage");
            assert!(matches!(&error.details[1].1, DetailValue::Text(stage) if stage == "orphans"));
        }
        _ => panic!("expected an inspection failure"),
    }
    assert!(orphan_rows(&Vec::new(), &Vec::new()).map(|rows| rows.is_empty()).unwrap_or(false));
}

use graduate_cli::history_explanation::UnsupportedReason;
use graduate_cli::machine_json::{
    abort_result_json, apply_result_json, json_string, plan_json, ApplyDocument, CarriedBranch,
    OrphanedCommit, PlanDocument, PlannedMerge,
};
use graduate_cli::plan_summary::MergeResolution;
use graduate_cli::restack::BranchIdentity;
use serde_json::Value;

fn inventory_plan() -> PlanDocument {
    PlanDocument {
        remote: "origin".to_owned(),
        fetch_sha256: "f".repeat(64),
        push_sha256: "p".repeat(64),
        environment: "qa".to_owned(),
        environment_ref: "refs/remotes/origin/qa".to_owned(),
        environment_tip: "stray".to_owned(),
        main: "main".to_owned(),
        main_ref: "refs/remotes/origin/main".to_owned(),
        main_tip: "base".to_owned(),
        author_name: "Pat".to_owned(),
        author_email: "pat@example.com".to_owned(),
        retained: vec![BranchIdentity { name: "feature/b".to_owned(), tip: "b".to_owned() }],
        removed: Vec::new(),
        reachability: true,
        reason: Some(UnsupportedReason {
            kind: "directCommit".to_owned(),
            commit: Some("stray".to_owned()),
            feature_parent: None,
            branches: Vec::new(),
            parents: None,
        }),
        carried: vec![CarriedBranch {
            name: "feature/a".to_owned(),
            tip: "a".to_owned(),
            carriers: vec!["feature/b".to_owned()],
        }],
        orphans: vec![OrphanedCommit {
            commit: "stray".to_owned(),
            subject: "stray".to_owned(),
            author: "Pat".to_owned(),
            date: "2026-01-02".to_owned(),
        }],
        dropped_markers: Vec::new(),
        merges: vec![PlannedMerge {
            branch: "feature/b".to_owned(),
            tip: "b".to_owned(),
            resolution: MergeResolution::Clean,
            commit: "preview".to_owned(),
            tree: "tree".to_owned(),
            message: "Merge branch 'feature/b' into qa".to_owned(),
        }],
        final_tree: "tree".to_owned(),
        preview_commit: "preview".to_owned(),
        digest: "d".repeat(64),
    }
}

#[test]
fn plan_json_describes_the_inventory_mode_carried_branches_and_orphans() {
    let value: Value = serde_json::from_str(&plan_json(&inventory_plan())).expect("valid JSON");
    assert_eq!(value["schemaVersion"], 2);
    assert_eq!(value["inventory"]["mode"], "reachability");
    assert_eq!(value["inventory"]["reason"]["kind"], "directCommit");
    assert_eq!(value["inventory"]["reason"]["commit"], "stray");
    assert_eq!(
        value["carriedBranches"],
        serde_json::from_str::<Value>(r#"[{"name": "feature/a", "tip": "a", "carriers": ["feature/b"]}]"#)
            .expect("valid JSON")
    );
    assert_eq!(
        value["orphanedCommits"],
        serde_json::from_str::<Value>(
            r#"[{"commit": "stray", "subject": "stray", "author": "Pat", "date": "2026-01-02"}]"#
        )
        .expect("valid JSON")
    );
    assert_eq!(value["effects"]["reusedResolutions"], false);

    let mut history = inventory_plan();
    history.reachability = false;
    history.reason = None;
    history.carried.clear();
    history.orphans.clear();
    let value: Value = serde_json::from_str(&plan_json(&history)).expect("valid JSON");
    assert_eq!(
        value["inventory"],
        serde_json::from_str::<Value>(r#"{"mode": "history", "reason": null}"#).expect("valid JSON")
    );
    assert_eq!(value["carriedBranches"], serde_json::from_str::<Value>("[]").expect("valid JSON"));
    assert_eq!(value["orphanedCommits"], serde_json::from_str::<Value>("[]").expect("valid JSON"));
    assert_eq!(value["effects"]["reusedResolutions"], true);
}

#[test]
fn plan_json_matches_serde_json_byte_for_byte() {
    let text = plan_json(&inventory_plan());
    let value: Value = serde_json::from_str(&text).expect("valid JSON");
    assert_eq!(serde_json::to_string(&value).expect("serializable"), text);
}

#[test]
fn merges_chain_their_first_parents_from_the_base() {
    let mut plan = inventory_plan();
    plan.merges.push(PlannedMerge {
        branch: "feature/c".to_owned(),
        tip: "c".to_owned(),
        resolution: MergeResolution::Reused,
        commit: "second".to_owned(),
        tree: "tree-2".to_owned(),
        message: "Merge branch 'feature/c' into qa".to_owned(),
    });
    let value: Value = serde_json::from_str(&plan_json(&plan)).expect("valid JSON");
    assert_eq!(value["merges"][0]["firstParent"], "base");
    assert_eq!(value["merges"][0]["featureParent"], "b");
    assert_eq!(value["merges"][0]["outcome"], "clean");
    assert_eq!(value["merges"][1]["firstParent"], "preview");
    assert_eq!(value["merges"][1]["outcome"], "rerere");
}

#[test]
fn json_strings_escape_like_serde_json() {
    for sample in ["plain", "quote \" and \\ slash", "tab\tnew\nline\r", "\u{0}\u{1f}\u{7f}", "é ✓ 😀"] {
        assert_eq!(json_string(sample), serde_json::to_string(sample).expect("serializable"));
    }
    assert_eq!(json_string("a\u{8}b\u{c}"), "\"a\\bb\\f\"");
    assert_eq!(json_string("\u{1b}"), "\"\\u001b\"");
}

#[test]
fn apply_result_counts_each_kind_of_resolution() {
    let result = ApplyDocument {
        remote: "origin".to_owned(),
        environment: "qa".to_owned(),
        old_oid: "old".to_owned(),
        new_oid: "new".to_owned(),
        tree: "tree".to_owned(),
        digest: "digest".to_owned(),
        merged: vec![BranchIdentity { name: "feature/a".to_owned(), tip: "a".to_owned() }],
        removed: vec![BranchIdentity { name: "feature/b".to_owned(), tip: "b".to_owned() }],
        resolutions: vec![MergeResolution::Clean, MergeResolution::Manual, MergeResolution::Clean],
    };
    assert_eq!(
        apply_result_json(&result),
        r#"{"effects":{"commitSigning":"unsigned","localRefsChanged":false,"personalRerereChanged":false,"sourceCheckoutChanged":false},"environment":{"name":"qa","newOid":"new","oldOid":"old","ref":"refs/heads/qa"},"kind":"restackResult","mergedBranches":[{"name":"feature/a","tip":"a"}],"planDigest":"digest","pushed":true,"remote":"origin","removedBranches":[{"name":"feature/b","tip":"b"}],"resolutionCounts":{"clean":2,"manual":1,"rerere":0},"schemaVersion":2,"tree":"tree"}"#
    );
}

#[test]
fn abort_result_reports_nothing_changed() {
    assert_eq!(
        abort_result_json("qa"),
        r#"{"aborted":true,"effects":{"localRefsChanged":false,"personalRerereChanged":false,"remoteRefsChanged":false,"sourceCheckoutChanged":false},"environment":"qa","kind":"restackAbortResult","schemaVersion":2}"#
    );
}

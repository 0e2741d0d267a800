//! The JSON documents of the restack machine protocol: the reviewed plan, the result of
//! an apply and the result of an abort. Each is one compact line with the members of
//! every object in ascending key order.

use vstd::prelude::*;

use crate::confirmation::push_line;
use crate::error::{CliError, DetailValue, MachineError};
use crate::git_output::string_views;
use crate::history_explanation::UnsupportedReason;
use crate::plan_summary::{count_of, outcome_name, resolution_counts, MergeResolution};
use crate::refs::{environment_ref, remote_environment_ref};
use crate::restack::BranchIdentity;
use crate::terminal_text::lower_hex_digit;
use crate::text::{decimal, decimal_string, literal, push_char, push_str};

verus! {

/// The schema version that every restack document carries.
pub const RESTACK_SCHEMA_VERSION: u64 = 2;

/// How one character of a string appears inside a JSON string literal.
pub open spec fn json_char(c: char) -> Seq<char> {
    if c == '"' {
        seq!['\\', '"']
    } else if c == '\\' {
        seq!['\\', '\\']
    } else if c == '\u{8}' {
        seq!['\\', 'b']
    } else if c == '\u{c}' {
        seq!['\\', 'f']
    } else if c == '\n' {
        seq!['\\', 'n']
    } else if c == '\r' {
        seq!['\\', 'r']
    } else if c == '\t' {
        seq!['\\', 't']
    } else if (c as u32) < 0x20 {
        seq!['\\', 'u', '0', '0', lower_hex_digit((c as u32) / 16), lower_hex_digit((c as u32) % 16)]
    } else {
        seq![c]
    }
}

/// The characters of a string escaped for a JSON string literal.
pub open spec fn json_escaped(text: Seq<char>) -> Seq<char>
    decreases text.len(),
{
    if text.len() == 0 {
        Seq::empty()
    } else {
        json_escaped(text.drop_last()) + json_char(text.last())
    }
}

/// A JSON string literal.
pub open spec fn json_str(text: Seq<char>) -> Seq<char> {
    seq!['"'] + json_escaped(text) + seq!['"']
}

/// A JSON string literal, or `null`.
pub open spec fn json_opt_str(text: Option<String>) -> Seq<char> {
    match text {
        Some(value) => json_str(value@),
        None => "null"@,
    }
}

/// `true` or `false`.
pub open spec fn json_bool(value: bool) -> Seq<char> {
    if value { "true"@ } else { "false"@ }
}

/// The items joined by commas.
pub open spec fn commas(items: Seq<Seq<char>>) -> Seq<char>
    decreases items.len(),
{
    if items.len() == 0 {
        Seq::empty()
    } else if items.len() == 1 {
        items[0]
    } else {
        commas(items.drop_last()) + ","@ + items.last()
    }
}

/// A JSON object of the given members, each already written as `"key":value`.
pub open spec fn json_object(members: Seq<Seq<char>>) -> Seq<char> {
    "{"@ + commas(members) + "}"@
}

/// A JSON array of the given items.
pub open spec fn json_array(items: Seq<Seq<char>>) -> Seq<char> {
    "["@ + commas(items) + "]"@
}

/// One member of an object.
pub open spec fn member(key: Seq<char>, value: Seq<char>) -> Seq<char> {
    json_str(key) + ":"@ + value
}

/// An array of strings.
pub open spec fn json_strings(values: Seq<String>) -> Seq<char> {
    json_array(Seq::new(values.len(), |i: int| json_str(values[i]@)))
}

/// `{"name":…,"tip":…}`.
pub open spec fn branch_json(branch: BranchIdentity) -> Seq<char> {
    json_object(seq![member("name"@, json_str(branch.name@)), member("tip"@, json_str(branch.tip@))])
}

/// An array of branch identities.
pub open spec fn branches_json(branches: Seq<BranchIdentity>) -> Seq<char> {
    json_array(Seq::new(branches.len(), |i: int| branch_json(branches[i])))
}

fn push_json_char(text: &mut String, c: char)
    ensures
        final(text)@ == old(text)@ + json_char(c),
{
    let ghost start = text@;
    if c == '"' {
        push_char(text, '\\');
        push_char(text, '"');
    } else if c == '\\' {
        push_char(text, '\\');
        push_char(text, '\\');
    } else if c == '\u{8}' {
        push_char(text, '\\');
        push_char(text, 'b');
    } else if c == '\u{c}' {
        push_char(text, '\\');
        push_char(text, 'f');
    } else if c == '\n' {
        push_char(text, '\\');
        push_char(text, 'n');
    } else if c == '\r' {
        push_char(text, '\\');
        push_char(text, 'r');
    } else if c == '\t' {
        push_char(text, '\\');
        push_char(text, 't');
    } else if (c as u32) < 0x20 {
        let v = c as u32;
        let high = v / 16;
        let low = v % 16;
        push_char(text, '\\');
        push_char(text, 'u');
        push_char(text, '0');
        push_char(text, '0');
        push_char(text, ((48 + high) as u8) as char);
        push_char(
            text,
            if low < 10 {
                ((48 + low) as u8) as char
            } else {
                ((87 + low) as u8) as char
            },
        );
    } else {
        push_char(text, c);
    }
    proof {
        assert(text@ =~= start + json_char(c));
    }
}

/// A JSON string literal of `value`, escaped as `serde_json` escapes it.
pub fn json_string(value: &str) -> (text: String)
    ensures
        text@ == json_str(value@),
{
    let mut text = String::new();
    push_char(&mut text, '"');
    let ghost start = text@;
    for c in it: value.chars()
        invariant
            it.seq() == value@,
            text@ == start + json_escaped(value@.subrange(0, it.index() as int)),
    {
        proof {
            assert(value@.subrange(0, it.index() + 1).drop_last() =~= value@.subrange(0, it.index() as int));
        }
        push_json_char(&mut text, c);
    }
    proof {
        assert(value@.subrange(0, value@.len() as int) =~= value@);
    }
    push_char(&mut text, '"');
    proof {
        assert(text@ =~= json_str(value@));
    }
    text
}

fn json_opt_string(value: &Option<String>) -> (text: String)
    ensures
        text@ == json_opt_str(*value),
{
    match value {
        Some(v) => json_string(v),
        None => literal("null"),
    }
}

fn json_boolean(value: bool) -> (text: String)
    ensures
        text@ == json_bool(value),
{
    if value {
        literal("true")
    } else {
        literal("false")
    }
}

fn join_commas(items: &Vec<String>) -> (text: String)
    ensures
        text@ == commas(string_views(items@)),
{
    let mut text = String::new();
    let mut i: usize = 0;
    while i < items.len()
        invariant
            i <= items.len(),
            text@ == commas(string_views(items@.take(i as int))),
        decreases items.len() - i,
    {
        proof {
            assert(string_views(items@.take(i + 1)).drop_last() =~= string_views(items@.take(i as int)));
            assert(string_views(items@.take(i + 1)).last() == items@[i as int]@);
            if i == 0 {
                assert(string_views(items@.take(0)) =~= Seq::<Seq<char>>::empty());
            }
        }
        if i > 0 {
            push_str(&mut text, ",");
        }
        push_str(&mut text, &items[i]);
        i = i + 1;
        proof {
            if i == 1 {
                assert(string_views(items@.take(1)).len() == 1);
                assert(text@ =~= commas(string_views(items@.take(i as int))));
            }
        }
    }
    proof {
        assert(items@.take(items@.len() as int) =~= items@);
    }
    text
}

/// The object whose members are `members`.
fn object_text(members: &Vec<String>) -> (text: String)
    ensures
        text@ == json_object(string_views(members@)),
{
    let mut text = literal("{");
    push_str(&mut text, &join_commas(members));
    push_str(&mut text, "}");
    text
}

/// The array whose items are `items`.
fn array_text(items: &Vec<String>) -> (text: String)
    ensures
        text@ == json_array(string_views(items@)),
{
    let mut text = literal("[");
    push_str(&mut text, &join_commas(items));
    push_str(&mut text, "]");
    text
}

fn member_text(key: &str, value: &str) -> (text: String)
    ensures
        text@ == member(key@, value@),
{
    let mut text = json_string(key);
    push_str(&mut text, ":");
    push_str(&mut text, value);
    text
}

fn add_member(members: &mut Vec<String>, key: &str, value: &str)
    ensures
        string_views(final(members)@) == string_views(old(members)@).push(member(key@, value@)),
{
    let ghost before = members@;
    members.push(member_text(key, value));
    proof {
        assert(string_views(members@) =~= string_views(before).push(member(key@, value@)));
    }
}

fn strings_json(values: &Vec<String>) -> (text: String)
    ensures
        text@ == json_strings(values@),
{
    let mut items: Vec<String> = Vec::new();
    let mut i: usize = 0;
    while i < values.len()
        invariant
            i <= values.len(),
            string_views(items@) =~= Seq::new(i as nat, |j: int| json_str(values@[j]@)),
        decreases values.len() - i,
    {
        push_line(&mut items, json_string(&values[i]));
        i = i + 1;
    }
    array_text(&items)
}

fn branch_text(branch: &BranchIdentity) -> (text: String)
    ensures
        text@ == branch_json(*branch),
{
    let mut members: Vec<String> = Vec::new();
    add_member(&mut members, "name", &json_string(&branch.name));
    add_member(&mut members, "tip", &json_string(&branch.tip));
    proof {
        assert(string_views(members@) =~= seq![
            member("name"@, json_str(branch.name@)),
            member("tip"@, json_str(branch.tip@)),
        ]);
    }
    object_text(&members)
}

/// The array of branch identities, each as `{"name":…,"tip":…}`.
pub fn branches_text(branches: &Vec<BranchIdentity>) -> (text: String)
    ensures
        text@ == branches_json(branches@),
{
    let mut items: Vec<String> = Vec::new();
    let mut i: usize = 0;
    while i < branches.len()
        invariant
            i <= branches.len(),
            string_views(items@) =~= Seq::new(i as nat, |j: int| branch_json(branches@[j])),
        decreases branches.len() - i,
    {
        push_line(&mut items, branch_text(&branches[i]));
        i = i + 1;
    }
    array_text(&items)
}

/// A branch that an inventory rebuild carries inside the history of others.
#[derive(Clone, Debug)]
pub struct CarriedBranch {
    pub name: String,
    pub tip: String,
    pub carriers: Vec<String>,
}

/// A commit that no retained branch contains and that the rebuild therefore drops.
#[derive(Clone, Debug)]
pub struct OrphanedCommit {
    pub commit: String,
    pub subject: String,
    pub author: String,
    pub date: String,
}

/// A marker commit of the environment's history that the rebuild leaves out.
#[derive(Clone, Debug)]
pub struct DroppedMarker {
    pub commit: String,
    pub parent: String,
    pub tree: String,
}

/// One merge of the rebuilt environment.
#[derive(Clone, Debug)]
pub struct PlannedMerge {
    pub branch: String,
    pub tip: String,
    pub resolution: MergeResolution,
    pub commit: String,
    pub tree: String,
    /// The canonical merge message of the branch into the environment.
    pub message: String,
}

/// What the machine plan reports of a reviewed restack plan.
#[derive(Clone, Debug)]
pub struct PlanDocument {
    pub remote: String,
    pub fetch_sha256: String,
    pub push_sha256: String,
    pub environment: String,
    pub environment_ref: String,
    pub environment_tip: String,
    pub main: String,
    pub main_ref: String,
    pub main_tip: String,
    pub author_name: String,
    pub author_email: String,
    pub retained: Vec<BranchIdentity>,
    pub removed: Vec<BranchIdentity>,
    /// Whether the plan rebuilds from the reachability inventory rather than the history.
    pub reachability: bool,
    pub reason: Option<UnsupportedReason>,
    pub carried: Vec<CarriedBranch>,
    pub orphans: Vec<OrphanedCommit>,
    pub dropped_markers: Vec<DroppedMarker>,
    pub merges: Vec<PlannedMerge>,
    pub final_tree: String,
    pub preview_commit: String,
    pub digest: String,
}

/// The reason an inventory rebuild was needed.
pub open spec fn reason_json(reason: UnsupportedReason) -> Seq<char> {
    json_object(
        seq![
            member("branches"@, json_strings(reason.branches@)),
            member("commit"@, json_opt_str(reason.commit)),
            member("featureParent"@, json_opt_str(reason.feature_parent)),
            member("kind"@, json_str(reason.kind@)),
            member(
                "parents"@,
                match reason.parents {
                    Some(count) => decimal(count as nat),
                    None => "null"@,
                },
            ),
        ],
    )
}

/// `{"mode":…,"reason":…}`.
pub open spec fn inventory_json(plan: PlanDocument) -> Seq<char> {
    json_object(
        seq![
            member("mode"@, json_str(if plan.reachability { "reachability"@ } else { "history"@ })),
            member(
                "reason"@,
                match plan.reason {
                    Some(reason) => reason_json(reason),
                    None => "null"@,
                },
            ),
        ],
    )
}

/// One carried branch.
pub open spec fn carried_json(carried: CarriedBranch) -> Seq<char> {
    json_object(
        seq![
            member("carriers"@, json_strings(carried.carriers@)),
            member("name"@, json_str(carried.name@)),
            member("tip"@, json_str(carried.tip@)),
        ],
    )
}

/// One dropped commit.
pub open spec fn orphan_json(orphan: OrphanedCommit) -> Seq<char> {
    json_object(
        seq![
            member("author"@, json_str(orphan.author@)),
            member("commit"@, json_str(orphan.commit@)),
            member("date"@, json_str(orphan.date@)),
            member("subject"@, json_str(orphan.subject@)),
        ],
    )
}

/// One dropped marker.
pub open spec fn marker_json(marker: DroppedMarker) -> Seq<char> {
    json_object(
        seq![
            member("commit"@, json_str(marker.commit@)),
            member("parent"@, json_str(marker.parent@)),
            member("tree"@, json_str(marker.tree@)),
        ],
    )
}

/// The name of a merge's outcome.
pub open spec fn outcome_text(resolution: MergeResolution) -> Seq<char> {
    match resolution {
        MergeResolution::Clean => "clean"@,
        MergeResolution::Reused => "rerere"@,
        MergeResolution::Manual => "manual"@,
    }
}

/// One merge, whose first parent is `first_parent`.
pub open spec fn merge_json(merge: PlannedMerge, first_parent: Seq<char>) -> Seq<char> {
    json_object(
        seq![
            member("branch"@, json_str(merge.branch@)),
            member("commit"@, json_str(merge.commit@)),
            member("featureParent"@, json_str(merge.tip@)),
            member("firstParent"@, json_str(first_parent)),
            member("message"@, json_str(merge.message@)),
            member("outcome"@, json_str(outcome_text(merge.resolution))),
            member("tip"@, json_str(merge.tip@)),
            member("tree"@, json_str(merge.tree@)),
        ],
    )
}

/// The first parent of the `i`-th merge: the base tip for the first, then the commit of
/// the merge before it.
pub open spec fn first_parent_of(plan: PlanDocument, i: int) -> Seq<char> {
    if i == 0 {
        plan.main_tip@
    } else {
        plan.merges@[i - 1].commit@
    }
}

/// What the plan promises not to touch, and whether it reuses recorded resolutions.
pub open spec fn plan_effects_json(reachability: bool) -> Seq<char> {
    json_object(
        seq![
            member("commitSigning"@, json_str("unsigned"@)),
            member("fetchedRemoteTrackingRefs"@, "true"@),
            member("localRefsChanged"@, "false"@),
            member("personalRerereChanged"@, "false"@),
            member("pushed"@, "false"@),
            member("reusedResolutions"@, json_bool(!reachability)),
            member("sourceCheckoutChanged"@, "false"@),
        ],
    )
}

/// The first members of the machine plan, in ascending key order.
pub open spec fn plan_members_head(plan: PlanDocument) -> Seq<Seq<char>> {
    seq![
        member(
            "author"@,
            json_object(
                seq![
                    member("email"@, json_str(plan.author_email@)),
                    member("name"@, json_str(plan.author_name@)),
                ],
            ),
        ),
        member(
            "base"@,
            json_object(
                seq![
                    member("name"@, json_str(plan.main@)),
                    member("oid"@, json_str(plan.main_tip@)),
                    member("ref"@, json_str(plan.main_ref@)),
                ],
            ),
        ),
        member(
            "carriedBranches"@,
            json_array(Seq::new(plan.carried@.len(), |i: int| carried_json(plan.carried@[i]))),
        ),
        member(
            "droppedMarkers"@,
            json_array(Seq::new(plan.dropped_markers@.len(), |i: int| marker_json(plan.dropped_markers@[i]))),
        ),
        member("effects"@, plan_effects_json(plan.reachability)),
        member(
            "environment"@,
            json_object(
                seq![
                    member("name"@, json_str(plan.environment@)),
                    member("oid"@, json_str(plan.environment_tip@)),
                    member("ref"@, json_str(plan.environment_ref@)),
                ],
            ),
        ),
        member("finalTree"@, json_str(plan.final_tree@)),
    ]
}

/// The remaining members of the machine plan, in ascending key order.
pub open spec fn plan_members_tail(plan: PlanDocument) -> Seq<Seq<char>> {
    seq![
        member("inventory"@, inventory_json(plan)),
        member("kind"@, json_str("restackPlan"@)),
        member(
            "merges"@,
            json_array(
                Seq::new(plan.merges@.len(), |i: int| merge_json(plan.merges@[i], first_parent_of(plan, i))),
            ),
        ),
        member(
            "orphanedCommits"@,
            json_array(Seq::new(plan.orphans@.len(), |i: int| orphan_json(plan.orphans@[i]))),
        ),
        member("planDigest"@, json_str(plan.digest@)),
        member("previewCommit"@, json_str(plan.preview_commit@)),
        member("remote"@, json_str(plan.remote@)),
        member(
            "remoteEndpoints"@,
            json_object(
                seq![
                    member("fetchSha256"@, json_str(plan.fetch_sha256@)),
                    member("pushSha256"@, json_str(plan.push_sha256@)),
                ],
            ),
        ),
        member("removedBranches"@, branches_json(plan.removed@)),
        member("retainedBranches"@, branches_json(plan.retained@)),
        member("schemaVersion"@, decimal(RESTACK_SCHEMA_VERSION as nat)),
    ]
}

/// The members of the machine plan, in ascending key order.
pub open spec fn plan_members(plan: PlanDocument) -> Seq<Seq<char>> {
    plan_members_head(plan) + plan_members_tail(plan)
}

/// The machine plan: one JSON object on one line.
pub open spec fn plan_document(plan: PlanDocument) -> Seq<char> {
    json_object(plan_members(plan))
}

fn reason_text(reason: &UnsupportedReason) -> (text: String)
    ensures
        text@ == reason_json(*reason),
{
    let parents = match reason.parents {
        Some(count) => decimal_string(count),
        None => literal("null"),
    };
    proof {
        reveal_strlit("null");
    }
    assert(parents@ == match reason.parents {
        Some(count) => decimal(count as nat),
        None => "null"@,
    });
    let mut members: Vec<String> = Vec::new();
    add_member(&mut members, "branches", &strings_json(&reason.branches));
    add_member(&mut members, "commit", &json_opt_string(&reason.commit));
    add_member(&mut members, "featureParent", &json_opt_string(&reason.feature_parent));
    add_member(&mut members, "kind", &json_string(&reason.kind));
    add_member(&mut members, "parents", &parents);
    proof {
        assert(string_views(members@) =~= seq![
            member("branches"@, json_strings(reason.branches@)),
            member("commit"@, json_opt_str(reason.commit)),
            member("featureParent"@, json_opt_str(reason.feature_parent)),
            member("kind"@, json_str(reason.kind@)),
            member("parents"@, parents@),
        ]);
        assert(string_views(members@) =~= seq![
            member("branches"@, json_strings(reason.branches@)),
            member("commit"@, json_opt_str(reason.commit)),
            member("featureParent"@, json_opt_str(reason.feature_parent)),
            member("kind"@, json_str(reason.kind@)),
            member(
                "parents"@,
                match reason.parents {
                    Some(count) => decimal(count as nat),
                    None => "null"@,
                },
            ),
        ]);
    }
    object_text(&members)
}

fn inventory_text(plan: &PlanDocument) -> (text: String)
    ensures
        text@ == inventory_json(*plan),
{
    let mode = if plan.reachability {
        json_string("reachability")
    } else {
        json_string("history")
    };
    let reason = match &plan.reason {
        Some(reason) => reason_text(reason),
        None => literal("null"),
    };
    assert(reason@ == match plan.reason {
        Some(reason) => reason_json(reason),
        None => "null"@,
    });
    assert(mode@ == json_str(if plan.reachability { "reachability"@ } else { "history"@ }));
    let mut members: Vec<String> = Vec::new();
    add_member(&mut members, "mode", &mode);
    add_member(&mut members, "reason", &reason);
    proof {
        assert(string_views(members@) =~= seq![member("mode"@, mode@), member("reason"@, reason@)]);
        assert(string_views(members@) =~= seq![
            member("mode"@, json_str(if plan.reachability { "reachability"@ } else { "history"@ })),
            member(
                "reason"@,
                match plan.reason {
                    Some(reason) => reason_json(reason),
                    None => "null"@,
                },
            ),
        ]);
    }
    object_text(&members)
}

fn carried_text(carried: &CarriedBranch) -> (text: String)
    ensures
        text@ == carried_json(*carried),
{
    let mut members: Vec<String> = Vec::new();
    add_member(&mut members, "carriers", &strings_json(&carried.carriers));
    add_member(&mut members, "name", &json_string(&carried.name));
    add_member(&mut members, "tip", &json_string(&carried.tip));
    proof {
        assert(string_views(members@) =~= seq![
            member("carriers"@, json_strings(carried.carriers@)),
            member("name"@, json_str(carried.name@)),
            member("tip"@, json_str(carried.tip@)),
        ]);
    }
    object_text(&members)
}

fn orphan_text(orphan: &OrphanedCommit) -> (text: String)
    ensures
        text@ == orphan_json(*orphan),
{
    let mut members: Vec<String> = Vec::new();
    add_member(&mut members, "author", &json_string(&orphan.author));
    add_member(&mut members, "commit", &json_string(&orphan.commit));
    add_member(&mut members, "date", &json_string(&orphan.date));
    add_member(&mut members, "subject", &json_string(&orphan.subject));
    proof {
        assert(string_views(members@) =~= seq![
            member("author"@, json_str(orphan.author@)),
            member("commit"@, json_str(orphan.commit@)),
            member("date"@, json_str(orphan.date@)),
            member("subject"@, json_str(orphan.subject@)),
        ]);
    }
    object_text(&members)
}

fn marker_text(marker: &DroppedMarker) -> (text: String)
    ensures
        text@ == marker_json(*marker),
{
    let mut members: Vec<String> = Vec::new();
    add_member(&mut members, "commit", &json_string(&marker.commit));
    add_member(&mut members, "parent", &json_string(&marker.parent));
    add_member(&mut members, "tree", &json_string(&marker.tree));
    proof {
        assert(string_views(members@) =~= seq![
            member("commit"@, json_str(marker.commit@)),
            member("parent"@, json_str(marker.parent@)),
            member("tree"@, json_str(marker.tree@)),
        ]);
    }
    object_text(&members)
}

fn merge_text(merge: &PlannedMerge, first_parent: &str) -> (text: String)
    ensures
        text@ == merge_json(*merge, first_parent@),
{
    let outcome = outcome_name(merge.resolution);
    let mut members: Vec<String> = Vec::new();
    add_member(&mut members, "branch", &json_string(&merge.branch));
    add_member(&mut members, "commit", &json_string(&merge.commit));
    add_member(&mut members, "featureParent", &json_string(&merge.tip));
    add_member(&mut members, "firstParent", &json_string(first_parent));
    add_member(&mut members, "message", &json_string(&merge.message));
    add_member(&mut members, "outcome", &json_string(outcome));
    add_member(&mut members, "tip", &json_string(&merge.tip));
    add_member(&mut members, "tree", &json_string(&merge.tree));
    proof {
        reveal_strlit("clean");
        reveal_strlit("rerere");
        reveal_strlit("manual");
        assert(outcome@ == outcome_text(merge.resolution));
        assert(string_views(members@) =~= seq![
            member("branch"@, json_str(merge.branch@)),
            member("commit"@, json_str(merge.commit@)),
            member("featureParent"@, json_str(merge.tip@)),
            member("firstParent"@, json_str(first_parent@)),
            member("message"@, json_str(merge.message@)),
            member("outcome"@, json_str(outcome_text(merge.resolution))),
            member("tip"@, json_str(merge.tip@)),
            member("tree"@, json_str(merge.tree@)),
        ]);
    }
    object_text(&members)
}

fn merges_text(plan: &PlanDocument) -> (text: String)
    ensures
        text@ == json_array(
            Seq::new(plan.merges@.len(), |i: int| merge_json(plan.merges@[i], first_parent_of(*plan, i))),
        ),
{
    let mut items: Vec<String> = Vec::new();
    let mut i: usize = 0;
    while i < plan.merges.len()
        invariant
            i <= plan.merges.len(),
            string_views(items@) =~= Seq::new(
                i as nat,
                |j: int| merge_json(plan.merges@[j], first_parent_of(*plan, j)),
            ),
        decreases plan.merges.len() - i,
    {
        let first_parent = if i == 0 {
            plan.main_tip.as_str()
        } else {
            plan.merges[i - 1].commit.as_str()
        };
        push_line(&mut items, merge_text(&plan.merges[i], first_parent));
        i = i + 1;
    }
    array_text(&items)
}

fn effects_text(reachability: bool) -> (text: String)
    ensures
        text@ == plan_effects_json(reachability),
{
    let mut members: Vec<String> = Vec::new();
    add_member(&mut members, "commitSigning", &json_string("unsigned"));
    add_member(&mut members, "fetchedRemoteTrackingRefs", "true");
    add_member(&mut members, "localRefsChanged", "false");
    add_member(&mut members, "personalRerereChanged", "false");
    add_member(&mut members, "pushed", "false");
    add_member(&mut members, "reusedResolutions", &json_boolean(!reachability));
    add_member(&mut members, "sourceCheckoutChanged", "false");
    proof {
        assert(string_views(members@) =~= seq![
            member("commitSigning"@, json_str("unsigned"@)),
            member("fetchedRemoteTrackingRefs"@, "true"@),
            member("localRefsChanged"@, "false"@),
            member("personalRerereChanged"@, "false"@),
            member("pushed"@, "false"@),
            member("reusedResolutions"@, json_bool(!reachability)),
            member("sourceCheckoutChanged"@, "false"@),
        ]);
    }
    object_text(&members)
}

fn pair_object(first_key: &str, first: &str, second_key: &str, second: &str) -> (text: String)
    ensures
        text@ == json_object(seq![member(first_key@, json_str(first@)), member(second_key@, json_str(second@))]),
{
    let mut members: Vec<String> = Vec::new();
    add_member(&mut members, first_key, &json_string(first));
    add_member(&mut members, second_key, &json_string(second));
    proof {
        assert(string_views(members@) =~= seq![
            member(first_key@, json_str(first@)),
            member(second_key@, json_str(second@)),
        ]);
    }
    object_text(&members)
}

fn named_ref_object(name: &str, oid: &str, reference: &str) -> (text: String)
    ensures
        text@ == json_object(
            seq![
                member("name"@, json_str(name@)),
                member("oid"@, json_str(oid@)),
                member("ref"@, json_str(reference@)),
            ],
        ),
{
    let mut members: Vec<String> = Vec::new();
    add_member(&mut members, "name", &json_string(name));
    add_member(&mut members, "oid", &json_string(oid));
    add_member(&mut members, "ref", &json_string(reference));
    proof {
        assert(string_views(members@) =~= seq![
            member("name"@, json_str(name@)),
            member("oid"@, json_str(oid@)),
            member("ref"@, json_str(reference@)),
        ]);
    }
    object_text(&members)
}

fn carried_list(carried: &Vec<CarriedBranch>) -> (text: String)
    ensures
        text@ == json_array(Seq::new(carried@.len(), |i: int| carried_json(carried@[i]))),
{
    let mut items: Vec<String> = Vec::new();
    let mut i: usize = 0;
    while i < carried.len()
        invariant
            i <= carried.len(),
            string_views(items@) =~= Seq::new(i as nat, |j: int| carried_json(carried@[j])),
        decreases carried.len() - i,
    {
        push_line(&mut items, carried_text(&carried[i]));
        i = i + 1;
    }
    array_text(&items)
}

fn orphan_list(orphans: &Vec<OrphanedCommit>) -> (text: String)
    ensures
        text@ == json_array(Seq::new(orphans@.len(), |i: int| orphan_json(orphans@[i]))),
{
    let mut items: Vec<String> = Vec::new();
    let mut i: usize = 0;
    while i < orphans.len()
        invariant
            i <= orphans.len(),
            string_views(items@) =~= Seq::new(i as nat, |j: int| orphan_json(orphans@[j])),
        decreases orphans.len() - i,
    {
        push_line(&mut items, orphan_text(&orphans[i]));
        i = i + 1;
    }
    array_text(&items)
}

fn marker_list(markers: &Vec<DroppedMarker>) -> (text: String)
    ensures
        text@ == json_array(Seq::new(markers@.len(), |i: int| marker_json(markers@[i]))),
{
    let mut items: Vec<String> = Vec::new();
    let mut i: usize = 0;
    while i < markers.len()
        invariant
            i <= markers.len(),
            string_views(items@) =~= Seq::new(i as nat, |j: int| marker_json(markers@[j])),
        decreases markers.len() - i,
    {
        push_line(&mut items, marker_text(&markers[i]));
        i = i + 1;
    }
    array_text(&items)
}

fn push_plan_head(members: &mut Vec<String>, plan: &PlanDocument)
    ensures
        string_views(final(members)@) == string_views(old(members)@) + plan_members_head(*plan),
{
    let ghost start = string_views(members@);
    add_member(members, "author", &pair_object("email", &plan.author_email, "name", &plan.author_name));
    add_member(members, "base", &named_ref_object(&plan.main, &plan.main_tip, &plan.main_ref));
    add_member(members, "carriedBranches", &carried_list(&plan.carried));
    add_member(members, "droppedMarkers", &marker_list(&plan.dropped_markers));
    add_member(members, "effects", &effects_text(plan.reachability));
    add_member(
        members,
        "environment",
        &named_ref_object(&plan.environment, &plan.environment_tip, &plan.environment_ref),
    );
    add_member(members, "finalTree", &json_string(&plan.final_tree));
    proof {
        assert(string_views(members@) =~= start + plan_members_head(*plan));
    }
}

#[verifier::rlimit(40)]
fn push_plan_tail(members: &mut Vec<String>, plan: &PlanDocument)
    ensures
        string_views(final(members)@) == string_views(old(members)@) + plan_members_tail(*plan),
{
    let ghost start = string_views(members@);
    add_member(members, "inventory", &inventory_text(plan));
    add_member(members, "kind", &json_string("restackPlan"));
    add_member(members, "merges", &merges_text(plan));
    add_member(members, "orphanedCommits", &orphan_list(&plan.orphans));
    add_member(members, "planDigest", &json_string(&plan.digest));
    add_member(members, "previewCommit", &json_string(&plan.preview_commit));
    add_member(members, "remote", &json_string(&plan.remote));
    add_member(
        members,
        "remoteEndpoints",
        &pair_object("fetchSha256", &plan.fetch_sha256, "pushSha256", &plan.push_sha256),
    );
    add_member(members, "removedBranches", &branches_text(&plan.removed));
    add_member(members, "retainedBranches", &branches_text(&plan.retained));
    add_member(members, "schemaVersion", &decimal_string(RESTACK_SCHEMA_VERSION));
    proof {
        assert(string_views(members@) =~= start + plan_members_tail(*plan));
    }
}

/// The machine plan of a reviewed restack: every branch kept and removed, the merges in
/// order with their parents and outcomes, the inventory the plan rests on, and the
/// effects it promises.
pub fn plan_json(plan: &PlanDocument) -> (text: String)
    ensures
        text@ == plan_document(*plan),
{
    let mut members: Vec<String> = Vec::new();
    push_plan_head(&mut members, plan);
    push_plan_tail(&mut members, plan);
    proof {
        assert(string_views(members@) =~= Seq::<Seq<char>>::empty() + plan_members_head(*plan) + plan_members_tail(*plan));
        assert(string_views(members@) =~= plan_members(*plan));
    }
    object_text(&members)
}

/// What an apply reports it did.
#[derive(Clone, Debug)]
pub struct ApplyDocument {
    pub remote: String,
    pub environment: String,
    pub old_oid: String,
    pub new_oid: String,
    pub tree: String,
    pub digest: String,
    pub merged: Vec<BranchIdentity>,
    pub removed: Vec<BranchIdentity>,
    pub resolutions: Vec<MergeResolution>,
}

/// What an apply promises it left alone.
pub open spec fn apply_effects_json() -> Seq<char> {
    json_object(
        seq![
            member("commitSigning"@, json_str("unsigned"@)),
            member("localRefsChanged"@, "false"@),
            member("personalRerereChanged"@, "false"@),
            member("sourceCheckoutChanged"@, "false"@),
        ],
    )
}

/// The environment an apply moved, from its old tip to its new one.
pub open spec fn apply_environment_json(result: ApplyDocument) -> Seq<char> {
    json_object(
        seq![
            member("name"@, json_str(result.environment@)),
            member("newOid"@, json_str(result.new_oid@)),
            member("oldOid"@, json_str(result.old_oid@)),
            member("ref"@, json_str(environment_ref(result.environment@))),
        ],
    )
}

/// How many merges were clean, resolved by hand, or resolved by recorded resolutions.
pub open spec fn tally_json(resolutions: Seq<MergeResolution>) -> Seq<char> {
    json_object(
        seq![
            member("clean"@, decimal(count_of(resolutions, MergeResolution::Clean))),
            member("manual"@, decimal(count_of(resolutions, MergeResolution::Manual))),
            member("rerere"@, decimal(count_of(resolutions, MergeResolution::Reused))),
        ],
    )
}

/// The members of an apply result, in ascending key order.
pub open spec fn apply_members(result: ApplyDocument) -> Seq<Seq<char>> {
    seq![
        member("effects"@, apply_effects_json()),
        member("environment"@, apply_environment_json(result)),
        member("kind"@, json_str("restackResult"@)),
        member("mergedBranches"@, branches_json(result.merged@)),
        member("planDigest"@, json_str(result.digest@)),
        member("pushed"@, "true"@),
        member("remote"@, json_str(result.remote@)),
        member("removedBranches"@, branches_json(result.removed@)),
        member("resolutionCounts"@, tally_json(result.resolutions@)),
        member("schemaVersion"@, decimal(RESTACK_SCHEMA_VERSION as nat)),
        member("tree"@, json_str(result.tree@)),
    ]
}

/// The apply result: one JSON object on one line.
pub open spec fn apply_document(result: ApplyDocument) -> Seq<char> {
    json_object(apply_members(result))
}

fn apply_effects() -> (text: String)
    ensures
        text@ == apply_effects_json(),
{
    let mut effects: Vec<String> = Vec::new();
    add_member(&mut effects, "commitSigning", &json_string("unsigned"));
    add_member(&mut effects, "localRefsChanged", "false");
    add_member(&mut effects, "personalRerereChanged", "false");
    add_member(&mut effects, "sourceCheckoutChanged", "false");
    proof {
        assert(string_views(effects@) =~= seq![
            member("commitSigning"@, json_str("unsigned"@)),
            member("localRefsChanged"@, "false"@),
            member("personalRerereChanged"@, "false"@),
            member("sourceCheckoutChanged"@, "false"@),
        ]);
    }
    object_text(&effects)
}

fn apply_environment(result: &ApplyDocument) -> (text: String)
    ensures
        text@ == apply_environment_json(*result),
{
    let mut environment: Vec<String> = Vec::new();
    add_member(&mut environment, "name", &json_string(&result.environment));
    add_member(&mut environment, "newOid", &json_string(&result.new_oid));
    add_member(&mut environment, "oldOid", &json_string(&result.old_oid));
    add_member(&mut environment, "ref", &json_string(&remote_environment_ref(&result.environment)));
    proof {
        assert(string_views(environment@) =~= seq![
            member("name"@, json_str(result.environment@)),
            member("newOid"@, json_str(result.new_oid@)),
            member("oldOid"@, json_str(result.old_oid@)),
            member("ref"@, json_str(environment_ref(result.environment@))),
        ]);
    }
    object_text(&environment)
}

fn tally(resolutions: &Vec<MergeResolution>) -> (text: String)
    ensures
        text@ == tally_json(resolutions@),
{
    let counts = resolution_counts(resolutions);
    let mut tally: Vec<String> = Vec::new();
    add_member(&mut tally, "clean", &decimal_string(counts.0 as u64));
    add_member(&mut tally, "manual", &decimal_string(counts.2 as u64));
    add_member(&mut tally, "rerere", &decimal_string(counts.1 as u64));
    proof {
        assert(string_views(tally@) =~= seq![
            member("clean"@, decimal(count_of(resolutions@, MergeResolution::Clean))),
            member("manual"@, decimal(count_of(resolutions@, MergeResolution::Manual))),
            member("rerere"@, decimal(count_of(resolutions@, MergeResolution::Reused))),
        ]);
    }
    object_text(&tally)
}

/// The result of a published restack: the environment's old and new tip, the branches
/// merged and removed, and how many merges were clean, reused or resolved by hand.
pub fn apply_result_json(result: &ApplyDocument) -> (text: String)
    ensures
        text@ == apply_document(*result),
{
    let mut members: Vec<String> = Vec::new();
    add_member(&mut members, "effects", &apply_effects());
    add_member(&mut members, "environment", &apply_environment(result));
    add_member(&mut members, "kind", &json_string("restackResult"));
    add_member(&mut members, "mergedBranches", &branches_text(&result.merged));
    add_member(&mut members, "planDigest", &json_string(&result.digest));
    add_member(&mut members, "pushed", "true");
    add_member(&mut members, "remote", &json_string(&result.remote));
    add_member(&mut members, "removedBranches", &branches_text(&result.removed));
    add_member(&mut members, "resolutionCounts", &tally(&result.resolutions));
    add_member(&mut members, "schemaVersion", &decimal_string(RESTACK_SCHEMA_VERSION));
    add_member(&mut members, "tree", &json_string(&result.tree));
    proof {
        assert(string_views(members@) =~= apply_members(*result));
    }
    object_text(&members)
}

/// The members of an abort result, in ascending key order.
pub open spec fn abort_members(environment: Seq<char>) -> Seq<Seq<char>> {
    seq![
        member("aborted"@, "true"@),
        member(
            "effects"@,
            json_object(
                seq![
                    member("localRefsChanged"@, "false"@),
                    member("personalRerereChanged"@, "false"@),
                    member("remoteRefsChanged"@, "false"@),
                    member("sourceCheckoutChanged"@, "false"@),
                ],
            ),
        ),
        member("environment"@, json_str(environment)),
        member("kind"@, json_str("restackAbortResult"@)),
        member("schemaVersion"@, decimal(RESTACK_SCHEMA_VERSION as nat)),
    ]
}

/// The result of an abandoned restack: nothing local or remote changed.
pub fn abort_result_json(environment: &str) -> (text: String)
    ensures
        text@ == json_object(abort_members(environment@)),
{
    let mut effects: Vec<String> = Vec::new();
    add_member(&mut effects, "localRefsChanged", "false");
    add_member(&mut effects, "personalRerereChanged", "false");
    add_member(&mut effects, "remoteRefsChanged", "false");
    add_member(&mut effects, "sourceCheckoutChanged", "false");
    let mut members: Vec<String> = Vec::new();
    add_member(&mut members, "aborted", "true");
    add_member(&mut members, "effects", &object_text(&effects));
    add_member(&mut members, "environment", &json_string(environment));
    add_member(&mut members, "kind", &json_string("restackAbortResult"));
    add_member(&mut members, "schemaVersion", &decimal_string(RESTACK_SCHEMA_VERSION));
    proof {
        assert(string_views(effects@) =~= seq![
            member("localRefsChanged"@, "false"@),
            member("personalRerereChanged"@, "false"@),
            member("remoteRefsChanged"@, "false"@),
            member("sourceCheckoutChanged"@, "false"@),
        ]);
        assert(string_views(members@) =~= abort_members(environment@));
    }
    object_text(&members)
}


/// One value of a details object, as JSON.
pub open spec fn detail_json(value: DetailValue) -> Seq<char> {
    match value {
        DetailValue::Text(text) => json_str(text@),
        DetailValue::Number(number) => decimal(number as nat),
        DetailValue::Texts(texts) => json_strings(texts@),
        DetailValue::Json(fragment) => fragment@,
    }
}

/// A details object: its members in the order they are listed.
pub open spec fn details_json(details: Seq<(String, DetailValue)>) -> Seq<char> {
    json_object(Seq::new(details.len(), |i: int| member(details[i].0@, detail_json(details[i].1))))
}

/// A machine error's message followed by its details object in parentheses; an error
/// without details is its message alone.
pub open spec fn detailed_message_text(error: MachineError) -> Seq<char> {
    if error.details@.len() == 0 {
        error.message@
    } else {
        error.message@ + " ("@ + details_json(error.details@) + ")"@
    }
}

/// The text that a person reads for an error.
pub open spec fn error_text(error: CliError) -> Seq<char> {
    match error {
        CliError::Config(message) => message@,
        CliError::Git(message) => message@,
        CliError::InvalidInput(message) => message@,
        CliError::JiraResponse(message) => message@,
        CliError::Authentication => "Jira rejected the email and API token"@,
        CliError::JiraStatus(status) => "Jira answered with HTTP status "@ + decimal(status as nat),
        CliError::LoginCancelled => "setup cancelled"@,
        CliError::Machine(machine) => machine.message@,
        CliError::Restack(machine) => "restack failed: "@ + detailed_message_text(machine),
    }
}

fn detail_text(value: &DetailValue) -> (text: String)
    ensures
        text@ == detail_json(*value),
{
    match value {
        DetailValue::Text(text) => json_string(text),
        DetailValue::Number(number) => decimal_string(*number),
        DetailValue::Texts(texts) => strings_json(texts),
        DetailValue::Json(fragment) => literal(fragment),
    }
}

fn details_text(details: &Vec<(String, DetailValue)>) -> (text: String)
    ensures
        text@ == details_json(details@),
{
    let mut members: Vec<String> = Vec::new();
    let mut i: usize = 0;
    while i < details.len()
        invariant
            i <= details.len(),
            string_views(members@) =~= Seq::new(
                i as nat,
                |j: int| member(details@[j].0@, detail_json(details@[j].1)),
            ),
        decreases details.len() - i,
    {
        let value = detail_text(&details[i].1);
        add_member(&mut members, &details[i].0, &value);
        i = i + 1;
    }
    object_text(&members)
}

impl MachineError {
    /// The message followed by the details object in parentheses, as an interactive
    /// restack reports it; without details, the message alone.
    pub fn detailed_message(&self) -> (text: String)
        ensures
            text@ == detailed_message_text(*self),
    {
        let mut text = literal(&self.message);
        if self.details.len() > 0 {
            push_str(&mut text, " (");
            push_str(&mut text, &details_text(&self.details));
            push_str(&mut text, ")");
        }
        text
    }
}

impl CliError {
    /// The text of the error as the command line shows it to a person.
    pub fn text(&self) -> (text: String)
        ensures
            text@ == error_text(*self),
    {
        match self {
            CliError::Config(message) => literal(message),
            CliError::Git(message) => literal(message),
            CliError::InvalidInput(message) => literal(message),
            CliError::JiraResponse(message) => literal(message),
            CliError::Authentication => literal("Jira rejected the email and API token"),
            CliError::JiraStatus(status) => {
                let mut text = literal("Jira answered with HTTP status ");
                push_str(&mut text, &decimal_string(*status as u64));
                text
            },
            CliError::LoginCancelled => literal("setup cancelled"),
            CliError::Machine(machine) => literal(&machine.message),
            CliError::Restack(machine) => {
                let mut text = literal("restack failed: ");
                push_str(&mut text, &machine.detailed_message());
                text
            },
        }
    }
}

} // verus!

//! The screen that explains why an environment's history cannot be read, and how the
//! restack rebuilds from the branch inventory instead.

use vstd::prelude::*;

use crate::git_output::string_views;
use crate::handoff::{short_oid, short_oid_text};
use crate::terminal_text::{escape, escaped};
use crate::text::{decimal, decimal_string, literal, push_str};
use crate::text_compare::same_text;

verus! {

/// Why the history proof failed, as the inventory reports it.
#[derive(Clone, Debug)]
pub struct UnsupportedReason {
    pub kind: String,
    pub commit: Option<String>,
    pub feature_parent: Option<String>,
    pub branches: Vec<String>,
    pub parents: Option<u64>,
}

/// What the explanation screen shows: the remote, environment and main branch, the
/// reason (if the history was classified at all) and the size of the inventory.
#[derive(Clone, Debug)]
pub struct HistoryScreen {
    pub remote: String,
    pub environment: String,
    pub main: String,
    pub reason: Option<UnsupportedReason>,
    pub top_level: usize,
    pub carried: usize,
    pub dropped: usize,
}

/// How many branches the evidence lists before summarizing the rest.
pub const EVIDENCE_LIMIT: usize = 3;

/// An abbreviated object id, or `?` when there is none.
pub open spec fn short_or_unknown(oid: Option<String>) -> Seq<char> {
    match oid {
        Some(o) => short_oid_text(o@),
        None => "?"@,
    }
}

/// The sentences that explain a failure of kind `kind`.
pub open spec fn explanation(
    kind: Seq<char>,
    commit: Seq<char>,
    feature_parent: Seq<char>,
    environment: Seq<char>,
    branch_count: nat,
    parents: nat,
) -> Seq<Seq<char>> {
    if kind == "ambiguousFeatureRefs"@ {
        seq![
            "Merge "@ + commit + " on "@ + environment + "'s history brings in "@ + feature_parent
                + ", which "@ + decimal(branch_count) + " branches contain."@,
            "Restack cannot tell which one it meant."@,
        ]
    } else if kind == "deletedFeatureRef"@ {
        seq![
            "Merge "@ + commit + " on "@ + environment + "'s history brings in "@ + feature_parent
                + ","@,
            "but no remote branch contains it any more."@,
        ]
    } else if kind == "directCommit"@ {
        seq![
            "Commit "@ + commit + " was made directly on "@ + environment,
            "instead of being merged from a feature branch."@,
        ]
    } else if kind == "fastForwardHistory"@ {
        seq![
            environment + " was fast-forwarded through "@ + commit + ";"@,
            "there is no merge commit to attribute that work to."@,
        ]
    } else if kind == "octopusMerge"@ {
        seq![
            "Merge "@ + commit + " has "@ + decimal(parents) + " parents;"@,
            "restack only understands two-parent merges."@,
        ]
    } else if kind == "missingCommit"@ {
        seq!["Commit "@ + commit + " is missing from the fetched history."@]
    } else {
        seq!["The history proof failed with "@ + escaped(kind) + "."@]
    }
}

/// Whether a failure of kind `kind` lists the branches that contain its commit.
pub open spec fn lists_branches(kind: Seq<char>) -> bool {
    kind == "ambiguousFeatureRefs"@ || kind == "fastForwardHistory"@
}

/// The evidence lines: at most three branches, then how many more there are.
pub open spec fn evidence(branches: Seq<String>) -> Seq<Seq<char>> {
    let shown = if branches.len() <= EVIDENCE_LIMIT {
        branches
    } else {
        branches.take(EVIDENCE_LIMIT as int)
    };
    seq![Seq::empty(), "Branches containing that commit"@] + Seq::new(
        shown.len(),
        |i: int| "  •  "@ + escaped(shown[i]@),
    ) + if branches.len() > EVIDENCE_LIMIT {
        seq!["  … and "@ + decimal((branches.len() - EVIDENCE_LIMIT) as nat) + " more"@]
    } else {
        Seq::empty()
    }
}

/// `branch` or `branches`, `commit` or `commits`.
pub open spec fn plural(count: nat, one: Seq<char>, many: Seq<char>) -> Seq<char> {
    if count == 1 {
        one
    } else {
        many
    }
}

/// The closing lines about the rebuild from inventory.
pub open spec fn inventory_lines(screen: HistoryScreen) -> Seq<Seq<char>> {
    let environment = escaped(screen.environment@);
    seq![
        Seq::empty(),
        "Rebuilding from inventory instead"@,
        "  •  Membership: remote tips in "@ + environment + ", not in "@ + escaped(screen.main@)
            + ". You pick."@,
        "  •  Order: oldest branch tip first. No reused resolutions."@,
        "  •  Commits on no kept branch are dropped; listed first."@,
        Seq::empty(),
        decimal(screen.top_level as nat) + " top-level "@ + plural(
            screen.top_level as nat,
            "branch"@,
            "branches"@,
        ) + " · "@ + decimal(screen.carried as nat) + " carried · "@ + decimal(
            screen.dropped as nat,
        ) + " "@ + plural(screen.dropped as nat, "commit"@, "commits"@) + " dropped"@,
    ]
}

/// Every line of the explanation screen.
pub open spec fn history_lines(screen: HistoryScreen) -> Seq<Seq<char>> {
    let environment = escaped(screen.environment@);
    let header = seq![
        "HISTORY CANNOT BE READ"@ + "  ·  "@ + escaped(screen.remote@) + "/"@ + environment,
        Seq::empty(),
    ];
    match screen.reason {
        None => header.push("The environment history could not be classified."@),
        Some(reason) => header + explanation(
            reason.kind@,
            short_or_unknown(reason.commit),
            short_or_unknown(reason.feature_parent),
            environment,
            reason.branches@.len(),
            match reason.parents {
                Some(p) => p as nat,
                None => 0,
            },
        ) + if lists_branches(reason.kind@) && reason.branches@.len() > 0 {
            evidence(reason.branches@)
        } else {
            Seq::empty()
        } + inventory_lines(screen),
    }
}

fn short_or_question(oid: &Option<String>) -> (text: String)
    ensures
        text@ == short_or_unknown(*oid),
{
    match oid {
        Some(o) => short_oid(o),
        None => literal("?"),
    }
}

fn joined(parts: &Vec<&str>) -> (text: String)
    ensures
        parts@.len() > 0 ==> text@ == joined_spec(parts@),
{
    let mut text = String::new();
    let mut i: usize = 0;
    while i < parts.len()
        invariant
            i <= parts.len(),
            text@ == joined_spec(parts@.take(i as int)),
        decreases parts.len() - i,
    {
        proof {
            assert(parts@.take(i + 1).drop_last() =~= parts@.take(i as int));
        }
        push_str(&mut text, parts[i]);
        i = i + 1;
    }
    proof {
        assert(parts@.take(parts.len() as int) =~= parts@);
    }
    text
}

/// The parts one after another.
pub open spec fn joined_spec(parts: Seq<&str>) -> Seq<char>
    decreases parts.len(),
{
    if parts.len() == 0 {
        Seq::empty()
    } else {
        joined_spec(parts.drop_last()) + parts.last()@
    }
}

fn explanation_lines(
    kind: &str,
    commit: &str,
    feature_parent: &str,
    environment: &str,
    branch_count: usize,
    parents: u64,
) -> (lines: Vec<String>)
    ensures
        string_views(lines@) == explanation(
            kind@,
            commit@,
            feature_parent@,
            environment@,
            branch_count as nat,
            parents as nat,
        ),
{
    let mut lines: Vec<String> = Vec::new();
    if same_text(kind, "ambiguousFeatureRefs") {
        let count = decimal_string(branch_count as u64);
        let v = vec![
            "Merge ",
            commit,
            " on ",
            environment,
            "'s history brings in ",
            feature_parent,
            ", which ",
            count.as_str(),
            " branches contain.",
        ];
        lines.push(joined(&v));
        lines.push(literal("Restack cannot tell which one it meant."));
    } else if same_text(kind, "deletedFeatureRef") {
        let v = vec!["Merge ", commit, " on ", environment, "'s history brings in ", feature_parent, ","];
        lines.push(joined(&v));
        lines.push(literal("but no remote branch contains it any more."));
    } else if same_text(kind, "directCommit") {
        let v = vec!["Commit ", commit, " was made directly on ", environment];
        lines.push(joined(&v));
        lines.push(literal("instead of being merged from a feature branch."));
    } else if same_text(kind, "fastForwardHistory") {
        let v = vec![environment, " was fast-forwarded through ", commit, ";"];
        lines.push(joined(&v));
        lines.push(literal("there is no merge commit to attribute that work to."));
    } else if same_text(kind, "octopusMerge") {
        let count = decimal_string(parents);
        let v = vec!["Merge ", commit, " has ", count.as_str(), " parents;"];
        lines.push(joined(&v));
        lines.push(literal("restack only understands two-parent merges."));
    } else if same_text(kind, "missingCommit") {
        let v = vec!["Commit ", commit, " is missing from the fetched history."];
        lines.push(joined(&v));
    } else {
        let escaped_kind = escape(kind);
        let v = vec!["The history proof failed with ", escaped_kind.as_str(), "."];
        lines.push(joined(&v));
    }
    proof {
        reveal_with_fuel(joined_spec, 10);
        assert(string_views(lines@) =~= explanation(
            kind@,
            commit@,
            feature_parent@,
            environment@,
            branch_count as nat,
            parents as nat,
        ));
    }
    lines
}

fn evidence_lines(branches: &Vec<String>) -> (lines: Vec<String>)
    ensures
        string_views(lines@) == evidence(branches@),
{
    let mut lines: Vec<String> = Vec::new();
    lines.push(String::new());
    lines.push(literal("Branches containing that commit"));
    let shown: usize = if branches.len() <= EVIDENCE_LIMIT {
        branches.len()
    } else {
        EVIDENCE_LIMIT
    };
    let ghost shown_seq = if branches@.len() <= EVIDENCE_LIMIT {
        branches@
    } else {
        branches@.take(EVIDENCE_LIMIT as int)
    };
    let ghost items = Seq::new(shown_seq.len(), |i: int| "  •  "@ + escaped(shown_seq[i]@));
    let ghost head = seq![Seq::<char>::empty(), "Branches containing that commit"@];
    proof {
        assert(string_views(lines@) =~= head + items.take(0));
    }
    let mut i: usize = 0;
    while i < shown
        invariant
            shown == shown_seq.len(),
            shown <= branches.len(),
            shown_seq == if branches@.len() <= EVIDENCE_LIMIT {
                branches@
            } else {
                branches@.take(EVIDENCE_LIMIT as int)
            },
            items == Seq::new(shown_seq.len(), |k: int| "  •  "@ + escaped(shown_seq[k]@)),
            head == seq![Seq::<char>::empty(), "Branches containing that commit"@],
            i <= shown,
            string_views(lines@) == head + items.take(i as int),
        decreases shown - i,
    {
        let mut line = literal("  •  ");
        push_str(&mut line, &escape(&branches[i]));
        let ghost before = lines@;
        lines.push(line);
        i = i + 1;
        proof {
            assert(shown_seq[i - 1] == branches@[i - 1]);
            assert(string_views(lines@) =~= string_views(before).push(items[i - 1]));
            assert(items.take(i as int) =~= items.take(i - 1).push(items[i - 1]));
        }
    }
    proof {
        assert(items.take(shown as int) =~= items);
    }
    if branches.len() > EVIDENCE_LIMIT {
        let mut more = literal("  … and ");
        push_str(&mut more, &decimal_string((branches.len() - EVIDENCE_LIMIT) as u64));
        push_str(&mut more, " more");
        let ghost before = lines@;
        lines.push(more);
        proof {
            assert(string_views(lines@) =~= string_views(before).push(
                "  … and "@ + decimal((branches@.len() - EVIDENCE_LIMIT) as nat) + " more"@,
            ));
        }
    }
    proof {
        assert(string_views(lines@) =~= evidence(branches@));
    }
    lines
}

pub(crate) fn append_all(lines: &mut Vec<String>, more: Vec<String>)
    ensures
        string_views(final(lines)@) == string_views(old(lines)@) + string_views(more@),
{
    let ghost first = lines@;
    let mut i: usize = 0;
    while i < more.len()
        invariant
            i <= more.len(),
            string_views(lines@) == string_views(first) + string_views(more@).take(i as int),
        decreases more.len() - i,
    {
        let ghost before = lines@;
        lines.push(more[i].clone());
        i = i + 1;
        proof {
            assert(string_views(lines@) =~= string_views(before).push(more@[i - 1]@));
            assert(string_views(more@).take(i as int) =~= string_views(more@).take(i - 1).push(
                more@[i - 1]@,
            ));
        }
    }
    proof {
        assert(string_views(more@).take(more.len() as int) =~= string_views(more@));
    }
}

fn inventory_summary(screen: &HistoryScreen, environment: &str) -> (lines: Vec<String>)
    requires
        environment@ == escaped(screen.environment@),
    ensures
        string_views(lines@) == inventory_lines(*screen),
{
    let mut lines: Vec<String> = Vec::new();
    lines.push(String::new());
    lines.push(literal("Rebuilding from inventory instead"));
    let main = escape(&screen.main);
    let v = vec!["  •  Membership: remote tips in ", environment, ", not in ", main.as_str(), ". You pick."];
    lines.push(joined(&v));
    lines.push(literal("  •  Order: oldest branch tip first. No reused resolutions."));
    lines.push(literal("  •  Commits on no kept branch are dropped; listed first."));
    lines.push(String::new());
    let top = decimal_string(screen.top_level as u64);
    let carried = decimal_string(screen.carried as u64);
    let dropped = decimal_string(screen.dropped as u64);
    let branch_word = if screen.top_level == 1 {
        "branch"
    } else {
        "branches"
    };
    let commit_word = if screen.dropped == 1 {
        "commit"
    } else {
        "commits"
    };
    let v = vec![
        top.as_str(),
        " top-level ",
        branch_word,
        " · ",
        carried.as_str(),
        " carried · ",
        dropped.as_str(),
        " ",
        commit_word,
        " dropped",
    ];
    lines.push(joined(&v));
    proof {
        reveal_with_fuel(joined_spec, 11);
        assert(string_views(lines@) =~= inventory_lines(*screen));
    }
    lines
}

/// The explanation of an unreadable history, line by line, with every name from the
/// repository escaped.
pub fn unsupported_history_text(screen: &HistoryScreen) -> (lines: Vec<String>)
    ensures
        string_views(lines@) == history_lines(*screen),
{
    let environment = escape(&screen.environment);
    let remote = escape(&screen.remote);
    let mut lines: Vec<String> = Vec::new();
    let v = vec!["HISTORY CANNOT BE READ", "  ·  ", remote.as_str(), "/", environment.as_str()];
    lines.push(joined(&v));
    lines.push(String::new());
    proof {
        reveal_with_fuel(joined_spec, 6);
    }
    match &screen.reason {
        None => {
            lines.push(literal("The environment history could not be classified."));
            proof {
                assert(string_views(lines@) =~= history_lines(*screen));
            }
            lines
        },
        Some(reason) => {
            let ghost header = string_views(lines@);
            let commit = short_or_question(&reason.commit);
            let feature_parent = short_or_question(&reason.feature_parent);
            let parents: u64 = match reason.parents {
                Some(p) => p,
                None => 0,
            };
            append_all(
                &mut lines,
                explanation_lines(
                    &reason.kind,
                    &commit,
                    &feature_parent,
                    &environment,
                    reason.branches.len(),
                    parents,
                ),
            );
            let evident = (same_text(&reason.kind, "ambiguousFeatureRefs") || same_text(
                &reason.kind,
                "fastForwardHistory",
            )) && reason.branches.len() > 0;
            if evident {
                append_all(&mut lines, evidence_lines(&reason.branches));
            }
            append_all(&mut lines, inventory_summary(screen, &environment));
            proof {
                assert(string_views(lines@) =~= history_lines(*screen));
            }
            lines
        },
    }
}

} // verus!

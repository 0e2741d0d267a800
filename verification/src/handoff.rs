//! What a person reads once an interactive restack has restored the terminal.

use vstd::prelude::*;

use crate::terminal_text::{escape, escaped};
use crate::text::{decimal, decimal_string, literal, push_char, push_str};
use crate::text_compare::chars_of;

verus! {

/// The first seven characters of an object id, escaped.
pub open spec fn short_oid_text(oid: Seq<char>) -> Seq<char> {
    escaped(if oid.len() <= 7 { oid } else { oid.subrange(0, 7) })
}

/// An abbreviated, escaped object id.
pub fn short_oid(oid: &str) -> (short: String)
    ensures
        short@ == short_oid_text(oid@),
{
    let chars = chars_of(oid);
    let mut prefix = String::new();
    let mut i: usize = 0;
    while i < chars.len() && i < 7
        invariant
            chars@ == oid@,
            i <= chars.len(),
            i <= 7,
            prefix@ == oid@.subrange(0, i as int),
        decreases chars.len() - i,
    {
        push_char(&mut prefix, chars[i]);
        i = i + 1;
        proof {
            assert(prefix@ =~= oid@.subrange(0, i as int));
        }
    }
    proof {
        if oid@.len() <= 7 {
            assert(oid@.subrange(0, i as int) =~= oid@);
        }
    }
    escape(prefix.as_str())
}

/// How many commits a rebuild from inventory leaves out.
pub open spec fn dropped_summary_text(count: nat) -> Seq<char> {
    if count == 0 {
        "no commits dropped"@
    } else if count == 1 {
        "1 commit dropped"@
    } else {
        decimal(count) + " commits dropped"@
    }
}

/// `no commits dropped`, `1 commit dropped` or `<n> commits dropped`.
pub fn dropped_summary(count: usize) -> (summary: String)
    ensures
        summary@ == dropped_summary_text(count as nat),
{
    proof {
        reveal_strlit("no commits dropped");
        reveal_strlit("1 commit dropped");
    }
    if count == 0 {
        literal("no commits dropped")
    } else if count == 1 {
        literal("1 commit dropped")
    } else {
        let mut summary = decimal_string(count as u64);
        push_str(&mut summary, " commits dropped");
        summary
    }
}

/// How many environment merges a feature's history absorbed.
pub open spec fn absorbed_merges_summary(count: nat) -> Seq<char> {
    if count == 1 {
        "1 environment merge absorbed"@
    } else {
        decimal(count) + " environment merges absorbed"@
    }
}

/// `1 environment merge absorbed` or `<n> environment merges absorbed`.
pub fn absorbed_merges_text(count: usize) -> (text: String)
    ensures
        text@ == absorbed_merges_summary(count as nat),
{
    if count == 1 {
        literal("1 environment merge absorbed")
    } else {
        let mut text = decimal_string(count as u64);
        push_str(&mut text, " environment merges absorbed");
        text
    }
}

/// The line that confirms a cancelled restack.
pub open spec fn cancelled_message(environment: Seq<char>) -> Seq<char> {
    "Restack of "@ + escaped(environment) + " cancelled; no remote refs changed."@
}

/// Confirms that a cancelled restack changed no remote ref.
pub fn cancelled_text(environment: &str) -> (text: String)
    ensures
        text@ == cancelled_message(environment@),
{
    let mut text = literal("Restack of ");
    let name = escape(environment);
    push_str(&mut text, name.as_str());
    push_str(&mut text, " cancelled; no remote refs changed.");
    text
}

/// The unresolved paths, one `  - <path>` line each, joined by newlines.
pub open spec fn path_lines(paths: Seq<String>) -> Seq<char>
    decreases paths.len(),
{
    if paths.len() == 0 {
        Seq::empty()
    } else if paths.len() == 1 {
        "  - "@ + escaped(paths[0]@)
    } else {
        path_lines(paths.drop_last()) + "\n  - "@ + escaped(paths.last()@)
    }
}

/// Where an interactive restack stopped on a conflict.
pub struct ConflictHandoff {
    pub environment: String,
    pub branch: String,
    pub unresolved_paths: Vec<String>,
    pub resume_token: String,
    pub work_area: String,
}

/// The instructions for resolving a paused restack.
pub open spec fn conflict_message(handoff: ConflictHandoff) -> Seq<char> {
    "Restack of "@ + escaped(handoff.environment@) + " paused on "@ + escaped(handoff.branch@)
        + ".\nUnresolved paths:\n"@ + path_lines(handoff.unresolved_paths@) + "\nWork area: "@
        + escaped(handoff.work_area@)
        + "\n\nResolve this preserved session:\n  1. Edit the unresolved files in the work area.\n  2. Stage every resolution there; leave no unstaged or untracked files.\n  3. Resume with: gd restack "@
        + escaped(handoff.environment@) + " --resume "@ + handoff.resume_token@
        + "\n\nDo not commit; Graduate creates the canonical merge commit.\nThis resumable session expires after 24 hours of inactivity."@
}

fn push_path_lines(text: &mut String, paths: &Vec<String>)
    ensures
        final(text)@ == old(text)@ + path_lines(paths@),
{
    proof {
        reveal_strlit("  - ");
        reveal_strlit("\n  - ");
    }
    let ghost start = text@;
    let mut i: usize = 0;
    while i < paths.len()
        invariant
            i <= paths@.len(),
            text@ == start + path_lines(paths@.subrange(0, i as int)),
        decreases paths.len() - i,
    {
        let ghost before = text@;
        if i > 0 {
            push_char(text, '\n');
        }
        push_str(text, "  - ");
        let escaped_path = escape(paths[i].as_str());
        push_str(text, escaped_path.as_str());
        proof {
            let next = paths@.subrange(0, i + 1);
            assert(next.drop_last() =~= paths@.subrange(0, i as int));
            if i == 0 {
                assert(text@ =~= start + path_lines(next));
            } else {
                reveal_strlit("  - ");
                reveal_strlit("\n  - ");
                assert("\n  - "@ =~= seq!['\n', ' ', ' ', '-', ' ']);
                assert("  - "@ =~= seq![' ', ' ', '-', ' ']);
                assert(text@ =~= before + "\n  - "@ + escaped(paths@[i as int]@));
                assert(text@ =~= start + path_lines(next));
            }
        }
        i = i + 1;
    }
    proof {
        assert(paths@.subrange(0, paths@.len() as int) =~= paths@);
    }
}

/// Explains how to finish a restack that paused on a conflict.
pub fn conflict_text(handoff: &ConflictHandoff) -> (text: String)
    ensures
        text@ == conflict_message(*handoff),
{
    let environment = escape(handoff.environment.as_str());
    let mut text = literal("Restack of ");
    push_str(&mut text, environment.as_str());
    push_str(&mut text, " paused on ");
    let branch = escape(handoff.branch.as_str());
    push_str(&mut text, branch.as_str());
    push_str(&mut text, ".\nUnresolved paths:\n");
    push_path_lines(&mut text, &handoff.unresolved_paths);
    push_str(&mut text, "\nWork area: ");
    let work_area = escape(handoff.work_area.as_str());
    push_str(&mut text, work_area.as_str());
    push_str(
        &mut text,
        "\n\nResolve this preserved session:\n  1. Edit the unresolved files in the work area.\n  2. Stage every resolution there; leave no unstaged or untracked files.\n  3. Resume with: gd restack ",
    );
    push_str(&mut text, environment.as_str());
    push_str(&mut text, " --resume ");
    push_str(&mut text, handoff.resume_token.as_str());
    push_str(
        &mut text,
        "\n\nDo not commit; Graduate creates the canonical merge commit.\nThis resumable session expires after 24 hours of inactivity.",
    );
    proof {
        assert(text@ =~= conflict_message(*handoff));
    }
    text
}

/// The commands that finish a reviewed session that was left unpublished.
pub open spec fn preserved_message(environment: Seq<char>, token: Seq<char>) -> Seq<char> {
    let env = escaped(environment);
    "Restack of "@ + env + " left unpublished; no remote refs changed.\nThe reviewed result is kept in a resumable session:\n  Review again: gd restack "@
        + env + " --resume "@ + token + "\n  Publish:      gd restack "@ + env + " --resume "@
        + token + " --apply\n  Discard:      gd restack "@ + env + " --resume "@ + token
        + " --abort\nThis resumable session expires after 24 hours of inactivity."@
}

/// Names every way to finish a sealed session that was left unpublished.
pub fn preserved_text(environment: &str, token: &str) -> (text: String)
    ensures
        text@ == preserved_message(environment@, token@),
{
    let env = escape(environment);
    let mut text = literal("Restack of ");
    push_str(&mut text, env.as_str());
    push_str(
        &mut text,
        " left unpublished; no remote refs changed.\nThe reviewed result is kept in a resumable session:\n  Review again: gd restack ",
    );
    push_str(&mut text, env.as_str());
    push_str(&mut text, " --resume ");
    push_str(&mut text, token);
    push_str(&mut text, "\n  Publish:      gd restack ");
    push_str(&mut text, env.as_str());
    push_str(&mut text, " --resume ");
    push_str(&mut text, token);
    push_str(&mut text, " --apply\n  Discard:      gd restack ");
    push_str(&mut text, env.as_str());
    push_str(&mut text, " --resume ");
    push_str(&mut text, token);
    push_str(&mut text, " --abort\nThis resumable session expires after 24 hours of inactivity.");
    proof {
        assert(text@ =~= preserved_message(environment@, token@));
    }
    text
}

/// What a published restack changed.
pub struct PublishedSummary {
    pub remote: String,
    pub environment: String,
    pub environment_tip: String,
    pub preview_commit: String,
    pub final_tree: String,
    pub retained: usize,
    pub removed: usize,
    /// The number of dropped commits, when the plan was rebuilt from inventory.
    pub rebuilt_dropping: Option<usize>,
}

/// The line that reports a published restack.
pub open spec fn success_message(summary: PublishedSummary) -> Seq<char> {
    "Restacked "@ + escaped(summary.remote@) + "/"@ + escaped(summary.environment@) + ": "@
        + short_oid_text(summary.environment_tip@) + " -> "@ + short_oid_text(
        summary.preview_commit@,
    ) + " (tree "@ + short_oid_text(summary.final_tree@) + "); "@ + decimal(
        summary.retained as nat,
    ) + " retained, "@ + decimal(summary.removed as nat) + " omitted from the environment."@
        + match summary.rebuilt_dropping {
        Some(count) => " Rebuilt from inventory; "@ + dropped_summary_text(count as nat) + "."@,
        None => Seq::empty(),
    }
}

/// Reports what a published restack changed.
pub fn success_text(summary: &PublishedSummary) -> (text: String)
    ensures
        text@ == success_message(*summary),
{
    let mut text = literal("Restacked ");
    let remote = escape(summary.remote.as_str());
    push_str(&mut text, remote.as_str());
    push_str(&mut text, "/");
    let environment = escape(summary.environment.as_str());
    push_str(&mut text, environment.as_str());
    push_str(&mut text, ": ");
    let from = short_oid(summary.environment_tip.as_str());
    push_str(&mut text, from.as_str());
    push_str(&mut text, " -> ");
    let to = short_oid(summary.preview_commit.as_str());
    push_str(&mut text, to.as_str());
    push_str(&mut text, " (tree ");
    let tree = short_oid(summary.final_tree.as_str());
    push_str(&mut text, tree.as_str());
    push_str(&mut text, "); ");
    let retained = decimal_string(summary.retained as u64);
    push_str(&mut text, retained.as_str());
    push_str(&mut text, " retained, ");
    let removed = decimal_string(summary.removed as u64);
    push_str(&mut text, removed.as_str());
    push_str(&mut text, " omitted from the environment.");
    let ghost before = text@;
    match summary.rebuilt_dropping {
        Some(count) => {
            push_str(&mut text, " Rebuilt from inventory; ");
            let dropped = dropped_summary(count);
            push_str(&mut text, dropped.as_str());
            push_str(&mut text, ".");
        },
        None => {},
    }
    proof {
        assert(text@ =~= success_message(*summary));
    }
    text
}

} // verus!

//! The isolated reconstruction repository: where its control files live, and what the
//! output of its Git commands means.

use vstd::prelude::*;
use vstd::utf8::{decode_utf8, valid_utf8};

use crate::error::{machine_failure, CliError};
use crate::restack::is_machine;
use crate::restack_errors::{
    details_of, is_text_entry, isolated_setup_error, reconstruction_error, validation_error,
};
use crate::error::MachineKind;
use crate::text_compare::chars_of;

verus! {

/// The characters of `bytes` when they are UTF-8 (`String::from_utf8`).
#[verifier::external_body]
pub(crate) fn utf8_text(bytes: Vec<u8>) -> (text: Option<String>)
    ensures
        text is Some <==> valid_utf8(bytes@),
        text matches Some(t) ==> t@ == decode_utf8(bytes@),
{
    String::from_utf8(bytes).ok()
}

/// The parent directory of a path, as `std::path::Path::parent` gives it.
pub uninterp spec fn path_parent(path: Seq<char>) -> Option<Seq<char>>;

/// A path with one more component, as `std::path::Path::join` gives it.
pub uninterp spec fn path_join(base: Seq<char>, component: Seq<char>) -> Seq<char>;

/// `Path::parent`: the path without its last component, or `None` for a root or an
/// empty path.
#[verifier::external_body]
fn parent_of(path: &str) -> (parent: Option<String>)
    ensures
        match parent {
            Some(p) => path_parent(path@) == Some(p@),
            None => path_parent(path@) is None,
        },
{
    std::path::Path::new(path).parent().map(|parent| parent.to_string_lossy().into_owned())
}

/// `Path::join`: `component` appended to `base` as a further path component.
#[verifier::external_body]
fn joined(base: &str, component: &str) -> (path: String)
    ensures
        path@ == path_join(base@, component@),
{
    std::path::Path::new(base).join(component).to_string_lossy().into_owned()
}

/// The position of the first `sep` in `s`, or its length.
pub open spec fn first_index_of<A>(s: Seq<A>, sep: A) -> int
    decreases s.len(),
{
    if s.len() == 0 {
        0
    } else if s[0] == sep {
        0
    } else {
        1 + first_index_of(s.drop_first(), sep)
    }
}

/// `first_index_of` finds the first occurrence of `sep`, or the length when there is none.
pub proof fn lemma_first_index_of<A>(s: Seq<A>, sep: A)
    ensures
        0 <= first_index_of(s, sep) <= s.len(),
        first_index_of(s, sep) < s.len() ==> s[first_index_of(s, sep)] == sep,
        forall|j: int| 0 <= j < first_index_of(s, sep) ==> s[j] != sep,
    decreases s.len(),
{
    if s.len() > 0 && s[0] != sep {
        lemma_first_index_of(s.drop_first(), sep);
        assert forall|j: int| 0 <= j < first_index_of(s, sep) implies s[j] != sep by {
            if j > 0 {
                assert(s[j] == s.drop_first()[j - 1]);
            }
        }
    }
}

/// The pieces of `s` between occurrences of `sep`, as `split` gives them.
pub open spec fn split_fields<A>(s: Seq<A>, sep: A) -> Seq<Seq<A>>
    decreases s.len(),
{
    proof {
        lemma_first_index_of(s, sep);
    }
    let i = first_index_of(s, sep);
    if i >= s.len() {
        seq![s]
    } else {
        seq![s.take(i)] + split_fields(s.skip(i + 1), sep)
    }
}

/// The pieces that are not empty, in order.
pub open spec fn nonempty<A>(fields: Seq<Seq<A>>) -> Seq<Seq<A>>
    decreases fields.len(),
{
    if fields.len() == 0 {
        Seq::empty()
    } else if fields.last().len() > 0 {
        nonempty(fields.drop_last()).push(fields.last())
    } else {
        nonempty(fields.drop_last())
    }
}

/// A line without the carriage return that ends it, if any.
pub open spec fn without_cr(line: Seq<char>) -> Seq<char> {
    if line.len() > 0 && line.last() == '\r' {
        line.drop_last()
    } else {
        line
    }
}

/// The lines of a text as `str::lines` gives them, carriage returns removed.
pub open spec fn text_lines(text: Seq<char>) -> Seq<Seq<char>> {
    split_fields(text, '\n').map_values(|line: Seq<char>| without_cr(line))
}

/// A text without the carriage returns and line feeds that end it.
pub open spec fn trim_line_ends(text: Seq<char>) -> Seq<char>
    decreases text.len(),
{
    if text.len() > 0 && (text.last() == '\r' || text.last() == '\n') {
        trim_line_ends(text.drop_last())
    } else {
        text
    }
}

/// The views of a vector of vectors.
pub open spec fn views<A>(v: Seq<Vec<A>>) -> Seq<Seq<A>> {
    Seq::new(v.len(), |i: int| v[i]@)
}

/// The views of a vector of strings.
pub open spec fn string_views(v: Seq<String>) -> Seq<Seq<char>> {
    Seq::new(v.len(), |i: int| v[i]@)
}

/// What a Git command of the work area produced.
#[derive(Clone, Debug)]
pub enum GitOutput {
    /// The command could not be started.
    NotRun,
    /// The command exited unsuccessfully.
    Failed,
    /// The command succeeded with this standard output.
    Succeeded(Vec<u8>),
}

/// The isolated repository of a restack session, with the hooks directory and global
/// configuration file beside it.
#[derive(Clone, Debug)]
pub struct IsolatedRepository {
    pub root: String,
    pub hooks: String,
    pub global_config: String,
}

/// The error of an unresolved path that is not UTF-8.
pub open spec fn is_invalid_path_encoding(error: CliError) -> bool {
    is_machine(error, MachineKind::Failure, "invalid_path_encoding"@, "an unresolved path is not valid UTF-8"@)
        && details_of(error).len() == 0
}

/// `bytes` split at every NUL byte.
fn split_bytes(bytes: &Vec<u8>, sep: u8) -> (fields: Vec<Vec<u8>>)
    ensures
        views(fields@) == split_fields(bytes@, sep),
{
    let mut fields: Vec<Vec<u8>> = Vec::new();
    let mut rest: Vec<u8> = bytes.clone();
    loop
        invariant
            views(fields@) + split_fields(rest@, sep) == split_fields(bytes@, sep),
        decreases rest.len(),
    {
        proof {
            lemma_first_index_of(rest@, sep);
        }
        let mut i: usize = 0;
        while i < rest.len() && rest[i] != sep
            invariant
                i <= rest.len(),
                i <= first_index_of(rest@, sep),
                forall|j: int| 0 <= j < first_index_of(rest@, sep) ==> rest@[j] != sep,
                first_index_of(rest@, sep) < rest@.len() ==> rest@[first_index_of(rest@, sep)] == sep,
                first_index_of(rest@, sep) <= rest@.len(),
            decreases rest.len() - i,
        {
            i = i + 1;
        }
        let mut piece: Vec<u8> = Vec::new();
        let mut k: usize = 0;
        while k < i
            invariant
                i <= rest.len(),
                k <= i,
                piece@ == rest@.take(k as int),
            decreases i - k,
        {
            piece.push(rest[k]);
            k = k + 1;
            proof {
                assert(piece@ =~= rest@.take(k as int));
            }
        }
        let ghost before = fields@;
        let ghost old_rest = rest@;
        fields.push(piece);
        proof {
            assert(views(fields@) =~= views(before).push(old_rest.take(i as int)));
        }
        if i >= rest.len() {
            proof {
                assert(old_rest.take(i as int) =~= old_rest);
                assert(views(fields@) =~= views(before) + seq![old_rest]);
            }
            return fields;
        }
        let mut next: Vec<u8> = Vec::new();
        let mut j: usize = i + 1;
        while j < rest.len()
            invariant
                i < rest.len(),
                i + 1 <= j <= rest.len(),
                next@ == rest@.subrange(i + 1, j as int),
            decreases rest.len() - j,
        {
            next.push(rest[j]);
            j = j + 1;
            proof {
                assert(next@ =~= rest@.subrange(i + 1, j as int));
            }
        }
        proof {
            assert(next@ =~= old_rest.skip(i + 1));
            assert(split_fields(old_rest, sep) == seq![old_rest.take(i as int)] + split_fields(next@, sep));
            assert(views(fields@) + split_fields(next@, sep) =~= views(before) + split_fields(old_rest, sep));
        }
        rest = next;
    }
}

/// `text` split at every `sep`.
fn split_chars(bytes: &Vec<char>, sep: char) -> (fields: Vec<Vec<char>>)
    ensures
        views(fields@) == split_fields(bytes@, sep),
{
    let mut fields: Vec<Vec<char>> = Vec::new();
    let mut rest: Vec<char> = bytes.clone();
    loop
        invariant
            views(fields@) + split_fields(rest@, sep) == split_fields(bytes@, sep),
        decreases rest.len(),
    {
        proof {
            lemma_first_index_of(rest@, sep);
        }
        let mut i: usize = 0;
        while i < rest.len() && rest[i] != sep
            invariant
                i <= rest.len(),
                i <= first_index_of(rest@, sep),
                forall|j: int| 0 <= j < first_index_of(rest@, sep) ==> rest@[j] != sep,
                first_index_of(rest@, sep) < rest@.len() ==> rest@[first_index_of(rest@, sep)] == sep,
                first_index_of(rest@, sep) <= rest@.len(),
            decreases rest.len() - i,
        {
            i = i + 1;
        }
        let mut piece: Vec<char> = Vec::new();
        let mut k: usize = 0;
        while k < i
            invariant
                i <= rest.len(),
                k <= i,
                piece@ == rest@.take(k as int),
            decreases i - k,
        {
            piece.push(rest[k]);
            k = k + 1;
            proof {
                assert(piece@ =~= rest@.take(k as int));
            }
        }
        let ghost before = fields@;
        let ghost old_rest = rest@;
        fields.push(piece);
        proof {
            assert(views(fields@) =~= views(before).push(old_rest.take(i as int)));
        }
        if i >= rest.len() {
            proof {
                assert(old_rest.take(i as int) =~= old_rest);
                assert(views(fields@) =~= views(before) + seq![old_rest]);
            }
            return fields;
        }
        let mut next: Vec<char> = Vec::new();
        let mut j: usize = i + 1;
        while j < rest.len()
            invariant
                i < rest.len(),
                i + 1 <= j <= rest.len(),
                next@ == rest@.subrange(i + 1, j as int),
            decreases rest.len() - j,
        {
            next.push(rest[j]);
            j = j + 1;
            proof {
                assert(next@ =~= rest@.subrange(i + 1, j as int));
            }
        }
        proof {
            assert(next@ =~= old_rest.skip(i + 1));
            assert(split_fields(old_rest, sep) == seq![old_rest.take(i as int)] + split_fields(next@, sep));
            assert(views(fields@) + split_fields(next@, sep) =~= views(before) + split_fields(old_rest, sep));
        }
        rest = next;
    }
}

/// The fields that are not empty, in order.
fn nonempty_fields(all: Vec<Vec<u8>>) -> (fields: Vec<Vec<u8>>)
    ensures
        views(fields@) == nonempty(views(all@)),
{
    let mut fields: Vec<Vec<u8>> = Vec::new();
    let mut k: usize = 0;
    proof {
        assert(views(all@).take(0) =~= Seq::<Seq<u8>>::empty());
    }
    while k < all.len()
        invariant
            k <= all.len(),
            views(fields@) == nonempty(views(all@).take(k as int)),
        decreases all.len() - k,
    {
        proof {
            assert(views(all@).take(k + 1).drop_last() =~= views(all@).take(k as int));
            assert(views(all@).take(k + 1).last() == all@[k as int]@);
        }
        if all[k].len() > 0 {
            let ghost before = fields@;
            fields.push(all[k].clone());
            proof {
                assert(views(fields@) =~= views(before).push(all@[k as int]@));
            }
        }
        k = k + 1;
    }
    proof {
        assert(views(all@).take(all.len() as int) =~= views(all@));
    }
    fields
}

impl IsolatedRepository {
    /// The repository at `root`, with its hooks and global configuration beside it in the
    /// session directory. A root without a parent directory cannot be a session's.
    pub fn open(root: &str) -> (result: Result<IsolatedRepository, CliError>)
        ensures
            match path_parent(root@) {
                None => result matches Err(e) && is_machine(
                    e,
                    MachineKind::Failure,
                    "isolated_setup_failed"@,
                    "could not create the isolated restack work area"@,
                ),
                Some(session) => result matches Ok(repository) && repository.root@ == root@
                    && repository.hooks@ == path_join(session, "hooks"@)
                    && repository.global_config@ == path_join(session, "global.gitconfig"@),
            },
    {
        match parent_of(root) {
            None => Err(isolated_setup_error()),
            Some(session) => Ok(
                IsolatedRepository {
                    root: root.to_owned(),
                    hooks: joined(&session, "hooks"),
                    global_config: joined(&session, "global.gitconfig"),
                },
            ),
        }
    }

    /// The standard output of a command that reads: a command that could not start fails
    /// the reconstruction, one that exited unsuccessfully fails validation.
    pub fn read_bytes(&self, output: GitOutput, stage: &str) -> (result: Result<Vec<u8>, CliError>)
        ensures
            match output {
                GitOutput::NotRun => result matches Err(e) && is_reconstruction_error(e, stage@),
                GitOutput::Failed => result matches Err(e) && is_validation_error(e, stage@),
                GitOutput::Succeeded(bytes) => result == Ok::<Vec<u8>, CliError>(bytes),
            },
    {
        match output {
            GitOutput::NotRun => Err(reconstruction_error(stage)),
            GitOutput::Failed => Err(validation_error(stage)),
            GitOutput::Succeeded(bytes) => Ok(bytes),
        }
    }

    /// A command that must succeed: any failure fails the reconstruction.
    pub fn run_success(&self, output: GitOutput, stage: &str) -> (result: Result<(), CliError>)
        ensures
            output is Succeeded <==> result is Ok,
            result matches Err(e) ==> is_reconstruction_error(e, stage@),
    {
        match output {
            GitOutput::Succeeded(_) => Ok(()),
            _ => Err(reconstruction_error(stage)),
        }
    }

    /// The text a command printed, without the line ends that close it; output that is not
    /// UTF-8 fails validation.
    pub fn read_text(&self, output: GitOutput, stage: &str) -> (result: Result<String, CliError>)
        ensures
            match output {
                GitOutput::NotRun => result matches Err(e) && is_reconstruction_error(e, stage@),
                GitOutput::Failed => result matches Err(e) && is_validation_error(e, stage@),
                GitOutput::Succeeded(bytes) => if valid_utf8(bytes@) {
                    result matches Ok(text) && text@ == trim_line_ends(decode_utf8(bytes@))
                } else {
                    result matches Err(e) && is_validation_error(e, stage@)
                },
            },
    {
        let bytes = self.read_bytes(output, stage)?;
        match utf8_text(bytes) {
            None => Err(validation_error(stage)),
            Some(text) => Ok(trim_end_line_breaks(&text)),
        }
    }

    /// The paths that rerere has not resolved: the lines of `git rerere remaining` that are
    /// not empty.
    pub fn rerere_remaining(&self, output: GitOutput) -> (result: Result<Vec<String>, CliError>)
        ensures
            match output {
                GitOutput::NotRun => result matches Err(e) && is_reconstruction_error(e, "rerereRemaining"@),
                GitOutput::Failed => result matches Err(e) && is_validation_error(e, "rerereRemaining"@),
                GitOutput::Succeeded(bytes) => if valid_utf8(bytes@) {
                    result matches Ok(paths) && string_views(paths@) == nonempty(
                        text_lines(trim_line_ends(decode_utf8(bytes@))),
                    )
                } else {
                    result matches Err(e) && is_validation_error(e, "rerereRemaining"@)
                },
            },
    {
        let text = self.read_text(output, "rerereRemaining")?;
        Ok(nonempty_lines(&text))
    }

    /// The unresolved paths of a conflicted merge, from `git diff --name-only -z`: every
    /// NUL-separated piece that is not empty, each of which must be UTF-8.
    pub fn unresolved_paths(&self, output: GitOutput) -> (result: Result<Vec<String>, CliError>)
        ensures
            match output {
                GitOutput::NotRun => result matches Err(e) && is_reconstruction_error(e, "conflictPaths"@),
                GitOutput::Failed => result matches Err(e) && is_validation_error(e, "conflictPaths"@),
                GitOutput::Succeeded(bytes) => {
                    let pieces = nonempty(split_fields(bytes@, 0u8));
                    if forall|i: int| 0 <= i < pieces.len() ==> valid_utf8(#[trigger] pieces[i]) {
                        result matches Ok(paths) && paths@.len() == pieces.len() && forall|i: int|
                            0 <= i < pieces.len() ==> #[trigger] paths@[i]@ == decode_utf8(pieces[i])
                    } else {
                        result matches Err(e) && is_invalid_path_encoding(e)
                    }
                },
            },
    {
        let ghost original = output;
        let bytes = self.read_bytes(output, "conflictPaths")?;
        let pieces = nonempty_fields(split_bytes(&bytes, 0));
        proof {
            assert(original matches GitOutput::Succeeded(b) && b@ == bytes@);
        }
        let mut paths: Vec<String> = Vec::new();
        let mut i: usize = 0;
        while i < pieces.len()
            invariant
                original matches GitOutput::Succeeded(b) && views(pieces@) == nonempty(split_fields(b@, 0u8)),
                original == output,
                i <= pieces.len(),
                paths@.len() == i,
                forall|k: int| 0 <= k < i ==> valid_utf8(#[trigger] views(pieces@)[k]),
                forall|k: int| 0 <= k < i ==> #[trigger] paths@[k]@ == decode_utf8(views(pieces@)[k]),
            decreases pieces.len() - i,
        {
            match utf8_text(pieces[i].clone()) {
                None => {
                    proof {
                        assert(!valid_utf8(views(pieces@)[i as int]));
                    }
                    return Err(
                        machine_failure(
                            "invalid_path_encoding",
                            "an unresolved path is not valid UTF-8",
                            Vec::new(),
                        ),
                    );
                },
                Some(path) => {
                    paths.push(path);
                },
            }
            i = i + 1;
        }
        Ok(paths)
    }

    /// The index is valid when no path is unmerged and neither the staged nor the
    /// working-tree changes have whitespace errors; the first failed check is reported.
    pub fn validate_index(&self, unmerged: GitOutput, staged_check: GitOutput, worktree_check: GitOutput) -> (result:
        Result<(), CliError>)
        ensures
            match unmerged {
                GitOutput::NotRun => result matches Err(e) && is_reconstruction_error(e, "unmergedIndex"@),
                GitOutput::Failed => result matches Err(e) && is_validation_error(e, "unmergedIndex"@),
                GitOutput::Succeeded(bytes) => if bytes@.len() > 0 {
                    result matches Err(e) && is_validation_error(e, "unmergedIndex"@)
                } else if !(staged_check is Succeeded) {
                    result matches Err(e) && is_reconstruction_error(e, "stagedDiffCheck"@)
                } else if !(worktree_check is Succeeded) {
                    result matches Err(e) && is_reconstruction_error(e, "worktreeDiffCheck"@)
                } else {
                    result is Ok
                },
            },
    {
        let unmerged = self.read_bytes(unmerged, "unmergedIndex")?;
        if unmerged.len() > 0 {
            return Err(validation_error("unmergedIndex"));
        }
        self.run_success(staged_check, "stagedDiffCheck")?;
        self.run_success(worktree_check, "worktreeDiffCheck")
    }

    /// The work area is clean when `git status` shows nothing and the result has no
    /// whitespace errors against the state before it.
    pub fn validate_clean_state(&self, status: GitOutput, result_check: GitOutput) -> (result: Result<
        (),
        CliError,
    >)
        ensures
            match status {
                GitOutput::NotRun => result matches Err(e) && is_reconstruction_error(e, "status"@),
                GitOutput::Failed => result matches Err(e) && is_validation_error(e, "status"@),
                GitOutput::Succeeded(bytes) => if bytes@.len() > 0 {
                    result matches Err(e) && is_validation_error(e, "indexState"@)
                } else if !(result_check is Succeeded) {
                    result matches Err(e) && is_reconstruction_error(e, "resultDiffCheck"@)
                } else {
                    result is Ok
                },
            },
    {
        let status = self.read_bytes(status, "status")?;
        if status.len() > 0 {
            return Err(validation_error("indexState"));
        }
        self.run_success(result_check, "resultDiffCheck")
    }
}

/// The text a successful command printed, line ends at its close removed, when it is UTF-8.
pub open spec fn text_of(output: GitOutput) -> Option<Seq<char>> {
    match output {
        GitOutput::Succeeded(bytes) => if valid_utf8(bytes@) {
            Some(trim_line_ends(decode_utf8(bytes@)))
        } else {
            None
        },
        _ => None,
    }
}

/// The output of a successful command.
pub open spec fn bytes_of(output: GitOutput) -> Option<Seq<u8>> {
    match output {
        GitOutput::Succeeded(bytes) => Some(bytes@),
        _ => None,
    }
}

/// The error of a read at `stage` that gave no usable output.
pub open spec fn is_read_error(output: GitOutput, stage: Seq<char>, error: CliError) -> bool {
    match output {
        GitOutput::NotRun => is_reconstruction_error(error, stage),
        _ => is_validation_error(error, stage),
    }
}

/// Whether a raw commit object has a `gpgsig` header, among the lines before the first
/// empty line.
pub open spec fn has_signature_header(raw: Seq<u8>) -> bool {
    let lines = split_fields(raw, 10u8);
    let headers = first_index_of(lines, Seq::<u8>::empty());
    exists|i: int| 0 <= i < headers && #[trigger] starts_with_gpgsig(lines[i])
}

/// Whether a line begins with `gpgsig `.
pub open spec fn starts_with_gpgsig(line: Seq<u8>) -> bool {
    line.len() >= 7 && line.take(7) == seq![103u8, 112u8, 103u8, 115u8, 105u8, 103u8, 32u8]
}

fn line_starts_with_gpgsig(line: &Vec<u8>) -> (result: bool)
    ensures
        result == starts_with_gpgsig(line@),
{
    let result = line.len() >= 7 && line[0] == 103 && line[1] == 112 && line[2] == 103 && line[3]
        == 115 && line[4] == 105 && line[5] == 103 && line[6] == 32;
    proof {
        if line.len() >= 7 {
            let expected = seq![103u8, 112u8, 103u8, 115u8, 105u8, 103u8, 32u8];
            if result {
                assert(line@.take(7) =~= expected);
            } else if line@.take(7) == expected {
                assert(line@.take(7)[0] == line@[0]);
                assert(line@.take(7)[6] == line@[6]);
            }
        }
    }
    result
}

fn signature_header_present(raw: &Vec<u8>) -> (present: bool)
    ensures
        present == has_signature_header(raw@),
{
    let lines = split_bytes(raw, 10);
    let ghost all = views(lines@);
    proof {
        lemma_first_index_of(all, Seq::<u8>::empty());
    }
    let mut i: usize = 0;
    while i < lines.len() && lines[i].len() > 0
        invariant
            all == views(lines@),
            all == split_fields(raw@, 10u8),
            i <= lines.len(),
            i <= first_index_of(all, Seq::<u8>::empty()),
            0 <= first_index_of(all, Seq::<u8>::empty()) <= all.len(),
            forall|j: int| 0 <= j < first_index_of(all, Seq::<u8>::empty()) ==> all[j] != Seq::<u8>::empty(),
            first_index_of(all, Seq::<u8>::empty()) < all.len() ==> all[first_index_of(all, Seq::<u8>::empty())] == Seq::<u8>::empty(),
            forall|j: int| 0 <= j < i ==> !starts_with_gpgsig(#[trigger] all[j]),
        decreases lines.len() - i,
    {
        if line_starts_with_gpgsig(&lines[i]) {
            proof {
                assert(all[i as int] == lines@[i as int]@);
                assert(starts_with_gpgsig(all[i as int]));
            }
            return true;
        }
        proof {
            assert(all[i as int] == lines@[i as int]@);
        }
        i = i + 1;
    }
    proof {
        if i < lines.len() {
            assert(all[i as int] =~= Seq::<u8>::empty());
        }
        assert(i == first_index_of(all, Seq::<u8>::empty()));
    }
    false
}

/// The identity line that `git show --format=%an%x00%ae%x00%cn%x00%ce` prints for a
/// commit whose author and committer are `name <email>`.
pub open spec fn identity_line(name: Seq<char>, email: Seq<char>) -> Seq<char> {
    name + seq!['\0'] + email + seq!['\0'] + name + seq!['\0'] + email + seq!['\n']
}

/// The first line of `git rev-list --parents -n 1` for a merge of `feature_parent` into
/// `first_parent`.
pub open spec fn parents_line(commit: Seq<char>, first_parent: Seq<char>, feature_parent: Seq<char>) -> Seq<char> {
    commit + " "@ + first_parent + " "@ + feature_parent
}

fn same_chars(a: &Vec<char>, b: &Vec<char>) -> (result: bool)
    ensures
        result == (a@ == b@),
{
    if a.len() != b.len() {
        return false;
    }
    let mut i: usize = 0;
    while i < a.len()
        invariant
            a.len() == b.len(),
            i <= a.len(),
            forall|j: int| 0 <= j < i ==> a@[j] == b@[j],
        decreases a.len() - i,
    {
        if a[i] != b[i] {
            return false;
        }
        i = i + 1;
    }
    proof {
        assert(a@ =~= b@);
    }
    true
}

impl IsolatedRepository {
    /// A reconstructed merge commit is valid when its parents are exactly the previous
    /// commit and the feature tip, its message is the canonical one, its author and
    /// committer are the restack author, and it carries no signature; the first failed
    /// check is reported.
    pub fn validate_commit(
        &self,
        parents: GitOutput,
        shown_message: GitOutput,
        identity: GitOutput,
        raw: GitOutput,
        commit: &str,
        first_parent: &str,
        feature_parent: &str,
        message: &str,
        author_name: &str,
        author_email: &str,
    ) -> (result: Result<(), CliError>)
        ensures
            match text_of(parents) {
                None => result matches Err(e) && is_read_error(parents, "parents"@, e),
                Some(p) => if p != parents_line(commit@, first_parent@, feature_parent@) {
                    result matches Err(e) && is_validation_error(e, "parents"@)
                } else {
                    match text_of(shown_message) {
                        None => result matches Err(e) && is_read_error(shown_message, "message"@, e),
                        Some(m) => if m != message@ {
                            result matches Err(e) && is_validation_error(e, "message"@)
                        } else {
                            match bytes_of(identity) {
                                None => result matches Err(e) && is_read_error(identity, "identity"@, e),
                                Some(b) => if !(valid_utf8(b) && decode_utf8(b) == identity_line(
                                    author_name@,
                                    author_email@,
                                )) {
                                    result matches Err(e) && is_validation_error(e, "identity"@)
                                } else {
                                    match bytes_of(raw) {
                                        None => result matches Err(e) && is_read_error(raw, "signature"@, e),
                                        Some(r) => if has_signature_header(r) {
                                            result matches Err(e) && is_validation_error(e, "signature"@)
                                        } else {
                                            result is Ok
                                        },
                                    }
                                },
                            }
                        },
                    }
                },
            },
    {
        let parent_text = self.read_text(parents, "parents")?;
        let mut expected = chars_of(commit);
        crate::canvas::push_all(&mut expected, &chars_of(" "));
        crate::canvas::push_all(&mut expected, &chars_of(first_parent));
        crate::canvas::push_all(&mut expected, &chars_of(" "));
        crate::canvas::push_all(&mut expected, &chars_of(feature_parent));
        if !same_chars(&chars_of(&parent_text), &expected) {
            return Err(validation_error("parents"));
        }
        let actual_message = self.read_text(shown_message, "message")?;
        if !crate::text_compare::same_text(&actual_message, message) {
            return Err(validation_error("message"));
        }
        let identity_bytes = self.read_bytes(identity, "identity")?;
        let mut expected_identity = chars_of(author_name);
        expected_identity.push('\0');
        crate::canvas::push_all(&mut expected_identity, &chars_of(author_email));
        expected_identity.push('\0');
        crate::canvas::push_all(&mut expected_identity, &chars_of(author_name));
        expected_identity.push('\0');
        crate::canvas::push_all(&mut expected_identity, &chars_of(author_email));
        expected_identity.push('\n');
        proof {
            assert(expected_identity@ =~= identity_line(author_name@, author_email@));
        }
        let identity_ok = match utf8_text(identity_bytes) {
            Some(text) => same_chars(&chars_of(&text), &expected_identity),
            None => false,
        };
        if !identity_ok {
            return Err(validation_error("identity"));
        }
        let raw_bytes = self.read_bytes(raw, "signature")?;
        if signature_header_present(&raw_bytes) {
            return Err(validation_error("signature"));
        }
        Ok(())
    }
}

/// The conflicted paths that rerere resolved: those it does not list as remaining.
pub open spec fn resolved_paths(conflicted: Seq<String>, remaining: Seq<String>) -> Seq<Seq<char>>
    decreases conflicted.len(),
{
    if conflicted.len() == 0 {
        Seq::empty()
    } else {
        let rest = resolved_paths(conflicted.drop_last(), remaining);
        let path = conflicted.last()@;
        if string_views(remaining).contains(path) {
            rest
        } else {
            rest.push(path)
        }
    }
}

/// After a conflicted merge and a rerere replay: the conflicted paths to stage because
/// rerere resolved them, and whether every conflict was resolved. A merge that failed
/// without conflicted paths fails the reconstruction.
pub fn rerere_outcome(conflicted: &Vec<String>, remaining: &Vec<String>) -> (result: Result<(Vec<String>, bool), CliError>)
    ensures
        conflicted@.len() == 0 ==> (result matches Err(e) && is_reconstruction_error(e, "merge"@)),
        conflicted@.len() > 0 ==> (result matches Ok((resolved, all_resolved)) && string_views(resolved@)
            == resolved_paths(conflicted@, remaining@) && all_resolved == (remaining@.len() == 0)),
{
    if conflicted.len() == 0 {
        return Err(reconstruction_error("merge"));
    }
    let mut resolved: Vec<String> = Vec::new();
    let mut i: usize = 0;
    proof {
        assert(conflicted@.take(0) =~= Seq::<String>::empty());
    }
    while i < conflicted.len()
        invariant
            i <= conflicted.len(),
            string_views(resolved@) == resolved_paths(conflicted@.take(i as int), remaining@),
        decreases conflicted.len() - i,
    {
        proof {
            assert(conflicted@.take(i + 1).drop_last() =~= conflicted@.take(i as int));
            assert(conflicted@.take(i + 1).last() == conflicted@[i as int]);
        }
        let mut listed = false;
        let mut j: usize = 0;
        while j < remaining.len()
            invariant
                i < conflicted.len(),
                j <= remaining.len(),
                listed == exists|k: int| 0 <= k < j && #[trigger] remaining@[k]@ == conflicted@[i as int]@,
            decreases remaining.len() - j,
        {
            if crate::text_compare::same_text(&remaining[j], &conflicted[i]) {
                listed = true;
            }
            j = j + 1;
        }
        proof {
            let views_remaining = string_views(remaining@);
            if listed {
                let k = choose|k: int| 0 <= k < remaining@.len() && #[trigger] remaining@[k]@ == conflicted@[i as int]@;
                assert(views_remaining[k] == conflicted@[i as int]@);
                assert(views_remaining.contains(conflicted@[i as int]@));
            } else {
                assert forall|k: int| 0 <= k < views_remaining.len() implies views_remaining[k] != conflicted@[i as int]@ by {
                    assert(views_remaining[k] == remaining@[k]@);
                }
            }
        }
        if !listed {
            let ghost before = resolved@;
            resolved.push(conflicted[i].clone());
            proof {
                assert(string_views(resolved@) =~= string_views(before).push(conflicted@[i as int]@));
            }
        }
        i = i + 1;
    }
    proof {
        assert(conflicted@.take(conflicted.len() as int) =~= conflicted@);
    }
    Ok((resolved, remaining.len() == 0))
}

/// The error of a Git step of the reconstruction that failed at `stage`.
pub open spec fn is_reconstruction_error(error: CliError, stage: Seq<char>) -> bool {
    is_machine(error, MachineKind::Failure, "reconstruction_failed"@, "Git could not complete isolated reconstruction"@)
        && details_of(error).len() == 1 && is_text_entry(details_of(error)[0], "stage"@, stage)
}

/// The error of a reconstruction result that failed validation at `stage`.
pub open spec fn is_validation_error(error: CliError, stage: Seq<char>) -> bool {
    is_machine(error, MachineKind::Failure, "validation_failed"@, "isolated reconstruction failed validation"@)
        && details_of(error).len() == 1 && is_text_entry(details_of(error)[0], "stage"@, stage)
}

/// `text` without the carriage returns and line feeds that end it.
pub(crate) fn trim_end_line_breaks(text: &str) -> (trimmed: String)
    ensures
        trimmed@ == trim_line_ends(text@),
{
    let chars = chars_of(text);
    let mut end: usize = chars.len();
    proof {
        assert(text@.take(end as int) =~= text@);
    }
    while end > 0 && (chars[end - 1] == '\r' || chars[end - 1] == '\n')
        invariant
            chars@ == text@,
            end <= chars.len(),
            trim_line_ends(text@) == trim_line_ends(text@.take(end as int)),
        decreases end,
    {
        proof {
            assert(text@.take(end as int).drop_last() =~= text@.take(end - 1));
        }
        end = end - 1;
    }
    let mut trimmed = String::new();
    let mut i: usize = 0;
    while i < end
        invariant
            chars@ == text@,
            i <= end <= chars.len(),
            trimmed@ == text@.take(i as int),
        decreases end - i,
    {
        crate::text::push_char(&mut trimmed, chars[i]);
        i = i + 1;
        proof {
            assert(trimmed@ =~= text@.take(i as int));
        }
    }
    trimmed
}

/// The lines of `text` that are not empty once their carriage return is removed.
fn nonempty_lines(text: &str) -> (lines: Vec<String>)
    ensures
        string_views(lines@) == nonempty(text_lines(text@)),
{
    let chars = chars_of(text);
    let fields = split_chars(&chars, '\n');
    let ghost all = views(fields@).map_values(|line: Seq<char>| without_cr(line));
    proof {
        assert(all =~= text_lines(text@));
        assert(all.take(0) =~= Seq::<Seq<char>>::empty());
    }
    let mut lines: Vec<String> = Vec::new();
    let mut k: usize = 0;
    while k < fields.len()
        invariant
            k <= fields.len(),
            all == views(fields@).map_values(|line: Seq<char>| without_cr(line)),
            string_views(lines@) == nonempty(all.take(k as int)),
        decreases fields.len() - k,
    {
        proof {
            assert(all.take(k + 1).drop_last() =~= all.take(k as int));
            assert(all.take(k + 1).last() == without_cr(fields@[k as int]@));
        }
        let (kept, count) = trim_one_cr(&fields[k]);
        if count > 0 {
            let ghost before = lines@;
            lines.push(kept);
            proof {
                assert(string_views(lines@) =~= string_views(before).push(without_cr(fields@[k as int]@)));
            }
        }
        k = k + 1;
    }
    proof {
        assert(all.take(fields.len() as int) =~= all);
    }
    lines
}

/// A line without one carriage return at its end.
fn trim_one_cr(line: &Vec<char>) -> (kept: (String, usize))
    ensures
        kept.0@ == without_cr(line@),
        kept.1 == without_cr(line@).len(),
{
    let end: usize = if line.len() > 0 && line[line.len() - 1] == '\r' {
        line.len() - 1
    } else {
        line.len()
    };
    let mut kept = String::new();
    let mut i: usize = 0;
    while i < end
        invariant
            i <= end <= line.len(),
            kept@ == line@.take(i as int),
        decreases end - i,
    {
        crate::text::push_char(&mut kept, line[i]);
        i = i + 1;
        proof {
            assert(kept@ =~= line@.take(i as int));
        }
    }
    proof {
        if end == line.len() {
            assert(line@.take(end as int) =~= line@);
        } else {
            assert(line@.take(end as int) =~= line@.drop_last());
        }
    }
    (kept, end)
}

} // verus!

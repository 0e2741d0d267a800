//! The decisions of reading an environment's history: the breadth-first walk over
//! parents, the subject line of a commit, the order in which commits and branches are
//! listed, and which branch is the main one.

use vstd::prelude::*;

use crate::error::CliError;
use crate::onboarding::{trim_chars, trimmed};
use crate::text::{literal, push_char};
use crate::text_compare::{chars_of, same_text};

verus! {

/// Whether `id` occurs in `ids`.
pub open spec fn listed(ids: Seq<String>, id: Seq<char>) -> bool {
    exists|i: int| 0 <= i < ids.len() && #[trigger] ids[i]@ == id
}

/// No id occurs twice.
pub open spec fn distinct(ids: Seq<String>) -> bool {
    forall|i: int, j: int| 0 <= i < j < ids.len() ==> #[trigger] ids[i]@ != #[trigger] ids[j]@
}

/// Whether `id` is one of `ids`.
pub fn contains_id(ids: &Vec<String>, id: &str) -> (found: bool)
    ensures
        found == listed(ids@, id@),
{
    let mut i: usize = 0;
    while i < ids.len()
        invariant
            i <= ids.len(),
            forall|j: int| 0 <= j < i ==> #[trigger] ids@[j]@ != id@,
        decreases ids.len() - i,
    {
        if same_text(&ids[i], id) {
            return true;
        }
        i = i + 1;
    }
    false
}

/// A breadth-first walk over commit parents that never enters an excluded commit and
/// visits each commit once. The queue is `pending` from `next_pending` on.
pub struct AncestorWalk {
    pub excluded: Vec<String>,
    pub visited: Vec<String>,
    pub pending: Vec<String>,
    pub next_pending: usize,
}

impl AncestorWalk {
    /// The walk's invariant: the visited commits are distinct and none is excluded.
    pub open spec fn well_formed(&self) -> bool {
        &&& distinct(self.visited@)
        &&& forall|i: int| 0 <= i < self.visited@.len() ==> !listed(self.excluded@, #[trigger] self.visited@[i]@)
        &&& self.next_pending <= self.pending@.len()
    }

    /// Whether the walk has nothing left to give for the queued commit `id`.
    pub open spec fn skipped(&self, id: Seq<char>) -> bool {
        listed(self.excluded@, id) || listed(self.visited@, id)
    }

    /// A walk from `start` that never enters the `excluded` commits.
    pub fn new(start: String, excluded: Vec<String>) -> (walk: AncestorWalk)
        ensures
            walk.well_formed(),
            walk.visited@.len() == 0,
            walk.pending@ == seq![start],
            walk.next_pending == 0,
            walk.excluded@ == excluded@,
    {
        let mut pending: Vec<String> = Vec::new();
        pending.push(start);
        AncestorWalk { excluded, visited: Vec::new(), pending, next_pending: 0 }
    }

    /// The next commit to read: the first queued commit that is neither excluded nor
    /// visited, now marked visited; `None` once the queue is exhausted.
    pub fn next(&mut self) -> (id: Option<String>)
        requires
            old(self).well_formed(),
        ensures
            final(self).well_formed(),
            final(self).excluded == old(self).excluded,
            final(self).pending == old(self).pending,
            old(self).next_pending <= final(self).next_pending <= final(self).pending@.len(),
            forall|k: int|
                old(self).next_pending <= k < final(self).next_pending - (if id is Some { 1int } else { 0int })
                    ==> #[trigger] old(self).skipped(old(self).pending@[k]@),
            match id {
                Some(found) => {
                    &&& final(self).next_pending >= 1
                    &&& found@ == old(self).pending@[final(self).next_pending - 1]@
                    &&& !old(self).skipped(found@)
                    &&& final(self).visited@.map_values(|v: String| v@) == old(self).visited@.map_values(
                        |v: String| v@,
                    ).push(found@)
                },
                None => {
                    &&& final(self).next_pending == final(self).pending@.len()
                    &&& final(self).visited == old(self).visited
                },
            },
    {
        while self.next_pending < self.pending.len()
            invariant
                self.well_formed(),
                self.excluded == old(self).excluded,
                self.pending == old(self).pending,
                self.visited == old(self).visited,
                old(self).next_pending <= self.next_pending <= self.pending@.len(),
                forall|k: int|
                    old(self).next_pending <= k < self.next_pending ==> #[trigger] old(self).skipped(
                        old(self).pending@[k]@,
                    ),
            decreases self.pending.len() - self.next_pending,
        {
            let index = self.next_pending;
            let id = self.pending[index].as_str();
            let skip = contains_id(&self.excluded, id) || contains_id(&self.visited, id);
            if !skip {
                let found = literal(id);
                let ghost before = self.visited@;
                self.visited.push(literal(id));
                self.next_pending = index + 1;
                proof {
                    assert(self.visited@.map_values(|v: String| v@) =~= before.map_values(|v: String| v@).push(
                        found@,
                    ));
                    assert forall|i: int, j: int| 0 <= i < j < self.visited@.len() implies #[trigger] self.visited@[i]@
                        != #[trigger] self.visited@[j]@ by {
                        if j == before.len() {
                            if self.visited@[i]@ == found@ {
                                assert(before[i]@ == found@);
                                assert(listed(before, found@));
                            }
                        }
                    }
                    assert forall|i: int| 0 <= i < self.visited@.len() implies !listed(
                        self.excluded@,
                        #[trigger] self.visited@[i]@,
                    ) by {
                        if i < before.len() {
                            assert(self.visited@[i] == before[i]);
                        }
                    }
                }
                return Some(found);
            }
            self.next_pending = index + 1;
        }
        None
    }

    /// Queues the parents of the commit just read.
    pub fn extend(&mut self, parents: Vec<String>)
        requires
            old(self).well_formed(),
        ensures
            final(self).well_formed(),
            final(self).excluded == old(self).excluded,
            final(self).visited == old(self).visited,
            final(self).next_pending == old(self).next_pending,
            final(self).pending@ == old(self).pending@ + parents@,
    {
        let mut parents = parents;
        let ghost added = parents@;
        self.pending.append(&mut parents);
        proof {
            assert(self.pending@ =~= old(self).pending@ + added);
        }
    }
}

/// The visited commits that are also in `unique`, in the order they were visited.
pub open spec fn found_among(visited: Seq<String>, unique: Seq<String>) -> Seq<String> {
    visited.filter(|id: String| listed(unique, id@))
}

/// Of the commits a walk visited, those that are among `unique`.
pub fn visited_among(visited: &Vec<String>, unique: &Vec<String>) -> (found: Vec<String>)
    ensures
        found@.map_values(|v: String| v@) == found_among(visited@, unique@).map_values(|v: String| v@),
{
    let mut found: Vec<String> = Vec::new();
    let mut i: usize = 0;
    while i < visited.len()
        invariant
            i <= visited.len(),
            found@.map_values(|v: String| v@) == found_among(visited@.take(i as int), unique@).map_values(
                |v: String| v@,
            ),
        decreases visited.len() - i,
    {
        proof {
            assert(visited@.take(i + 1).drop_last() =~= visited@.take(i as int));
            reveal(Seq::filter);
        }
        let ghost before = found@;
        if contains_id(unique, &visited[i]) {
            found.push(literal(visited[i].as_str()));
            proof {
                assert(found@.map_values(|v: String| v@) =~= before.map_values(|v: String| v@).push(visited@[i as int]@));
            }
        }
        i = i + 1;
    }
    proof {
        assert(visited@.take(visited@.len() as int) =~= visited@);
    }
    found
}

/// The first line of a commit message, trimmed: its subject.
pub open spec fn subject_of(message: Seq<char>) -> Seq<char> {
    trimmed(message.take(crate::git_output::first_index_of(message, '\n')))
}

/// The subject of a commit: the first line of its message without surrounding white space.
pub fn commit_subject(message: &str) -> (subject: String)
    ensures
        subject@ == subject_of(message@),
{
    let chars = chars_of(message);
    proof {
        crate::git_output::lemma_first_index_of(message@, '\n');
    }
    let mut first = String::new();
    let mut i: usize = 0;
    while i < chars.len() && chars[i] != '\n'
        invariant
            chars@ == message@,
            i <= chars.len(),
            first@ == message@.take(i as int),
            forall|j: int| 0 <= j < i ==> message@[j] != '\n',
        decreases chars.len() - i,
    {
        push_char(&mut first, chars[i]);
        i = i + 1;
        proof {
            assert(first@ =~= message@.take(i as int));
        }
    }
    proof {
        let k = crate::git_output::first_index_of(message@, '\n');
        if (i as int) < k {
            assert(message@[i as int] != '\n');
        }
        if k < (i as int) {
            assert(message@[k] == '\n');
        }
        assert(i as int == k);
    }
    let trimmed_chars = trim_chars(first.as_str());
    let mut subject = String::new();
    let mut j: usize = 0;
    while j < trimmed_chars.len()
        invariant
            j <= trimmed_chars.len(),
            subject@ == trimmed_chars@.take(j as int),
        decreases trimmed_chars.len() - j,
    {
        push_char(&mut subject, trimmed_chars[j]);
        j = j + 1;
        proof {
            assert(subject@ =~= trimmed_chars@.take(j as int));
        }
    }
    proof {
        assert(trimmed_chars@.take(trimmed_chars@.len() as int) =~= trimmed_chars@);
    }
    subject
}

/// The branch names tried when the remote names no default branch, in order.
pub open spec fn common_main_names() -> Seq<Seq<char>> {
    seq!["main"@, "master"@, "trunk"@, "develop"@]
}

/// The main branch: the explicit one, which must exist; else the branch the remote's
/// HEAD points at, when it exists; else the first of main, master, trunk and develop
/// that exists.
pub open spec fn main_branch_choice(
    explicit: Option<Seq<char>>,
    explicit_exists: bool,
    remote_head: Option<Seq<char>>,
    common_exist: Seq<bool>,
) -> Option<Seq<char>> {
    match explicit {
        Some(name) => if explicit_exists { Some(name) } else { None },
        None => match remote_head {
            Some(name) => Some(name),
            None => if common_exist[0] {
                Some(common_main_names()[0])
            } else if common_exist[1] {
                Some(common_main_names()[1])
            } else if common_exist[2] {
                Some(common_main_names()[2])
            } else if common_exist[3] {
                Some(common_main_names()[3])
            } else {
                None
            },
        },
    }
}

/// The message when no main branch can be found.
pub open spec fn no_main_message() -> Seq<char> {
    "could not determine the main branch from the remote default or common names; pass --main <BRANCH>"@
}

/// Decides the main branch from what the repository holds: whether the explicit branch
/// exists, the existing branch that the remote's HEAD names (if any), and which of the
/// common names exist. An explicit branch that does not exist is the lookup's error,
/// passed back unchanged.
pub fn choose_main_branch(
    explicit: Option<&str>,
    explicit_lookup: Result<(), CliError>,
    remote_head: Option<String>,
    common_exist: &Vec<bool>,
) -> (result: Result<String, CliError>)
    requires
        common_exist@.len() == 4,
    ensures
        match explicit {
            Some(name) => match explicit_lookup {
                Ok(_) => result matches Ok(main) && main@ == name@,
                Err(e) => result == Err::<String, CliError>(e),
            },
            None => match main_branch_choice(None, false, match remote_head {
                Some(h) => Some(h@),
                None => None,
            }, common_exist@) {
                Some(name) => result matches Ok(main) && main@ == name,
                None => result matches Err(CliError::Git(message)) && message@ == no_main_message(),
            },
        },
{
    proof {
        reveal_strlit("main");
        reveal_strlit("master");
        reveal_strlit("trunk");
        reveal_strlit("develop");
    }
    if let Some(name) = explicit {
        return match explicit_lookup {
            Ok(()) => Ok(literal(name)),
            Err(error) => Err(error),
        };
    }
    if let Some(head) = remote_head {
        return Ok(head);
    }
    if common_exist[0] {
        Ok(literal("main"))
    } else if common_exist[1] {
        Ok(literal("master"))
    } else if common_exist[2] {
        Ok(literal("trunk"))
    } else if common_exist[3] {
        Ok(literal("develop"))
    } else {
        Err(
            CliError::Git(
                literal(
                    "could not determine the main branch from the remote default or common names; pass --main <BRANCH>",
                ),
            ),
        )
    }
}

/// `a` sorts before `b`: compared character by character by code point, a proper
/// prefix first. This is the order of `str` comparison, since UTF-8 keeps code point
/// order byte by byte.
pub open spec fn text_less(a: Seq<char>, b: Seq<char>) -> bool
    decreases a.len(),
{
    if a.len() == 0 {
        b.len() > 0
    } else if b.len() == 0 {
        false
    } else if a[0] != b[0] {
        (a[0] as u32) < (b[0] as u32)
    } else {
        text_less(a.drop_first(), b.drop_first())
    }
}

pub(crate) proof fn lemma_text_less_transitive(a: Seq<char>, b: Seq<char>, c: Seq<char>)
    requires
        text_less(a, b),
        text_less(b, c),
    ensures
        text_less(a, c),
    decreases a.len(),
{
    if a.len() > 0 && b.len() > 0 && c.len() > 0 && a[0] == b[0] && b[0] == c[0] {
        lemma_text_less_transitive(a.drop_first(), b.drop_first(), c.drop_first());
    }
}

pub(crate) proof fn lemma_text_less_total(a: Seq<char>, b: Seq<char>)
    ensures
        a == b || text_less(a, b) || text_less(b, a),
        !(text_less(a, b) && text_less(b, a)),
    decreases a.len(),
{
    if a.len() > 0 && b.len() > 0 {
        if a[0] == b[0] {
            lemma_text_less_total(a.drop_first(), b.drop_first());
            if a.drop_first() == b.drop_first() {
                assert(a =~= seq![a[0]] + a.drop_first());
                assert(b =~= seq![b[0]] + b.drop_first());
            }
        } else {
            vstd::utf8::char_u32_cast(a[0], a[0] as u32);
            vstd::utf8::char_u32_cast(b[0], b[0] as u32);
            assert((a[0] as u32) != (b[0] as u32));
        }
    } else if a.len() == 0 && b.len() == 0 {
        assert(a =~= b);
    }
}

/// Whether `a` sorts before `b`.
pub fn text_before(a: &str, b: &str) -> (before: bool)
    ensures
        before == text_less(a@, b@),
{
    let x = chars_of(a);
    let y = chars_of(b);
    let mut i: usize = 0;
    proof {
        assert(a@.skip(0) =~= a@);
        assert(b@.skip(0) =~= b@);
    }
    while i < x.len() && i < y.len() && x[i] == y[i]
        invariant
            x@ == a@,
            y@ == b@,
            i <= x.len(),
            i <= y.len(),
            text_less(a@, b@) == text_less(a@.skip(i as int), b@.skip(i as int)),
        decreases x.len() - i,
    {
        proof {
            assert(a@.skip(i as int).drop_first() =~= a@.skip(i + 1));
            assert(b@.skip(i as int).drop_first() =~= b@.skip(i + 1));
        }
        i = i + 1;
    }
    if i == x.len() {
        i < y.len()
    } else if i == y.len() {
        false
    } else {
        proof {
            assert(a@.skip(i as int)[0] == x@[i as int]);
            assert(b@.skip(i as int)[0] == y@[i as int]);
        }
        (x[i] as u32) < (y[i] as u32)
    }
}

/// The listing order of commits: newer first, then by id.
pub open spec fn listed_before(a: (i64, String), b: (i64, String)) -> bool {
    a.0 > b.0 || (a.0 == b.0 && text_less(a.1@, b.1@))
}

proof fn lemma_listed_before_transitive(a: (i64, String), b: (i64, String), c: (i64, String))
    requires
        listed_before(a, b),
        listed_before(b, c),
    ensures
        listed_before(a, c),
{
    if a.0 == b.0 && b.0 == c.0 {
        lemma_text_less_transitive(a.1@, b.1@, c.1@);
    }
}

proof fn lemma_listed_before_asymmetric(a: (i64, String), b: (i64, String))
    ensures
        !(listed_before(a, b) && listed_before(b, a)),
{
    lemma_text_less_total(a.1@, b.1@);
}

/// `order` lists every position of `keys` exactly once.
pub open spec fn is_permutation(order: Seq<usize>, n: nat) -> bool {
    &&& order.len() == n
    &&& forall|i: int| 0 <= i < order.len() ==> #[trigger] order[i] < n
    &&& forall|i: int, j: int| 0 <= i < j < order.len() ==> #[trigger] order[i] != #[trigger] order[j]
}

/// No key listed later sorts before one listed earlier.
pub open spec fn in_listing_order(keys: Seq<(i64, String)>, order: Seq<usize>) -> bool {
    forall|i: int, j: int|
        0 <= i < j < order.len() ==> !listed_before(keys[#[trigger] order[j] as int], keys[#[trigger] order[i] as int])
}

/// The positions of `keys` in listing order: newest timestamp first, equal timestamps by
/// id. Sorting by name alone gives every key the same timestamp.
pub fn listing_order(keys: &Vec<(i64, String)>) -> (order: Vec<usize>)
    ensures
        is_permutation(order@, keys@.len()),
        in_listing_order(keys@, order@),
{
    let n = keys.len();
    let mut order: Vec<usize> = Vec::new();
    let mut i: usize = 0;
    while i < n
        invariant
            n == keys@.len(),
            i <= n,
            is_permutation(order@, i as nat),
            in_listing_order(keys@, order@),
        decreases n - i,
    {
        let mut p: usize = 0;
        while p < order.len() && !key_before(&keys[i], &keys[order[p]])
            invariant
                n == keys@.len(),
                i < n,
                is_permutation(order@, i as nat),
                p <= order@.len(),
                forall|q: int| 0 <= q < p ==> !listed_before(keys@[i as int], keys@[#[trigger] order@[q] as int]),
            decreases order@.len() - p,
        {
            p = p + 1;
        }
        let ghost before = order@;
        proof {
            if p < before.len() {
                assert(listed_before(keys@[i as int], keys@[before[p as int] as int]));
            }
        }
        order.insert(p, i);
        proof {
            assert(order@ =~= before.take(p as int).push(i).add(before.skip(p as int)));
            assert forall|x: int| 0 <= x < order@.len() implies #[trigger] order@[x] < (i + 1) as nat by {
                if x < p {
                    assert(order@[x] == before[x]);
                } else if x > p {
                    assert(order@[x] == before[x - 1]);
                }
            }
            assert forall|x: int, y: int| 0 <= x < y < order@.len() implies #[trigger] order@[x] != #[trigger] order@[y] by {
                if x < p && y < p {
                    assert(order@[x] == before[x] && order@[y] == before[y]);
                } else if x < p && y > p {
                    assert(order@[x] == before[x] && order@[y] == before[y - 1]);
                } else if x > p {
                    assert(order@[x] == before[x - 1] && order@[y] == before[y - 1]);
                } else if x == p {
                    assert(order@[y] == before[y - 1]);
                } else {
                    assert(order@[x] == before[x]);
                }
            }
            assert forall|x: int, y: int| 0 <= x < y < order@.len() implies !listed_before(
                keys@[#[trigger] order@[y] as int],
                keys@[#[trigger] order@[x] as int],
            ) by {
                if y < p {
                    assert(order@[x] == before[x] && order@[y] == before[y]);
                } else if y == p {
                    assert(order@[x] == before[x]);
                } else if x < p {
                    assert(order@[x] == before[x] && order@[y] == before[y - 1]);
                } else if x == p {
                    let later = before[y - 1];
                    assert(order@[y] == later);
                    if listed_before(keys@[later as int], keys@[i as int]) {
                        if y - 1 == p {
                            lemma_listed_before_asymmetric(keys@[i as int], keys@[later as int]);
                        } else {
                            lemma_listed_before_transitive(
                                keys@[later as int],
                                keys@[i as int],
                                keys@[before[p as int] as int],
                            );
                        }
                    }
                } else {
                    assert(order@[x] == before[x - 1] && order@[y] == before[y - 1]);
                }
            }
        }
        i = i + 1;
    }
    order
}

fn key_before(a: &(i64, String), b: &(i64, String)) -> (before: bool)
    ensures
        before == listed_before(*a, *b),
{
    a.0 > b.0 || (a.0 == b.0 && text_before(&a.1, &b.1))
}

/// Whether `tip` needs an author timestamp: the environment holds it, main does not, and
/// no earlier feature has the same tip.
pub open spec fn needs_timestamp(tips: Seq<String>, i: int, environment: Seq<String>, main: Seq<String>) -> bool {
    &&& listed(environment, tips[i]@)
    &&& !listed(main, tips[i]@)
    &&& forall|j: int| 0 <= j < i ==> #[trigger] tips[j]@ != tips[i]@
}

/// The positions of the feature tips whose author timestamps order an inventory: the
/// tips the environment holds and main does not, each once.
pub fn timestamp_tips(tips: &Vec<String>, environment: &Vec<String>, main: &Vec<String>) -> (chosen: Vec<usize>)
    ensures
        forall|k: int| 0 <= k < chosen@.len() ==> #[trigger] chosen@[k] < tips@.len(),
        forall|k: int, l: int| 0 <= k < l < chosen@.len() ==> #[trigger] chosen@[k] < #[trigger] chosen@[l],
        forall|i: int|
            0 <= i < tips@.len() ==> (needs_timestamp(tips@, i, environment@, main@) <==> exists|k: int|
                0 <= k < chosen@.len() && #[trigger] chosen@[k] == i),
{
    let mut chosen: Vec<usize> = Vec::new();
    let mut i: usize = 0;
    while i < tips.len()
        invariant
            i <= tips.len(),
            forall|k: int| 0 <= k < chosen@.len() ==> #[trigger] chosen@[k] < i,
            forall|k: int, l: int| 0 <= k < l < chosen@.len() ==> #[trigger] chosen@[k] < #[trigger] chosen@[l],
            forall|x: int|
                0 <= x < i ==> (needs_timestamp(tips@, x, environment@, main@) <==> exists|k: int|
                    0 <= k < chosen@.len() && #[trigger] chosen@[k] == x),
        decreases tips.len() - i,
    {
        let tip = tips[i].as_str();
        let mut seen = false;
        let mut j: usize = 0;
        while j < i
            invariant
                i < tips.len(),
                j <= i,
                tip@ == tips@[i as int]@,
                seen == exists|m: int| 0 <= m < j && #[trigger] tips@[m]@ == tip@,
            decreases i - j,
        {
            if same_text(&tips[j], tip) {
                seen = true;
            }
            j = j + 1;
        }
        let ghost before = chosen@;
        if !seen && contains_id(environment, tip) && !contains_id(main, tip) {
            chosen.push(i);
        }
        proof {
            assert forall|x: int|
                0 <= x < i + 1 implies (needs_timestamp(tips@, x, environment@, main@) <==> exists|k: int|
                    0 <= k < chosen@.len() && #[trigger] chosen@[k] == x) by {
                if x < i {
                    if exists|k: int| 0 <= k < before.len() && #[trigger] before[k] == x {
                        let k = choose|k: int| 0 <= k < before.len() && #[trigger] before[k] == x;
                        assert(chosen@[k] == x);
                    }
                    if exists|k: int| 0 <= k < chosen@.len() && #[trigger] chosen@[k] == x {
                        let k = choose|k: int| 0 <= k < chosen@.len() && #[trigger] chosen@[k] == x;
                        if k == before.len() {
                            assert(chosen@[k] == i);
                        } else {
                            assert(before[k] == x);
                        }
                    }
                } else {
                    if needs_timestamp(tips@, x, environment@, main@) {
                        assert(chosen@[before.len() as int] == i);
                    }
                    if exists|k: int| 0 <= k < chosen@.len() && #[trigger] chosen@[k] == x {
                        let k = choose|k: int| 0 <= k < chosen@.len() && #[trigger] chosen@[k] == x;
                        if k < before.len() {
                            assert(before[k] < i);
                        }
                    }
                }
            }
        }
        i = i + 1;
    }
    chosen
}

/// The branch a remote-tracking ref names, when it lies under `prefix`.
pub open spec fn branch_under(full_name: Seq<char>, prefix: Seq<char>) -> Option<Seq<char>> {
    if prefix.len() <= full_name.len() && full_name.subrange(0, prefix.len() as int) == prefix {
        Some(full_name.skip(prefix.len() as int))
    } else {
        None
    }
}

/// Whether the ref at position `i` names a feature branch: it lies under the remote's
/// prefix and is not the environment, main, a known environment, `HEAD` or a backup.
pub open spec fn is_feature_ref(full_names: Seq<String>, i: int, prefix: Seq<char>, environment: Seq<char>, main: Seq<
    char,
>) -> bool {
    branch_under(full_names[i]@, prefix) matches Some(branch) && !crate::refs::is_excluded_branch(
        branch,
        environment,
        main,
    )
}

/// The feature branches among a remote's refs, sorted by name: for each, the position of
/// its ref and the branch name without the prefix.
pub fn feature_branches(full_names: &Vec<String>, prefix: &str, environment: &str, main: &str) -> (branches: Vec<
    (usize, String),
>)
    ensures
        forall|k: int|
            0 <= k < branches@.len() ==> #[trigger] branches@[k].0 < full_names@.len() && is_feature_ref(
                full_names@,
                branches@[k].0 as int,
                prefix@,
                environment@,
                main@,
            ) && branch_under(full_names@[branches@[k].0 as int]@, prefix@) == Some(branches@[k].1@),
        forall|k: int, l: int| 0 <= k < l < branches@.len() ==> #[trigger] branches@[k].0 != #[trigger] branches@[l].0,
        forall|i: int|
            0 <= i < full_names@.len() && is_feature_ref(full_names@, i, prefix@, environment@, main@) ==> exists|k: int|
                0 <= k < branches@.len() && #[trigger] branches@[k].0 == i,
        forall|k: int, l: int|
            0 <= k < l < branches@.len() ==> !text_less(#[trigger] branches@[l].1@, #[trigger] branches@[k].1@),
{
    let mut kept: Vec<(usize, String)> = Vec::new();
    let mut keys: Vec<(i64, String)> = Vec::new();
    let mut i: usize = 0;
    while i < full_names.len()
        invariant
            i <= full_names.len(),
            keys@.len() == kept@.len(),
            forall|k: int| 0 <= k < kept@.len() ==> #[trigger] kept@[k].0 < i && is_feature_ref(
                full_names@,
                kept@[k].0 as int,
                prefix@,
                environment@,
                main@,
            ) && branch_under(full_names@[kept@[k].0 as int]@, prefix@) == Some(kept@[k].1@) && keys@[k].0 == 0
                && keys@[k].1@ == kept@[k].1@,
            forall|k: int, l: int| 0 <= k < l < kept@.len() ==> #[trigger] kept@[k].0 < #[trigger] kept@[l].0,
            forall|x: int|
                0 <= x < i && is_feature_ref(full_names@, x, prefix@, environment@, main@) ==> exists|k: int|
                    0 <= k < kept@.len() && #[trigger] kept@[k].0 == x,
        decreases full_names.len() - i,
    {
        let name = full_names[i].as_str();
        if crate::text_compare::starts_with_text(name, prefix) {
            let chars = chars_of(name);
            let start = chars_of(prefix).len();
            let mut branch = String::new();
            let mut c: usize = start;
            while c < chars.len()
                invariant
                    chars@ == name@,
                    start <= c <= chars.len(),
                    branch@ == name@.subrange(start as int, c as int),
                decreases chars.len() - c,
            {
                push_char(&mut branch, chars[c]);
                c = c + 1;
                proof {
                    assert(branch@ =~= name@.subrange(start as int, c as int));
                }
            }
            proof {
                assert(branch@ =~= name@.skip(prefix@.len() as int));
            }
            if !crate::refs::excluded_branch(branch.as_str(), environment, main) {
                let ghost before_kept = kept@;
                keys.push((0, literal(branch.as_str())));
                kept.push((i, branch));
                proof {
                    assert forall|x: int|
                        0 <= x < i + 1 && is_feature_ref(full_names@, x, prefix@, environment@, main@) implies exists|k: int|
                            0 <= k < kept@.len() && #[trigger] kept@[k].0 == x by {
                        if x == i {
                            assert(kept@[before_kept.len() as int].0 == i);
                        } else {
                            let k = choose|k: int| 0 <= k < before_kept.len() && #[trigger] before_kept[k].0 == x;
                            assert(kept@[k].0 == x);
                        }
                    }
                }
            }
        }
        i = i + 1;
    }
    let order = listing_order(&keys);
    let mut branches: Vec<(usize, String)> = Vec::new();
    let mut m: usize = 0;
    while m < order.len()
        invariant
            is_permutation(order@, keys@.len()),
            in_listing_order(keys@, order@),
            keys@.len() == kept@.len(),
            forall|k: int| 0 <= k < kept@.len() ==> #[trigger] kept@[k].0 < full_names@.len() && is_feature_ref(
                full_names@,
                kept@[k].0 as int,
                prefix@,
                environment@,
                main@,
            ) && branch_under(full_names@[kept@[k].0 as int]@, prefix@) == Some(kept@[k].1@) && keys@[k].0 == 0
                && keys@[k].1@ == kept@[k].1@,
            m <= order@.len(),
            branches@.len() == m,
            forall|k: int| 0 <= k < m ==> #[trigger] branches@[k].0 == kept@[order@[k] as int].0 && branches@[k].1@
                == kept@[order@[k] as int].1@,
        decreases order.len() - m,
    {
        let at = order[m];
        branches.push((kept[at].0, literal(kept[at].1.as_str())));
        m = m + 1;
    }
    proof {
        assert forall|k: int, l: int| 0 <= k < l < branches@.len() implies #[trigger] branches@[k].0
            != #[trigger] branches@[l].0 by {
            assert(order@[k] != order@[l]);
        }
        assert forall|x: int|
            0 <= x < full_names@.len() && is_feature_ref(full_names@, x, prefix@, environment@, main@) implies exists|k: int|
                0 <= k < branches@.len() && #[trigger] branches@[k].0 == x by {
            let p = choose|p: int| 0 <= p < kept@.len() && #[trigger] kept@[p].0 == x;
            lemma_permutation_covers(order@, keys@.len(), p);
            let k = choose|k: int| 0 <= k < order@.len() && #[trigger] order@[k] == p;
            assert(branches@[k].0 == x);
        }
        assert forall|k: int, l: int| 0 <= k < l < branches@.len() implies !text_less(
            #[trigger] branches@[l].1@,
            #[trigger] branches@[k].1@,
        ) by {
            let a = order@[k] as int;
            let b = order@[l] as int;
            assert(0 <= a < kept@.len() && 0 <= b < kept@.len());
            assert(kept@[a].0 < full_names@.len() && kept@[b].0 < full_names@.len());
            assert(keys@[a].0 == 0 && keys@[a].1@ == kept@[a].1@);
            assert(keys@[b].0 == 0 && keys@[b].1@ == kept@[b].1@);
            assert(!listed_before(keys@[b], keys@[a]));
        }
    }
    branches
}

/// A permutation of `0..n` lists every position.
pub(crate) proof fn lemma_permutation_covers(order: Seq<usize>, n: nat, p: int)
    requires
        is_permutation(order, n),
        0 <= p < n,
    ensures
        exists|k: int| 0 <= k < order.len() && #[trigger] order[k] == p,
{
    if !exists|k: int| 0 <= k < order.len() && #[trigger] order[k] == p {
        let values = order.to_set();
        order.unique_seq_to_set();
        let below = Set::new(|v: usize| v < n && v != p);
        assert(values.subset_of(below));
        lemma_below_except_len(n, p);
        vstd::set_lib::lemma_len_subset(values, below);
        assert(false);
    }
}

proof fn lemma_below_except_len(n: nat, p: int)
    requires
        0 <= p < n,
    ensures
        Set::new(|v: usize| v < n && v != p).finite(),
        Set::new(|v: usize| v < n && v != p).len() < n,
    decreases n,
{
    let s = Set::new(|v: usize| v < n && v != p);
    if n == 1 {
        assert(s =~= Set::<usize>::empty());
    } else if p == n - 1 {
        lemma_below_len((n - 1) as nat);
        assert(s =~= Set::new(|v: usize| v < (n - 1) as nat));
    } else {
        lemma_below_except_len((n - 1) as nat, p);
        let smaller = Set::new(|v: usize| v < (n - 1) as nat && v != p);
        if n - 1 <= usize::MAX {
            assert(s =~= smaller.insert((n - 1) as usize));
        } else {
            assert(s =~= smaller);
        }
    }
}

proof fn lemma_below_len(n: nat)
    ensures
        Set::new(|v: usize| v < n).finite(),
        Set::new(|v: usize| v < n).len() <= n,
    decreases n,
{
    if n == 0 {
        assert(Set::new(|v: usize| v < 0nat) =~= Set::<usize>::empty());
    } else {
        lemma_below_len((n - 1) as nat);
        let smaller = Set::new(|v: usize| v < (n - 1) as nat);
        let all = Set::new(|v: usize| v < n);
        if n - 1 <= usize::MAX {
            assert(all =~= smaller.insert((n - 1) as usize));
        } else {
            assert(all =~= smaller);
        }
    }
}

/// A commit that promotion can carry: its id and abbreviation, subject, author and date.
#[derive(Clone, Debug)]
pub struct PromotionCommit {
    pub id: String,
    pub short_id: String,
    pub subject: String,
    pub author: String,
    pub date: String,
}

/// The first seven characters of a commit id.
pub open spec fn short_id_of(id: Seq<char>) -> Seq<char> {
    if id.len() <= 7 { id } else { id.take(7) }
}

/// The row of a commit from what its object holds: the id, the author's name and time,
/// and the raw message.
pub fn promotion_commit(id: &str, author: &str, seconds: i64, message: &str) -> (commit: PromotionCommit)
    ensures
        commit.id@ == id@,
        commit.short_id@ == short_id_of(id@),
        commit.subject@ == subject_of(message@),
        commit.author@ == author@,
        commit.date@ == crate::refs::date_text(seconds as int),
{
    let chars = chars_of(id);
    let mut short_id = String::new();
    let mut i: usize = 0;
    while i < chars.len() && i < 7
        invariant
            chars@ == id@,
            i <= chars.len(),
            i <= 7,
            short_id@ == id@.take(i as int),
        decreases chars.len() - i,
    {
        push_char(&mut short_id, chars[i]);
        i = i + 1;
        proof {
            assert(short_id@ =~= id@.take(i as int));
        }
    }
    proof {
        if id@.len() <= 7 {
            assert(id@.take(i as int) =~= id@);
        }
    }
    PromotionCommit {
        id: literal(id),
        short_id,
        subject: commit_subject(message),
        author: literal(author),
        date: crate::refs::unix_date(seconds),
    }
}

/// The row of a commit that a rebuild drops: id, subject, author and date.
pub fn dropped_commit(id: &str, author: &str, seconds: i64, message: &str) -> (row: crate::machine_json::OrphanedCommit)
    ensures
        row.commit@ == id@,
        row.subject@ == subject_of(message@),
        row.author@ == author@,
        row.date@ == crate::refs::date_text(seconds as int),
{
    crate::machine_json::OrphanedCommit {
        commit: literal(id),
        subject: commit_subject(message),
        author: literal(author),
        date: crate::refs::unix_date(seconds),
    }
}

/// Why a branch named for promotion cannot be promoted, if it cannot: it is not a
/// feature branch, it does not exist, main already holds it, or the environment does not.
pub open spec fn promotion_refusal(
    branch: Seq<char>,
    tip: Option<Seq<char>>,
    environment: Seq<char>,
    main: Seq<char>,
    environment_ancestors: Seq<String>,
    main_ancestors: Seq<String>,
) -> Option<Seq<char>> {
    let quoted = "--params branch `"@ + branch + "` "@;
    if crate::refs::is_excluded_branch(branch, environment, main) {
        Some(quoted + "is not a selectable feature branch"@)
    } else {
        match tip {
            None => Some(quoted + "does not exist on the selected remote"@),
            Some(id) => if listed(main_ancestors, id) {
                Some(quoted + "has already reached `"@ + main + "`"@)
            } else if !listed(environment_ancestors, id) {
                Some(quoted + "has not reached `"@ + environment + "`"@)
            } else {
                None
            },
        }
    }
}

/// Checks a branch named for promotion, given the tip its remote ref resolves to.
pub fn check_promotion_branch(
    branch: &str,
    tip: Option<&str>,
    environment: &str,
    main: &str,
    environment_ancestors: &Vec<String>,
    main_ancestors: &Vec<String>,
) -> (result: Result<(), CliError>)
    ensures
        match promotion_refusal(branch@, match tip {
            Some(t) => Some(t@),
            None => None,
        }, environment@, main@, environment_ancestors@, main_ancestors@) {
            None => result is Ok,
            Some(message) => result matches Err(CliError::InvalidInput(m)) && m@ == message,
        },
{
    let mut message = literal("--params branch `");
    crate::text::push_str(&mut message, branch);
    crate::text::push_str(&mut message, "` ");
    if crate::refs::excluded_branch(branch, environment, main) {
        crate::text::push_str(&mut message, "is not a selectable feature branch");
        return Err(CliError::InvalidInput(message));
    }
    match tip {
        None => {
            crate::text::push_str(&mut message, "does not exist on the selected remote");
            Err(CliError::InvalidInput(message))
        },
        Some(id) => {
            if contains_id(main_ancestors, id) {
                crate::text::push_str(&mut message, "has already reached `");
                crate::text::push_str(&mut message, main);
                crate::text::push_str(&mut message, "`");
                Err(CliError::InvalidInput(message))
            } else if !contains_id(environment_ancestors, id) {
                crate::text::push_str(&mut message, "has not reached `");
                crate::text::push_str(&mut message, environment);
                crate::text::push_str(&mut message, "`");
                Err(CliError::InvalidInput(message))
            } else {
                Ok(())
            }
        },
    }
}

/// The positions of the tips that the environment holds and main does not, in order.
pub fn promotable_positions(
    tips: &Vec<String>,
    environment_ancestors: &Vec<String>,
    main_ancestors: &Vec<String>,
) -> (positions: Vec<usize>)
    ensures
        forall|k: int| 0 <= k < positions@.len() ==> #[trigger] positions@[k] < tips@.len(),
        forall|k: int, l: int| 0 <= k < l < positions@.len() ==> #[trigger] positions@[k] < #[trigger] positions@[l],
        forall|i: int|
            0 <= i < tips@.len() ==> (listed(environment_ancestors@, tips@[i]@) && !listed(main_ancestors@, tips@[i]@)
                <==> exists|k: int| 0 <= k < positions@.len() && #[trigger] positions@[k] == i),
{
    let mut positions: Vec<usize> = Vec::new();
    let mut i: usize = 0;
    while i < tips.len()
        invariant
            i <= tips.len(),
            forall|k: int| 0 <= k < positions@.len() ==> #[trigger] positions@[k] < i,
            forall|k: int, l: int| 0 <= k < l < positions@.len() ==> #[trigger] positions@[k] < #[trigger] positions@[l],
            forall|x: int|
                0 <= x < i ==> (listed(environment_ancestors@, tips@[x]@) && !listed(main_ancestors@, tips@[x]@)
                    <==> exists|k: int| 0 <= k < positions@.len() && #[trigger] positions@[k] == x),
        decreases tips.len() - i,
    {
        let ghost before = positions@;
        if contains_id(environment_ancestors, &tips[i]) && !contains_id(main_ancestors, &tips[i]) {
            positions.push(i);
        }
        proof {
            assert forall|x: int|
                0 <= x < i + 1 implies (listed(environment_ancestors@, tips@[x]@) && !listed(main_ancestors@, tips@[x]@)
                    <==> exists|k: int| 0 <= k < positions@.len() && #[trigger] positions@[k] == x) by {
                if exists|k: int| 0 <= k < positions@.len() && #[trigger] positions@[k] == x {
                    let k = choose|k: int| 0 <= k < positions@.len() && #[trigger] positions@[k] == x;
                    if k < before.len() {
                        assert(before[k] == x);
                    }
                }
                if x < i && exists|k: int| 0 <= k < before.len() && #[trigger] before[k] == x {
                    let k = choose|k: int| 0 <= k < before.len() && #[trigger] before[k] == x;
                    assert(positions@[k] == x);
                }
                if x == i && listed(environment_ancestors@, tips@[x]@) && !listed(main_ancestors@, tips@[x]@) {
                    assert(positions@[before.len() as int] == i);
                }
            }
        }
        i = i + 1;
    }
    positions
}

/// The captured row of commit `id`: the last row recorded for it.
pub open spec fn row_for(rows: Seq<crate::machine_json::OrphanedCommit>, id: Seq<char>) -> Option<crate::machine_json::OrphanedCommit>
    decreases rows.len(),
{
    if rows.len() == 0 {
        None
    } else if rows.last().commit@ == id {
        Some(rows.last())
    } else {
        row_for(rows.drop_last(), id)
    }
}

/// The rows are the same commit, subject, author and date.
pub open spec fn same_row(a: crate::machine_json::OrphanedCommit, b: crate::machine_json::OrphanedCommit) -> bool {
    a.commit@ == b.commit@ && a.subject@ == b.subject@ && a.author@ == b.author@ && a.date@ == b.date@
}

fn copy_row(row: &crate::machine_json::OrphanedCommit) -> (copy: crate::machine_json::OrphanedCommit)
    ensures
        same_row(copy, *row),
{
    crate::machine_json::OrphanedCommit {
        commit: literal(row.commit.as_str()),
        subject: literal(row.subject.as_str()),
        author: literal(row.author.as_str()),
        date: literal(row.date.as_str()),
    }
}

/// The error of an orphaned commit whose row was not captured.
pub open spec fn is_uncaptured_orphan(error: CliError, id: Seq<char>) -> bool {
    let details = crate::restack_errors::details_of(error);
    &&& crate::restack::is_machine(
        error,
        crate::error::MachineKind::Failure,
        "inspection_failed"@,
        "an orphaned commit was not captured during inspection"@,
    )
    &&& details.len() == 2
    &&& crate::restack_errors::is_text_entry(details[0], "commit"@, id)
    &&& crate::restack_errors::is_text_entry(details[1], "stage"@, "orphans"@)
}

/// The rows of the commits a rebuild drops, in the order of `ids`, from the rows
/// captured during inspection; the first id without a captured row is an error.
pub fn orphan_rows(ids: &Vec<String>, rows: &Vec<crate::machine_json::OrphanedCommit>) -> (result: Result<
    Vec<crate::machine_json::OrphanedCommit>,
    CliError,
>)
    ensures
        match result {
            Ok(found) => found@.len() == ids@.len() && forall|k: int|
                0 <= k < ids@.len() ==> (row_for(rows@, #[trigger] ids@[k]@) matches Some(row) && same_row(found@[k], row)),
            Err(e) => exists|k: int|
                0 <= k < ids@.len() && row_for(rows@, #[trigger] ids@[k]@) is None && is_uncaptured_orphan(e, ids@[k]@)
                    && forall|j: int| 0 <= j < k ==> row_for(rows@, #[trigger] ids@[j]@) is Some,
        },
{
    let mut found: Vec<crate::machine_json::OrphanedCommit> = Vec::new();
    let mut k: usize = 0;
    while k < ids.len()
        invariant
            k <= ids@.len(),
            found@.len() == k,
            forall|j: int| 0 <= j < k ==> (row_for(rows@, #[trigger] ids@[j]@) matches Some(row) && same_row(found@[j], row)),
        decreases ids.len() - k,
    {
        let id = ids[k].as_str();
        let mut r: usize = rows.len();
        let mut hit: Option<usize> = None;
        proof {
            assert(rows@.take(r as int) =~= rows@);
        }
        while r > 0 && hit.is_none()
            invariant
                r <= rows@.len(),
                match hit {
                    None => row_for(rows@, id@) == row_for(rows@.take(r as int), id@),
                    Some(at) => at < rows@.len() && row_for(rows@, id@) == Some(rows@[at as int]),
                },
            decreases r + (if hit is None { 1int } else { 0int }),
        {
            proof {
                assert(rows@.take(r as int).drop_last() =~= rows@.take(r - 1));
            }
            if same_text(&rows[r - 1].commit, id) {
                hit = Some(r - 1);
            } else {
                r = r - 1;
            }
        }
        match hit {
            Some(at) => {
                let ghost before = found@;
                found.push(copy_row(&rows[at]));
                proof {
                    assert forall|j: int| 0 <= j < k + 1 implies (row_for(rows@, #[trigger] ids@[j]@) matches Some(row)
                        && same_row(found@[j], row)) by {
                        if j < k {
                            assert(found@[j] == before[j]);
                        }
                    }
                }
            },
            None => {
                let mut details: Vec<(String, crate::error::DetailValue)> = Vec::new();
                details.push((literal("commit"), crate::error::DetailValue::Text(literal(id))));
                details.push((literal("stage"), crate::error::DetailValue::Text(literal("orphans"))));
                proof {
                    reveal_strlit("commit");
                    reveal_strlit("stage");
                    reveal_strlit("orphans");
                    assert(rows@.take(0) =~= Seq::<crate::machine_json::OrphanedCommit>::empty());
                }
                return Err(
                    crate::error::machine_failure(
                        "inspection_failed",
                        "an orphaned commit was not captured during inspection",
                        details,
                    ),
                );
            },
        }
        k = k + 1;
    }
    Ok(found)
}

/// A feature ref never names the environment, the main branch, a known environment,
/// `HEAD` or a backup branch.
pub proof fn lemma_feature_refs_exclude_environments(
    full_names: Seq<String>,
    i: int,
    prefix: Seq<char>,
    environment: Seq<char>,
    main: Seq<char>,
)
    requires
        is_feature_ref(full_names, i, prefix, environment, main),
    ensures
        branch_under(full_names[i]@, prefix) matches Some(branch) && branch != "qa"@ && branch != "staging"@
            && branch != "cycle"@ && branch != "HEAD"@ && branch != environment && branch != main
            && !"backup/"@.is_prefix_of(branch),
{
    let branch = branch_under(full_names[i]@, prefix).unwrap();
    crate::refs::lemma_excluded_branches(branch.skip(7), environment, main);
    reveal_strlit("backup/");
    if "backup/"@.is_prefix_of(branch) {
        assert(branch =~= "backup/"@ + branch.skip(7));
    }
}

/// The main branch: an explicit one when it exists and none when it does not; without
/// one, the branch the remote's HEAD names; without either, the first of main, master,
/// trunk and develop that exists, and none only when none of them exists.
pub proof fn lemma_main_branch_choice(
    explicit: Option<Seq<char>>,
    explicit_exists: bool,
    remote_head: Option<Seq<char>>,
    common_exist: Seq<bool>,
    i: int,
)
    requires
        common_exist.len() == 4,
        0 <= i < 4,
    ensures
        explicit matches Some(name) ==> main_branch_choice(explicit, explicit_exists, remote_head, common_exist)
            == if explicit_exists { Some(name) } else { None },
        remote_head matches Some(head) ==> main_branch_choice(None, explicit_exists, remote_head, common_exist)
            == Some(head),
        (common_exist[i] && forall|j: int| 0 <= j < i ==> !#[trigger] common_exist[j]) ==> main_branch_choice(
            None,
            explicit_exists,
            None,
            common_exist,
        ) == Some(seq!["main"@, "master"@, "trunk"@, "develop"@][i]),
        (forall|j: int| 0 <= j < 4 ==> !#[trigger] common_exist[j]) ==> main_branch_choice(
            None,
            explicit_exists,
            None,
            common_exist,
        ) is None,
{
    if forall|j: int| 0 <= j < 4 ==> !#[trigger] common_exist[j] {
        assert(!common_exist[0] && !common_exist[1] && !common_exist[2] && !common_exist[3]);
    }
    if common_exist[i] && forall|j: int| 0 <= j < i ==> !#[trigger] common_exist[j] {
        if i >= 1 {
            assert(!common_exist[0]);
        }
        if i >= 2 {
            assert(!common_exist[1]);
        }
        if i >= 3 {
            assert(!common_exist[2]);
        }
    }
}

} // verus!

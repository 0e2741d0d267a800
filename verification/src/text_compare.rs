//! Character-level comparisons of text.

use vstd::prelude::*;

verus! {

/// The characters of `s`, one vector element each.
pub fn chars_of(s: &str) -> (chars: Vec<char>)
    ensures
        chars@ == s@,
{
    let mut chars = Vec::new();
    for c in it: s.chars()
        invariant
            it.seq() == s@,
            chars@ == s@.subrange(0, it.index() as int),
    {
        chars.push(c);
        proof {
            assert(chars@ =~= s@.subrange(0, it.index() + 1));
        }
    }
    proof {
        assert(s@.subrange(0, s@.len() as int) =~= s@);
    }
    chars
}

/// Whether two texts have the same characters.
pub fn same_text(a: &str, b: &str) -> (result: bool)
    ensures
        result == (a@ == b@),
{
    let x = chars_of(a);
    let y = chars_of(b);
    if x.len() != y.len() {
        return false;
    }
    let mut i: usize = 0;
    while i < x.len()
        invariant
            x@ == a@,
            y@ == b@,
            x.len() == y.len(),
            i <= x.len(),
            forall|j: int| 0 <= j < i ==> x@[j] == y@[j],
        decreases x.len() - i,
    {
        if x[i] != y[i] {
            return false;
        }
        i = i + 1;
    }
    proof {
        assert(a@ =~= b@);
    }
    true
}

/// Whether `value` begins with the characters of `prefix`.
pub fn starts_with_text(value: &str, prefix: &str) -> (result: bool)
    ensures
        result == (prefix@.len() <= value@.len() && value@.subrange(0, prefix@.len() as int)
            == prefix@),
{
    let x = chars_of(value);
    let p = chars_of(prefix);
    if p.len() > x.len() {
        return false;
    }
    let mut i: usize = 0;
    while i < p.len()
        invariant
            x@ == value@,
            p@ == prefix@,
            p.len() <= x.len(),
            i <= p.len(),
            forall|j: int| 0 <= j < i ==> x@[j] == p@[j],
        decreases p.len() - i,
    {
        if x[i] != p[i] {
            proof {
                assert(value@.subrange(0, prefix@.len() as int)[i as int] == x@[i as int]);
            }
            return false;
        }
        i = i + 1;
    }
    proof {
        assert(value@.subrange(0, prefix@.len() as int) =~= prefix@);
    }
    true
}

/// Unicode white space (`char::is_whitespace`).
pub open spec fn is_whitespace_spec(c: char) -> bool {
    let v = c as u32;
    (0x9 <= v && v <= 0xd) || v == 0x20 || v == 0x85 || v == 0xa0 || v == 0x1680 || (0x2000 <= v
        && v <= 0x200a) || v == 0x2028 || v == 0x2029 || v == 0x202f || v == 0x205f || v == 0x3000
}

/// Whether `c` is Unicode white space.
pub fn is_whitespace(c: char) -> (result: bool)
    ensures
        result == is_whitespace_spec(c),
{
    let v = c as u32;
    (0x9 <= v && v <= 0xd) || v == 0x20 || v == 0x85 || v == 0xa0 || v == 0x1680 || (0x2000 <= v
        && v <= 0x200a) || v == 0x2028 || v == 0x2029 || v == 0x202f || v == 0x205f || v == 0x3000
}

/// Every character of `value` is white space, so trimming it leaves nothing.
pub open spec fn is_blank(value: Seq<char>) -> bool {
    forall|i: int| 0 <= i < value.len() ==> is_whitespace_spec(#[trigger] value[i])
}

/// Whether `value.trim()` is empty.
pub fn trims_to_empty(value: &str) -> (result: bool)
    ensures
        result == is_blank(value@),
{
    let mut blank = true;
    for c in it: value.chars()
        invariant
            it.seq() == value@,
            blank == is_blank(value@.subrange(0, it.index() as int)),
    {
        proof {
            assert(value@.subrange(0, it.index() as int) =~= value@.subrange(0, it.index() + 1).drop_last());
        }
        if !is_whitespace(c) {
            blank = false;
            proof {
                assert(value@.subrange(0, it.index() + 1)[it.index() as int] == c);
            }
        }
        proof {
            let next = value@.subrange(0, it.index() + 1);
            if blank {
                assert forall|i: int| 0 <= i < next.len() implies is_whitespace_spec(#[trigger] next[i]) by {
                    if i < it.index() {
                        assert(next[i] == value@.subrange(0, it.index() as int)[i]);
                    }
                }
            } else {
                if is_blank(value@.subrange(0, it.index() as int)) {
                    assert(next[it.index() as int] == c);
                } else {
                    let k = choose|k: int| 0 <= k < it.index() && !is_whitespace_spec(#[trigger] value@.subrange(0, it.index() as int)[k]);
                    assert(next[k] == value@.subrange(0, it.index() as int)[k]);
                }
            }
        }
    }
    proof {
        assert(value@.subrange(0, value@.len() as int) =~= value@);
    }
    blank
}

} // verus!

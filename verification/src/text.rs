//! String building blocks shared by the text-producing modules.

use vstd::prelude::*;

verus! {

/// Appends one character to a string (`String::push`).
#[verifier::external_body]
pub(crate) fn push_char(s: &mut String, c: char)
    ensures
        final(s)@ == old(s)@.push(c),
{
    s.push(c);
}

/// Appends the characters of `other` to `s`.
pub fn push_str(s: &mut String, other: &str)
    ensures
        final(s)@ == old(s)@ + other@,
{
    let ghost start = s@;
    for c in it: other.chars()
        invariant
            it.seq() == other@,
            s@ == start + other@.subrange(0, it.index() as int),
    {
        push_char(s, c);
        proof {
            assert(other@.subrange(0, it.index() + 1) =~= other@.subrange(0, it.index() as int).push(c));
        }
    }
    proof {
        assert(other@.subrange(0, other@.len() as int) =~= other@);
    }
}

/// The characters of a string literal, made available to the verifier.
pub fn literal(s: &str) -> (result: String)
    ensures
        result@ == s@,
{
    s.to_owned()
}

/// Decimal digits of a natural number, most significant first.
pub open spec fn decimal(n: nat) -> Seq<char>
    decreases n,
{
    if n < 10 {
        seq![digit_char(n)]
    } else {
        decimal(n / 10).push(digit_char(n % 10))
    }
}

pub open spec fn digit_char(d: nat) -> char {
    ((48 + d) as u8) as char
}

/// Renders `n` in decimal, as `format!("{n}")` does.
pub fn decimal_string(n: u64) -> (result: String)
    ensures
        result@ == decimal(n as nat),
    decreases n,
{
    if n < 10 {
        let mut s = String::new();
        push_char(&mut s, ((48 + n) as u8) as char);
        proof {
            assert(s@ =~= seq![digit_char(n as nat)]);
        }
        s
    } else {
        let mut s = decimal_string(n / 10);
        let d = n % 10;
        push_char(&mut s, ((48 + d) as u8) as char);
        s
    }
}

/// `count` copies of `c`.
pub open spec fn repeat(c: char, count: nat) -> Seq<char> {
    Seq::new(count, |_i: int| c)
}

/// A string of `count` copies of `c`.
pub fn repeat_char(c: char, count: usize) -> (result: String)
    ensures
        result@ == repeat(c, count as nat),
{
    let mut s = String::new();
    let mut i: usize = 0;
    while i < count
        invariant
            i <= count,
            s@ == repeat(c, i as nat),
        decreases count - i,
    {
        push_char(&mut s, c);
        i = i + 1;
        proof {
            assert(s@ =~= repeat(c, i as nat));
        }
    }
    s
}

} // verus!

//! Escape untrusted values before terminal rendering.

use vstd::prelude::*;

use crate::text::push_char;

verus! {

/// Unicode control characters (general category Cc), as `char::is_control` defines them.
pub open spec fn is_control_spec(c: char) -> bool {
    (c as u32) <= 0x1f || (0x7f <= (c as u32) && (c as u32) <= 0x9f)
}

/// Invisible formatting characters that could reorder or hide terminal text.
pub open spec fn is_invisible_format_spec(c: char) -> bool {
    let v = c as u32;
    v == 0x061c || (0x200b <= v && v <= 0x200f) || (0x202a <= v && v <= 0x202e) || (0x2060 <= v
        && v <= 0x2069) || v == 0xfeff
}

/// A lowercase hex digit of a value below 16.
pub open spec fn lower_hex_digit(n: u32) -> char {
    if n < 10 {
        ((48 + n) as u8) as char
    } else {
        ((87 + n) as u8) as char
    }
}

/// `n` in lowercase hexadecimal without leading zeros, as `format!("{n:x}")` writes it.
pub open spec fn lower_hex(n: u32) -> Seq<char>
    decreases n,
{
    if n < 16 {
        seq![lower_hex_digit(n)]
    } else {
        lower_hex(n / 16).push(lower_hex_digit(n % 16))
    }
}

/// How one character appears once escaped.
pub open spec fn escaped_char(c: char) -> Seq<char> {
    if c == '\n' {
        seq!['\\', 'n']
    } else if c == '\r' {
        seq!['\\', 'r']
    } else if c == '\t' {
        seq!['\\', 't']
    } else if is_control_spec(c) || is_invisible_format_spec(c) {
        seq!['\\', 'u', '{'] + lower_hex(c as u32) + seq!['}']
    } else {
        seq![c]
    }
}

/// The escaped form of a whole text: each character escaped in turn.
pub open spec fn escaped(value: Seq<char>) -> Seq<char>
    decreases value.len(),
{
    if value.len() == 0 {
        Seq::empty()
    } else {
        escaped(value.drop_last()) + escaped_char(value.last())
    }
}

/// `value` contains no control and no invisible formatting character.
pub open spec fn is_visible(value: Seq<char>) -> bool {
    forall|i: int|
        0 <= i < value.len() ==> !is_control_spec(#[trigger] value[i]) && !is_invisible_format_spec(
            value[i],
        )
}

/// Whether `character` is a Unicode control character (`char::is_control`).
pub fn is_control(character: char) -> (result: bool)
    ensures
        result == is_control_spec(character),
{
    let v = character as u32;
    v <= 0x1f || (0x7f <= v && v <= 0x9f)
}

/// Whether `character` is an invisible formatting or bidirectional control character.
pub fn is_invisible_format(character: char) -> (result: bool)
    ensures
        result == is_invisible_format_spec(character),
{
    let v = character as u32;
    v == 0x061c || (0x200b <= v && v <= 0x200f) || (0x202a <= v && v <= 0x202e) || (0x2060 <= v
        && v <= 0x2069) || v == 0xfeff
}

/// Appends `n` in lowercase hexadecimal.
fn push_lower_hex(s: &mut String, n: u32)
    ensures
        final(s)@ == old(s)@ + lower_hex(n),
    decreases n,
{
    if n >= 16 {
        push_lower_hex(s, n / 16);
    }
    let d = n % 16;
    let c = if d < 10 {
        ((48 + d) as u8) as char
    } else {
        ((87 + d) as u8) as char
    };
    push_char(s, c);
    proof {
        if n >= 16 {
            assert(final(s)@ =~= old(s)@ + lower_hex(n / 16).push(lower_hex_digit(n % 16)));
        } else {
            assert(final(s)@ =~= old(s)@ + seq![lower_hex_digit(n)]);
        }
    }
}

/// Replaces newlines, tabs, control characters and invisible formatting characters in
/// `value` by visible escape sequences.
pub fn escape(value: &str) -> (result: String)
    ensures
        result@ == escaped(value@),
{
    let mut escaped_text = String::new();
    for character in it: value.chars()
        invariant
            it.seq() == value@,
            escaped_text@ == escaped(value@.subrange(0, it.index() as int)),
    {
        let ghost before = escaped_text@;
        if character == '\n' {
            push_char(&mut escaped_text, '\\');
            push_char(&mut escaped_text, 'n');
        } else if character == '\r' {
            push_char(&mut escaped_text, '\\');
            push_char(&mut escaped_text, 'r');
        } else if character == '\t' {
            push_char(&mut escaped_text, '\\');
            push_char(&mut escaped_text, 't');
        } else if is_control(character) || is_invisible_format(character) {
            push_char(&mut escaped_text, '\\');
            push_char(&mut escaped_text, 'u');
            push_char(&mut escaped_text, '{');
            push_lower_hex(&mut escaped_text, character as u32);
            push_char(&mut escaped_text, '}');
        } else {
            push_char(&mut escaped_text, character);
        }
        proof {
            let prefix = value@.subrange(0, it.index() + 1);
            assert(prefix.drop_last() =~= value@.subrange(0, it.index() as int));
            assert(prefix.last() == character);
            assert(escaped_text@ =~= before + escaped_char(character));
        }
    }
    proof {
        assert(value@.subrange(0, value@.len() as int) =~= value@);
    }
    escaped_text
}

proof fn lemma_lower_hex_visible(n: u32)
    ensures
        is_visible(lower_hex(n)),
    decreases n,
{
    if n >= 16 {
        lemma_lower_hex_visible(n / 16);
    }
}

/// Escaping leaves no control and no invisible formatting character in the text.
pub proof fn lemma_escaped_is_visible(value: Seq<char>)
    ensures
        is_visible(escaped(value)),
    decreases value.len(),
{
    if value.len() > 0 {
        lemma_escaped_is_visible(value.drop_last());
        let c = value.last();
        if !(c == '\n' || c == '\r' || c == '\t') && (is_control_spec(c) || is_invisible_format_spec(c)) {
            lemma_lower_hex_visible(c as u32);
        }
        let a = escaped(value.drop_last());
        let b = escaped_char(c);
        assert forall|i: int| 0 <= i < (a + b).len() implies !is_control_spec(#[trigger] (a + b)[i])
            && !is_invisible_format_spec((a + b)[i]) by {
            if i >= a.len() {
                assert((a + b)[i] == b[i - a.len()]);
                if !(c == '\n' || c == '\r' || c == '\t') && (is_control_spec(c) || is_invisible_format_spec(c)) {
                    let h = lower_hex(c as u32);
                    if i - a.len() >= 3 && i - a.len() < 3 + h.len() {
                        assert(b[i - a.len()] == h[i - a.len() - 3]);
                    }
                }
            }
        }
    }
}

/// Escaping works character by character: escaping two texts written one after the other
/// gives their escapes one after the other.
pub proof fn lemma_escape_distributes(a: Seq<char>, b: Seq<char>)
    ensures
        escaped(a + b) == escaped(a) + escaped(b),
    decreases b.len(),
{
    if b.len() == 0 {
        assert(a + b =~= a);
        assert(escaped(a) + escaped(b) =~= escaped(a));
    } else {
        lemma_escape_distributes(a, b.drop_last());
        assert((a + b).drop_last() =~= a + b.drop_last());
        assert((a + b).last() == b.last());
        assert(escaped(a + b) =~= escaped(a) + escaped(b));
    }
}

/// Escaping a text that is already visible changes nothing.
pub proof fn lemma_escape_plain_is_identity(value: Seq<char>)
    requires
        is_visible(value),
    ensures
        escaped(value) == value,
    decreases value.len(),
{
    if value.len() > 0 {
        lemma_escape_plain_is_identity(value.drop_last());
        assert(escaped(value) =~= value.drop_last().push(value.last()));
    }
}

} // verus!

//! Lowercase hexadecimal encoding of session identifiers, secrets and digests.

use vstd::prelude::*;
use vstd::string::StringSliceAdditionalSpecFns;

use crate::text::push_char;

verus! {

/// A byte that is an ASCII decimal digit or one of `a`..=`f`.
pub open spec fn is_lower_hex_byte(b: u8) -> bool {
    (48 <= b <= 57) || (97 <= b <= 102)
}

/// `bytes` has exactly `length` bytes, each a lowercase hex digit.
pub open spec fn is_lower_hex(bytes: Seq<u8>, length: nat) -> bool {
    &&& bytes.len() == length
    &&& forall|i: int| 0 <= i < bytes.len() ==> is_lower_hex_byte(#[trigger] bytes[i])
}

/// The value of a lowercase hex digit.
pub open spec fn nibble_value(b: u8) -> u8 {
    if b <= 57 {
        (b - 48) as u8
    } else {
        (b - 87) as u8
    }
}

/// The lowercase hex digit of a value below 16.
pub open spec fn hex_digit(n: u8) -> char {
    if n < 10 {
        ((48 + n) as u8) as char
    } else {
        ((87 + n) as u8) as char
    }
}

/// Two lowercase hex digits per byte, high nibble first.
pub open spec fn hex_chars(bytes: Seq<u8>) -> Seq<char>
    decreases bytes.len(),
{
    if bytes.len() == 0 {
        Seq::empty()
    } else {
        hex_chars(bytes.drop_last()).push(hex_digit(bytes.last() / 16)).push(
            hex_digit(bytes.last() % 16),
        )
    }
}

/// The byte that two hex digits at `2 * i` and `2 * i + 1` denote.
pub open spec fn decoded_byte(text: Seq<u8>, i: int) -> u8 {
    (nibble_value(text[2 * i]) * 16 + nibble_value(text[2 * i + 1])) as u8
}

/// Hex text has two digits per byte.
pub proof fn lemma_hex_chars_len(bytes: Seq<u8>)
    ensures
        hex_chars(bytes).len() == 2 * bytes.len(),
    decreases bytes.len(),
{
    if bytes.len() > 0 {
        lemma_hex_chars_len(bytes.drop_last());
    }
}

/// Byte `i` is written as its high digit, then its low digit.
pub proof fn lemma_hex_chars_index(bytes: Seq<u8>, i: int)
    requires
        0 <= i < bytes.len(),
    ensures
        hex_chars(bytes)[2 * i] == hex_digit(bytes[i] / 16),
        hex_chars(bytes)[2 * i + 1] == hex_digit(bytes[i] % 16),
    decreases bytes.len(),
{
    lemma_hex_chars_len(bytes);
    lemma_hex_chars_len(bytes.drop_last());
    if i < bytes.len() - 1 {
        lemma_hex_chars_index(bytes.drop_last(), i);
    }
}

/// The hex digit character for a nibble.
fn hex_digit_exec(n: u8) -> (c: char)
    requires
        n < 16,
    ensures
        c == hex_digit(n),
{
    if n < 10 {
        (48 + n) as char
    } else {
        (87 + n) as char
    }
}

/// Encodes `bytes` as lowercase hexadecimal.
pub fn encode_hex(bytes: &[u8]) -> (encoded: String)
    ensures
        encoded@ == hex_chars(bytes@),
{
    let mut encoded = String::new();
    let mut i: usize = 0;
    while i < bytes.len()
        invariant
            i <= bytes.len(),
            encoded@ == hex_chars(bytes@.subrange(0, i as int)),
        decreases bytes.len() - i,
    {
        let byte = bytes[i];
        push_char(&mut encoded, hex_digit_exec(byte / 16));
        push_char(&mut encoded, hex_digit_exec(byte % 16));
        proof {
            let next = bytes@.subrange(0, i + 1);
            assert(next.drop_last() =~= bytes@.subrange(0, i as int));
            assert(next.last() == byte);
        }
        i = i + 1;
    }
    proof {
        assert(bytes@.subrange(0, bytes@.len() as int) =~= bytes@);
    }
    encoded
}

/// The value of one lowercase hex digit, if `byte` is one.
pub fn decode_nibble(byte: u8) -> (value: Option<u8>)
    ensures
        is_lower_hex_byte(byte) ==> value == Some(nibble_value(byte)),
        !is_lower_hex_byte(byte) ==> value is None,
{
    if 48 <= byte && byte <= 57 {
        Some(byte - 48)
    } else if 97 <= byte && byte <= 102 {
        Some(byte - 97 + 10)
    } else {
        None
    }
}

/// Whether `value` is exactly `length` lowercase hex digits.
pub fn valid_hex(value: &str, length: usize) -> (result: bool)
    ensures
        result == is_lower_hex(value.spec_bytes(), length as nat),
{
    let bytes = value.as_bytes();
    if bytes.len() != length {
        return false;
    }
    let mut i: usize = 0;
    while i < bytes.len()
        invariant
            i <= bytes.len(),
            bytes@ == value.spec_bytes(),
            forall|j: int| 0 <= j < i ==> is_lower_hex_byte(#[trigger] bytes@[j]),
        decreases bytes.len() - i,
    {
        let byte = bytes[i];
        if !((48 <= byte && byte <= 57) || (97 <= byte && byte <= 102)) {
            return false;
        }
        i = i + 1;
    }
    true
}

} // verus!

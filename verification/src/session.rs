//! Continuation tokens and the lifecycle of resumable restack sessions.

use vstd::prelude::*;
use vstd::string::StringSliceAdditionalSpecFns;

use crate::hex::{
    decode_nibble, decoded_byte, encode_hex, hex_chars, hex_digit, is_lower_hex, is_lower_hex_byte,
    lemma_hex_chars_index, lemma_hex_chars_len, nibble_value, valid_hex,
};
use crate::text::{push_char, push_str};
use hmac::{KeyInit, Mac};
use sha2::{Digest, Sha256};
use vstd::utf8::{encode_utf8, is_ascii_chars, is_ascii_chars_encode_utf8};

verus! {

/// Seconds of inactivity after which a session expires.
pub const SESSION_TTL_SECONDS: u64 = 86400;

/// Why a session operation was refused.
#[derive(Debug, PartialEq, Eq, Structural, Clone, Copy)]
pub enum SessionError {
    Unavailable,
    InvalidToken,
    Missing,
    Locked,
    Tampered,
    Expired,
    /// The session was written by a release with a different restack schema.
    SchemaMismatch { found: u64, expected: u8 },
}

/// Where a session stands between reconstruction and publication.
#[derive(Debug, PartialEq, Eq, Structural, Clone, Copy)]
pub enum SessionStatus {
    Conflicted,
    Sealed,
    Publishing,
    Consumed,
}

/// A parsed continuation token: the session directory name and its capability secret.
pub struct SessionToken {
    pub id: String,
    pub secret: [u8; 32],
}

/// The bytes of `"v1."`.
pub open spec fn token_prefix() -> Seq<u8> {
    seq![118u8, 49u8, 46u8]
}

/// `bytes` is `v1.<32 lowercase hex digits>.<64 lowercase hex digits>`.
pub open spec fn is_token_text(bytes: Seq<u8>) -> bool {
    &&& bytes.len() == 100
    &&& bytes.subrange(0, 3) == token_prefix()
    &&& is_lower_hex(bytes.subrange(3, 35), 32)
    &&& bytes[35] == 46u8
    &&& is_lower_hex(bytes.subrange(36, 100), 64)
}

/// The characters that the ASCII bytes `bytes` spell.
pub open spec fn ascii_chars(bytes: Seq<u8>) -> Seq<char> {
    Seq::new(bytes.len(), |i: int| bytes[i] as char)
}

/// The secret that a 64-digit hex text denotes.
pub open spec fn decoded_secret(text: Seq<u8>) -> Seq<u8> {
    Seq::new(32, |i: int| decoded_byte(text, i))
}

/// The token text that names session `id` with capability `secret`.
pub open spec fn token_chars(id: Seq<char>, secret: Seq<u8>) -> Seq<char> {
    seq!['v', '1', '.'] + id + seq!['.'] + hex_chars(secret)
}

/// Decodes the hex text of a capability secret into its 32 bytes.
///
/// A text of fewer than 64 digits fills the leading bytes and leaves the rest zero.
pub fn decode_secret(value: &str) -> (result: Result<[u8; 32], SessionError>)
    requires
        value.spec_bytes().len() <= 64,
    ensures
        ({
            let text = value.spec_bytes();
            match result {
                Ok(bytes) => {
                    &&& text.len() % 2 == 0
                    &&& is_lower_hex(text, text.len())
                    &&& forall|i: int|
                        0 <= i < 32 ==> #[trigger] bytes@[i] == if i < text.len() / 2 {
                            decoded_byte(text, i)
                        } else {
                            0u8
                        }
                },
                Err(error) => {
                    &&& error == SessionError::InvalidToken
                    &&& !(text.len() % 2 == 0 && is_lower_hex(text, text.len()))
                },
            }
        }),
{
    let text = value.as_bytes();
    let mut bytes = [0u8; 32];
    if text.len() % 2 != 0 {
        return Err(SessionError::InvalidToken);
    }
    let pairs = text.len() / 2;
    let mut index: usize = 0;
    while index < pairs
        invariant
            text@ == value.spec_bytes(),
            pairs == text.len() / 2,
            text.len() % 2 == 0,
            text.len() <= 64,
            index <= pairs,
            forall|j: int| 0 <= j < 2 * index ==> is_lower_hex_byte(#[trigger] text@[j]),
            forall|i: int|
                0 <= i < 32 ==> #[trigger] bytes@[i] == if i < index {
                    decoded_byte(text@, i)
                } else {
                    0u8
                },
        decreases pairs - index,
    {
        let high = match decode_nibble(text[2 * index]) {
            Some(high) => high,
            None => return Err(SessionError::InvalidToken),
        };
        let low = match decode_nibble(text[2 * index + 1]) {
            Some(low) => low,
            None => return Err(SessionError::InvalidToken),
        };
        bytes[index] = high * 16 + low;
        proof {
            assert(nibble_value(text@[2 * index as int]) == high);
            assert(nibble_value(text@[2 * index + 1]) == low);
        }
        index = index + 1;
        proof {
            assert forall|j: int| 0 <= j < 2 * index implies is_lower_hex_byte(#[trigger] text@[j]) by {
                if j >= 2 * (index - 1) {
                } else {
                }
            }
        }
    }
    Ok(bytes)
}

impl SessionToken {
    /// Parses `v1.<id>.<secret>`, the form that a session draft hands out.
    pub fn parse(value: &str) -> (result: Result<SessionToken, SessionError>)
        ensures
            ({
                let bytes = value.spec_bytes();
                match result {
                    Ok(token) => {
                        &&& is_token_text(bytes)
                        &&& token.id@ == ascii_chars(bytes.subrange(3, 35))
                        &&& token.secret@ == decoded_secret(bytes.subrange(36, 100))
                    },
                    Err(error) => error == SessionError::InvalidToken && !is_token_text(bytes),
                }
            }),
    {
        let bytes = value.as_bytes();
        if bytes.len() != 100 || bytes[0] != 118 || bytes[1] != 49 || bytes[2] != 46 || bytes[35]
            != 46 {
            proof {
                if bytes@.len() == 100 {
                    assert(bytes@.subrange(0, 3)[0] == bytes@[0]);
                    assert(bytes@.subrange(0, 3)[1] == bytes@[1]);
                    assert(bytes@.subrange(0, 3)[2] == bytes@[2]);
                }
            }
            return Err(SessionError::InvalidToken);
        }
        proof {
            assert(bytes@.subrange(0, 3) =~= token_prefix());
        }
        let mut id = String::new();
        let mut i: usize = 3;
        while i < 35
            invariant
                bytes@ == value.spec_bytes(),
                bytes@.len() == 100,
                3 <= i <= 35,
                forall|j: int| 3 <= j < i ==> is_lower_hex_byte(#[trigger] bytes@[j]),
                id@ == ascii_chars(bytes@.subrange(3, i as int)),
            decreases 35 - i,
        {
            let byte = bytes[i];
            if !((48 <= byte && byte <= 57) || (97 <= byte && byte <= 102)) {
                proof {
                    assert(bytes@.subrange(3, 35)[i - 3] == byte);
                }
                return Err(SessionError::InvalidToken);
            }
            push_char(&mut id, byte as char);
            proof {
                assert(id@ =~= ascii_chars(bytes@.subrange(3, i + 1)));
            }
            i = i + 1;
        }
        let mut secret_text = String::new();
        let mut k: usize = 36;
        while k < 100
            invariant
                bytes@ == value.spec_bytes(),
                bytes@.len() == 100,
                36 <= k <= 100,
                forall|j: int| 36 <= j < k ==> is_lower_hex_byte(#[trigger] bytes@[j]),
            decreases 100 - k,
        {
            let byte = bytes[k];
            if !((48 <= byte && byte <= 57) || (97 <= byte && byte <= 102)) {
                proof {
                    assert(bytes@.subrange(36, 100)[k - 36] == byte);
                }
                return Err(SessionError::InvalidToken);
            }
            k = k + 1;
        }
        proof {
            assert forall|j: int| 0 <= j < 32 implies is_lower_hex_byte(
                #[trigger] bytes@.subrange(3, 35)[j],
            ) by {
                assert(bytes@.subrange(3, 35)[j] == bytes@[j + 3]);
            }
            assert forall|j: int| 0 <= j < 64 implies is_lower_hex_byte(
                #[trigger] bytes@.subrange(36, 100)[j],
            ) by {
                assert(bytes@.subrange(36, 100)[j] == bytes@[j + 36]);
            }
        }
        let secret = decode_secret_bytes(bytes, 36);
        Ok(SessionToken { id, secret })
    }
}

/// Decodes the 64 hex digits of `bytes` that start at `start`.
fn decode_secret_bytes(bytes: &[u8], start: usize) -> (secret: [u8; 32])
    requires
        start + 64 <= bytes@.len(),
        is_lower_hex(bytes@.subrange(start as int, start + 64), 64),
    ensures
        secret@ == decoded_secret(bytes@.subrange(start as int, start + 64)),
{
    let ghost text = bytes@.subrange(start as int, start + 64);
    let mut secret = [0u8; 32];
    let mut index: usize = 0;
    while index < 32
        invariant
            start + 64 <= bytes.len(),
            text == bytes@.subrange(start as int, start + 64),
            is_lower_hex(text, 64),
            index <= 32,
            forall|i: int| 0 <= i < index ==> #[trigger] secret@[i] == decoded_byte(text, i),
            secret@.len() == 32,
        decreases 32 - index,
    {
        let high_byte = bytes[start + 2 * index];
        let low_byte = bytes[start + 2 * index + 1];
        proof {
            assert(text[2 * index as int] == high_byte);
            assert(text[2 * index + 1] == low_byte);
            assert(is_lower_hex_byte(text[2 * index as int]));
            assert(is_lower_hex_byte(text[2 * index + 1]));
        }
        let high = match decode_nibble(high_byte) {
            Some(v) => v,
            None => 0,
        };
        let low = match decode_nibble(low_byte) {
            Some(v) => v,
            None => 0,
        };
        secret[index] = high * 16 + low;
        index = index + 1;
    }
    proof {
        assert(secret@ =~= decoded_secret(text));
    }
    secret
}

/// The token text for session `id` with capability `secret`: `v1.<id>.<hex secret>`.
pub fn token_text(id: &str, secret: &[u8; 32]) -> (token: String)
    ensures
        token@ == token_chars(id@, secret@),
{
    let mut token = String::new();
    push_char(&mut token, 'v');
    push_char(&mut token, '1');
    push_char(&mut token, '.');
    crate::text::push_str(&mut token, id);
    push_char(&mut token, '.');
    let hex = encode_hex(secret);
    crate::text::push_str(&mut token, hex.as_str());
    proof {
        assert(token@ =~= token_chars(id@, secret@));
    }
    token
}

/// A session directory name: 32 lowercase hex digits.
pub open spec fn is_session_id(id: Seq<char>) -> bool {
    &&& id.len() == 32
    &&& forall|i: int|
        0 <= i < id.len() ==> ('0' <= #[trigger] id[i] <= '9' || 'a' <= id[i] <= 'f')
}

proof fn lemma_hex_digit_byte(n: u8)
    requires
        n < 16,
    ensures
        '\0' <= hex_digit(n) <= '\u{7f}',
        is_lower_hex_byte(hex_digit(n) as u8),
        nibble_value(hex_digit(n) as u8) == n,
{
}

/// Reading back the text of a token gives the session id and the secret it was made from.
pub proof fn lemma_token_roundtrip(id: Seq<char>, secret: Seq<u8>)
    requires
        is_session_id(id),
        secret.len() == 32,
    ensures
        ({
            let bytes = encode_utf8(token_chars(id, secret));
            &&& is_token_text(bytes)
            &&& ascii_chars(bytes.subrange(3, 35)) == id
            &&& decoded_secret(bytes.subrange(36, 100)) == secret
        }),
{
    let chars = token_chars(id, secret);
    let hex = hex_chars(secret);
    lemma_hex_chars_len(secret);
    assert(chars.len() == 100);
    assert forall|i: int| 0 <= i < 64 implies '\0' <= #[trigger] hex[i] <= '\u{7f}' && is_lower_hex_byte(hex[i] as u8) by {
        lemma_hex_chars_index(secret, i / 2);
        lemma_hex_digit_byte(secret[i / 2] / 16);
        lemma_hex_digit_byte(secret[i / 2] % 16);
        if i % 2 == 0 {
            assert(i == 2 * (i / 2));
        } else {
            assert(i == 2 * (i / 2) + 1);
        }
    }
    assert forall|i: int| 0 <= i < 100 implies '\0' <= #[trigger] chars[i] <= '\u{7f}' by {
        if i >= 36 {
            assert(chars[i] == hex[i - 36]);
        } else if i >= 3 && i < 35 {
            assert(chars[i] == id[i - 3]);
        }
    }
    assert(is_ascii_chars(chars));
    is_ascii_chars_encode_utf8(chars);
    let bytes = encode_utf8(chars);
    assert(bytes.len() == 100);
    assert(bytes.subrange(0, 3) =~= token_prefix());
    assert forall|j: int| 0 <= j < 32 implies is_lower_hex_byte(#[trigger] bytes.subrange(3, 35)[j]) by {
        assert(bytes[j + 3] == chars[j + 3] as u8);
        assert(chars[j + 3] == id[j]);
    }
    assert forall|j: int| 0 <= j < 64 implies is_lower_hex_byte(#[trigger] bytes.subrange(36, 100)[j]) by {
        assert(bytes[j + 36] == chars[j + 36] as u8);
        assert(chars[j + 36] == hex[j]);
    }
    assert(ascii_chars(bytes.subrange(3, 35)) =~= id) by {
        assert forall|j: int| 0 <= j < 32 implies #[trigger] ascii_chars(bytes.subrange(3, 35))[j] == id[j] by {
            assert(bytes[j + 3] == chars[j + 3] as u8);
            assert(chars[j + 3] == id[j]);
        }
    }
    let text = bytes.subrange(36, 100);
    assert(decoded_secret(text) =~= secret) by {
        assert forall|i: int| 0 <= i < 32 implies #[trigger] decoded_secret(text)[i] == secret[i] by {
            lemma_hex_chars_index(secret, i);
            lemma_hex_digit_byte(secret[i] / 16);
            lemma_hex_digit_byte(secret[i] % 16);
            assert(text[2 * i] == chars[36 + 2 * i] as u8);
            assert(text[2 * i + 1] == chars[36 + 2 * i + 1] as u8);
            assert(chars[36 + 2 * i] == hex[2 * i]);
            assert(chars[36 + 2 * i + 1] == hex[2 * i + 1]);
        }
    }
}

/// Decoding the hex text of 32 bytes gives them back: the text is 64 lowercase hex digits,
/// and the bytes it denotes are the ones encoded, so `decode_secret` of `encode_hex` of a
/// secret returns that secret.
pub proof fn lemma_secret_hex_roundtrip(secret: Seq<u8>)
    requires
        secret.len() == 32,
    ensures
        ({
            let text = encode_utf8(hex_chars(secret));
            &&& text.len() == 64
            &&& is_lower_hex(text, text.len())
            &&& forall|i: int| 0 <= i < 32 ==> #[trigger] decoded_byte(text, i) == secret[i]
            &&& decoded_secret(text) == secret
        }),
{
    let hex = hex_chars(secret);
    lemma_hex_chars_len(secret);
    assert forall|i: int| 0 <= i < 64 implies '\0' <= #[trigger] hex[i] <= '\u{7f}' && is_lower_hex_byte(hex[i] as u8) by {
        lemma_hex_chars_index(secret, i / 2);
        lemma_hex_digit_byte(secret[i / 2] / 16);
        lemma_hex_digit_byte(secret[i / 2] % 16);
        if i % 2 == 0 {
            assert(i == 2 * (i / 2));
        } else {
            assert(i == 2 * (i / 2) + 1);
        }
    }
    assert(is_ascii_chars(hex));
    is_ascii_chars_encode_utf8(hex);
    let text = encode_utf8(hex);
    assert forall|j: int| 0 <= j < 64 implies is_lower_hex_byte(#[trigger] text[j]) by {
        assert(text[j] == hex[j] as u8);
    }
    assert forall|i: int| 0 <= i < 32 implies #[trigger] decoded_byte(text, i) == secret[i] by {
        lemma_hex_chars_index(secret, i);
        lemma_hex_digit_byte(secret[i] / 16);
        lemma_hex_digit_byte(secret[i] % 16);
        assert(text[2 * i] == hex[2 * i] as u8);
        assert(text[2 * i + 1] == hex[2 * i + 1] as u8);
    }
    assert(decoded_secret(text) =~= secret);
}

/// The SHA-256 digest of `data`.
pub uninterp spec fn sha256(data: Seq<u8>) -> Seq<u8>;

/// The HMAC-SHA-256 tag of `message` under `key`.
pub uninterp spec fn hmac_sha256(key: Seq<u8>, message: Seq<u8>) -> Seq<u8>;

/// `sha2::Sha256::digest`: the 32-byte SHA-256 digest of `data`, named rather than restated.
#[verifier::external_body]
fn sha256_digest(data: &[u8]) -> (digest: Vec<u8>)
    ensures
        digest@ == sha256(data@),
        digest@.len() == 32,
{
    Sha256::digest(data).to_vec()
}

/// `hmac::Hmac::<Sha256>` keyed with `key` over `message`: the 32-byte tag, named rather
/// than restated. `new_from_slice` accepts a key of any length (a longer one is hashed
/// first), so a tag always comes back; the `None` arm only mirrors the API.
#[verifier::external_body]
fn hmac_sha256_tag(key: &[u8], message: &[u8]) -> (tag: Option<Vec<u8>>)
    ensures
        tag is Some,
        tag matches Some(t) ==> t@ == hmac_sha256(key@, message@) && t@.len() == 32,
{
    match <hmac::Hmac<Sha256> as KeyInit>::new_from_slice(key) {
        Ok(mut mac) => {
            mac.update(message);
            Some(mac.finalize().into_bytes().to_vec())
        },
        Err(_) => None,
    }
}

/// `getrandom::fill`: overwrites `bytes` with operating-system randomness. Nothing is
/// claimed about the values; the length stays.
#[verifier::external_body]
fn fill_random(bytes: &mut Vec<u8>) -> (result: Result<(), SessionError>)
    ensures
        final(bytes)@.len() == old(bytes)@.len(),
        result matches Err(e) ==> e == SessionError::Unavailable,
{
    getrandom::fill(bytes.as_mut_slice()).map_err(|_| SessionError::Unavailable)
}

/// The capability that a token's secret proves: the hex SHA-256 of the secret.
pub open spec fn capability_of(secret: Seq<u8>) -> Seq<char> {
    hex_chars(sha256(secret))
}

/// The bytes that the integrity tag covers: the canonical metadata, a zero byte and the
/// capability.
pub open spec fn integrity_message(encoded: Seq<u8>, capability: Seq<char>) -> Seq<u8> {
    encoded + seq![0u8] + encode_utf8(capability)
}

/// The hex HMAC that binds canonical metadata to its capability under the store key.
pub open spec fn integrity_of(key: Seq<u8>, encoded: Seq<u8>, capability: Seq<char>) -> Seq<char> {
    hex_chars(hmac_sha256(key, integrity_message(encoded, capability)))
}

/// The capability digest of a session secret.
pub fn capability_digest(secret: &[u8; 32]) -> (capability: String)
    ensures
        capability@ == capability_of(secret@),
{
    let digest = sha256_digest(secret);
    encode_hex(digest.as_slice())
}

/// The integrity tag of canonical metadata `encoded` for `capability`.
pub fn metadata_integrity(integrity_key: &[u8; 32], encoded: &[u8], capability: &str) -> (result: Result<String, SessionError>)
    ensures
        result matches Ok(tag) && tag@ == integrity_of(integrity_key@, encoded@, capability@),
{
    let mut message: Vec<u8> = Vec::new();
    let mut i: usize = 0;
    while i < encoded.len()
        invariant
            i <= encoded.len(),
            message@ == encoded@.subrange(0, i as int),
        decreases encoded.len() - i,
    {
        message.push(encoded[i]);
        i = i + 1;
        proof {
            assert(message@ =~= encoded@.subrange(0, i as int));
        }
    }
    message.push(0u8);
    let capability_bytes = capability.as_bytes();
    let ghost prefix = message@;
    let mut k: usize = 0;
    while k < capability_bytes.len()
        invariant
            k <= capability_bytes.len(),
            message@ == prefix + capability_bytes@.subrange(0, k as int),
        decreases capability_bytes.len() - k,
    {
        message.push(capability_bytes[k]);
        k = k + 1;
        proof {
            assert(message@ =~= prefix + capability_bytes@.subrange(0, k as int));
        }
    }
    proof {
        assert(encoded@.subrange(0, encoded@.len() as int) =~= encoded@);
        assert(capability_bytes@.subrange(0, capability_bytes@.len() as int) =~= capability_bytes@);
        assert(message@ =~= integrity_message(encoded@, capability@));
    }
    match hmac_sha256_tag(integrity_key, message.as_slice()) {
        Some(tag) => Ok(encode_hex(tag.as_slice())),
        None => Err(SessionError::Unavailable),
    }
}

/// The hex SHA-256 of a reflog listing, which pins the isolated repository's history.
pub fn reflog_digest(reflog: &[u8]) -> (digest: String)
    ensures
        digest@ == hex_chars(sha256(reflog@)),
{
    let bytes = sha256_digest(reflog);
    encode_hex(bytes.as_slice())
}

/// An authenticated envelope: its schema, capability and integrity tag as read back.
pub open spec fn envelope_result(
    found_schema: u64,
    expected_schema: u8,
    capability: Seq<char>,
    integrity: Seq<char>,
    secret: Seq<u8>,
    key: Seq<u8>,
    encoded: Seq<u8>,
) -> Option<SessionError> {
    if found_schema != expected_schema as u64 {
        Some(SessionError::SchemaMismatch { found: found_schema, expected: expected_schema })
    } else if capability != capability_of(secret) {
        Some(SessionError::InvalidToken)
    } else if integrity != integrity_of(key, encoded, capability) {
        Some(SessionError::Tampered)
    } else {
        None
    }
}

/// Accepts session metadata only when it has the expected schema, the token's secret
/// proves its capability, and its integrity tag matches under the store key.
pub fn authenticate_envelope(
    found_schema: u64,
    expected_schema: u8,
    capability: &str,
    integrity: &str,
    secret: &[u8; 32],
    integrity_key: &[u8; 32],
    encoded: &[u8],
) -> (result: Result<(), SessionError>)
    ensures
        match envelope_result(found_schema, expected_schema, capability@, integrity@, secret@, integrity_key@, encoded@) {
            Some(error) => result == Err::<(), SessionError>(error),
            None => result is Ok,
        },
{
    if found_schema != expected_schema as u64 {
        return Err(SessionError::SchemaMismatch { found: found_schema, expected: expected_schema });
    }
    let expected_capability = capability_digest(secret);
    if !crate::text_compare::same_text(capability, expected_capability.as_str()) {
        return Err(SessionError::InvalidToken);
    }
    let expected = metadata_integrity(integrity_key, encoded, capability)?;
    if !crate::text_compare::same_text(expected.as_str(), integrity) {
        return Err(SessionError::Tampered);
    }
    Ok(())
}

/// What a store writes it reads back: an envelope sealed with a secret and key is
/// accepted with the same secret and key.
pub proof fn lemma_sealed_envelope_authenticates(schema: u8, secret: Seq<u8>, key: Seq<u8>, encoded: Seq<u8>)
    ensures
        envelope_result(
            schema as u64,
            schema,
            capability_of(secret),
            integrity_of(key, encoded, capability_of(secret)),
            secret,
            key,
            encoded,
        ) is None,
{
}

/// A different secret is refused: the envelope's capability does not match unless the
/// two secrets have the same digest.
pub proof fn lemma_other_secret_is_refused(schema: u8, secret: Seq<u8>, other: Seq<u8>, key: Seq<u8>, encoded: Seq<u8>)
    requires
        sha256(secret) != sha256(other),
    ensures
        envelope_result(
            schema as u64,
            schema,
            capability_of(secret),
            integrity_of(key, encoded, capability_of(secret)),
            other,
            key,
            encoded,
        ) == Some(SessionError::InvalidToken),
{
    lemma_hex_chars_injective(sha256(secret), sha256(other));
}

proof fn lemma_hex_chars_injective(a: Seq<u8>, b: Seq<u8>)
    requires
        a != b,
    ensures
        hex_chars(a) != hex_chars(b),
{
    lemma_hex_chars_len(a);
    lemma_hex_chars_len(b);
    if a.len() == b.len() {
        let i = choose|i: int| 0 <= i < a.len() && a[i] != b[i];
        if !(exists|i: int| 0 <= i < a.len() && a[i] != b[i]) {
            assert(a =~= b);
        }
        lemma_hex_chars_index(a, i);
        lemma_hex_chars_index(b, i);
        lemma_hex_digit_byte(a[i] / 16);
        lemma_hex_digit_byte(b[i] / 16);
        lemma_hex_digit_byte(a[i] % 16);
        lemma_hex_digit_byte(b[i] % 16);
        if hex_chars(a) == hex_chars(b) {
            assert(hex_digit(a[i] / 16) == hex_digit(b[i] / 16));
            assert(hex_digit(a[i] % 16) == hex_digit(b[i] % 16));
            assert(nibble_value(hex_digit(a[i] / 16) as u8) == a[i] / 16);
            assert(a[i] == (a[i] / 16) * 16 + a[i] % 16);
            assert(b[i] == (b[i] / 16) * 16 + b[i] % 16);
        }
    }
}

/// Fresh random bytes of length `count`.
fn random_bytes(count: usize) -> (result: Result<Vec<u8>, SessionError>)
    ensures
        result matches Ok(bytes) ==> bytes@.len() == count,
        result matches Err(e) ==> e == SessionError::Unavailable,
{
    let mut bytes: Vec<u8> = Vec::new();
    let mut i: usize = 0;
    while i < count
        invariant
            i <= count,
            bytes@.len() == i,
        decreases count - i,
    {
        bytes.push(0u8);
        i = i + 1;
    }
    fill_random(&mut bytes)?;
    Ok(bytes)
}

/// A fresh session directory name: 16 random bytes in lowercase hex.
pub fn random_hex() -> (result: Result<String, SessionError>)
    ensures
        result matches Ok(id) ==> is_session_id(id@) && exists|b: Seq<u8>| b.len() == 16 && id@ == hex_chars(b),
        result matches Err(e) ==> e == SessionError::Unavailable,
{
    let bytes = random_bytes(16)?;
    let id = encode_hex(bytes.as_slice());
    proof {
        lemma_hex_chars_is_session_id(bytes@);
    }
    Ok(id)
}

proof fn lemma_hex_chars_is_session_id(bytes: Seq<u8>)
    requires
        bytes.len() == 16,
    ensures
        is_session_id(hex_chars(bytes)),
{
    let h = hex_chars(bytes);
    lemma_hex_chars_len(bytes);
    assert forall|i: int| 0 <= i < h.len() implies ('0' <= #[trigger] h[i] <= '9' || 'a' <= h[i] <= 'f') by {
        lemma_hex_chars_index(bytes, i / 2);
        lemma_hex_digit_byte(bytes[i / 2] / 16);
        lemma_hex_digit_byte(bytes[i / 2] % 16);
        if i % 2 == 0 {
            assert(i == 2 * (i / 2));
        } else {
            assert(i == 2 * (i / 2) + 1);
        }
    }
}

/// A fresh capability secret.
pub fn random_secret() -> (result: Result<[u8; 32], SessionError>)
    ensures
        result matches Err(e) ==> e == SessionError::Unavailable,
{
    let bytes = random_bytes(32)?;
    let mut secret = [0u8; 32];
    let mut i: usize = 0;
    while i < 32
        invariant
            i <= 32,
            bytes@.len() == 32,
            secret@.len() == 32,
        decreases 32 - i,
    {
        secret[i] = bytes[i];
        i = i + 1;
    }
    Ok(secret)
}

/// When a session was created, last used, and when it expires.
#[derive(Clone, Copy, Debug, PartialEq, Eq, Structural)]
pub struct SessionClock {
    pub created_at: u64,
    pub last_activity: u64,
    pub expires_at: u64,
}

/// `now + SESSION_TTL_SECONDS`, saturating at the largest timestamp.
pub open spec fn expiry_after(now: u64) -> u64 {
    if now + SESSION_TTL_SECONDS > u64::MAX {
        u64::MAX
    } else {
        (now + SESSION_TTL_SECONDS) as u64
    }
}

impl SessionClock {
    /// The clock of a session created at `now`.
    pub fn started(now: u64) -> (clock: SessionClock)
        ensures
            clock.created_at == now,
            clock.last_activity == now,
            clock.expires_at == expiry_after(now),
    {
        SessionClock { created_at: now, last_activity: now, expires_at: now.saturating_add(SESSION_TTL_SECONDS) }
    }

    /// Records activity at `now`, which pushes the expiry a full period out.
    pub fn refresh(&mut self, now: u64)
        ensures
            final(self).created_at == old(self).created_at,
            final(self).last_activity == now,
            final(self).expires_at == expiry_after(now),
    {
        self.last_activity = now;
        self.expires_at = now.saturating_add(SESSION_TTL_SECONDS);
    }

    /// Whether the session has expired at `now`.
    pub fn is_expired(&self, now: u64) -> (expired: bool)
        ensures
            expired == (self.expires_at <= now),
    {
        self.expires_at <= now
    }
}

/// A session used at `now` stays alive for the whole period after it.
pub proof fn lemma_refresh_keeps_session_alive(clock: SessionClock, now: u64, later: u64)
    requires
        now <= later,
        later < now + SESSION_TTL_SECONDS,
        now + SESSION_TTL_SECONDS <= u64::MAX,
    ensures
        !(expiry_after(now) <= later),
{
}

/// Whether a directory untouched for `age` seconds counts as abandoned.
pub fn directory_inactive(age: Option<u64>) -> (inactive: bool)
    ensures
        inactive == (age matches Some(seconds) && seconds >= SESSION_TTL_SECONDS),
{
    match age {
        Some(seconds) => seconds >= SESSION_TTL_SECONDS,
        None => false,
    }
}

/// Whether a session may be purged without its token: its recorded expiry has passed,
/// or its directory has been inactive for a full period.
pub fn session_expired_without_token(recorded_expiry: Option<u64>, now: u64, inactive: bool) -> (expired: bool)
    ensures
        expired == ((recorded_expiry matches Some(e) && e <= now) || inactive),
{
    let recorded = match recorded_expiry {
        Some(expires_at) => expires_at <= now,
        None => false,
    };
    recorded || inactive
}

/// Whether the store entry `name` is a session that purging may examine: a session
/// directory name other than the one being resumed.
pub fn purge_candidate(name: &str, keep: Option<&str>) -> (candidate: bool)
    ensures
        candidate == (is_lower_hex(name.spec_bytes(), 32) && !(keep matches Some(k) && k@ == name@)),
{
    if !valid_hex(name, 32) {
        return false;
    }
    match keep {
        Some(kept) => !crate::text_compare::same_text(kept, name),
        None => true,
    }
}

/// How a resume prepares the store: which session purging must spare, and whether the
/// token could be read at all.
pub struct ResumePreparation {
    pub keep: Option<String>,
    pub token: Result<SessionToken, SessionError>,
}

/// What purging learned about one entry of the session store.
#[derive(Clone, Debug)]
pub struct StoreEntry {
    /// The entry's name, `None` when it is not UTF-8.
    pub name: Option<String>,
    /// Whether the entry is a directory and not a symbolic link.
    pub plain_directory: bool,
    /// Whether the session's lock was taken without waiting.
    pub locked: bool,
    /// The expiry recorded in the session, when it could be read.
    pub recorded_expiry: Option<u64>,
    /// Whether the directory has been untouched for a full period.
    pub inactive: bool,
}

/// Whether purging removes `entry`: a session directory other than `keep`, not in use,
/// whose recorded expiry has passed at `now` or which has been inactive a full period.
pub open spec fn purgeable(entry: StoreEntry, keep: Option<Seq<char>>, now: u64) -> bool {
    &&& entry.name matches Some(name)
    &&& is_lower_hex(encode_utf8(name@), 32)
    &&& !(keep matches Some(k) && k == name@)
    &&& entry.plain_directory
    &&& entry.locked
    &&& ((entry.recorded_expiry matches Some(e) && e <= now) || entry.inactive)
}

/// The positions of the entries that purging removes, in order.
pub open spec fn purged(entries: Seq<StoreEntry>, keep: Option<Seq<char>>, now: u64) -> Seq<int>
    decreases entries.len(),
{
    if entries.len() == 0 {
        Seq::empty()
    } else {
        let rest = purged(entries.drop_last(), keep, now);
        if purgeable(entries.last(), keep, now) {
            rest.push(entries.len() - 1)
        } else {
            rest
        }
    }
}

/// The store of resumable restack sessions.
pub struct SessionStore {
    pub root: String,
    pub integrity_key: [u8; 32],
}

impl SessionStore {
    /// Parses a continuation token before expired sessions are purged: the session it
    /// names is spared; a malformed token spares nothing and is refused once purging is
    /// done.
    pub fn prepare_resume(&self, token: &str) -> (preparation: ResumePreparation)
        ensures
            is_token_text(token.spec_bytes()) ==> (preparation.token matches Ok(t) && preparation.keep
                == Some(t.id) && t.id@ == ascii_chars(token.spec_bytes().subrange(3, 35))),
            !is_token_text(token.spec_bytes()) ==> preparation.keep is None && preparation.token
                == Err::<SessionToken, SessionError>(SessionError::InvalidToken),
    {
        match SessionToken::parse(token) {
            Ok(parsed) => {
                let keep = parsed.id.clone();
                ResumePreparation { keep: Some(keep), token: Ok(parsed) }
            },
            Err(error) => ResumePreparation { keep: None, token: Err(error) },
        }
    }

    /// The entries that purging removes, sparing none.
    pub fn purge_expired(&self, entries: &Vec<StoreEntry>, now: u64) -> (removed: Vec<usize>)
        ensures
            removed@.map_values(|i: usize| i as int) == purged(entries@, None, now),
    {
        self.purge_expired_except(None, entries, now)
    }

    /// The entries that purging removes, sparing the session `keep`.
    pub fn purge_expired_except(&self, keep: Option<&str>, entries: &Vec<StoreEntry>, now: u64) -> (removed:
        Vec<usize>)
        ensures
            removed@.map_values(|i: usize| i as int) == purged(
                entries@,
                match keep {
                    Some(k) => Some(k@),
                    None => None,
                },
                now,
            ),
    {
        let ghost kept = match keep {
            Some(k) => Some(k@),
            None => None,
        };
        let mut removed: Vec<usize> = Vec::new();
        let mut i: usize = 0;
        proof {
            assert(entries@.take(0) =~= Seq::<StoreEntry>::empty());
        }
        while i < entries.len()
            invariant
                i <= entries.len(),
                kept == match keep {
                    Some(k) => Some(k@),
                    None => None,
                },
                removed@.map_values(|k: usize| k as int) == purged(entries@.take(i as int), kept, now),
            decreases entries.len() - i,
        {
            proof {
                assert(entries@.take(i + 1).drop_last() =~= entries@.take(i as int));
                assert(entries@.take(i + 1).last() == entries@[i as int]);
            }
            let entry = &entries[i];
            let remove = match &entry.name {
                None => false,
                Some(name) => purge_candidate(name.as_str(), keep) && entry.plain_directory
                    && entry.locked && session_expired_without_token(
                    entry.recorded_expiry,
                    now,
                    entry.inactive,
                ),
            };
            if remove {
                let ghost before = removed@;
                removed.push(i);
                proof {
                    assert(removed@.map_values(|k: usize| k as int) =~= before.map_values(
                        |k: usize| k as int,
                    ).push(i as int));
                }
            }
            i = i + 1;
        }
        proof {
            assert(entries@.take(entries.len() as int) =~= entries@);
        }
        removed
    }
}

} // verus!

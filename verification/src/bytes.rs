//! Byte-level helpers shared by the other modules.
use vstd::prelude::*;
use vstd::utf8::*;
use vstd::string::*;
use crate::error::TextError;

verus! {

/// Byte-wise equality of two slices.
pub fn bytes_equal(a: &[u8], b: &[u8]) -> (r: bool)
    ensures
        r == (a@ == b@),
{
    if a.len() != b.len() {
        return false;
    }
    let mut i: usize = 0;
    while i < a.len()
        invariant
            i <= a@.len(),
            a@.len() == b@.len(),
            forall|j: int| 0 <= j < i ==> a@[j] == b@[j],
        decreases a@.len() - i,
    {
        if a[i] != b[i] {
            return false;
        }
        i += 1;
    }
    assert(a@ =~= b@);
    true
}

/// Two character sequences with the same UTF-8 encoding are the same.
pub proof fn lemma_utf8_encoding_is_injective(a: Seq<char>, b: Seq<char>)
    requires
        encode_utf8(a) == encode_utf8(b),
    ensures
        a == b,
{
    encode_utf8_decode_utf8(a);
    encode_utf8_decode_utf8(b);
}

/// Equality of two strings, decided on their UTF-8 bytes.
pub fn text_equal(a: &str, b: &str) -> (r: bool)
    ensures
        r == (a@ == b@),
{
    let same = bytes_equal(a.as_bytes(), b.as_bytes());
    proof {
        if same {
            lemma_utf8_encoding_is_injective(a@, b@);
        }
    }
    same
}

/// What `load_fixed` yields for `raw` when `n` bytes are required: the first
/// `n` bytes, or nothing when `raw` is shorter than that.
pub open spec fn fixed_prefix(raw: Seq<u8>, n: int) -> Option<Seq<u8>> {
    if raw.len() < n {
        None
    } else {
        Some(raw.subrange(0, n))
    }
}

/// Loads key material of exactly `N` bytes from `raw`.
///
/// A buffer shorter than `N` is refused. A longer one is accepted and only
/// its first `N` bytes are used; the rest is ignored, so a caller that passes
/// a whole file where a key is meant will not be told.
pub fn load_fixed<const N: usize>(raw: &[u8]) -> (r: Result<[u8; N], TextError>)
    ensures
        match r {
            Ok(k) => fixed_prefix(raw@, N as int) == Some(k@),
            Err(e) => e == TextError::KeyFormat && fixed_prefix(raw@, N as int) is None,
        },
{
    if raw.len() < N {
        return Err(TextError::KeyFormat);
    }
    let mut out: [u8; N] = [0u8; N];
    let mut i: usize = 0;
    while i < N
        invariant
            i <= N,
            raw@.len() >= N,
            out@.len() == N,
            forall|j: int| 0 <= j < i ==> out@[j] == raw@[j],
        decreases N - i,
    {
        out[i] = raw[i];
        i += 1;
    }
    assert(out@ =~= raw@.subrange(0, N as int));
    Ok(out)
}

/// `String::from_utf8` of std: the bytes become a string exactly when they are
/// valid UTF-8; the string then holds the characters that the bytes encode.
#[verifier::external_body]
pub(crate) fn string_from_utf8(bytes: Vec<u8>) -> (r: Option<String>)
    ensures
        r is Some <==> valid_utf8(bytes@),
        r matches Some(s) ==> s@ == decode_utf8(bytes@),
{
    String::from_utf8(bytes).ok()
}

/// Reads bytes as text: `Some` exactly for valid UTF-8.
pub fn text_of_bytes(bytes: Vec<u8>) -> (r: Option<String>)
    ensures
        r is Some <==> valid_utf8(bytes@),
        r matches Some(s) ==> s@ == decode_utf8(bytes@) && encode_utf8(s@) == bytes@,
{
    proof {
        if valid_utf8(bytes@) {
            decode_utf8_encode_utf8(bytes@);
        }
    }
    string_from_utf8(bytes)
}

/// The texts of a list of strings.
pub open spec fn texts(list: Seq<String>) -> Seq<Seq<char>> {
    Seq::new(list.len(), |i: int| list[i]@)
}

/// The characters that stand for `bytes` when every byte is ASCII.
pub open spec fn ascii_chars(bytes: Seq<u8>) -> Seq<char> {
    Seq::new(bytes.len(), |i: int| bytes[i] as char)
}

/// Bytes below 128 are valid UTF-8 and decode to one character each.
pub proof fn lemma_ascii_bytes_are_text(bytes: Seq<u8>)
    requires
        forall|i: int| 0 <= i < bytes.len() ==> bytes[i] < 128,
    ensures
        valid_utf8(bytes),
        decode_utf8(bytes) == ascii_chars(bytes),
        encode_utf8(ascii_chars(bytes)) == bytes,
{
    let chars = ascii_chars(bytes);
    is_ascii_chars_encode_utf8(chars);
    assert(encode_utf8(chars) =~= bytes) by {
        assert forall|i: int| 0 <= i < bytes.len() implies (chars[i] as u8) == bytes[i] by {
            lemma_ascii_cast_round_trip(bytes[i]);
        }
    }
    encode_utf8_valid_utf8(chars);
    encode_utf8_decode_utf8(chars);
}

/// A byte below 128, read as a character and back, is itself.
pub proof fn lemma_ascii_cast_round_trip(b: u8)
    requires
        b < 128,
    ensures
        ((b as char) as u8) == b,
        ((b as char) as u32) < 128,
{
}

} // verus!

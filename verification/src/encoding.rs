//! Base64 text and SHA-256 digests.

use base64::Engine;
use sha2::Digest;
use vstd::prelude::*;
use vstd::utf8::is_ascii_chars;

verus! {

/// The character that stands for the 6-bit value `v` in the standard base64 alphabet.
pub open spec fn base64_symbol(v: int) -> char {
    if v < 26 {
        ('A' as int + v) as char
    } else if v < 52 {
        ('a' as int + v - 26) as char
    } else if v < 62 {
        ('0' as int + v - 52) as char
    } else if v == 62 {
        '+'
    } else {
        '/'
    }
}

/// The byte of `data` at `i`, or zero past its end.
pub open spec fn byte_or_zero(data: Seq<u8>, i: int) -> int {
    if i < data.len() {
        data[i] as int
    } else {
        0
    }
}

/// The character at `i` of the base64 text of `data`: each three bytes give four
/// characters, and a character to which no byte contributes is the padding `=`.
pub open spec fn base64_char(data: Seq<u8>, i: int) -> char {
    let start = 3 * (i / 4);
    let group = byte_or_zero(data, start) * 0x10000 + byte_or_zero(data, start + 1) * 0x100
        + byte_or_zero(data, start + 2);
    if i % 4 == 0 {
        base64_symbol(group / 0x40000)
    } else if i % 4 == 1 {
        base64_symbol(group / 0x1000 % 64)
    } else if start + i % 4 - 1 >= data.len() {
        '='
    } else if i % 4 == 2 {
        base64_symbol(group / 64 % 64)
    } else {
        base64_symbol(group % 64)
    }
}

/// The padded base64 text of `data` in the standard alphabet.
pub open spec fn base64_text(data: Seq<u8>) -> Seq<char> {
    Seq::new((4 * ((data.len() + 2) / 3)) as nat, |i: int| base64_char(data, i))
}

/// The SHA-256 digest of `data`, as the `sha2` crate computes it.
pub uninterp spec fn sha256_digest(data: Seq<u8>) -> Seq<u8>;

/// Calls `base64`'s `Engine::encode` on its `STANDARD` engine. Claims that the
/// result is the base64 text of the bytes in the standard alphabet, with padding.
/// The text has to fit into a `String`.
#[verifier::external_body]
pub(crate) fn encode_base64(data: &[u8]) -> (text: String)
    requires
        4 * ((data@.len() + 2) / 3) <= isize::MAX,
    ensures
        text@ == base64_text(data@),
{
    base64::engine::general_purpose::STANDARD.encode(data)
}

/// Calls `sha2`'s `Sha256::digest`. Claims that the result is a function of the
/// bytes alone, named `sha256_digest`, and is 32 bytes long. The length of the
/// bytes in bits has to fit into 64 bits.
#[verifier::external_body]
pub(crate) fn sha256(data: &[u8]) -> (digest: Vec<u8>)
    requires
        data@.len() < 0x2000_0000_0000_0000,
    ensures
        digest@ == sha256_digest(data@),
        digest@.len() == 32,
{
    sha2::Sha256::digest(data).to_vec()
}

/// Whether `c` can stand in a base64 text.
pub open spec fn is_base64_char(c: char) -> bool {
    'A' <= c <= 'Z' || 'a' <= c <= 'z' || '0' <= c <= '9' || c == '+' || c == '/' || c == '='
}

/// Base64 text holds nothing but the characters of its alphabet and padding, and is
/// ASCII.
pub proof fn lemma_base64_text(data: Seq<u8>)
    ensures
        forall|i: int| 0 <= i < base64_text(data).len() ==> is_base64_char(#[trigger] base64_text(data)[i]),
        is_ascii_chars(base64_text(data)),
{
    let text = base64_text(data);
    assert forall|i: int| 0 <= i < text.len() implies is_base64_char(#[trigger] text[i]) by {
        let start = 3 * (i / 4);
        assert(0 <= start < data.len());
        let group = byte_or_zero(data, start) * 0x10000 + byte_or_zero(data, start + 1) * 0x100
            + byte_or_zero(data, start + 2);
        assert(0 <= group < 0x1000000);
        assert(text[i] == base64_char(data, i));
    }
}

} // verus!

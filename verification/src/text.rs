//! Text as UTF-8 bytes: decoding, and where a text can be cut.

use vstd::prelude::*;
use vstd::string::StringSliceAdditionalSpecFns;
use vstd::utf8::*;

verus! {

/// The text held by an optional string.
pub open spec fn text_of(text: Option<String>) -> Option<Seq<char>> {
    match text {
        Some(t) => Some(t@),
        None => None,
    }
}

/// The largest byte that encodes a character by itself.
pub const ASCII_MAX: u8 = 127;

/// In valid UTF-8, a character ends with every byte that encodes one by
/// itself, so the text can be cut right after it.
pub proof fn lemma_boundary_after_ascii(bytes: Seq<u8>, i: int)
    requires
        valid_utf8(bytes),
        0 <= i < bytes.len(),
        bytes[i] <= ASCII_MAX,
    ensures
        is_char_boundary(bytes, i + 1),
    decreases bytes.len(),
{
    let first = length_of_first_scalar(bytes);
    let rest = pop_first_scalar(bytes);
    if i < first {
        assert(i == 0 && first == 1);
        assert(is_char_boundary(rest, 0));
    } else {
        assert(rest[i - first] == bytes[i]);
        lemma_boundary_after_ascii(rest, i - first);
    }
}

/// In valid UTF-8, a character starts with every byte that encodes one by
/// itself, so the text can be cut right before it.
pub proof fn lemma_boundary_before_ascii(bytes: Seq<u8>, i: int)
    requires
        valid_utf8(bytes),
        0 <= i < bytes.len(),
        bytes[i] <= ASCII_MAX,
    ensures
        is_char_boundary(bytes, i),
{
    is_char_boundary_iff_not_is_continuation_byte(bytes, i);
}

/// Reads `bytes` as text, through `std::str::from_utf8`. The text is there
/// exactly when the bytes are valid UTF-8, and is then made of these bytes.
#[verifier::external_body]
pub(crate) fn decode_text(bytes: &[u8]) -> (text: Option<&str>)
    ensures
        text is Some <==> valid_utf8(bytes@),
        text matches Some(t) ==> t.spec_bytes() == bytes@,
{
    std::str::from_utf8(bytes).ok()
}

} // verus!

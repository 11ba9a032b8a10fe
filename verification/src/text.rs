//! Text handling shared by the two operations: decoding what a process wrote,
//! and putting failure messages together.

use vstd::prelude::*;
use vstd::string::StringExecFns;
use vstd::utf8::{decode_utf8, encode_utf8, valid_utf8};

verus! {

/// The text that lossy decoding gives for bytes that are not valid UTF-8: the
/// valid stretches as they are, each invalid one replaced by U+FFFD. It depends
/// on the bytes alone.
pub uninterp spec fn repaired_text(bytes: Seq<u8>) -> Seq<char>;

/// The text that lossy decoding gives for any bytes. Valid UTF-8 is decoded as
/// it is; anything else is repaired.
pub open spec fn lossy_text(bytes: Seq<u8>) -> Seq<char> {
    if valid_utf8(bytes) {
        decode_utf8(bytes)
    } else {
        repaired_text(bytes)
    }
}

/// Decodes bytes as text and never fails.
///
/// Calls `String::from_utf8_lossy`. Assumed of it, as its documentation says:
/// bytes that are valid UTF-8 come back as the very text they encode, and
/// other bytes as a text that those bytes determine.
#[verifier::external_body]
pub(crate) fn decode_lossy(bytes: &[u8]) -> (text: String)
    ensures
        valid_utf8(bytes@) ==> text@ == decode_utf8(bytes@),
        !valid_utf8(bytes@) ==> text@ == repaired_text(bytes@),
{
    String::from_utf8_lossy(bytes).into_owned()
}

/// The text made of `prefix` followed by `rest`.
pub fn prefixed(prefix: &str, rest: &str) -> (text: String)
    ensures
        text@ == prefix@ + rest@,
{
    let mut text = String::from_str(prefix);
    text.append(rest);
    text
}

/// Lossy decoding loses nothing of valid input: the text encodes back to the
/// very bytes it was decoded from.
pub proof fn lemma_lossy_text_keeps_valid_bytes(bytes: Seq<u8>)
    requires
        valid_utf8(bytes),
    ensures
        encode_utf8(lossy_text(bytes)) == bytes,
{
    vstd::utf8::decode_utf8_encode_utf8(bytes);
}

/// Lossy decoding undoes encoding: whatever text a process wrote as UTF-8 is
/// the text that comes back.
pub proof fn lemma_lossy_text_of_encoding(text: Seq<char>)
    ensures
        lossy_text(encode_utf8(text)) == text,
{
    vstd::utf8::encode_utf8_valid_utf8(text);
    vstd::utf8::encode_utf8_decode_utf8(text);
}

} // verus!

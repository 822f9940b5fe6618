//! Base64 payloads of media frames.

use vstd::prelude::*;

verus! {

/// The standard base64 text of some bytes, with padding.
pub uninterp spec fn base64_text(bytes: Seq<u8>) -> Seq<char>;

/// The bytes of a standard base64 text, if it is one.
pub uninterp spec fn base64_bytes(text: Seq<char>) -> Option<Seq<u8>>;

/// The length of the base64 text of `n` bytes.
pub open spec fn encoded_len(n: nat) -> nat {
    (n + 2) / 3 * 4
}

/// `base64::engine::general_purpose::STANDARD.encode`.
///
/// Claimed: the text is a function of the bytes, and decoding gives the bytes
/// back. The encoded length, four bytes for every three begun, must be within what
/// a buffer can hold.
#[verifier::external_body]
pub(crate) fn encode_base64(bytes: &Vec<u8>) -> (r: String)
    requires
        encoded_len(bytes@.len()) <= isize::MAX,
    ensures
        r@ == base64_text(bytes@),
        base64_bytes(r@) == Some(bytes@),
{
    base64::Engine::encode(&base64::engine::general_purpose::STANDARD, bytes)
}

/// `base64::engine::general_purpose::STANDARD.decode`.
///
/// Claimed: the bytes, or that there are none, are a function of the text.
#[verifier::external_body]
pub(crate) fn decode_base64(text: &str) -> (r: Option<Vec<u8>>)
    ensures
        match r {
            Some(bytes) => base64_bytes(text@) == Some(bytes@),
            None => base64_bytes(text@) is None,
        },
{
    base64::Engine::decode(&base64::engine::general_purpose::STANDARD, text).ok()
}

} // verus!

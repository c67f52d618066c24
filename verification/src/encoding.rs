//! Trusted boundaries to the content encodings the forge API uses.
//!
//! File bodies travel Base64-encoded; path components travel
//! percent-encoded. Both encodings are functions of their input alone, so
//! each outside call gets a name the contracts of the callers speak of.

use base64::Engine;
use vstd::prelude::*;

verus! {

/// The Base64 (standard alphabet, padded) encoding of a byte sequence.
pub uninterp spec fn base64_encoding_of(data: Seq<u8>) -> Seq<char>;

/// Relies on `base64::engine::general_purpose::STANDARD`'s
/// `Engine::encode`: the standard-alphabet, padded Base64 rendering of
/// the input bytes, a function of the input alone; with padding the
/// output holds four characters for every started group of three input
/// bytes.
#[verifier::external_body]
pub(crate) fn base64_encode(data: &[u8]) -> (r: String)
    ensures
        r@ == base64_encoding_of(data@),
        r@.len() == 4 * ((data@.len() + 2) / 3),
{
    base64::engine::general_purpose::STANDARD.encode(data)
}

/// The bytes a Base64 text decodes to, or nothing when the text is not
/// valid Base64 under the standard padded alphabet.
pub uninterp spec fn base64_decoding_of(s: Seq<char>) -> Option<Seq<u8>>;

/// Relies on `base64::engine::general_purpose::STANDARD`'s
/// `Engine::decode`: decodes valid standard-alphabet Base64 to its bytes
/// and rejects anything else; the outcome is a function of the input
/// alone. The error case hands back the decode error's own description.
#[verifier::external_body]
pub(crate) fn base64_decode(s: &str) -> (r: Result<Vec<u8>, String>)
    ensures
        r is Ok <==> base64_decoding_of(s@) is Some,
        r matches Ok(v) ==> Some(v@) == base64_decoding_of(s@),
{
    match base64::engine::general_purpose::STANDARD.decode(s) {
        Ok(v) => Ok(v),
        Err(e) => Err(e.to_string()),
    }
}

/// The percent-encoding of a text: every byte of its UTF-8 form except
/// ASCII alphanumerics and `-`, `_`, `.`, `~` is written as `%XX`.
pub uninterp spec fn url_encoding_of(s: Seq<char>) -> Seq<char>;

/// Relies on `urlencoding::encode`: percent-encodes every byte except
/// ASCII alphanumerics and `-`, `_`, `.`, `~`, a function of the input
/// alone.
#[verifier::external_body]
pub(crate) fn url_encode(s: &str) -> (r: String)
    ensures
        r@ == url_encoding_of(s@),
{
    urlencoding::encode(s).into_owned()
}

} // verus!

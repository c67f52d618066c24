//! Content digests.
//!
//! A stable identifier for a tree entry, and the provenance hash of a
//! submitted file, are both the lowercase hexadecimal rendering of a
//! SHA-256 digest. The digest itself comes from the `sha2` crate through
//! one trusted wrapper; the hexadecimal rendering is verified here.

use sha2::Digest;
use vstd::prelude::*;

use crate::strutil::push_char;

verus! {

/// The SHA-256 digest of a byte sequence. The digest depends on the
/// input bytes alone, so repeated calls on equal input agree.
pub uninterp spec fn sha256_digest_of(data: Seq<u8>) -> Seq<u8>;

/// Relies on `sha2::Sha256::digest` (the one-shot `Digest` interface):
/// computes the 32-byte SHA-256 digest of the input, a function of the
/// input bytes alone.
#[verifier::external_body]
fn sha256_digest(data: &[u8]) -> (r: Vec<u8>)
    ensures
        r@ == sha256_digest_of(data@),
        r@.len() == 32,
{
    sha2::Sha256::digest(data).to_vec()
}

/// The lowercase hexadecimal character for a value below sixteen.
pub open spec fn hex_char(d: int) -> char {
    if d < 10 {
        (48 + d) as char
    } else {
        (87 + d) as char
    }
}

/// The lowercase hexadecimal rendering of a byte sequence: two digits per
/// byte, high nibble first.
pub open spec fn hex_of_bytes(data: Seq<u8>) -> Seq<char>
    decreases data.len(),
{
    if data.len() == 0 {
        Seq::empty()
    } else {
        hex_of_bytes(data.drop_last()) + seq![
            hex_char(data.last() as int / 16),
            hex_char(data.last() as int % 16),
        ]
    }
}

/// The hexadecimal rendering is twice as long as its input.
pub proof fn lemma_hex_len(data: Seq<u8>)
    ensures
        hex_of_bytes(data).len() == 2 * data.len(),
    decreases data.len(),
{
    if data.len() > 0 {
        lemma_hex_len(data.drop_last());
    }
}

/// The lowercase hexadecimal digit character for `d`.
fn hex_char_of(d: u8) -> (r: char)
    requires
        d < 16,
    ensures
        r == hex_char(d as int),
{
    if d < 10 {
        (48 + d) as char
    } else {
        (87 + d) as char
    }
}

/// Renders a byte slice as lowercase hexadecimal, two digits per byte.
pub fn to_hex_lower(data: &[u8]) -> (r: String)
    ensures
        r@ == hex_of_bytes(data@),
        r@.len() == 2 * data@.len(),
{
    let len = data.len();
    let mut res = String::new();
    proof {
        assert(data@.take(0) =~= Seq::<u8>::empty());
    }
    let mut i: usize = 0;
    while i < len
        invariant
            len == data@.len(),
            0 <= i <= len,
            res@ == hex_of_bytes(data@.take(i as int)),
        decreases len - i,
    {
        let b = data[i];
        let hi = b / 16;
        let lo = b % 16;
        push_char(&mut res, hex_char_of(hi));
        push_char(&mut res, hex_char_of(lo));
        proof {
            let t = data@.take(i + 1);
            assert(t.drop_last() =~= data@.take(i as int));
            assert(t.last() == data@[i as int]);
        }
        i += 1;
    }
    proof {
        assert(data@.take(len as int) =~= data@);
        lemma_hex_len(data@);
    }
    res
}

/// The content-addressing identifier of a byte sequence: the lowercase
/// hexadecimal rendering of its SHA-256 digest, 64 characters long.
pub open spec fn spec_sha256_hex(data: Seq<u8>) -> Seq<char> {
    hex_of_bytes(sha256_digest_of(data))
}

/// Computes the lowercase hexadecimal SHA-256 digest of a byte slice.
pub fn sha256_hex(data: &[u8]) -> (r: String)
    ensures
        r@ == spec_sha256_hex(data@),
        r@.len() == 64,
{
    let d = sha256_digest(data);
    let r = to_hex_lower(d.as_slice());
    r
}

} // verus!

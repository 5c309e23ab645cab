//! Text decoding and comparison over raw bytes.

use vstd::prelude::*;
use vstd::slice::slice_to_vec;
use vstd::utf8::{decode_utf8, encode_utf8, valid_utf8};

verus! {

/// Decodes bytes as UTF-8 text, or reports that they are not valid.
///
/// Relies on `String::from_utf8`: it returns `Ok` exactly when the bytes are
/// valid UTF-8, and the returned string's characters are the decoded scalar
/// values of those bytes (so re-encoding the string gives the bytes back).
#[verifier::external_body]
pub fn decode_text(bytes: &Vec<u8>) -> (r: Option<String>)
    ensures
        r is Some <==> valid_utf8(bytes@),
        r is Some ==> r.unwrap()@ == decode_utf8(bytes@),
        r is Some ==> encode_utf8(r.unwrap()@) == bytes@,
{
    String::from_utf8(bytes.clone()).ok()
}

/// Whether two pieces of text hold the same characters.
pub fn str_eq(a: &str, b: &str) -> (r: bool)
    ensures
        r == (a@ == b@),
{
    broadcast use vstd::utf8::encode_utf8_decode_utf8;

    let abytes: Vec<u8> = slice_to_vec(a.as_bytes());
    let bbytes: Vec<u8> = slice_to_vec(b.as_bytes());
    if abytes.len() != bbytes.len() {
        return false;
    }
    let mut i: usize = 0;
    while i < abytes.len()
        invariant
            abytes.len() == bbytes.len(),
            i <= abytes.len(),
            abytes@ == encode_utf8(a@),
            bbytes@ == encode_utf8(b@),
            forall|k: int| 0 <= k < i ==> abytes@[k] == bbytes@[k],
        decreases abytes.len() - i,
    {
        if abytes[i] != bbytes[i] {
            return false;
        }
        i = i + 1;
    }
    proof {
        assert(encode_utf8(a@) =~= encode_utf8(b@));
        assert(decode_utf8(encode_utf8(a@)) == decode_utf8(encode_utf8(b@)));
    }
    true
}

} // verus!

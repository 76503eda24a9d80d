//! UTF-8 text.
use vstd::prelude::*;
use vstd::slice::slice_to_vec;
use vstd::utf8::{valid_utf8, decode_utf8, encode_utf8, encode_utf8_decode_utf8};
use crate::error::{Error, res_view};

verus! {

/// The text that the bytes `b` encode, or `BadData` where they are not UTF-8.
pub open spec fn decode_text(b: Seq<u8>) -> Result<Seq<char>, Error> {
    if valid_utf8(b) {
        Ok(decode_utf8(b))
    } else {
        Err(Error::BadData)
    }
}

/// `String::from_utf8` of std: it succeeds exactly when the bytes are UTF-8,
/// and then the string's bytes are those bytes.
#[verifier::external_body]
fn string_from_utf8(bytes: Vec<u8>) -> (res: Option<String>)
    ensures
        res is Some <==> valid_utf8(bytes@),
        res matches Some(s) ==> encode_utf8(s@) == bytes@,
{
    String::from_utf8(bytes).ok()
}

/// The string that `b` encodes in UTF-8.
pub fn text_from_bytes(b: &[u8]) -> (res: Result<String, Error>)
    ensures
        res_view(res) == decode_text(b@),
{
    let v = slice_to_vec(b);
    match string_from_utf8(v) {
        Some(s) => {
            proof {
                encode_utf8_decode_utf8(s@);
            }
            Ok(s)
        },
        None => Err(Error::BadData),
    }
}

/// The UTF-8 bytes of a string.
pub fn text_bytes_of(s: &str) -> (b: &[u8])
    ensures
        b@ == encode_utf8(s@),
{
    s.as_bytes()
}

/// Whether a string is exactly `lit`.
pub fn text_is(s: &String, lit: &str) -> (b: bool)
    ensures
        b == (s@ == lit@),
{
    let l = lit.to_owned();
    *s == l
}

} // verus!

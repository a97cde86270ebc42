//! Text that comes from the engine as bytes.

use vstd::prelude::*;
use vstd::utf8::{decode_utf8, valid_utf8};

verus! {

/// The characters that `String::from_utf8_lossy` reads from bytes.
pub uninterp spec fn lossy_text(bytes: Seq<u8>) -> Seq<char>;

/// Reads bytes as UTF-8, with `String::from_utf8_lossy`.
///
/// The text depends on the bytes alone. Where the bytes are valid UTF-8 it is what they encode.
/// How many replacement characters stand for bytes that are not is left to the standard library.
#[verifier::external_body]
pub(crate) fn from_utf8_lossy(bytes: &[u8]) -> (r: String)
    ensures
        r@ == lossy_text(bytes@),
        valid_utf8(bytes@) ==> r@ == decode_utf8(bytes@),
{
    String::from_utf8_lossy(bytes).into_owned()
}

/// The name that the engine gives something, or `None` where it has none.
///
/// `bytes` are those of the engine's string, without the closing zero byte.
pub fn name_text(bytes: Option<Vec<u8>>) -> (r: Option<String>)
    ensures
        match bytes {
            Some(b) => {
                &&& r matches Some(s)
                &&& s@ == lossy_text(b@)
                &&& valid_utf8(b@) ==> s@ == decode_utf8(b@)
            },
            None => r is None,
        },
{
    match bytes {
        Some(b) => Some(from_utf8_lossy(b.as_slice())),
        None => None,
    }
}

} // verus!

//! Lengths of names and texts, counted in bytes of their UTF-8 encoding, as
//! the records that store them reserve space.

use vstd::prelude::*;
use vstd::utf8::encode_utf8;

verus! {

/// The number of bytes that `text` takes in UTF-8.
pub open spec fn byte_len(text: Seq<char>) -> usize {
    encode_utf8(text).len() as usize
}

/// The length of `text` in bytes.
pub fn text_len(text: &String) -> (n: usize)
    ensures
        n == byte_len(text@),
{
    text.as_str().len()
}

} // verus!

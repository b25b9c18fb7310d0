//! Lengths of text fields, counted in bytes of UTF-8.

use vstd::prelude::*;
use vstd::utf8::encode_utf8;

verus! {

/// The number of bytes that the text takes in UTF-8.
pub open spec fn byte_len(text: Seq<char>) -> nat {
    encode_utf8(text).len()
}

/// The number of bytes that the text takes in UTF-8.
pub fn len_of(text: &String) -> (len: usize)
    ensures
        len == byte_len(text@),
{
    text.as_str().as_bytes().len()
}

/// The bytes of the text in UTF-8.
pub fn bytes_of(text: &String) -> (bytes: Vec<u8>)
    ensures
        bytes@ == encode_utf8(text@),
{
    let mut bytes: Vec<u8> = Vec::new();
    bytes.extend_from_slice(text.as_str().as_bytes());
    bytes
}

} // verus!

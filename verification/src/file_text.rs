//! From the bytes of a configuration file to its text.
//!
//! The files are UTF-8, and may start with a byte-order mark, which is no
//! part of the text.

use vstd::prelude::*;
use vstd::slice::slice_subrange;
use vstd::utf8::{decode_utf8, valid_utf8};

verus! {

/// `bytes` starts with the UTF-8 byte-order mark.
pub open spec fn has_mark(bytes: Seq<u8>) -> bool {
    bytes.len() >= 3 && bytes[0] == 0xEF && bytes[1] == 0xBB && bytes[2] == 0xBF
}

/// The bytes behind the byte-order mark, or all of them where there is none.
pub open spec fn without_mark(bytes: Seq<u8>) -> Seq<u8> {
    if has_mark(bytes) {
        bytes.skip(3)
    } else {
        bytes
    }
}

/// The text that the bytes of a file hold: what the bytes behind the mark
/// decode to, where they are UTF-8.
pub open spec fn text_of(bytes: Seq<u8>) -> Option<Seq<char>> {
    if valid_utf8(without_mark(bytes)) {
        Some(decode_utf8(without_mark(bytes)))
    } else {
        None
    }
}

/// `std::str::from_utf8`: the text that `bytes` encode, where they are
/// UTF-8, and nothing where they are not.
#[verifier::external_body]
fn from_utf8(bytes: &[u8]) -> (r: Option<&str>)
    ensures
        match r {
            Some(text) => valid_utf8(bytes@) && text@ == decode_utf8(bytes@),
            None => !valid_utf8(bytes@),
        },
{
    std::str::from_utf8(bytes).ok()
}

/// The text of a configuration file, given its bytes.
pub fn file_text(bytes: &[u8]) -> (r: Option<&str>)
    ensures
        match r {
            Some(text) => text_of(bytes@) == Some(text@),
            None => text_of(bytes@) is None,
        },
{
    if bytes.len() >= 3 && bytes[0] == 0xEF && bytes[1] == 0xBB && bytes[2] == 0xBF {
        from_utf8(slice_subrange(bytes, 3, bytes.len()))
    } else {
        from_utf8(bytes)
    }
}

/// A file without a byte-order mark holds what its bytes decode to, and a
/// mark in front of the same bytes changes nothing.
pub proof fn law_mark_is_dropped(bytes: Seq<u8>)
    requires
        !has_mark(bytes),
    ensures
        text_of(seq![0xEFu8, 0xBBu8, 0xBFu8] + bytes) == text_of(bytes),
{
    let marked = seq![0xEFu8, 0xBBu8, 0xBFu8] + bytes;
    assert(has_mark(marked));
    assert(marked.skip(3) =~= bytes);
}

} // verus!

//! Searching one string in another, byte by byte.

use vstd::prelude::*;
use vstd::string::StringSliceAdditionalSpecFns;
use vstd::utf8::encode_utf8;

verus! {

/// `needle` stands in `hay` at offset `at`.
pub open spec fn occurs_at(hay: Seq<u8>, needle: Seq<u8>, at: int) -> bool {
    &&& 0 <= at
    &&& at + needle.len() <= hay.len()
    &&& forall|k: int| 0 <= k < needle.len() ==> hay[at + k] == #[trigger] needle[k]
}

/// `needle` stands somewhere in `hay`. The empty needle stands in every
/// string.
pub open spec fn occurs_in(hay: Seq<u8>, needle: Seq<u8>) -> bool {
    exists|at: int| occurs_at(hay, needle, at)
}

/// The text `needle` stands somewhere in the text `hay`, both taken as their
/// UTF-8 bytes.
pub open spec fn text_contains(hay: Seq<char>, needle: Seq<char>) -> bool {
    occurs_in(encode_utf8(hay), encode_utf8(needle))
}

/// Whether `needle` stands in `hay` at offset `at`.
fn matches_at(hay: &[u8], needle: &[u8], at: usize) -> (yes: bool)
    requires
        at + needle@.len() <= hay@.len(),
    ensures
        yes == occurs_at(hay@, needle@, at as int),
{
    let hay_len: usize = hay.len();
    let needle_len: usize = needle.len();
    let mut k: usize = 0;
    while k < needle_len
        invariant
            k <= needle_len == needle@.len(),
            at + needle_len <= hay_len == hay@.len(),
            forall|j: int| 0 <= j < k ==> hay@[at + j] == #[trigger] needle@[j],
        decreases needle_len - k,
    {
        if hay[at + k] != needle[k] {
            return false;
        }
        k = k + 1;
    }
    true
}

/// Whether the bytes of `needle` stand somewhere in the bytes of `hay`.
pub fn contains(hay: &str, needle: &str) -> (found: bool)
    ensures
        found == text_contains(hay@, needle@),
{
    let hay_bytes = hay.as_bytes();
    let needle_bytes = needle.as_bytes();
    if needle_bytes.len() > hay_bytes.len() {
        return false;
    }
    let last: usize = hay_bytes.len() - needle_bytes.len();
    let mut at: usize = 0;
    loop
        invariant
            at <= last,
            last == hay_bytes@.len() - needle_bytes@.len(),
            hay_bytes@ == hay.spec_bytes(),
            needle_bytes@ == needle.spec_bytes(),
            forall|j: int| 0 <= j < at ==> !occurs_at(hay_bytes@, needle_bytes@, j),
        decreases last - at,
    {
        if matches_at(hay_bytes, needle_bytes, at) {
            return true;
        }
        if at == last {
            return false;
        }
        at = at + 1;
    }
}

} // verus!

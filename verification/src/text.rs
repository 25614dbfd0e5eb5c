//! Text across the boundary: host strings as C strings, and the native
//! library's bytes as host strings.

use vstd::pervasive::unreached;
use vstd::prelude::*;
use vstd::string::StringSliceAdditionalSpecFns;
use vstd::utf8::{encode_utf8, valid_utf8};

verus! {

/// True when `bytes` is a C string: it ends in a NUL byte and holds no other.
pub open spec fn is_c_string(bytes: Seq<u8>) -> bool {
    &&& bytes.len() > 0
    &&& bytes.last() == 0u8
    &&& forall|i: int| 0 <= i < bytes.len() - 1 ==> bytes[i] != 0u8
}

/// The C string for `chars`: its UTF-8 encoding followed by one NUL byte.
pub open spec fn c_string_bytes(chars: Seq<char>) -> Seq<u8> {
    encode_utf8(chars).push(0u8)
}

/// Tells whether the UTF-8 encoding of `s` holds a NUL byte, in which case
/// `s` has no C string.
pub fn contains_nul(s: &str) -> (r: bool)
    ensures
        r == s.spec_bytes().contains(0u8),
{
    let bytes = s.as_bytes();
    let mut i: usize = 0;
    while i < bytes.len()
        invariant
            bytes@ == s.spec_bytes(),
            i <= bytes.len(),
            forall|j: int| 0 <= j < i ==> bytes@[j] != 0u8,
        decreases bytes.len() - i,
    {
        if bytes[i] == 0 {
            assert(bytes@[i as int] == 0u8);
            return true;
        }
        i += 1;
    }
    false
}

/// Text whose encoding holds no NUL byte has a C string, and it is
/// [`c_string_bytes`].
pub proof fn lemma_c_string_bytes(chars: Seq<char>)
    requires
        !encode_utf8(chars).contains(0u8),
    ensures
        is_c_string(c_string_bytes(chars)),
        c_string_bytes(chars).len() == encode_utf8(chars).len() + 1,
{
    let bytes = c_string_bytes(chars);
    assert forall|i: int| 0 <= i < bytes.len() - 1 implies bytes[i] != 0u8 by {
        assert(encode_utf8(chars).contains(bytes[i]));
    }
}

/// Copies `s` into a freshly owned, NUL-terminated buffer.
pub(crate) fn to_c_string(s: &str) -> (r: Vec<u8>)
    requires
        !s.spec_bytes().contains(0u8),
    ensures
        r@ == c_string_bytes(s@),
        is_c_string(r@),
{
    let mut buffer = vstd::slice::slice_to_vec(s.as_bytes());
    buffer.push(0u8);
    proof {
        lemma_c_string_bytes(s@);
    }
    buffer
}

/// `core::str::from_utf8` of the standard library, with its error dropped:
/// the string over exactly these bytes where they are valid UTF-8, and
/// nothing where they are not.
#[verifier::external_body]
fn from_utf8(bytes: &[u8]) -> (r: Option<&str>)
    ensures
        match r {
            Some(s) => valid_utf8(bytes@) && s.spec_bytes() == bytes@,
            None => !valid_utf8(bytes@),
        },
{
    match core::str::from_utf8(bytes) {
        Ok(s) => Some(s),
        Err(_) => None,
    }
}

/// The text that `bytes` encode, or `None` where they are not valid UTF-8.
pub fn text_of(bytes: &[u8]) -> (r: Option<&str>)
    ensures
        match r {
            Some(s) => valid_utf8(bytes@) && s.spec_bytes() == bytes@,
            None => !valid_utf8(bytes@),
        },
{
    from_utf8(bytes)
}

/// The version of the native library as text, from the bytes of the C string
/// that it reports, without the NUL that ends it.
pub fn get_version(bytes: &'static [u8]) -> (r: &'static str)
    requires
        valid_utf8(bytes@),
    ensures
        r.spec_bytes() == bytes@,
{
    match from_utf8(bytes) {
        Some(s) => s,
        None => unreached(),
    }
}

} // verus!

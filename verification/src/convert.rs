//! Conversions of host values to the native library's integer types.

use vstd::prelude::*;

verus! {

/// A count as the native `int`: the low 32 bits of `n`, read as signed. It
/// is `n` itself wherever `n` fits.
pub open spec fn c_int_of(n: usize) -> i32 {
    n as i32
}

/// Computes [`c_int_of`].
pub fn to_c_int(n: usize) -> (r: i32)
    ensures
        r == c_int_of(n),
        n <= i32::MAX ==> r == n,
{
    #[verifier::truncate]
    (n as i32)
}

} // verus!

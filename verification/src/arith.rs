//! Plain integer arithmetic.

use vstd::prelude::*;

verus! {

/// The sum of `a` and `b`.
///
/// The caller keeps the sum inside the range of `i32`.
pub fn add_numbers(a: i32, b: i32) -> (sum: i32)
    requires
        i32::MIN <= a + b <= i32::MAX,
    ensures
        sum == a + b,
{
    a + b
}

} // verus!

//! Random placement of scene elements.

use vstd::prelude::*;

verus! {

/// `r` is a legal outcome of picking a value between the bounds `a` and `b`,
/// given in either order: the lower bound is included, the upper one is not.
/// Where both bounds are equal, only that value is legal.
pub open spec fn lies_between(a: int, b: int, r: int) -> bool {
    if a < b {
        a <= r < b
    } else if b < a {
        b <= r < a
    } else {
        r == a
    }
}

/// Calls `nannou::rand::random_range`, which orders its two bounds, then
/// samples the thread-local generator uniformly from the half-open range
/// between them. It panics on an empty range, so equal bounds are left out.
/// The contract claims only the range of the result, for every outcome.
#[verifier::external_body]
fn random_range(min: i64, max: i64) -> (r: i64)
    requires
        min != max,
    ensures
        lies_between(min as int, max as int, r as int),
{
    nannou::rand::random_range(min, max)
}

/// Picks a coordinate between two bounds given in either order. With equal
/// bounds there is nothing to choose and the bound itself is returned.
pub fn pick_between(a: i64, b: i64) -> (r: i64)
    ensures
        lies_between(a as int, b as int, r as int),
{
    if a == b {
        a
    } else {
        random_range(a, b)
    }
}

} // verus!

//! The scratch storage behind the transformations of a point: taking the items out of an
//! array one by one, and putting as many items together again as an array.

use vstd::prelude::*;
use arrayvec::ArrayVec;

verus! {

/// The greatest number of dimensions that a point can have when it is transformed.
pub const MAX_POINT_DIMS: usize = 4294967295;

/// Whether a point of `dims` dimensions can be transformed.
pub fn within_transform_cap(dims: usize) -> (fits: bool)
    ensures
        fits == (dims <= MAX_POINT_DIMS),
{
    dims <= MAX_POINT_DIMS
}

/// Moves the items of an array into a vector, through `ArrayVec::from` and the by-value
/// iterator of `ArrayVec`. Believed of them: the vector holds the array's items, in the
/// array's order. `ArrayVec::from` panics on an array of more than `u32::MAX` items.
#[verifier::external_body]
fn array_into_items<T, const N: usize>(array: [T; N]) -> (items: Vec<T>)
    requires
        N <= MAX_POINT_DIMS,
    ensures
        items@ == array@,
{
    ArrayVec::from(array).into_iter().collect()
}

/// Collects the items of a vector into an `ArrayVec` of capacity `N` and asks it for its
/// array, through `ArrayVec::from_iter` and `ArrayVec::into_inner`. Believed of them: `N`
/// items come back as the array of these items in the same order, fewer come back as they
/// were. `from_iter` panics on more than `N` items, and on `N` over `u32::MAX`.
#[verifier::external_body]
fn items_into_array<T, const N: usize>(items: Vec<T>) -> (array: Result<[T; N], Vec<T>>)
    requires
        N <= MAX_POINT_DIMS,
        items@.len() <= N,
    ensures
        match array {
            Ok(full) => items@.len() == N && full@ == items@,
            Err(part) => items@.len() != N && part@ == items@,
        },
{
    let filled: ArrayVec<T, N> = items.into_iter().collect();
    match filled.into_inner() {
        Ok(full) => Ok(full),
        Err(part) => Err(part.into_iter().collect()),
    }
}

/// The items of `items` in the opposite order.
pub(crate) fn reversed<T>(items: Vec<T>) -> (turned: Vec<T>)
    ensures
        turned@ == items@.reverse(),
{
    let ghost before = items@;
    let mut rest = items;
    let mut turned: Vec<T> = Vec::new();
    while rest.len() > 0
        invariant
            rest@.len() + turned@.len() == before.len(),
            rest@ == before.subrange(0, rest@.len() as int),
            forall|j: int| 0 <= j < turned@.len() ==> turned@[j] == before[before.len() - 1 - j],
        decreases rest@.len(),
    {
        let item = rest.pop().unwrap();
        turned.push(item);
    }
    assert(turned@ =~= before.reverse());
    turned
}

/// The items of an array, last item first, ready to be popped in the array's order.
pub(crate) fn unpack<T, const N: usize>(array: [T; N]) -> (stack: Vec<T>)
    requires
        N <= MAX_POINT_DIMS,
    ensures
        stack@ == array@.reverse(),
{
    reversed(array_into_items(array))
}

/// The array of exactly `N` collected items.
pub(crate) fn assemble<T, const N: usize>(items: Vec<T>) -> (array: [T; N])
    requires
        N <= MAX_POINT_DIMS,
        items@.len() == N,
    ensures
        array@ == items@,
{
    match items_into_array(items) {
        Ok(full) => full,
        Err(_) => vstd::pervasive::unreached(),
    }
}

} // verus!

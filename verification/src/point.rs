//! The point itself: its constructors, its accessors, its equality and its
//! transformations.

use vstd::prelude::*;
use vstd::std_specs::cmp::PartialEqSpec;
use vstd::std_specs::cmp::PartialEqSpecImpl;
use vstd::std_specs::convert::FromSpec;
use vstd::std_specs::convert::FromSpecImpl;
use vstd::std_specs::convert::TryFromSpec;
use vstd::std_specs::convert::TryFromSpecImpl;
use crate::transform::assemble;
use crate::transform::unpack;
use crate::transform::MAX_POINT_DIMS;

verus! {

/// Why a slice could not become a point: it holds `found` items where the point has
/// `expected` dimensions.
#[derive(Clone, Copy, Debug, PartialEq, Eq, Structural)]
pub struct LengthMismatch {
    pub expected: usize,
    pub found: usize,
}

/// The error of `<[T; N]>::try_from` on a slice.
#[verifier::external_type_specification]
#[verifier::external_body]
pub struct ExTryFromSliceError(core::array::TryFromSliceError);

/// Copies a slice into an array, through `<[T; N]>::try_from`. Believed of it: a slice of
/// exactly `N` items gives the array of these items in the same order, and a slice of any
/// other length gives the error.
#[verifier::external_body]
pub(crate) fn array_from_slice<T: Copy, const N: usize>(slice: &[T]) -> (copied: Result<
    [T; N],
    core::array::TryFromSliceError,
>)
    ensures
        match copied {
            Ok(array) => slice@.len() == N && array@ == slice@,
            Err(_) => slice@.len() != N,
        },
{
    <[T; N]>::try_from(slice)
}

/// A point of `N` dimensions: an array of `N` items, of which the item at position 0 is
/// the first dimension. Its view is the sequence of its items.
#[derive(Clone, Debug)]
pub struct PointND<T, const N: usize>([T; N]);

impl<T, const N: usize> View for PointND<T, N> {
    type V = Seq<T>;

    closed spec fn view(&self) -> Seq<T> {
        self.0@
    }
}

/// An array whose first `upto` items are those of `items`.
pub proof fn array_of_items<T, const N: usize>(items: Seq<T>, upto: nat) -> (array: [T; N])
    requires
        items.len() == N,
        upto <= N,
    ensures
        forall|i: int| 0 <= i < upto ==> array@[i] == items[i],
    decreases upto,
{
    if upto == 0 {
        arbitrary()
    } else {
        let before = array_of_items::<T, N>(items, (upto - 1) as nat);
        vstd::array::spec_array_update(before, upto - 1, items[upto - 1])
    }
}

/// A point has as many items as it has dimensions.
pub broadcast proof fn lemma_len<T, const N: usize>(p: PointND<T, N>)
    ensures
        #[trigger] p@.len() == N,
{
}

impl<T, const N: usize> PointND<T, N> {
    /// The point that holds `array`.
    pub closed spec fn of_array(array: [T; N]) -> Self {
        PointND(array)
    }

    /// The array that the point holds.
    pub closed spec fn array(self) -> [T; N] {
        self.0
    }

    /// The point of the `N` items of `items`.
    pub open spec fn of_items(items: Seq<T>) -> Self
        recommends
            items.len() == N,
    {
        choose|p: Self| p@ == items
    }

    /// What a checked read at position `i` gives: the item there, or nothing where `i` is
    /// no position of the point.
    pub open spec fn item_at(&self, i: usize) -> Option<&T> {
        if i < N {
            Some(&self@[i as int])
        } else {
            None
        }
    }

    /// There is a point of any `N` items, and `of_items` is that point.
    pub proof fn lemma_of_items(items: Seq<T>)
        requires
            items.len() == N,
        ensures
            Self::of_items(items)@ == items,
    {
        let array = array_of_items::<T, N>(items, N as nat);
        assert(array@ =~= items);
        assert(Self::of_array(array)@ == items);
    }

    /// Two points of the same items are the same point.
    pub proof fn lemma_same_items(self, other: Self)
        requires
            self@ == other@,
        ensures
            self == other,
    {
        assert(self.0 =~= other.0);
    }

    /// Returns the number of dimensions of the point.
    pub fn dims(&self) -> (n: usize)
        ensures
            n == N,
            n == self@.len(),
    {
        self.0.len()
    }

    /// Consumes the point and returns the array it holds.
    pub fn into_arr(self) -> (arr: [T; N])
        ensures
            arr == self.array(),
            arr@ == self@,
    {
        self.0
    }

    /// The item at position `i` of the point.
    pub fn index(&self, i: usize) -> (item: &T)
        requires
            i < N,
        ensures
            *item == self@[i as int],
    {
        &self.0[i]
    }

    /// The place of the item at position `i` of the point. What is written there is the
    /// point's item at `i` from then on; the other items stay.
    pub fn index_mut(&mut self, i: usize) -> (place: &mut T)
        requires
            i < N,
        ensures
            *place == old(self)@[i as int],
            final(self)@ == old(self)@.update(i as int, *final(place)),
    {
        &mut self.0[i]
    }

    /// The item at position `i`, or `None` where `i` is no position of the point.
    pub fn get(&self, i: usize) -> (item: Option<&T>)
        ensures
            item == self.item_at(i),
            item is Some <==> i < N,
    {
        if i < N {
            Some(&self.0[i])
        } else {
            None
        }
    }

    /// Consumes the point and calls `modifier` on each of its items, in the order of
    /// their positions, to make a point of the same length out of what it returns.
    pub fn apply<U, F: Fn(T) -> U>(self, modifier: F) -> (mapped: PointND<U, N>)
        requires
            N <= MAX_POINT_DIMS,
            forall|i: int| 0 <= i < N ==> call_requires(modifier, (#[trigger] self@[i],)),
        ensures
            mapped@.len() == self@.len(),
            forall|i: int|
                0 <= i < N ==> call_ensures(modifier, (self@[i],), #[trigger] mapped@[i]),
    {
        let ghost source = self@;
        let mut stack = unpack(self.into_arr());
        let mut done: Vec<U> = Vec::new();
        let mut i: usize = 0;
        while i < N
            invariant
                0 <= i <= N,
                source.len() == N,
                done@.len() == i,
                stack@ == source.reverse().subrange(0, N - i),
                forall|j: int| 0 <= j < N ==> call_requires(modifier, (#[trigger] source[j],)),
                forall|j: int|
                    0 <= j < i ==> call_ensures(modifier, (source[j],), #[trigger] done@[j]),
            decreases N - i,
        {
            let item = stack.pop().unwrap();
            assert(item == source[i as int]);
            done.push(modifier(item));
            i += 1;
        }
        PointND(assemble(done))
    }

    /// Consumes the point and calls `modifier` on the items at the positions that `dims`
    /// lists, to make a point of the same length. The items at the other positions pass
    /// to the new point without change. A position that `dims` lists more than once is
    /// modified once; a listed number that is no position of the point is ignored.
    pub fn apply_dims<F: Fn(T) -> T>(self, dims: &[usize], modifier: F) -> (mapped: Self)
        requires
            N <= MAX_POINT_DIMS,
            forall|i: int|
                0 <= i < N && dims@.contains(i as usize) ==> call_requires(
                    modifier,
                    (#[trigger] self@[i],),
                ),
        ensures
            mapped@.len() == self@.len(),
            forall|i: int|
                0 <= i < N && dims@.contains(i as usize) ==> call_ensures(
                    modifier,
                    (self@[i],),
                    #[trigger] mapped@[i],
                ),
            forall|i: int|
                0 <= i < N && !dims@.contains(i as usize) ==> #[trigger] mapped@[i] == self@[i],
    {
        let ghost source = self@;
        let mut stack = unpack(self.into_arr());
        let mut done: Vec<T> = Vec::new();
        let mut i: usize = 0;
        while i < N
            invariant
                0 <= i <= N,
                source.len() == N,
                done@.len() == i,
                stack@ == source.reverse().subrange(0, N - i),
                forall|j: int|
                    0 <= j < N && dims@.contains(j as usize) ==> call_requires(
                        modifier,
                        (#[trigger] source[j],),
                    ),
                forall|j: int|
                    0 <= j < i && dims@.contains(j as usize) ==> call_ensures(
                        modifier,
                        (source[j],),
                        #[trigger] done@[j],
                    ),
                forall|j: int|
                    0 <= j < i && !dims@.contains(j as usize) ==> #[trigger] done@[j]
                        == source[j],
            decreases N - i,
        {
            let item = stack.pop().unwrap();
            assert(item == source[i as int]);
            if lists_dim(dims, i) {
                done.push(modifier(item));
            } else {
                done.push(item);
            }
            i += 1;
        }
        PointND(assemble(done))
    }

    /// Consumes the point and calls `modifier` on each of its items together with the
    /// item of `values` at the same position, to make a point of the same length. The
    /// point's item is the first argument, the item of `values` the second.
    pub fn apply_vals<U, V, F: Fn(T, V) -> U>(self, values: [V; N], modifier: F) -> (mapped:
        PointND<U, N>)
        requires
            N <= MAX_POINT_DIMS,
            forall|i: int|
                0 <= i < N ==> call_requires(modifier, (#[trigger] self@[i], values@[i])),
        ensures
            mapped@.len() == self@.len(),
            forall|i: int|
                0 <= i < N ==> call_ensures(
                    modifier,
                    (self@[i], values@[i]),
                    #[trigger] mapped@[i],
                ),
    {
        let ghost source = self@;
        let ghost paired = values@;
        let mut stack = unpack(self.into_arr());
        let mut vals = unpack(values);
        let mut done: Vec<U> = Vec::new();
        let mut i: usize = 0;
        while i < N
            invariant
                0 <= i <= N,
                source.len() == N,
                paired.len() == N,
                done@.len() == i,
                stack@ == source.reverse().subrange(0, N - i),
                vals@ == paired.reverse().subrange(0, N - i),
                forall|j: int|
                    0 <= j < N ==> call_requires(modifier, (#[trigger] source[j], paired[j])),
                forall|j: int|
                    0 <= j < i ==> call_ensures(
                        modifier,
                        (source[j], paired[j]),
                        #[trigger] done@[j],
                    ),
            decreases N - i,
        {
            let a = stack.pop().unwrap();
            let b = vals.pop().unwrap();
            assert(a == source[i as int]);
            assert(b == paired[i as int]);
            done.push(modifier(a, b));
            i += 1;
        }
        PointND(assemble(done))
    }

    /// Consumes the point and calls `modifier` on each of its items together with the
    /// item of `other` at the same position, to make a point of the same length. The
    /// point's item is the first argument, the item of `other` the second.
    pub fn apply_point<U, V, F: Fn(T, V) -> U>(
        self,
        other: PointND<V, N>,
        modifier: F,
    ) -> (mapped: PointND<U, N>)
        requires
            N <= MAX_POINT_DIMS,
            forall|i: int|
                0 <= i < N ==> call_requires(modifier, (#[trigger] self@[i], other@[i])),
        ensures
            mapped@.len() == self@.len(),
            forall|i: int|
                0 <= i < N ==> call_ensures(
                    modifier,
                    (self@[i], other@[i]),
                    #[trigger] mapped@[i],
                ),
    {
        self.apply_vals(other.into_arr(), modifier)
    }

    /// Consumes the point and returns a point of its items followed by the items of
    /// `values`. The new point has as many dimensions as the two hold items together.
    pub fn extend<const L: usize, const M: usize>(self, values: [T; L]) -> (longer: PointND<T, M>)
        requires
            N + L == M,
            M <= MAX_POINT_DIMS,
        ensures
            longer@ == self@ + values@,
    {
        let ghost source = self@;
        let ghost added = values@;
        let mut stack = unpack(self.into_arr());
        let mut vals = unpack(values);
        let mut done: Vec<T> = Vec::new();
        let mut i: usize = 0;
        while i < N
            invariant
                0 <= i <= N,
                source.len() == N,
                done@ == source.subrange(0, i as int),
                stack@ == source.reverse().subrange(0, N - i),
            decreases N - i,
        {
            let item = stack.pop().unwrap();
            assert(item == source[i as int]);
            done.push(item);
            assert(done@ =~= source.subrange(0, i + 1));
            i += 1;
        }
        let mut k: usize = 0;
        while k < L
            invariant
                0 <= k <= L,
                source.len() == N,
                added.len() == L,
                done@ == source + added.subrange(0, k as int),
                vals@ == added.reverse().subrange(0, L - k),
            decreases L - k,
        {
            let item = vals.pop().unwrap();
            assert(item == added[k as int]);
            done.push(item);
            assert(done@ =~= source + added.subrange(0, k + 1));
            k += 1;
        }
        assert(done@ =~= source + added);
        PointND(assemble(done))
    }

    /// Consumes the point and returns the point of its first `dims` items. `dims` is the
    /// length of the new point: it is the new point's number of dimensions `M`, and not
    /// greater than the point's own.
    pub fn contract<const M: usize>(self, dims: usize) -> (shorter: PointND<T, M>)
        requires
            dims == M,
            M <= N,
            N <= MAX_POINT_DIMS,
        ensures
            shorter@.len() == dims,
            shorter@ == self@.subrange(0, dims as int),
    {
        let ghost source = self@;
        let mut stack = unpack(self.into_arr());
        let mut done: Vec<T> = Vec::new();
        let mut i: usize = 0;
        while i < dims
            invariant
                0 <= i <= dims <= N,
                source.len() == N,
                done@ == source.subrange(0, i as int),
                stack@ == source.reverse().subrange(0, N - i),
            decreases dims - i,
        {
            let item = stack.pop().unwrap();
            assert(item == source[i as int]);
            done.push(item);
            assert(done@ =~= source.subrange(0, i + 1));
            i += 1;
        }
        PointND(assemble(done))
    }
}

/// Whether `dims` lists the position `dim`.
pub fn lists_dim(dims: &[usize], dim: usize) -> (listed: bool)
    ensures
        listed == dims@.contains(dim),
{
    let mut k: usize = 0;
    while k < dims.len()
        invariant
            0 <= k <= dims@.len(),
            forall|j: int| 0 <= j < k ==> dims@[j] != dim,
        decreases dims@.len() - k,
    {
        if dims[k] == dim {
            return true;
        }
        k += 1;
    }
    false
}

impl<T, const N: usize> PointND<T, N> where T: Clone + Copy {
    /// A point of copies of the items of `slice`, which holds as many items as the point
    /// has dimensions.
    pub fn from_slice(slice: &[T]) -> (p: Self)
        requires
            slice@.len() == N,
        ensures
            p@ == slice@,
    {
        match array_from_slice(slice) {
            Ok(array) => PointND(array),
            Err(_) => vstd::pervasive::unreached(),
        }
    }

    /// A point whose every item is `value`.
    pub fn fill(value: T) -> (p: Self)
        ensures
            p@ == Seq::new(N as nat, |i: int| value),
            forall|i: usize| i < N ==> p.item_at(i) == Some(&value),
    {
        let p = PointND([value;N]);
        assert(p@ =~= Seq::new(N as nat, |i: int| value));
        p
    }
}

impl<T, const N: usize> core::ops::Deref for PointND<T, N> {
    type Target = [T; N];

    fn deref(&self) -> (arr: &[T; N])
        ensures
            *arr == self.array(),
            arr@ == self@,
    {
        &self.0
    }
}

impl<T, const N: usize> core::ops::DerefMut for PointND<T, N> {
    fn deref_mut(&mut self) -> (arr: &mut [T; N])
        ensures
            *arr == old(self).array(),
            final(self).array() == *final(arr),
    {
        &mut self.0
    }
}

impl<T, const N: usize> From<[T; N]> for PointND<T, N> {
    fn from(array: [T; N]) -> (p: Self)
        ensures
            p.array() == array,
            p@ == array@,
    {
        PointND(array)
    }
}

impl<T, const N: usize> FromSpecImpl<[T; N]> for PointND<T, N> {
    open spec fn obeys_from_spec() -> bool {
        true
    }

    open spec fn from_spec(array: [T; N]) -> Self {
        Self::of_array(array)
    }
}

impl<T, const N: usize> From<PointND<T, N>> for [T; N] {
    fn from(point: PointND<T, N>) -> (arr: Self)
        ensures
            arr@ == point@,
    {
        point.into_arr()
    }
}

impl<T, const N: usize> FromSpecImpl<PointND<T, N>> for [T; N] {
    open spec fn obeys_from_spec() -> bool {
        true
    }

    open spec fn from_spec(point: PointND<T, N>) -> Self {
        point.array()
    }
}

impl<'a, T: Copy, const N: usize> TryFrom<&'a [T]> for PointND<T, N> {
    type Error = LengthMismatch;

    fn try_from(slice: &'a [T]) -> (made: Result<Self, Self::Error>)
        ensures
            match made {
                Ok(p) => slice@.len() == N && p@ == slice@,
                Err(err) => slice@.len() != N && err.expected == N && err.found == slice@.len(),
            },
    {
        match array_from_slice(slice) {
            Ok(array) => {
                proof {
                    PointND(array).lemma_same_items(Self::of_items(slice@));
                }
                Ok(PointND(array))
            },
            Err(_) => Err(LengthMismatch { expected: N, found: slice.len() }),
        }
    }
}

impl<'a, T: Copy, const N: usize> TryFromSpecImpl<&'a [T]> for PointND<T, N> {
    open spec fn obeys_try_from_spec() -> bool {
        true
    }

    open spec fn try_from_spec(slice: &'a [T]) -> Result<Self, Self::Error> {
        if slice@.len() == N {
            Ok(Self::of_items(slice@))
        } else {
            Err(LengthMismatch { expected: N, found: slice@.len() as usize })
        }
    }
}

impl<T: PartialEq, const N: usize> PartialEq for PointND<T, N> {
    /// Compares the items position by position, from the first on, until two differ.
    fn eq(&self, other: &Self) -> (same: bool)
        ensures
            same ==> forall|j: int|
                0 <= j < N ==> call_ensures(
                    <T as PartialEq>::eq,
                    (&#[trigger] self@[j], &other@[j]),
                    true,
                ),
            !same ==> exists|j: int|
                0 <= j < N && call_ensures(
                    <T as PartialEq>::eq,
                    (&#[trigger] self@[j], &other@[j]),
                    false,
                ),
    {
        let mut i: usize = 0;
        while i < N
            invariant
                0 <= i <= N,
                forall|j: int|
                    0 <= j < i ==> call_ensures(
                        <T as PartialEq>::eq,
                        (&#[trigger] self@[j], &other@[j]),
                        true,
                    ),
                <T as PartialEqSpec>::obeys_eq_spec() ==> forall|j: int|
                    0 <= j < i ==> (#[trigger] self@[j]).eq_spec(&other@[j]),
            decreases N - i,
        {
            let same_item = self.0[i] == other.0[i];
            if !same_item {
                proof {
                    assert(call_ensures(
                        <T as PartialEq>::eq,
                        (&self@[i as int], &other@[i as int]),
                        false,
                    ));
                    if <T as PartialEqSpec>::obeys_eq_spec() {
                        assert(!(self@[i as int]).eq_spec(&other@[i as int]));
                    }
                }
                return false;
            }
            i += 1;
        }
        true
    }
}

impl<T: PartialEq, const N: usize> PartialEqSpecImpl for PointND<T, N> {
    open spec fn obeys_eq_spec() -> bool {
        <T as PartialEqSpec>::obeys_eq_spec()
    }

    open spec fn eq_spec(&self, other: &Self) -> bool {
        forall|j: int| 0 <= j < N ==> (#[trigger] self@[j]).eq_spec(&other@[j])
    }
}

impl<T: Eq, const N: usize> Eq for PointND<T, N> {

}

/// A point made from an array gives that array back, and an array taken out of a point
/// makes that point again; the items of the point are the items of the array.
pub proof fn law_array_round_trip<T, const N: usize>(array: [T; N], point: PointND<T, N>)
    ensures
        <[T; N] as FromSpec<PointND<T, N>>>::from_spec(
            <PointND<T, N> as FromSpec<[T; N]>>::from_spec(array),
        ) == array,
        PointND::of_array(array).array() == array,
        PointND::of_array(array)@ == array@,
        PointND::of_array(point.array()) == point,
        point.array()@ == point@,
{
}

/// A slice becomes a point exactly when it holds as many items as the point has
/// dimensions, and the point then holds the items of the slice; a slice of any other
/// length is refused with both lengths.
pub proof fn law_slice_of_other_length_is_refused<T: Copy, const N: usize>(slice: &[T])
    ensures
        <PointND<T, N> as TryFromSpec<&[T]>>::try_from_spec(slice) is Ok <==> slice@.len() == N,
        match <PointND<T, N> as TryFromSpec<&[T]>>::try_from_spec(slice) {
            Ok(point) => point@ == slice@,
            Err(err) => err == (LengthMismatch { expected: N, found: slice@.len() as usize }),
        },
{
    if slice@.len() == N {
        PointND::<T, N>::lemma_of_items(slice@);
    }
}

/// Where `==` on the items is equality, two points compare equal exactly when the arrays
/// they were made from are equal, which is when they hold the same items.
pub proof fn law_equality_is_structural<T: PartialEq, const N: usize>(a: [T; N], b: [T; N])
    requires
        forall|x: T, y: T| #[trigger] PartialEqSpec::eq_spec(&x, &y) <==> (x == y),
    ensures
        PartialEqSpec::eq_spec(&PointND::of_array(a), &PointND::of_array(b)) <==> (a == b),
        PartialEqSpec::eq_spec(&PointND::of_array(a), &PointND::of_array(b)) <==> (a@ == b@),
        PartialEqSpec::eq_spec(&PointND::of_array(a), &PointND::of_array(b)) <==> (
        PointND::of_array(a) == PointND::of_array(b)),
{
    let p = PointND::of_array(a);
    let q = PointND::of_array(b);
    if PartialEqSpec::eq_spec(&p, &q) {
        assert forall|j: int| 0 <= j < N implies a@[j] == b@[j] by {
            assert(PartialEqSpec::eq_spec(&p@[j], &q@[j]));
        }
        assert(a =~= b);
    }
    if a@ == b@ {
        assert(a =~= b);
    }
}

} // verus!

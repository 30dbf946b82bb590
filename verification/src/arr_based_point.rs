//! A point over items that can be copied and have a default value.

use vstd::prelude::*;
use vstd::slice::slice_to_vec;
use vstd::std_specs::ops::AddSpec;
use vstd::std_specs::ops::AddSpecImpl;
use core::ops::Add;
use crate::point::array_from_slice;
use crate::point::array_of_items;

verus! {

/// A point of `N` dimensions, `N` at least one, over items that can be copied.
#[derive(Clone, Copy)]
pub struct PointAD<T, const N: usize> where T: Clone + Copy + Default {
    arr: [T; N],
}

impl<T, const N: usize> View for PointAD<T, N> where T: Clone + Copy + Default {
    type V = Seq<T>;

    closed spec fn view(&self) -> Seq<T> {
        self.arr@
    }
}

/// Two points of the same items are the same point.
pub proof fn lemma_same_items_same_point<T, const N: usize>(p: PointAD<T, N>, q: PointAD<T, N>) where
    T: Clone + Copy + Default,

    requires
        p@ == q@,
    ensures
        p == q,
{
    assert(p.arr =~= q.arr);
}

impl<T, const N: usize> PointAD<T, N> where T: Clone + Copy + Default {
    /// The point of the `N` items of `items`.
    pub open spec fn of_items(items: Seq<T>) -> Self
        recommends
            items.len() == N,
    {
        choose|p: Self| p@ == items
    }

    /// There is a point of any `N` items, and `of_items` is that point.
    pub proof fn lemma_of_items(items: Seq<T>)
        requires
            items.len() == N,
        ensures
            Self::of_items(items)@ == items,
    {
        let arr = array_of_items::<T, N>(items, N as nat);
        assert(arr@ =~= items);
        assert((PointAD { arr })@ == items);
    }

    /// The items of two points added position by position.
    pub open spec fn sum_of(left: Seq<T>, right: Seq<T>) -> Seq<T> where T: Add<Output = T> {
        Seq::new(left.len(), |i: int| left[i].add_spec(right[i]))
    }

    /// A point of the items of `slice`, which holds as many items as the point has
    /// dimensions, and at least one.
    pub fn from(slice: &[T]) -> (p: Self)
        requires
            slice@.len() == N,
            slice@.len() != 0,
        ensures
            p@ == slice@,
    {
        match array_from_slice(slice) {
            Ok(arr) => PointAD { arr },
            Err(_) => vstd::pervasive::unreached(),
        }
    }

    /// A point of `d` dimensions whose every item is one default value of `T`.
    pub fn of_dimes(d: usize) -> (p: Self)
        requires
            d == N,
            d != 0,
        ensures
            p@.len() == d,
            exists|value: T|
                call_ensures(T::default, (), value) && forall|i: int|
                    0 <= i < d ==> p@[i] == value,
    {
        let value = T::default();
        let arr = [value; N];
        let p = PointAD::from(arr.as_slice());
        assert(forall|i: int| 0 <= i < d ==> p@[i] == value);
        p
    }

    /// Returns the number of dimensions of the point.
    pub fn dimes(&self) -> (n: usize)
        ensures
            n == N,
            n == self@.len(),
    {
        self.arr.len()
    }

    /// The item at position `i` of the point.
    pub fn get(&self, i: usize) -> (item: &T)
        requires
            i < N,
        ensures
            *item == self@[i as int],
    {
        &self.arr[i]
    }

    /// A copy of the array that the point holds.
    pub fn as_arr(&self) -> (arr: [T; N])
        ensures
            arr@ == self@,
    {
        self.arr
    }

    /// A vector of copies of the point's items, in order.
    pub fn as_vec(&self) -> (items: Vec<T>)
        ensures
            items@ == self@,
    {
        slice_to_vec(self.arr.as_slice())
    }
}

impl<T, const N: usize> Add for PointAD<T, N> where T: Add<Output = T> + Clone + Copy + Default {
    type Output = Self;

    fn add(self, rhs: Self) -> (sum: Self)
        ensures
            sum@.len() == N,
            forall|i: int|
                0 <= i < N ==> call_ensures(
                    <T as Add>::add,
                    (self@[i], rhs@[i]),
                    #[trigger] sum@[i],
                ),
            <T as AddSpec>::obeys_add_spec() ==> sum@ == Self::sum_of(self@, rhs@),
    {
        let values_left = self.as_arr();
        let values_right = rhs.as_arr();
        let mut ret_values = values_left;
        let mut i: usize = 0;
        while i < N
            invariant
                0 <= i <= N,
                values_left@ == self@,
                values_right@ == rhs@,
                forall|j: int| 0 <= j < N ==> (#[trigger] self@[j]).add_req(rhs@[j]),
                forall|j: int|
                    0 <= j < i ==> call_ensures(
                        <T as Add>::add,
                        (self@[j], rhs@[j]),
                        #[trigger] ret_values@[j],
                    ),
                <T as AddSpec>::obeys_add_spec() ==> forall|j: int|
                    0 <= j < i ==> #[trigger] ret_values@[j] == self@[j].add_spec(rhs@[j]),
            decreases N - i,
        {
            ret_values[i] = values_left[i] + values_right[i];
            i += 1;
        }
        let sum = PointAD::from(ret_values.as_slice());
        proof {
            if <T as AddSpec>::obeys_add_spec() {
                assert(sum@ =~= Self::sum_of(self@, rhs@));
                lemma_same_items_same_point(sum, Self::of_items(Self::sum_of(self@, rhs@)));
            }
        }
        sum
    }
}

impl<T, const N: usize> AddSpecImpl for PointAD<T, N> where T: Add<Output = T> + Clone + Copy + Default {
    open spec fn obeys_add_spec() -> bool {
        <T as AddSpec>::obeys_add_spec()
    }

    open spec fn add_req(self, rhs: Self) -> bool {
        &&& N != 0
        &&& forall|j: int| 0 <= j < N ==> (#[trigger] self@[j]).add_req(rhs@[j])
    }

    open spec fn add_spec(self, rhs: Self) -> Self {
        Self::of_items(Self::sum_of(self@, rhs@))
    }
}

/// The sum that is specified for two points holds at each position the sum that is
/// specified for their items there, and has their number of dimensions.
pub proof fn law_sum_is_positionwise<T, const N: usize>(left: PointAD<T, N>, right: PointAD<T, N>) where
    T: Add<Output = T> + Clone + Copy + Default,

    ensures
        AddSpec::add_spec(left, right)@.len() == N,
        forall|i: int|
            0 <= i < N ==> #[trigger] AddSpec::add_spec(left, right)@[i] == left@[i].add_spec(
                right@[i],
            ),
{
    PointAD::<T, N>::lemma_of_items(PointAD::<T, N>::sum_of(left@, right@));
}

} // verus!

//! Named access to the items of points of one to four dimensions: `x`, `y`, `z` and `w`
//! are the positions 0, 1, 2 and 3.

use vstd::prelude::*;
use vstd::std_specs::ops::AddSpec;
use core::ops::Add;
use crate::point::lemma_len;
use crate::point::PointND;

verus! {

broadcast use lemma_len;

impl<T> PointND<T, 1> {
    /// The first item of the point.
    pub fn x(&self) -> (item: &T)
        ensures
            *item == self@[0],
    {
        self.index(0)
    }

    /// Puts `new_value` in the place of the first item of the point.
    pub fn set_x(&mut self, new_value: T)
        ensures
            final(self)@ == old(self)@.update(0, new_value),
    {
        *self.index_mut(0) = new_value;
    }
}

impl<T> PointND<T, 2> {
    /// The first item of the point.
    pub fn x(&self) -> (item: &T)
        ensures
            *item == self@[0],
    {
        self.index(0)
    }

    /// The second item of the point.
    pub fn y(&self) -> (item: &T)
        ensures
            *item == self@[1],
    {
        self.index(1)
    }

    /// Puts `new_value` in the place of the first item of the point.
    pub fn set_x(&mut self, new_value: T)
        ensures
            final(self)@ == old(self)@.update(0, new_value),
    {
        *self.index_mut(0) = new_value;
    }

    /// Puts `new_value` in the place of the second item of the point.
    pub fn set_y(&mut self, new_value: T)
        ensures
            final(self)@ == old(self)@.update(1, new_value),
    {
        *self.index_mut(1) = new_value;
    }
}

impl<T> PointND<T, 3> {
    /// The first item of the point.
    pub fn x(&self) -> (item: &T)
        ensures
            *item == self@[0],
    {
        self.index(0)
    }

    /// The second item of the point.
    pub fn y(&self) -> (item: &T)
        ensures
            *item == self@[1],
    {
        self.index(1)
    }

    /// The third item of the point.
    pub fn z(&self) -> (item: &T)
        ensures
            *item == self@[2],
    {
        self.index(2)
    }

    /// Puts `new_value` in the place of the first item of the point.
    pub fn set_x(&mut self, new_value: T)
        ensures
            final(self)@ == old(self)@.update(0, new_value),
    {
        *self.index_mut(0) = new_value;
    }

    /// Puts `new_value` in the place of the second item of the point.
    pub fn set_y(&mut self, new_value: T)
        ensures
            final(self)@ == old(self)@.update(1, new_value),
    {
        *self.index_mut(1) = new_value;
    }

    /// Puts `new_value` in the place of the third item of the point.
    pub fn set_z(&mut self, new_value: T)
        ensures
            final(self)@ == old(self)@.update(2, new_value),
    {
        *self.index_mut(2) = new_value;
    }
}

impl<T> PointND<T, 4> {
    /// The first item of the point.
    pub fn x(&self) -> (item: &T)
        ensures
            *item == self@[0],
    {
        self.index(0)
    }

    /// The second item of the point.
    pub fn y(&self) -> (item: &T)
        ensures
            *item == self@[1],
    {
        self.index(1)
    }

    /// The third item of the point.
    pub fn z(&self) -> (item: &T)
        ensures
            *item == self@[2],
    {
        self.index(2)
    }

    /// The fourth item of the point.
    pub fn w(&self) -> (item: &T)
        ensures
            *item == self@[3],
    {
        self.index(3)
    }

    /// Puts `new_value` in the place of the first item of the point.
    pub fn set_x(&mut self, new_value: T)
        ensures
            final(self)@ == old(self)@.update(0, new_value),
    {
        *self.index_mut(0) = new_value;
    }

    /// Puts `new_value` in the place of the second item of the point.
    pub fn set_y(&mut self, new_value: T)
        ensures
            final(self)@ == old(self)@.update(1, new_value),
    {
        *self.index_mut(1) = new_value;
    }

    /// Puts `new_value` in the place of the third item of the point.
    pub fn set_z(&mut self, new_value: T)
        ensures
            final(self)@ == old(self)@.update(2, new_value),
    {
        *self.index_mut(2) = new_value;
    }

    /// Puts `new_value` in the place of the fourth item of the point.
    pub fn set_w(&mut self, new_value: T)
        ensures
            final(self)@ == old(self)@.update(3, new_value),
    {
        *self.index_mut(3) = new_value;
    }
}

impl<T: Add<Output = T> + Copy> PointND<T, 1> {
    /// Adds `delta` to the first item of the point.
    pub fn shift_x(&mut self, delta: T)
        requires
            old(self)@[0].add_req(delta),
        ensures
            final(self)@.len() == old(self)@.len(),
            forall|i: int| 0 <= i < 1 && i != 0 ==> final(self)@[i] == old(self)@[i],
            call_ensures(<T as Add>::add, (old(self)@[0], delta), final(self)@[0]),
            <T as AddSpec>::obeys_add_spec() ==> final(self)@ == old(self)@.update(
                0,
                old(self)@[0].add_spec(delta),
            ),
    {
        let place = self.index_mut(0);
        *place = *place + delta;
    }
}

impl<T: Add<Output = T> + Copy> PointND<T, 2> {
    /// Adds `delta` to the first item of the point.
    pub fn shift_x(&mut self, delta: T)
        requires
            old(self)@[0].add_req(delta),
        ensures
            final(self)@.len() == old(self)@.len(),
            forall|i: int| 0 <= i < 2 && i != 0 ==> final(self)@[i] == old(self)@[i],
            call_ensures(<T as Add>::add, (old(self)@[0], delta), final(self)@[0]),
            <T as AddSpec>::obeys_add_spec() ==> final(self)@ == old(self)@.update(
                0,
                old(self)@[0].add_spec(delta),
            ),
    {
        let place = self.index_mut(0);
        *place = *place + delta;
    }

    /// Adds `delta` to the second item of the point.
    pub fn shift_y(&mut self, delta: T)
        requires
            old(self)@[1].add_req(delta),
        ensures
            final(self)@.len() == old(self)@.len(),
            forall|i: int| 0 <= i < 2 && i != 1 ==> final(self)@[i] == old(self)@[i],
            call_ensures(<T as Add>::add, (old(self)@[1], delta), final(self)@[1]),
            <T as AddSpec>::obeys_add_spec() ==> final(self)@ == old(self)@.update(
                1,
                old(self)@[1].add_spec(delta),
            ),
    {
        let place = self.index_mut(1);
        *place = *place + delta;
    }
}

impl<T: Add<Output = T> + Copy> PointND<T, 3> {
    /// Adds `delta` to the first item of the point.
    pub fn shift_x(&mut self, delta: T)
        requires
            old(self)@[0].add_req(delta),
        ensures
            final(self)@.len() == old(self)@.len(),
            forall|i: int| 0 <= i < 3 && i != 0 ==> final(self)@[i] == old(self)@[i],
            call_ensures(<T as Add>::add, (old(self)@[0], delta), final(self)@[0]),
            <T as AddSpec>::obeys_add_spec() ==> final(self)@ == old(self)@.update(
                0,
                old(self)@[0].add_spec(delta),
            ),
    {
        let place = self.index_mut(0);
        *place = *place + delta;
    }

    /// Adds `delta` to the second item of the point.
    pub fn shift_y(&mut self, delta: T)
        requires
            old(self)@[1].add_req(delta),
        ensures
            final(self)@.len() == old(self)@.len(),
            forall|i: int| 0 <= i < 3 && i != 1 ==> final(self)@[i] == old(self)@[i],
            call_ensures(<T as Add>::add, (old(self)@[1], delta), final(self)@[1]),
            <T as AddSpec>::obeys_add_spec() ==> final(self)@ == old(self)@.update(
                1,
                old(self)@[1].add_spec(delta),
            ),
    {
        let place = self.index_mut(1);
        *place = *place + delta;
    }

    /// Adds `delta` to the third item of the point.
    pub fn shift_z(&mut self, delta: T)
        requires
            old(self)@[2].add_req(delta),
        ensures
            final(self)@.len() == old(self)@.len(),
            forall|i: int| 0 <= i < 3 && i != 2 ==> final(self)@[i] == old(self)@[i],
            call_ensures(<T as Add>::add, (old(self)@[2], delta), final(self)@[2]),
            <T as AddSpec>::obeys_add_spec() ==> final(self)@ == old(self)@.update(
                2,
                old(self)@[2].add_spec(delta),
            ),
    {
        let place = self.index_mut(2);
        *place = *place + delta;
    }
}

impl<T: Add<Output = T> + Copy> PointND<T, 4> {
    /// Adds `delta` to the first item of the point.
    pub fn shift_x(&mut self, delta: T)
        requires
            old(self)@[0].add_req(delta),
        ensures
            final(self)@.len() == old(self)@.len(),
            forall|i: int| 0 <= i < 4 && i != 0 ==> final(self)@[i] == old(self)@[i],
            call_ensures(<T as Add>::add, (old(self)@[0], delta), final(self)@[0]),
            <T as AddSpec>::obeys_add_spec() ==> final(self)@ == old(self)@.update(
                0,
                old(self)@[0].add_spec(delta),
            ),
    {
        let place = self.index_mut(0);
        *place = *place + delta;
    }

    /// Adds `delta` to the second item of the point.
    pub fn shift_y(&mut self, delta: T)
        requires
            old(self)@[1].add_req(delta),
        ensures
            final(self)@.len() == old(self)@.len(),
            forall|i: int| 0 <= i < 4 && i != 1 ==> final(self)@[i] == old(self)@[i],
            call_ensures(<T as Add>::add, (old(self)@[1], delta), final(self)@[1]),
            <T as AddSpec>::obeys_add_spec() ==> final(self)@ == old(self)@.update(
                1,
                old(self)@[1].add_spec(delta),
            ),
    {
        let place = self.index_mut(1);
        *place = *place + delta;
    }

    /// Adds `delta` to the third item of the point.
    pub fn shift_z(&mut self, delta: T)
        requires
            old(self)@[2].add_req(delta),
        ensures
            final(self)@.len() == old(self)@.len(),
            forall|i: int| 0 <= i < 4 && i != 2 ==> final(self)@[i] == old(self)@[i],
            call_ensures(<T as Add>::add, (old(self)@[2], delta), final(self)@[2]),
            <T as AddSpec>::obeys_add_spec() ==> final(self)@ == old(self)@.update(
                2,
                old(self)@[2].add_spec(delta),
            ),
    {
        let place = self.index_mut(2);
        *place = *place + delta;
    }

    /// Adds `delta` to the fourth item of the point.
    pub fn shift_w(&mut self, delta: T)
        requires
            old(self)@[3].add_req(delta),
        ensures
            final(self)@.len() == old(self)@.len(),
            forall|i: int| 0 <= i < 4 && i != 3 ==> final(self)@[i] == old(self)@[i],
            call_ensures(<T as Add>::add, (old(self)@[3], delta), final(self)@[3]),
            <T as AddSpec>::obeys_add_spec() ==> final(self)@ == old(self)@.update(
                3,
                old(self)@[3].add_spec(delta),
            ),
    {
        let place = self.index_mut(3);
        *place = *place + delta;
    }
}

} // verus!

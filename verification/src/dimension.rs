//! Names for the first four dimensions of a point.

use vstd::prelude::*;

verus! {

/// The name of one of the first four dimensions.
#[derive(Clone, Copy, Debug, PartialEq, Eq, Structural)]
pub enum Dim {
    X,
    Y,
    Z,
    W,
}

impl Dim {
    /// The position that the name stands for: `X` is 0, `Y` is 1, `Z` is 2 and `W` is 3.
    pub open spec fn position(self) -> nat {
        match self {
            Dim::X => 0,
            Dim::Y => 1,
            Dim::Z => 2,
            Dim::W => 3,
        }
    }
}

/// The position that `name` stands for.
pub fn dim(name: Dim) -> (position: usize)
    ensures
        position == name.position(),
{
    match name {
        Dim::X => 0,
        Dim::Y => 1,
        Dim::Z => 2,
        Dim::W => 3,
    }
}

/// The positions that `names` stand for, in the order of `names`.
pub fn dims<const K: usize>(names: [Dim; K]) -> (positions: [usize; K])
    ensures
        forall|i: int| 0 <= i < K ==> #[trigger] positions@[i] == names@[i].position(),
{
    let mut positions: [usize; K] = [0; K];
    let mut i: usize = 0;
    while i < K
        invariant
            0 <= i <= K,
            forall|j: int| 0 <= j < i ==> #[trigger] positions@[j] == names@[j].position(),
        decreases K - i,
    {
        positions[i] = dim(names[i]);
        i += 1;
    }
    positions
}

} // verus!

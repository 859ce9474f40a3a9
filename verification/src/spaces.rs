//! Descriptions of the values an environment accepts and produces.

use crate::ratio::{Fraction, Ratio};
use vstd::prelude::*;

verus! {

/// The legal shape and range of an action or an observation.
pub enum Space {
    /// `n` mutually exclusive choices, numbered `0..n`.
    Discrete(usize),
    /// A box with one lower and one upper bound per dimension.
    Box { low: Vec<Ratio>, high: Vec<Ratio> },
}

/// The mathematical content of a [`Space`].
pub enum SpaceView {
    Discrete(nat),
    Box { low: Seq<Fraction>, high: Seq<Fraction> },
}

impl View for Space {
    type V = SpaceView;

    open spec fn view(&self) -> SpaceView {
        match self {
            Space::Discrete(n) => SpaceView::Discrete(*n as nat),
            Space::Box { low, high } => SpaceView::Box {
                low: low.deep_view(),
                high: high.deep_view(),
            },
        }
    }
}

impl SpaceView {
    /// A box has as many lower as upper bounds, every bound denotes a
    /// number, and no lower bound exceeds its upper bound.
    pub open spec fn well_formed(self) -> bool {
        match self {
            SpaceView::Discrete(_) => true,
            SpaceView::Box { low, high } => {
                &&& low.len() == high.len()
                &&& forall|i: int|
                    0 <= i < low.len() ==> {
                        &&& (#[trigger] low[i]).well_formed()
                        &&& high[i].well_formed()
                        &&& low[i].at_most(high[i])
                    }
            },
        }
    }

    /// `index` is one of the choices of a discrete space.
    pub open spec fn contains_index(self, index: int) -> bool {
        match self {
            SpaceView::Discrete(n) => 0 <= index < n,
            SpaceView::Box { .. } => false,
        }
    }

    /// `point` has the dimension of a box and lies within its bounds.
    pub open spec fn contains_point(self, point: Seq<Fraction>) -> bool {
        match self {
            SpaceView::Discrete(_) => false,
            SpaceView::Box { low, high } => {
                &&& point.len() == low.len()
                &&& point.len() == high.len()
                &&& forall|i: int|
                    0 <= i < point.len() ==> {
                        &&& (#[trigger] point[i]).well_formed()
                        &&& low[i].at_most(point[i])
                        &&& point[i].at_most(high[i])
                    }
            },
        }
    }

    /// The box whose every dimension ranges over the unit interval.
    pub open spec fn unit_box(dimensions: nat) -> SpaceView {
        SpaceView::Box {
            low: Seq::new(dimensions, |i: int| Fraction::whole(0)),
            high: Seq::new(dimensions, |i: int| Fraction::whole(1)),
        }
    }
}

/// The unit box is well formed, and it holds exactly the points of its
/// dimension whose coordinates all lie in the unit interval.
pub proof fn lemma_unit_box(dimensions: nat, point: Seq<Fraction>)
    ensures
        SpaceView::unit_box(dimensions).well_formed(),
        SpaceView::unit_box(dimensions).contains_point(point) <==> {
            &&& point.len() == dimensions
            &&& forall|i: int|
                0 <= i < point.len() ==> {
                    &&& (#[trigger] point[i]).well_formed()
                    &&& point[i].in_unit_interval()
                }
        },
{
    assert(Fraction::whole(0).at_most(Fraction::whole(1)));
    assert forall|i: int| 0 <= i < point.len() && (#[trigger] point[i]).well_formed() implies (
    point[i].in_unit_interval() <==> (Fraction::whole(0).at_most(point[i]) && point[i].at_most(
        Fraction::whole(1),
    ))) by {
        crate::ratio::lemma_unit_interval_bounds(point[i]);
    }
}

} // verus!

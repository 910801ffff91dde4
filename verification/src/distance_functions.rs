//! The ways in which the distance between two points can be measured.

use vstd::prelude::*;

use crate::util::{gen_range_i32, DeterministicRng};

verus! {

/// A measure of distance in the plane.
#[derive(Clone, Copy, Debug, PartialEq, Eq, Structural)]
pub enum DistanceFunction {
    /// Half the length of the straight line.
    Euclidean,
    /// Half the sum of the distances along the axes.
    Manhattan,
    /// The greater of the distances along the axes.
    Chebyshev,
    /// The lesser of the distances along the axes.
    Minimum,
}

impl DistanceFunction {
    /// The measures in their fixed order.
    pub open spec fn spec_values() -> Seq<Self> {
        seq![
            DistanceFunction::Euclidean,
            DistanceFunction::Manhattan,
            DistanceFunction::Chebyshev,
            DistanceFunction::Minimum,
        ]
    }

    /// The measure at the given place of the fixed order.
    pub fn from_index(index: i32) -> (r: Self)
        requires
            0 <= index < 4,
        ensures
            r == Self::spec_values()[index as int],
    {
        if index == 0 {
            DistanceFunction::Euclidean
        } else if index == 1 {
            DistanceFunction::Manhattan
        } else if index == 2 {
            DistanceFunction::Chebyshev
        } else {
            DistanceFunction::Minimum
        }
    }

    /// Draws one of the measures.
    pub fn random(rng: &mut DeterministicRng) -> (r: Self) {
        Self::from_index(gen_range_i32(rng, 0, 4))
    }

    /// Draws one of the measures.
    pub fn generate_rng(rng: &mut DeterministicRng) -> (r: Self) {
        Self::random(rng)
    }

    /// Draws the measure afresh.
    pub fn mutate_rng(&mut self, rng: &mut DeterministicRng) {
        *self = Self::random(rng);
    }
}

} // verus!

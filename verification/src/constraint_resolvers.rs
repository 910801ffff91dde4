//! The policies by which a number outside a bounded range is brought back
//! into it.

use vstd::prelude::*;

use crate::util::{gen_range_u8, DeterministicRng};

verus! {

/// A policy for the signed range from -1 to 1.
#[derive(Clone, Copy, Debug, PartialEq, Eq, Structural)]
pub enum SFloatNormaliser {
    Sawtooth,
    Triangle,
    Sin,
    SinRepeating,
    TanH,
    Clamp,
    Fractional,
    Random,
}

impl SFloatNormaliser {
    /// The policies in their fixed order.
    pub open spec fn spec_values() -> Seq<Self> {
        seq![
            SFloatNormaliser::Sawtooth,
            SFloatNormaliser::Triangle,
            SFloatNormaliser::Sin,
            SFloatNormaliser::SinRepeating,
            SFloatNormaliser::TanH,
            SFloatNormaliser::Clamp,
            SFloatNormaliser::Fractional,
            SFloatNormaliser::Random,
        ]
    }

    /// Whether the policy needs a random source to do its work.
    pub fn is_random(self) -> (r: bool)
        ensures
            r == (self == SFloatNormaliser::Random),
    {
        match self {
            SFloatNormaliser::Random => true,
            _ => false,
        }
    }

    /// The policy at the given place of the fixed order.
    pub fn from_index(index: u8) -> (r: Self)
        requires
            index < 8,
        ensures
            r == Self::spec_values()[index as int],
    {
        if index == 0 {
            SFloatNormaliser::Sawtooth
        } else if index == 1 {
            SFloatNormaliser::Triangle
        } else if index == 2 {
            SFloatNormaliser::Sin
        } else if index == 3 {
            SFloatNormaliser::SinRepeating
        } else if index == 4 {
            SFloatNormaliser::TanH
        } else if index == 5 {
            SFloatNormaliser::Clamp
        } else if index == 6 {
            SFloatNormaliser::Fractional
        } else {
            SFloatNormaliser::Random
        }
    }

    /// Draws one of the policies.
    pub fn generate_rng(rng: &mut DeterministicRng) -> (r: Self) {
        Self::from_index(gen_range_u8(rng, 0, 8))
    }

    /// Draws the policy afresh.
    pub fn mutate_rng(&mut self, rng: &mut DeterministicRng) {
        *self = Self::generate_rng(rng);
    }
}

/// A policy for the unsigned range from 0 to 1.
#[derive(Clone, Copy, Debug, PartialEq, Eq, Structural)]
pub enum UFloatNormaliser {
    Sawtooth,
    Triangle,
    Sin,
    SinRepeating,
    Clamp,
    Random,
}

impl UFloatNormaliser {
    /// The policies in their fixed order.
    pub open spec fn spec_values() -> Seq<Self> {
        seq![
            UFloatNormaliser::Sawtooth,
            UFloatNormaliser::Triangle,
            UFloatNormaliser::Sin,
            UFloatNormaliser::SinRepeating,
            UFloatNormaliser::Clamp,
            UFloatNormaliser::Random,
        ]
    }

    /// Whether the policy needs a random source to do its work.
    pub fn is_random(self) -> (r: bool)
        ensures
            r == (self == UFloatNormaliser::Random),
    {
        match self {
            UFloatNormaliser::Random => true,
            _ => false,
        }
    }

    /// The policy at the given place of the fixed order.
    pub fn from_index(index: u8) -> (r: Self)
        requires
            index < 6,
        ensures
            r == Self::spec_values()[index as int],
    {
        if index == 0 {
            UFloatNormaliser::Sawtooth
        } else if index == 1 {
            UFloatNormaliser::Triangle
        } else if index == 2 {
            UFloatNormaliser::Sin
        } else if index == 3 {
            UFloatNormaliser::SinRepeating
        } else if index == 4 {
            UFloatNormaliser::Clamp
        } else {
            UFloatNormaliser::Random
        }
    }

    /// Draws one of the policies.
    pub fn generate_rng(rng: &mut DeterministicRng) -> (r: Self) {
        Self::from_index(gen_range_u8(rng, 0, 6))
    }

    /// Draws the policy afresh.
    pub fn mutate_rng(&mut self, rng: &mut DeterministicRng) {
        *self = Self::generate_rng(rng);
    }
}

} // verus!

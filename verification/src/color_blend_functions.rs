//! The ways in which two colours can be blended.

use vstd::prelude::*;

use crate::util::{gen_range_u8, DeterministicRng};

verus! {

/// A blend mode for two colours.
#[derive(Clone, Copy, Debug, PartialEq, Eq, Structural)]
pub enum ColorBlendFunctions {
    Dissolve,
    Overlay,
    ScreenDodge,
}

impl ColorBlendFunctions {
    /// The blend modes in their fixed order.
    pub open spec fn spec_values() -> Seq<Self> {
        seq![
            ColorBlendFunctions::Dissolve,
            ColorBlendFunctions::Overlay,
            ColorBlendFunctions::ScreenDodge,
        ]
    }

    /// The blend mode at the given place of the fixed order.
    pub fn from_index(index: u8) -> (r: Self)
        requires
            index < 3,
        ensures
            r == Self::spec_values()[index as int],
    {
        if index == 0 {
            ColorBlendFunctions::Dissolve
        } else if index == 1 {
            ColorBlendFunctions::Overlay
        } else {
            ColorBlendFunctions::ScreenDodge
        }
    }

    /// Draws one of the blend modes.
    pub fn generate_rng(rng: &mut DeterministicRng) -> (r: Self) {
        Self::from_index(gen_range_u8(rng, 0, 3))
    }

    /// Draws the blend mode afresh.
    pub fn mutate_rng(&mut self, rng: &mut DeterministicRng) {
        *self = Self::generate_rng(rng);
    }
}

} // verus!

//! Quarter-turn rotations and axis mirrors of a coordinate inside a raster of
//! known extent, as a glyph cell needs them.

use vstd::prelude::*;

verus! {

/// A rotation by a whole number of clockwise quarter turns.
#[derive(Clone, Copy, Debug, PartialEq, Eq, Structural)]
pub enum DiscreteRotation {
    Deg0,
    Deg90,
    Deg180,
    Deg270,
}

impl DiscreteRotation {
    /// Where the rotation sends `(x, y)` of a raster `width` wide and `height`
    /// high. After an odd number of quarter turns the raster is `height` wide
    /// and `width` high.
    pub open spec fn spec_translate(self, x: int, y: int, width: int, height: int) -> (int, int) {
        match self {
            DiscreteRotation::Deg0 => (x, y),
            DiscreteRotation::Deg90 => (height - 1 - y, x),
            DiscreteRotation::Deg180 => (width - 1 - x, height - 1 - y),
            DiscreteRotation::Deg270 => (y, width - 1 - x),
        }
    }

    /// Whether the rotation swaps the two extents of the raster.
    pub open spec fn swaps_extents(self) -> bool {
        self == DiscreteRotation::Deg90 || self == DiscreteRotation::Deg270
    }

    /// The rotation that undoes this one.
    pub open spec fn spec_inverse(self) -> Self {
        match self {
            DiscreteRotation::Deg0 => DiscreteRotation::Deg0,
            DiscreteRotation::Deg90 => DiscreteRotation::Deg270,
            DiscreteRotation::Deg180 => DiscreteRotation::Deg180,
            DiscreteRotation::Deg270 => DiscreteRotation::Deg90,
        }
    }

    /// The rotation that undoes this one.
    pub fn inverse(self) -> (r: Self)
        ensures
            r == self.spec_inverse(),
    {
        match self {
            DiscreteRotation::Deg0 => DiscreteRotation::Deg0,
            DiscreteRotation::Deg90 => DiscreteRotation::Deg270,
            DiscreteRotation::Deg180 => DiscreteRotation::Deg180,
            DiscreteRotation::Deg270 => DiscreteRotation::Deg90,
        }
    }

    /// Where `(x, y)` of a raster `width` wide and `height` high is sent.
    pub fn translate_coord(self, x: usize, y: usize, width: usize, height: usize) -> (r: (
        usize,
        usize,
    ))
        requires
            x < width,
            y < height,
        ensures
            (r.0 as int, r.1 as int) == self.spec_translate(
                x as int,
                y as int,
                width as int,
                height as int,
            ),
            self.swaps_extents() ==> r.0 < height && r.1 < width,
            !self.swaps_extents() ==> r.0 < width && r.1 < height,
    {
        match self {
            DiscreteRotation::Deg0 => (x, y),
            DiscreteRotation::Deg90 => (height - 1 - y, x),
            DiscreteRotation::Deg180 => (width - 1 - x, height - 1 - y),
            DiscreteRotation::Deg270 => (y, width - 1 - x),
        }
    }

    /// A rotation followed by its inverse, taken on the rotated raster, puts
    /// every coordinate back.
    pub proof fn lemma_inverse_undoes(self, x: int, y: int, width: int, height: int)
        requires
            0 <= x < width,
            0 <= y < height,
        ensures
            ({
                let there = self.spec_translate(x, y, width, height);
                let (w, h) = if self.swaps_extents() {
                    (height, width)
                } else {
                    (width, height)
                };
                self.spec_inverse().spec_translate(there.0, there.1, w, h)
            }) == (x, y),
    {
    }

    /// Two quarter turns make a half turn.
    pub proof fn lemma_two_quarter_turns(x: int, y: int, width: int, height: int)
        requires
            0 <= x < width,
            0 <= y < height,
        ensures
            ({
                let there = DiscreteRotation::Deg90.spec_translate(x, y, width, height);
                DiscreteRotation::Deg90.spec_translate(there.0, there.1, height, width)
            }) == DiscreteRotation::Deg180.spec_translate(x, y, width, height),
    {
    }
}

/// A mirror image along one axis.
#[derive(Clone, Copy, Debug, PartialEq, Eq, Structural)]
pub enum DiscreteMirror {
    X,
    Y,
}

impl DiscreteMirror {
    /// Where the mirror sends `(x, y)` of a raster `width` wide and `height`
    /// high.
    pub open spec fn spec_translate(self, x: int, y: int, width: int, height: int) -> (int, int) {
        match self {
            DiscreteMirror::X => (width - 1 - x, y),
            DiscreteMirror::Y => (x, height - 1 - y),
        }
    }

    /// Where `(x, y)` of a raster `width` wide and `height` high is sent.
    pub fn translate_coord(self, x: usize, y: usize, width: usize, height: usize) -> (r: (
        usize,
        usize,
    ))
        requires
            x < width,
            y < height,
        ensures
            (r.0 as int, r.1 as int) == self.spec_translate(
                x as int,
                y as int,
                width as int,
                height as int,
            ),
            r.0 < width,
            r.1 < height,
    {
        match self {
            DiscreteMirror::X => (width - 1 - x, y),
            DiscreteMirror::Y => (x, height - 1 - y),
        }
    }

    /// Mirroring twice along the same axis puts every coordinate back.
    pub proof fn lemma_involution(self, x: int, y: int, width: int, height: int)
        ensures
            ({
                let there = self.spec_translate(x, y, width, height);
                self.spec_translate(there.0, there.1, width, height)
            }) == (x, y),
    {
    }
}

} // verus!

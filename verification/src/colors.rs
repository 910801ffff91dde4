//! Integer colour models: the eight 3-bit colours, and colours of four bytes or
//! four nibbles.

use vstd::prelude::*;

use crate::discrete::{Byte, Nibble};
use crate::util::{gen_bool, gen_range_u8, DeterministicRng};

verus! {

/// A colour of four integers modulo 16.
#[derive(Clone, Copy, Debug, PartialEq, Eq, Structural)]
pub struct NibbleColor {
    pub r: Nibble,
    pub g: Nibble,
    pub b: Nibble,
    pub a: Nibble,
}

impl NibbleColor {
    /// Every channel lies below the modulus.
    pub open spec fn wf(self) -> bool {
        self.r.wf() && self.g.wf() && self.b.wf() && self.a.wf()
    }

    /// Whether every channel lies below the modulus.
    pub fn is_well_formed(&self) -> (r: bool)
        ensures
            r == self.wf(),
    {
        self.r.is_well_formed() && self.g.is_well_formed() && self.b.is_well_formed()
            && self.a.is_well_formed()
    }

    /// Draws the four channels in the order red, green, blue, alpha.
    pub fn generate_rng(rng: &mut DeterministicRng) -> (c: Self)
        ensures
            c.wf(),
    {
        let r = Nibble::random(rng);
        let g = Nibble::random(rng);
        let b = Nibble::random(rng);
        let a = Nibble::random(rng);
        Self { r, g, b, a }
    }

    /// The colour with the channel of number `channel` replaced: 0 is red,
    /// 1 green, 2 blue and 3 alpha.
    pub fn with_channel(self, channel: u8, value: Nibble) -> (c: Self)
        requires
            channel < 4,
        ensures
            c.r == if channel == 0 {
                value
            } else {
                self.r
            },
            c.g == if channel == 1 {
                value
            } else {
                self.g
            },
            c.b == if channel == 2 {
                value
            } else {
                self.b
            },
            c.a == if channel == 3 {
                value
            } else {
                self.a
            },
    {
        if channel == 0 {
            Self { r: value, ..self }
        } else if channel == 1 {
            Self { g: value, ..self }
        } else if channel == 2 {
            Self { b: value, ..self }
        } else {
            Self { a: value, ..self }
        }
    }

    /// With equal chance, draws the whole colour afresh or mutates one
    /// channel picked at random.
    pub fn mutate_rng(&mut self, rng: &mut DeterministicRng)
        requires
            old(self).wf(),
        ensures
            final(self).wf(),
    {
        if gen_bool(rng) {
            *self = Self::generate_rng(rng);
        } else {
            let channel = gen_range_u8(rng, 0, 4);
            let mut value = if channel == 0 {
                self.r
            } else if channel == 1 {
                self.g
            } else if channel == 2 {
                self.b
            } else {
                self.a
            };
            value.mutate_rng(rng);
            *self = self.with_channel(channel, value);
        }
    }
}

/// A colour of four bytes.
#[derive(Clone, Copy, Debug, Default, PartialEq, Eq, Structural)]
pub struct ByteColor {
    pub r: Byte,
    pub g: Byte,
    pub b: Byte,
    pub a: Byte,
}

/// A byte moved one step with wrap-around: up where `up` holds, else down.
pub open spec fn stepped(v: u8, up: bool) -> u8 {
    if up {
        ((v + 1) % 256) as u8
    } else {
        ((v - 1) % 256) as u8
    }
}

impl ByteColor {
    /// Moves each colour channel one step, with wrap-around: up where the bit
    /// colour has the channel, down where it has not. Alpha stays.
    pub fn add_bit_color(self, other: BitColor) -> (c: Self)
        ensures
            c.r.value == stepped(self.r.value, other.red()),
            c.g.value == stepped(self.g.value, other.green()),
            c.b.value == stepped(self.b.value, other.blue()),
            c.a == self.a,
    {
        let other = other.to_components();
        Self {
            r: self.r.circular_add_i32(
                if other[0] {
                    1
                } else {
                    -1
                },
            ),
            g: self.g.circular_add_i32(
                if other[1] {
                    1
                } else {
                    -1
                },
            ),
            b: self.b.circular_add_i32(
                if other[2] {
                    1
                } else {
                    -1
                },
            ),
            a: self.a,
        }
    }

    /// Draws the four channels in the order red, green, blue, alpha.
    pub fn generate_rng(rng: &mut DeterministicRng) -> (c: Self) {
        let r = Byte::random(rng);
        let g = Byte::random(rng);
        let b = Byte::random(rng);
        let a = Byte::random(rng);
        Self { r, g, b, a }
    }

    /// The colour with the channel of number `channel` replaced: 0 is red,
    /// 1 green, 2 blue and 3 alpha.
    pub fn with_channel(self, channel: u8, value: Byte) -> (c: Self)
        requires
            channel < 4,
        ensures
            c.r == if channel == 0 {
                value
            } else {
                self.r
            },
            c.g == if channel == 1 {
                value
            } else {
                self.g
            },
            c.b == if channel == 2 {
                value
            } else {
                self.b
            },
            c.a == if channel == 3 {
                value
            } else {
                self.a
            },
    {
        if channel == 0 {
            Self { r: value, ..self }
        } else if channel == 1 {
            Self { g: value, ..self }
        } else if channel == 2 {
            Self { b: value, ..self }
        } else {
            Self { a: value, ..self }
        }
    }

    /// With equal chance, draws the whole colour afresh or mutates one
    /// channel picked at random.
    pub fn mutate_rng(&mut self, rng: &mut DeterministicRng) {
        if gen_bool(rng) {
            *self = Self::generate_rng(rng);
        } else {
            let channel = gen_range_u8(rng, 0, 4);
            let mut value = if channel == 0 {
                self.r
            } else if channel == 1 {
                self.g
            } else if channel == 2 {
                self.b
            } else {
                self.a
            };
            value.mutate_rng(rng);
            *self = self.with_channel(channel, value);
        }
    }
}

impl From<[u8; 4]> for ByteColor {
    /// Reads red, green, blue and alpha off four bytes in that order.
    fn from(c: [u8; 4]) -> (r: Self) {
        Self { r: Byte::new(c[0]), g: Byte::new(c[1]), b: Byte::new(c[2]), a: Byte::new(c[3]) }
    }
}

impl vstd::std_specs::convert::FromSpecImpl<[u8; 4]> for ByteColor {
    open spec fn obeys_from_spec() -> bool {
        true
    }

    open spec fn from_spec(c: [u8; 4]) -> Self {
        ByteColor {
            r: Byte { value: c@[0] },
            g: Byte { value: c@[1] },
            b: Byte { value: c@[2] },
            a: Byte { value: c@[3] },
        }
    }
}

/// One of the eight colours that three bits can tell apart.
#[derive(Copy, Clone, Debug, PartialEq, Eq, Structural)]
pub enum BitColor {
    Black,
    Red,
    Green,
    Blue,
    Cyan,
    Magenta,
    Yellow,
    White,
}

impl BitColor {
    /// Whether the colour has the red channel.
    pub open spec fn red(self) -> bool {
        self == BitColor::Red || self == BitColor::Magenta || self == BitColor::Yellow || self
            == BitColor::White
    }

    /// Whether the colour has the green channel.
    pub open spec fn green(self) -> bool {
        self == BitColor::Green || self == BitColor::Cyan || self == BitColor::Yellow || self
            == BitColor::White
    }

    /// Whether the colour has the blue channel.
    pub open spec fn blue(self) -> bool {
        self == BitColor::Blue || self == BitColor::Cyan || self == BitColor::Magenta || self
            == BitColor::White
    }

    /// The three channels in the order red, green, blue.
    pub open spec fn spec_components(self) -> Seq<bool> {
        seq![self.red(), self.green(), self.blue()]
    }

    /// The colour that has exactly the given channels.
    pub open spec fn spec_from_components(c: Seq<bool>) -> BitColor {
        if c[0] {
            if c[1] {
                if c[2] {
                    BitColor::White
                } else {
                    BitColor::Yellow
                }
            } else {
                if c[2] {
                    BitColor::Magenta
                } else {
                    BitColor::Red
                }
            }
        } else {
            if c[1] {
                if c[2] {
                    BitColor::Cyan
                } else {
                    BitColor::Green
                }
            } else {
                if c[2] {
                    BitColor::Blue
                } else {
                    BitColor::Black
                }
            }
        }
    }

    /// The place of the colour in the fixed order of the eight colours.
    pub open spec fn spec_index(self) -> int {
        match self {
            BitColor::Black => 0,
            BitColor::Red => 1,
            BitColor::Green => 2,
            BitColor::Blue => 3,
            BitColor::Cyan => 4,
            BitColor::Magenta => 5,
            BitColor::Yellow => 6,
            BitColor::White => 7,
        }
    }

    /// The eight colours in their fixed order.
    pub open spec fn spec_values() -> Seq<BitColor> {
        seq![
            BitColor::Black,
            BitColor::Red,
            BitColor::Green,
            BitColor::Blue,
            BitColor::Cyan,
            BitColor::Magenta,
            BitColor::Yellow,
            BitColor::White,
        ]
    }

    /// A byte channel at full strength or at none.
    pub open spec fn full_or_none(on: bool) -> Byte {
        Byte {
            value: if on {
                255u8
            } else {
                0u8
            },
        }
    }

    /// The opaque byte colour with each channel at full strength or at none.
    pub fn get_color(self) -> (c: ByteColor)
        ensures
            c.r == Self::full_or_none(self.red()),
            c.g == Self::full_or_none(self.green()),
            c.b == Self::full_or_none(self.blue()),
            c.a.value == 255,
    {
        match self {
            BitColor::Black => ByteColor {
                r: Byte::new(0),
                g: Byte::new(0),
                b: Byte::new(0),
                a: Byte::new(255),
            },
            BitColor::Red => ByteColor {
                r: Byte::new(255),
                g: Byte::new(0),
                b: Byte::new(0),
                a: Byte::new(255),
            },
            BitColor::Green => ByteColor {
                r: Byte::new(0),
                g: Byte::new(255),
                b: Byte::new(0),
                a: Byte::new(255),
            },
            BitColor::Blue => ByteColor {
                r: Byte::new(0),
                g: Byte::new(0),
                b: Byte::new(255),
                a: Byte::new(255),
            },
            BitColor::Cyan => ByteColor {
                r: Byte::new(0),
                g: Byte::new(255),
                b: Byte::new(255),
                a: Byte::new(255),
            },
            BitColor::Magenta => ByteColor {
                r: Byte::new(255),
                g: Byte::new(0),
                b: Byte::new(255),
                a: Byte::new(255),
            },
            BitColor::Yellow => ByteColor {
                r: Byte::new(255),
                g: Byte::new(255),
                b: Byte::new(0),
                a: Byte::new(255),
            },
            BitColor::White => ByteColor {
                r: Byte::new(255),
                g: Byte::new(255),
                b: Byte::new(255),
                a: Byte::new(255),
            },
        }
    }

    /// The place of the colour in the fixed order of the eight colours.
    pub fn to_index(self) -> (i: usize)
        ensures
            i == self.spec_index(),
            i < 8,
    {
        match self {
            BitColor::Black => 0,
            BitColor::Red => 1,
            BitColor::Green => 2,
            BitColor::Blue => 3,
            BitColor::Cyan => 4,
            BitColor::Magenta => 5,
            BitColor::Yellow => 6,
            BitColor::White => 7,
        }
    }

    /// The colour at the given place of the fixed order.
    pub fn from_index(index: usize) -> (c: BitColor)
        requires
            index < 8,
        ensures
            c == Self::spec_values()[index as int],
            c.spec_index() == index,
    {
        if index == 0 {
            BitColor::Black
        } else if index == 1 {
            BitColor::Red
        } else if index == 2 {
            BitColor::Green
        } else if index == 3 {
            BitColor::Blue
        } else if index == 4 {
            BitColor::Cyan
        } else if index == 5 {
            BitColor::Magenta
        } else if index == 6 {
            BitColor::Yellow
        } else {
            BitColor::White
        }
    }

    /// The eight colours in their fixed order.
    pub fn values() -> (v: [Self; 8])
        ensures
            v@ == Self::spec_values(),
    {
        let v = [
            BitColor::Black,
            BitColor::Red,
            BitColor::Green,
            BitColor::Blue,
            BitColor::Cyan,
            BitColor::Magenta,
            BitColor::Yellow,
            BitColor::White,
        ];
        assert(v@ =~= Self::spec_values());
        v
    }

    /// The three channels in the order red, green, blue.
    pub fn to_components(self) -> (c: [bool; 3])
        ensures
            c@ == self.spec_components(),
    {
        let c = match self {
            BitColor::Black => [false, false, false],
            BitColor::Red => [true, false, false],
            BitColor::Green => [false, true, false],
            BitColor::Blue => [false, false, true],
            BitColor::Cyan => [false, true, true],
            BitColor::Magenta => [true, false, true],
            BitColor::Yellow => [true, true, false],
            BitColor::White => [true, true, true],
        };
        assert(c@ =~= self.spec_components());
        c
    }

    /// The colour that has exactly the given channels.
    pub fn from_components(components: [bool; 3]) -> (c: BitColor)
        ensures
            c == Self::spec_from_components(components@),
            c.spec_components() == components@,
    {
        let c = if components[0] {
            if components[1] {
                if components[2] {
                    BitColor::White
                } else {
                    BitColor::Yellow
                }
            } else {
                if components[2] {
                    BitColor::Magenta
                } else {
                    BitColor::Red
                }
            }
        } else {
            if components[1] {
                if components[2] {
                    BitColor::Cyan
                } else {
                    BitColor::Green
                }
            } else {
                if components[2] {
                    BitColor::Blue
                } else {
                    BitColor::Black
                }
            }
        };
        assert(c.spec_components() =~= components@);
        c
    }

    /// Whether the two colours share a channel.
    pub fn has_color(self, other: BitColor) -> (b: bool)
        ensures
            b == ((self.red() && other.red()) || (self.green() && other.green()) || (self.blue()
                && other.blue())),
    {
        let current_color = self.to_components();
        let other_color = other.to_components();
        (current_color[0] && other_color[0]) || (current_color[1] && other_color[1]) || (
        current_color[2] && other_color[2])
    }

    /// Channel by channel, the union of the two colours.
    pub fn give_color(self, other: BitColor) -> (c: [bool; 3])
        ensures
            c@ == seq![
                self.red() || other.red(),
                self.green() || other.green(),
                self.blue() || other.blue(),
            ],
    {
        let current_color = self.to_components();
        let other_color = other.to_components();
        let c = [
            current_color[0] || other_color[0],
            current_color[1] || other_color[1],
            current_color[2] || other_color[2],
        ];
        assert(c@ =~= seq![
            self.red() || other.red(),
            self.green() || other.green(),
            self.blue() || other.blue(),
        ]);
        c
    }

    /// Channel by channel, what the first colour has and the second has not.
    pub fn take_color(self, other: BitColor) -> (c: [bool; 3])
        ensures
            c@ == seq![
                self.red() && !other.red(),
                self.green() && !other.green(),
                self.blue() && !other.blue(),
            ],
    {
        let current_color = self.to_components();
        let other_color = other.to_components();
        let c = [
            current_color[0] && !other_color[0],
            current_color[1] && !other_color[1],
            current_color[2] && !other_color[2],
        ];
        assert(c@ =~= seq![
            self.red() && !other.red(),
            self.green() && !other.green(),
            self.blue() && !other.blue(),
        ]);
        c
    }

    /// Channel by channel, what exactly one of the two colours has.
    pub fn xor_color(self, other: BitColor) -> (c: [bool; 3])
        ensures
            c@ == seq![
                self.red() != other.red(),
                self.green() != other.green(),
                self.blue() != other.blue(),
            ],
    {
        let current_color = self.to_components();
        let other_color = other.to_components();
        let c = [
            (current_color[0] || other_color[0]) && !(current_color[0] && other_color[0]),
            (current_color[1] || other_color[1]) && !(current_color[1] && other_color[1]),
            (current_color[2] || other_color[2]) && !(current_color[2] && other_color[2]),
        ];
        assert(c@ =~= seq![
            self.red() != other.red(),
            self.green() != other.green(),
            self.blue() != other.blue(),
        ]);
        c
    }

    /// Channel by channel, where the two colours agree.
    pub fn eq_color(self, other: BitColor) -> (c: [bool; 3])
        ensures
            c@ == seq![
                self.red() == other.red(),
                self.green() == other.green(),
                self.blue() == other.blue(),
            ],
    {
        let current_color = self.to_components();
        let other_color = other.to_components();
        let c = [
            current_color[0] == other_color[0],
            current_color[1] == other_color[1],
            current_color[2] == other_color[2],
        ];
        assert(c@ =~= seq![
            self.red() == other.red(),
            self.green() == other.green(),
            self.blue() == other.blue(),
        ]);
        c
    }

    /// Draws the three channels in the order red, green, blue.
    pub fn random(rng: &mut DeterministicRng) -> (c: Self) {
        let r = gen_bool(rng);
        let g = gen_bool(rng);
        let b = gen_bool(rng);
        Self::from_components([r, g, b])
    }

    /// The colour whose channels are those of `fresh` where `redraw` holds and
    /// those of `self` elsewhere.
    pub fn mutated(self, redraw: [bool; 3], fresh: [bool; 3]) -> (c: Self)
        ensures
            c.red() == if redraw@[0] {
                fresh@[0]
            } else {
                self.red()
            },
            c.green() == if redraw@[1] {
                fresh@[1]
            } else {
                self.green()
            },
            c.blue() == if redraw@[2] {
                fresh@[2]
            } else {
                self.blue()
            },
    {
        let current = self.to_components();
        let c = Self::from_components(
            [
                if redraw[0] {
                    fresh[0]
                } else {
                    current[0]
                },
                if redraw[1] {
                    fresh[1]
                } else {
                    current[1]
                },
                if redraw[2] {
                    fresh[2]
                } else {
                    current[2]
                },
            ],
        );
        c
    }

    /// For each channel in turn, a coin decides whether it is drawn afresh.
    pub fn mutate_rng(&mut self, rng: &mut DeterministicRng) {
        let current = self.to_components();
        let redraw_r = gen_bool(rng);
        let fresh_r = if redraw_r {
            gen_bool(rng)
        } else {
            current[0]
        };
        let redraw_g = gen_bool(rng);
        let fresh_g = if redraw_g {
            gen_bool(rng)
        } else {
            current[1]
        };
        let redraw_b = gen_bool(rng);
        let fresh_b = if redraw_b {
            gen_bool(rng)
        } else {
            current[2]
        };
        *self = self.mutated([redraw_r, redraw_g, redraw_b], [fresh_r, fresh_g, fresh_b]);
    }

    /// Every colour is what its three channels name.
    pub proof fn lemma_components_then_color(c: BitColor)
        ensures
            Self::spec_from_components(c.spec_components()) == c,
    {
    }

    /// Every triple of channels is what the colour it names has.
    pub proof fn lemma_color_then_components(channels: Seq<bool>)
        requires
            channels.len() == 3,
        ensures
            Self::spec_from_components(channels).spec_components() == channels,
    {
        assert(Self::spec_from_components(channels).spec_components() =~= channels);
    }

    /// The place of a colour in the fixed order names that colour.
    pub proof fn lemma_index_round_trip(c: BitColor)
        ensures
            0 <= c.spec_index() < 8,
            Self::spec_values()[c.spec_index()] == c,
    {
    }
}

impl From<ByteColor> for BitColor {
    /// A channel is present where its byte lies in the upper half.
    fn from(c: ByteColor) -> (r: Self) {
        Self::from_components(
            [c.r.into_inner() > 127, c.g.into_inner() > 127, c.b.into_inner() > 127],
        )
    }
}

impl vstd::std_specs::convert::FromSpecImpl<ByteColor> for BitColor {
    open spec fn obeys_from_spec() -> bool {
        true
    }

    open spec fn from_spec(c: ByteColor) -> Self {
        BitColor::spec_from_components(seq![c.r.value > 127, c.g.value > 127, c.b.value > 127])
    }
}

} // verus!

//! Bounded integer primitives: a boolean, an integer modulo 16, and wrapping
//! 8-bit and 32-bit integers.
//!
//! Division and modulus by zero are total: they hand back the zero divisor.

use vstd::prelude::*;

use crate::util::{gen_bool, gen_i32, gen_range_i32, gen_range_u8, gen_u32, gen_u8, DeterministicRng};

verus! {

/// Quotient of `a` by `b` rounded towards zero, as machine division rounds it.
pub open spec fn truncated_div(a: int, b: int) -> int
    recommends
        b != 0,
{
    if a >= 0 && b > 0 {
        a / b
    } else if a < 0 && b < 0 {
        (-a) / (-b)
    } else if a < 0 {
        -((-a) / b)
    } else {
        -(a / (-b))
    }
}

/// Remainder of `a` by `b` with the sign of `a`, as machine remainder has it.
pub open spec fn truncated_rem(a: int, b: int) -> int
    recommends
        b != 0,
{
    if a >= 0 && b > 0 {
        a % b
    } else if a < 0 && b < 0 {
        -((-a) % (-b))
    } else if a < 0 {
        -((-a) % b)
    } else {
        a % (-b)
    }
}

/// The value in `-2^31 .. 2^31` that is congruent to `v` modulo `2^32`.
pub open spec fn wrap_i32(v: int) -> int {
    (v + 0x8000_0000) % 0x1_0000_0000 - 0x8000_0000
}

/// A boolean value.
#[derive(Clone, Copy, Debug, Default)]
pub struct Boolean {
    pub value: bool,
}

impl Boolean {
    /// Wraps the value.
    pub fn new(value: bool) -> (r: Self)
        ensures
            r.value == value,
    {
        Self { value }
    }

    /// The value held.
    pub fn into_inner(self) -> (r: bool)
        ensures
            r == self.value,
    {
        self.value
    }

    /// The opposite truth value.
    pub fn flipped(self) -> (r: Self)
        ensures
            r.value == !self.value,
    {
        Self { value: !self.value }
    }

    /// The value after one mutation step: choice 0 takes the freshly drawn
    /// value, choice 1 flips the current one.
    pub fn mutated(self, choice: u8, fresh: Self) -> (r: Self)
        requires
            choice < 2,
        ensures
            r.value == if choice == 0 {
                fresh.value
            } else {
                !self.value
            },
    {
        if choice == 0 {
            fresh
        } else {
            self.flipped()
        }
    }
}

/// An integer modulo 16.
#[derive(Clone, Copy, Debug, Default, PartialEq, Eq, Structural)]
pub struct Nibble {
    pub value: u8,
}

impl Nibble {
    pub const MODULUS: u8 = 16;

    /// The invariant of the type: the value lies below the modulus.
    pub open spec fn wf(self) -> bool {
        self.value < 16
    }

    /// Whether the value lies below the modulus.
    pub fn is_well_formed(&self) -> (r: bool)
        ensures
            r == self.wf(),
    {
        self.value < Self::MODULUS
    }

    /// Wraps a value below the modulus.
    pub fn new(value: u8) -> (r: Self)
        requires
            value < 16,
        ensures
            r.value == value,
            r.wf(),
    {
        Self::new_unchecked(value)
    }

    /// Wraps the value reduced modulo 16.
    pub fn new_circular(value: u8) -> (r: Self)
        ensures
            r.value == value % 16,
            r.wf(),
    {
        Self::new_unchecked(value % Self::MODULUS)
    }

    /// Wraps the value as it is; the caller answers for its range.
    pub fn new_unchecked(value: u8) -> (r: Self)
        ensures
            r.value == value,
    {
        Self { value }
    }

    /// The value held.
    pub fn into_inner(self) -> (r: u8)
        ensures
            r == self.value,
    {
        self.value
    }

    /// The sum, reduced into the range of the type.
    pub fn circular_add(self, other: Self) -> (r: Self)
        requires
            self.value + other.value <= u8::MAX,
        ensures
            r.value == (self.value + other.value) % 16,
            r.wf(),
    {
        Self::new_circular(self.value + other.value)
    }

    /// The quotient; a divisor of zero is handed back instead.
    pub fn divide(self, other: Self) -> (r: Self)
        ensures
            other.value == 0 ==> r == other,
            other.value != 0 ==> r.value == self.value / other.value,
            self.wf() ==> r.wf(),
    {
        if other.value == 0 {
            other
        } else {
            Self::new_unchecked(self.value / other.value)
        }
    }

    /// The product, reduced into the range of the type.
    pub fn circular_multiply(self, other: Self) -> (r: Self)
        requires
            self.value * other.value <= u8::MAX,
        ensures
            r.value == (self.value * other.value) % 16,
            r.wf(),
    {
        Self::new_circular(self.value * other.value)
    }

    /// The remainder; a divisor of zero is handed back instead.
    pub fn modulus(self, other: Self) -> (r: Self)
        ensures
            other.value == 0 ==> r == other,
            other.value != 0 ==> r.value == (self.value % other.value) % 16,
            r.wf(),
    {
        if other.value == 0 {
            other
        } else {
            Self::new_circular(self.value % other.value)
        }
    }

    /// One step up, saturating at the top of the byte and then reduced.
    pub fn incremented(self) -> (r: Self)
        ensures
            r.value == (if self.value == u8::MAX {
                255int
            } else {
                self.value + 1
            }) % 16,
            r.wf(),
    {
        Self::new(self.value.saturating_add(1) % 16)
    }

    /// One step down, saturating at zero and then reduced.
    pub fn decremented(self) -> (r: Self)
        ensures
            r.value == (if self.value == 0 {
                0int
            } else {
                self.value - 1
            }) % 16,
            r.wf(),
    {
        Self::new(self.value.saturating_sub(1) % 16)
    }

    /// The value after one mutation step: choice 0 steps up, choice 1 steps
    /// down, choice 2 takes the freshly drawn value.
    pub fn mutated(self, choice: u8, fresh: Self) -> (r: Self)
        requires
            choice < 3,
            fresh.wf(),
        ensures
            choice == 0 ==> r == self.incremented_spec(),
            choice == 1 ==> r == self.decremented_spec(),
            choice == 2 ==> r == fresh,
            r.wf(),
    {
        if choice == 0 {
            self.incremented()
        } else if choice == 1 {
            self.decremented()
        } else {
            fresh
        }
    }

    /// The value one step up, saturating at the top of the byte and then
    /// reduced.
    pub open spec fn incremented_spec(self) -> Self {
        Nibble {
            value: ((if self.value == u8::MAX {
                255int
            } else {
                self.value + 1
            }) % 16) as u8,
        }
    }

    /// The value one step down, saturating at zero and then reduced.
    pub open spec fn decremented_spec(self) -> Self {
        Nibble {
            value: ((if self.value == 0 {
                0int
            } else {
                self.value - 1
            }) % 16) as u8,
        }
    }
}

/// An 8-bit integer whose arithmetic wraps around.
#[derive(Clone, Copy, Debug, Default, PartialEq, Eq, Structural)]
pub struct Byte {
    pub value: u8,
}

impl Byte {
    /// Wraps the value.
    pub fn new(value: u8) -> (r: Self)
        ensures
            r.value == value,
    {
        Self { value }
    }

    /// The value held.
    pub fn into_inner(self) -> (r: u8)
        ensures
            r == self.value,
    {
        self.value
    }

    /// The sum, reduced into the range of the type.
    pub fn circular_add(self, other: Self) -> (r: Self)
        ensures
            r.value == (self.value + other.value) % 256,
    {
        Self::new(self.value.wrapping_add(other.value))
    }

    /// Adds a signed amount and reduces the sum into `0 .. 256`.
    pub fn circular_add_i32(self, other: i32) -> (r: Self)
        requires
            self.value + other <= i32::MAX,
        ensures
            r.value == (self.value + other) % 256,
    {
        let sum: i32 = self.value as i32 + other;
        let reduced: i32 = if sum >= 0 {
            sum % 256
        } else {
            let back: i32 = (-(sum + 1)) % 256;
            255 - back
        };
        Self::new(reduced as u8)
    }

    /// Adds a signed amount and clamps the sum into `0 ..= 255`.
    pub fn clamped_add_i32(self, other: i32) -> (r: Self)
        requires
            self.value + other <= i32::MAX,
        ensures
            r.value == if self.value + other > 255 {
                255int
            } else if self.value + other < 0 {
                0int
            } else {
                self.value + other
            },
    {
        let sum: i32 = self.value as i32 + other;
        let clamped: i32 = if sum > 255 {
            255
        } else if sum < 0 {
            0
        } else {
            sum
        };
        Self::new(clamped as u8)
    }

    /// The quotient; a divisor of zero is handed back instead.
    pub fn divide(self, other: Self) -> (r: Self)
        ensures
            other.value == 0 ==> r == other,
            other.value != 0 ==> r.value == self.value / other.value,
    {
        if other.value == 0 {
            Self::new(other.value)
        } else {
            Self::new(self.value / other.value)
        }
    }

    /// The distance of the value from 255.
    pub fn invert_wrapped(self) -> (r: Self)
        ensures
            r.value == 255 - self.value,
    {
        Self::new(255u8.wrapping_sub(self.value))
    }

    /// The product, reduced into the range of the type.
    pub fn circular_multiply(self, other: Self) -> (r: Self)
        ensures
            r.value == (self.value * other.value) % 256,
    {
        Self::new(self.value.wrapping_mul(other.value))
    }

    /// The remainder; a divisor of zero is handed back instead.
    pub fn modulus(self, other: Self) -> (r: Self)
        ensures
            other.value == 0 ==> r == other,
            other.value != 0 ==> r.value == self.value % other.value,
    {
        if other.value == 0 {
            Self::new(other.value)
        } else {
            Self::new(self.value % other.value)
        }
    }

    /// What mutation choice `choice` makes of the value: 0 and 1 step up and
    /// down with wrap-around, 2 and 3 step up and down with saturation, 4
    /// takes the freshly drawn value.
    pub open spec fn mutated_spec(self, choice: u8, fresh: Self) -> Self {
        if choice == 0 {
            Byte { value: ((self.value + 1) % 256) as u8 }
        } else if choice == 1 {
            Byte { value: ((self.value - 1) % 256) as u8 }
        } else if choice == 2 {
            Byte {
                value: if self.value == 255 {
                    255u8
                } else {
                    (self.value + 1) as u8
                },
            }
        } else if choice == 3 {
            Byte {
                value: if self.value == 0 {
                    0u8
                } else {
                    (self.value - 1) as u8
                },
            }
        } else {
            fresh
        }
    }

    /// The value after one mutation step.
    pub fn mutated(self, choice: u8, fresh: Self) -> (r: Self)
        requires
            choice <= 4,
        ensures
            r == self.mutated_spec(choice, fresh),
    {
        if choice == 0 {
            Self::new(self.value.wrapping_add(1))
        } else if choice == 1 {
            Self::new(self.value.wrapping_sub(1))
        } else if choice == 2 {
            Self::new(self.value.saturating_add(1))
        } else if choice == 3 {
            Self::new(self.value.saturating_sub(1))
        } else {
            fresh
        }
    }
}

/// An unsigned 32-bit integer whose arithmetic wraps around.
#[derive(Clone, Copy, Debug, Default)]
pub struct UInt {
    pub value: u32,
}

impl UInt {
    /// Wraps the value.
    pub fn new(value: u32) -> (r: Self)
        ensures
            r.value == value,
    {
        Self { value }
    }

    /// The value held.
    pub fn into_inner(self) -> (r: u32)
        ensures
            r == self.value,
    {
        self.value
    }

    /// The sum, reduced into the range of the type.
    pub fn circular_add(self, other: Self) -> (r: Self)
        ensures
            r.value == (self.value + other.value) % 0x1_0000_0000,
    {
        Self::new(self.value.wrapping_add(other.value))
    }

    /// The quotient; a divisor of zero is handed back instead.
    pub fn divide(self, other: Self) -> (r: Self)
        ensures
            other.value == 0 ==> r == other,
            other.value != 0 ==> r.value == self.value / other.value,
    {
        if other.value == 0 {
            Self::new(other.value)
        } else {
            Self::new(self.value / other.value)
        }
    }

    /// The product, reduced into the range of the type.
    pub fn circular_multiply(self, other: Self) -> (r: Self)
        ensures
            r.value == (self.value * other.value) % 0x1_0000_0000,
    {
        Self::new(self.value.wrapping_mul(other.value))
    }

    /// The remainder; a divisor of zero is handed back instead.
    pub fn modulus(self, other: Self) -> (r: Self)
        ensures
            other.value == 0 ==> r == other,
            other.value != 0 ==> r.value == self.value % other.value,
    {
        if other.value == 0 {
            Self::new(other.value)
        } else {
            Self::new(self.value % other.value)
        }
    }
}

/// A signed 32-bit integer whose arithmetic wraps around.
#[derive(Clone, Copy, Debug, Default)]
pub struct SInt {
    pub value: i32,
}

impl SInt {
    /// Wraps the value.
    pub fn new(value: i32) -> (r: Self)
        ensures
            r.value == value,
    {
        Self { value }
    }

    /// The value held.
    pub fn into_inner(self) -> (r: i32)
        ensures
            r == self.value,
    {
        self.value
    }

    /// The sum, reduced into the range of the type.
    pub fn circular_add(self, other: Self) -> (r: Self)
        ensures
            r.value == wrap_i32(self.value + other.value),
    {
        Self::new(self.value.wrapping_add(other.value))
    }

    /// Quotient rounded towards zero; the one quotient that does not fit,
    /// the least value by -1, wraps to the least value.
    pub fn divide(self, other: Self) -> (r: Self)
        ensures
            other.value == 0 ==> r == other,
            other.value != 0 ==> r.value == wrap_i32(truncated_div(self.value as int, other.value as int)),
    {
        if other.value == 0 {
            Self::new(other.value)
        } else {
            match self.value.checked_div(other.value) {
                Some(q) => Self::new(q),
                None => Self::new(i32::MIN),
            }
        }
    }

    /// The product, reduced into the range of the type.
    pub fn circular_multiply(self, other: Self) -> (r: Self)
        ensures
            r.value == wrap_i32(self.value * other.value),
    {
        Self::new(self.value.wrapping_mul(other.value))
    }

    /// Remainder with the sign of the dividend.
    pub fn modulus(self, other: Self) -> (r: Self)
        ensures
            other.value == 0 ==> r == other,
            other.value != 0 ==> r.value == truncated_rem(self.value as int, other.value as int),
    {
        if other.value == 0 {
            Self::new(other.value)
        } else {
            proof {
                let d: int = if other.value < 0 {
                    -(other.value as int)
                } else {
                    other.value as int
                };
                assert(0int % d == 0) by (nonlinear_arith)
                    requires
                        d > 0,
                ;
            }
            match self.value.checked_rem(other.value) {
                Some(m) => Self::new(m),
                None => Self::new(0),
            }
        }
    }
}

impl Boolean {
    /// Draws a value of the type.
    pub fn random(rng: &mut DeterministicRng) -> (r: Self) {
        Self { value: gen_bool(rng) }
    }

    /// Draws a value of the type.
    pub fn generate_rng(rng: &mut DeterministicRng) -> (r: Self) {
        Self::random(rng)
    }

    /// With equal chance, draws the value afresh or flips it.
    pub fn mutate_rng(&mut self, rng: &mut DeterministicRng) {
        let choice = gen_range_i32(rng, 0, 2);
        let fresh = if choice == 0 {
            Self::random(rng)
        } else {
            *self
        };
        *self = self.mutated(choice as u8, fresh);
    }
}

impl Nibble {
    /// Draws a value of the type.
    pub fn random(rng: &mut DeterministicRng) -> (r: Self)
        ensures
            r.wf(),
    {
        Nibble::new_unchecked(gen_range_u8(rng, 0, Self::MODULUS))
    }

    /// Draws a value of the type.
    pub fn generate_rng(rng: &mut DeterministicRng) -> (r: Self)
        ensures
            r.wf(),
    {
        Self::random(rng)
    }

    /// With equal chance, steps up, steps down or draws the value afresh.
    pub fn mutate_rng(&mut self, rng: &mut DeterministicRng)
        ensures
            final(self).wf(),
    {
        let choice = gen_range_i32(rng, 0, 3);
        let fresh = if choice == 2 {
            Self::random(rng)
        } else {
            Self::new(0)
        };
        *self = self.mutated(choice as u8, fresh);
    }
}

impl Byte {
    /// Draws a value of the type.
    pub fn random(rng: &mut DeterministicRng) -> (r: Self) {
        Self { value: gen_u8(rng) }
    }

    /// Draws a value of the type.
    pub fn generate_rng(rng: &mut DeterministicRng) -> (r: Self) {
        Self::random(rng)
    }

    /// With equal chance, steps up or down, wrapping or saturating.
    pub fn mutate_rng(&mut self, rng: &mut DeterministicRng)
        ensures
            exists|choice: u8| choice < 4 && *final(self) == old(self).mutated_spec(choice, *old(self)),
    {
        let choice = gen_range_i32(rng, 0, 4);
        *self = self.mutated(choice as u8, *self);
    }
}

impl UInt {
    /// Draws a value of the type.
    pub fn random(rng: &mut DeterministicRng) -> (r: Self) {
        Self { value: gen_u32(rng) }
    }

    /// Draws a value of the type.
    pub fn generate_rng(rng: &mut DeterministicRng) -> (r: Self) {
        Self::random(rng)
    }

    /// Draws the value afresh.
    pub fn mutate_rng(&mut self, rng: &mut DeterministicRng) {
        *self = Self::random(rng);
    }
}

impl SInt {
    /// Draws a value of the type.
    pub fn random(rng: &mut DeterministicRng) -> (r: Self) {
        Self { value: gen_i32(rng) }
    }

    /// Draws a value of the type.
    pub fn generate_rng(rng: &mut DeterministicRng) -> (r: Self) {
        Self::random(rng)
    }

    /// Draws the value afresh.
    pub fn mutate_rng(&mut self, rng: &mut DeterministicRng) {
        *self = Self::random(rng);
    }
}

} // verus!

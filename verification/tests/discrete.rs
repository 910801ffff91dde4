use procgen_types::discrete::{Boolean, Byte, Nibble, SInt, UInt};

#[test]
fn nibble_circular_add_wraps_at_sixteen() {
    let a = Nibble::new(9);
    let b = Nibble::new(12);
    assert_eq!(a.circular_add(b).into_inner(), 5);
}

#[test]
fn nibble_division_by_zero_returns_the_divisor() {
    let a = Nibble::new(9);
    let zero = Nibble::new(0);
    assert_eq!(a.divide(zero), zero);
    assert_eq!(a.modulus(zero), zero);
}

#[test]
fn byte_circular_add_i32_reduces_negative_sums() {
    assert_eq!(Byte::new(0).circular_add_i32(-1).into_inner(), 255);
    assert_eq!(Byte::new(255).circular_add_i32(1).into_inner(), 0);
    assert_eq!(Byte::new(3).circular_add_i32(-260).into_inner(), 255);
    assert_eq!(Byte::new(3).circular_add_i32(-259).into_inner(), 0);
}

#[test]
fn byte_clamped_add_i32_saturates() {
    assert_eq!(Byte::new(250).clamped_add_i32(10).into_inner(), 255);
    assert_eq!(Byte::new(5).clamped_add_i32(-10).into_inner(), 0);
    assert_eq!(Byte::new(5).clamped_add_i32(10).into_inner(), 15);
}

#[test]
fn byte_invert_and_multiply_wrap() {
    assert_eq!(Byte::new(1).invert_wrapped().into_inner(), 254);
    assert_eq!(Byte::new(16).circular_multiply(Byte::new(17)).into_inner(), 16);
    assert_eq!(Byte::new(200).circular_add(Byte::new(100)).into_inner(), 44);
}

#[test]
fn uint_arithmetic_wraps() {
    assert_eq!(UInt::new(u32::MAX).circular_add(UInt::new(2)).into_inner(), 1);
    assert_eq!(UInt::new(7).divide(UInt::new(0)).into_inner(), 0);
    assert_eq!(UInt::new(7).modulus(UInt::new(4)).into_inner(), 3);
    assert_eq!(UInt::new(1 << 31).circular_multiply(UInt::new(2)).into_inner(), 0);
}

#[test]
fn sint_division_rounds_towards_zero_and_wraps() {
    assert_eq!(SInt::new(-7).divide(SInt::new(2)).into_inner(), -3);
    assert_eq!(SInt::new(7).divide(SInt::new(-2)).into_inner(), -3);
    assert_eq!(SInt::new(i32::MIN).divide(SInt::new(-1)).into_inner(), i32::MIN);
    assert_eq!(SInt::new(-7).modulus(SInt::new(2)).into_inner(), -1);
    assert_eq!(SInt::new(7).modulus(SInt::new(-2)).into_inner(), 1);
    assert_eq!(SInt::new(i32::MIN).modulus(SInt::new(-1)).into_inner(), 0);
    assert_eq!(SInt::new(5).divide(SInt::new(0)).into_inner(), 0);
    assert_eq!(SInt::new(i32::MAX).circular_add(SInt::new(1)).into_inner(), i32::MIN);
}

#[test]
fn boolean_mutation_flips_or_resamples() {
    let t = Boolean::new(true);
    assert_eq!(t.mutated(1, Boolean::new(true)).into_inner(), false);
    assert_eq!(t.mutated(0, Boolean::new(true)).into_inner(), true);
    assert_eq!(t.flipped().into_inner(), false);
}

#[test]
fn nibble_mutation_steps_saturate_before_reduction() {
    assert_eq!(Nibble::new(15).mutated(0, Nibble::new(3)).into_inner(), 0);
    assert_eq!(Nibble::new(0).mutated(1, Nibble::new(3)).into_inner(), 0);
    assert_eq!(Nibble::new(7).mutated(1, Nibble::new(3)).into_inner(), 6);
    assert_eq!(Nibble::new(7).mutated(2, Nibble::new(3)).into_inner(), 3);
}

#[test]
fn byte_mutation_choices() {
    let fresh = Byte::new(77);
    assert_eq!(Byte::new(255).mutated(0, fresh).into_inner(), 0);
    assert_eq!(Byte::new(0).mutated(1, fresh).into_inner(), 255);
    assert_eq!(Byte::new(255).mutated(2, fresh).into_inner(), 255);
    assert_eq!(Byte::new(0).mutated(3, fresh).into_inner(), 0);
    assert_eq!(Byte::new(9).mutated(4, fresh).into_inner(), 77);
}

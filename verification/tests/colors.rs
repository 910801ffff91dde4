use procgen_types::colors::{BitColor, ByteColor, NibbleColor};
use procgen_types::discrete::Byte;
use procgen_types::util::DeterministicRng;

fn byte_color(r: u8, g: u8, b: u8, a: u8) -> ByteColor {
    ByteColor { r: Byte::new(r), g: Byte::new(g), b: Byte::new(b), a: Byte::new(a) }
}

#[test]
fn components_and_colours_are_inverse() {
    for c in BitColor::values().iter() {
        assert_eq!(BitColor::from_components(c.to_components()), *c);
    }
    for r in [false, true] {
        for g in [false, true] {
            for b in [false, true] {
                assert_eq!(BitColor::from_components([r, g, b]).to_components(), [r, g, b]);
            }
        }
    }
}

#[test]
fn components_of_named_colours() {
    assert_eq!(BitColor::Black.to_components(), [false, false, false]);
    assert_eq!(BitColor::Red.to_components(), [true, false, false]);
    assert_eq!(BitColor::Cyan.to_components(), [false, true, true]);
    assert_eq!(BitColor::Magenta.to_components(), [true, false, true]);
    assert_eq!(BitColor::Yellow.to_components(), [true, true, false]);
    assert_eq!(BitColor::White.to_components(), [true, true, true]);
}

#[test]
fn index_and_values_agree() {
    let values = BitColor::values();
    for i in 0..8 {
        assert_eq!(values[i].to_index(), i);
        assert_eq!(BitColor::from_index(i), values[i]);
    }
    assert_eq!(BitColor::from_index(4), BitColor::Cyan);
    assert_eq!(BitColor::Yellow.to_index(), 6);
}

#[test]
fn colour_algebra_for_all_pairs() {
    for a in BitColor::values().iter() {
        for b in BitColor::values().iter() {
            let x = a.to_components();
            let y = b.to_components();
            let mut shared = false;
            for i in 0..3 {
                shared = shared || (x[i] && y[i]);
                assert_eq!(a.give_color(*b)[i], x[i] || y[i]);
                assert_eq!(a.take_color(*b)[i], x[i] && !y[i]);
                assert_eq!(a.xor_color(*b)[i], x[i] != y[i]);
                assert_eq!(a.eq_color(*b)[i], x[i] == y[i]);
            }
            assert_eq!(a.has_color(*b), shared);
        }
    }
}

#[test]
fn get_color_is_opaque_and_saturated() {
    assert_eq!(BitColor::Black.get_color(), byte_color(0, 0, 0, 255));
    assert_eq!(BitColor::Magenta.get_color(), byte_color(255, 0, 255, 255));
    assert_eq!(BitColor::Yellow.get_color(), byte_color(255, 255, 0, 255));
    assert_eq!(BitColor::White.get_color(), byte_color(255, 255, 255, 255));
}

#[test]
fn byte_colour_to_bit_colour_splits_at_the_middle() {
    assert_eq!(BitColor::from(byte_color(127, 128, 255, 0)), BitColor::Cyan);
    assert_eq!(BitColor::from(byte_color(128, 127, 0, 9)), BitColor::Red);
    assert_eq!(BitColor::from(byte_color(0, 0, 0, 255)), BitColor::Black);
}

#[test]
fn byte_colour_from_four_bytes() {
    assert_eq!(ByteColor::from([1, 2, 3, 4]), byte_color(1, 2, 3, 4));
}

#[test]
fn add_bit_color_steps_each_channel_and_wraps() {
    let c = byte_color(255, 0, 10, 77).add_bit_color(BitColor::Red);
    assert_eq!(c, byte_color(0, 255, 9, 77));
    let d = byte_color(1, 2, 3, 4).add_bit_color(BitColor::White);
    assert_eq!(d, byte_color(2, 3, 4, 4));
}

#[test]
fn bit_colour_mutation_redraws_chosen_channels() {
    let c = BitColor::Red.mutated([true, false, true], [false, true, true]);
    assert_eq!(c, BitColor::Blue);
    let d = BitColor::Red.mutated([false, false, false], [false, true, true]);
    assert_eq!(d, BitColor::Red);
}

#[test]
fn random_nibble_colours_stay_below_sixteen() {
    let mut rng = DeterministicRng::from_seed([7; 16]);
    for _ in 0..200 {
        let c = NibbleColor::generate_rng(&mut rng);
        assert!(c.r.into_inner() < 16);
        assert!(c.g.into_inner() < 16);
        assert!(c.b.into_inner() < 16);
        assert!(c.a.into_inner() < 16);
    }
}

#[test]
fn random_bit_colours_take_several_values() {
    let mut rng = DeterministicRng::from_seed([1; 16]);
    let mut seen = [false; 8];
    let mut c = BitColor::Black;
    for _ in 0..200 {
        seen[BitColor::random(&mut rng).to_index()] = true;
        c.mutate_rng(&mut rng);
        seen[c.to_index()] = true;
    }
    assert!(seen.iter().filter(|s| **s).count() > 1);
}

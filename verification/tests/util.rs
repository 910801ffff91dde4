use procgen_types::color_blend_functions::ColorBlendFunctions;
use procgen_types::constraint_resolvers::{SFloatNormaliser, UFloatNormaliser};
use procgen_types::discrete::{Boolean, Byte, Nibble, SInt, UInt};
use procgen_types::ranged::Ranged;
use procgen_types::util::{local_path, DeterministicRng};

#[test]
fn the_same_seed_gives_the_same_numbers() {
    let mut a = DeterministicRng::from_seed([9; 16]);
    let mut b = DeterministicRng::from_seed([9; 16]);
    for _ in 0..10 {
        assert_eq!(a.next_u64(), b.next_u64());
        assert_eq!(a.next_u32(), b.next_u32());
    }
    let mut c = DeterministicRng::from_seed([10; 16]);
    let from_a: Vec<u64> = (0..4).map(|_| a.next_u64()).collect();
    let from_c: Vec<u64> = (0..4).map(|_| c.next_u64()).collect();
    assert_ne!(from_a, from_c);
}

#[test]
fn random_nibbles_stay_below_sixteen_and_vary() {
    let mut rng = DeterministicRng::from_seed([2; 16]);
    let mut seen = [false; 16];
    for _ in 0..500 {
        let n = Nibble::random(&mut rng);
        assert!(n.into_inner() < 16);
        seen[n.into_inner() as usize] = true;
    }
    assert!(seen.iter().filter(|s| **s).count() > 8);
}

#[test]
fn mutation_keeps_nibbles_below_sixteen() {
    let mut rng = DeterministicRng::from_seed([4; 16]);
    let mut n = Nibble::new(15);
    for _ in 0..500 {
        n.mutate_rng(&mut rng);
        assert!(n.into_inner() < 16);
    }
}

#[test]
fn byte_mutation_moves_by_at_most_one_step() {
    let mut rng = DeterministicRng::from_seed([5; 16]);
    let mut b = Byte::new(100);
    for _ in 0..200 {
        let before = b.into_inner();
        b.mutate_rng(&mut rng);
        let after = b.into_inner();
        assert!(
            after == before
                || after == before.wrapping_add(1)
                || after == before.wrapping_sub(1)
        );
    }
}

#[test]
fn byte_mutation_steps_both_up_and_down() {
    let mut rng = DeterministicRng::from_seed([15; 16]);
    let mut up = false;
    let mut down = false;
    for _ in 0..200 {
        let mut b = Byte::new(100);
        b.mutate_rng(&mut rng);
        up = up || b.into_inner() == 101;
        down = down || b.into_inner() == 99;
    }
    assert!(up && down);
}

#[test]
fn boolean_mutation_sometimes_flips() {
    let mut rng = DeterministicRng::from_seed([16; 16]);
    let mut flipped_from_true = false;
    let mut flipped_from_false = false;
    for _ in 0..200 {
        let mut t = Boolean::new(true);
        t.mutate_rng(&mut rng);
        flipped_from_true = flipped_from_true || !t.into_inner();
        let mut f = Boolean::new(false);
        f.mutate_rng(&mut rng);
        flipped_from_false = flipped_from_false || f.into_inner();
    }
    assert!(flipped_from_true && flipped_from_false);
}

#[test]
fn the_other_primitives_generate_and_mutate() {
    let mut rng = DeterministicRng::from_seed([6; 16]);
    let mut flag = Boolean::random(&mut rng);
    flag.mutate_rng(&mut rng);
    let mut u = UInt::random(&mut rng);
    let first = u.into_inner();
    let mut changed = false;
    for _ in 0..4 {
        u.mutate_rng(&mut rng);
        changed = changed || u.into_inner() != first;
    }
    assert!(changed);
    let mut s = SInt::generate_rng(&mut rng);
    s.mutate_rng(&mut rng);
    let _ = Byte::generate_rng(&mut rng);
}

#[test]
fn tags_are_drawn_from_their_lists() {
    let mut rng = DeterministicRng::from_seed([8; 16]);
    let mut random_seen = false;
    for _ in 0..200 {
        let n = SFloatNormaliser::generate_rng(&mut rng);
        random_seen = random_seen || n.is_random();
        let mut u = UFloatNormaliser::generate_rng(&mut rng);
        u.mutate_rng(&mut rng);
        let _ = ColorBlendFunctions::generate_rng(&mut rng);
    }
    assert!(random_seen);
    assert_eq!(SFloatNormaliser::from_index(4), SFloatNormaliser::TanH);
    assert_eq!(UFloatNormaliser::from_index(4), UFloatNormaliser::Clamp);
    assert_eq!(ColorBlendFunctions::from_index(2), ColorBlendFunctions::ScreenDodge);
    assert!(!SFloatNormaliser::Clamp.is_random());
    assert!(UFloatNormaliser::Random.is_random());
}

#[test]
fn ranges_of_the_bounded_integers() {
    assert_eq!(<Nibble as Ranged>::max_value().into_inner(), 15);
    assert_eq!(<Nibble as Ranged>::min_value().into_inner(), 0);
    assert_eq!(<Byte as Ranged>::max_value().into_inner(), 255);
    assert_eq!(<UInt as Ranged>::max_value().into_inner(), u32::MAX);
    assert_eq!(<SInt as Ranged>::min_value().into_inner(), i32::MIN);
    assert_eq!(<SInt as Ranged>::max_value().into_inner(), i32::MAX);
}

#[test]
fn local_paths_prefer_the_manifest_directory() {
    assert_eq!(
        local_path(Some("/m".to_string()), "/c".to_string(), "f.txt".to_string()),
        vec!["/m".to_string(), "..".to_string(), "f.txt".to_string()]
    );
    assert_eq!(
        local_path(None, "/c".to_string(), "f.txt".to_string()),
        vec!["/c".to_string(), "f.txt".to_string()]
    );
}

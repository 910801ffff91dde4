use procgen_types::automata_rules::{LifeLikeAutomataRule, PixelNeighbourhood};
use procgen_types::colors::{BitColor, NibbleColor};
use procgen_types::discrete::{Byte, Nibble};
use procgen_types::mutagen_args::{ProtoGenArg, ProtoMutArg, ProtoUpdArg};
use procgen_types::profiler::{EventKind, MutagenProfiler};
use procgen_types::traits::{Generatable, Keyed, Mutatable, Updatable};
use procgen_types::util::DeterministicRng;

fn count(profiler: &Option<MutagenProfiler>, kind: EventKind, key: &str) -> usize {
    profiler.as_ref().unwrap().count(kind, &key.to_string())
}

#[test]
fn each_type_has_its_name_as_key() {
    assert_eq!(<Nibble as Keyed>::key(), "Nibble");
    assert_eq!(<BitColor as Keyed>::key(), "BitColor");
    assert_eq!(<LifeLikeAutomataRule as Keyed>::key(), "LifeLikeAutomataRule");
    assert_eq!(<PixelNeighbourhood as Keyed>::key(), "PixelNeighbourhood");
}

#[test]
fn generation_and_mutation_report_to_the_profile() {
    let mut rng = DeterministicRng::from_seed([21; 16]);
    let mut profiler = Some(MutagenProfiler::new());
    let mut nibble = <Nibble as Generatable>::generate(
        &mut rng,
        ProtoGenArg { profiler: &mut profiler },
    );
    assert!(nibble.into_inner() < 16);
    for _ in 0..3 {
        Mutatable::mutate(&mut nibble, &mut rng, ProtoMutArg { profiler: &mut profiler });
        assert!(nibble.into_inner() < 16);
    }
    let _ = <Byte as Generatable>::generate(&mut rng, ProtoGenArg { profiler: &mut profiler });
    assert_eq!(count(&profiler, EventKind::Generate, "Nibble"), 1);
    assert_eq!(count(&profiler, EventKind::Mutate, "Nibble"), 3);
    assert_eq!(count(&profiler, EventKind::Generate, "Byte"), 1);
    assert_eq!(count(&profiler, EventKind::Mutate, "Byte"), 0);
}

#[test]
fn generation_without_a_profile_reports_nothing() {
    let mut rng = DeterministicRng::from_seed([22; 16]);
    let mut none: Option<MutagenProfiler> = None;
    let mut color = <NibbleColor as Generatable>::generate(
        &mut rng,
        ProtoGenArg { profiler: &mut none },
    );
    Mutatable::mutate(&mut color, &mut rng, ProtoMutArg { profiler: &mut none });
    assert!(color.is_well_formed());
    assert!(none.is_none());
}

#[test]
fn the_capabilities_draw_as_the_types_do() {
    let mut a = DeterministicRng::from_seed([23; 16]);
    let mut b = DeterministicRng::from_seed([23; 16]);
    let mut rule = <LifeLikeAutomataRule as Generatable>::generate_rng(&mut a);
    let mut same = LifeLikeAutomataRule::generate_rng(&mut b);
    assert_eq!(rule.color_order, same.color_order);
    Mutatable::mutate_rng(&mut rule, &mut a);
    same.mutate_rng(&mut b);
    assert_eq!(rule.color_order, same.color_order);
    assert!(rule.is_well_formed());
}

#[test]
fn an_update_reports_and_leaves_the_value() {
    let mut profiler = Some(MutagenProfiler::new());
    let mut byte = Byte::new(41);
    byte.update(ProtoUpdArg { profiler: &mut profiler });
    byte.update(ProtoUpdArg { profiler: &mut profiler });
    assert_eq!(byte.into_inner(), 41);
    assert_eq!(count(&profiler, EventKind::Update, "Byte"), 2);
    assert_eq!(count(&profiler, EventKind::Generate, "Byte"), 0);
}

use procgen_types::automata_rules::{
    ElementaryAutomataRule, IndivAutomataRule, LifeLikeAutomataRule, LifeLikeTable,
    NeighbourCountAutomataRule, PixelNeighbourhood,
};
use procgen_types::colors::BitColor;
use procgen_types::discrete::Boolean;
use procgen_types::util::DeterministicRng;

fn rng(seed: u8) -> DeterministicRng {
    DeterministicRng::from_seed([seed; 16])
}

#[test]
fn test_rule_110() {
    let rule = ElementaryAutomataRule::from_wolfram_code(110);

    assert_eq!(
        rule.get_value_from_booleans(
            Boolean::new(true),
            Boolean::new(true),
            Boolean::new(true),
        )
        .into_inner(),
        false,
    );

    assert_eq!(
        rule.get_value_from_booleans(
            Boolean::new(true),
            Boolean::new(true),
            Boolean::new(false),
        )
        .into_inner(),
        true,
    );

    assert_eq!(
        rule.get_value_from_booleans(
            Boolean::new(true),
            Boolean::new(false),
            Boolean::new(true),
        )
        .into_inner(),
        true,
    );

    assert_eq!(
        rule.get_value_from_booleans(
            Boolean::new(true),
            Boolean::new(false),
            Boolean::new(false),
        )
        .into_inner(),
        false,
    );

    assert_eq!(
        rule.get_value_from_booleans(
            Boolean::new(false),
            Boolean::new(true),
            Boolean::new(true),
        )
        .into_inner(),
        true,
    );

    assert_eq!(
        rule.get_value_from_booleans(
            Boolean::new(false),
            Boolean::new(true),
            Boolean::new(false),
        )
        .into_inner(),
        true,
    );

    assert_eq!(
        rule.get_value_from_booleans(
            Boolean::new(false),
            Boolean::new(false),
            Boolean::new(true),
        )
        .into_inner(),
        true,
    );

    assert_eq!(
        rule.get_value_from_booleans(
            Boolean::new(false),
            Boolean::new(false),
            Boolean::new(false),
        )
        .into_inner(),
        false,
    );
}

#[test]
fn neighbourhood_index_packs_left_centre_right() {
    let t = Boolean::new(true);
    let f = Boolean::new(false);
    assert_eq!(ElementaryAutomataRule::get_index_from_booleans(f, f, f), 0);
    assert_eq!(ElementaryAutomataRule::get_index_from_booleans(f, f, t), 1);
    assert_eq!(ElementaryAutomataRule::get_index_from_booleans(f, t, f), 2);
    assert_eq!(ElementaryAutomataRule::get_index_from_booleans(t, f, f), 4);
    assert_eq!(ElementaryAutomataRule::get_index_from_booleans(t, t, t), 7);
}

#[test]
fn wolfram_code_is_the_table_read_as_a_binary_number() {
    for code in 0..=255u8 {
        let rule = ElementaryAutomataRule::from_wolfram_code(code);
        let mut read_back = 0u32;
        for i in 0..8 {
            if rule.pattern[i].into_inner() {
                read_back += 1 << i;
            }
        }
        assert_eq!(read_back, code as u32);
    }
}

#[test]
fn flip_entry_changes_one_entry() {
    let mut rule = ElementaryAutomataRule::from_wolfram_code(30);
    rule.flip_entry(3);
    let want = ElementaryAutomataRule::from_wolfram_code(30 ^ 8);
    for i in 0..8 {
        assert_eq!(rule.pattern[i].into_inner(), want.pattern[i].into_inner());
    }
}

#[test]
fn elementary_rule_mutation_keeps_eight_entries() {
    let mut r = rng(3);
    let mut rule = ElementaryAutomataRule::generate_rng(&mut r);
    for _ in 0..50 {
        rule.mutate_rng(&mut r);
    }
    assert_eq!(rule.pattern.len(), 8);
}

#[test]
fn offsets_of_each_neighbourhood() {
    assert_eq!(PixelNeighbourhood::Vertical.offsets(), vec![(0, -1), (0, 1)]);
    assert_eq!(
        PixelNeighbourhood::VonNeumann.offsets(),
        vec![(-1, 0), (1, 0), (0, -1), (0, 1)]
    );
    assert_eq!(
        PixelNeighbourhood::AntiVonNeumann.offsets(),
        vec![(-1, -1), (1, -1), (1, -1), (1, 1)]
    );
    assert_eq!(
        PixelNeighbourhood::Moore.offsets(),
        vec![(-1, -1), (-1, 0), (-1, 1), (0, -1), (0, 1), (1, -1), (1, 0), (1, 1)]
    );
    assert_eq!(PixelNeighbourhood::BigMelt.offsets().len(), 6);
    assert_eq!(PixelNeighbourhood::Circle.offsets().len(), 12);
    assert_eq!(PixelNeighbourhood::Square.offsets().len(), 16);
    for index in 0..15u8 {
        let shape = PixelNeighbourhood::from_index(index);
        assert_eq!(shape.offsets().len(), shape.count());
    }
}

#[test]
fn neighbour_count_table_has_one_entry_more_than_neighbours_along_each_axis() {
    let mut r = rng(11);
    for _ in 0..20 {
        let rule = NeighbourCountAutomataRule::generate_rng(&mut r);
        let n = rule.neighbourhood.count();
        // the corner entries exist
        let _ = rule.lookup(0, 0, 0);
        let _ = rule.lookup(n, n, n);
        let _ = rule.lookup(n, 0, n);
    }
}

#[test]
fn a_filled_table_holds_one_colour_everywhere() {
    let rule = NeighbourCountAutomataRule::filled(PixelNeighbourhood::Melt, BitColor::Yellow);
    for a in 0..=3 {
        for b in 0..=3 {
            for c in 0..=3 {
                assert_eq!(rule.lookup(a, b, c), BitColor::Yellow);
            }
        }
    }
}

#[test]
fn neighbour_count_set_entry_replaces_one_entry() {
    let mut r = rng(5);
    let mut rule = NeighbourCountAutomataRule::generate_rng(&mut r);
    let n = rule.neighbourhood.count();
    let mut before = Vec::new();
    for a in 0..=n {
        for b in 0..=n {
            for c in 0..=n {
                before.push(rule.lookup(a, b, c));
            }
        }
    }
    let old = rule.lookup(1, 0, 2);
    let new = if old == BitColor::Red { BitColor::Cyan } else { BitColor::Red };
    rule.set_entry(1, 0, 2, new);
    let mut k = 0;
    for a in 0..=n {
        for b in 0..=n {
            for c in 0..=n {
                if (a, b, c) == (1, 0, 2) {
                    assert_eq!(rule.lookup(a, b, c), new);
                } else {
                    assert_eq!(rule.lookup(a, b, c), before[k]);
                }
                k += 1;
            }
        }
    }
}

#[test]
fn neighbour_count_entry_mutation_changes_at_most_one_entry() {
    let mut r = rng(9);
    let mut rule = NeighbourCountAutomataRule::generate_rng(&mut r);
    let n = rule.neighbourhood.count();
    for _ in 0..10 {
        let mut before = Vec::new();
        for a in 0..=n {
            for b in 0..=n {
                for c in 0..=n {
                    before.push(rule.lookup(a, b, c));
                }
            }
        }
        rule.mutate_entry_rng(&mut r);
        let mut changed = 0;
        let mut k = 0;
        for a in 0..=n {
            for b in 0..=n {
                for c in 0..=n {
                    if rule.lookup(a, b, c) != before[k] {
                        changed += 1;
                    }
                    k += 1;
                }
            }
        }
        assert!(changed <= 1);
    }
}

#[test]
fn neighbour_count_mutation_keeps_the_table_cubic() {
    let mut r = rng(10);
    let mut rule = NeighbourCountAutomataRule::generate_rng(&mut r);
    for _ in 0..20 {
        rule.mutate_rng(&mut r);
        let n = rule.neighbourhood.count();
        let _ = rule.lookup(n, n, n);
        let _ = rule.lookup(0, n, 0);
    }
}

#[test]
fn life_like_table_births_and_survives() {
    let table = LifeLikeTable { birth: Boolean::new(true), survival: Boolean::new(false) };
    assert_eq!(table.next_state(false), true);
    assert_eq!(table.next_state(true), false);
}

#[test]
fn indiv_rule_has_a_table_for_each_count() {
    let mut r = rng(21);
    for _ in 0..20 {
        let mut rule = IndivAutomataRule::generate_rng(&mut r);
        assert_eq!(rule.rules.len(), rule.neighbourhood.count() + 1);
        rule.mutate_rng(&mut r);
        assert_eq!(rule.rules.len(), rule.neighbourhood.count() + 1);
    }
}

#[test]
fn life_like_rule_orders_each_colour_once() {
    let mut r = rng(33);
    let mut rule = LifeLikeAutomataRule::generate_rng(&mut r);
    for _ in 0..5 {
        let mut seen = [false; 8];
        for c in rule.color_order.iter() {
            assert!(!seen[c.to_index()]);
            seen[c.to_index()] = true;
        }
        assert!(seen.iter().all(|s| *s));
        rule.mutate_rng(&mut r);
    }
}

#[test]
fn life_like_shuffle_moves_some_colour() {
    // Over many seeds the order cannot always stay the fixed order.
    let mut moved = false;
    for seed in 0..20u8 {
        let mut r = rng(seed);
        let rule = LifeLikeAutomataRule::generate_rng(&mut r);
        if rule.color_order != BitColor::values() {
            moved = true;
        }
    }
    assert!(moved);
}

fn table(birth: bool, survival: bool) -> LifeLikeTable {
    LifeLikeTable { birth: Boolean::new(birth), survival: Boolean::new(survival) }
}

fn constant_rule(birth: bool, survival: bool) -> IndivAutomataRule {
    IndivAutomataRule {
        neighbourhood: PixelNeighbourhood::Vertical,
        rules: vec![table(birth, survival), table(birth, survival), table(birth, survival)],
    }
}

#[test]
fn life_like_evaluate_takes_the_first_colour_that_fires() {
    // Red and Blue are born with any count; the others never fire.
    let never = || constant_rule(false, false);
    let born = || constant_rule(true, false);
    let rule = LifeLikeAutomataRule {
        color_order: [
            BitColor::Green,
            BitColor::Blue,
            BitColor::Red,
            BitColor::Black,
            BitColor::Cyan,
            BitColor::Magenta,
            BitColor::Yellow,
            BitColor::White,
        ],
        color_rules: [never(), born(), never(), born(), never(), never(), never(), never()],
    };
    let counts = [0usize, 1, 2, 0, 1, 2, 0, 1];
    // Blue comes before Red in the order.
    assert_eq!(rule.evaluate(BitColor::Black, &counts), Some(BitColor::Blue));
    // A blue cell does not survive, so Red is born.
    assert_eq!(rule.evaluate(BitColor::Blue, &counts), Some(BitColor::Red));
}

#[test]
fn life_like_evaluate_without_a_firing_rule() {
    let never = || constant_rule(false, false);
    let rule = LifeLikeAutomataRule {
        color_order: BitColor::values(),
        color_rules: [never(), never(), never(), never(), never(), never(), never(), never()],
    };
    assert_eq!(rule.evaluate(BitColor::White, &[0; 8]), None);
}

#[test]
fn a_rule_set_is_well_formed_when_its_order_holds_every_colour() {
    let never = || constant_rule(false, false);
    let mut rule = LifeLikeAutomataRule {
        color_order: BitColor::values(),
        color_rules: [never(), never(), never(), never(), never(), never(), never(), never()],
    };
    assert!(rule.is_well_formed());
    rule.color_order[3] = BitColor::Black;
    assert!(!rule.is_well_formed());
    rule.color_order[0] = BitColor::Blue;
    assert!(rule.is_well_formed());
    rule.color_rules[5].rules.pop();
    assert!(!rule.is_well_formed());
    assert!(!rule.color_rules[5].is_well_formed());
    assert!(rule.color_rules[4].is_well_formed());
}

#[test]
fn generated_rule_sets_are_well_formed() {
    let mut r = rng(77);
    for _ in 0..10 {
        let mut rule = LifeLikeAutomataRule::generate_rng(&mut r);
        assert!(rule.is_well_formed());
        rule.mutate_rng(&mut r);
        assert!(rule.is_well_formed());
    }
}

#[test]
fn life_like_table_mutation_steps() {
    let old = table(true, false);
    let fresh = table(false, true);
    let flag = Boolean::new(false);
    let resampled = old.mutated(0, fresh, flag);
    assert_eq!((resampled.birth.into_inner(), resampled.survival.into_inner()), (false, true));
    let born = old.mutated(1, fresh, flag);
    assert_eq!((born.birth.into_inner(), born.survival.into_inner()), (false, false));
    let survived = old.mutated(2, fresh, Boolean::new(true));
    assert_eq!((survived.birth.into_inner(), survived.survival.into_inner()), (true, true));
}

#[test]
fn set_table_replaces_one_table() {
    let mut rule = constant_rule(false, false);
    rule.set_table(2, table(true, true));
    let flags: Vec<(bool, bool)> = rule
        .rules
        .iter()
        .map(|t| (t.birth.into_inner(), t.survival.into_inner()))
        .collect();
    assert_eq!(flags, vec![(false, false), (false, false), (true, true)]);
    assert_eq!(rule.neighbourhood, PixelNeighbourhood::Vertical);
}

#[test]
fn the_table_for_all_neighbours_can_be_mutated() {
    // Every table, the last among them, is reached by some mutation.
    let mut changed = [false; 3];
    for seed in 0..40u8 {
        let mut r = rng(seed);
        let mut rule = constant_rule(false, false);
        rule.mutate_rng(&mut r);
        if rule.neighbourhood == PixelNeighbourhood::Vertical && rule.rules.len() == 3 {
            for i in 0..3 {
                if rule.rules[i].birth.into_inner() || rule.rules[i].survival.into_inner() {
                    changed[i] = true;
                }
            }
        }
    }
    assert!(changed[2]);
}

#[test]
fn set_color_rule_replaces_one_rule() {
    let never = || constant_rule(false, false);
    let mut rule = LifeLikeAutomataRule {
        color_order: BitColor::values(),
        color_rules: [never(), never(), never(), never(), never(), never(), never(), never()],
    };
    rule.set_color_rule(6, constant_rule(true, false));
    for i in 0..8 {
        assert_eq!(rule.color_rules[i].rules[0].birth.into_inner(), i == 6);
    }
    assert_eq!(rule.color_order, BitColor::values());
}

#[test]
fn a_cloned_rule_has_the_same_tables() {
    let rule = constant_rule(true, false);
    let other = rule.clone();
    assert_eq!(other.neighbourhood, rule.neighbourhood);
    assert_eq!(other.rules.len(), 3);
    assert!(other.rules.iter().all(|t| t.birth.into_inner() && !t.survival.into_inner()));
}

//! Birth and death rules between pairs of colours, as flags for each number
//! of neighbours.

use vstd::prelude::*;

use crate::util::{gen_bool, gen_usize, DeterministicRng};

verus! {

/// The number of flags of a rule: one for each number of neighbours from
/// none to eight.
pub const MAX_NEIGHBOUR_ARRAY_COUNT: usize = 9;

/// The number of colours.
pub const MAX_COLORS: usize = 8;

/// The rule of one colour towards another.
#[derive(Clone, Copy)]
pub struct Rule {
    /// For each number of neighbours, whether a cell is born.
    pub life_neighbours: [bool; 9],
    /// For each number of neighbours, whether a cell is killed.
    pub death_neighbours: [bool; 9],
}

/// The rules of one colour towards each colour.
#[derive(Clone, Copy)]
pub struct RuleSet {
    pub rules: [Rule; 8],
}

/// Draws a flag for each number of neighbours, in their order.
pub fn generate_random_neighbour_list(rng: &mut DeterministicRng) -> (list: [bool; 9]) {
    let f0 = gen_bool(rng);
    let f1 = gen_bool(rng);
    let f2 = gen_bool(rng);
    let f3 = gen_bool(rng);
    let f4 = gen_bool(rng);
    let f5 = gen_bool(rng);
    let f6 = gen_bool(rng);
    let f7 = gen_bool(rng);
    let f8 = gen_bool(rng);
    [f0, f1, f2, f3, f4, f5, f6, f7, f8]
}

/// Draws the birth flags and then the death flags.
pub fn generate_random_rule(rng: &mut DeterministicRng) -> (rule: Rule) {
    let life_neighbours = generate_random_neighbour_list(rng);
    let death_neighbours = generate_random_neighbour_list(rng);
    Rule { life_neighbours, death_neighbours }
}

/// Draws a rule towards each colour, in the order of the colours.
pub fn generate_random_rule_set(rng: &mut DeterministicRng) -> (set: RuleSet) {
    let r0 = generate_random_rule(rng);
    let r1 = generate_random_rule(rng);
    let r2 = generate_random_rule(rng);
    let r3 = generate_random_rule(rng);
    let r4 = generate_random_rule(rng);
    let r5 = generate_random_rule(rng);
    let r6 = generate_random_rule(rng);
    let r7 = generate_random_rule(rng);
    RuleSet { rules: [r0, r1, r2, r3, r4, r5, r6, r7] }
}

/// Whether `after` is `before` with the birth flag that `color` has for
/// `neighbours` neighbours set to `flag`, and everything else as it was.
pub open spec fn life_flag_set(
    before: RuleSet,
    after: RuleSet,
    color: int,
    neighbours: int,
    flag: bool,
) -> bool {
    &&& 0 <= color < 8
    &&& 0 <= neighbours < 9
    &&& after.rules@[color].life_neighbours@ == before.rules@[color].life_neighbours@.update(
        neighbours,
        flag,
    )
    &&& after.rules@[color].death_neighbours == before.rules@[color].death_neighbours
    &&& forall|c: int| 0 <= c < 8 && c != color ==> after.rules@[c] == before.rules@[c]
}

/// Whether `after` is `before` with the death flag that `color` has for
/// `neighbours` neighbours set to `flag`, and everything else as it was.
pub open spec fn death_flag_set(
    before: RuleSet,
    after: RuleSet,
    color: int,
    neighbours: int,
    flag: bool,
) -> bool {
    &&& 0 <= color < 8
    &&& 0 <= neighbours < 9
    &&& after.rules@[color].death_neighbours@ == before.rules@[color].death_neighbours@.update(
        neighbours,
        flag,
    )
    &&& after.rules@[color].life_neighbours == before.rules@[color].life_neighbours
    &&& forall|c: int| 0 <= c < 8 && c != color ==> after.rules@[c] == before.rules@[c]
}

impl RuleSet {
    /// Sets one birth flag and leaves everything else.
    pub fn set_life_flag(&mut self, color: usize, neighbours: usize, flag: bool)
        requires
            color < 8,
            neighbours < 9,
        ensures
            life_flag_set(*old(self), *final(self), color as int, neighbours as int, flag),
    {
        let mut rule = self.rules[color];
        rule.life_neighbours[neighbours] = flag;
        self.rules[color] = rule;
    }

    /// Sets one death flag and leaves everything else.
    pub fn set_death_flag(&mut self, color: usize, neighbours: usize, flag: bool)
        requires
            color < 8,
            neighbours < 9,
        ensures
            death_flag_set(*old(self), *final(self), color as int, neighbours as int, flag),
    {
        let mut rule = self.rules[color];
        rule.death_neighbours[neighbours] = flag;
        self.rules[color] = rule;
    }
}

/// Draws one birth flag and one death flag afresh, each of a colour and a
/// number of neighbours picked at random: the rule set changes in one birth
/// flag at most, and then in one death flag at most.
pub fn mutate_rule_set(rule_set: &mut RuleSet, rng: &mut DeterministicRng)
    ensures
        exists|middle: RuleSet, lc: int, ln: int, lf: bool, dc: int, dn: int, df: bool|
            #[trigger] life_flag_set(*old(rule_set), middle, lc, ln, lf) && #[trigger] death_flag_set(
                middle,
                *final(rule_set),
                dc,
                dn,
                df,
            ),
{
    let life_flag = gen_bool(rng);
    let life_color = gen_usize(rng) % MAX_COLORS;
    let life_neighbours = gen_usize(rng) % MAX_NEIGHBOUR_ARRAY_COUNT;
    rule_set.set_life_flag(life_color, life_neighbours, life_flag);
    let ghost middle = *rule_set;
    let death_flag = gen_bool(rng);
    let death_color = gen_usize(rng) % MAX_COLORS;
    let death_neighbours = gen_usize(rng) % MAX_NEIGHBOUR_ARRAY_COUNT;
    rule_set.set_death_flag(death_color, death_neighbours, death_flag);
    assert(life_flag_set(
        *old(rule_set),
        middle,
        life_color as int,
        life_neighbours as int,
        life_flag,
    ));
    assert(death_flag_set(
        middle,
        *rule_set,
        death_color as int,
        death_neighbours as int,
        death_flag,
    ));
}

} // verus!

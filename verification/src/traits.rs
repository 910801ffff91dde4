//! The capabilities that the types of the kernel share: each has a
//! well-known key, can be generated from a random source and, but for the
//! neighbourhood shapes, mutated by one; generation, mutation and update
//! report themselves to the profile that their argument lends.

use vstd::prelude::*;

use crate::automata_rules::{ElementaryAutomataRule, IndivAutomataRule, LifeLikeAutomataRule, LifeLikeTable, NeighbourCountAutomataRule, PixelNeighbourhood};
use crate::color_blend_functions::ColorBlendFunctions;
use crate::colors::{BitColor, ByteColor, NibbleColor};
use crate::constraint_resolvers::{SFloatNormaliser, UFloatNormaliser};
use crate::discrete::{Boolean, Byte, Nibble, SInt, UInt};
use crate::distance_functions::DistanceFunction;
use crate::mutagen_args::{
    spec_reportable, spec_reported, ProtoGenArg, ProtoMutArg, ProtoUpdArg,
};
use crate::profiler::{Event, EventKind};
use crate::util::DeterministicRng;

verus! {

/// A type with an invariant and a well-known key under which its events are
/// counted.
pub trait Keyed {
    /// Whether the value meets the invariant of its type.
    spec fn valid(&self) -> bool;

    /// The key of the type.
    spec fn spec_key() -> Seq<char>;

    /// The key of the type.
    fn key() -> (k: String)
        ensures
            k@ == Self::spec_key(),
    ;
}

/// A type whose values can be drawn from a random source.
pub trait Generatable: Keyed + Sized {
    /// Draws a value that meets the invariant of the type.
    fn generate_rng(rng: &mut DeterministicRng) -> (r: Self)
        ensures
            r.valid(),
    ;

    /// Reports a generate event under the key of the type and draws a
    /// value.
    fn generate(rng: &mut DeterministicRng, arg: ProtoGenArg<'_>) -> (r: Self)
        requires
            spec_reportable(*old(arg.profiler), EventKind::Generate, Self::spec_key()),
        ensures
            r.valid(),
            spec_reported(
                *old(arg.profiler),
                *final(arg.profiler),
                EventKind::Generate,
                Self::spec_key(),
            ),
    {
        let mut arg = arg;
        arg.handle_event(Event { kind: EventKind::Generate, key: Self::key() });
        Self::generate_rng(rng)
    }
}

/// A type whose values can be perturbed by a random source.
pub trait Mutatable: Keyed {
    /// Perturbs the value and keeps the invariant of the type.
    fn mutate_rng(&mut self, rng: &mut DeterministicRng)
        requires
            old(self).valid(),
        ensures
            final(self).valid(),
    ;

    /// Reports a mutate event under the key of the type and perturbs the
    /// value.
    fn mutate(&mut self, rng: &mut DeterministicRng, arg: ProtoMutArg<'_>)
        requires
            old(self).valid(),
            spec_reportable(*old(arg.profiler), EventKind::Mutate, Self::spec_key()),
        ensures
            final(self).valid(),
            spec_reported(
                *old(arg.profiler),
                *final(arg.profiler),
                EventKind::Mutate,
                Self::spec_key(),
            ),
    {
        let mut arg = arg;
        arg.handle_event(Event { kind: EventKind::Mutate, key: Self::key() });
        self.mutate_rng(rng);
    }
}

/// A type whose values are told when time moves on.
pub trait Updatable: Keyed + Sized {
    /// Reports an update event under the key of the type and leaves the
    /// value as it is.
    fn update(&mut self, arg: ProtoUpdArg<'_>)
        requires
            spec_reportable(*old(arg.profiler), EventKind::Update, Self::spec_key()),
        ensures
            *final(self) == *old(self),
            spec_reported(
                *old(arg.profiler),
                *final(arg.profiler),
                EventKind::Update,
                Self::spec_key(),
            ),
    {
        let mut arg = arg;
        arg.handle_event(Event { kind: EventKind::Update, key: Self::key() });
    }
}

impl Keyed for Boolean {
    open spec fn valid(&self) -> bool {
        true
    }

    open spec fn spec_key() -> Seq<char> {
        "Boolean"@
    }

    fn key() -> (k: String) {
        "Boolean".to_owned()
    }
}

impl Generatable for Boolean {
    fn generate_rng(rng: &mut DeterministicRng) -> (r: Self) {
        Boolean::generate_rng(rng)
    }
}

impl Updatable for Boolean {
}

impl Mutatable for Boolean {
    fn mutate_rng(&mut self, rng: &mut DeterministicRng) {
        Boolean::mutate_rng(self, rng)
    }
}

impl Keyed for Nibble {
    open spec fn valid(&self) -> bool {
        self.wf()
    }

    open spec fn spec_key() -> Seq<char> {
        "Nibble"@
    }

    fn key() -> (k: String) {
        "Nibble".to_owned()
    }
}

impl Generatable for Nibble {
    fn generate_rng(rng: &mut DeterministicRng) -> (r: Self) {
        Nibble::generate_rng(rng)
    }
}

impl Updatable for Nibble {
}

impl Mutatable for Nibble {
    fn mutate_rng(&mut self, rng: &mut DeterministicRng) {
        Nibble::mutate_rng(self, rng)
    }
}

impl Keyed for Byte {
    open spec fn valid(&self) -> bool {
        true
    }

    open spec fn spec_key() -> Seq<char> {
        "Byte"@
    }

    fn key() -> (k: String) {
        "Byte".to_owned()
    }
}

impl Generatable for Byte {
    fn generate_rng(rng: &mut DeterministicRng) -> (r: Self) {
        Byte::generate_rng(rng)
    }
}

impl Updatable for Byte {
}

impl Mutatable for Byte {
    fn mutate_rng(&mut self, rng: &mut DeterministicRng) {
        Byte::mutate_rng(self, rng)
    }
}

impl Keyed for UInt {
    open spec fn valid(&self) -> bool {
        true
    }

    open spec fn spec_key() -> Seq<char> {
        "UInt"@
    }

    fn key() -> (k: String) {
        "UInt".to_owned()
    }
}

impl Generatable for UInt {
    fn generate_rng(rng: &mut DeterministicRng) -> (r: Self) {
        UInt::generate_rng(rng)
    }
}

impl Updatable for UInt {
}

impl Mutatable for UInt {
    fn mutate_rng(&mut self, rng: &mut DeterministicRng) {
        UInt::mutate_rng(self, rng)
    }
}

impl Keyed for SInt {
    open spec fn valid(&self) -> bool {
        true
    }

    open spec fn spec_key() -> Seq<char> {
        "SInt"@
    }

    fn key() -> (k: String) {
        "SInt".to_owned()
    }
}

impl Generatable for SInt {
    fn generate_rng(rng: &mut DeterministicRng) -> (r: Self) {
        SInt::generate_rng(rng)
    }
}

impl Updatable for SInt {
}

impl Mutatable for SInt {
    fn mutate_rng(&mut self, rng: &mut DeterministicRng) {
        SInt::mutate_rng(self, rng)
    }
}

impl Keyed for NibbleColor {
    open spec fn valid(&self) -> bool {
        self.wf()
    }

    open spec fn spec_key() -> Seq<char> {
        "NibbleColor"@
    }

    fn key() -> (k: String) {
        "NibbleColor".to_owned()
    }
}

impl Generatable for NibbleColor {
    fn generate_rng(rng: &mut DeterministicRng) -> (r: Self) {
        NibbleColor::generate_rng(rng)
    }
}

impl Updatable for NibbleColor {
}

impl Mutatable for NibbleColor {
    fn mutate_rng(&mut self, rng: &mut DeterministicRng) {
        NibbleColor::mutate_rng(self, rng)
    }
}

impl Keyed for ByteColor {
    open spec fn valid(&self) -> bool {
        true
    }

    open spec fn spec_key() -> Seq<char> {
        "ByteColor"@
    }

    fn key() -> (k: String) {
        "ByteColor".to_owned()
    }
}

impl Generatable for ByteColor {
    fn generate_rng(rng: &mut DeterministicRng) -> (r: Self) {
        ByteColor::generate_rng(rng)
    }
}

impl Updatable for ByteColor {
}

impl Mutatable for ByteColor {
    fn mutate_rng(&mut self, rng: &mut DeterministicRng) {
        ByteColor::mutate_rng(self, rng)
    }
}

impl Keyed for BitColor {
    open spec fn valid(&self) -> bool {
        true
    }

    open spec fn spec_key() -> Seq<char> {
        "BitColor"@
    }

    fn key() -> (k: String) {
        "BitColor".to_owned()
    }
}

impl Generatable for BitColor {
    fn generate_rng(rng: &mut DeterministicRng) -> (r: Self) {
        BitColor::random(rng)
    }
}

impl Updatable for BitColor {
}

impl Mutatable for BitColor {
    fn mutate_rng(&mut self, rng: &mut DeterministicRng) {
        BitColor::mutate_rng(self, rng)
    }
}

impl Keyed for ElementaryAutomataRule {
    open spec fn valid(&self) -> bool {
        true
    }

    open spec fn spec_key() -> Seq<char> {
        "ElementaryAutomataRule"@
    }

    fn key() -> (k: String) {
        "ElementaryAutomataRule".to_owned()
    }
}

impl Generatable for ElementaryAutomataRule {
    fn generate_rng(rng: &mut DeterministicRng) -> (r: Self) {
        ElementaryAutomataRule::generate_rng(rng)
    }
}

impl Updatable for ElementaryAutomataRule {
}

impl Mutatable for ElementaryAutomataRule {
    fn mutate_rng(&mut self, rng: &mut DeterministicRng) {
        ElementaryAutomataRule::mutate_rng(self, rng)
    }
}

impl Keyed for PixelNeighbourhood {
    open spec fn valid(&self) -> bool {
        true
    }

    open spec fn spec_key() -> Seq<char> {
        "PixelNeighbourhood"@
    }

    fn key() -> (k: String) {
        "PixelNeighbourhood".to_owned()
    }
}

impl Generatable for PixelNeighbourhood {
    fn generate_rng(rng: &mut DeterministicRng) -> (r: Self) {
        PixelNeighbourhood::generate_rng(rng)
    }
}

impl Updatable for PixelNeighbourhood {
}

impl Keyed for NeighbourCountAutomataRule {
    open spec fn valid(&self) -> bool {
        self.wf()
    }

    open spec fn spec_key() -> Seq<char> {
        "NeighbourCountAutomataRule"@
    }

    fn key() -> (k: String) {
        "NeighbourCountAutomataRule".to_owned()
    }
}

impl Generatable for NeighbourCountAutomataRule {
    fn generate_rng(rng: &mut DeterministicRng) -> (r: Self) {
        NeighbourCountAutomataRule::generate_rng(rng)
    }
}

impl Updatable for NeighbourCountAutomataRule {
}

impl Mutatable for NeighbourCountAutomataRule {
    fn mutate_rng(&mut self, rng: &mut DeterministicRng) {
        NeighbourCountAutomataRule::mutate_rng(self, rng)
    }
}

impl Keyed for LifeLikeTable {
    open spec fn valid(&self) -> bool {
        true
    }

    open spec fn spec_key() -> Seq<char> {
        "LifeLikeTable"@
    }

    fn key() -> (k: String) {
        "LifeLikeTable".to_owned()
    }
}

impl Generatable for LifeLikeTable {
    fn generate_rng(rng: &mut DeterministicRng) -> (r: Self) {
        LifeLikeTable::generate_rng(rng)
    }
}

impl Updatable for LifeLikeTable {
}

impl Mutatable for LifeLikeTable {
    fn mutate_rng(&mut self, rng: &mut DeterministicRng) {
        LifeLikeTable::mutate_rng(self, rng)
    }
}

impl Keyed for IndivAutomataRule {
    open spec fn valid(&self) -> bool {
        self.wf()
    }

    open spec fn spec_key() -> Seq<char> {
        "IndivAutomataRule"@
    }

    fn key() -> (k: String) {
        "IndivAutomataRule".to_owned()
    }
}

impl Generatable for IndivAutomataRule {
    fn generate_rng(rng: &mut DeterministicRng) -> (r: Self) {
        IndivAutomataRule::generate_rng(rng)
    }
}

impl Updatable for IndivAutomataRule {
}

impl Mutatable for IndivAutomataRule {
    fn mutate_rng(&mut self, rng: &mut DeterministicRng) {
        IndivAutomataRule::mutate_rng(self, rng)
    }
}

impl Keyed for LifeLikeAutomataRule {
    open spec fn valid(&self) -> bool {
        self.wf()
    }

    open spec fn spec_key() -> Seq<char> {
        "LifeLikeAutomataRule"@
    }

    fn key() -> (k: String) {
        "LifeLikeAutomataRule".to_owned()
    }
}

impl Generatable for LifeLikeAutomataRule {
    fn generate_rng(rng: &mut DeterministicRng) -> (r: Self) {
        LifeLikeAutomataRule::generate_rng(rng)
    }
}

impl Updatable for LifeLikeAutomataRule {
}

impl Mutatable for LifeLikeAutomataRule {
    fn mutate_rng(&mut self, rng: &mut DeterministicRng) {
        LifeLikeAutomataRule::mutate_rng(self, rng)
    }
}

impl Keyed for ColorBlendFunctions {
    open spec fn valid(&self) -> bool {
        true
    }

    open spec fn spec_key() -> Seq<char> {
        "ColorBlendFunctions"@
    }

    fn key() -> (k: String) {
        "ColorBlendFunctions".to_owned()
    }
}

impl Generatable for ColorBlendFunctions {
    fn generate_rng(rng: &mut DeterministicRng) -> (r: Self) {
        ColorBlendFunctions::generate_rng(rng)
    }
}

impl Updatable for ColorBlendFunctions {
}

impl Mutatable for ColorBlendFunctions {
    fn mutate_rng(&mut self, rng: &mut DeterministicRng) {
        ColorBlendFunctions::mutate_rng(self, rng)
    }
}

impl Keyed for SFloatNormaliser {
    open spec fn valid(&self) -> bool {
        true
    }

    open spec fn spec_key() -> Seq<char> {
        "SFloatNormaliser"@
    }

    fn key() -> (k: String) {
        "SFloatNormaliser".to_owned()
    }
}

impl Generatable for SFloatNormaliser {
    fn generate_rng(rng: &mut DeterministicRng) -> (r: Self) {
        SFloatNormaliser::generate_rng(rng)
    }
}

impl Updatable for SFloatNormaliser {
}

impl Mutatable for SFloatNormaliser {
    fn mutate_rng(&mut self, rng: &mut DeterministicRng) {
        SFloatNormaliser::mutate_rng(self, rng)
    }
}

impl Keyed for UFloatNormaliser {
    open spec fn valid(&self) -> bool {
        true
    }

    open spec fn spec_key() -> Seq<char> {
        "UFloatNormaliser"@
    }

    fn key() -> (k: String) {
        "UFloatNormaliser".to_owned()
    }
}

impl Generatable for UFloatNormaliser {
    fn generate_rng(rng: &mut DeterministicRng) -> (r: Self) {
        UFloatNormaliser::generate_rng(rng)
    }
}

impl Updatable for UFloatNormaliser {
}

impl Mutatable for UFloatNormaliser {
    fn mutate_rng(&mut self, rng: &mut DeterministicRng) {
        UFloatNormaliser::mutate_rng(self, rng)
    }
}

impl Keyed for DistanceFunction {
    open spec fn valid(&self) -> bool {
        true
    }

    open spec fn spec_key() -> Seq<char> {
        "DistanceFunction"@
    }

    fn key() -> (k: String) {
        "DistanceFunction".to_owned()
    }
}

impl Generatable for DistanceFunction {
    fn generate_rng(rng: &mut DeterministicRng) -> (r: Self) {
        DistanceFunction::generate_rng(rng)
    }
}

impl Updatable for DistanceFunction {
}

impl Mutatable for DistanceFunction {
    fn mutate_rng(&mut self, rng: &mut DeterministicRng) {
        DistanceFunction::mutate_rng(self, rng)
    }
}

} // verus!

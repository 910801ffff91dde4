//! The seeded random source that generation and mutation draw from, and the
//! rule that places a file beside the program.

use rand::seq::SliceRandom;
use rand::Rng;
use rand::RngCore;
use rand::SeedableRng;
use vstd::prelude::*;

use crate::colors::BitColor;

verus! {

/// Declares `rand_pcg::Mcg128Xsl64`, which `rand_pcg::Pcg64Mcg` names, as a
/// type whose inside is not looked at.
#[verifier::external_type_specification]
#[verifier::external_body]
pub struct ExMcg128Xsl64(rand_pcg::Mcg128Xsl64);

/// A pseudo-random generator that is fully determined by its seed.
pub struct DeterministicRng {
    rng: rand_pcg::Pcg64Mcg,
}

impl DeterministicRng {
    /// Calls `SeedableRng::from_seed` of `rand_pcg::Pcg64Mcg`. Nothing is
    /// claimed of the generator that comes back.
    #[verifier::external_body]
    pub fn from_seed(seed: [u8; 16]) -> (r: Self) {
        Self { rng: rand_pcg::Pcg64Mcg::from_seed(seed) }
    }

    /// Calls `RngCore::next_u32`. Nothing is claimed of the number drawn.
    #[verifier::external_body]
    pub fn next_u32(&mut self) -> (r: u32) {
        self.rng.next_u32()
    }

    /// Calls `RngCore::next_u64`. Nothing is claimed of the number drawn.
    #[verifier::external_body]
    pub fn next_u64(&mut self) -> (r: u64) {
        self.rng.next_u64()
    }
}

/// Calls `Rng::gen::<bool>`. Either value may come back.
#[verifier::external_body]
pub(crate) fn gen_bool(rng: &mut DeterministicRng) -> (r: bool) {
    rng.rng.gen::<bool>()
}

/// Calls `Rng::gen::<u8>`. Any byte may come back.
#[verifier::external_body]
pub(crate) fn gen_u8(rng: &mut DeterministicRng) -> (r: u8) {
    rng.rng.gen::<u8>()
}

/// Calls `Rng::gen::<u32>`. Any value may come back.
#[verifier::external_body]
pub(crate) fn gen_u32(rng: &mut DeterministicRng) -> (r: u32) {
    rng.rng.gen::<u32>()
}

/// Calls `Rng::gen::<i32>`. Any value may come back.
#[verifier::external_body]
pub(crate) fn gen_i32(rng: &mut DeterministicRng) -> (r: i32) {
    rng.rng.gen::<i32>()
}

/// Calls `Rng::gen::<usize>`. Any value may come back.
#[verifier::external_body]
pub(crate) fn gen_usize(rng: &mut DeterministicRng) -> (r: usize) {
    rng.rng.gen::<usize>()
}

/// Calls `Rng::gen_range` on the half-open range `low..high` of `u8`. The
/// call panics on an empty range; otherwise the number drawn lies in the
/// range.
#[verifier::external_body]
pub(crate) fn gen_range_u8(rng: &mut DeterministicRng, low: u8, high: u8) -> (r: u8)
    requires
        low < high,
    ensures
        low <= r < high,
{
    rng.rng.gen_range(low..high)
}

/// Calls `Rng::gen_range` on the half-open range `low..high` of `i32`. The
/// call panics on an empty range; otherwise the number drawn lies in the
/// range.
#[verifier::external_body]
pub(crate) fn gen_range_i32(rng: &mut DeterministicRng, low: i32, high: i32) -> (r: i32)
    requires
        low < high,
    ensures
        low <= r < high,
{
    rng.rng.gen_range(low..high)
}

/// Calls `SliceRandom::shuffle`, which only swaps elements: the array holds
/// afterwards what it held before, in some order.
#[verifier::external_body]
pub(crate) fn shuffle_colors(rng: &mut DeterministicRng, colors: &mut [BitColor; 8])
    ensures
        final(colors)@.to_multiset() == old(colors)@.to_multiset(),
{
    colors.shuffle(&mut rng.rng)
}

/// The components of the path of `filename` beside the program: below the
/// parent of the manifest directory where one is known, else below the
/// current directory.
pub fn local_path(manifest_dir: Option<String>, current_dir: String, filename: String) -> (r: Vec<
    String,
>)
    ensures
        manifest_dir matches Some(m) ==> r@.len() == 3 && r@[0] == m && r@[1]@ == ".."@ && r@[2]
            == filename,
        manifest_dir is None ==> r@.len() == 2 && r@[0] == current_dir && r@[1] == filename,
{
    let mut parts: Vec<String> = Vec::new();
    match manifest_dir {
        Some(m) => {
            parts.push(m);
            parts.push("..".to_owned());
            parts.push(filename);
        },
        None => {
            parts.push(current_dir);
            parts.push(filename);
        },
    }
    parts
}

} // verus!

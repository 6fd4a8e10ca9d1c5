//! Chance: the draws that seed a grid and steer a tick.
//!
//! The generator is that of the `rand` crate. Nothing is proved of its
//! draws but their range; what is made of a draw is verified for every
//! value that it can take.

use vstd::prelude::*;
use rand::rngs::ThreadRng;
use rand::seq::SliceRandom;
use rand::Rng;
use crate::color::ALPHA_FULL;
use crate::material::Material;
use crate::world::is_permutation;

verus! {

/// The thread-local generator of the `rand` crate, `rand::rngs::ThreadRng`.
#[verifier::external_type_specification]
#[verifier::external_body]
pub struct ExThreadRng(rand::rngs::ThreadRng);

/// Calls `rand::thread_rng`, which hands out the generator of this thread.
/// Nothing is claimed of it.
#[verifier::external_body]
pub(crate) fn thread_rng() -> (rng: ThreadRng) {
    rand::thread_rng()
}

/// Calls `rand::Rng::gen_range` on the half-open range from `low` to `high`.
/// The range must not be empty: `gen_range` panics on an empty one. The
/// draw lies in the range; which value it is, is left open.
#[verifier::external_body]
pub(crate) fn gen_range(rng: &mut ThreadRng, low: u32, high: u32) -> (draw: u32)
    requires
        low < high,
    ensures
        low <= draw < high,
{
    rng.gen_range(low..high)
}

/// Calls `rand::Rng::gen_ratio`, which is `true` with the probability of
/// `numerator` in `denominator`. It panics on a zero denominator and on a
/// numerator above the denominator. The outcome is certain only at the two
/// ends: always `true` when the two are equal, never when `numerator` is 0.
#[verifier::external_body]
pub(crate) fn gen_ratio(rng: &mut ThreadRng, numerator: u32, denominator: u32) -> (outcome: bool)
    requires
        denominator > 0,
        numerator <= denominator,
    ensures
        numerator == denominator ==> outcome,
        numerator == 0 ==> !outcome,
{
    rng.gen_ratio(numerator, denominator)
}

/// Calls `rand::seq::SliceRandom::shuffle`, which rearranges the slice in
/// place by exchanging pairs of its elements: the same values, each as
/// often as before, in an order that is left open.
#[verifier::external_body]
pub(crate) fn shuffle(values: &mut Vec<usize>, rng: &mut ThreadRng)
    ensures
        final(values)@.to_multiset() == old(values)@.to_multiset(),
{
    values.shuffle(rng)
}

/// The material that a draw below 6 stands for. `Fire` is not among them:
/// it only comes about when something is set alight.
pub open spec fn drawn_material(draw: u32) -> Material {
    if draw == 0 {
        Material::Gas
    } else if draw == 1 {
        Material::Air
    } else if draw == 2 {
        Material::Oil
    } else if draw == 3 {
        Material::Water
    } else if draw == 4 {
        Material::Sand
    } else {
        Material::Rock
    }
}

/// The material that `draw` stands for.
pub fn material_for_draw(draw: u32) -> (material: Material)
    ensures
        material == drawn_material(draw),
        material != Material::Fire,
{
    match draw {
        0 => Material::Gas,
        1 => Material::Air,
        2 => Material::Oil,
        3 => Material::Water,
        4 => Material::Sand,
        _ => Material::Rock,
    }
}

/// Draws one of the six materials that a grid is seeded with.
pub fn choose_random_material(rng: &mut ThreadRng) -> (material: Material)
    ensures
        material != Material::Fire,
        exists|draw: u32| draw < 6 && material == drawn_material(draw),
{
    let draw = gen_range(rng, 0, 6);
    material_for_draw(draw)
}

/// Draws the visual variation of a new particle, in percent.
pub fn choose_alpha(rng: &mut ThreadRng) -> (alpha: u8)
    ensures
        alpha <= ALPHA_FULL,
{
    let draw = gen_range(rng, 0, 101);
    alpha_for_draw(draw)
}

/// Flips a fair coin.
pub fn flip(rng: &mut ThreadRng) -> (toward_left: bool) {
    gen_ratio(rng, 1, 2)
}

/// Flips `count` fair coins.
pub fn flips(rng: &mut ThreadRng, count: usize) -> (choices: Vec<bool>)
    ensures
        choices@.len() == count,
{
    let mut choices: Vec<bool> = Vec::new();
    while choices.len() < count
        invariant
            choices@.len() <= count,
        decreases count - choices@.len(),
    {
        let choice = flip(rng);
        choices.push(choice);
    }
    choices
}

/// The variation that a draw stands for: so many percent.
pub fn alpha_for_draw(draw: u32) -> (alpha: u8)
    requires
        draw <= ALPHA_FULL,
    ensures
        alpha == draw,
{
    draw as u8
}

/// The indices below `count` in rising order.
pub open spec fn rising(count: nat) -> Seq<usize> {
    Seq::new(count, |i: int| i as usize)
}

/// A rearrangement of a permutation is a permutation.
pub proof fn lemma_rearranged(before: Seq<usize>, after: Seq<usize>, count: nat)
    requires
        is_permutation(before, count),
        after.to_multiset() == before.to_multiset(),
    ensures
        is_permutation(after, count),
{
    vstd::seq_lib::to_multiset_len(before);
    vstd::seq_lib::to_multiset_len(after);
    assert forall|i: int| 0 <= i < after.len() implies #[trigger] after[i] < count by {
        vstd::seq_lib::to_multiset_contains(after, after[i]);
        vstd::seq_lib::to_multiset_contains(before, after[i]);
        assert(after.contains(after[i]));
        assert(before.contains(after[i]));
    }
    before.lemma_multiset_has_no_duplicates();
    after.lemma_multiset_has_no_duplicates_conv();
}

/// A traversal order for a grid of `count` cells: its indices, shuffled.
pub fn shuffled_order(rng: &mut ThreadRng, count: usize) -> (order: Vec<usize>)
    ensures
        is_permutation(order@, count as nat),
{
    let mut order: Vec<usize> = Vec::new();
    let mut next: usize = 0;
    while next < count
        invariant
            next <= count,
            order@ == rising(next as nat),
        decreases count - next,
    {
        order.push(next);
        next = next + 1;
        assert(order@ =~= rising(next as nat));
    }
    let ghost before = order@;
    shuffle(&mut order, rng);
    proof {
        assert(is_permutation(before, count as nat));
        lemma_rearranged(before, order@, count as nat);
    }
    order
}

} // verus!

//! The integer lattice combine at the heart of the pseudo-noise generator.
//!
//! The noise generator truncates a sample position to an integer lattice
//! cell and folds the three cell coordinates into a single index, wrapping
//! on overflow so that cells of large magnitude wrap around instead of
//! trapping. That index then seeds the (floating-point) sine hash outside
//! this crate. The combine is a pure function of the cell coordinates alone,
//! which is what makes the noise deterministic.

use vstd::prelude::*;
use vstd::arithmetic::div_mod::lemma_add_mod_noop;
use vstd::arithmetic::div_mod::lemma_mod_add_multiples_vanish;
use vstd::arithmetic::div_mod::lemma_mod_sub_multiples_vanish;
use vstd::arithmetic::div_mod::lemma_mod_twice;
use vstd::arithmetic::div_mod::lemma_small_mod;
use vstd::wrapping::i32_specs;

verus! {

/// The number of distinct `i32` values; wrapping arithmetic is arithmetic
/// modulo this constant.
pub open spec fn i32_modulus() -> int {
    0x1_0000_0000
}

/// The exact combined lattice index, before wrapping: `x + 57·y + 113·z`.
pub open spec fn lattice_combined(x: int, y: int, z: int) -> int {
    x + 57 * y + 113 * z
}

/// Two integers that wrap to the same `i32`, i.e. are congruent modulo
/// 2^32.
pub open spec fn congruent_mod_i32(a: int, b: int) -> bool {
    a % i32_modulus() == b % i32_modulus()
}

/// Congruence modulo 2^32 is preserved by addition.
proof fn lemma_congruent_add(a1: int, a2: int, b1: int, b2: int)
    requires
        congruent_mod_i32(a1, a2),
        congruent_mod_i32(b1, b2),
    ensures
        congruent_mod_i32(a1 + b1, a2 + b2),
{
    let m = i32_modulus();
    lemma_add_mod_noop(a1, b1, m);
    lemma_add_mod_noop(a2, b2, m);
}

/// Cropping an integer into the `i32` range keeps its residue modulo 2^32.
proof fn lemma_signed_crop_congruent(v: int)
    ensures
        congruent_mod_i32(i32_specs::signed_crop(v) as int, v),
{
    let m = i32_modulus();
    lemma_mod_twice(v, m);
    if (v % m) > (i32::MAX as int) {
        lemma_mod_sub_multiples_vanish(v % m, m);
    }
}

/// Wrapping addition of two `i32` values keeps the residue of their exact
/// sum modulo 2^32.
proof fn lemma_wrapping_add_congruent(x: i32, y: i32)
    ensures
        congruent_mod_i32(i32_specs::wrapping_add(x, y) as int, x + y),
{
    let m = i32_modulus();
    if x + y > i32::MAX {
        lemma_mod_sub_multiples_vanish(x + y, m);
    } else if x + y < i32::MIN {
        lemma_mod_add_multiples_vanish(x + y, m);
    }
}

/// Two values already in the `i32` range that are congruent modulo 2^32
/// are equal outright, so a congruence together with the range is a full
/// functional specification.
proof fn lemma_congruence_pins_i32(a: i32, b: i32)
    requires
        congruent_mod_i32(a as int, b as int),
    ensures
        a == b,
{
    let m = i32_modulus();
    if a >= 0 {
        lemma_small_mod(a as nat, m as nat);
    } else {
        lemma_mod_add_multiples_vanish(a as int, m);
        lemma_small_mod((a + m) as nat, m as nat);
    }
    if b >= 0 {
        lemma_small_mod(b as nat, m as nat);
    } else {
        lemma_mod_add_multiples_vanish(b as int, m);
        lemma_small_mod((b + m) as nat, m as nat);
    }
}

/// Determinism of the lattice combine: the contract of [`lattice_index`]
/// admits exactly one result per cell, so repeated calls on identical
/// coordinates yield the identical index.
pub proof fn lemma_lattice_index_deterministic(x: i32, y: i32, z: i32, first: i32, second: i32)
    requires
        congruent_mod_i32(first as int, lattice_combined(x as int, y as int, z as int)),
        congruent_mod_i32(second as int, lattice_combined(x as int, y as int, z as int)),
    ensures
        first == second,
{
    lemma_congruence_pins_i32(first, second);
}

/// Folds a lattice cell into the scalar index `x + 57·y + 113·z`, wrapping
/// on overflow: the result is the unique `i32` congruent to that sum modulo
/// 2^32. The sine hash seeded from it therefore depends on the cell alone,
/// so the noise it produces is deterministic.
pub fn lattice_index(x: i32, y: i32, z: i32) -> (index: i32)
    ensures
        congruent_mod_i32(index as int, lattice_combined(x as int, y as int, z as int)),
{
    let y_term = y.wrapping_mul(57);
    let z_term = z.wrapping_mul(113);
    let partial = x.wrapping_add(y_term);
    let index = partial.wrapping_add(z_term);
    proof {
        lemma_signed_crop_congruent(y as int * 57);
        lemma_signed_crop_congruent(z as int * 113);
        lemma_wrapping_add_congruent(x, y_term);
        lemma_congruent_add(x as int, x as int, y_term as int, 57 * y as int);
        lemma_wrapping_add_congruent(partial, z_term);
        lemma_congruent_add(partial as int, x as int + 57 * y as int, z_term as int, 113 * z as int);
    }
    index
}

} // verus!

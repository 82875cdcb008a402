//! Cached powers for extended-precision floats: parallel mantissa/exponent
//! arrays, the per-radix bundle of small and large tables, and the dispatch
//! from a radix and mantissa width to its bundle.

use vstd::prelude::*;
use crate::float::ExtendedFloat;

verus! {

/// A radix is supported when it lies in `2..=36`.
pub open spec fn valid_radix(radix: u32) -> bool {
    2 <= radix <= 36
}

/// Precalculated powers held as two separate parallel arrays for memory
/// efficiency: `mant[i]` and `exp[i]` together form the i-th power.
pub struct ExtendedFloatArray<'a, M> {
    /// Pre-calculated mantissas of the powers.
    pub mant: &'a [M],
    /// Pre-calculated binary exponents of the powers.
    pub exp: &'a [i32],
}

impl<'a, M: Copy> ExtendedFloatArray<'a, M> {
    /// The arrays pair up index for index, and every tabulated exponent is
    /// moderate, so sums of a few of them stay far from the `i32` limits.
    pub open spec fn wf(&self) -> bool {
        &&& self.mant@.len() == self.exp@.len()
        &&& forall|i: int| 0 <= i < self.exp@.len() ==> -2100 <= #[trigger] self.exp@[i] <= 2100
    }

    /// Reads the extended float at `index`. The index must already be known
    /// to be in range: the table trusts its caller instead of branching, and
    /// here that obligation is discharged by proof rather than at run time.
    pub fn get_extended_float(&self, index: usize) -> (r: ExtendedFloat<M>)
        requires
            self.wf(),
            index < self.mant@.len(),
        ensures
            r.mant == self.mant@[index as int],
            r.exp == self.exp@[index as int],
            -2100 <= r.exp <= 2100,
    {
        let mant = self.mant[index];
        let exp = self.exp[index];
        ExtendedFloat { mant, exp }
    }

    /// Number of tabulated powers.
    pub fn len(&self) -> (r: usize)
        ensures
            r == self.mant@.len(),
    {
        self.mant.len()
    }
}

/// Precalculated powers of a radix for the moderate path: a dense small table,
/// a coarse large table, the exact integer values of the small powers, and the
/// `step`/`bias` parameters of the exponent decomposition.
pub struct ModeratePathPowers<'a, M> {
    /// Pre-calculated small powers, every power in `[0, step)`.
    pub small: ExtendedFloatArray<'a, M>,
    /// Pre-calculated large powers, every `step`-th power across the range.
    pub large: ExtendedFloatArray<'a, M>,
    /// Pre-calculated small powers as exact integers.
    pub small_int: &'a [M],
    /// Spacing, in powers of the radix, between consecutive large entries;
    /// also the number of small powers.
    pub step: i32,
    /// Additive offset mapping a desired exponent to a large-table index, so
    /// that negative exponents decompose onto non-negative indices.
    pub bias: i32,
}

impl<'a, M: Copy> ModeratePathPowers<'a, M> {
    /// The shape every bundle built by this crate has: well-formed tables,
    /// one small power and one integer power per residue of `step`, and
    /// `step`/`bias` small enough that index arithmetic stays inside `i32`.
    pub open spec fn wf(&self) -> bool {
        &&& self.small.wf()
        &&& self.large.wf()
        &&& self.small_int@.len() == self.small.mant@.len()
        &&& 1 <= self.step <= 128
        &&& 0 <= self.bias <= 2048
        &&& self.small.mant@.len() == self.step
        &&& 1 <= self.large.mant@.len() <= 64
    }

    /// Reads the small power at `index`; the caller proves the index in range.
    pub fn get_small(&self, index: usize) -> (r: ExtendedFloat<M>)
        requires
            self.wf(),
            index < self.small.mant@.len(),
        ensures
            r.mant == self.small.mant@[index as int],
            r.exp == self.small.exp@[index as int],
            -2100 <= r.exp <= 2100,
    {
        self.small.get_extended_float(index)
    }

    /// Reads the large power at `index`; the caller proves the index in range.
    pub fn get_large(&self, index: usize) -> (r: ExtendedFloat<M>)
        requires
            self.wf(),
            index < self.large.mant@.len(),
        ensures
            r.mant == self.large.mant@[index as int],
            r.exp == self.large.exp@[index as int],
            -2100 <= r.exp <= 2100,
    {
        self.large.get_extended_float(index)
    }

    /// Reads the exact integer small power at `index`; the caller proves the
    /// index in range.
    pub fn get_small_int(&self, index: usize) -> (r: M)
        requires
            self.wf(),
            index < self.small_int@.len(),
        ensures
            r == self.small_int@[index as int],
    {
        self.small_int[index]
    }
}

impl ExtendedFloat<u64> {
    /// Selects the power tables of `radix` for results that need up to 64
    /// significant mantissa bits.
    pub fn get_powers(radix: u32) -> (r: ModeratePathPowers<'static, u64>)
        requires
            valid_radix(radix),
        ensures
            r.wf(),
            r.small.mant@ == crate::cached_float80::small_mantissa_table(radix),
            r.small.exp@ == crate::cached_float80::small_exponent_table(radix),
            r.large.mant@ == crate::cached_float80::large_mantissa_table(radix),
            r.large.exp@ == crate::cached_float80::large_exponent_table(radix),
            r.small_int@ == crate::cached_float80::small_int_table(radix),
            r.step == crate::cached_float80::table_step(radix),
            r.bias == crate::cached_float80::table_bias(radix),
    {
        crate::cached_float80::get_powers(radix)
    }
}

impl ExtendedFloat<u128> {
    /// Selects the power tables of `radix` for results that need up to 128
    /// significant mantissa bits.
    pub fn get_powers(radix: u32) -> (r: ModeratePathPowers<'static, u128>)
        requires
            valid_radix(radix),
        ensures
            r.wf(),
            r.small.mant@ == crate::cached_float160::small_mantissa_table(radix),
            r.small.exp@ == crate::cached_float160::small_exponent_table(radix),
            r.large.mant@ == crate::cached_float160::large_mantissa_table(radix),
            r.large.exp@ == crate::cached_float160::large_exponent_table(radix),
            r.small_int@ == crate::cached_float160::small_int_table(radix),
            r.step == crate::cached_float160::table_step(radix),
            r.bias == crate::cached_float160::table_bias(radix),
    {
        crate::cached_float160::get_powers(radix)
    }
}

} // verus!

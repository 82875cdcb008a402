//! The moderate-path evaluator: combines a digit-derived integer mantissa
//! with a cached power of the radix through extended-precision multiplication
//! and reports a conservative error bound in eighths of a unit in the last
//! place.
//!
//! The evaluator never fails: it always returns a best-effort extended float
//! together with an honest error bound, and the caller decides from the bound
//! whether the result is trustworthy or the arbitrary-precision fallback is
//! needed.

use vstd::prelude::*;
use vstd::arithmetic::div_mod::lemma_fundamental_div_mod;
use vstd::arithmetic::div_mod::lemma_mod_bound;
use crate::float::ExtendedFloat;
use crate::float::normalize64_spec;
use crate::float::mul64_spec;
use crate::float::lemma_mul64_error;
use crate::cached::valid_radix;
use crate::cached_float80::table_step;
use crate::cached_float80::table_bias;
use crate::cached_float80::large_table_len;
use crate::cached_float80::min_exponent;
use crate::cached_float80::max_exponent;
use crate::cached_float80::small_mantissa_table;
use crate::cached_float80::small_exponent_table;
use crate::cached_float80::large_mantissa_table;
use crate::cached_float80::large_exponent_table;
use crate::cached_float80::small_int_table;

verus! {

/// Error units per unit in the last place: errors are counted in eighths of
/// an ulp.
pub const ERROR_SCALE: u32 = 8;

/// Half an ulp in error units; the cost charged for one rounding step.
pub const ERROR_HALFSCALE: u32 = 4;

/// The large-table index of exponent `e`: the bias-adjusted exponent divided
/// by the table spacing, with floor semantics so negative exponents decompose
/// correctly.
pub open spec fn decompose_large_index(e: int, radix: u32) -> int {
    (e + table_bias(radix)) / table_step(radix)
}

/// The small-table index of exponent `e`: the remainder of the bias-adjusted
/// exponent by the table spacing, always in `[0, step)`.
pub open spec fn decompose_small_index(e: int, radix: u32) -> int {
    (e + table_bias(radix)) % table_step(radix)
}

/// Floor division of a non-negative value by a positive step splits it into
/// a quotient below `n` and a remainder below the step, exactly.
proof fn lemma_euclid_decompose(x: int, s: int, n: int)
    requires
        1 <= s,
        0 <= x < s * n,
    ensures
        0 <= x % s < s,
        0 <= x / s < n,
        s * (x / s) + x % s == x,
{
    lemma_fundamental_div_mod(x, s);
    lemma_mod_bound(x, s);
    assert(0 <= x / s < n) by (nonlinear_arith)
        requires
            1 <= s,
            0 <= x < s * n,
            x == s * (x / s) + x % s,
            0 <= x % s < s,
    ;
}

/// Decomposition totality: every exponent in the supported range of a radix
/// decomposes into a small index inside the small table and a large index
/// inside the large table, and the decomposition reassembles the exponent.
pub proof fn lemma_decomposition_total(e: int, radix: u32)
    requires
        valid_radix(radix),
        min_exponent(radix) <= e <= max_exponent(radix),
    ensures
        0 <= decompose_small_index(e, radix) < table_step(radix),
        0 <= decompose_large_index(e, radix) < large_table_len(radix),
        table_step(radix) * decompose_large_index(e, radix) + decompose_small_index(e, radix)
            == e + table_bias(radix),
{
    assert(1 <= table_step(radix) <= 128);
    assert(1 <= large_table_len(radix));
    lemma_euclid_decompose(e + table_bias(radix), table_step(radix), large_table_len(radix));
}

/// How many lossy steps the moderate path performs for these inputs: one if
/// the incoming mantissa was truncated upstream, one if the small power needs
/// an extended (rounding) multiplication because the exact integer product
/// overflows, and two for the large power (its own tabulated rounding plus
/// the rounding multiplication). A zero mantissa takes no multiplication at
/// all.
pub open spec fn lossy_steps64(m: u64, e: int, radix: u32, truncated: bool) -> nat {
    (if truncated {
        1nat
    } else {
        0nat
    }) + (if m == 0 {
        0nat
    } else {
        let sint = small_int_table(radix)[decompose_small_index(e, radix)];
        (if m * sint > u64::MAX {
            1nat
        } else {
            0nat
        }) + 2nat
    })
}

/// The error bound reported after `lossy` lossy steps: half an ulp per step.
pub open spec fn accumulated_error(lossy: nat) -> nat {
    (ERROR_HALFSCALE * lossy) as nat
}

/// Monotonic error growth: performing more lossy steps never shrinks the
/// reported error bound.
pub proof fn lemma_error_monotone(lossy1: nat, lossy2: nat)
    requires
        lossy1 <= lossy2,
    ensures
        accumulated_error(lossy1) <= accumulated_error(lossy2),
{
}

/// The exact result the moderate path computes for these inputs, mirroring
/// the evaluator step for step: scale the mantissa by the small power (as an
/// exact integer product when it fits, through a rounding extended
/// multiplication when it does not), then multiply by the large power, with a
/// normalization before and after the large multiplication.
pub open spec fn moderate_path64_spec(m: u64, e: int, radix: u32, truncated: bool) -> (
    ExtendedFloat<u64>,
    u32,
) {
    let errors = accumulated_error(lossy_steps64(m, e, radix, truncated)) as u32;
    if m == 0 {
        (ExtendedFloat { mant: 0u64, exp: 0 }, errors)
    } else {
        let si = decompose_small_index(e, radix);
        let li = decompose_large_index(e, radix);
        let sint = small_int_table(radix)[si];
        let spow = ExtendedFloat {
            mant: small_mantissa_table(radix)[si],
            exp: small_exponent_table(radix)[si],
        };
        let lpow = ExtendedFloat {
            mant: large_mantissa_table(radix)[li],
            exp: large_exponent_table(radix)[li],
        };
        let scaled = if m * sint > u64::MAX {
            mul64_spec(normalize64_spec(ExtendedFloat { mant: m, exp: 0 }), spow)
        } else {
            ExtendedFloat { mant: (m * sint) as u64, exp: 0 }
        };
        let fp = normalize64_spec(mul64_spec(normalize64_spec(scaled), lpow));
        (fp, errors)
    }
}

/// Combines the mantissa `m` with the cached power `radix^e` for results that
/// need up to 64 significant mantissa bits.
///
/// `truncated` says whether `m` lost digits upstream; it only raises the
/// reported error bound. The result is pinned to a function of the inputs, so
/// repeated calls with identical inputs return bit-identical mantissa and
/// exponent and the same error bound.
pub fn moderate_path64(mantissa: u64, exponent: i32, radix: u32, truncated: bool) -> (r: (
    ExtendedFloat<u64>,
    u32,
))
    requires
        valid_radix(radix),
        min_exponent(radix) <= exponent <= max_exponent(radix),
    ensures
        r == moderate_path64_spec(mantissa, exponent as int, radix, truncated),
        r.1 == accumulated_error(lossy_steps64(mantissa, exponent as int, radix, truncated)),
{
    let mut errors: u32 = 0;
    if truncated {
        errors = errors + ERROR_HALFSCALE;
    }
    if mantissa == 0 {
        return (ExtendedFloat { mant: 0u64, exp: 0 }, errors);
    }
    let powers = ExtendedFloat::<u64>::get_powers(radix);
    proof {
        lemma_decomposition_total(exponent as int, radix);
    }
    let idx: usize = (exponent + powers.bias) as usize;
    let step: usize = powers.step as usize;
    let small_index: usize = idx % step;
    let large_index: usize = idx / step;
    let mut fp = ExtendedFloat { mant: mantissa, exp: 0i32 };
    let small_int = powers.get_small_int(small_index);
    match mantissa.checked_mul(small_int) {
        Some(scaled) => {
            fp.mant = scaled;
        },
        None => {
            fp.normalize();
            fp = fp.mul(&powers.get_small(small_index));
            errors = errors + ERROR_HALFSCALE;
        },
    }
    fp.normalize();
    fp = fp.mul(&powers.get_large(large_index));
    errors = errors + ERROR_SCALE;
    fp.normalize();
    (fp, errors)
}

/// Scaling a two-step chain of approximations: if `as_` is within `h` of
/// `r1 * t` and `r1 * l` is within `h` of `r2 * t`, then `as_ * l` is within
/// `h * l + h * t` of `r2 * t * t`.
proof fn lemma_scale_chain(as_: int, r1: int, l: int, r2: int, t: int, h: int)
    requires
        t > 0,
        h >= 0,
        l >= 0,
        r1 * t - h <= as_ <= r1 * t + h,
        r2 * t - h <= r1 * l <= r2 * t + h,
    ensures
        r2 * (t * t) - h * t - h * l <= as_ * l <= r2 * (t * t) + h * t + h * l,
{
    assert(r1 * t * l - h * l <= as_ * l <= r1 * t * l + h * l) by (nonlinear_arith)
        requires
            r1 * t - h <= as_ <= r1 * t + h,
            l >= 0,
    ;
    assert(r2 * t * t - h * t <= r1 * l * t <= r2 * t * t + h * t) by (nonlinear_arith)
        requires
            r2 * t - h <= r1 * l <= r2 * t + h,
            t > 0,
    ;
    assert(r1 * t * l == r1 * l * t) by (nonlinear_arith);
    assert(r2 * t * t == r2 * (t * t)) by (nonlinear_arith);
}

/// Composition correctness of the chained multiplications: the mantissa that
/// comes out of the moderate path's two rounding multiplications stays within
/// the reported `ERROR_SCALE` error units — eighths of a unit in the last
/// place, at the result's scale of `2^128` — of the exact triple product of
/// the input mantissa and the two tabulated mantissas. The normalization
/// steps around the multiplications only shift mantissa bits against the
/// exponent, exactly, so they add nothing to the bound.
pub proof fn lemma_chained_mul_error(
    a: ExtendedFloat<u64>,
    s: ExtendedFloat<u64>,
    l: ExtendedFloat<u64>,
)
    ensures
        ({
            let r2 = mul64_spec(mul64_spec(a, s), l);
            &&& a.mant * s.mant * l.mant - 0x80000000000000000000000000000000
                - l.mant * 0x8000000000000000 <= r2.mant * 0x100000000000000000000000000000000
            &&& r2.mant * 0x100000000000000000000000000000000 <= a.mant * s.mant * l.mant
                + 0x80000000000000000000000000000000 + l.mant * 0x8000000000000000
            &&& a.mant * s.mant * l.mant - (ERROR_SCALE as int)
                * 0x20000000000000000000000000000000 <= r2.mant
                * 0x100000000000000000000000000000000
            &&& r2.mant * 0x100000000000000000000000000000000 <= a.mant * s.mant * l.mant
                + (ERROR_SCALE as int) * 0x20000000000000000000000000000000
        }),
{
    let t = 0x10000000000000000int;
    let h = 0x8000000000000000int;
    let r1 = mul64_spec(a, s);
    let r2 = mul64_spec(r1, l);
    lemma_mul64_error(a, s);
    lemma_mul64_error(r1, l);
    lemma_scale_chain(
        a.mant * s.mant,
        r1.mant as int,
        l.mant as int,
        r2.mant as int,
        t,
        h,
    );
    assert(t * t == 0x100000000000000000000000000000000int);
    assert(h * t == 0x80000000000000000000000000000000int);
    assert((ERROR_SCALE as int) * 0x20000000000000000000000000000000int
        == 0x100000000000000000000000000000000int);
}

/// Smallest exponent the 64-bit tables of `radix` support; anything smaller
/// must be rejected upstream before the moderate path runs.
pub fn min_exp64(radix: u32) -> (r: i32)
    requires
        valid_radix(radix),
    ensures
        r == min_exponent(radix),
{
    let powers = ExtendedFloat::<u64>::get_powers(radix);
    0 - powers.bias
}

/// Largest exponent the 64-bit tables of `radix` support; anything larger
/// must be rejected upstream before the moderate path runs.
pub fn max_exp64(radix: u32) -> (r: i32)
    requires
        valid_radix(radix),
    ensures
        r == max_exponent(radix),
{
    let powers = ExtendedFloat::<u64>::get_powers(radix);
    let len: usize = powers.large.len();
    powers.step * (len as i32) - powers.bias - 1
}

} // verus!

//! Extended-precision float values: a wide unsigned mantissa paired with an
//! unbiased binary exponent.
//!
//! Native float mantissas are too narrow to hold the product of a digit-derived
//! integer and a cached power of the radix without losing the bits that decide
//! correct rounding, so the moderate path computes on this type instead.

use vstd::prelude::*;
use vstd::arithmetic::power2::pow2;
use vstd::arithmetic::power2::lemma_pow2_adds;
use vstd::arithmetic::power2::lemma_pow2_pos;
use vstd::arithmetic::div_mod::lemma_fundamental_div_mod;
use vstd::std_specs::bits::u64_leading_zeros;
use vstd::std_specs::bits::axiom_u64_leading_zeros;
use vstd::bits::lemma_u64_shl_is_mul;
use vstd::bits::lemma_u64_shr_is_div;

verus! {

/// Half of one unit in a 64-bit mantissa's last place, `2^63`; the rounding
/// term of the extended multiply.
pub const ROUNDING_HALF64: u64 = 0x8000000000000000;

/// A software floating-point value `mant * 2^exp`.
///
/// The type enforces no normalization of its own; callers normalize (set the
/// top mantissa bit) where the algorithm requires it.
#[derive(Clone, Copy, Debug)]
pub struct ExtendedFloat<M> {
    /// Wide unsigned mantissa.
    pub mant: M,
    /// Unbiased binary exponent.
    pub exp: i32,
}

/// The value of `a` after shifting its mantissa so the top bit is set, with
/// the exponent lowered to compensate; a zero mantissa stays as it is.
pub open spec fn normalize64_spec(a: ExtendedFloat<u64>) -> ExtendedFloat<u64> {
    if a.mant == 0 {
        a
    } else {
        let s = u64_leading_zeros(a.mant);
        ExtendedFloat { mant: (a.mant * pow2(s as nat)) as u64, exp: (a.exp - s) as i32 }
    }
}

/// The rounded product of `a` and `b`: the full mantissa product, rounded to
/// the nearest 64-bit mantissa, with the exponents summed and raised by 64 to
/// account for discarding the low half of the product.
pub open spec fn mul64_spec(a: ExtendedFloat<u64>, b: ExtendedFloat<u64>) -> ExtendedFloat<u64> {
    ExtendedFloat {
        mant: ((a.mant * b.mant + ROUNDING_HALF64) / 0x10000000000000000) as u64,
        exp: (a.exp + b.exp + 64) as i32,
    }
}

/// For a nonzero mantissa, shifting out the leading zeros keeps the product
/// inside 64 bits and lands it in the normalized range `[2^63, 2^64)`.
proof fn lemma_normalized_shift_bounds(x: u64)
    requires
        x != 0,
    ensures
        0 <= u64_leading_zeros(x) < 64,
        x * pow2(u64_leading_zeros(x) as nat) < 0x10000000000000000,
        x * pow2(u64_leading_zeros(x) as nat) >= 0x8000000000000000,
{
    axiom_u64_leading_zeros(x);
    let lz = u64_leading_zeros(x);
    let hi = (64 - lz) as u64;
    let lo = (63 - lz) as u64;
    // Above the leading bit everything is zero: x < 2^(64 - lz).
    assert(pow2(64) == 0x10000000000000000 && pow2(63) == 0x8000000000000000) by {
        vstd::arithmetic::power2::lemma2_to64();
        vstd::arithmetic::power2::lemma2_to64_rest();
    }
    assert(x < pow2(hi as nat)) by {
        if lz == 0 {
            assert(pow2(64) == 0x10000000000000000) by {
                vstd::arithmetic::power2::lemma2_to64_rest();
            }
        } else {
            assert(x >> hi == 0);
            lemma_u64_shr_is_div(x, hi);
            lemma_pow2_pos(hi as nat);
            assert(x as nat / pow2(hi as nat) == 0);
            if x >= pow2(hi as nat) {
                assert(x as nat / pow2(hi as nat) >= 1) by (nonlinear_arith)
                    requires
                        x >= pow2(hi as nat),
                        pow2(hi as nat) >= 1,
                ;
            }
        }
    }
    // The leading bit itself is set: x >= 2^(63 - lz).
    assert((x >> lo) & 1 != 0);
    assert(x >> lo >= 1) by {
        assert((x >> lo) & 1 != 0 ==> x >> lo >= 1) by (bit_vector);
    }
    lemma_u64_shr_is_div(x, lo);
    lemma_pow2_pos(lo as nat);
    assert(x as nat / pow2(lo as nat) >= 1);
    assert(x >= pow2(lo as nat)) by {
        if x < pow2(lo as nat) {
            assert(x as nat / pow2(lo as nat) == 0) by (nonlinear_arith)
                requires
                    x < pow2(lo as nat),
                    pow2(lo as nat) >= 1,
            ;
        }
    }
    lemma_pow2_adds(hi as nat, lz as nat);
    lemma_pow2_adds(lo as nat, lz as nat);
    assert(x * pow2(lz as nat) < pow2(hi as nat) * pow2(lz as nat)) by (nonlinear_arith)
        requires
            x < pow2(hi as nat),
            pow2(lz as nat) >= 1,
    ;
    assert(x * pow2(lz as nat) >= pow2(lo as nat) * pow2(lz as nat)) by (nonlinear_arith)
        requires
            x >= pow2(lo as nat),
            pow2(lz as nat) >= 1,
    ;
}

impl ExtendedFloat<u64> {
    /// Shifts the mantissa left until its top bit is set, lowering the
    /// exponent to keep the represented value unchanged. A zero mantissa is
    /// left alone: there is no bit to bring to the top.
    pub fn normalize(&mut self)
        requires
            old(self).exp >= i32::MIN + 64,
        ensures
            *final(self) == normalize64_spec(*old(self)),
            old(self).mant != 0 ==> final(self).mant >= ROUNDING_HALF64,
            old(self).mant != 0 ==> final(self).mant == old(self).mant * pow2(
                u64_leading_zeros(old(self).mant) as nat,
            ),
    {
        if self.mant != 0 {
            let shift = self.mant.leading_zeros();
            proof {
                lemma_normalized_shift_bounds(self.mant);
                lemma_u64_shl_is_mul(self.mant, shift as u64);
            }
            self.mant = self.mant << (shift as u64);
            self.exp = self.exp - (shift as i32);
        }
    }

    /// Multiplies two extended floats: full 128-bit mantissa product, rounded
    /// to the nearest 64-bit mantissa, exponents summed plus 64 for the
    /// discarded low half. The rounding is off by at most half a unit in the
    /// result's last place.
    pub fn mul(&self, b: &Self) -> (r: Self)
        requires
            i32::MIN <= self.exp + b.exp,
            self.exp + b.exp + 64 <= i32::MAX,
        ensures
            r == mul64_spec(*self, *b),
            self.mant >= ROUNDING_HALF64 && b.mant >= ROUNDING_HALF64 ==> r.mant
                >= 0x4000000000000000,
    {
        proof {
            assert((self.mant as u128) * (b.mant as u128) <= 0xfffffffffffffffe0000000000000001u128)
                by (nonlinear_arith)
                requires
                    self.mant <= 0xffffffffffffffffu64,
                    b.mant <= 0xffffffffffffffffu64,
            ;
        }
        let p: u128 = (self.mant as u128) * (b.mant as u128);
        let q: u128 = p + (ROUNDING_HALF64 as u128);
        proof {
            assert(q >> 64 == q / 0x10000000000000000) by (bit_vector);
            assert(q / 0x10000000000000000 < 0x10000000000000000) by (nonlinear_arith)
                requires
                    q <= 0xfffffffffffffffe8000000000000001u128,
            ;
            if self.mant >= ROUNDING_HALF64 && b.mant >= ROUNDING_HALF64 {
                assert(p >= 0x40000000000000000000000000000000u128) by (nonlinear_arith)
                    requires
                        self.mant >= 0x8000000000000000u64,
                        b.mant >= 0x8000000000000000u64,
                        p == (self.mant as u128) * (b.mant as u128),
                ;
                assert(q / 0x10000000000000000 >= 0x4000000000000000) by (nonlinear_arith)
                    requires
                        q >= 0x40000000000000000000000000000000u128,
                ;
            }
        }
        ExtendedFloat { mant: (q >> 64) as u64, exp: self.exp + b.exp + 64 }
    }
}

/// The rounded mantissa of a product stays within half a unit in the last
/// place of the exact product: scaled to integers, `r * 2^64` differs from
/// `a.mant * b.mant` by at most `2^63`.
pub proof fn lemma_mul64_error(a: ExtendedFloat<u64>, b: ExtendedFloat<u64>)
    ensures
        mul64_spec(a, b).mant * 0x10000000000000000 - ROUNDING_HALF64 <= a.mant * b.mant,
        a.mant * b.mant <= mul64_spec(a, b).mant * 0x10000000000000000 + ROUNDING_HALF64,
{
    let p = a.mant * b.mant;
    assert(0 <= p <= 0xfffffffffffffffe0000000000000001int) by (nonlinear_arith)
        requires
            p == a.mant * b.mant,
            a.mant <= 0xffffffffffffffffu64,
            b.mant <= 0xffffffffffffffffu64,
    ;
    let t = 0x10000000000000000int;
    let h = ROUNDING_HALF64 as int;
    lemma_fundamental_div_mod(p + h, t);
    let q = (p + h) / t;
    assert(0 <= (p + h) % t < t) by {
        vstd::arithmetic::div_mod::lemma_mod_bound(p + h, t);
    }
    assert(q * t <= p + h);
    assert(p + h < q * t + t);
    assert(0 <= q < t) by (nonlinear_arith)
        requires
            q == (p + h) / t,
            0 <= p <= 0xfffffffffffffffe0000000000000001int,
            h == 0x8000000000000000int,
            t == 0x10000000000000000int,
    ;
    assert(mul64_spec(a, b).mant == q);
}

} // verus!

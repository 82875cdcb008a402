//! Cached-power infrastructure for correctly rounded radix-to-float
//! conversion: an extended-precision float type, precomputed power tables for
//! every radix in `2..=36` at two mantissa widths, and the moderate-path
//! evaluator that combines a digit-derived mantissa with a cached power and
//! reports a conservative error bound.

pub mod cached;
pub mod cached_float80;
pub mod cached_float160;
pub mod float;
pub mod moderate;

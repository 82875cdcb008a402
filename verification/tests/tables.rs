//! Holds every tabulated power against exact arbitrary-precision arithmetic:
//! each extended-precision entry must be the true power rounded to within
//! half a unit in the last place, and each integer entry must be exact.

use lexical_cache::float::ExtendedFloat;

// Little-endian base-2^64 big integers, enough to evaluate radix^k exactly.

fn bn_norm(mut v: Vec<u64>) -> Vec<u64> {
    while v.len() > 1 && *v.last().unwrap() == 0 {
        v.pop();
    }
    v
}

fn bn_from_u128(x: u128) -> Vec<u64> {
    bn_norm(vec![x as u64, (x >> 64) as u64])
}

fn bn_mul_u64(a: &[u64], m: u64) -> Vec<u64> {
    let mut out: Vec<u64> = Vec::with_capacity(a.len() + 1);
    let mut carry: u128 = 0;
    for &limb in a {
        let p: u128 = (limb as u128) * (m as u128) + carry;
        out.push(p as u64);
        carry = p >> 64;
    }
    if carry > 0 {
        out.push(carry as u64);
    }
    bn_norm(out)
}

fn bn_pow(base: u64, k: u32) -> Vec<u64> {
    let mut v: Vec<u64> = vec![1u64];
    for _ in 0..k {
        v = bn_mul_u64(&v, base);
    }
    v
}

fn bn_shl(a: &[u64], bits: u32) -> Vec<u64> {
    let words = (bits / 64) as usize;
    let rem = bits % 64;
    let mut out: Vec<u64> = vec![0u64; words];
    if rem == 0 {
        out.extend_from_slice(a);
    } else {
        let mut carry: u64 = 0;
        for &limb in a {
            out.push((limb << rem) | carry);
            carry = limb >> (64 - rem);
        }
        if carry != 0 {
            out.push(carry);
        }
    }
    bn_norm(out)
}

fn bn_add(a: &[u64], b: &[u64]) -> Vec<u64> {
    let n = a.len().max(b.len());
    let mut out: Vec<u64> = Vec::with_capacity(n + 1);
    let mut carry: u128 = 0;
    for i in 0..n {
        let x = *a.get(i).unwrap_or(&0) as u128;
        let y = *b.get(i).unwrap_or(&0) as u128;
        let s = x + y + carry;
        out.push(s as u64);
        carry = s >> 64;
    }
    if carry > 0 {
        out.push(carry as u64);
    }
    bn_norm(out)
}

fn bn_cmp(a: &[u64], b: &[u64]) -> std::cmp::Ordering {
    let a = bn_norm(a.to_vec());
    let b = bn_norm(b.to_vec());
    if a.len() != b.len() {
        return a.len().cmp(&b.len());
    }
    for i in (0..a.len()).rev() {
        if a[i] != b[i] {
            return a[i].cmp(&b[i]);
        }
    }
    std::cmp::Ordering::Equal
}

fn bn_absdiff(a: &[u64], b: &[u64]) -> Vec<u64> {
    let (hi, lo) = if bn_cmp(a, b) == std::cmp::Ordering::Less { (b, a) } else { (a, b) };
    let mut out: Vec<u64> = Vec::with_capacity(hi.len());
    let mut borrow: i128 = 0;
    for i in 0..hi.len() {
        let x = hi[i] as i128;
        let y = *lo.get(i).unwrap_or(&0) as i128;
        let mut d = x - y - borrow;
        if d < 0 {
            d += 1i128 << 64;
            borrow = 1;
        } else {
            borrow = 0;
        }
        out.push(d as u64);
    }
    assert_eq!(borrow, 0);
    bn_norm(out)
}

fn bn_le(a: &[u64], b: &[u64]) -> bool {
    bn_cmp(a, b) != std::cmp::Ordering::Greater
}

fn bn_mul_u128(p: &[u64], m: u128) -> Vec<u64> {
    let lo = bn_mul_u64(p, m as u64);
    let hi = bn_shl(&bn_mul_u64(p, (m >> 64) as u64), 64);
    bn_add(&lo, &hi)
}

/// Whether `mant * 2^exp` lies within half a unit of the mantissa's last
/// place of the exact value `radix^k`.
fn entry_within_half_ulp(radix: u64, k: i64, mant: u128, exp: i64) -> bool {
    let one: Vec<u64> = vec![1u64];
    if k >= 0 {
        // |mant * 2^exp - radix^k| <= 2^(exp-1), scaled to integers.
        let v = bn_pow(radix, k as u32);
        if exp >= 1 {
            let a = bn_shl(&bn_from_u128(mant), (exp + 1) as u32);
            let b = bn_shl(&v, 1);
            let c = bn_shl(&one, exp as u32);
            bn_le(&bn_absdiff(&a, &b), &c)
        } else {
            let a = bn_shl(&bn_from_u128(mant), 1);
            let b = bn_shl(&v, (1 - exp) as u32);
            bn_le(&bn_absdiff(&a, &b), &one)
        }
    } else {
        // |2 * mant * radix^-k - 2^(1-exp)| <= radix^-k, all integers.
        assert!(exp < 0);
        let p = bn_pow(radix, (-k) as u32);
        let a = bn_shl(&bn_mul_u128(&p, mant), 1);
        let b = bn_shl(&one, (1 - exp) as u32);
        bn_le(&bn_absdiff(&a, &b), &p)
    }
}

#[test]
fn narrow_tables_hold_correctly_rounded_powers() {
    for radix in 2u32..=36 {
        let p = ExtendedFloat::<u64>::get_powers(radix);
        assert_eq!(p.small.mant.len(), p.small.exp.len());
        assert_eq!(p.large.mant.len(), p.large.exp.len());
        assert_eq!(p.small_int.len(), p.small.mant.len());
        assert_eq!(p.small.mant.len(), p.step as usize);
        for r in 0..p.small.mant.len() {
            assert!(
                entry_within_half_ulp(
                    radix as u64,
                    r as i64,
                    p.small.mant[r] as u128,
                    p.small.exp[r] as i64
                ),
                "small radix {} power {}",
                radix,
                r
            );
        }
        for j in 0..p.large.mant.len() {
            let k: i64 = (p.step as i64) * (j as i64) - (p.bias as i64);
            assert!(
                entry_within_half_ulp(radix as u64, k, p.large.mant[j] as u128, p.large.exp[j]
                    as i64),
                "large radix {} power {}",
                radix,
                k
            );
        }
    }
}

#[test]
fn narrow_integer_powers_are_exact() {
    for radix in 2u32..=36 {
        let p = ExtendedFloat::<u64>::get_powers(radix);
        let mut expect: u128 = 1;
        for r in 0..p.small_int.len() {
            assert_eq!(p.small_int[r] as u128, expect, "radix {} power {}", radix, r);
            if r + 1 < p.small_int.len() {
                expect *= radix as u128;
            }
        }
    }
}

#[test]
fn wide_tables_hold_correctly_rounded_powers() {
    for radix in 2u32..=36 {
        let p = ExtendedFloat::<u128>::get_powers(radix);
        assert_eq!(p.small.mant.len(), p.small.exp.len());
        assert_eq!(p.large.mant.len(), p.large.exp.len());
        assert_eq!(p.small_int.len(), p.small.mant.len());
        assert_eq!(p.small.mant.len(), p.step as usize);
        for r in 0..p.small.mant.len() {
            assert!(
                entry_within_half_ulp(radix as u64, r as i64, p.small.mant[r], p.small.exp[r]
                    as i64),
                "small radix {} power {}",
                radix,
                r
            );
        }
        for j in 0..p.large.mant.len() {
            let k: i64 = (p.step as i64) * (j as i64) - (p.bias as i64);
            assert!(
                entry_within_half_ulp(radix as u64, k, p.large.mant[j], p.large.exp[j] as i64),
                "large radix {} power {}",
                radix,
                k
            );
        }
    }
}

#[test]
fn wide_integer_powers_are_exact() {
    for radix in 2u32..=36 {
        let p = ExtendedFloat::<u128>::get_powers(radix);
        let mut expect: Vec<u64> = vec![1u64];
        for r in 0..p.small_int.len() {
            assert_eq!(
                bn_cmp(&bn_from_u128(p.small_int[r]), &expect),
                std::cmp::Ordering::Equal,
                "radix {} power {}",
                radix,
                r
            );
            expect = bn_mul_u64(&expect, radix as u64);
        }
    }
}

#[test]
fn table_accessors_read_the_tabulated_entries() {
    let p = ExtendedFloat::<u64>::get_powers(10);
    assert_eq!(p.get_small_int(3), 1000);
    let s = p.get_small(0);
    assert_eq!(s.mant, 1u64 << 63);
    assert_eq!(s.exp, -63);
    let l = p.get_large((p.bias / p.step) as usize);
    // The middle large entry is radix^0 = 1.
    assert_eq!(l.mant, 1u64 << 63);
    assert_eq!(l.exp, -63);
    assert_eq!(p.small.len(), p.step as usize);
    assert_eq!(p.small.get_extended_float(1).mant, p.small.mant[1]);
}

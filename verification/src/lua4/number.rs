use vstd::arithmetic::div_mod::lemma_fundamental_div_mod_converse;
use vstd::arithmetic::power2::{
    lemma2_to64, lemma2_to64_rest, lemma_pow2_adds, lemma_pow2_pos, lemma_pow2_strictly_increases,
    pow2,
};
use vstd::prelude::*;

verus! {

/// `2^63`: the sign bit of a binary64 bit pattern.
pub const NUMBER_SIGN_BIT: u64 = 0x8000_0000_0000_0000;

/// `2^52`: the weight of the lowest exponent bit; the fraction field lies below it.
pub const NUMBER_FRACTION_SPAN: u64 = 0x10_0000_0000_0000;

/// Whether the sign bit of a binary64 bit pattern is set.
pub open spec fn spec_sign_set(bits: u64) -> bool {
    bits >= NUMBER_SIGN_BIT
}

/// The bit pattern without its sign bit.
pub open spec fn spec_magnitude_bits(bits: u64) -> int {
    (bits as int) % (NUMBER_SIGN_BIT as int)
}

/// The 11-bit biased exponent field.
pub open spec fn spec_exponent(bits: u64) -> int {
    ((bits as int) / (NUMBER_FRACTION_SPAN as int)) % 2048
}

/// The 52-bit fraction field.
pub open spec fn spec_fraction(bits: u64) -> int {
    (bits as int) % (NUMBER_FRACTION_SPAN as int)
}

/// Whether a bit pattern is a NaN: all exponent bits set and a non-zero fraction.
pub open spec fn spec_is_nan(bits: u64) -> bool {
    spec_exponent(bits) == 2047 && spec_fraction(bits) != 0
}

/// An integer that orders the non-NaN binary64 values as IEEE 754 compares them.
///
/// The magnitude of a non-NaN value grows with the 63 bits below the sign bit, so the
/// value is ordered as that magnitude with the sign applied; both zeros map to 0 and are
/// therefore equal.
pub open spec fn spec_order_key(bits: u64) -> int {
    if spec_sign_set(bits) {
        -spec_magnitude_bits(bits)
    } else {
        spec_magnitude_bits(bits)
    }
}

/// IEEE 754 equality: no NaN is equal to anything, and `-0 == +0`.
pub open spec fn spec_number_eq(a: u64, b: u64) -> bool {
    !spec_is_nan(a) && !spec_is_nan(b) && spec_order_key(a) == spec_order_key(b)
}

/// IEEE 754 `<`: false whenever a NaN takes part.
pub open spec fn spec_number_lt(a: u64, b: u64) -> bool {
    !spec_is_nan(a) && !spec_is_nan(b) && spec_order_key(a) < spec_order_key(b)
}

/// IEEE 754 `<=`: false whenever a NaN takes part.
pub open spec fn spec_number_le(a: u64, b: u64) -> bool {
    !spec_is_nan(a) && !spec_is_nan(b) && spec_order_key(a) <= spec_order_key(b)
}

/// Whether a bit pattern is the binary64 value of the integer `v`, as a conversion from
/// a 32-bit integer produces it: `+0` for zero; otherwise a normal number whose
/// significand `2^52 + fraction` times `2^(exponent - 1075)` is `v`.
pub open spec fn spec_denotes_integer(bits: u64, v: int) -> bool {
    if v == 0 {
        bits == 0
    } else {
        let e = spec_exponent(bits);
        &&& spec_sign_set(bits) == (v < 0)
        &&& 1 <= e <= 1075
        &&& pow2(52) + spec_fraction(bits) == (if v < 0 { -v } else { v }) * pow2(
            (1075 - e) as nat,
        )
    }
}

/// The magnitude of a finite binary64 value truncated toward zero.
pub open spec fn spec_trunc_magnitude(bits: u64) -> int {
    let e = spec_exponent(bits);
    let significand: int = pow2(52) + spec_fraction(bits);
    if e == 0 {
        // zero or subnormal: below 1 in magnitude
        0
    } else if e >= 1075 {
        significand * pow2((e - 1075) as nat)
    } else {
        significand / (pow2((1075 - e) as nat) as int)
    }
}

/// A finite binary64 value truncated toward zero.
pub open spec fn spec_trunc(bits: u64) -> int {
    if spec_sign_set(bits) {
        -spec_trunc_magnitude(bits)
    } else {
        spec_trunc_magnitude(bits)
    }
}

/// Whether a bit pattern is finite (neither infinite nor NaN).
pub open spec fn spec_is_finite(bits: u64) -> bool {
    spec_exponent(bits) != 2047
}

/// The checked conversion to an integer range `[lo, hi]`: the value truncated toward
/// zero when it is finite and the truncation lies in the range, else nothing.
pub open spec fn spec_checked_int(bits: u64, lo: int, hi: int) -> Option<int> {
    if spec_is_finite(bits) && lo <= spec_trunc(bits) <= hi {
        Some(spec_trunc(bits))
    } else {
        None
    }
}

/// The saturating conversion to an integer range `[lo, hi]`, as Rust's `as` converts
/// a float: NaN gives 0; otherwise the value truncated toward zero, clamped to the range
/// (infinities give its ends).
pub open spec fn spec_saturating_int(bits: u64, lo: int, hi: int) -> int {
    if spec_is_nan(bits) {
        0
    } else if !spec_is_finite(bits) {
        if spec_sign_set(bits) {
            lo
        } else {
            hi
        }
    } else if spec_trunc(bits) < lo {
        lo
    } else if spec_trunc(bits) > hi {
        hi
    } else {
        spec_trunc(bits)
    }
}

/// A Lua number: an IEEE 754 binary64 value, held as its bit pattern.
#[derive(Copy, Clone, Debug)]
pub struct Lua4Number {
    pub bits: u64,
}

proof fn lemma_bits_fields(bits: u64)
    ensures
        bits == (if spec_sign_set(bits) { NUMBER_SIGN_BIT as int } else { 0 }) + spec_exponent(
            bits,
        ) * NUMBER_FRACTION_SPAN + spec_fraction(bits),
        spec_magnitude_bits(bits) == spec_exponent(bits) * NUMBER_FRACTION_SPAN + spec_fraction(
            bits,
        ),
        0 <= spec_exponent(bits) < 2048,
        0 <= spec_fraction(bits) < NUMBER_FRACTION_SPAN,
{
}

impl Lua4Number {
    /// The number with the given bit pattern.
    pub fn from_bits(bits: u64) -> (n: Self)
        ensures
            n.bits == bits,
    {
        Lua4Number { bits }
    }

    /// Whether the number is a NaN.
    pub fn is_nan(&self) -> (r: bool)
        ensures
            r == spec_is_nan(self.bits),
    {
        let bits = self.bits;
        assert((bits >> 52u64) & 0x7ffu64 == (bits / 0x10_0000_0000_0000u64) % 2048) by (bit_vector);
        assert(bits & 0xf_ffff_ffff_ffffu64 == bits % 0x10_0000_0000_0000u64) by (bit_vector);
        ((bits >> 52) & 0x7ff) == 0x7ff && (bits & 0xf_ffff_ffff_ffff) != 0
    }

    fn order_key(&self) -> (k: i64)
        ensures
            k == spec_order_key(self.bits),
    {
        let bits = self.bits;
        assert(bits & 0x7fff_ffff_ffff_ffffu64 == bits % 0x8000_0000_0000_0000u64) by (bit_vector);
        let magnitude = (bits & 0x7fff_ffff_ffff_ffff) as i64;
        if bits >= NUMBER_SIGN_BIT {
            -magnitude
        } else {
            magnitude
        }
    }

    /// IEEE 754 equality of two numbers.
    pub fn num_eq(&self, other: &Self) -> (r: bool)
        ensures
            r == spec_number_eq(self.bits, other.bits),
    {
        !self.is_nan() && !other.is_nan() && self.order_key() == other.order_key()
    }

    /// IEEE 754 `<` of two numbers.
    pub fn num_lt(&self, other: &Self) -> (r: bool)
        ensures
            r == spec_number_lt(self.bits, other.bits),
    {
        !self.is_nan() && !other.is_nan() && self.order_key() < other.order_key()
    }

    /// IEEE 754 `<=` of two numbers.
    pub fn num_le(&self, other: &Self) -> (r: bool)
        ensures
            r == spec_number_le(self.bits, other.bits),
    {
        !self.is_nan() && !other.is_nan() && self.order_key() <= other.order_key()
    }

    /// IEEE 754 negation: the same bit pattern with the sign bit flipped.
    pub fn neg(&self) -> (r: Self)
        ensures
            r.bits == (if spec_sign_set(self.bits) {
                self.bits - NUMBER_SIGN_BIT
            } else {
                self.bits + NUMBER_SIGN_BIT
            }),
    {
        if self.bits >= NUMBER_SIGN_BIT {
            Lua4Number { bits: self.bits - NUMBER_SIGN_BIT }
        } else {
            Lua4Number { bits: self.bits + NUMBER_SIGN_BIT }
        }
    }

    /// The exact binary64 value of a 32-bit integer.
    pub fn from_i32(v: i32) -> (r: Self)
        ensures
            spec_denotes_integer(r.bits, v as int),
    {
        if v == 0 {
            return Lua4Number { bits: 0 };
        }
        let negative = v < 0;
        let m: u64 = if negative {
            (-(v as i64)) as u64
        } else {
            v as u64
        };
        proof {
            lemma2_to64();
            lemma2_to64_rest();
        }
        // p = 2^e is the highest power of two not above m
        let mut p: u64 = 1;
        let mut e: u64 = 0;
        while p <= m / 2
            invariant
                1 <= m <= 0x8000_0000,
                p == pow2(e as nat),
                p <= m,
                e <= 31,
            decreases m - p,
        {
            proof {
                lemma2_to64();
                lemma_pow2_adds(e as nat, 1);
                if e == 31 {
                    assert(pow2(31) == 0x8000_0000);
                }
            }
            p = p * 2;
            e = e + 1;
        }
        assert(m < 2 * p);
        assert(m * pow2(0) == m) by {
            lemma2_to64();
        }
        // x = m * 2^(52 - e), in [2^52, 2^53)
        let mut x: u64 = m;
        let mut j: u64 = e;
        while j < 52
            invariant
                e <= j <= 52,
                e <= 31,
                p == pow2(e as nat),
                p <= m < 2 * p,
                x == m * pow2((j - e) as nat),
                pow2(j as nat) <= x < 2 * pow2(j as nat),
            decreases 52 - j,
        {
            proof {
                lemma2_to64();
                lemma2_to64_rest();
                lemma_pow2_adds((j - e) as nat, 1);
                lemma_pow2_adds(j as nat, 1);
                assert(pow2(1) == 2);
                assert(((j + 1 - e) as nat) == (j - e) as nat + 1);
                assert(m * pow2(((j + 1) - e) as nat) == (m * pow2((j - e) as nat)) * 2)
                    by (nonlinear_arith)
                    requires
                        pow2(((j + 1) - e) as nat) == pow2((j - e) as nat) * 2,
                ;
                lemma_pow2_strictly_increases(j as nat, 53);
                assert(pow2(53) == 0x20_0000_0000_0000);
            }
            x = x * 2;
            j = j + 1;
        }
        assert(pow2(52) == 0x10_0000_0000_0000);
        let fraction = x - NUMBER_FRACTION_SPAN;
        let exponent = 1023 + e;
        let sign: u64 = if negative {
            NUMBER_SIGN_BIT
        } else {
            0
        };
        let bits = sign + exponent * NUMBER_FRACTION_SPAN + fraction;
        proof {
            let rest = exponent * NUMBER_FRACTION_SPAN + fraction;
            lemma_fundamental_div_mod_converse(
                bits as int,
                NUMBER_FRACTION_SPAN as int,
                (sign / NUMBER_FRACTION_SPAN + exponent) as int,
                fraction as int,
            );
            lemma_fundamental_div_mod_converse(
                (sign / NUMBER_FRACTION_SPAN + exponent) as int,
                2048,
                (sign / NUMBER_SIGN_BIT) as int,
                exponent as int,
            );
            assert(spec_exponent(bits) == exponent);
            assert(spec_fraction(bits) == fraction);
            assert(((1075 - exponent) as nat) == (52 - e) as nat);
        }
        Lua4Number { bits }
    }

    /// The magnitude truncated toward zero, when the number is finite and that
    /// magnitude is below `2^64`.
    fn trunc_magnitude(&self) -> (r: Option<u128>)
        requires
            spec_is_finite(self.bits),
        ensures
            r matches Some(m) ==> m == spec_trunc_magnitude(self.bits),
            r is None ==> spec_trunc_magnitude(self.bits) >= 0x1_0000_0000_0000_0000,
    {
        let bits = self.bits;
        proof {
            lemma_bits_fields(bits);
            lemma2_to64();
            lemma2_to64_rest();
        }
        assert((bits >> 52u64) & 0x7ffu64 == (bits / 0x10_0000_0000_0000u64) % 2048) by (bit_vector);
        assert(bits & 0xf_ffff_ffff_ffffu64 == bits % 0x10_0000_0000_0000u64) by (bit_vector);
        let exponent = (bits >> 52) & 0x7ff;
        let significand = (bits & 0xf_ffff_ffff_ffff) + NUMBER_FRACTION_SPAN;
        assert(significand == pow2(52) + spec_fraction(bits));
        if exponent == 0 {
            return Some(0);
        }
        if exponent >= 1075 {
            let k = exponent - 1075;
            if k >= 12 {
                proof {
                    lemma_pow2_adds(12, (k - 12) as nat);
                    lemma_pow2_pos((k - 12) as nat);
                    assert(pow2(12) == 4096);
                    assert(significand * pow2(k as nat) >= significand * 4096) by (nonlinear_arith)
                        requires
                            pow2(k as nat) == 4096 * pow2((k - 12) as nat),
                            pow2((k - 12) as nat) >= 1,
                            significand >= 0,
                    ;
                }
                return None;
            }
            let mut m: u128 = significand as u128;
            let mut i: u64 = 0;
            while i < k
                invariant
                    i <= k < 12,
                    significand < 0x20_0000_0000_0000,
                    m == significand * pow2(i as nat),
                    m < 0x20_0000_0000_0000 * pow2(i as nat),
                    pow2(i as nat) <= 2048,
                decreases k - i,
            {
                proof {
                    lemma2_to64();
                    lemma_pow2_adds(i as nat, 1);
                    assert(pow2(1) == 2);
                    lemma_pow2_strictly_increases((i + 1) as nat, 12);
                    assert(pow2(12) == 4096);
                    assert(significand * pow2((i + 1) as nat) == (significand * pow2(i as nat)) * 2)
                        by (nonlinear_arith)
                        requires
                            pow2((i + 1) as nat) == pow2(i as nat) * 2,
                    ;
                }
                m = m * 2;
                i = i + 1;
            }
            Some(m)
        } else {
            let k = 1075 - exponent;
            if k >= 54 {
                proof {
                    lemma_pow2_strictly_increases(53, k as nat);
                    assert(pow2(53) == 0x20_0000_0000_0000);
                    vstd::arithmetic::div_mod::lemma_basic_div(
                        significand as int,
                        pow2(k as nat) as int,
                    );
                }
                return Some(0);
            }
            let mut d: u64 = 1;
            let mut i: u64 = 0;
            while i < k
                invariant
                    i <= k < 54,
                    d == pow2(i as nat),
                decreases k - i,
            {
                proof {
                    lemma2_to64();
                    lemma2_to64_rest();
                    lemma_pow2_adds(i as nat, 1);
                    assert(pow2(1) == 2);
                    lemma_pow2_strictly_increases((i + 1) as nat, 64);
                }
                d = d * 2;
                i = i + 1;
            }
            Some((significand / d) as u128)
        }
    }

    /// The number truncated toward zero as a 32-bit integer; nothing when it is NaN,
    /// infinite, or its truncation lies outside the `i32` range.
    pub fn to_i32(&self) -> (r: Option<i32>)
        ensures
            r matches Some(v) ==> spec_checked_int(self.bits, i32::MIN as int, i32::MAX as int)
                == Some(v as int),
            r is None ==> spec_checked_int(self.bits, i32::MIN as int, i32::MAX as int) is None,
    {
        match self.to_i64() {
            Some(v) => if i32::MIN as i64 <= v && v <= i32::MAX as i64 {
                Some(v as i32)
            } else {
                None
            },
            None => {
                proof {
                    if spec_is_finite(self.bits) {
                        assert(!(i64::MIN <= spec_trunc(self.bits) <= i64::MAX));
                    }
                }
                None
            },
        }
    }

    /// The number truncated toward zero as a 64-bit integer; nothing when it is NaN,
    /// infinite, or its truncation lies outside the `i64` range.
    pub fn to_i64(&self) -> (r: Option<i64>)
        ensures
            r matches Some(v) ==> spec_checked_int(self.bits, i64::MIN as int, i64::MAX as int)
                == Some(v as int),
            r is None ==> spec_checked_int(self.bits, i64::MIN as int, i64::MAX as int) is None,
    {
        let bits = self.bits;
        assert((bits >> 52u64) & 0x7ffu64 == (bits / 0x10_0000_0000_0000u64) % 2048) by (bit_vector);
        if (bits >> 52) & 0x7ff == 0x7ff {
            return None;
        }
        match self.trunc_magnitude() {
            None => None,
            Some(m) => {
                if bits >= NUMBER_SIGN_BIT {
                    if m <= 0x8000_0000_0000_0000 {
                        Some((-(m as i128)) as i64)
                    } else {
                        None
                    }
                } else {
                    if m <= 0x7fff_ffff_ffff_ffff {
                        Some(m as i64)
                    } else {
                        None
                    }
                }
            },
        }
    }

    /// The number converted as Rust's `as` converts a float to `i32`: NaN gives 0, other
    /// values are truncated toward zero and clamped to the `i32` range.
    pub fn to_i32_saturating(&self) -> (r: i32)
        ensures
            r == spec_saturating_int(self.bits, i32::MIN as int, i32::MAX as int),
    {
        let wide = self.to_i64_saturating();
        if wide < i32::MIN as i64 {
            i32::MIN
        } else if wide > i32::MAX as i64 {
            i32::MAX
        } else {
            wide as i32
        }
    }

    /// The number converted as Rust's `as` converts a float to `i64`: NaN gives 0, other
    /// values are truncated toward zero and clamped to the `i64` range.
    pub fn to_i64_saturating(&self) -> (r: i64)
        ensures
            r == spec_saturating_int(self.bits, i64::MIN as int, i64::MAX as int),
    {
        if self.is_nan() {
            return 0;
        }
        let bits = self.bits;
        let negative = bits >= NUMBER_SIGN_BIT;
        assert((bits >> 52u64) & 0x7ffu64 == (bits / 0x10_0000_0000_0000u64) % 2048) by (bit_vector);
        if (bits >> 52) & 0x7ff == 0x7ff {
            return if negative {
                i64::MIN
            } else {
                i64::MAX
            };
        }
        match self.trunc_magnitude() {
            None => if negative {
                i64::MIN
            } else {
                i64::MAX
            },
            Some(m) => {
                if negative {
                    if m >= 0x8000_0000_0000_0000 {
                        i64::MIN
                    } else {
                        (-(m as i128)) as i64
                    }
                } else {
                    if m > 0x7fff_ffff_ffff_ffff {
                        i64::MAX
                    } else {
                        m as i64
                    }
                }
            },
        }
    }

    /// The number truncated toward zero as a `usize`; nothing when it is NaN, infinite,
    /// or its truncation lies outside the `usize` range.
    pub fn to_usize(&self) -> (r: Option<usize>)
        ensures
            r matches Some(v) ==> spec_checked_int(self.bits, 0, usize::MAX as int) == Some(
                v as int,
            ),
            r is None ==> spec_checked_int(self.bits, 0, usize::MAX as int) is None,
    {
        let bits = self.bits;
        assert((bits >> 52u64) & 0x7ffu64 == (bits / 0x10_0000_0000_0000u64) % 2048) by (bit_vector);
        if (bits >> 52) & 0x7ff == 0x7ff {
            return None;
        }
        match self.trunc_magnitude() {
            None => None,
            Some(m) => {
                if bits >= NUMBER_SIGN_BIT {
                    if m == 0 {
                        Some(0)
                    } else {
                        None
                    }
                } else {
                    if m <= usize::MAX as u128 {
                        Some(m as usize)
                    } else {
                        None
                    }
                }
            },
        }
    }
}

} // verus!

//! Comparisons of numeric Runtime values.
//!
//! A numeric value is carried as the bit pattern of an IEEE 754 binary64
//! number. Comparisons follow IEEE 754: NaN is unordered and unequal to
//! everything, and the two zeros are equal.
use vstd::prelude::*;
use vstd::arithmetic::power2::{
    pow2, lemma_pow2_adds, lemma_pow2_pos, lemma_pow2_strictly_increases, lemma_pow2_unfold, lemma2_to64, lemma2_to64_rest,
};

verus! {

/// 2^52: the weight of the lowest exponent bit.
pub open spec fn exponent_unit() -> nat {
    0x10_0000_0000_0000
}

/// 2^63: the sign bit.
pub open spec fn sign_bit() -> nat {
    0x8000_0000_0000_0000
}

/// The bit pattern encodes a NaN: all exponent bits set and a non-zero fraction.
pub open spec fn is_nan(bits: u64) -> bool {
    (bits as nat / exponent_unit()) % 2048 == 2047 && bits as nat % exponent_unit() != 0
}

/// Position of a non-NaN number on the number line, as an integer that orders
/// numbers as their values are ordered (both zeros map to 0).
pub open spec fn number_rank(bits: u64) -> int {
    if (bits as nat) < sign_bit() {
        bits as int
    } else {
        -((bits as nat - sign_bit()) as int)
    }
}

/// `a < b` on numbers.
pub open spec fn number_lt(a: u64, b: u64) -> bool {
    !is_nan(a) && !is_nan(b) && number_rank(a) < number_rank(b)
}

/// `a == b` on numbers.
pub open spec fn number_eq(a: u64, b: u64) -> bool {
    !is_nan(a) && !is_nan(b) && number_rank(a) == number_rank(b)
}

/// Reports whether the bit pattern encodes a NaN.
pub fn number_is_nan(bits: u64) -> (b: bool)
    ensures
        b == is_nan(bits),
{
    (bits / 0x10_0000_0000_0000) % 2048 == 2047 && bits % 0x10_0000_0000_0000 != 0
}

fn number_rank_exec(bits: u64) -> (r: i128)
    ensures
        r == number_rank(bits),
{
    if bits < 0x8000_0000_0000_0000 {
        bits as i128
    } else {
        -((bits - 0x8000_0000_0000_0000) as i128)
    }
}

/// `a < b` on numbers.
pub fn number_less(a: u64, b: u64) -> (r: bool)
    ensures
        r == number_lt(a, b),
{
    !number_is_nan(a) && !number_is_nan(b) && number_rank_exec(a) < number_rank_exec(b)
}

/// `a == b` on numbers.
pub fn number_equal(a: u64, b: u64) -> (r: bool)
    ensures
        r == number_eq(a, b),
{
    !number_is_nan(a) && !number_is_nan(b) && number_rank_exec(a) == number_rank_exec(b)
}


/// The bit pattern encodes a finite number: not all exponent bits are set.
pub open spec fn is_finite(bits: u64) -> bool {
    (bits as nat / exponent_unit()) % 2048 != 2047
}

/// Reports whether the bit pattern encodes a finite number.
pub fn number_is_finite(bits: u64) -> (b: bool)
    ensures
        b == is_finite(bits),
{
    (bits / 0x10_0000_0000_0000) % 2048 != 2047
}

/// The position of the highest set bit of a positive integer.
pub open spec fn highest_bit(n: nat) -> nat
    decreases n,
{
    if n <= 1 {
        0
    } else {
        1 + highest_bit(n / 2)
    }
}

/// `n / 2^s` rounded to the nearest integer, ties to even.
pub open spec fn round_half_even(n: nat, s: nat) -> nat {
    let q = n / pow2(s);
    let r = n % pow2(s);
    if s == 0 {
        q
    } else if r > pow2((s - 1) as nat) || (r == pow2((s - 1) as nat) && q % 2 == 1) {
        q + 1
    } else {
        q
    }
}

/// The IEEE 754 binary64 bit pattern of the non-negative integer `n`, rounded
/// to nearest with ties to even: exponent `e` is the highest bit of `n`, and
/// the significand keeps the 53 highest bits.
pub open spec fn integer_number_bits(n: nat) -> int {
    if n == 0 {
        0
    } else {
        let e = highest_bit(n);
        if e <= 52 {
            (1023 + e) * exponent_unit() + (n - pow2(e)) * pow2((52 - e) as nat)
        } else {
            let q = round_half_even(n, (e - 52) as nat);
            if q == pow2(53) {
                ((1024 + e) * exponent_unit()) as int
            } else {
                (1023 + e) * exponent_unit() + (q - pow2(52))
            }
        }
    }
}

proof fn lemma_highest_bit(n: nat, e: nat)
    requires
        pow2(e) <= n < pow2(e + 1),
    ensures
        highest_bit(n) == e,
    decreases e,
{
    lemma_pow2_unfold(e + 1);
    if e == 0 {
        lemma2_to64();
        lemma2_to64_rest();
    } else {
        lemma_pow2_unfold(e);
        lemma_pow2_pos((e - 1) as nat);
        assert(pow2((e - 1) as nat) <= n / 2 < pow2(e));
        lemma_highest_bit(n / 2, (e - 1) as nat);
    }
}

/// Returns the binary64 bit pattern of an unsigned integer, rounded to
/// nearest with ties to even.
pub fn integer_to_number(n: u64) -> (bits: u64)
    ensures
        bits as int == integer_number_bits(n as nat),
{
    if n == 0 {
        return 0;
    }
    proof {
        lemma2_to64();
        lemma2_to64_rest();
    }
    let mut e: u64 = 0;
    let mut p: u64 = 1;
    while p <= n / 2
        invariant
            1 <= p <= n,
            p as nat == pow2(e as nat),
            e <= 63,
        decreases n - p,
    {
        proof {
            lemma_pow2_unfold((e + 1) as nat);
        }
        p = p * 2;
        e = e + 1;
        proof {
            if e >= 64 {
                lemma2_to64();
        lemma2_to64_rest();
                if e > 64 {
                    lemma_pow2_strictly_increases(64, e as nat);
                }
            }
        }
    }
    proof {
        lemma_pow2_unfold((e + 1) as nat);
        lemma_highest_bit(n as nat, e as nat);
    }
    if e <= 52 {
        let mut mant: u64 = n - p;
        let mut k: u64 = e;
        proof {
            lemma2_to64();
        lemma2_to64_rest();
            assert(((k - e) as nat) == 0);
            assert(mant as nat == (n - p) * pow2(0));
            assert(mant < pow2(k as nat));
        }
        while k < 52
            invariant
                e <= k <= 52,
                p as nat == pow2(e as nat),
                n - p < p,
                mant as nat == (n - p) * pow2((k - e) as nat),
                mant < pow2(k as nat),
            decreases 52 - k,
        {
            proof {
                lemma_pow2_unfold((k + 1 - e) as nat);
                lemma_pow2_unfold((k + 1) as nat);
                lemma_pow2_strictly_increases(k as nat, 52);
                lemma2_to64();
        lemma2_to64_rest();
                assert(mant < 0x10_0000_0000_0000);
            }
            mant = mant * 2;
            k = k + 1;
            proof {
                assert(mant as nat == (n - p) * pow2((k - e) as nat)) by (nonlinear_arith)
                    requires
                        mant == 2 * ((n - p) * pow2((k - 1 - e) as nat)),
                        pow2((k - e) as nat) == 2 * pow2((k - 1 - e) as nat),
                ;
            }
        }
        proof {
            lemma2_to64();
        lemma2_to64_rest();
            assert(k == 52);
            assert(mant < 0x10_0000_0000_0000);
        }
        (1023 + e) * 0x10_0000_0000_0000 + mant
    } else {
        let s: u64 = e - 52;
        let mut d: u64 = 1;
        let mut j: u64 = 0;
        proof {
            lemma2_to64();
        lemma2_to64_rest();
        }
        while j < s
            invariant
                j <= s,
                s == e - 52,
                e <= 63,
                d as nat == pow2(j as nat),
            decreases s - j,
        {
            proof {
                lemma_pow2_unfold((j + 1) as nat);
                lemma_pow2_strictly_increases((j + 1) as nat, 64);
                lemma2_to64();
        lemma2_to64_rest();
            }
            d = d * 2;
            j = j + 1;
        }
        let q: u64 = n / d;
        let r: u64 = n % d;
        let half: u64 = d / 2;
        proof {
            lemma_pow2_unfold(s as nat);
            assert(half as nat == pow2((s - 1) as nat));
            lemma_pow2_adds(s as nat, 52);
            lemma_pow2_adds(s as nat, 53);
            lemma_pow2_unfold(53);
            lemma2_to64();
        lemma2_to64_rest();
            lemma_pow2_pos(s as nat);
            assert(pow2(52) <= q < pow2(53)) by (nonlinear_arith)
                requires
                    q == n / d,
                    d > 0,
                    pow2(e as nat) <= n < pow2((e + 1) as nat),
                    pow2(e as nat) == d * pow2(52),
                    pow2((e + 1) as nat) == d * pow2(53),
            ;
        }
        let rounded: u64 = if r > half || (r == half && q % 2 == 1) {
            q + 1
        } else {
            q
        };
        if rounded == 0x20_0000_0000_0000 {
            (1024 + e) * 0x10_0000_0000_0000
        } else {
            (1023 + e) * 0x10_0000_0000_0000 + (rounded - 0x10_0000_0000_0000)
        }
    }
}

} // verus!

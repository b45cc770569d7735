//! Numbers of the runtime: double-precision values, held by their bit
//! pattern (sign, eleven exponent bits, fifty-two fraction bits).
//!
//! What the runtime itself has to read from a number is stated and computed
//! here on the bits: whether it is zero, whether it is a natural number and
//! which, how two numbers compare, and the pattern of a given natural
//! number. Arithmetic is not done here.

use vstd::arithmetic::power2::{
    lemma2_to64, lemma2_to64_rest, lemma_pow2_adds, lemma_pow2_pos,
    lemma_pow2_strictly_increases, pow2,
};
use vstd::bits::{lemma_u64_shl_is_mul, lemma_u64_shr_is_div};
use vstd::prelude::*;

verus! {

/// The sign bit.
pub const SIGN_BIT: u64 = 0x8000_0000_0000_0000;

/// The implicit leading bit of a normal number's significand: 2^52.
pub const HIDDEN_BIT: u64 = 0x0010_0000_0000_0000;

/// The bits of the fraction.
pub const FRACTION_MASK: u64 = 0x000f_ffff_ffff_ffff;

/// The pattern of the canonical not-a-number.
pub const NAN: u64 = 0x7ff8_0000_0000_0000;

/// The pattern of zero.
pub const ZERO: u64 = 0;

/// The pattern of one.
pub const ONE: u64 = 0x3ff0_0000_0000_0000;

/// The pattern of the circle constant.
pub const PI: u64 = 0x4009_21fb_5444_2d18;

/// The largest natural number below which every natural number has a
/// pattern of its own: 2^53 - 1.
pub const MAX_SAFE_INTEGER: u64 = 0x001f_ffff_ffff_ffff;

/// Whether the sign bit is set.
pub open spec fn is_negative(bits: u64) -> bool {
    bits >= SIGN_BIT
}

/// The pattern without its sign.
pub open spec fn magnitude(bits: u64) -> nat {
    (bits % SIGN_BIT) as nat
}

/// The exponent field.
pub open spec fn exponent(bits: u64) -> nat {
    ((bits / HIDDEN_BIT) % 2048) as nat
}

/// The fraction field.
pub open spec fn fraction(bits: u64) -> nat {
    (bits % HIDDEN_BIT) as nat
}

/// The significand of a normal number: the fraction with the hidden bit.
pub open spec fn significand(bits: u64) -> nat {
    HIDDEN_BIT as nat + fraction(bits)
}

/// Whether the pattern is a not-a-number.
pub open spec fn is_nan(bits: u64) -> bool {
    exponent(bits) == 2047 && fraction(bits) != 0
}

/// Whether the pattern is zero, of either sign.
pub open spec fn is_zero(bits: u64) -> bool {
    magnitude(bits) == 0
}

/// The natural number that the pattern denotes, if it denotes one.
///
/// Zero of either sign denotes 0. A positive normal number with exponent
/// field `e` and fraction `f` has the value (2^52 + f) * 2^(e - 1075), which
/// is a natural number when the exponent is not negative or the division
/// leaves no remainder. Negative numbers, subnormal numbers, infinities and
/// not-a-numbers denote none.
pub open spec fn natural_value(bits: u64) -> Option<nat> {
    let e = exponent(bits);
    if is_zero(bits) {
        Some(0)
    } else if is_negative(bits) || e == 0 || e == 2047 {
        None
    } else if e >= 1075 {
        Some(significand(bits) * pow2((e - 1075) as nat))
    } else if e >= 1023 && significand(bits) % pow2((1075 - e) as nat) == 0 {
        Some(significand(bits) / pow2((1075 - e) as nat))
    } else {
        None
    }
}

/// Where a pattern stands in the order of the numbers: the numbers that are
/// not not-a-numbers are ordered as their magnitudes are, upwards from zero
/// without the sign and downwards from zero with it.
pub open spec fn rank(bits: u64) -> int {
    if is_negative(bits) {
        -(magnitude(bits) as int)
    } else {
        magnitude(bits) as int
    }
}

/// Whether `a` is less than `b`. Nothing is less than a not-a-number, and
/// a not-a-number is less than nothing.
pub open spec fn less_than(a: u64, b: u64) -> bool {
    !is_nan(a) && !is_nan(b) && rank(a) < rank(b)
}

/// The pattern with the other sign.
pub open spec fn negated(bits: u64) -> u64 {
    if is_negative(bits) {
        (bits - SIGN_BIT) as u64
    } else {
        (bits + SIGN_BIT) as u64
    }
}

/// Flipping the sign twice gives the pattern back.
pub proof fn lemma_negated_twice(bits: u64)
    ensures
        negated(negated(bits)) == bits,
{
}

/// Whether a number counts as true in a condition: every number but zero.
pub open spec fn nonzero(bits: u64) -> bool {
    !is_zero(bits)
}

/// Tells whether `bits` is not zero.
pub fn is_nonzero(bits: u64) -> (yes: bool)
    ensures
        yes == nonzero(bits),
{
    assert((bits & 0x7fff_ffff_ffff_ffff) == bits % 0x8000_0000_0000_0000) by (bit_vector);
    (bits & 0x7fff_ffff_ffff_ffff) != 0
}

/// Tells whether `bits` is a not-a-number.
pub fn is_not_a_number(bits: u64) -> (yes: bool)
    ensures
        yes == is_nan(bits),
{
    assert(((bits >> 52) & 0x7ff) == (bits / 0x0010_0000_0000_0000) % 2048) by (bit_vector);
    assert((bits & 0x000f_ffff_ffff_ffff) == bits % 0x0010_0000_0000_0000) by (bit_vector);
    ((bits >> 52) & 0x7ff) == 0x7ff && (bits & FRACTION_MASK) != 0
}

/// Flips the sign of `bits`.
pub fn negate_bits(bits: u64) -> (flipped: u64)
    ensures
        flipped == negated(bits),
{
    assert((bits ^ 0x8000_0000_0000_0000) == if bits >= 0x8000_0000_0000_0000 {
        (bits - 0x8000_0000_0000_0000) as u64
    } else {
        (bits + 0x8000_0000_0000_0000) as u64
    }) by (bit_vector);
    bits ^ SIGN_BIT
}

/// Compares two numbers.
pub fn is_less_than(a: u64, b: u64) -> (less: bool)
    ensures
        less == less_than(a, b),
{
    if is_not_a_number(a) || is_not_a_number(b) {
        return false;
    }
    assert((a & 0x7fff_ffff_ffff_ffff) == a % 0x8000_0000_0000_0000) by (bit_vector);
    assert((b & 0x7fff_ffff_ffff_ffff) == b % 0x8000_0000_0000_0000) by (bit_vector);
    let a_magnitude = a & 0x7fff_ffff_ffff_ffff;
    let b_magnitude = b & 0x7fff_ffff_ffff_ffff;
    let a_negative = a >= SIGN_BIT;
    let b_negative = b >= SIGN_BIT;
    if a_negative {
        if b_negative {
            b_magnitude < a_magnitude
        } else {
            a_magnitude != 0 || b_magnitude != 0
        }
    } else {
        if b_negative {
            false
        } else {
            a_magnitude < b_magnitude
        }
    }
}

/// A power of two with at least the exponent `floor` is at least the power
/// with that exponent.
proof fn lemma_pow2_at_least(e: nat, floor: nat)
    requires
        floor <= e,
    ensures
        pow2(floor) <= pow2(e),
{
    if floor < e {
        lemma_pow2_strictly_increases(floor, e);
    }
}

/// A power of two with at most the exponent `ceiling` is at most the power
/// with that exponent.
proof fn lemma_pow2_at_most(e: nat, ceiling: nat)
    requires
        e <= ceiling,
    ensures
        pow2(e) <= pow2(ceiling),
{
    if e < ceiling {
        lemma_pow2_strictly_increases(e, ceiling);
    }
}

/// The natural number that `bits` denotes, where it denotes one that an
/// index can hold.
pub fn to_index(bits: u64) -> (index: Option<usize>)
    ensures
        index == match natural_value(bits) {
            Some(n) => if n <= usize::MAX {
                Some(n as usize)
            } else {
                None
            },
            None => None,
        },
{
    assert((bits & 0x7fff_ffff_ffff_ffff) == bits % 0x8000_0000_0000_0000) by (bit_vector);
    assert(((bits >> 52) & 0x7ff) == (bits / 0x0010_0000_0000_0000) % 2048) by (bit_vector);
    assert((bits & 0x000f_ffff_ffff_ffff) == bits % 0x0010_0000_0000_0000) by (bit_vector);
    if (bits & 0x7fff_ffff_ffff_ffff) == 0 {
        return Some(0);
    }
    let e: u64 = (bits >> 52) & 0x7ff;
    if bits >= SIGN_BIT || e == 0 || e == 0x7ff {
        return None;
    }
    let significand: u64 = HIDDEN_BIT + (bits & FRACTION_MASK);
    proof {
        lemma2_to64();
        lemma2_to64_rest();
    }
    if e >= 1075 {
        let shift: u64 = e - 1075;
        if shift > 11 {
            proof {
                // The value is at least 2^52 * 2^12, which no index holds.
                lemma_pow2_at_least(shift as nat, 12);
                assert(significand * pow2(shift as nat) >= 0x0010_0000_0000_0000 * 0x1000)
                    by (nonlinear_arith)
                    requires
                        significand >= 0x0010_0000_0000_0000,
                        pow2(shift as nat) >= 0x1000,
                ;
            }
            return None;
        }
        proof {
            lemma_pow2_at_most(shift as nat, 11);
            assert(significand * pow2(shift as nat) <= 0x001f_ffff_ffff_ffff * 0x800)
                by (nonlinear_arith)
                requires
                    significand <= 0x001f_ffff_ffff_ffff,
                    pow2(shift as nat) <= 0x800,
            ;
            lemma_u64_shl_is_mul(significand, shift);
        }
        let value: u64 = significand << shift;
        if value > usize::MAX as u64 {
            None
        } else {
            Some(value as usize)
        }
    } else if e >= 1023 {
        let shift: u64 = 1075 - e;
        proof {
            lemma_u64_shr_is_div(significand, shift);
            lemma_pow2_pos(shift as nat);
            lemma_pow2_at_most(shift as nat, 52);
        }
        let quotient: u64 = significand >> shift;
        proof {
            assert(quotient * pow2(shift as nat) <= significand) by (nonlinear_arith)
                requires
                    quotient == significand as nat / pow2(shift as nat),
                    pow2(shift as nat) > 0,
            ;
            lemma_u64_shl_is_mul(quotient, shift);
            assert((quotient * pow2(shift as nat) == significand) <==> (significand as nat % pow2(
                shift as nat,
            ) == 0)) by (nonlinear_arith)
                requires
                    quotient == significand as nat / pow2(shift as nat),
                    pow2(shift as nat) > 0,
            ;
        }
        if (quotient << shift) == significand {
            if quotient > usize::MAX as u64 {
                None
            } else {
                Some(quotient as usize)
            }
        } else {
            None
        }
    } else {
        None
    }
}

/// How many bits a natural number has beyond the fifty-three that a
/// significand holds.
pub open spec fn excess_bits(n: nat) -> nat
    decreases n,
{
    if n <= MAX_SAFE_INTEGER {
        0
    } else {
        1 + excess_bits(n / 2)
    }
}

/// A natural number rounded to fifty-three significant bits: to the nearer
/// of its two neighbours with that many, and where both are as near, to the
/// one whose last significant bit is zero. A number of at most fifty-three
/// bits is its own rounding.
pub open spec fn rounded(n: nat) -> nat {
    let unit = pow2(excess_bits(n));
    let kept = n / unit;
    let dropped = n % unit;
    if 2 * dropped < unit || (2 * dropped == unit && kept % 2 == 0) {
        kept * unit
    } else {
        (kept + 1) * unit
    }
}

/// A natural number of at most fifty-three bits is its own rounding.
pub proof fn law_rounded_is_exact(n: nat)
    requires
        n <= MAX_SAFE_INTEGER,
    ensures
        rounded(n) == n,
{
    lemma2_to64();
    assert(excess_bits(n) == 0);
    assert(pow2(0) == 1);
    assert(n / 1 == n && n % 1 == 0);
}

/// The pattern of a natural number that has one of its own.
fn exact_pattern(n: u64) -> (bits: u64)
    requires
        n <= MAX_SAFE_INTEGER,
    ensures
        natural_value(bits) == Some(n as nat),
        !is_negative(bits),
        n == 0 ==> bits == ZERO,
{
    if n == 0 {
        return ZERO;
    }
    let mut significand: u64 = n;
    let mut doublings: u64 = 0;
    proof {
        lemma2_to64();
        lemma2_to64_rest();
    }
    while significand < HIDDEN_BIT
        invariant
            n >= 1,
            significand == n * pow2(doublings as nat),
            significand <= MAX_SAFE_INTEGER,
            doublings <= 52,
        decreases 52 - doublings,
    {
        proof {
            let k = doublings as nat;
            lemma2_to64_rest();
            lemma_pow2_pos(k);
            assert(pow2(k + 1) == 2 * pow2(k)) by {
                vstd::arithmetic::power2::lemma_pow2_unfold(k + 1);
            }
            assert(n * pow2(k + 1) == 2 * (n * pow2(k))) by (nonlinear_arith)
                requires
                    pow2(k + 1) == 2 * pow2(k),
            ;
            assert(significand >= pow2(k)) by (nonlinear_arith)
                requires
                    significand == n * pow2(k),
                    n >= 1,
                    pow2(k) > 0,
            ;
            if k >= 52 {
                lemma_pow2_at_least(k, 52);
            }
        }
        significand = significand * 2;
        doublings = doublings + 1;
    }
    let e: u64 = 1075 - doublings;
    let bits: u64 = e * HIDDEN_BIT + (significand - HIDDEN_BIT);
    proof {
        let k = doublings as nat;
        lemma_pow2_pos(k);
        assert(exponent(bits) == e && fraction(bits) == significand - HIDDEN_BIT) by {
            assert(bits / HIDDEN_BIT == e);
            assert(bits % HIDDEN_BIT == significand - HIDDEN_BIT);
        }
        assert(bits < SIGN_BIT);
        assert(magnitude(bits) == bits);
        if k > 0 {
            assert(significand as nat % pow2(k) == 0 && significand as nat / pow2(k) == n)
                by (nonlinear_arith)
                requires
                    significand == n * pow2(k),
                    pow2(k) > 0,
            ;
        } else {
            assert(significand * pow2(0) == n) by (nonlinear_arith)
                requires
                    significand == n * pow2(0),
                    pow2(0) == 1,
            ;
        }
    }
    bits
}

/// The pattern of the natural number `n`, rounded to fifty-three
/// significant bits where it has more.
pub fn from_index(n: usize) -> (bits: u64)
    ensures
        natural_value(bits) == Some(rounded(n as nat)),
        !is_negative(bits),
        n == 0 ==> bits == ZERO,
{
    let whole: u64 = n as u64;
    if whole <= MAX_SAFE_INTEGER {
        proof {
            law_rounded_is_exact(whole as nat);
        }
        return exact_pattern(whole);
    }
    let mut kept: u64 = whole;
    let mut unit: u64 = 1;
    let mut halvings: u64 = 0;
    proof {
        lemma2_to64();
    }
    while kept > MAX_SAFE_INTEGER
        invariant
            whole > MAX_SAFE_INTEGER,
            unit == pow2(halvings as nat),
            kept == whole as nat / pow2(halvings as nat),
            excess_bits(whole as nat) == halvings + excess_bits(kept as nat),
            halvings <= 11,
            halvings == 0 ==> kept == whole,
            halvings > 0 ==> kept >= HIDDEN_BIT,
        decreases kept,
    {
        proof {
            let k = halvings as nat;
            lemma2_to64();
            lemma_pow2_pos(k);
            vstd::arithmetic::power2::lemma_pow2_unfold(k + 1);
            vstd::arithmetic::div_mod::lemma_div_denominator(whole as int, pow2(k) as int, 2);
            // More than fifty-three bits are left, so fewer than eleven were dropped.
            assert(kept * pow2(k) <= whole) by (nonlinear_arith)
                requires
                    kept == whole as nat / pow2(k),
                    pow2(k) > 0,
            ;
            if k >= 11 {
                lemma_pow2_at_least(k, 11);
                assert(kept * pow2(k) >= 0x0020_0000_0000_0000 * 0x800) by (nonlinear_arith)
                    requires
                        kept >= 0x0020_0000_0000_0000,
                        pow2(k) >= 0x800,
                ;
            }
        }
        kept = kept / 2;
        unit = unit * 2;
        halvings = halvings + 1;
    }
    proof {
        lemma_pow2_pos(halvings as nat);
        assert(kept * pow2(halvings as nat) <= whole) by (nonlinear_arith)
            requires
                kept == whole as nat / pow2(halvings as nat),
                pow2(halvings as nat) > 0,
        ;
    }
    let dropped: u64 = whole - kept * unit;
    let half: u64 = unit / 2;
    let up = dropped > half || (dropped == half && kept % 2 == 1);
    let mut significand: u64 = kept;
    let mut e: u64 = 1075 + halvings;
    if up {
        significand = kept + 1;
        if significand > MAX_SAFE_INTEGER {
            significand = HIDDEN_BIT;
            e = e + 1;
        }
    }
    let bits: u64 = e * HIDDEN_BIT + (significand - HIDDEN_BIT);
    proof {
        let k = halvings as nat;
        let n = whole as nat;
        lemma2_to64();
        lemma2_to64_rest();
        lemma_pow2_pos(k);
        vstd::arithmetic::power2::lemma_pow2_unfold(k);
        vstd::arithmetic::power2::lemma_pow2_unfold(k + 1);
        assert(excess_bits(kept as nat) == 0);
        assert(excess_bits(n) == k);
        vstd::arithmetic::div_mod::lemma_fundamental_div_mod(n as int, pow2(k) as int);
        assert(kept * unit == pow2(k) * (n / pow2(k))) by (nonlinear_arith)
            requires
                kept == n / pow2(k),
                unit == pow2(k),
        ;
        assert(dropped == n % pow2(k));
        assert(unit == 2 * half);
        assert(exponent(bits) == e && fraction(bits) == significand - HIDDEN_BIT) by {
            assert(bits / HIDDEN_BIT == e);
            assert(bits % HIDDEN_BIT == significand - HIDDEN_BIT);
        }
        assert(bits < SIGN_BIT);
        assert(magnitude(bits) == bits);
        let target = if up {
            (kept + 1) * pow2(k)
        } else {
            kept * pow2(k)
        };
        assert(rounded(n) == target);
        assert(self::significand(bits) == significand);
        if e == 1075 + k {
            assert(significand * pow2(k) == target);
        } else {
            assert(significand * pow2(k + 1) == (kept + 1) * pow2(k)) by (nonlinear_arith)
                requires
                    pow2(k + 1) == 2 * pow2(k),
                    significand * 2 == kept + 1,
            ;
        }
        assert(self::significand(bits) * pow2((e - 1075) as nat) == target);
    }
    bits
}

/// A positive natural number lies between two neighbouring powers of two
/// that the exponent field of its pattern names, and is tied to the
/// significand through the exponent.
proof fn lemma_natural_bounds(bits: u64, n: nat)
    requires
        !is_negative(bits),
        natural_value(bits) == Some(n),
        n > 0,
    ensures
        1023 <= exponent(bits) <= 2046,
        pow2((exponent(bits) - 1023) as nat) <= n < pow2((exponent(bits) - 1022) as nat),
        exponent(bits) >= 1075 ==> n == significand(bits) * pow2((exponent(bits) - 1075) as nat),
        exponent(bits) < 1075 ==> significand(bits) == n * pow2((1075 - exponent(bits)) as nat),
{
    lemma2_to64();
    lemma2_to64_rest();
    let e = exponent(bits);
    let m = significand(bits);
    assert(0x0010_0000_0000_0000 <= m < 0x0020_0000_0000_0000);
    if is_zero(bits) {
        assert(false);
    }
    if e >= 1075 {
        let k = (e - 1075) as nat;
        lemma_pow2_pos(k);
        lemma_pow2_adds(52, k);
        lemma_pow2_adds(53, k);
        assert(pow2(52) * pow2(k) <= m * pow2(k) < pow2(53) * pow2(k)) by (nonlinear_arith)
            requires
                pow2(52) <= m < pow2(53),
                pow2(k) > 0,
        ;
    } else {
        let k = (1075 - e) as nat;
        lemma_pow2_pos(k);
        if e >= 1023 {
            assert(m == n * pow2(k)) by (nonlinear_arith)
                requires
                    m % pow2(k) == 0,
                    n == m / pow2(k),
                    pow2(k) > 0,
            ;
            lemma_pow2_adds((52 - k) as nat, k);
            lemma_pow2_adds((53 - k) as nat, k);
            lemma_pow2_pos((52 - k) as nat);
            assert(pow2((52 - k) as nat) <= n < pow2((53 - k) as nat)) by (nonlinear_arith)
                requires
                    pow2((52 - k) as nat) * pow2(k) <= n * pow2(k),
                    n * pow2(k) < pow2((53 - k) as nat) * pow2(k),
                    pow2(k) > 0,
            ;
        }
    }
}

/// Apart from the sign, a natural number has one pattern: two patterns
/// without the sign that denote the same natural number are the same.
pub proof fn law_natural_pattern_is_unique(a: u64, b: u64)
    requires
        !is_negative(a),
        !is_negative(b),
        natural_value(a) is Some,
        natural_value(a) == natural_value(b),
    ensures
        a == b,
{
    let n = natural_value(a)->Some_0;
    lemma2_to64();
    lemma2_to64_rest();
    if n == 0 {
        lemma_zero_pattern(a);
        lemma_zero_pattern(b);
    } else {
        lemma_natural_bounds(a, n);
        lemma_natural_bounds(b, n);
        let ea = exponent(a);
        let eb = exponent(b);
        if ea < eb {
            lemma_pow2_at_most((ea - 1022) as nat, (eb - 1023) as nat);
        }
        if eb < ea {
            lemma_pow2_at_most((eb - 1022) as nat, (ea - 1023) as nat);
        }
        assert(ea == eb);
        let ma = significand(a);
        let mb = significand(b);
        if ea >= 1075 {
            let k = (ea - 1075) as nat;
            lemma_pow2_pos(k);
            assert(ma == mb) by (nonlinear_arith)
                requires
                    ma * pow2(k) == mb * pow2(k),
                    pow2(k) > 0,
            ;
        }
        assert(fraction(a) == fraction(b));
        assert(a == exponent(a) * HIDDEN_BIT + fraction(a));
        assert(b == exponent(b) * HIDDEN_BIT + fraction(b));
    }
}

/// The pattern without the sign that denotes zero is the pattern of zero.
proof fn lemma_zero_pattern(bits: u64)
    requires
        !is_negative(bits),
        natural_value(bits) == Some(0nat),
    ensures
        bits == ZERO,
{
    lemma2_to64();
    lemma2_to64_rest();
    if !is_zero(bits) {
        let e = exponent(bits);
        let m = significand(bits);
        if e >= 1075 {
            lemma_pow2_pos((e - 1075) as nat);
            assert(m * pow2((e - 1075) as nat) > 0) by (nonlinear_arith)
                requires
                    m > 0,
                    pow2((e - 1075) as nat) > 0,
            ;
        } else {
            let k = (1075 - e) as nat;
            lemma_pow2_pos(k);
            lemma_pow2_at_most(k, 52);
            assert(m / pow2(k) > 0) by (nonlinear_arith)
                requires
                    m >= pow2(k),
                    pow2(k) > 0,
            ;
        }
    }
}

} // verus!

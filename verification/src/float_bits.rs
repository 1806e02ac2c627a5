//! IEEE-754 values carried as their bit patterns.
//!
//! Configuration scalars are stored as the raw bits of their binary32 or
//! binary64 encoding. The signature folds these bits directly, and the range
//! guards compare them with the IEEE-754 ordering: NaN is unordered, the two
//! zeros are equal, and finite values and infinities order by magnitude and sign.
use vstd::prelude::*;
use vstd::arithmetic::power2::{lemma_pow2_adds, lemma_pow2_pos, lemma_pow2_strictly_increases, lemma_pow2_unfold, pow2};

verus! {

pub open spec fn f32_biased_exponent(bits: u32) -> nat {
    ((bits / 0x80_0000) % 0x100) as nat
}

pub open spec fn f32_fraction(bits: u32) -> nat {
    (bits % 0x80_0000) as nat
}

pub open spec fn f32_is_nan(bits: u32) -> bool {
    f32_biased_exponent(bits) == 0xff && f32_fraction(bits) != 0
}

pub open spec fn f32_is_finite(bits: u32) -> bool {
    f32_biased_exponent(bits) != 0xff
}

/// A key whose integer order is the IEEE order on non-NaN encodings.
pub open spec fn f32_order_key(bits: u32) -> int {
    if bits < 0x8000_0000 {
        bits as int
    } else {
        -(bits - 0x8000_0000)
    }
}

pub open spec fn f32_le(a: u32, b: u32) -> bool {
    !f32_is_nan(a) && !f32_is_nan(b) && f32_order_key(a) <= f32_order_key(b)
}

pub open spec fn f32_lt(a: u32, b: u32) -> bool {
    !f32_is_nan(a) && !f32_is_nan(b) && f32_order_key(a) < f32_order_key(b)
}

pub open spec fn f32_eq(a: u32, b: u32) -> bool {
    !f32_is_nan(a) && !f32_is_nan(b) && f32_order_key(a) == f32_order_key(b)
}

pub open spec fn f64_biased_exponent(bits: u64) -> nat {
    ((bits / 0x10_0000_0000_0000) % 0x800) as nat
}

pub open spec fn f64_fraction(bits: u64) -> nat {
    (bits % 0x10_0000_0000_0000) as nat
}

pub open spec fn f64_is_nan(bits: u64) -> bool {
    f64_biased_exponent(bits) == 0x7ff && f64_fraction(bits) != 0
}

pub open spec fn f64_is_finite(bits: u64) -> bool {
    f64_biased_exponent(bits) != 0x7ff
}

pub open spec fn f64_order_key(bits: u64) -> int {
    if bits < 0x8000_0000_0000_0000 {
        bits as int
    } else {
        -(bits - 0x8000_0000_0000_0000)
    }
}

pub open spec fn f64_le(a: u64, b: u64) -> bool {
    !f64_is_nan(a) && !f64_is_nan(b) && f64_order_key(a) <= f64_order_key(b)
}

pub open spec fn f64_lt(a: u64, b: u64) -> bool {
    !f64_is_nan(a) && !f64_is_nan(b) && f64_order_key(a) < f64_order_key(b)
}

/// `min <= value <= max` with a finite `value`, as the range guards require.
pub open spec fn f32_in_finite_range(value: u32, min: u32, max: u32) -> bool {
    f32_is_finite(value) && f32_le(min, value) && f32_le(value, max)
}

pub fn f32_nan(bits: u32) -> (r: bool)
    ensures
        r == f32_is_nan(bits),
{
    (bits / 0x80_0000) % 0x100 == 0xff && bits % 0x80_0000 != 0
}

pub fn f32_finite(bits: u32) -> (r: bool)
    ensures
        r == f32_is_finite(bits),
{
    (bits / 0x80_0000) % 0x100 != 0xff
}

fn f32_key(bits: u32) -> (r: i64)
    ensures
        r as int == f32_order_key(bits),
{
    if bits < 0x8000_0000 {
        bits as i64
    } else {
        -((bits - 0x8000_0000) as i64)
    }
}

pub fn f32_less_equal(a: u32, b: u32) -> (r: bool)
    ensures
        r == f32_le(a, b),
{
    !f32_nan(a) && !f32_nan(b) && f32_key(a) <= f32_key(b)
}

pub fn f32_less(a: u32, b: u32) -> (r: bool)
    ensures
        r == f32_lt(a, b),
{
    !f32_nan(a) && !f32_nan(b) && f32_key(a) < f32_key(b)
}

pub fn f32_equal(a: u32, b: u32) -> (r: bool)
    ensures
        r == f32_eq(a, b),
{
    !f32_nan(a) && !f32_nan(b) && f32_key(a) == f32_key(b)
}

pub fn f32_within(value: u32, min: u32, max: u32) -> (r: bool)
    ensures
        r == f32_in_finite_range(value, min, max),
{
    f32_finite(value) && f32_less_equal(min, value) && f32_less_equal(value, max)
}

pub fn f64_nan(bits: u64) -> (r: bool)
    ensures
        r == f64_is_nan(bits),
{
    (bits / 0x10_0000_0000_0000) % 0x800 == 0x7ff && bits % 0x10_0000_0000_0000 != 0
}

pub fn f64_finite(bits: u64) -> (r: bool)
    ensures
        r == f64_is_finite(bits),
{
    (bits / 0x10_0000_0000_0000) % 0x800 != 0x7ff
}

fn f64_key(bits: u64) -> (r: i128)
    ensures
        r as int == f64_order_key(bits),
{
    if bits < 0x8000_0000_0000_0000 {
        bits as i128
    } else {
        -((bits - 0x8000_0000_0000_0000) as i128)
    }
}

pub fn f64_less_equal(a: u64, b: u64) -> (r: bool)
    ensures
        r == f64_le(a, b),
{
    !f64_nan(a) && !f64_nan(b) && f64_key(a) <= f64_key(b)
}

pub fn f64_less(a: u64, b: u64) -> (r: bool)
    ensures
        r == f64_lt(a, b),
{
    !f64_nan(a) && !f64_nan(b) && f64_key(a) < f64_key(b)
}


/// The magnitude of a binary32 encoding times 2^149: an exact integer for every
/// finite encoding, since 2^-149 is the smallest subnormal step.
pub open spec fn f32_scaled_magnitude(bits: u32) -> nat {
    let magnitude = bits % 0x8000_0000;
    let exponent = magnitude / 0x80_0000;
    let fraction = magnitude % 0x80_0000;
    if exponent == 0 {
        fraction as nat
    } else {
        ((fraction + 0x80_0000) as nat) * pow2((exponent - 1) as nat)
    }
}

/// For two finite non-negative binary32 values, whether their binary32 sum
/// (round to nearest, ties to even) exceeds 2.0. The exact sum rounds above
/// 2.0 exactly when it exceeds the midpoint 2 + 2^-23 between 2.0 and its
/// successor: at the midpoint the tie goes to the even encoding, 2.0 itself.
pub open spec fn f32_sum_gt_two(a: u32, b: u32) -> bool {
    f32_scaled_magnitude(a) + f32_scaled_magnitude(b) > pow2(150) + pow2(126)
}

/// The encoding of 4.0.
pub const F32_FOUR: u32 = 0x4080_0000;

/// The encoding of 1.0.
pub const F32_ONE: u32 = 0x3F80_0000;

proof fn lemma_shift_compare(a: nat, p: nat, b: nat, q: nat)
    requires
        q <= p,
    ensures
        (a * pow2(p) > b * pow2(q)) == (a * pow2((p - q) as nat) > b),
        (a * pow2(p) < b * pow2(q)) == (a * pow2((p - q) as nat) < b),
{
    lemma_pow2_adds((p - q) as nat, q);
    assert(pow2(p) == pow2((p - q) as nat) * pow2(q));
    lemma_pow2_pos(q);
    let x = pow2((p - q) as nat);
    let y = pow2(q);
    assert(a * (x * y) == (a * x) * y) by (nonlinear_arith);
    assert(((a * x) * y > b * y) == (a * x > b)) by (nonlinear_arith)
        requires
            y > 0,
    ;
    assert(((a * x) * y < b * y) == (a * x < b)) by (nonlinear_arith)
        requires
            y > 0,
    ;
}

fn pow2_exec(n: u32) -> (r: u64)
    requires
        n < 63,
    ensures
        r == pow2(n as nat),
{
    let mut r: u64 = 1;
    let mut i: u32 = 0;
    proof {
        vstd::arithmetic::power2::lemma2_to64();
    }
    while i < n
        invariant
            i <= n < 63,
            r == pow2(i as nat),
        decreases n - i,
    {
        proof {
            lemma_pow2_unfold((i + 1) as nat);
            lemma_pow2_strictly_increases((i + 1) as nat, 63);
            vstd::arithmetic::power2::lemma2_to64_rest();
        }
        r = r * 2;
        i = i + 1;
    }
    r
}

pub(crate) proof fn lemma_scaled_below_one(bits: u32)
    requires
        bits % 0x8000_0000 < F32_ONE,
    ensures
        f32_scaled_magnitude(bits) < pow2(149),
{
    let magnitude = bits % 0x8000_0000;
    let exponent = magnitude / 0x80_0000;
    let fraction = magnitude % 0x80_0000;
    assert(exponent <= 126);
    lemma_pow2_pos(149);
    if exponent == 0 {
        lemma_pow2_strictly_increases(23, 149);
        vstd::arithmetic::power2::lemma2_to64();
    } else {
        let s = (exponent - 1) as nat;
        lemma_pow2_pos(s);
        lemma_pow2_adds(24, s);
        vstd::arithmetic::power2::lemma2_to64();
        assert((fraction + 0x80_0000) as nat * pow2(s) < pow2(24) * pow2(s)) by (nonlinear_arith)
            requires
                (fraction + 0x80_0000) < pow2(24),
                pow2(s) > 0,
        ;
        if 24 + s < 149 {
            lemma_pow2_strictly_increases(24 + s, 149);
        }
    }
}

/// Whether the binary32 sum of two finite values in `0.0..=4.0` exceeds 2.0.
pub fn f32_sum_exceeds_two(a: u32, b: u32) -> (r: bool)
    requires
        f32_is_finite(a),
        f32_is_finite(b),
        f32_le(0, a),
        f32_le(0, b),
        f32_le(a, F32_FOUR),
        f32_le(b, F32_FOUR),
    ensures
        r == f32_sum_gt_two(a, b),
{
    let ma = a % 0x8000_0000;
    let mb = b % 0x8000_0000;
    assert(ma <= F32_FOUR && mb <= F32_FOUR);
    let (x, y) = if ma <= mb { (ma, mb) } else { (mb, ma) };
    assert(f32_scaled_magnitude(a) == f32_scaled_magnitude(ma));
    assert(f32_scaled_magnitude(b) == f32_scaled_magnitude(mb));
    assert(f32_scaled_magnitude(x) + f32_scaled_magnitude(y) == f32_scaled_magnitude(a)
        + f32_scaled_magnitude(b));
    proof {
        vstd::arithmetic::power2::lemma2_to64();
        lemma_pow2_pos(126);
        lemma_pow2_adds(24, 126);
        lemma_pow2_adds(1, 149);
        lemma_pow2_adds(126, 23);
    }
    if y < F32_ONE {
        proof {
            lemma_scaled_below_one(x);
            lemma_scaled_below_one(y);
        }
        return false;
    }
    let ey = y / 0x80_0000;
    let sig_y = (y % 0x80_0000 + 0x80_0000) as u64;
    assert(127 <= ey <= 129);
    assert(pow2((ey - 127) as nat) <= 4) by {
        if ey == 127 {
            assert(pow2(0) == 1);
        } else if ey == 128 {
            assert(pow2(1) == 2);
        } else {
            assert(pow2(2) == 4);
        }
    }
    assert(sig_y * pow2((ey - 127) as nat) <= 0x100_0000 * 4) by (nonlinear_arith)
        requires
            sig_y < 0x100_0000,
            pow2((ey - 127) as nat) <= 4,
    ;
    let sy: u64 = sig_y * pow2_exec(ey - 127);
    proof {
        lemma_pow2_adds((ey - 127) as nat, 126);
        assert(f32_scaled_magnitude(y) == sig_y * pow2((ey - 1) as nat));
        assert(sig_y * pow2((ey - 1) as nat) == sy * pow2(126)) by (nonlinear_arith)
            requires
                pow2((ey - 1) as nat) == pow2((ey - 127) as nat) * pow2(126),
                sy == sig_y * pow2((ey - 127) as nat),
        ;
    }
    let threshold: u64 = 0x100_0001;
    if sy > threshold {
        assert(f32_scaled_magnitude(y) > pow2(150) + pow2(126)) by (nonlinear_arith)
            requires
                f32_scaled_magnitude(y) == sy * pow2(126),
                sy >= 0x100_0002,
                pow2(150) == 0x100_0000 * pow2(126),
                pow2(126) > 0,
        ;
        return true;
    }
    let k: u64 = threshold - sy;
    assert(pow2(150) + pow2(126) == f32_scaled_magnitude(y) + k * pow2(126)) by (nonlinear_arith)
        requires
            f32_scaled_magnitude(y) == sy * pow2(126),
            k == 0x100_0001 - sy,
            pow2(150) == 0x100_0000 * pow2(126),
    ;
    let ex = x / 0x80_0000;
    let frac_x = (x % 0x80_0000) as u64;
    if k == 0 {
        assert(k * pow2(126) == 0);
        assert(f32_scaled_magnitude(x) > 0 <==> x != 0) by {
            if ex == 0 {
            } else {
                lemma_pow2_pos((ex - 1) as nat);
                assert((frac_x + 0x80_0000) as nat * pow2((ex - 1) as nat) > 0) by (nonlinear_arith)
                    requires
                        pow2((ex - 1) as nat) > 0,
                ;
            }
        }
        return x != 0;
    }
    let (sig_x, s_x): (u64, u32) = if ex == 0 { (frac_x, 0) } else { (frac_x + 0x80_0000, ex - 1) };
    assert(f32_scaled_magnitude(x) == sig_x * pow2(s_x as nat)) by {
        if ex == 0 {
            assert(pow2(0) == 1);
        }
    }
    assert(sig_x < 0x100_0000);
    assert(s_x <= 128);
    if s_x >= 126 {
        proof {
            lemma_shift_compare(sig_x as nat, s_x as nat, k as nat, 126);
        }
        assert(pow2((s_x - 126) as nat) <= 4) by {
            if s_x == 126 {
                assert(pow2(0) == 1);
            } else if s_x == 127 {
                assert(pow2(1) == 2);
            } else {
                assert(pow2(2) == 4);
            }
        }
        assert(sig_x * pow2((s_x - 126) as nat) <= 0x100_0000 * 4) by (nonlinear_arith)
            requires
                sig_x < 0x100_0000,
                pow2((s_x - 126) as nat) <= 4,
        ;
        let lhs: u64 = sig_x * pow2_exec(s_x - 126);
        lhs > k
    } else {
        proof {
            lemma_shift_compare(k as nat, 126, sig_x as nat, s_x as nat);
        }
        if 126 - s_x >= 24 {
            proof {
                lemma_pow2_pos(s_x as nat);
                if 126 - s_x > 24 {
                    lemma_pow2_strictly_increases(24, (126 - s_x) as nat);
                }
                assert(k * pow2((126 - s_x) as nat) >= pow2(24)) by (nonlinear_arith)
                    requires
                        k >= 1,
                        pow2((126 - s_x) as nat) >= pow2(24),
                ;
            }
            false
        } else {
            proof {
                if 126 - s_x < 23 {
                    lemma_pow2_strictly_increases((126 - s_x) as nat, 23);
                }
                assert(k * pow2((126 - s_x) as nat) <= 0x100_0001 * pow2(23)) by (nonlinear_arith)
                    requires
                        k <= 0x100_0001,
                        pow2((126 - s_x) as nat) <= pow2(23),
                ;
            }
            let rhs: u64 = k * pow2_exec(126 - s_x);
            sig_x > rhs
        }
    }
}

/// The IEEE order on f32 encodings: NaN is unordered, the two zeros are
/// equal, every negative value lies below every positive one, positive values
/// order as their encodings and negative values the other way round.
pub proof fn lemma_f32_order(a: u32, b: u32)
    ensures
        f32_is_nan(a) ==> !f32_le(a, b) && !f32_le(b, a) && !f32_lt(a, b) && !f32_lt(b, a),
        f32_le(0, 0x8000_0000) && f32_le(0x8000_0000, 0) && !f32_lt(0, 0x8000_0000) && !f32_lt(0x8000_0000, 0),
        !f32_is_nan(a) && !f32_is_nan(b) && a < 0x8000_0000 && b < 0x8000_0000 ==> (f32_lt(a, b) <==> a < b),
        !f32_is_nan(a) && !f32_is_nan(b) && a > 0x8000_0000 && b > 0x8000_0000 ==> (f32_lt(a, b) <==> a > b),
        !f32_is_nan(a) && !f32_is_nan(b) && a > 0x8000_0000 && b < 0x8000_0000 && b > 0 ==> f32_lt(a, b),
        !f32_is_nan(a) ==> f32_le(a, a) && !f32_lt(a, a),
        f32_lt(a, b) ==> !f32_le(b, a),
        !f32_is_nan(a) && !f32_is_nan(b) ==> (f32_le(a, b) || f32_le(b, a)),
{
}

/// The IEEE order on f64 encodings: NaN is unordered, the two zeros are
/// equal, every negative value lies below every positive one, positive values
/// order as their encodings and negative values the other way round.
pub proof fn lemma_f64_order(a: u64, b: u64)
    ensures
        f64_is_nan(a) ==> !f64_le(a, b) && !f64_le(b, a) && !f64_lt(a, b) && !f64_lt(b, a),
        f64_le(0, 0x8000_0000_0000_0000) && f64_le(0x8000_0000_0000_0000, 0) && !f64_lt(0, 0x8000_0000_0000_0000) && !f64_lt(0x8000_0000_0000_0000, 0),
        !f64_is_nan(a) && !f64_is_nan(b) && a < 0x8000_0000_0000_0000 && b < 0x8000_0000_0000_0000 ==> (f64_lt(a, b) <==> a < b),
        !f64_is_nan(a) && !f64_is_nan(b) && a > 0x8000_0000_0000_0000 && b > 0x8000_0000_0000_0000 ==> (f64_lt(a, b) <==> a > b),
        !f64_is_nan(a) && !f64_is_nan(b) && a > 0x8000_0000_0000_0000 && b < 0x8000_0000_0000_0000 && b > 0 ==> f64_lt(a, b),
        !f64_is_nan(a) ==> f64_le(a, a) && !f64_lt(a, a),
        f64_lt(a, b) ==> !f64_le(b, a),
        !f64_is_nan(a) && !f64_is_nan(b) ==> (f64_le(a, b) || f64_le(b, a)),
{
}

} // verus!

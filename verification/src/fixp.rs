//! Fixed-point helpers shared by the shading pipeline.
//!
//! A milli value `v` stands for the real number `v / 1000`; the unit interval
//! [0, 1] is [0, 1000]. Division truncates toward zero, so nonnegative
//! operands divide exactly as the mathematical floor does.

use vstd::prelude::*;

verus! {

/// Clamp a milli factor into the unit interval [0, 1000].
pub open spec fn clamp_unit(t: int) -> int {
    if t < 0 {
        0
    } else if t > 1000 {
        1000
    } else {
        t
    }
}

/// Executable clamp into [0, 1000].
pub fn clamp_unit_exec(t: i64) -> (r: i64)
    ensures
        r == clamp_unit(t as int),
{
    if t < 0 {
        0
    } else if t > 1000 {
        1000
    } else {
        t
    }
}

/// Clamp a noise sample into [-1000, 1000]: a noise field returns values in
/// approximately [-1, 1], and every consumer treats anything beyond that range
/// as saturated.
pub open spec fn clamp_noise(n: int) -> int {
    if n < -1000 {
        -1000
    } else if n > 1000 {
        1000
    } else {
        n
    }
}

/// Executable clamp into [-1000, 1000].
pub fn clamp_noise_exec(n: i64) -> (r: i64)
    ensures
        r == clamp_noise(n as int),
{
    if n < -1000 {
        -1000
    } else if n > 1000 {
        1000
    } else {
        n
    }
}

/// Division truncating toward zero, for a positive divisor. On nonnegative
/// dividends it agrees with Euclidean division.
pub open spec fn tdiv(a: int, b: int) -> int {
    if a >= 0 {
        a / b
    } else {
        -((-a) / b)
    }
}

/// Executable truncating division for moderate dividends and a positive
/// divisor.
pub fn tdiv_exec(a: i64, b: i64) -> (r: i64)
    requires
        0 < b,
        -1_000_000_000_000_000 <= a <= 1_000_000_000_000_000,
    ensures
        r == tdiv(a as int, b as int),
{
    proof {
        assert((a as int) >= 0 ==> (a as int) / (b as int) <= (a as int)) by (nonlinear_arith)
            requires
                0 < b as int,
        ;
        assert((a as int) < 0 ==> (-(a as int)) / (b as int) <= -(a as int)) by (nonlinear_arith)
            requires
                0 < b as int,
        ;
    }
    if a >= 0 {
        ((a as u64) / (b as u64)) as i64
    } else {
        -(((-a) as u64 / (b as u64)) as i64)
    }
}

/// The absolute value.
pub open spec fn iabs(x: int) -> int {
    if x >= 0 {
        x
    } else {
        -x
    }
}

/// Saturate a mathematical integer into the `i64` range.
pub open spec fn sat64(x: int) -> int {
    if x > i64::MAX as int {
        i64::MAX as int
    } else if x < i64::MIN as int {
        i64::MIN as int
    } else {
        x
    }
}

/// Division truncating toward zero, for any nonzero divisor.
pub open spec fn tdiv_gen(a: int, b: int) -> int {
    if b > 0 {
        tdiv(a, b)
    } else {
        tdiv(-a, -b)
    }
}

/// Executable truncating division of a wide intermediate, saturated into the
/// `i64` range.
pub fn fxdiv_i128(a: i128, b: i128) -> (r: i64)
    requires
        b != 0,
        -1_000_000_000_000_000_000_000_000_000_000_000_000 <= a
            <= 1_000_000_000_000_000_000_000_000_000_000_000_000,
        -1_000_000_000_000_000_000_000_000_000_000_000_000 <= b
            <= 1_000_000_000_000_000_000_000_000_000_000_000_000,
    ensures
        r as int == sat64(tdiv_gen(a as int, b as int)),
{
    let am: u128 = if a >= 0 {
        a as u128
    } else {
        (-a) as u128
    };
    let bm: u128 = if b >= 0 {
        b as u128
    } else {
        (-b) as u128
    };
    let q: u128 = am / bm;
    proof {
        assert(q as int <= am as int) by (nonlinear_arith)
            requires
                q as int == (am as int) / (bm as int),
                bm as int >= 1,
                am as int >= 0,
        ;
        assert(tdiv_gen(a as int, b as int) == if (a as int >= 0) == (b as int > 0) {
            q as int
        } else {
            -(q as int)
        });
    }
    let positive: bool = (a >= 0) == (b > 0);
    if positive {
        if q > 0x7FFF_FFFF_FFFF_FFFF {
            i64::MAX
        } else {
            q as i64
        }
    } else {
        if q >= 0x8000_0000_0000_0000 {
            i64::MIN
        } else {
            -(q as i64)
        }
    }
}

/// Saturating product of an `i64` scalar and a small constant factor.
pub fn smul(a: i64, k: i64) -> (r: i64)
    requires
        -1_000_000 <= k <= 1_000_000,
    ensures
        r as int == sat64(a as int * (k as int)),
{
    proof {
        assert(-0x8000_0000_0000_0000_0000_0000 <= (a as int) * (k as int)
            <= 0x8000_0000_0000_0000_0000_0000) by (nonlinear_arith)
            requires
                -1_000_000 <= k as int <= 1_000_000,
                -0x8000_0000_0000_0000 <= a as int <= 0x7FFF_FFFF_FFFF_FFFF,
        ;
    }
    let p: i128 = (a as i128) * (k as i128);
    if p > 0x7FFF_FFFF_FFFF_FFFF {
        i64::MAX
    } else if p < -0x8000_0000_0000_0000 {
        i64::MIN
    } else {
        p as i64
    }
}

/// Saturating sum of two `i64` values.
pub fn sadd(a: i64, b: i64) -> (r: i64)
    ensures
        r as int == sat64(a as int + b as int),
{
    let p: i128 = (a as i128) + (b as i128);
    if p > 0x7FFF_FFFF_FFFF_FFFF {
        i64::MAX
    } else if p < -0x8000_0000_0000_0000 {
        i64::MIN
    } else {
        p as i64
    }
}

/// Product of two unit-interval milli values, scaled back into the unit
/// interval: `a * b / 1000`, truncated.
pub fn unit_mul(a: i64, b: i64) -> (r: i64)
    requires
        0 <= a <= 1000,
        0 <= b <= 1000,
    ensures
        r == (a as int * (b as int)) / 1000,
        0 <= r <= 1000,
{
    proof {
        assert(0 <= a as int * (b as int) <= 1_000_000) by (nonlinear_arith)
            requires
                0 <= a as int <= 1000,
                0 <= b as int <= 1000,
        ;
    }
    (((a as u64) * (b as u64)) / 1000) as i64
}

/// Midpoint map from a clamped noise sample in [-1000, 1000] to the unit
/// interval: `(n + 1000) / 2`.
pub fn half_up(n: i64) -> (r: i64)
    requires
        -1000 <= n <= 1000,
    ensures
        r == (n as int + 1000) / 2,
        0 <= r <= 1000,
{
    (((n + 1000) as u64) / 2) as i64
}

/// Absolute value of a small milli value.
pub fn iabs_small(n: i64) -> (r: i64)
    requires
        -1_000_000_000 <= n <= 1_000_000_000,
    ensures
        r as int == iabs(n as int),
{
    if n >= 0 {
        n
    } else {
        -n
    }
}

/// Absolute value of any `i64`, widened so the minimum value needs no
/// special case.
pub fn abs_u64(n: i64) -> (r: u64)
    ensures
        r as int == iabs(n as int),
{
    if n >= 0 {
        n as u64
    } else {
        (-(n as i128)) as u64
    }
}

/// Floor of the square root, defined inductively.
pub open spec fn sqrt_floor(s: nat) -> nat
    decreases s,
{
    if s == 0 {
        0
    } else {
        let r = sqrt_floor((s - 1) as nat);
        if (r + 1) * (r + 1) <= s {
            r + 1
        } else {
            r
        }
    }
}

/// `sqrt_floor(s)` squares to at most `s`, and the next integer squares past
/// it.
pub proof fn lemma_sqrt_floor(s: nat)
    ensures
        sqrt_floor(s) * sqrt_floor(s) <= s,
        s < (sqrt_floor(s) + 1) * (sqrt_floor(s) + 1),
    decreases s,
{
    if s != 0 {
        lemma_sqrt_floor((s - 1) as nat);
        let r = sqrt_floor((s - 1) as nat);
        if (r + 1) * (r + 1) <= s {
            assert(sqrt_floor(s) == r + 1);
            assert(sqrt_floor(s) * sqrt_floor(s) <= s) by (nonlinear_arith)
                requires
                    sqrt_floor(s) == r + 1,
                    (r + 1) * (r + 1) <= s,
            ;
            assert(s < (sqrt_floor(s) + 1) * (sqrt_floor(s) + 1)) by (nonlinear_arith)
                requires
                    sqrt_floor(s) == r + 1,
                    s <= (r + 1) * (r + 1),
            ;
        } else {
            assert(sqrt_floor(s) == r);
            assert(sqrt_floor(s) * sqrt_floor(s) <= s) by (nonlinear_arith)
                requires
                    sqrt_floor(s) == r,
                    r * r <= s,
            ;
            assert(s < (sqrt_floor(s) + 1) * (sqrt_floor(s) + 1)) by (nonlinear_arith)
                requires
                    sqrt_floor(s) == r,
                    s < (r + 1) * (r + 1),
            ;
        }
    } else {
        assert(sqrt_floor(s) == 0);
        assert(sqrt_floor(s) * sqrt_floor(s) <= s && s < (sqrt_floor(s) + 1) * (sqrt_floor(s) + 1))
            by (nonlinear_arith)
            requires
                sqrt_floor(s) == 0,
                s == 0,
        ;
    }
}

/// Any `r` with `r * r <= s < (r + 1) * (r + 1)` is `sqrt_floor(s)`.
pub proof fn lemma_sqrt_floor_unique(s: nat, r: nat)
    requires
        r * r <= s,
        s < (r + 1) * (r + 1),
    ensures
        r == sqrt_floor(s),
{
    lemma_sqrt_floor(s);
    let q = sqrt_floor(s);
    assert(r == q) by (nonlinear_arith)
        requires
            r * r <= s,
            s < (r + 1) * (r + 1),
            q * q <= s,
            s < (q + 1) * (q + 1),
            r >= 0,
            q >= 0,
    ;
}

/// Floor square root of a 128-bit value by binary search; the result always
/// fits in 64 bits.
pub fn isqrt_u128(s: u128) -> (r: u64)
    ensures
        r as nat == sqrt_floor(s as nat),
{
    let mut lo: u128 = 0;
    let mut hi: u128 = 0x1_0000_0000_0000_0000;
    proof {
        assert((s as int) < 0x1_0000_0000_0000_0000 * 0x1_0000_0000_0000_0000);
    }
    while lo + 1 < hi
        invariant
            lo < hi <= 0x1_0000_0000_0000_0000,
            (lo as int) * (lo as int) <= s as int,
            (s as int) < (hi as int) * (hi as int),
        decreases hi - lo,
    {
        let mid: u128 = lo + (hi - lo) / 2;
        proof {
            assert((mid as int) * (mid as int) <= u128::MAX as int) by (nonlinear_arith)
                requires
                    0 <= mid as int,
                    (mid as int) < 0x1_0000_0000_0000_0000,
            ;
        }
        let sq: u128 = mid * mid;
        if sq <= s {
            lo = mid;
        } else {
            hi = mid;
        }
    }
    proof {
        lemma_sqrt_floor_unique(s as nat, lo as nat);
    }
    lo as u64
}

/// The fifth power.
pub open spec fn pow5(r: int) -> int {
    r * r * r * r * r
}

/// The fifth power does not decrease on nonnegative arguments, and increases
/// strictly with its argument.
pub proof fn lemma_pow5_le(a: int, b: int)
    requires
        0 <= a <= b,
    ensures
        pow5(a) <= pow5(b),
        a < b ==> pow5(a) < pow5(b),
{
    assert(a * a * a * a * a <= b * b * b * b * b && (a < b ==> a * a * a * a * a < b * b * b * b
        * b)) by (nonlinear_arith)
        requires
            0 <= a <= b,
    ;
}

/// Floor of the fifth root, defined inductively.
pub open spec fn root5_floor(t: nat) -> nat
    decreases t,
{
    if t == 0 {
        0
    } else {
        let r = root5_floor((t - 1) as nat);
        if pow5(r as int + 1) <= t {
            r + 1
        } else {
            r
        }
    }
}

/// `root5_floor(t)` raised to the fifth stays within `t`, and the next
/// integer's fifth power passes it.
pub proof fn lemma_root5_floor(t: nat)
    ensures
        pow5(root5_floor(t) as int) <= t,
        t < pow5(root5_floor(t) as int + 1),
    decreases t,
{
    if t != 0 {
        lemma_root5_floor((t - 1) as nat);
        let r = root5_floor((t - 1) as nat) as int;
        if pow5(r + 1) <= t {
            assert(root5_floor(t) == r + 1);
            lemma_pow5_le(r + 1, r + 2);
            assert(pow5(root5_floor(t) as int) <= t && t < pow5(root5_floor(t) as int + 1))
                by (nonlinear_arith)
                requires
                    root5_floor(t) as int == r + 1,
                    pow5(r + 1) <= t,
                    t < pow5(r + 2),
            ;
        } else {
            assert(root5_floor(t) == r);
            assert(pow5(root5_floor(t) as int) <= t && t < pow5(root5_floor(t) as int + 1))
                by (nonlinear_arith)
                requires
                    root5_floor(t) as int == r,
                    pow5(r) <= t,
                    t < pow5(r + 1),
            ;
        }
    } else {
        assert(root5_floor(t) == 0);
        assert(pow5(0) == 0);
        assert(pow5(root5_floor(t) as int) <= t && t < pow5(root5_floor(t) as int + 1))
            by (nonlinear_arith)
            requires
                root5_floor(t) as int == 0,
                t == 0,
                pow5(0) == 0,
                pow5(1) == 1,
        ;
    }
}

/// Any `r` whose fifth power brackets `t` is `root5_floor(t)`.
pub proof fn lemma_root5_floor_unique(t: nat, r: nat)
    requires
        pow5(r as int) <= t,
        t < pow5(r as int + 1),
    ensures
        r == root5_floor(t),
{
    lemma_root5_floor(t);
    let q = root5_floor(t);
    if r < q {
        lemma_pow5_le(r as int + 1, q as int);
        assert(false);
    }
    if q < r {
        lemma_pow5_le(q as int + 1, r as int);
        assert(false);
    }
}

/// The milli intensity raised to the 4/5 power: the unique `r` with
/// `r^5 <= i^4 * 1000 < (r + 1)^5`, so `r / 1000` is the floor-exact fixed
/// point value of `(i / 1000)^0.8`.
pub fn pow45(i: i64) -> (r: i64)
    requires
        0 <= i <= 1000,
    ensures
        r as nat == root5_floor((i as int * (i as int) * (i as int) * (i as int) * 1000) as nat),
        0 <= r <= 1000,
{
    let iu: u64 = i as u64;
    proof {
        assert(0 <= iu as int * (iu as int) <= 1_000_000 && 0 <= iu as int * (iu as int) * (
        iu as int) <= 1_000_000_000 && 0 <= iu as int * (iu as int) * (iu as int) * (iu as int)
            <= 1_000_000_000_000 && 0 <= iu as int * (iu as int) * (iu as int) * (iu as int) * 1000
            <= 1_000_000_000_000_000) by (nonlinear_arith)
            requires
                0 <= iu as int <= 1000,
        ;
    }
    let t: u64 = iu * iu * iu * iu * 1000;
    let mut r: u64 = 1000;
    while r * r * r * r * r > t
        invariant
            r <= 1000,
            r * r <= 1_000_000,
            r * r * r <= 1_000_000_000,
            r * r * r * r <= 1_000_000_000_000,
            r * r * r * r * r <= 1_000_000_000_000_000,
            t as int <= 1_000_000_000_000_000,
            (t as int) < pow5(r as int + 1),
        decreases r,
    {
        proof {
            if r == 0 {
                assert(r as int * (r as int) * (r as int) * (r as int) * (r as int) == 0)
                    by (nonlinear_arith)
                    requires
                        r as int == 0,
                ;
                assert(false);
            }
        }
        r = r - 1;
        proof {
            assert(r as int * (r as int) <= 1_000_000 && r as int * (r as int) * (r as int)
                <= 1_000_000_000 && r as int * (r as int) * (r as int) * (r as int)
                <= 1_000_000_000_000 && r as int * (r as int) * (r as int) * (r as int) * (
            r as int) <= 1_000_000_000_000_000) by (nonlinear_arith)
                requires
                    0 <= r as int <= 1000,
            ;
        }
    }
    proof {
        lemma_root5_floor_unique(t as nat, r as nat);
    }
    r as i64
}

/// The Bhaskara rational approximation of the sine over a half period, in
/// milli units: its argument is an angle in [0, 3142] milli radians and its
/// value is in [0, 1000], reaching exactly 1000 at the midpoint 1571.
pub open spec fn bhaskara(u: int) -> int {
    (16000 * (u * (3142 - u))) / (49360820 - 4 * (u * (3142 - u)))
}

/// The fixed-point sine: the angle is reduced modulo the milli period 6284,
/// the first half period maps through the Bhaskara approximation and the
/// second half is its negation. The value is always in [-1000, 1000].
pub open spec fn spec_sin(x: int) -> int {
    let m = x % 6284;
    if m < 3142 {
        bhaskara(m)
    } else {
        -bhaskara(m - 3142)
    }
}

/// Executable Bhaskara half-period sine.
fn bhaskara_exec(u: u64) -> (r: i64)
    requires
        u <= 3142,
    ensures
        r == bhaskara(u as int),
        0 <= r <= 1000,
{
    proof {
        assert(0 <= u as int * (3142 - u as int) <= 2468041) by (nonlinear_arith)
            requires
                0 <= u as int <= 3142,
        ;
    }
    let v: u64 = u * (3142 - u);
    let num: u64 = 16000 * v;
    let den: u64 = 49360820 - 4 * v;
    let q: u64 = num / den;
    proof {
        assert(num as int / (den as int) <= 1000) by (nonlinear_arith)
            requires
                num as int <= 1000 * (den as int),
                den as int > 0,
        ;
    }
    q as i64
}

/// Executable fixed-point sine for angles within one period of zero.
pub fn sin_milli(x: i64) -> (r: i64)
    requires
        -6284 < x < 6284,
    ensures
        r == spec_sin(x as int),
        -1000 <= r <= 1000,
{
    let m: i64 = if x >= 0 {
        x
    } else {
        x + 6284
    };
    proof {
        assert(m as int == (x as int) % 6284);
    }
    let mu: u64 = m as u64;
    if mu < 3142 {
        bhaskara_exec(mu)
    } else {
        -bhaskara_exec(mu - 3142)
    }
}

} // verus!

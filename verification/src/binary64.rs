//! Integer model of IEEE-754 binary64 rounding, as far as the latency
//! read-outs need it: `n as f64 / d as f64` printed with `p` decimals.
//!
//! Every step rounds to nearest with ties to even: the conversion of `n`
//! to a 53-bit significand, the division by `d`, and the final rounding of
//! the exact binary value to `p` decimal places that `format!("{:.p$}")`
//! performs.

use vstd::prelude::*;

verus! {

pub open spec fn two_pow(e: nat) -> nat
    decreases e,
{
    if e == 0 { 1 } else { 2 * two_pow((e - 1) as nat) }
}

pub open spec fn ten_pow(e: nat) -> nat
    decreases e,
{
    if e == 0 { 1 } else { 10 * ten_pow((e - 1) as nat) }
}

/// `floor(log2(n))` for `n >= 1` (0 for `n == 0`).
pub open spec fn log2_floor(n: nat) -> nat
    decreases n,
{
    if n <= 1 { 0 } else { 1 + log2_floor(n / 2) }
}

/// `a / b` rounded to the nearest integer, ties to the even neighbour.
pub open spec fn round_half_even(a: nat, b: nat) -> nat {
    let q = a / b;
    let r = a % b;
    if 2 * r > b {
        q + 1
    } else if 2 * r < b {
        q
    } else if q % 2 == 0 {
        q
    } else {
        q + 1
    }
}

/// The value of `n as f64`: `n` keeps its 53 leading significant bits,
/// rounded to nearest, ties to even.
pub open spec fn f64_value_of(n: nat) -> nat {
    let k = log2_floor(n);
    if k <= 52 {
        n
    } else {
        round_half_even(n, two_pow((k - 52) as nat)) * two_pow((k - 52) as nat)
    }
}

/// Binary scale of the quotient `x / d` (with `x >= d`): the quotient is
/// `quotient_significand(x, d) / 2^quotient_scale(x, d)`.
pub open spec fn quotient_scale(x: nat, d: nat) -> nat {
    (52 - log2_floor(x / d)) as nat
}

/// 53-bit significand of the binary64 quotient `x / d`.
pub open spec fn quotient_significand(x: nat, d: nat) -> nat {
    round_half_even(x * two_pow(quotient_scale(x, d)), d)
}

/// `format!("{:.p$}", n as f64 / d as f64)` as a count of `10^-p` units.
pub open spec fn fixed_units(n: nat, d: nat, p: nat) -> nat {
    let x = f64_value_of(n);
    round_half_even(quotient_significand(x, d) * ten_pow(p), two_pow(quotient_scale(x, d)))
}

// ---------------------------------------------------------------------------
// Lemmas

pub proof fn lemma_two_pow_pos(e: nat)
    ensures
        two_pow(e) >= 1,
    decreases e,
{
    if e > 0 {
        lemma_two_pow_pos((e - 1) as nat);
    }
}

pub proof fn lemma_two_pow_add(a: nat, b: nat)
    ensures
        two_pow(a + b) == two_pow(a) * two_pow(b),
    decreases a,
{
    if a > 0 {
        let a1 = (a - 1) as nat;
        lemma_two_pow_add(a1, b);
        assert(a1 + b + 1 == a + b);
        assert(two_pow(a + b) == 2 * two_pow(a1 + b));
        assert(two_pow(a) == 2 * two_pow(a1));
        assert(2 * (two_pow(a1) * two_pow(b)) == (2 * two_pow(a1)) * two_pow(b)) by (nonlinear_arith);
    } else {
        assert(two_pow(0) == 1);
        assert(two_pow(a) * two_pow(b) == two_pow(b)) by (nonlinear_arith)
            requires
                two_pow(a) == 1,
        ;
    }
}

pub proof fn lemma_two_pow_mono(a: nat, b: nat)
    requires
        a <= b,
    ensures
        two_pow(a) <= two_pow(b),
    decreases b,
{
    if a < b {
        lemma_two_pow_mono(a, (b - 1) as nat);
        lemma_two_pow_pos((b - 1) as nat);
    }
}

pub proof fn lemma_log2_bounds(n: nat)
    requires
        n >= 1,
    ensures
        two_pow(log2_floor(n)) <= n < two_pow(log2_floor(n) + 1),
    decreases n,
{
    if n > 1 {
        lemma_log2_bounds(n / 2);
        let k = log2_floor(n / 2);
        assert(log2_floor(n) == k + 1);
        assert(two_pow(k + 1) == 2 * two_pow(k));
        assert(two_pow(k + 2) == 2 * two_pow(k + 1));
    } else {
        assert(two_pow(1) == 2 * two_pow(0));
    }
}

/// A number below `2^e` has `floor(log2)` below `e`.
pub proof fn lemma_log2_below(n: nat, e: nat)
    requires
        1 <= n < two_pow(e),
    ensures
        log2_floor(n) < e,
{
    lemma_log2_bounds(n);
    if log2_floor(n) >= e {
        lemma_two_pow_mono(e, log2_floor(n));
    }
}

/// A number at least `2^e` has `floor(log2)` at least `e`.
pub proof fn lemma_log2_above(n: nat, e: nat)
    requires
        two_pow(e) <= n,
    ensures
        e <= log2_floor(n),
{
    lemma_two_pow_pos(e);
    lemma_log2_bounds(n);
    if log2_floor(n) < e {
        lemma_two_pow_mono(log2_floor(n) + 1, e);
    }
}

pub proof fn lemma_round_half_even_bounds(a: nat, b: nat)
    requires
        b > 0,
    ensures
        a / b <= round_half_even(a, b) <= a / b + 1,
{
}

/// `round_half_even(a, b)` lies within half of `b`-units of `a / b`:
/// `|2 * b * m - 2 * a| <= b`.
pub proof fn lemma_round_half_even_close(a: nat, b: nat)
    requires
        b > 0,
    ensures
        2 * a <= b * (2 * round_half_even(a, b) + 1),
        2 * b * round_half_even(a, b) <= 2 * a + b,
{
    let q = a / b;
    let r = a % b;
    assert(a == b * q + r) by (nonlinear_arith)
        requires
            b > 0,
            q == a / b,
            r == a % b,
    ;
    let m = round_half_even(a, b);
    if m == q {
        assert(2 * r <= b);
        assert(2 * a <= b * (2 * m + 1)) by (nonlinear_arith)
            requires
                a == b * q + r,
                2 * r <= b,
                m == q,
        ;
        assert(2 * b * m <= 2 * a + b) by (nonlinear_arith)
            requires
                a == b * q + r,
                m == q,
        ;
    } else {
        assert(m == q + 1);
        assert(2 * r >= b);
        assert(2 * a <= b * (2 * m + 1)) by (nonlinear_arith)
            requires
                a == b * q + r,
                r < b,
                m == q + 1,
        ;
        assert(2 * b * m <= 2 * a + b) by (nonlinear_arith)
            requires
                a == b * q + r,
                2 * r >= b,
                m == q + 1,
        ;
    }
}

/// The millisecond read-out is the exact value rounded to a tenth: for
/// `1 ms <= us < 1 s`, the printed tenths `t` satisfy `|100 t - us| <= 50`.
pub proof fn law_millisecond_tenths_accuracy(us: nat)
    requires
        1_000 <= us < 1_000_000,
    ensures
        us <= 100 * fixed_units(us, 1_000, 1) + 50,
        100 * fixed_units(us, 1_000, 1) <= us + 50,
{
    lemma_two_pow_values();
    lemma_log2_below(us, 20);
    assert(f64_value_of(us) == us);
    let q = us / 1_000;
    assert(1 <= q < 1_024);
    assert(two_pow(10) == 1_024) by {
        reveal_with_fuel(two_pow, 11);
    };
    lemma_log2_below(q, 10);
    let k2 = log2_floor(q);
    let s = quotient_scale(us, 1_000);
    assert(s == 52 - k2 && s >= 43);
    let p = two_pow(s);
    lemma_two_pow_mono(43, s);
    assert(two_pow(43) >= 1_000) by {
        lemma_two_pow_mono(10, 43);
    };
    let m = quotient_significand(us, 1_000);
    assert(m == round_half_even(us * p, 1_000));
    lemma_round_half_even_close(us * p, 1_000);
    assert(ten_pow(1) == 10) by {
        assert(ten_pow(0) == 1);
    };
    let t = fixed_units(us, 1_000, 1);
    assert(t == round_half_even(m * 10, p));
    lemma_round_half_even_close(m * 10, p);
    // 100 t p - us p = 100 (t p - 10 m) + (1000 m - us p), so
    // |100 t - us| * p <= 50 p + 500 < 51 p.
    assert(us * p <= (100 * t + 50) * p + 500) by (nonlinear_arith)
        requires
            2 * (us * p) <= 1_000 * (2 * m + 1),
            2 * (m * 10) <= p * (2 * t + 1),
    ;
    assert((100 * t) * p <= (us + 50) * p + 500) by (nonlinear_arith)
        requires
            2 * 1_000 * m <= 2 * (us * p) + 1_000,
            2 * p * t <= 2 * (m * 10) + p,
    ;
    assert(us <= 100 * t + 50) by (nonlinear_arith)
        requires
            us * p <= (100 * t + 50) * p + 500,
            p >= 1_000,
    ;
    assert(100 * t <= us + 50) by (nonlinear_arith)
        requires
            (100 * t) * p <= (us + 50) * p + 500,
            p >= 1_000,
    ;
}

/// The seconds read-out is the exact value rounded to `p` decimals, up to the
/// float error of the division: for `1 s <= us < 2^53 us` and `p <= 2`, the
/// printed units `t` of `10^-p` s satisfy `|10^6 t - 10^p us| <= 500_100`
/// (half a unit is 500_000).
pub proof fn law_second_readout_accuracy(us: nat, p: nat)
    requires
        1_000_000 <= us < 0x20_0000_0000_0000,
        p <= 2,
    ensures
        ten_pow(p) * us <= 1_000_000 * fixed_units(us, 1_000_000, p) + 500_100,
        1_000_000 * fixed_units(us, 1_000_000, p) <= ten_pow(p) * us + 500_100,
{
    lemma_two_pow_values();
    lemma_log2_below(us, 53);
    assert(f64_value_of(us) == us);
    let q = us / 1_000_000;
    assert(two_pow(34) == 0x4_0000_0000 && two_pow(19) == 0x8_0000) by {
        reveal_with_fuel(two_pow, 35);
    };
    assert(1 <= q < 0x4_0000_0000);
    lemma_log2_below(q, 34);
    let k2 = log2_floor(q);
    let sc = quotient_scale(us, 1_000_000);
    assert(sc == 52 - k2 && sc >= 19);
    let pw = two_pow(sc);
    lemma_two_pow_mono(19, sc);
    let tp = ten_pow(p);
    assert(1 <= tp <= 100) by {
        reveal_with_fuel(ten_pow, 3);
    };
    let m = quotient_significand(us, 1_000_000);
    assert(m == round_half_even(us * pw, 1_000_000));
    lemma_round_half_even_close(us * pw, 1_000_000);
    let t = fixed_units(us, 1_000_000, p);
    assert(t == round_half_even(m * tp, pw));
    lemma_round_half_even_close(m * tp, pw);
    assert(2 * (tp * us) * pw <= 2 * 1_000_000 * t * pw + 1_000_000 * pw + tp * 1_000_000) by (nonlinear_arith)
        requires
            2 * (us * pw) <= 1_000_000 * (2 * m + 1),
            2 * (m * tp) <= pw * (2 * t + 1),
            tp >= 1,
    ;
    assert(2 * 1_000_000 * t * pw <= 2 * (tp * us) * pw + 1_000_000 * pw + tp * 1_000_000) by (nonlinear_arith)
        requires
            2 * 1_000_000 * m <= 2 * (us * pw) + 1_000_000,
            2 * pw * t <= 2 * (m * tp) + pw,
            tp >= 1,
    ;
    assert(tp * us <= 1_000_000 * t + 500_100) by (nonlinear_arith)
        requires
            2 * (tp * us) * pw <= 2 * 1_000_000 * t * pw + 1_000_000 * pw + tp * 1_000_000,
            pw >= 0x8_0000,
            tp <= 100,
    ;
    assert(1_000_000 * t <= tp * us + 500_100) by (nonlinear_arith)
        requires
            2 * 1_000_000 * t * pw <= 2 * (tp * us) * pw + 1_000_000 * pw + tp * 1_000_000,
            pw >= 0x8_0000,
            tp <= 100,
    ;
}

pub proof fn lemma_two_pow_values()
    ensures
        two_pow(20) == 0x10_0000,
        two_pow(52) == 0x10_0000_0000_0000,
        two_pow(53) == 0x20_0000_0000_0000,
        two_pow(64) == 0x1_0000_0000_0000_0000,
        two_pow(65) == 0x2_0000_0000_0000_0000,
{
    reveal_with_fuel(two_pow, 66);
}

// ---------------------------------------------------------------------------
// Executable counterparts

fn log2_floor_exec(n: u128) -> (k: u32)
    requires
        1 <= n <= two_pow(64),
    ensures
        k as nat == log2_floor(n as nat),
        k <= 64,
{
    proof {
        lemma_two_pow_values();
        lemma_log2_below(n as nat, 65);
    }
    let mut m: u128 = n;
    let mut k: u32 = 0;
    while m > 1
        invariant
            m >= 1,
            k + log2_floor(m as nat) == log2_floor(n as nat),
            k as nat + log2_floor(m as nat) <= 64,
        decreases m,
    {
        proof {
            lemma_log2_bounds(m as nat);
        }
        m = m / 2;
        k = k + 1;
    }
    k
}

fn two_pow_exec(e: u32) -> (p: u128)
    requires
        e <= 64,
    ensures
        p as nat == two_pow(e as nat),
{
    let mut p: u128 = 1;
    let mut i: u32 = 0;
    while i < e
        invariant
            i <= e <= 64,
            p as nat == two_pow(i as nat),
        decreases e - i,
    {
        proof {
            lemma_two_pow_mono((i + 1) as nat, 64);
            lemma_two_pow_values();
        }
        p = p * 2;
        i = i + 1;
    }
    p
}

fn round_half_even_exec(a: u128, b: u128) -> (r: u128)
    requires
        b > 0,
    ensures
        r as nat == round_half_even(a as nat, b as nat),
{
    let q = a / b;
    let rem = a % b;
    if b >= 2 {
        assert(q <= a / 2) by (nonlinear_arith)
            requires
                q == a / b,
                b >= 2,
        ;
    }
    if rem > b - rem {
        q + 1
    } else if rem < b - rem {
        q
    } else if q % 2 == 0 {
        q
    } else {
        q + 1
    }
}

/// `format!("{:.p$}", n as f64 / d as f64)` as a count of `10^-p` units, for
/// quotients whose binary exponent is at most 52.
pub fn fixed_units_exec(n: u64, d: u64, p: u32) -> (t: u64)
    requires
        1 <= d <= 1_000_000,
        d <= n,
        p <= 2,
        n < two_pow(53) || d >= 4096,
    ensures
        t as nat == fixed_units(n as nat, d as nat, p as nat),
{
    proof {
        lemma_two_pow_values();
        lemma_log2_bounds(n as nat);
    }
    let k = log2_floor_exec(n as u128);
    if k >= 64 {
        proof {
            lemma_two_pow_mono(64, k as nat);
        }
    }
    let x: u128 = if k <= 52 {
        n as u128
    } else {
        let s = k - 52;
        let pw = two_pow_exec(s);
        proof {
            lemma_two_pow_pos(s as nat);
        }
        let m = round_half_even_exec(n as u128, pw);
        proof {
            lemma_two_pow_add(s as nat, 53);
            lemma_two_pow_add(s as nat, 52);
            lemma_round_half_even_bounds(n as nat, pw as nat);
            // n < 2^(k+1) = 2^53 * 2^s, so n / 2^s < 2^53 and the rounded
            // significand is at most 2^53.
            assert((n as nat) / (pw as nat) < two_pow(53)) by (nonlinear_arith)
                requires
                    (n as nat) < two_pow(53) * (pw as nat),
                    pw > 0,
            ;
            assert(m * pw <= two_pow(53) * pw) by (nonlinear_arith)
                requires
                    m <= two_pow(53),
            ;
            assert(two_pow(53) * (pw as nat) <= two_pow(64)) by {
                lemma_two_pow_mono(s as nat + 53, 64);
            };
            // n >= 2^k = 2^52 * 2^s, so the significand is at least 2^52.
            assert((n as nat) / (pw as nat) >= two_pow(52)) by (nonlinear_arith)
                requires
                    (n as nat) >= two_pow(52) * (pw as nat),
                    pw > 0,
            ;
            assert(m * pw >= two_pow(52) * pw) by (nonlinear_arith)
                requires
                    m >= two_pow(52),
            ;
            assert(two_pow(52) * (pw as nat) >= two_pow(53)) by {
                lemma_two_pow_mono(53, s as nat + 52);
            };
        }
        m * pw
    };
    assert(x as nat == f64_value_of(n as nat));
    assert(x <= two_pow(64));
    assert(x >= d);
    let dd = d as u128;
    let q = x / dd;
    assert(q >= 1) by (nonlinear_arith)
        requires
            x >= dd,
            dd >= 1,
            q == x / dd,
    ;
    let k2 = log2_floor_exec(q);
    proof {
        if n < two_pow(53) {
            if k > 52 {
                lemma_log2_above(n as nat, 53);
            }
            assert(q <= x) by (nonlinear_arith)
                requires
                    q == x / dd,
                    dd >= 1,
            ;
            lemma_log2_below(q as nat, 53);
        } else {
            assert(q <= two_pow(52)) by (nonlinear_arith)
                requires
                    q == x / dd,
                    dd >= 4096,
                    x <= two_pow(64),
                    two_pow(64) == 4096 * two_pow(52),
            ;
            if q < two_pow(52) {
                lemma_log2_below(q as nat, 52);
            } else {
                lemma_log2_below(q as nat, 53);
            }
        }
    }
    assert(k2 <= 52);
    let s2 = 52 - k2;
    let pw2 = two_pow_exec(s2);
    proof {
        lemma_two_pow_pos(s2 as nat);
        lemma_log2_bounds(q as nat);
        lemma_two_pow_add(k2 as nat + 1, s2 as nat);
        assert(k2 + 1 + s2 == 53);
        // x / d < 2^(k2+1) gives x < d * 2^(k2+1), hence x * 2^s2 < d * 2^53.
        assert(x < dd * two_pow(k2 as nat + 1)) by (nonlinear_arith)
            requires
                q == x / dd,
                dd >= 1,
                q < two_pow(k2 as nat + 1),
        ;
        assert(x * pw2 < dd * two_pow(53)) by (nonlinear_arith)
            requires
                x < dd * two_pow(k2 as nat + 1),
                pw2 == two_pow(s2 as nat),
                two_pow(53) == two_pow(k2 as nat + 1) * two_pow(s2 as nat),
                pw2 >= 1,
        ;
        assert(dd * two_pow(53) <= 0x10_0000 * two_pow(53)) by (nonlinear_arith)
            requires
                dd <= 0x10_0000,
        ;
    }
    let a = x * pw2;
    let m2 = round_half_even_exec(a, dd);
    proof {
        lemma_round_half_even_bounds(a as nat, dd as nat);
        assert(a / dd < two_pow(53)) by (nonlinear_arith)
            requires
                a < dd * two_pow(53),
                dd >= 1,
        ;
    }
    assert(m2 <= two_pow(53));
    let tp: u128 = if p == 0 { 1 } else if p == 1 { 10 } else { 100 };
    assert(tp as nat == ten_pow(p as nat)) by {
        assert(ten_pow(0) == 1);
        assert(ten_pow(1) == 10 * ten_pow(0));
        assert(ten_pow(2) == 10 * ten_pow(1));
    };
    let scaled = m2 * tp;
    let t = round_half_even_exec(scaled, pw2);
    proof {
        lemma_round_half_even_bounds(scaled as nat, pw2 as nat);
        assert(scaled / pw2 <= scaled) by (nonlinear_arith)
            requires
                pw2 >= 1,
        ;
    }
    assert(t <= 100 * two_pow(53) + 1);
    assert(quotient_scale(x as nat, d as nat) == s2);
    t as u64
}

} // verus!

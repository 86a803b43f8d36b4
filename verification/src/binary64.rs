//! Binary64 (IEEE 754 double precision) arithmetic on positive normal
//! values, carried out exactly on integers: the conversion of a count, the
//! quotient of two values, the product with 100, the comparison of two
//! values and the rounding to a whole number that `{:.0}` prints. Every
//! operation rounds its exact result to the nearest double, ties to even.
use vstd::prelude::*;

verus! {

/// `2^k`.
pub open spec fn two_to(k: nat) -> nat
    decreases k,
{
    if k == 0 {
        1
    } else {
        2 * two_to((k - 1) as nat)
    }
}

pub proof fn lemma_two_to_pos(k: nat)
    ensures
        two_to(k) >= 1,
    decreases k,
{
    if k > 0 {
        lemma_two_to_pos((k - 1) as nat);
    }
}

pub proof fn lemma_two_to_grows(j: nat, k: nat)
    requires
        j <= k,
    ensures
        two_to(j) <= two_to(k),
        j < k ==> 2 * two_to(j) <= two_to(k),
    decreases k,
{
    lemma_two_to_pos(k);
    if j < k {
        lemma_two_to_grows(j, (k - 1) as nat);
    }
}

pub proof fn lemma_two_to_adds(j: nat, k: nat)
    ensures
        two_to(j + k) == two_to(j) * two_to(k),
    decreases k,
{
    if k > 0 {
        let k1 = (k - 1) as nat;
        lemma_two_to_adds(j, k1);
        assert(j + k == (j + k1) + 1);
        assert(two_to(j + k) == 2 * two_to(j + k1));
        assert(two_to(k) == 2 * two_to(k1));
        let a = two_to(j);
        let b = two_to(k1);
        assert(a * (2 * b) == 2 * (a * b)) by (nonlinear_arith);
        assert(two_to(j + k) == a * two_to(k));
    } else {
        assert(two_to(k) == 1);
        assert(j + k == j);
        assert(two_to(j) * 1 == two_to(j));
    }
}

/// `a / b` rounded to the nearest whole number, ties to the even one.
pub open spec fn round_even(a: nat, b: nat) -> nat
    recommends
        b > 0,
{
    let q = a / b;
    let r = a % b;
    if 2 * r > b {
        q + 1
    } else if 2 * r < b {
        q
    } else if q % 2 == 0 {
        q
    } else {
        q + 1
    }
}

/// A positive double: the value `mant * 2^exp`.
pub struct Double {
    pub mant: nat,
    pub exp: int,
}

/// A double whose mantissa lies in `2^52 ..= 2^53`.
pub open spec fn normal(d: Double) -> bool {
    0x10_0000_0000_0000 <= d.mant <= 0x20_0000_0000_0000
}

/// How many low bits of `n` a double cannot hold: the least `s` with
/// `n < 2^53 * 2^s`.
pub open spec fn excess_bits(n: nat) -> nat
    decreases n,
{
    if n < 0x20_0000_0000_0000 {
        0
    } else {
        1 + excess_bits(n / 2)
    }
}

/// The double nearest to the whole number `n` (`n as f64`).
pub open spec fn from_count(n: nat) -> Double {
    let s = excess_bits(n);
    Double { mant: round_even(n, two_to(s)), exp: s as int }
}

/// The same value with the mantissa doubled until it is at least `2^52`.
pub open spec fn normalize(d: Double) -> Double
    decreases (if d.mant < 0x10_0000_0000_0000 {
        0x10_0000_0000_0000 - d.mant
    } else {
        0
    }),
{
    if d.mant == 0 || d.mant >= 0x10_0000_0000_0000 {
        d
    } else {
        normalize(Double { mant: 2 * d.mant, exp: d.exp - 1 })
    }
}

/// The double nearest to `a / b` for normal `a` and `b`: their mantissa
/// quotient lies in `1/2 ..= 2`, so it is scaled by `2^52` when it is at
/// least 1 and by `2^53` otherwise before it is rounded.
pub open spec fn quotient(a: Double, b: Double) -> Double {
    if a.mant >= b.mant {
        Double { mant: round_even(a.mant * two_to(52), b.mant), exp: a.exp - b.exp - 52 }
    } else {
        Double { mant: round_even(a.mant * two_to(53), b.mant), exp: a.exp - b.exp - 53 }
    }
}

/// The double nearest to `100 * d` for a normal `d`: the mantissa product
/// lies below `2^60`, so 6 or 7 of its low bits are rounded away.
pub open spec fn times_hundred(d: Double) -> Double {
    let p = d.mant * 100;
    let s: nat = if p < 0x800_0000_0000_0000 {
        6
    } else {
        7
    };
    Double { mant: round_even(p, two_to(s)), exp: d.exp + s }
}

/// `a > b` on the values.
pub open spec fn greater(a: Double, b: Double) -> bool {
    if a.exp >= b.exp {
        a.mant * two_to((a.exp - b.exp) as nat) > b.mant
    } else {
        a.mant > b.mant * two_to((b.exp - a.exp) as nat)
    }
}

/// The value rounded to the nearest whole number, ties to even.
pub open spec fn round_whole(d: Double) -> nat {
    if d.exp >= 0 {
        d.mant * two_to(d.exp as nat)
    } else {
        round_even(d.mant, two_to((-d.exp) as nat))
    }
}

/// The double nearest to `count / items`, as `count as f64 / items as f64`
/// computes it.
pub open spec fn share(count: nat, items: nat) -> Double {
    quotient(normalize(from_count(count)), normalize(from_count(items)))
}

/// The double nearest to `0.4`, as the literal `0.4` denotes it.
pub open spec fn point_four() -> Double {
    share(2, 5)
}

// ---------------------------------------------------------------------------
// Executable counterparts
/// A positive double in executable form.
#[derive(Clone, Copy)]
pub struct DoubleParts {
    pub mant: u64,
    pub exp: i64,
}

impl View for DoubleParts {
    type V = Double;

    open spec fn view(&self) -> Double {
        Double { mant: self.mant as nat, exp: self.exp as int }
    }
}

fn two_to_exec(k: u32) -> (r: u128)
    requires
        k < 127,
    ensures
        r == two_to(k as nat),
{
    let mut r: u128 = 1;
    let mut i: u32 = 0;
    while i < k
        invariant
            i <= k < 127,
            r == two_to(i as nat),
        decreases k - i,
    {
        proof {
            lemma_two_to_grows(i as nat, 126);
            assert(two_to(126) < 0x8000_0000_0000_0000_0000_0000_0000_0000) by {
                lemma_two_to_adds(63, 63);
                lemma_two_to_64();
            }
        }
        r = r * 2;
        i += 1;
    }
    r
}

pub proof fn lemma_two_to_64()
    ensures
        two_to(52) == 0x10_0000_0000_0000,
        two_to(53) == 0x20_0000_0000_0000,
        two_to(54) == 0x40_0000_0000_0000,
        two_to(59) == 0x800_0000_0000_0000,
        two_to(60) == 0x1000_0000_0000_0000,
        two_to(63) == 0x8000_0000_0000_0000,
        two_to(64) == 0x1_0000_0000_0000_0000,
{
    reveal_with_fuel(two_to, 65);
}

fn round_even_exec(a: u128, b: u128) -> (r: u128)
    requires
        b > 0,
        b < 0x8000_0000_0000_0000_0000_0000_0000_0000,
    ensures
        r == round_even(a as nat, b as nat),
{
    let q = a / b;
    let rem = a % b;
    assert(q <= a && (q == a && a > 0 ==> b == 1)) by (nonlinear_arith)
        requires
            q == (a as int) / (b as int),
            b > 0,
            a >= 0,
    ;
    if q == u128::MAX {
        assert(rem == 0);
        return q;
    }
    if 2 * rem > b {
        q + 1
    } else if 2 * rem < b {
        q
    } else if q % 2 == 0 {
        q
    } else {
        q + 1
    }
}

/// The double nearest to the count `n`.
pub fn from_count_exec(n: u64) -> (r: DoubleParts)
    requires
        n >= 1,
    ensures
        r@ == from_count(n as nat),
        1 <= r.mant <= 0x20_0000_0000_0000,
        0 <= r.exp <= 11,
{
    let ghost nn = n as nat;
    let mut x: u128 = n as u128;
    let mut p: u128 = 1;
    let mut s: u32 = 0;
    proof {
        lemma_two_to_64();
    }
    while x >= 0x20_0000_0000_0000
        invariant
            p == two_to(s as nat),
            1 <= p <= 0x1000,
            x == nn / (p as nat),
            s <= 11,
            excess_bits(nn) == s + excess_bits(x as nat),
            s > 0 ==> x >= 0x10_0000_0000_0000,
            nn < 0x1_0000_0000_0000_0000,
        decreases x,
    {
        assert(x * p <= nn) by (nonlinear_arith)
            requires
                x == nn / (p as nat),
                p >= 1,
        ;
        assert(p < 0x800) by (nonlinear_arith)
            requires
                x * p <= nn,
                x >= 0x20_0000_0000_0000,
                nn < 0x1_0000_0000_0000_0000,
        ;
        if s >= 11 {
            proof {
                lemma_two_to_grows(11, s as nat);
                reveal_with_fuel(two_to, 12);
            }
            assert(false);
        }
        proof {
            vstd::arithmetic::div_mod::lemma_div_denominator(nn as int, p as int, 2);
        }
        assert(x / 2 == nn / ((p * 2) as nat));
        x = x / 2;
        p = p * 2;
        s = s + 1;
        assert(two_to(s as nat) == 2 * two_to((s - 1) as nat));
    }
    let mant = round_even_exec(n as u128, p);
    assert(nn / (p as nat) == x);
    assert(mant <= 0x20_0000_0000_0000);
    if s == 0 {
        assert(nn / 1 == nn);
    }
    assert(mant >= 1);
    DoubleParts { mant: mant as u64, exp: s as i64 }
}

/// The same value with a mantissa in `2^52 ..= 2^53`.
pub fn normalize_exec(d: DoubleParts) -> (r: DoubleParts)
    requires
        1 <= d.mant <= 0x20_0000_0000_0000,
        -10000 <= d.exp <= 10000,
    ensures
        r@ == normalize(d@),
        normal(r@),
        d.exp - 52 <= r.exp <= d.exp,
{
    let mut m: u64 = d.mant;
    let mut e: i64 = d.exp;
    while m < 0x10_0000_0000_0000
        invariant
            1 <= m <= 0x20_0000_0000_0000,
            d.exp - 52 <= e <= d.exp,
            -10000 <= d.exp <= 10000,
            m >= two_to((d.exp - e) as nat),
            normalize(Double { mant: m as nat, exp: e as int }) == normalize(d@),
        decreases e - (d.exp - 52),
    {
        if e <= d.exp - 52 {
            proof {
                lemma_two_to_grows(52, (d.exp - e) as nat);
                lemma_two_to_64();
            }
            assert(false);
        }
        proof {
            assert(two_to((d.exp - (e - 1)) as nat) == 2 * two_to((d.exp - e) as nat));
        }
        m = m * 2;
        e = e - 1;
    }
    DoubleParts { mant: m, exp: e }
}

/// The double nearest to the quotient of two normal doubles.
pub fn quotient_exec(a: DoubleParts, b: DoubleParts) -> (r: DoubleParts)
    requires
        normal(a@),
        normal(b@),
        -10000 <= a.exp <= 10000,
        -10000 <= b.exp <= 10000,
    ensures
        r@ == quotient(a@, b@),
        normal(r@),
{
    proof {
        lemma_two_to_64();
    }
    let am = a.mant as u128;
    let bm = b.mant as u128;
    let k: u128 = if am >= bm {
        0x10_0000_0000_0000
    } else {
        0x20_0000_0000_0000
    };
    let big = am * k;
    let q = big / bm;
    let rem = big % bm;
    assert(big == bm * q + rem && 0 <= rem < bm) by (nonlinear_arith)
        requires
            q == (big as int) / (bm as int),
            rem == (big as int) % (bm as int),
            bm > 0,
    ;
    if am >= bm {
        assert(big <= bm * 0x20_0000_0000_0000 && big >= bm * 0x10_0000_0000_0000) by (
        nonlinear_arith)
            requires
                big == am * 0x10_0000_0000_0000,
                bm <= am <= 0x20_0000_0000_0000,
                bm >= 0x10_0000_0000_0000,
        ;
    } else {
        assert(big < bm * 0x20_0000_0000_0000 && big >= bm * 0x10_0000_0000_0000) by (
        nonlinear_arith)
            requires
                big == am * 0x20_0000_0000_0000,
                am < bm <= 0x20_0000_0000_0000,
                am >= 0x10_0000_0000_0000,
        ;
    }
    assert(0x10_0000_0000_0000 <= q <= 0x20_0000_0000_0000 && (q == 0x20_0000_0000_0000
        ==> rem == 0)) by (nonlinear_arith)
        requires
            big == bm * q + rem,
            0 <= rem < bm,
            big <= bm * 0x20_0000_0000_0000,
            big >= bm * 0x10_0000_0000_0000,
            bm > 0,
    ;
    let m = round_even_exec(big, bm);
    let e: i64 = if am >= bm {
        a.exp - b.exp - 52
    } else {
        a.exp - b.exp - 53
    };
    DoubleParts { mant: m as u64, exp: e }
}

/// The double nearest to 100 times a normal double.
pub fn times_hundred_exec(d: DoubleParts) -> (r: DoubleParts)
    requires
        normal(d@),
        -10000 <= d.exp <= 10000,
    ensures
        r@ == times_hundred(d@),
        normal(r@),
{
    proof {
        lemma_two_to_64();
        reveal_with_fuel(two_to, 8);
    }
    let p = (d.mant as u128) * 100;
    if p < 0x800_0000_0000_0000 {
        let m = round_even_exec(p, 64);
        DoubleParts { mant: m as u64, exp: d.exp + 6 }
    } else {
        let m = round_even_exec(p, 128);
        DoubleParts { mant: m as u64, exp: d.exp + 7 }
    }
}

/// Whether the value of `a` exceeds that of `b`.
pub fn greater_exec(a: DoubleParts, b: DoubleParts) -> (r: bool)
    requires
        1 <= a.mant <= 0x20_0000_0000_0000,
        1 <= b.mant <= 0x20_0000_0000_0000,
        -10000 <= a.exp <= 10000,
        -10000 <= b.exp <= 10000,
    ensures
        r == greater(a@, b@),
{
    proof {
        lemma_two_to_64();
    }
    if a.exp >= b.exp {
        let d = a.exp - b.exp;
        if d >= 60 {
            proof {
                lemma_two_to_grows(60, d as nat);
                assert(a.mant * two_to(d as nat) >= two_to(d as nat)) by (nonlinear_arith)
                    requires
                        a.mant >= 1,
                        two_to(d as nat) >= 0,
                ;
            }
            return true;
        }
        let f = two_to_exec(d as u32);
        proof {
            lemma_two_to_grows(d as nat, 59);
            assert(a.mant * f <= 0x20_0000_0000_0000 * 0x800_0000_0000_0000) by (nonlinear_arith)
                requires
                    a.mant <= 0x20_0000_0000_0000,
                    f <= 0x800_0000_0000_0000,
            ;
        }
        (a.mant as u128) * f > b.mant as u128
    } else {
        let d = b.exp - a.exp;
        if d >= 60 {
            proof {
                lemma_two_to_grows(60, d as nat);
                assert(b.mant * two_to(d as nat) >= two_to(d as nat)) by (nonlinear_arith)
                    requires
                        b.mant >= 1,
                        two_to(d as nat) >= 0,
                ;
            }
            return false;
        }
        let f = two_to_exec(d as u32);
        proof {
            lemma_two_to_grows(d as nat, 59);
            assert(b.mant * f <= 0x20_0000_0000_0000 * 0x800_0000_0000_0000) by (nonlinear_arith)
                requires
                    b.mant <= 0x20_0000_0000_0000,
                    f <= 0x800_0000_0000_0000,
            ;
        }
        a.mant as u128 > (b.mant as u128) * f
    }
}

/// The value rounded to the nearest whole number, ties to even.
pub fn round_whole_exec(d: DoubleParts) -> (r: u128)
    requires
        1 <= d.mant <= 0x20_0000_0000_0000,
        -10000 <= d.exp <= 60,
    ensures
        r == round_whole(d@),
{
    proof {
        lemma_two_to_64();
    }
    if d.exp >= 0 {
        let f = two_to_exec(d.exp as u32);
        proof {
            lemma_two_to_grows(d.exp as nat, 60);
            assert(d.mant * f <= 0x20_0000_0000_0000 * 0x1000_0000_0000_0000) by (nonlinear_arith)
                requires
                    d.mant <= 0x20_0000_0000_0000,
                    f <= 0x1000_0000_0000_0000,
            ;
        }
        (d.mant as u128) * f
    } else {
        let e = -d.exp;
        if e >= 60 {
            let ghost b = two_to(e as nat);
            proof {
                lemma_two_to_grows(60, e as nat);
                assert((d.mant as nat) / b == 0 && (d.mant as nat) % b == d.mant) by (
                nonlinear_arith)
                    requires
                        d.mant < b,
                        d.mant >= 0,
                ;
            }
            return 0;
        }
        let f = two_to_exec(e as u32);
        proof {
            lemma_two_to_grows(e as nat, 59);
            lemma_two_to_pos(e as nat);
        }
        round_even_exec(d.mant as u128, f)
    }
}

/// `count as f64 / items as f64`, for positive counts.
pub fn share_exec(count: u64, items: u64) -> (r: DoubleParts)
    requires
        count >= 1,
        items >= 1,
    ensures
        r@ == share(count as nat, items as nat),
        normal(r@),
        -116 <= r.exp <= 11,
{
    let a = normalize_exec(from_count_exec(count));
    let b = normalize_exec(from_count_exec(items));
    quotient_exec(a, b)
}

} // verus!

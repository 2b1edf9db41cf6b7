//! Exact rational scalars.
//!
//! Every physical quantity in this library carries one magnitude of type
//! [`Rat`]: a signed numerator over a positive denominator, kept within
//! machine bounds by cancelling the greatest common divisor after every
//! operation.  The mathematical meaning of a `Rat` is the quotient of two
//! unbounded integers, modelled by the ghost type [`Ratio`]; two values are
//! the same scalar exactly when [`rat_eq`] holds of their models.

use vstd::arithmetic::div_mod::{
    lemma_fundamental_div_mod, lemma_fundamental_div_mod_converse_div,
    lemma_fundamental_div_mod_converse_mod, lemma_mod_self_0, lemma_small_mod,
};
use vstd::prelude::*;

verus! {

/// Largest numerator magnitude and denominator a [`Rat`] may store.  Keeping
/// both factors at or below `2^62` lets any cross product of two stored
/// values, and any sum of two such products, fit in an `i128`.
pub const SCALAR_LIMIT: i64 = 0x4000_0000_0000_0000;

/// Bound on the unreduced intermediates handed to [`Rat::reduce`]: a sum of
/// two products of `SCALAR_LIMIT`-bounded factors, at most `2^125`.
pub const REDUCE_LIMIT: i128 = 0x2000_0000_0000_0000_0000_0000_0000_0000;

/// Ghost model of a rational number: the quotient `num / den` of two
/// unbounded integers.  `den` may be negative or (transiently, for results of
/// [`rat_div`] by zero) zero; every spec operation below is written so that
/// its meaning is the textbook one whenever the denominators involved are
/// nonzero.
pub struct Ratio {
    pub num: int,
    pub den: int,
}

pub open spec fn int_abs(x: int) -> int {
    if x < 0 {
        -x
    } else {
        x
    }
}

/// `a` and `b` denote the same rational: `a.num / a.den == b.num / b.den`,
/// stated by cross multiplication.
pub open spec fn rat_eq(a: Ratio, b: Ratio) -> bool {
    a.num * b.den == b.num * a.den
}

pub open spec fn rat_zero() -> Ratio {
    Ratio { num: 0, den: 1 }
}

pub open spec fn rat_from_int(i: int) -> Ratio {
    Ratio { num: i, den: 1 }
}

pub open spec fn rat_is_zero(a: Ratio) -> bool {
    a.num == 0
}

pub open spec fn rat_neg(a: Ratio) -> Ratio {
    Ratio { num: -a.num, den: a.den }
}

pub open spec fn rat_add(a: Ratio, b: Ratio) -> Ratio {
    Ratio { num: a.num * b.den + b.num * a.den, den: a.den * b.den }
}

pub open spec fn rat_sub(a: Ratio, b: Ratio) -> Ratio {
    Ratio { num: a.num * b.den - b.num * a.den, den: a.den * b.den }
}

pub open spec fn rat_mul(a: Ratio, b: Ratio) -> Ratio {
    Ratio { num: a.num * b.num, den: a.den * b.den }
}

pub open spec fn rat_div(a: Ratio, b: Ratio) -> Ratio {
    Ratio { num: a.num * b.den, den: a.den * b.num }
}

pub open spec fn rat_recip(a: Ratio) -> Ratio {
    Ratio { num: a.den, den: a.num }
}

/// `a < b`, by cross multiplication; meaningful when both denominators are
/// positive, which [`Rat::wf`] guarantees of stored values.
pub open spec fn rat_lt(a: Ratio, b: Ratio) -> bool {
    a.num * b.den < b.num * a.den
}

pub open spec fn rat_le(a: Ratio, b: Ratio) -> bool {
    a.num * b.den <= b.num * a.den
}

pub open spec fn rat_abs(a: Ratio) -> Ratio {
    Ratio { num: int_abs(a.num), den: int_abs(a.den) }
}

/// The parallel combination `a * b / (a + b)`, with the convention that two
/// zero operands combine to zero.  The quotient is written over the common
/// denominator `a.den * b.den`, which cancels:
/// `(ab/(d1 d2)) / ((a d2 + b d1)/(d1 d2)) == ab / (a d2 + b d1)`.
pub open spec fn rat_par(a: Ratio, b: Ratio) -> Ratio {
    if a.num == 0 && b.num == 0 {
        rat_zero()
    } else {
        Ratio { num: a.num * b.num, den: a.num * b.den + b.num * a.den }
    }
}

/// Euclid's greatest common divisor.
pub open spec fn gcd_spec(a: nat, b: nat) -> nat
    decreases b,
{
    if b == 0 {
        a
    } else {
        gcd_spec(b, a % b)
    }
}

/// The canonical representative of `x`: sign moved to the numerator, both
/// components divided by their greatest common divisor.  Degenerate inputs
/// with `den == 0` are left with a zero denominator.
pub open spec fn canon(x: Ratio) -> Ratio {
    let n = if x.den < 0 {
        -x.num
    } else {
        x.num
    };
    let d = int_abs(x.den);
    if d == 0 {
        Ratio { num: n, den: 0 }
    } else {
        let g = gcd_spec(int_abs(n) as nat, d as nat) as int;
        Ratio { num: n / g, den: d / g }
    }
}

/// `x` is a genuine rational whose unreduced components already fit the
/// stored bounds; a sufficient, denominator-sign-insensitive condition for
/// [`representable`].
pub open spec fn in_bounds(x: Ratio) -> bool {
    x.den != 0 && -SCALAR_LIMIT <= x.num <= SCALAR_LIMIT && -SCALAR_LIMIT <= x.den
        <= SCALAR_LIMIT
}

/// `x` is a genuine rational whose canonical representative fits the stored
/// bounds, so a [`Rat`] can hold it exactly.
pub open spec fn representable(x: Ratio) -> bool {
    x.den != 0 && -SCALAR_LIMIT <= canon(x).num <= SCALAR_LIMIT && 1 <= canon(x).den
        <= SCALAR_LIMIT
}

/// Positivity of the gcd, and the fact that it divides both arguments.
pub proof fn lemma_gcd_divides(a: nat, b: nat)
    ensures
        a > 0 || b > 0 ==> gcd_spec(a, b) >= 1,
        gcd_spec(a, b) > 0 ==> a as int % (gcd_spec(a, b) as int) == 0 && b as int % (gcd_spec(
            a,
            b,
        ) as int) == 0,
    decreases b,
{
    let g = gcd_spec(a, b) as int;
    if b == 0 {
        if a > 0 {
            lemma_mod_self_0(a as int);
            lemma_small_mod(0, a);
        }
    } else {
        lemma_gcd_divides(b, a % b);
        if g > 0 {
            lemma_fundamental_div_mod(a as int, b as int);
            lemma_fundamental_div_mod(b as int, g);
            lemma_fundamental_div_mod((a % b) as int, g);
            let q = a as int / b as int;
            let qb = b as int / g;
            let qr = (a % b) as int / g;
            assert(a as int == b as int * q + (a % b));
            assert(b as int == g * qb);
            assert((a % b) as int == g * qr);
            assert(a as int == (qb * q + qr) * g) by (nonlinear_arith)
                requires
                    a as int == b as int * q + (a % b),
                    b as int == g * qb,
                    (a % b) as int == g * qr,
            ;
            assert(qb * q + qr >= 0) by (nonlinear_arith)
                requires
                    (qb * q + qr) * g == a as int,
                    a >= 0,
                    g >= 1,
            ;
            lemma_fundamental_div_mod_converse_mod(a as int, g, qb * q + qr, 0);
        }
    }
}

/// The canonical representative of a genuine rational has a positive
/// denominator, denotes the same rational, and is no larger componentwise
/// than the original.
pub proof fn lemma_canon(x: Ratio)
    requires
        x.den != 0,
    ensures
        1 <= canon(x).den <= int_abs(x.den),
        int_abs(canon(x).num) <= int_abs(x.num),
        rat_eq(canon(x), x),
        rat_is_zero(canon(x)) == rat_is_zero(x),
{
    let n = if x.den < 0 {
        -x.num
    } else {
        x.num
    };
    let d = int_abs(x.den);
    let na = int_abs(n);
    let g = gcd_spec(na as nat, d as nat) as int;
    lemma_gcd_divides(na as nat, d as nat);
    assert(g >= 1);
    lemma_fundamental_div_mod(na, g);
    lemma_fundamental_div_mod(d, g);
    let nq = na / g;
    let dq = d / g;
    assert(na == g * nq);
    assert(d == g * dq);
    assert(nq >= 0 && dq >= 1 && nq <= na && dq <= d && (nq == 0 <==> na == 0)) by (nonlinear_arith)
        requires
            na == g * nq,
            d == g * dq,
            g >= 1,
            na >= 0,
            d >= 1,
    ;
    // Euclidean division of `n` by `g` is exact division, also for negative `n`.
    if n < 0 {
        assert(n == (-nq) * g + 0) by (nonlinear_arith)
            requires
                na == g * nq,
                n == -na,
        ;
        lemma_fundamental_div_mod_converse_div(n, g, -nq, 0);
    } else {
        assert(n == nq * g + 0) by (nonlinear_arith)
            requires
                na == g * nq,
                n == na,
        ;
        lemma_fundamental_div_mod_converse_div(n, g, nq, 0);
    }
    assert(d == dq * g + 0) by (nonlinear_arith)
        requires
            d == g * dq,
    ;
    lemma_fundamental_div_mod_converse_div(d, g, dq, 0);
    // Cross multiplication: (n/g) * x.den == x.num * (d/g).
    assert(canon(x).num * x.den == x.num * canon(x).den) by (nonlinear_arith)
        requires
            na == g * nq,
            d == g * dq,
            canon(x).num == if n < 0 {
                -nq
            } else {
                nq
            },
            canon(x).den == dq,
            n == if x.den < 0 {
                -x.num
            } else {
                x.num
            },
            d == int_abs(x.den),
            na == int_abs(n),
            g >= 1,
    ;
}

/// A rational whose unreduced components fit the bounds is representable.
pub proof fn lemma_in_bounds_representable(x: Ratio)
    requires
        in_bounds(x),
    ensures
        representable(x),
{
    lemma_canon(x);
}

/// `rat_eq` is symmetric.
pub proof fn lemma_rat_eq_sym(a: Ratio, b: Ratio)
    by (nonlinear_arith)
    requires
        rat_eq(a, b),
    ensures
        rat_eq(b, a),
{
}

/// `rat_eq` is transitive across a genuine rational.
pub proof fn lemma_rat_eq_trans(a: Ratio, b: Ratio, c: Ratio)
    by (nonlinear_arith)
    requires
        b.den != 0,
        rat_eq(a, b),
        rat_eq(b, c),
    ensures
        rat_eq(a, c),
{
    assert(a.num * b.den * c.den == b.num * a.den * c.den);
    assert(b.num * c.den * a.den == c.num * b.den * a.den);
}

/// Sums of equal rationals are equal.
pub proof fn lemma_add_cong(a: Ratio, a2: Ratio, b: Ratio, b2: Ratio)
    requires
        rat_eq(a, a2),
        rat_eq(b, b2),
    ensures
        rat_eq(rat_add(a, b), rat_add(a2, b2)),
{
    assert((a.num * b.den) * (a2.den * b2.den) == (a2.num * b2.den) * (a.den * b.den))
        by (nonlinear_arith)
        requires
            a.num * a2.den == a2.num * a.den,
    ;
    assert((b.num * a.den) * (a2.den * b2.den) == (b2.num * a2.den) * (a.den * b.den))
        by (nonlinear_arith)
        requires
            b.num * b2.den == b2.num * b.den,
    ;
    assert((a.num * b.den + b.num * a.den) * (a2.den * b2.den) == (a.num * b.den) * (a2.den
        * b2.den) + (b.num * a.den) * (a2.den * b2.den)) by (nonlinear_arith);
    assert((a2.num * b2.den + b2.num * a2.den) * (a.den * b.den) == (a2.num * b2.den) * (a.den
        * b.den) + (b2.num * a2.den) * (a.den * b.den)) by (nonlinear_arith);
}

/// Differences of equal rationals are equal.
pub proof fn lemma_sub_cong(a: Ratio, a2: Ratio, b: Ratio, b2: Ratio)
    requires
        rat_eq(a, a2),
        rat_eq(b, b2),
    ensures
        rat_eq(rat_sub(a, b), rat_sub(a2, b2)),
{
    lemma_neg_cong(b, b2);
    lemma_add_cong(a, a2, rat_neg(b), rat_neg(b2));
    assert(rat_add(a, rat_neg(b)) == rat_sub(a, b)) by (nonlinear_arith);
    assert(rat_add(a2, rat_neg(b2)) == rat_sub(a2, b2)) by (nonlinear_arith);
}

/// Products of equal rationals are equal.
pub proof fn lemma_mul_cong(a: Ratio, a2: Ratio, b: Ratio, b2: Ratio)
    requires
        rat_eq(a, a2),
        rat_eq(b, b2),
    ensures
        rat_eq(rat_mul(a, b), rat_mul(a2, b2)),
{
    assert((a.num * b.num) * (a2.den * b2.den) == (a2.num * b2.num) * (a.den * b.den))
        by (nonlinear_arith)
        requires
            a.num * a2.den == a2.num * a.den,
            b.num * b2.den == b2.num * b.den,
    ;
}

/// Quotients of equal rationals are equal.
pub proof fn lemma_div_cong(a: Ratio, a2: Ratio, b: Ratio, b2: Ratio)
    requires
        rat_eq(a, a2),
        rat_eq(b, b2),
    ensures
        rat_eq(rat_div(a, b), rat_div(a2, b2)),
{
    assert((a.num * b.den) * (a2.den * b2.num) == (a2.num * b2.den) * (a.den * b.num))
        by (nonlinear_arith)
        requires
            a.num * a2.den == a2.num * a.den,
            b.num * b2.den == b2.num * b.den,
    ;
}

/// Negations of equal rationals are equal.
pub proof fn lemma_neg_cong(a: Ratio, a2: Ratio)
    by (nonlinear_arith)
    requires
        rat_eq(a, a2),
    ensures
        rat_eq(rat_neg(a), rat_neg(a2)),
{
}

/// Reciprocals of equal rationals are equal.
pub proof fn lemma_recip_cong(a: Ratio, a2: Ratio)
    by (nonlinear_arith)
    requires
        rat_eq(a, a2),
    ensures
        rat_eq(rat_recip(a), rat_recip(a2)),
{
}

/// Equal genuine rationals are zero together.
pub proof fn lemma_zero_cong(a: Ratio, a2: Ratio)
    by (nonlinear_arith)
    requires
        a.den != 0,
        a2.den != 0,
        rat_eq(a, a2),
    ensures
        rat_is_zero(a) == rat_is_zero(a2),
{
}

/// Parallel combinations of equal genuine rationals are equal.
pub proof fn lemma_par_cong(a: Ratio, a2: Ratio, b: Ratio, b2: Ratio)
    requires
        a.den != 0,
        a2.den != 0,
        b.den != 0,
        b2.den != 0,
        rat_eq(a, a2),
        rat_eq(b, b2),
    ensures
        rat_eq(rat_par(a, b), rat_par(a2, b2)),
{
    assert(a.num == 0 <==> a2.num == 0) by (nonlinear_arith)
        requires
            a.den != 0,
            a2.den != 0,
            a.num * a2.den == a2.num * a.den,
    ;
    assert(b.num == 0 <==> b2.num == 0) by (nonlinear_arith)
        requires
            b.den != 0,
            b2.den != 0,
            b.num * b2.den == b2.num * b.den,
    ;
    if a.num == 0 && b.num == 0 {
    } else {
        assert((a.num * b.num) * (a2.num * b2.den) == (a2.num * b2.num) * (a.num * b.den))
            by (nonlinear_arith)
            requires
                b.num * b2.den == b2.num * b.den,
        ;
        assert((a.num * b.num) * (b2.num * a2.den) == (a2.num * b2.num) * (b.num * a.den))
            by (nonlinear_arith)
            requires
                a.num * a2.den == a2.num * a.den,
        ;
        assert((a.num * b.num) * (a2.num * b2.den + b2.num * a2.den) == (a.num * b.num) * (a2.num
            * b2.den) + (a.num * b.num) * (b2.num * a2.den)) by (nonlinear_arith);
        assert((a2.num * b2.num) * (a.num * b.den + b.num * a.den) == (a2.num * b2.num) * (a.num
            * b.den) + (a2.num * b2.num) * (b.num * a.den)) by (nonlinear_arith);
    }
}

/// A product of factors bounded by `m` is bounded by `m * m`.
proof fn lemma_mul_bound(a: int, b: int, m: int)
    by (nonlinear_arith)
    requires
        0 <= m,
        -m <= a <= m,
        -m <= b <= m,
    ensures
        -m * m <= a * b <= m * m,
{
}

/// An exact rational scalar: the value `num / den`, with `den` positive and
/// both components within [`SCALAR_LIMIT`].
#[derive(Clone, Copy, Debug)]
pub struct Rat {
    pub num: i64,
    pub den: i64,
}

impl View for Rat {
    type V = Ratio;

    open spec fn view(&self) -> Ratio {
        Ratio { num: self.num as int, den: self.den as int }
    }
}

pub open spec fn rat_wf(r: Rat) -> bool {
    1 <= r.den <= SCALAR_LIMIT && -SCALAR_LIMIT <= r.num <= SCALAR_LIMIT
}

/// Euclid's algorithm, mirroring [`gcd_spec`].
fn gcd_u128(a: u128, b: u128) -> (g: u128)
    ensures
        g as nat == gcd_spec(a as nat, b as nat),
{
    let mut x = a;
    let mut y = b;
    while y != 0
        invariant
            gcd_spec(x as nat, y as nat) == gcd_spec(a as nat, b as nat),
        decreases y,
    {
        let t = x % y;
        x = y;
        y = t;
    }
    x
}

/// Builds the canonical [`Rat`] for the rational `n / d`.
fn reduce(n: i128, d: i128) -> (r: Rat)
    requires
        d != 0,
        -REDUCE_LIMIT <= n <= REDUCE_LIMIT,
        -REDUCE_LIMIT <= d <= REDUCE_LIMIT,
        representable(Ratio { num: n as int, den: d as int }),
    ensures
        rat_wf(r),
        r@ == canon(Ratio { num: n as int, den: d as int }),
{
    let ghost x = Ratio { num: n as int, den: d as int };
    let (n1, d1) = if d < 0 {
        (-n, -d)
    } else {
        (n, d)
    };
    let neg = n1 < 0;
    let na: u128 = if neg {
        (-n1) as u128
    } else {
        n1 as u128
    };
    let du: u128 = d1 as u128;
    let g = gcd_u128(na, du);
    proof {
        lemma_gcd_divides(na as nat, du as nat);
    }
    let nq = na / g;
    let dq = du / g;
    proof {
        lemma_canon(x);
        assert(na as int == int_abs(n1 as int));
        assert(canon(x).den == dq as int && canon(x).num == if neg {
            -(nq as int)
        } else {
            nq as int
        }) by {
            let gi = g as int;
            lemma_fundamental_div_mod(na as int, gi);
            assert(na as int == gi * (na as int / gi));
            assert(nq as int == na as int / gi);
            assert(dq as int == du as int / gi);
            if neg {
                assert((-(na as int)) == (-(nq as int)) * gi + 0) by (nonlinear_arith)
                    requires
                        na as int == gi * (nq as int),
                ;
                lemma_fundamental_div_mod_converse_div(-(na as int), gi, -(nq as int), 0);
            }
        }
    }
    let num_mag = nq as i64;
    let den_small = dq as i64;
    let rnum = if neg {
        -num_mag
    } else {
        num_mag
    };
    Rat { num: rnum, den: den_small }
}

impl Rat {
    /// The scalar zero.
    pub fn zero() -> (r: Rat)
        ensures
            rat_wf(r),
            r@ == rat_zero(),
    {
        Rat { num: 0, den: 1 }
    }

    /// The scalar `i`.
    pub fn from_int(i: i64) -> (r: Rat)
        requires
            -SCALAR_LIMIT <= i <= SCALAR_LIMIT,
        ensures
            rat_wf(r),
            r@ == rat_from_int(i as int),
    {
        Rat { num: i, den: 1 }
    }

    /// The scalar `n / d`, stored canonically.
    pub fn new(n: i64, d: i64) -> (r: Rat)
        requires
            d != 0,
            -SCALAR_LIMIT <= n <= SCALAR_LIMIT,
            -SCALAR_LIMIT <= d <= SCALAR_LIMIT,
        ensures
            rat_wf(r),
            r@ == canon(Ratio { num: n as int, den: d as int }),
            rat_eq(r@, Ratio { num: n as int, den: d as int }),
    {
        proof {
            lemma_in_bounds_representable(Ratio { num: n as int, den: d as int });
            lemma_canon(Ratio { num: n as int, den: d as int });
        }
        reduce(n as i128, d as i128)
    }

    pub fn is_zero(self) -> (b: bool)
        requires
            rat_wf(self),
        ensures
            b == rat_is_zero(self@),
    {
        self.num == 0
    }

    pub fn negate(self) -> (r: Rat)
        requires
            rat_wf(self),
        ensures
            rat_wf(r),
            r@ == rat_neg(self@),
    {
        Rat { num: -self.num, den: self.den }
    }

    /// The absolute value.
    pub fn abs_val(self) -> (r: Rat)
        requires
            rat_wf(self),
        ensures
            rat_wf(r),
            r@ == rat_abs(self@),
    {
        Rat { num: if self.num < 0 {
            -self.num
        } else {
            self.num
        }, den: self.den }
    }

    /// Exact sum.
    pub fn plus(self, rhs: Rat) -> (r: Rat)
        requires
            rat_wf(self),
            rat_wf(rhs),
            representable(rat_add(self@, rhs@)),
        ensures
            rat_wf(r),
            r@ == canon(rat_add(self@, rhs@)),
            rat_eq(r@, rat_add(self@, rhs@)),
    {
        proof {
            lemma_mul_bound(self.num as int, rhs.den as int, SCALAR_LIMIT as int);
            lemma_mul_bound(rhs.num as int, self.den as int, SCALAR_LIMIT as int);
            lemma_mul_bound(self.den as int, rhs.den as int, SCALAR_LIMIT as int);
            lemma_mul_bound(1, 1, SCALAR_LIMIT as int);
            assert(self.den as int * rhs.den as int >= 1) by (nonlinear_arith)
                requires
                    self.den as int >= 1,
                    rhs.den as int >= 1,
            ;
            lemma_canon(rat_add(self@, rhs@));
        }
        let n = (self.num as i128) * (rhs.den as i128) + (rhs.num as i128) * (self.den as i128);
        let d = (self.den as i128) * (rhs.den as i128);
        reduce(n, d)
    }

    /// Exact difference.
    pub fn minus(self, rhs: Rat) -> (r: Rat)
        requires
            rat_wf(self),
            rat_wf(rhs),
            representable(rat_sub(self@, rhs@)),
        ensures
            rat_wf(r),
            r@ == canon(rat_sub(self@, rhs@)),
            rat_eq(r@, rat_sub(self@, rhs@)),
    {
        proof {
            lemma_mul_bound(self.num as int, rhs.den as int, SCALAR_LIMIT as int);
            lemma_mul_bound(rhs.num as int, self.den as int, SCALAR_LIMIT as int);
            lemma_mul_bound(self.den as int, rhs.den as int, SCALAR_LIMIT as int);
            assert(self.den as int * rhs.den as int >= 1) by (nonlinear_arith)
                requires
                    self.den as int >= 1,
                    rhs.den as int >= 1,
            ;
            lemma_canon(rat_sub(self@, rhs@));
        }
        let n = (self.num as i128) * (rhs.den as i128) - (rhs.num as i128) * (self.den as i128);
        let d = (self.den as i128) * (rhs.den as i128);
        reduce(n, d)
    }

    /// Exact product.
    pub fn times(self, rhs: Rat) -> (r: Rat)
        requires
            rat_wf(self),
            rat_wf(rhs),
            representable(rat_mul(self@, rhs@)),
        ensures
            rat_wf(r),
            r@ == canon(rat_mul(self@, rhs@)),
            rat_eq(r@, rat_mul(self@, rhs@)),
    {
        proof {
            lemma_mul_bound(self.num as int, rhs.num as int, SCALAR_LIMIT as int);
            lemma_mul_bound(self.den as int, rhs.den as int, SCALAR_LIMIT as int);
            assert(self.den as int * rhs.den as int >= 1) by (nonlinear_arith)
                requires
                    self.den as int >= 1,
                    rhs.den as int >= 1,
            ;
            lemma_canon(rat_mul(self@, rhs@));
        }
        let n = (self.num as i128) * (rhs.num as i128);
        let d = (self.den as i128) * (rhs.den as i128);
        reduce(n, d)
    }

    /// Exact quotient; the divisor must be nonzero.
    pub fn div_by(self, rhs: Rat) -> (r: Rat)
        requires
            rat_wf(self),
            rat_wf(rhs),
            !rat_is_zero(rhs@),
            representable(rat_div(self@, rhs@)),
        ensures
            rat_wf(r),
            r@ == canon(rat_div(self@, rhs@)),
            rat_eq(r@, rat_div(self@, rhs@)),
    {
        proof {
            lemma_mul_bound(self.num as int, rhs.den as int, SCALAR_LIMIT as int);
            lemma_mul_bound(self.den as int, rhs.num as int, SCALAR_LIMIT as int);
            assert(self.den as int * rhs.num as int != 0) by (nonlinear_arith)
                requires
                    self.den as int >= 1,
                    rhs.num as int != 0,
            ;
            lemma_canon(rat_div(self@, rhs@));
        }
        let n = (self.num as i128) * (rhs.den as i128);
        let d = (self.den as i128) * (rhs.num as i128);
        reduce(n, d)
    }

    /// Exact reciprocal; the operand must be nonzero.
    pub fn recip(self) -> (r: Rat)
        requires
            rat_wf(self),
            !rat_is_zero(self@),
        ensures
            rat_wf(r),
            r@ == canon(rat_recip(self@)),
            rat_eq(r@, rat_recip(self@)),
    {
        proof {
            lemma_in_bounds_representable(rat_recip(self@));
            lemma_canon(rat_recip(self@));
        }
        reduce(self.den as i128, self.num as i128)
    }

    /// The parallel combination `self * rhs / (self + rhs)`, with two zero
    /// operands combining to exactly zero.
    pub fn par(self, rhs: Rat) -> (r: Rat)
        requires
            rat_wf(self),
            rat_wf(rhs),
            rat_is_zero(self@) && rat_is_zero(rhs@) || !rat_is_zero(rat_add(self@, rhs@)),
            representable(rat_par(self@, rhs@)),
        ensures
            rat_wf(r),
            r@ == canon(rat_par(self@, rhs@)),
            rat_eq(r@, rat_par(self@, rhs@)),
    {
        proof {
            lemma_canon(rat_par(self@, rhs@));
        }
        if self.num == 0 && rhs.num == 0 {
            proof {
                reveal_with_fuel(gcd_spec, 3);
            }
            Rat { num: 0, den: 1 }
        } else {
            proof {
                lemma_mul_bound(self.num as int, rhs.num as int, SCALAR_LIMIT as int);
                lemma_mul_bound(self.num as int, rhs.den as int, SCALAR_LIMIT as int);
                lemma_mul_bound(rhs.num as int, self.den as int, SCALAR_LIMIT as int);
            }
            let n = (self.num as i128) * (rhs.num as i128);
            let d = (self.num as i128) * (rhs.den as i128) + (rhs.num as i128) * (self.den
                as i128);
            reduce(n, d)
        }
    }

    /// Strict comparison of the denoted rationals.
    pub fn lt(self, rhs: Rat) -> (b: bool)
        requires
            rat_wf(self),
            rat_wf(rhs),
        ensures
            b == rat_lt(self@, rhs@),
    {
        proof {
            lemma_mul_bound(self.num as int, rhs.den as int, 0x8000_0000_0000_0000);
            lemma_mul_bound(rhs.num as int, self.den as int, 0x8000_0000_0000_0000);
        }
        (self.num as i128) * (rhs.den as i128) < (rhs.num as i128) * (self.den as i128)
    }

    /// Non-strict comparison of the denoted rationals.
    pub fn le(self, rhs: Rat) -> (b: bool)
        requires
            rat_wf(self),
            rat_wf(rhs),
        ensures
            b == rat_le(self@, rhs@),
    {
        proof {
            lemma_mul_bound(self.num as int, rhs.den as int, 0x8000_0000_0000_0000);
            lemma_mul_bound(rhs.num as int, self.den as int, 0x8000_0000_0000_0000);
        }
        (self.num as i128) * (rhs.den as i128) <= (rhs.num as i128) * (self.den as i128)
    }
}

impl PartialEq for Rat {
    /// Value equality of the denoted rationals, by cross multiplication.
    fn eq(&self, other: &Rat) -> (b: bool) {
        proof {
            lemma_mul_bound(self.num as int, other.den as int, 0x8000_0000_0000_0000);
            lemma_mul_bound(other.num as int, self.den as int, 0x8000_0000_0000_0000);
        }
        (self.num as i128) * (other.den as i128) == (other.num as i128) * (self.den as i128)
    }
}

impl vstd::std_specs::cmp::PartialEqSpecImpl for Rat {
    open spec fn obeys_eq_spec() -> bool {
        true
    }

    open spec fn eq_spec(&self, other: &Rat) -> bool {
        rat_eq(self@, other@)
    }
}

} // verus!

//! Algebraic laws of the scalar algebra and of the equivalent-circuit
//! engine, each stated over the spec functions used by the executable
//! contracts and proved for every input its statement admits.

use crate::elec::{
    cct_wf, geq_model, geq_ok, isc_model, isc_ok, norton_wins_spec, parallel_ok, parallel_passive,
    parallel_source, req_model, req_ok, series_norton_source, series_ok, series_passive,
    series_source, voc_model, voc_ok, Cct,
};
use crate::rat::{
    canon, lemma_add_cong, lemma_canon, lemma_div_cong, lemma_mul_cong, lemma_rat_eq_sym,
    lemma_rat_eq_trans, lemma_recip_cong, rat_add, rat_div, rat_eq, rat_is_zero, rat_mul, rat_neg,
    rat_par, rat_recip, rat_sub, rat_zero, Ratio,
};
use vstd::prelude::*;

verus! {

/// Adding and then subtracting the same quantity gives back the original:
/// `a + b - b == a`, exactly.
pub proof fn lemma_add_sub_cancel(a: Ratio, b: Ratio)
    by (nonlinear_arith)
    requires
        a.den != 0,
        b.den != 0,
    ensures
        rat_eq(rat_sub(rat_add(a, b), b), a),
{
}

/// The parallel combination is commutative.
pub proof fn lemma_par_comm(a: Ratio, b: Ratio)
    by (nonlinear_arith)
    ensures
        rat_eq(rat_par(a, b), rat_par(b, a)),
{
}

/// Combining anything in parallel with zero gives exactly zero; in
/// particular `0 (+) 0 == 0`.
pub proof fn lemma_par_zero(a: Ratio)
    by (nonlinear_arith)
    requires
        a.den != 0,
    ensures
        rat_eq(rat_par(a, rat_zero()), rat_zero()),
        rat_par(rat_zero(), rat_zero()) == rat_zero(),
{
}

/// Rational addition is associative, up to `rat_eq`: composing the
/// observable quantities of three one-ports in either association gives the
/// same values, so both series and parallel composition are associative at
/// the level of what they denote.
#[verifier::rlimit(60)]
pub proof fn lemma_add_assoc(a: Ratio, b: Ratio, c: Ratio)
    ensures
        rat_eq(rat_add(rat_add(a, b), c), rat_add(a, rat_add(b, c))),
{
    assert(((a.num * b.den + b.num * a.den) * c.den + c.num * (a.den * b.den)) * (a.den * (b.den
        * c.den)) == (a.num * (b.den * c.den) + (b.num * c.den + c.num * b.den) * a.den) * ((a.den
        * b.den) * c.den)) by (nonlinear_arith);
}

/// Zero is the identity of rational addition.
pub proof fn lemma_add_zero(a: Ratio)
    by (nonlinear_arith)
    requires
        a.den != 0,
    ensures
        rat_eq(rat_add(a, rat_zero()), a),
{
}

/// Negation distributes over addition: negating both sources before a
/// direct-sum composition equals negating the combined source.
pub proof fn lemma_neg_add(a: Ratio, b: Ratio)
    by (nonlinear_arith)
    ensures
        rat_add(rat_neg(a), rat_neg(b)) == rat_neg(rat_add(a, b)),
{
}

/// The weighted source split used by the cross-domain composition branches:
/// `s1 * (p2 / (p1 + p2)) + s2 * (p1 / (p1 + p2))`.
pub open spec fn sum_split(s1: Ratio, p1: Ratio, s2: Ratio, p2: Ratio) -> Ratio {
    let t = rat_add(p1, p2);
    rat_add(rat_mul(s1, rat_div(p2, t)), rat_mul(s2, rat_div(p1, t)))
}

/// Negation distributes over the weighted source split, source terms only:
/// the passive weights are untouched.
pub proof fn lemma_neg_split(s1: Ratio, p1: Ratio, s2: Ratio, p2: Ratio)
    by (nonlinear_arith)
    ensures
        sum_split(rat_neg(s1), p1, rat_neg(s2), p2) == rat_neg(sum_split(s1, p1, s2, p2)),
{
}

/// Thevenin/Norton round trip.  Converting a one-port to the dual
/// coordinates (short-circuit current and equivalent conductance) and back
/// recovers the open-circuit voltage and the equivalent resistance exactly:
/// `isc / geq == voc`, `1 / geq == req`, `1 / req == geq`, and
/// `voc / req == isc`.
pub proof fn lemma_thevenin_norton_round_trip(c: Cct)
    requires
        cct_wf(c),
        geq_ok(c),
        req_ok(c),
    ensures
        rat_eq(rat_div(isc_model(c), geq_model(c)), voc_model(c)),
        rat_eq(rat_recip(geq_model(c)), req_model(c)),
        rat_eq(rat_recip(req_model(c)), geq_model(c)),
        rat_eq(rat_div(voc_model(c), req_model(c)), isc_model(c)),
{
    match c {
        Cct::Thevenin(v, r) => {
            assert(rat_eq(rat_div(rat_div(v.0@, r.0@), rat_recip(r.0@)), v.0@))
                by (nonlinear_arith);
        },
        Cct::Norton(i, g) => {
            assert(rat_eq(rat_div(rat_div(i.0@, g.0@), rat_recip(g.0@)), i.0@))
                by (nonlinear_arith);
        },
    }
}

/// The exact identity behind the cross-domain branches: dividing the
/// weighted source split by the parallel combination of the passives gives
/// the sum of the per-branch source-over-passive quotients, and the
/// reciprocal of the parallel combination is the sum of the reciprocals.
#[verifier::rlimit(100)]
pub proof fn lemma_split_identity(s1: Ratio, p1: Ratio, s2: Ratio, p2: Ratio)
    requires
        s1.den != 0,
        s2.den != 0,
        p1.den != 0,
        p2.den != 0,
        p1.num != 0,
        p2.num != 0,
        !rat_is_zero(rat_add(p1, p2)),
    ensures
        rat_eq(
            rat_div(sum_split(s1, p1, s2, p2), rat_par(p1, p2)),
            rat_add(rat_div(s1, p1), rat_div(s2, p2)),
        ),
        rat_eq(rat_recip(rat_par(p1, p2)), rat_add(rat_recip(p1), rat_recip(p2))),
{
    let t = rat_add(p1, p2);
    let w = sum_split(s1, p1, s2, p2);
    let pp = rat_par(p1, p2);
    let tn = p1.num * p2.den + p2.num * p1.den;
    let td = p1.den * p2.den;
    assert(pp == Ratio { num: p1.num * p2.num, den: tn });
    // Reciprocal law: both sides of the cross multiplication are the same
    // polynomial.
    assert(tn * (p1.num * p2.num) == (p1.den * p2.num + p2.den * p1.num) * (p1.num * p2.num))
        by (nonlinear_arith)
        requires
            tn == p1.num * p2.den + p2.num * p1.den,
    ;
    assert(rat_eq(rat_recip(pp), rat_add(rat_recip(p1), rat_recip(p2))));
    // Source law, by components.  `kk` collects the shared numerator of the
    // weighted split and of the per-branch sum.
    let kk = s1.num * p2.num * (s2.den * p1.den) + s2.num * p1.num * (s1.den * p2.den);
    let wnum = w.num;
    let wden = w.den;
    assert(wnum == (s1.num * (p2.num * td)) * (s2.den * (p1.den * tn)) + (s2.num * (p1.num * td))
        * (s1.den * (p2.den * tn)));
    assert(wden == (s1.den * (p2.den * tn)) * (s2.den * (p1.den * tn)));
    assert((s1.num * (p2.num * td)) * (s2.den * (p1.den * tn)) == td * tn * (s1.num * p2.num
        * (s2.den * p1.den))) by (nonlinear_arith);
    assert((s2.num * (p1.num * td)) * (s1.den * (p2.den * tn)) == td * tn * (s2.num * p1.num
        * (s1.den * p2.den))) by (nonlinear_arith);
    assert(td * tn * (s1.num * p2.num * (s2.den * p1.den)) + td * tn * (s2.num * p1.num * (s1.den
        * p2.den)) == td * tn * kk) by (nonlinear_arith)
        requires
            kk == s1.num * p2.num * (s2.den * p1.den) + s2.num * p1.num * (s1.den * p2.den),
    ;
    assert(wnum == td * tn * kk);
    assert(wden == (s1.den * s2.den * td) * (tn * tn)) by (nonlinear_arith)
        requires
            wden == (s1.den * (p2.den * tn)) * (s2.den * (p1.den * tn)),
            td == p1.den * p2.den,
    ;
    let r = rat_add(rat_div(s1, p1), rat_div(s2, p2));
    let rnum = r.num;
    let rden = r.den;
    assert(rnum == (s1.num * p1.den) * (s2.den * p2.num) + (s2.num * p2.den) * (s1.den * p1.num));
    assert(rnum == kk) by (nonlinear_arith)
        requires
            rnum == (s1.num * p1.den) * (s2.den * p2.num) + (s2.num * p2.den) * (s1.den
                * p1.num),
            kk == s1.num * p2.num * (s2.den * p1.den) + s2.num * p1.num * (s1.den * p2.den),
    ;
    assert(rden == (s1.den * p1.num) * (s2.den * p2.num));
    let cmn = kk * (td * ((tn * tn) * ((s1.den * s2.den) * (p1.num * p2.num))));
    assert(((td * tn * kk) * tn) * ((s1.den * p1.num) * (s2.den * p2.num)) == cmn)
        by (nonlinear_arith)
        requires
            cmn == kk * (td * ((tn * tn) * ((s1.den * s2.den) * (p1.num * p2.num)))),
    ;
    assert(kk * (((s1.den * s2.den * td) * (tn * tn)) * (p1.num * p2.num)) == cmn)
        by (nonlinear_arith)
        requires
            cmn == kk * (td * ((tn * tn) * ((s1.den * s2.den) * (p1.num * p2.num)))),
    ;
    assert((wnum * tn) * rden == rnum * (wden * (p1.num * p2.num)));
    assert(rat_eq(rat_div(w, pp), r));
}

} // verus!

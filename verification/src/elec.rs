//! The Thevenin/Norton equivalent-circuit engine.
//!
//! A [`Cct`] is a linear one-port: either a Thevenin equivalent (an ideal
//! voltage source in series with a resistance) or a Norton equivalent (an
//! ideal current source in parallel with a conductance).  The two forms are
//! interconvertible through the resistance/conductance reciprocal relation,
//! except at the singular points (zero resistance, zero conductance), where
//! the representation in that domain is exact and must be kept.
//!
//! Composition picks the domain to compute in with [`norton_wins`], then
//! combines sources and passives by the series/parallel rules.  Every
//! operation's contract pins the exact rational components of its result;
//! the lemmas at the end of this module relate those components to the
//! observable quantities (open-circuit voltage, short-circuit current and
//! the equivalent passives) of the operands.

use crate::rat::{
    canon, lemma_add_cong, lemma_canon, lemma_div_cong, lemma_in_bounds_representable,
    lemma_mul_cong, lemma_rat_eq_sym, lemma_rat_eq_trans, lemma_recip_cong, rat_add, rat_div,
    rat_eq, rat_is_zero, rat_lt, rat_mul, rat_neg, rat_par, rat_recip, rat_wf, representable, Rat,
    Ratio,
};
use crate::units::{Amp, Ohm, Siemen, Volt};
use vstd::prelude::*;

verus! {

/// A linear one-port in one of its two equivalent representations.
#[derive(Clone, Copy, Debug)]
pub enum Cct {
    /// An ideal voltage source in series with a resistance.
    Thevenin(Volt, Ohm),
    /// An ideal current source in parallel with a conductance.
    Norton(Amp, Siemen),
}

/// Both stored quantities are well-formed scalars.
pub open spec fn cct_wf(c: Cct) -> bool {
    match c {
        Cct::Thevenin(v, r) => v.wf() && r.wf(),
        Cct::Norton(i, g) => i.wf() && g.wf(),
    }
}

/// The short-circuit current of the one-port: `v / r` for a Thevenin form,
/// the stored current for a Norton form.
pub open spec fn isc_model(c: Cct) -> Ratio {
    match c {
        Cct::Thevenin(v, r) => rat_div(v.0@, r.0@),
        Cct::Norton(i, _) => i.0@,
    }
}

/// The open-circuit voltage: the stored voltage for a Thevenin form,
/// `i / g` for a Norton form.
pub open spec fn voc_model(c: Cct) -> Ratio {
    match c {
        Cct::Thevenin(v, _) => v.0@,
        Cct::Norton(i, g) => rat_div(i.0@, g.0@),
    }
}

/// The equivalent resistance: the stored resistance, or the reciprocal of
/// the stored conductance.
pub open spec fn req_model(c: Cct) -> Ratio {
    match c {
        Cct::Thevenin(_, r) => r.0@,
        Cct::Norton(_, g) => rat_recip(g.0@),
    }
}

/// The equivalent conductance: the reciprocal of the stored resistance, or
/// the stored conductance.
pub open spec fn geq_model(c: Cct) -> Ratio {
    match c {
        Cct::Thevenin(_, r) => rat_recip(r.0@),
        Cct::Norton(_, g) => g.0@,
    }
}

/// What [`Cct::i_short`] returns, exactly.
pub open spec fn isc_exec(c: Cct) -> Ratio {
    match c {
        Cct::Thevenin(v, r) => canon(rat_div(v.0@, r.0@)),
        Cct::Norton(i, _) => i.0@,
    }
}

/// What [`Cct::v_open`] returns, exactly.
pub open spec fn voc_exec(c: Cct) -> Ratio {
    match c {
        Cct::Thevenin(v, _) => v.0@,
        Cct::Norton(i, g) => canon(rat_div(i.0@, g.0@)),
    }
}

/// What [`Cct::r_equiv`] returns, exactly.
pub open spec fn req_exec(c: Cct) -> Ratio {
    match c {
        Cct::Thevenin(_, r) => r.0@,
        Cct::Norton(_, g) => canon(rat_recip(g.0@)),
    }
}

/// What [`Cct::g_equiv`] returns, exactly.
pub open spec fn geq_exec(c: Cct) -> Ratio {
    match c {
        Cct::Thevenin(_, r) => canon(rat_recip(r.0@)),
        Cct::Norton(_, g) => g.0@,
    }
}

/// [`Cct::i_short`] is defined: a Thevenin form needs a nonzero resistance
/// and a representable quotient.
pub open spec fn isc_ok(c: Cct) -> bool {
    match c {
        Cct::Thevenin(v, r) => !rat_is_zero(r.0@) && representable(rat_div(v.0@, r.0@)),
        Cct::Norton(_, _) => true,
    }
}

/// [`Cct::v_open`] is defined: a Norton form needs a nonzero conductance
/// and a representable quotient.
pub open spec fn voc_ok(c: Cct) -> bool {
    match c {
        Cct::Thevenin(_, _) => true,
        Cct::Norton(i, g) => !rat_is_zero(g.0@) && representable(rat_div(i.0@, g.0@)),
    }
}

/// [`Cct::r_equiv`] is defined: a Norton form needs a nonzero conductance.
pub open spec fn req_ok(c: Cct) -> bool {
    match c {
        Cct::Thevenin(_, _) => true,
        Cct::Norton(_, g) => !rat_is_zero(g.0@),
    }
}

/// [`Cct::g_equiv`] is defined: a Thevenin form needs a nonzero resistance.
pub open spec fn geq_ok(c: Cct) -> bool {
    match c {
        Cct::Thevenin(_, r) => !rat_is_zero(r.0@),
        Cct::Norton(_, _) => true,
    }
}

impl Cct {
    /// A Thevenin equivalent from a voltage and a series resistance.
    pub fn thevenin(v: Volt, r: Ohm) -> (c: Cct)
        ensures
            c == Cct::Thevenin(v, r),
    {
        Cct::Thevenin(v, r)
    }

    /// A Norton equivalent from a current and a parallel conductance.
    pub fn norton(i: Amp, g: Siemen) -> (c: Cct)
        ensures
            c == Cct::Norton(i, g),
    {
        Cct::Norton(i, g)
    }

    /// The short-circuit current of the one-port.
    pub fn i_short(self) -> (r: Amp)
        requires
            cct_wf(self),
            isc_ok(self),
        ensures
            r.wf(),
            r.0@ == isc_exec(self),
            rat_eq(r.0@, isc_model(self)),
    {
        match self {
            Cct::Thevenin(v, r) => Amp(v.0.div_by(r.0)),
            Cct::Norton(i, _) => i,
        }
    }

    /// The open-circuit voltage of the one-port.
    pub fn v_open(self) -> (r: Volt)
        requires
            cct_wf(self),
            voc_ok(self),
        ensures
            r.wf(),
            r.0@ == voc_exec(self),
            rat_eq(r.0@, voc_model(self)),
    {
        match self {
            Cct::Thevenin(v, _) => v,
            Cct::Norton(i, g) => Volt(i.0.div_by(g.0)),
        }
    }

    /// The equivalent resistance of the one-port.
    pub fn r_equiv(self) -> (r: Ohm)
        requires
            cct_wf(self),
            req_ok(self),
        ensures
            r.wf(),
            r.0@ == req_exec(self),
            rat_eq(r.0@, req_model(self)),
    {
        match self {
            Cct::Thevenin(_, r) => r,
            Cct::Norton(_, g) => g.recip(),
        }
    }

    /// The equivalent conductance of the one-port.
    pub fn g_equiv(self) -> (r: Siemen)
        requires
            cct_wf(self),
            geq_ok(self),
        ensures
            r.wf(),
            r.0@ == geq_exec(self),
            rat_eq(r.0@, geq_model(self)),
    {
        match self {
            Cct::Thevenin(_, r) => r.recip(),
            Cct::Norton(_, g) => g,
        }
    }

    /// Negation of the source; the passive element is unchanged.
    pub fn negate(self) -> (r: Cct)
        requires
            cct_wf(self),
        ensures
            cct_wf(r),
            (match (self, r) {
                (Cct::Thevenin(v, rr), Cct::Thevenin(v2, rr2)) => v2.0@ == rat_neg(v.0@) && rr2
                    == rr,
                (Cct::Norton(i, g), Cct::Norton(i2, g2)) => i2.0@ == rat_neg(i.0@) && g2 == g,
                _ => false,
            }),
    {
        match self {
            Cct::Thevenin(v, r) => Cct::Thevenin(v.negate(), r),
            Cct::Norton(i, g) => Cct::Norton(i.negate(), g),
        }
    }
}

/// The conductance magnitude below which a lone Norton operand pulls a
/// composition into the Norton domain: `1e-9` siemens.
pub open spec fn norton_threshold() -> Ratio {
    Ratio { num: 1, den: 1000000000 }
}

/// The operand is a Norton form whose conductance lies below the threshold.
pub open spec fn small_norton(c: Cct) -> bool {
    match c {
        Cct::Norton(_, g) => rat_lt(g.0@, norton_threshold()),
        Cct::Thevenin(_, _) => false,
    }
}

/// The representation-choice heuristic shared by series and parallel
/// composition: two Thevenin forms stay Thevenin, two Norton forms stay
/// Norton, and a mixed pair moves to the Norton domain only when its Norton
/// side's conductance is below the threshold.
pub open spec fn norton_wins_spec(lhs: Cct, rhs: Cct) -> bool {
    match (lhs, rhs) {
        (Cct::Thevenin(_, _), Cct::Thevenin(_, _)) => false,
        (Cct::Norton(_, _), Cct::Norton(_, _)) => true,
        _ => small_norton(lhs) || small_norton(rhs),
    }
}

/// Decides which domain a composition computes in; see [`norton_wins_spec`].
pub fn norton_wins(lhs: Cct, rhs: Cct) -> (b: bool)
    requires
        cct_wf(lhs),
        cct_wf(rhs),
    ensures
        b == norton_wins_spec(lhs, rhs),
{
    let threshold = Rat { num: 1, den: 1000000000 };
    match (lhs, rhs) {
        (Cct::Thevenin(_, _), Cct::Thevenin(_, _)) => false,
        (Cct::Norton(_, _), Cct::Norton(_, _)) => true,
        (Cct::Norton(_, g), _) => g.0.lt(threshold),
        (_, Cct::Norton(_, g)) => g.0.lt(threshold),
    }
}

/// The source component (current) a series composition computes in the
/// Norton domain: the weighted current split
/// `i1 * (g2 / (g1 + g2)) + i2 * (g1 / (g1 + g2))`,
/// with each intermediate stored canonically.
pub open spec fn series_norton_source(i1: Ratio, g1: Ratio, i2: Ratio, g2: Ratio) -> Ratio {
    let gp = canon(rat_add(g1, g2));
    canon(
        rat_add(
            canon(rat_mul(i1, canon(rat_div(g2, gp)))),
            canon(rat_mul(i2, canon(rat_div(g1, gp)))),
        ),
    )
}

/// The source component of `lhs` in series with `rhs`, exactly as computed.
pub open spec fn series_source(lhs: Cct, rhs: Cct) -> Ratio {
    if norton_wins_spec(lhs, rhs) {
        series_norton_source(isc_exec(lhs), geq_exec(lhs), isc_exec(rhs), geq_exec(rhs))
    } else {
        canon(rat_add(voc_exec(lhs), voc_exec(rhs)))
    }
}

/// The passive component of `lhs` in series with `rhs`, exactly as computed.
pub open spec fn series_passive(lhs: Cct, rhs: Cct) -> Ratio {
    if norton_wins_spec(lhs, rhs) {
        canon(rat_par(geq_exec(lhs), geq_exec(rhs)))
    } else {
        canon(rat_add(req_exec(lhs), req_exec(rhs)))
    }
}

/// Series composition is defined: every intermediate of the chosen branch
/// is defined and representable.
pub open spec fn series_ok(lhs: Cct, rhs: Cct) -> bool {
    if norton_wins_spec(lhs, rhs) {
        let g1 = geq_exec(lhs);
        let g2 = geq_exec(rhs);
        let i1 = isc_exec(lhs);
        let i2 = isc_exec(rhs);
        let gp = canon(rat_add(g1, g2));
        let n1 = canon(rat_div(g2, gp));
        let n2 = canon(rat_div(g1, gp));
        geq_ok(lhs) && geq_ok(rhs) && isc_ok(lhs) && isc_ok(rhs) && !rat_is_zero(rat_add(g1, g2))
            && representable(rat_add(g1, g2)) && representable(rat_par(g1, g2)) && representable(
            rat_div(g2, gp),
        ) && representable(rat_div(g1, gp)) && representable(rat_mul(i1, n1)) && representable(
            rat_mul(i2, n2),
        ) && representable(rat_add(canon(rat_mul(i1, n1)), canon(rat_mul(i2, n2))))
    } else {
        voc_ok(lhs) && voc_ok(rhs) && req_ok(lhs) && req_ok(rhs) && representable(
            rat_add(voc_exec(lhs), voc_exec(rhs)),
        ) && representable(rat_add(req_exec(lhs), req_exec(rhs)))
    }
}

/// The source component of `lhs` in parallel with `rhs`: a direct current
/// sum in the Norton domain, the dual weighted voltage split in the
/// Thevenin domain.
pub open spec fn parallel_source(lhs: Cct, rhs: Cct) -> Ratio {
    if norton_wins_spec(lhs, rhs) {
        canon(rat_add(isc_exec(lhs), isc_exec(rhs)))
    } else {
        series_norton_source(voc_exec(lhs), req_exec(lhs), voc_exec(rhs), req_exec(rhs))
    }
}

/// The passive component of `lhs` in parallel with `rhs`, exactly as
/// computed.
pub open spec fn parallel_passive(lhs: Cct, rhs: Cct) -> Ratio {
    if norton_wins_spec(lhs, rhs) {
        canon(rat_add(geq_exec(lhs), geq_exec(rhs)))
    } else {
        canon(rat_par(req_exec(lhs), req_exec(rhs)))
    }
}

/// Parallel composition is defined: every intermediate of the chosen branch
/// is defined and representable.
pub open spec fn parallel_ok(lhs: Cct, rhs: Cct) -> bool {
    if norton_wins_spec(lhs, rhs) {
        isc_ok(lhs) && isc_ok(rhs) && geq_ok(lhs) && geq_ok(rhs) && representable(
            rat_add(isc_exec(lhs), isc_exec(rhs)),
        ) && representable(rat_add(geq_exec(lhs), geq_exec(rhs)))
    } else {
        let r1 = req_exec(lhs);
        let r2 = req_exec(rhs);
        let v1 = voc_exec(lhs);
        let v2 = voc_exec(rhs);
        let rs = canon(rat_add(r1, r2));
        let n1 = canon(rat_div(r2, rs));
        let n2 = canon(rat_div(r1, rs));
        voc_ok(lhs) && voc_ok(rhs) && req_ok(lhs) && req_ok(rhs) && !rat_is_zero(rat_add(r1, r2))
            && representable(rat_add(r1, r2)) && representable(rat_par(r1, r2)) && representable(
            rat_div(r2, rs),
        ) && representable(rat_div(r1, rs)) && representable(rat_mul(v1, n1)) && representable(
            rat_mul(v2, n2),
        ) && representable(rat_add(canon(rat_mul(v1, n1)), canon(rat_mul(v2, n2))))
    }
}

impl Cct {
    /// Series composition.  In the Thevenin domain voltages and resistances
    /// add directly; in the Norton domain the conductances combine in
    /// parallel and the currents split by the conductance weights.
    pub fn series(self, rhs: Cct) -> (r: Cct)
        requires
            cct_wf(self),
            cct_wf(rhs),
            series_ok(self, rhs),
        ensures
            cct_wf(r),
            r is Norton <==> norton_wins_spec(self, rhs),
            (match r {
                Cct::Thevenin(v, p) => v.0@ == series_source(self, rhs) && p.0@ == series_passive(
                    self,
                    rhs,
                ),
                Cct::Norton(i, p) => i.0@ == series_source(self, rhs) && p.0@ == series_passive(
                    self,
                    rhs,
                ),
            }),
    {
        if norton_wins(self, rhs) {
            let g1 = self.g_equiv();
            let g2 = rhs.g_equiv();
            proof {
                assert(rat_add(g1.0@, g2.0@).den != 0) by (nonlinear_arith)
                    requires
                        g1.0.den as int >= 1,
                        g2.0.den as int >= 1,
                ;
                lemma_canon(rat_add(g1.0@, g2.0@));
            }
            let ge = g1.par(g2);
            let gp = g1.plus(g2);
            let n1 = g2.ratio(gp);
            let n2 = g1.ratio(gp);
            let i1 = self.i_short();
            let i2 = rhs.i_short();
            let ie = i1.scale(n1).plus(i2.scale(n2));
            Cct::Norton(ie, ge)
        } else {
            let ve = self.v_open().plus(rhs.v_open());
            let re = self.r_equiv().plus(rhs.r_equiv());
            Cct::Thevenin(ve, re)
        }
    }

    /// Parallel composition.  In the Norton domain currents and
    /// conductances add directly; in the Thevenin domain the resistances
    /// combine in parallel and the voltages split by the resistance weights.
    pub fn parallel(self, rhs: Cct) -> (r: Cct)
        requires
            cct_wf(self),
            cct_wf(rhs),
            parallel_ok(self, rhs),
        ensures
            cct_wf(r),
            r is Norton <==> norton_wins_spec(self, rhs),
            (match r {
                Cct::Thevenin(v, p) => v.0@ == parallel_source(self, rhs) && p.0@
                    == parallel_passive(self, rhs),
                Cct::Norton(i, p) => i.0@ == parallel_source(self, rhs) && p.0@
                    == parallel_passive(self, rhs),
            }),
    {
        if norton_wins(self, rhs) {
            let ie = self.i_short().plus(rhs.i_short());
            let ge = self.g_equiv().plus(rhs.g_equiv());
            Cct::Norton(ie, ge)
        } else {
            let r1 = self.r_equiv();
            let r2 = rhs.r_equiv();
            proof {
                assert(rat_add(r1.0@, r2.0@).den != 0) by (nonlinear_arith)
                    requires
                        r1.0.den as int >= 1,
                        r2.0.den as int >= 1,
                ;
                lemma_canon(rat_add(r1.0@, r2.0@));
            }
            let re = r1.par(r2);
            let rs = r1.plus(r2);
            let n1 = r2.ratio(rs);
            let n2 = r1.ratio(rs);
            let v1 = self.v_open();
            let v2 = rhs.v_open();
            let ve = v1.scale(n1).plus(v2.scale(n2));
            Cct::Thevenin(ve, re)
        }
    }

    /// A bare resistance in series: the resistor lifts to a zero-voltage
    /// Thevenin form, then composes as usual.
    pub fn series_resistor(self, rhs: Ohm) -> (r: Cct)
        requires
            cct_wf(self),
            rhs.wf(),
            series_ok(self, Cct::Thevenin(Volt(Rat { num: 0, den: 1 }), rhs)),
        ensures
            cct_wf(r),
            r is Norton <==> norton_wins_spec(self, Cct::Thevenin(Volt(Rat { num: 0, den: 1 }), rhs)),
            (match r {
                Cct::Thevenin(v, p) => v.0@ == series_source(
                    self,
                    Cct::Thevenin(Volt(Rat { num: 0, den: 1 }), rhs),
                ) && p.0@ == series_passive(self, Cct::Thevenin(Volt(Rat { num: 0, den: 1 }), rhs)),
                Cct::Norton(i, p) => i.0@ == series_source(
                    self,
                    Cct::Thevenin(Volt(Rat { num: 0, den: 1 }), rhs),
                ) && p.0@ == series_passive(self, Cct::Thevenin(Volt(Rat { num: 0, den: 1 }), rhs)),
            }),
    {
        self.series(Cct::Thevenin(Volt(Rat::zero()), rhs))
    }

    /// A bare resistance in parallel, lifted to a zero-voltage Thevenin form.
    pub fn parallel_resistor(self, rhs: Ohm) -> (r: Cct)
        requires
            cct_wf(self),
            rhs.wf(),
            parallel_ok(self, Cct::Thevenin(Volt(Rat { num: 0, den: 1 }), rhs)),
        ensures
            cct_wf(r),
            r is Norton <==> norton_wins_spec(self, Cct::Thevenin(Volt(Rat { num: 0, den: 1 }), rhs)),
            (match r {
                Cct::Thevenin(v, p) => v.0@ == parallel_source(
                    self,
                    Cct::Thevenin(Volt(Rat { num: 0, den: 1 }), rhs),
                ) && p.0@ == parallel_passive(
                    self,
                    Cct::Thevenin(Volt(Rat { num: 0, den: 1 }), rhs),
                ),
                Cct::Norton(i, p) => i.0@ == parallel_source(
                    self,
                    Cct::Thevenin(Volt(Rat { num: 0, den: 1 }), rhs),
                ) && p.0@ == parallel_passive(
                    self,
                    Cct::Thevenin(Volt(Rat { num: 0, den: 1 }), rhs),
                ),
            }),
    {
        self.parallel(Cct::Thevenin(Volt(Rat::zero()), rhs))
    }

    /// A bare conductance in series, lifted to a zero-current Norton form.
    pub fn series_conductance(self, rhs: Siemen) -> (r: Cct)
        requires
            cct_wf(self),
            rhs.wf(),
            series_ok(self, Cct::Norton(Amp(Rat { num: 0, den: 1 }), rhs)),
        ensures
            cct_wf(r),
            r is Norton <==> norton_wins_spec(self, Cct::Norton(Amp(Rat { num: 0, den: 1 }), rhs)),
            (match r {
                Cct::Thevenin(v, p) => v.0@ == series_source(
                    self,
                    Cct::Norton(Amp(Rat { num: 0, den: 1 }), rhs),
                ) && p.0@ == series_passive(self, Cct::Norton(Amp(Rat { num: 0, den: 1 }), rhs)),
                Cct::Norton(i, p) => i.0@ == series_source(
                    self,
                    Cct::Norton(Amp(Rat { num: 0, den: 1 }), rhs),
                ) && p.0@ == series_passive(self, Cct::Norton(Amp(Rat { num: 0, den: 1 }), rhs)),
            }),
    {
        self.series(Cct::Norton(Amp(Rat::zero()), rhs))
    }

    /// A bare conductance in parallel, lifted to a zero-current Norton form.
    pub fn parallel_conductance(self, rhs: Siemen) -> (r: Cct)
        requires
            cct_wf(self),
            rhs.wf(),
            parallel_ok(self, Cct::Norton(Amp(Rat { num: 0, den: 1 }), rhs)),
        ensures
            cct_wf(r),
            r is Norton <==> norton_wins_spec(self, Cct::Norton(Amp(Rat { num: 0, den: 1 }), rhs)),
            (match r {
                Cct::Thevenin(v, p) => v.0@ == parallel_source(
                    self,
                    Cct::Norton(Amp(Rat { num: 0, den: 1 }), rhs),
                ) && p.0@ == parallel_passive(self, Cct::Norton(Amp(Rat { num: 0, den: 1 }), rhs)),
                Cct::Norton(i, p) => i.0@ == parallel_source(
                    self,
                    Cct::Norton(Amp(Rat { num: 0, den: 1 }), rhs),
                ) && p.0@ == parallel_passive(self, Cct::Norton(Amp(Rat { num: 0, den: 1 }), rhs)),
            }),
    {
        self.parallel(Cct::Norton(Amp(Rat::zero()), rhs))
    }
}

} // verus!

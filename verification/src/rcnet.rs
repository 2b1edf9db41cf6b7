//! Source-plus-impedance network helpers: the 3 dB corner frequency of an
//! RC time constant, and the description of a swept example network.

use crate::elec::Cct;
use crate::rat::{
    canon, lemma_canon, rat_div, rat_eq, rat_is_zero, rat_mul, rat_recip, rat_wf, representable,
    Rat, Ratio,
};
use crate::units::{Farad, Hertz, Second};
use vstd::prelude::*;

verus! {

/// The rational stand-in this library uses for `2 * pi`:
/// `6283185307179586 / 10^15`, accurate to sixteen significant digits.
pub open spec fn two_pi() -> Ratio {
    Ratio { num: 6283185307179586, den: 1000000000000000 }
}

/// The 3 dB corner frequency of a time constant: `1 / (2 * pi * t)`, with
/// `2 * pi` approximated by [`two_pi`].
pub fn f3db(t: Second) -> (r: Hertz)
    requires
        t.wf(),
        !rat_is_zero(t.0@),
        representable(rat_mul(t.0@, two_pi())),
    ensures
        r.wf(),
        r.0@ == canon(rat_recip(canon(rat_mul(t.0@, two_pi())))),
        rat_eq(r.0@, rat_recip(rat_mul(t.0@, two_pi()))),
{
    let tp = Rat { num: 6283185307179586, den: 1000000000000000 };
    let w = t.scale(tp);
    proof {
        assert(rat_mul(t.0@, two_pi()).den != 0 && !rat_is_zero(rat_mul(t.0@, two_pi())))
            by (nonlinear_arith)
            requires
                t.0.den as int >= 1,
                t.0.num as int != 0,
        ;
        lemma_canon(rat_mul(t.0@, two_pi()));
        lemma_canon(rat_recip(w.0@));
        assert(rat_eq(rat_recip(w.0@), rat_recip(rat_mul(t.0@, two_pi())))) by (nonlinear_arith)
            requires
                rat_eq(w.0@, rat_mul(t.0@, two_pi())),
        ;
        crate::rat::lemma_rat_eq_trans(
            canon(rat_recip(w.0@)),
            rat_recip(w.0@),
            rat_recip(rat_mul(t.0@, two_pi())),
        );
    }
    w.recip()
}

/// A drive-swept example network: a title, three drive values, a roll-off
/// capacitance, and the one-port seen for a given drive.
pub struct Net<Drive, F> where F: Fn(Drive) -> Cct {
    pub title: &'static str,
    pub drive: [Drive; 3],
    pub cap: Farad,
    pub cct: F,
}

} // verus!

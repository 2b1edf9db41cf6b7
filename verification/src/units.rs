//! Typed physical quantities.
//!
//! Each quantity kind is its own struct around one exact [`Rat`] magnitude,
//! so that mixing kinds (adding a voltage to a resistance, say) is rejected
//! by the type system.  Same-kind arithmetic, scalar scaling, ordering and
//! equality are defined for every kind; cross-kind operations exist only for
//! the closed table of relations: resistance x capacitance = time,
//! current x resistance = voltage, voltage x current = power, and the
//! reciprocal pairs time/frequency and resistance/conductance.  The parallel
//! combination `a * b / (a + b)` is defined for resistance, conductance and
//! capacitance.

use crate::rat::{
    canon, rat_abs, rat_add, rat_div, rat_eq, rat_is_zero, rat_lt, rat_mul, rat_neg, rat_par,
    rat_recip, rat_sub, rat_wf, rat_zero, representable, Rat, Ratio,
};
use vstd::prelude::*;

verus! {

/// A resistance in ohms.
#[derive(Clone, Copy, Debug)]
pub struct Ohm(pub Rat);

impl Ohm {
    /// The stored magnitude is a well-formed scalar.
    pub open spec fn wf(self) -> bool {
        rat_wf(self.0)
    }

    /// The zero resistance.
    pub fn zero() -> (r: Ohm)
        ensures
            r.wf(),
            r.0@ == rat_zero(),
    {
        Ohm(Rat::zero())
    }

    pub fn is_zero(self) -> (b: bool)
        requires
            self.wf(),
        ensures
            b == rat_is_zero(self.0@),
    {
        self.0.is_zero()
    }

    /// Same-kind sum.
    pub fn plus(self, rhs: Ohm) -> (r: Ohm)
        requires
            self.wf(),
            rhs.wf(),
            representable(rat_add(self.0@, rhs.0@)),
        ensures
            r.wf(),
            r.0@ == canon(rat_add(self.0@, rhs.0@)),
            rat_eq(r.0@, rat_add(self.0@, rhs.0@)),
    {
        Ohm(self.0.plus(rhs.0))
    }

    /// Same-kind difference.
    pub fn minus(self, rhs: Ohm) -> (r: Ohm)
        requires
            self.wf(),
            rhs.wf(),
            representable(rat_sub(self.0@, rhs.0@)),
        ensures
            r.wf(),
            r.0@ == canon(rat_sub(self.0@, rhs.0@)),
            rat_eq(r.0@, rat_sub(self.0@, rhs.0@)),
    {
        Ohm(self.0.minus(rhs.0))
    }

    /// Negation of the magnitude.
    pub fn negate(self) -> (r: Ohm)
        requires
            self.wf(),
        ensures
            r.wf(),
            r.0@ == rat_neg(self.0@),
    {
        Ohm(self.0.negate())
    }

    /// Scaling by a dimensionless scalar.
    pub fn scale(self, s: Rat) -> (r: Ohm)
        requires
            self.wf(),
            rat_wf(s),
            representable(rat_mul(self.0@, s@)),
        ensures
            r.wf(),
            r.0@ == canon(rat_mul(self.0@, s@)),
            rat_eq(r.0@, rat_mul(self.0@, s@)),
    {
        Ohm(self.0.times(s))
    }

    /// Division by a nonzero dimensionless scalar.
    pub fn div_scale(self, s: Rat) -> (r: Ohm)
        requires
            self.wf(),
            rat_wf(s),
            !rat_is_zero(s@),
            representable(rat_div(self.0@, s@)),
        ensures
            r.wf(),
            r.0@ == canon(rat_div(self.0@, s@)),
            rat_eq(r.0@, rat_div(self.0@, s@)),
    {
        Ohm(self.0.div_by(s))
    }

    /// The dimensionless ratio of two same-kind quantities.
    pub fn ratio(self, rhs: Ohm) -> (r: Rat)
        requires
            self.wf(),
            rhs.wf(),
            !rat_is_zero(rhs.0@),
            representable(rat_div(self.0@, rhs.0@)),
        ensures
            rat_wf(r),
            r@ == canon(rat_div(self.0@, rhs.0@)),
            rat_eq(r@, rat_div(self.0@, rhs.0@)),
    {
        self.0.div_by(rhs.0)
    }

    /// Strict ordering of the magnitudes.
    pub fn lt(self, rhs: Ohm) -> (b: bool)
        requires
            self.wf(),
            rhs.wf(),
        ensures
            b == rat_lt(self.0@, rhs.0@),
    {
        self.0.lt(rhs.0)
    }

    /// The absolute magnitude.
    pub fn abs_val(self) -> (r: Ohm)
        requires
            self.wf(),
        ensures
            r.wf(),
            r.0@ == rat_abs(self.0@),
    {
        Ohm(self.0.abs_val())
    }
}

impl PartialEq for Ohm {
    /// Equality of the denoted magnitudes.
    fn eq(&self, other: &Ohm) -> (b: bool) {
        self.0 == other.0
    }
}

impl vstd::std_specs::cmp::PartialEqSpecImpl for Ohm {
    open spec fn obeys_eq_spec() -> bool {
        true
    }

    open spec fn eq_spec(&self, other: &Ohm) -> bool {
        rat_eq(self.0@, other.0@)
    }
}

/// A conductance in siemens.
#[derive(Clone, Copy, Debug)]
pub struct Siemen(pub Rat);

impl Siemen {
    /// The stored magnitude is a well-formed scalar.
    pub open spec fn wf(self) -> bool {
        rat_wf(self.0)
    }

    /// The zero conductance.
    pub fn zero() -> (r: Siemen)
        ensures
            r.wf(),
            r.0@ == rat_zero(),
    {
        Siemen(Rat::zero())
    }

    pub fn is_zero(self) -> (b: bool)
        requires
            self.wf(),
        ensures
            b == rat_is_zero(self.0@),
    {
        self.0.is_zero()
    }

    /// Same-kind sum.
    pub fn plus(self, rhs: Siemen) -> (r: Siemen)
        requires
            self.wf(),
            rhs.wf(),
            representable(rat_add(self.0@, rhs.0@)),
        ensures
            r.wf(),
            r.0@ == canon(rat_add(self.0@, rhs.0@)),
            rat_eq(r.0@, rat_add(self.0@, rhs.0@)),
    {
        Siemen(self.0.plus(rhs.0))
    }

    /// Same-kind difference.
    pub fn minus(self, rhs: Siemen) -> (r: Siemen)
        requires
            self.wf(),
            rhs.wf(),
            representable(rat_sub(self.0@, rhs.0@)),
        ensures
            r.wf(),
            r.0@ == canon(rat_sub(self.0@, rhs.0@)),
            rat_eq(r.0@, rat_sub(self.0@, rhs.0@)),
    {
        Siemen(self.0.minus(rhs.0))
    }

    /// Negation of the magnitude.
    pub fn negate(self) -> (r: Siemen)
        requires
            self.wf(),
        ensures
            r.wf(),
            r.0@ == rat_neg(self.0@),
    {
        Siemen(self.0.negate())
    }

    /// Scaling by a dimensionless scalar.
    pub fn scale(self, s: Rat) -> (r: Siemen)
        requires
            self.wf(),
            rat_wf(s),
            representable(rat_mul(self.0@, s@)),
        ensures
            r.wf(),
            r.0@ == canon(rat_mul(self.0@, s@)),
            rat_eq(r.0@, rat_mul(self.0@, s@)),
    {
        Siemen(self.0.times(s))
    }

    /// Division by a nonzero dimensionless scalar.
    pub fn div_scale(self, s: Rat) -> (r: Siemen)
        requires
            self.wf(),
            rat_wf(s),
            !rat_is_zero(s@),
            representable(rat_div(self.0@, s@)),
        ensures
            r.wf(),
            r.0@ == canon(rat_div(self.0@, s@)),
            rat_eq(r.0@, rat_div(self.0@, s@)),
    {
        Siemen(self.0.div_by(s))
    }

    /// The dimensionless ratio of two same-kind quantities.
    pub fn ratio(self, rhs: Siemen) -> (r: Rat)
        requires
            self.wf(),
            rhs.wf(),
            !rat_is_zero(rhs.0@),
            representable(rat_div(self.0@, rhs.0@)),
        ensures
            rat_wf(r),
            r@ == canon(rat_div(self.0@, rhs.0@)),
            rat_eq(r@, rat_div(self.0@, rhs.0@)),
    {
        self.0.div_by(rhs.0)
    }

    /// Strict ordering of the magnitudes.
    pub fn lt(self, rhs: Siemen) -> (b: bool)
        requires
            self.wf(),
            rhs.wf(),
        ensures
            b == rat_lt(self.0@, rhs.0@),
    {
        self.0.lt(rhs.0)
    }

    /// The absolute magnitude.
    pub fn abs_val(self) -> (r: Siemen)
        requires
            self.wf(),
        ensures
            r.wf(),
            r.0@ == rat_abs(self.0@),
    {
        Siemen(self.0.abs_val())
    }
}

impl PartialEq for Siemen {
    /// Equality of the denoted magnitudes.
    fn eq(&self, other: &Siemen) -> (b: bool) {
        self.0 == other.0
    }
}

impl vstd::std_specs::cmp::PartialEqSpecImpl for Siemen {
    open spec fn obeys_eq_spec() -> bool {
        true
    }

    open spec fn eq_spec(&self, other: &Siemen) -> bool {
        rat_eq(self.0@, other.0@)
    }
}

/// A time in seconds.
#[derive(Clone, Copy, Debug)]
pub struct Second(pub Rat);

impl Second {
    /// The stored magnitude is a well-formed scalar.
    pub open spec fn wf(self) -> bool {
        rat_wf(self.0)
    }

    /// The zero time.
    pub fn zero() -> (r: Second)
        ensures
            r.wf(),
            r.0@ == rat_zero(),
    {
        Second(Rat::zero())
    }

    pub fn is_zero(self) -> (b: bool)
        requires
            self.wf(),
        ensures
            b == rat_is_zero(self.0@),
    {
        self.0.is_zero()
    }

    /// Same-kind sum.
    pub fn plus(self, rhs: Second) -> (r: Second)
        requires
            self.wf(),
            rhs.wf(),
            representable(rat_add(self.0@, rhs.0@)),
        ensures
            r.wf(),
            r.0@ == canon(rat_add(self.0@, rhs.0@)),
            rat_eq(r.0@, rat_add(self.0@, rhs.0@)),
    {
        Second(self.0.plus(rhs.0))
    }

    /// Same-kind difference.
    pub fn minus(self, rhs: Second) -> (r: Second)
        requires
            self.wf(),
            rhs.wf(),
            representable(rat_sub(self.0@, rhs.0@)),
        ensures
            r.wf(),
            r.0@ == canon(rat_sub(self.0@, rhs.0@)),
            rat_eq(r.0@, rat_sub(self.0@, rhs.0@)),
    {
        Second(self.0.minus(rhs.0))
    }

    /// Negation of the magnitude.
    pub fn negate(self) -> (r: Second)
        requires
            self.wf(),
        ensures
            r.wf(),
            r.0@ == rat_neg(self.0@),
    {
        Second(self.0.negate())
    }

    /// Scaling by a dimensionless scalar.
    pub fn scale(self, s: Rat) -> (r: Second)
        requires
            self.wf(),
            rat_wf(s),
            representable(rat_mul(self.0@, s@)),
        ensures
            r.wf(),
            r.0@ == canon(rat_mul(self.0@, s@)),
            rat_eq(r.0@, rat_mul(self.0@, s@)),
    {
        Second(self.0.times(s))
    }

    /// Division by a nonzero dimensionless scalar.
    pub fn div_scale(self, s: Rat) -> (r: Second)
        requires
            self.wf(),
            rat_wf(s),
            !rat_is_zero(s@),
            representable(rat_div(self.0@, s@)),
        ensures
            r.wf(),
            r.0@ == canon(rat_div(self.0@, s@)),
            rat_eq(r.0@, rat_div(self.0@, s@)),
    {
        Second(self.0.div_by(s))
    }

    /// The dimensionless ratio of two same-kind quantities.
    pub fn ratio(self, rhs: Second) -> (r: Rat)
        requires
            self.wf(),
            rhs.wf(),
            !rat_is_zero(rhs.0@),
            representable(rat_div(self.0@, rhs.0@)),
        ensures
            rat_wf(r),
            r@ == canon(rat_div(self.0@, rhs.0@)),
            rat_eq(r@, rat_div(self.0@, rhs.0@)),
    {
        self.0.div_by(rhs.0)
    }

    /// Strict ordering of the magnitudes.
    pub fn lt(self, rhs: Second) -> (b: bool)
        requires
            self.wf(),
            rhs.wf(),
        ensures
            b == rat_lt(self.0@, rhs.0@),
    {
        self.0.lt(rhs.0)
    }

    /// The absolute magnitude.
    pub fn abs_val(self) -> (r: Second)
        requires
            self.wf(),
        ensures
            r.wf(),
            r.0@ == rat_abs(self.0@),
    {
        Second(self.0.abs_val())
    }
}

impl PartialEq for Second {
    /// Equality of the denoted magnitudes.
    fn eq(&self, other: &Second) -> (b: bool) {
        self.0 == other.0
    }
}

impl vstd::std_specs::cmp::PartialEqSpecImpl for Second {
    open spec fn obeys_eq_spec() -> bool {
        true
    }

    open spec fn eq_spec(&self, other: &Second) -> bool {
        rat_eq(self.0@, other.0@)
    }
}

/// A capacitance in farads.
#[derive(Clone, Copy, Debug)]
pub struct Farad(pub Rat);

impl Farad {
    /// The stored magnitude is a well-formed scalar.
    pub open spec fn wf(self) -> bool {
        rat_wf(self.0)
    }

    /// The zero capacitance.
    pub fn zero() -> (r: Farad)
        ensures
            r.wf(),
            r.0@ == rat_zero(),
    {
        Farad(Rat::zero())
    }

    pub fn is_zero(self) -> (b: bool)
        requires
            self.wf(),
        ensures
            b == rat_is_zero(self.0@),
    {
        self.0.is_zero()
    }

    /// Same-kind sum.
    pub fn plus(self, rhs: Farad) -> (r: Farad)
        requires
            self.wf(),
            rhs.wf(),
            representable(rat_add(self.0@, rhs.0@)),
        ensures
            r.wf(),
            r.0@ == canon(rat_add(self.0@, rhs.0@)),
            rat_eq(r.0@, rat_add(self.0@, rhs.0@)),
    {
        Farad(self.0.plus(rhs.0))
    }

    /// Same-kind difference.
    pub fn minus(self, rhs: Farad) -> (r: Farad)
        requires
            self.wf(),
            rhs.wf(),
            representable(rat_sub(self.0@, rhs.0@)),
        ensures
            r.wf(),
            r.0@ == canon(rat_sub(self.0@, rhs.0@)),
            rat_eq(r.0@, rat_sub(self.0@, rhs.0@)),
    {
        Farad(self.0.minus(rhs.0))
    }

    /// Negation of the magnitude.
    pub fn negate(self) -> (r: Farad)
        requires
            self.wf(),
        ensures
            r.wf(),
            r.0@ == rat_neg(self.0@),
    {
        Farad(self.0.negate())
    }

    /// Scaling by a dimensionless scalar.
    pub fn scale(self, s: Rat) -> (r: Farad)
        requires
            self.wf(),
            rat_wf(s),
            representable(rat_mul(self.0@, s@)),
        ensures
            r.wf(),
            r.0@ == canon(rat_mul(self.0@, s@)),
            rat_eq(r.0@, rat_mul(self.0@, s@)),
    {
        Farad(self.0.times(s))
    }

    /// Division by a nonzero dimensionless scalar.
    pub fn div_scale(self, s: Rat) -> (r: Farad)
        requires
            self.wf(),
            rat_wf(s),
            !rat_is_zero(s@),
            representable(rat_div(self.0@, s@)),
        ensures
            r.wf(),
            r.0@ == canon(rat_div(self.0@, s@)),
            rat_eq(r.0@, rat_div(self.0@, s@)),
    {
        Farad(self.0.div_by(s))
    }

    /// The dimensionless ratio of two same-kind quantities.
    pub fn ratio(self, rhs: Farad) -> (r: Rat)
        requires
            self.wf(),
            rhs.wf(),
            !rat_is_zero(rhs.0@),
            representable(rat_div(self.0@, rhs.0@)),
        ensures
            rat_wf(r),
            r@ == canon(rat_div(self.0@, rhs.0@)),
            rat_eq(r@, rat_div(self.0@, rhs.0@)),
    {
        self.0.div_by(rhs.0)
    }

    /// Strict ordering of the magnitudes.
    pub fn lt(self, rhs: Farad) -> (b: bool)
        requires
            self.wf(),
            rhs.wf(),
        ensures
            b == rat_lt(self.0@, rhs.0@),
    {
        self.0.lt(rhs.0)
    }

    /// The absolute magnitude.
    pub fn abs_val(self) -> (r: Farad)
        requires
            self.wf(),
        ensures
            r.wf(),
            r.0@ == rat_abs(self.0@),
    {
        Farad(self.0.abs_val())
    }
}

impl PartialEq for Farad {
    /// Equality of the denoted magnitudes.
    fn eq(&self, other: &Farad) -> (b: bool) {
        self.0 == other.0
    }
}

impl vstd::std_specs::cmp::PartialEqSpecImpl for Farad {
    open spec fn obeys_eq_spec() -> bool {
        true
    }

    open spec fn eq_spec(&self, other: &Farad) -> bool {
        rat_eq(self.0@, other.0@)
    }
}

/// A frequency in hertz.
#[derive(Clone, Copy, Debug)]
pub struct Hertz(pub Rat);

impl Hertz {
    /// The stored magnitude is a well-formed scalar.
    pub open spec fn wf(self) -> bool {
        rat_wf(self.0)
    }

    /// The zero frequency.
    pub fn zero() -> (r: Hertz)
        ensures
            r.wf(),
            r.0@ == rat_zero(),
    {
        Hertz(Rat::zero())
    }

    pub fn is_zero(self) -> (b: bool)
        requires
            self.wf(),
        ensures
            b == rat_is_zero(self.0@),
    {
        self.0.is_zero()
    }

    /// Same-kind sum.
    pub fn plus(self, rhs: Hertz) -> (r: Hertz)
        requires
            self.wf(),
            rhs.wf(),
            representable(rat_add(self.0@, rhs.0@)),
        ensures
            r.wf(),
            r.0@ == canon(rat_add(self.0@, rhs.0@)),
            rat_eq(r.0@, rat_add(self.0@, rhs.0@)),
    {
        Hertz(self.0.plus(rhs.0))
    }

    /// Same-kind difference.
    pub fn minus(self, rhs: Hertz) -> (r: Hertz)
        requires
            self.wf(),
            rhs.wf(),
            representable(rat_sub(self.0@, rhs.0@)),
        ensures
            r.wf(),
            r.0@ == canon(rat_sub(self.0@, rhs.0@)),
            rat_eq(r.0@, rat_sub(self.0@, rhs.0@)),
    {
        Hertz(self.0.minus(rhs.0))
    }

    /// Negation of the magnitude.
    pub fn negate(self) -> (r: Hertz)
        requires
            self.wf(),
        ensures
            r.wf(),
            r.0@ == rat_neg(self.0@),
    {
        Hertz(self.0.negate())
    }

    /// Scaling by a dimensionless scalar.
    pub fn scale(self, s: Rat) -> (r: Hertz)
        requires
            self.wf(),
            rat_wf(s),
            representable(rat_mul(self.0@, s@)),
        ensures
            r.wf(),
            r.0@ == canon(rat_mul(self.0@, s@)),
            rat_eq(r.0@, rat_mul(self.0@, s@)),
    {
        Hertz(self.0.times(s))
    }

    /// Division by a nonzero dimensionless scalar.
    pub fn div_scale(self, s: Rat) -> (r: Hertz)
        requires
            self.wf(),
            rat_wf(s),
            !rat_is_zero(s@),
            representable(rat_div(self.0@, s@)),
        ensures
            r.wf(),
            r.0@ == canon(rat_div(self.0@, s@)),
            rat_eq(r.0@, rat_div(self.0@, s@)),
    {
        Hertz(self.0.div_by(s))
    }

    /// The dimensionless ratio of two same-kind quantities.
    pub fn ratio(self, rhs: Hertz) -> (r: Rat)
        requires
            self.wf(),
            rhs.wf(),
            !rat_is_zero(rhs.0@),
            representable(rat_div(self.0@, rhs.0@)),
        ensures
            rat_wf(r),
            r@ == canon(rat_div(self.0@, rhs.0@)),
            rat_eq(r@, rat_div(self.0@, rhs.0@)),
    {
        self.0.div_by(rhs.0)
    }

    /// Strict ordering of the magnitudes.
    pub fn lt(self, rhs: Hertz) -> (b: bool)
        requires
            self.wf(),
            rhs.wf(),
        ensures
            b == rat_lt(self.0@, rhs.0@),
    {
        self.0.lt(rhs.0)
    }

    /// The absolute magnitude.
    pub fn abs_val(self) -> (r: Hertz)
        requires
            self.wf(),
        ensures
            r.wf(),
            r.0@ == rat_abs(self.0@),
    {
        Hertz(self.0.abs_val())
    }
}

impl PartialEq for Hertz {
    /// Equality of the denoted magnitudes.
    fn eq(&self, other: &Hertz) -> (b: bool) {
        self.0 == other.0
    }
}

impl vstd::std_specs::cmp::PartialEqSpecImpl for Hertz {
    open spec fn obeys_eq_spec() -> bool {
        true
    }

    open spec fn eq_spec(&self, other: &Hertz) -> bool {
        rat_eq(self.0@, other.0@)
    }
}

/// A voltage in volts.
#[derive(Clone, Copy, Debug)]
pub struct Volt(pub Rat);

impl Volt {
    /// The stored magnitude is a well-formed scalar.
    pub open spec fn wf(self) -> bool {
        rat_wf(self.0)
    }

    /// The zero voltage.
    pub fn zero() -> (r: Volt)
        ensures
            r.wf(),
            r.0@ == rat_zero(),
    {
        Volt(Rat::zero())
    }

    pub fn is_zero(self) -> (b: bool)
        requires
            self.wf(),
        ensures
            b == rat_is_zero(self.0@),
    {
        self.0.is_zero()
    }

    /// Same-kind sum.
    pub fn plus(self, rhs: Volt) -> (r: Volt)
        requires
            self.wf(),
            rhs.wf(),
            representable(rat_add(self.0@, rhs.0@)),
        ensures
            r.wf(),
            r.0@ == canon(rat_add(self.0@, rhs.0@)),
            rat_eq(r.0@, rat_add(self.0@, rhs.0@)),
    {
        Volt(self.0.plus(rhs.0))
    }

    /// Same-kind difference.
    pub fn minus(self, rhs: Volt) -> (r: Volt)
        requires
            self.wf(),
            rhs.wf(),
            representable(rat_sub(self.0@, rhs.0@)),
        ensures
            r.wf(),
            r.0@ == canon(rat_sub(self.0@, rhs.0@)),
            rat_eq(r.0@, rat_sub(self.0@, rhs.0@)),
    {
        Volt(self.0.minus(rhs.0))
    }

    /// Negation of the magnitude.
    pub fn negate(self) -> (r: Volt)
        requires
            self.wf(),
        ensures
            r.wf(),
            r.0@ == rat_neg(self.0@),
    {
        Volt(self.0.negate())
    }

    /// Scaling by a dimensionless scalar.
    pub fn scale(self, s: Rat) -> (r: Volt)
        requires
            self.wf(),
            rat_wf(s),
            representable(rat_mul(self.0@, s@)),
        ensures
            r.wf(),
            r.0@ == canon(rat_mul(self.0@, s@)),
            rat_eq(r.0@, rat_mul(self.0@, s@)),
    {
        Volt(self.0.times(s))
    }

    /// Division by a nonzero dimensionless scalar.
    pub fn div_scale(self, s: Rat) -> (r: Volt)
        requires
            self.wf(),
            rat_wf(s),
            !rat_is_zero(s@),
            representable(rat_div(self.0@, s@)),
        ensures
            r.wf(),
            r.0@ == canon(rat_div(self.0@, s@)),
            rat_eq(r.0@, rat_div(self.0@, s@)),
    {
        Volt(self.0.div_by(s))
    }

    /// The dimensionless ratio of two same-kind quantities.
    pub fn ratio(self, rhs: Volt) -> (r: Rat)
        requires
            self.wf(),
            rhs.wf(),
            !rat_is_zero(rhs.0@),
            representable(rat_div(self.0@, rhs.0@)),
        ensures
            rat_wf(r),
            r@ == canon(rat_div(self.0@, rhs.0@)),
            rat_eq(r@, rat_div(self.0@, rhs.0@)),
    {
        self.0.div_by(rhs.0)
    }

    /// Strict ordering of the magnitudes.
    pub fn lt(self, rhs: Volt) -> (b: bool)
        requires
            self.wf(),
            rhs.wf(),
        ensures
            b == rat_lt(self.0@, rhs.0@),
    {
        self.0.lt(rhs.0)
    }

    /// The absolute magnitude.
    pub fn abs_val(self) -> (r: Volt)
        requires
            self.wf(),
        ensures
            r.wf(),
            r.0@ == rat_abs(self.0@),
    {
        Volt(self.0.abs_val())
    }
}

impl PartialEq for Volt {
    /// Equality of the denoted magnitudes.
    fn eq(&self, other: &Volt) -> (b: bool) {
        self.0 == other.0
    }
}

impl vstd::std_specs::cmp::PartialEqSpecImpl for Volt {
    open spec fn obeys_eq_spec() -> bool {
        true
    }

    open spec fn eq_spec(&self, other: &Volt) -> bool {
        rat_eq(self.0@, other.0@)
    }
}

/// A current in amperes.
#[derive(Clone, Copy, Debug)]
pub struct Amp(pub Rat);

impl Amp {
    /// The stored magnitude is a well-formed scalar.
    pub open spec fn wf(self) -> bool {
        rat_wf(self.0)
    }

    /// The zero current.
    pub fn zero() -> (r: Amp)
        ensures
            r.wf(),
            r.0@ == rat_zero(),
    {
        Amp(Rat::zero())
    }

    pub fn is_zero(self) -> (b: bool)
        requires
            self.wf(),
        ensures
            b == rat_is_zero(self.0@),
    {
        self.0.is_zero()
    }

    /// Same-kind sum.
    pub fn plus(self, rhs: Amp) -> (r: Amp)
        requires
            self.wf(),
            rhs.wf(),
            representable(rat_add(self.0@, rhs.0@)),
        ensures
            r.wf(),
            r.0@ == canon(rat_add(self.0@, rhs.0@)),
            rat_eq(r.0@, rat_add(self.0@, rhs.0@)),
    {
        Amp(self.0.plus(rhs.0))
    }

    /// Same-kind difference.
    pub fn minus(self, rhs: Amp) -> (r: Amp)
        requires
            self.wf(),
            rhs.wf(),
            representable(rat_sub(self.0@, rhs.0@)),
        ensures
            r.wf(),
            r.0@ == canon(rat_sub(self.0@, rhs.0@)),
            rat_eq(r.0@, rat_sub(self.0@, rhs.0@)),
    {
        Amp(self.0.minus(rhs.0))
    }

    /// Negation of the magnitude.
    pub fn negate(self) -> (r: Amp)
        requires
            self.wf(),
        ensures
            r.wf(),
            r.0@ == rat_neg(self.0@),
    {
        Amp(self.0.negate())
    }

    /// Scaling by a dimensionless scalar.
    pub fn scale(self, s: Rat) -> (r: Amp)
        requires
            self.wf(),
            rat_wf(s),
            representable(rat_mul(self.0@, s@)),
        ensures
            r.wf(),
            r.0@ == canon(rat_mul(self.0@, s@)),
            rat_eq(r.0@, rat_mul(self.0@, s@)),
    {
        Amp(self.0.times(s))
    }

    /// Division by a nonzero dimensionless scalar.
    pub fn div_scale(self, s: Rat) -> (r: Amp)
        requires
            self.wf(),
            rat_wf(s),
            !rat_is_zero(s@),
            representable(rat_div(self.0@, s@)),
        ensures
            r.wf(),
            r.0@ == canon(rat_div(self.0@, s@)),
            rat_eq(r.0@, rat_div(self.0@, s@)),
    {
        Amp(self.0.div_by(s))
    }

    /// The dimensionless ratio of two same-kind quantities.
    pub fn ratio(self, rhs: Amp) -> (r: Rat)
        requires
            self.wf(),
            rhs.wf(),
            !rat_is_zero(rhs.0@),
            representable(rat_div(self.0@, rhs.0@)),
        ensures
            rat_wf(r),
            r@ == canon(rat_div(self.0@, rhs.0@)),
            rat_eq(r@, rat_div(self.0@, rhs.0@)),
    {
        self.0.div_by(rhs.0)
    }

    /// Strict ordering of the magnitudes.
    pub fn lt(self, rhs: Amp) -> (b: bool)
        requires
            self.wf(),
            rhs.wf(),
        ensures
            b == rat_lt(self.0@, rhs.0@),
    {
        self.0.lt(rhs.0)
    }

    /// The absolute magnitude.
    pub fn abs_val(self) -> (r: Amp)
        requires
            self.wf(),
        ensures
            r.wf(),
            r.0@ == rat_abs(self.0@),
    {
        Amp(self.0.abs_val())
    }
}

impl PartialEq for Amp {
    /// Equality of the denoted magnitudes.
    fn eq(&self, other: &Amp) -> (b: bool) {
        self.0 == other.0
    }
}

impl vstd::std_specs::cmp::PartialEqSpecImpl for Amp {
    open spec fn obeys_eq_spec() -> bool {
        true
    }

    open spec fn eq_spec(&self, other: &Amp) -> bool {
        rat_eq(self.0@, other.0@)
    }
}

/// A power in watts.
#[derive(Clone, Copy, Debug)]
pub struct Watt(pub Rat);

impl Watt {
    /// The stored magnitude is a well-formed scalar.
    pub open spec fn wf(self) -> bool {
        rat_wf(self.0)
    }

    /// The zero power.
    pub fn zero() -> (r: Watt)
        ensures
            r.wf(),
            r.0@ == rat_zero(),
    {
        Watt(Rat::zero())
    }

    pub fn is_zero(self) -> (b: bool)
        requires
            self.wf(),
        ensures
            b == rat_is_zero(self.0@),
    {
        self.0.is_zero()
    }

    /// Same-kind sum.
    pub fn plus(self, rhs: Watt) -> (r: Watt)
        requires
            self.wf(),
            rhs.wf(),
            representable(rat_add(self.0@, rhs.0@)),
        ensures
            r.wf(),
            r.0@ == canon(rat_add(self.0@, rhs.0@)),
            rat_eq(r.0@, rat_add(self.0@, rhs.0@)),
    {
        Watt(self.0.plus(rhs.0))
    }

    /// Same-kind difference.
    pub fn minus(self, rhs: Watt) -> (r: Watt)
        requires
            self.wf(),
            rhs.wf(),
            representable(rat_sub(self.0@, rhs.0@)),
        ensures
            r.wf(),
            r.0@ == canon(rat_sub(self.0@, rhs.0@)),
            rat_eq(r.0@, rat_sub(self.0@, rhs.0@)),
    {
        Watt(self.0.minus(rhs.0))
    }

    /// Negation of the magnitude.
    pub fn negate(self) -> (r: Watt)
        requires
            self.wf(),
        ensures
            r.wf(),
            r.0@ == rat_neg(self.0@),
    {
        Watt(self.0.negate())
    }

    /// Scaling by a dimensionless scalar.
    pub fn scale(self, s: Rat) -> (r: Watt)
        requires
            self.wf(),
            rat_wf(s),
            representable(rat_mul(self.0@, s@)),
        ensures
            r.wf(),
            r.0@ == canon(rat_mul(self.0@, s@)),
            rat_eq(r.0@, rat_mul(self.0@, s@)),
    {
        Watt(self.0.times(s))
    }

    /// Division by a nonzero dimensionless scalar.
    pub fn div_scale(self, s: Rat) -> (r: Watt)
        requires
            self.wf(),
            rat_wf(s),
            !rat_is_zero(s@),
            representable(rat_div(self.0@, s@)),
        ensures
            r.wf(),
            r.0@ == canon(rat_div(self.0@, s@)),
            rat_eq(r.0@, rat_div(self.0@, s@)),
    {
        Watt(self.0.div_by(s))
    }

    /// The dimensionless ratio of two same-kind quantities.
    pub fn ratio(self, rhs: Watt) -> (r: Rat)
        requires
            self.wf(),
            rhs.wf(),
            !rat_is_zero(rhs.0@),
            representable(rat_div(self.0@, rhs.0@)),
        ensures
            rat_wf(r),
            r@ == canon(rat_div(self.0@, rhs.0@)),
            rat_eq(r@, rat_div(self.0@, rhs.0@)),
    {
        self.0.div_by(rhs.0)
    }

    /// Strict ordering of the magnitudes.
    pub fn lt(self, rhs: Watt) -> (b: bool)
        requires
            self.wf(),
            rhs.wf(),
        ensures
            b == rat_lt(self.0@, rhs.0@),
    {
        self.0.lt(rhs.0)
    }

    /// The absolute magnitude.
    pub fn abs_val(self) -> (r: Watt)
        requires
            self.wf(),
        ensures
            r.wf(),
            r.0@ == rat_abs(self.0@),
    {
        Watt(self.0.abs_val())
    }
}

impl PartialEq for Watt {
    /// Equality of the denoted magnitudes.
    fn eq(&self, other: &Watt) -> (b: bool) {
        self.0 == other.0
    }
}

impl vstd::std_specs::cmp::PartialEqSpecImpl for Watt {
    open spec fn obeys_eq_spec() -> bool {
        true
    }

    open spec fn eq_spec(&self, other: &Watt) -> bool {
        rat_eq(self.0@, other.0@)
    }
}

impl Ohm {
    /// The parallel combination `a * b / (a + b)` of two resistances; two zero
    /// operands combine to exactly zero.
    pub fn par(self, rhs: Ohm) -> (r: Ohm)
        requires
            self.wf(),
            rhs.wf(),
            rat_is_zero(self.0@) && rat_is_zero(rhs.0@) || !rat_is_zero(
                rat_add(self.0@, rhs.0@),
            ),
            representable(rat_par(self.0@, rhs.0@)),
        ensures
            r.wf(),
            r.0@ == canon(rat_par(self.0@, rhs.0@)),
            rat_eq(r.0@, rat_par(self.0@, rhs.0@)),
    {
        Ohm(self.0.par(rhs.0))
    }
}

impl Siemen {
    /// The parallel combination `a * b / (a + b)` of two conductances; two zero
    /// operands combine to exactly zero.
    pub fn par(self, rhs: Siemen) -> (r: Siemen)
        requires
            self.wf(),
            rhs.wf(),
            rat_is_zero(self.0@) && rat_is_zero(rhs.0@) || !rat_is_zero(
                rat_add(self.0@, rhs.0@),
            ),
            representable(rat_par(self.0@, rhs.0@)),
        ensures
            r.wf(),
            r.0@ == canon(rat_par(self.0@, rhs.0@)),
            rat_eq(r.0@, rat_par(self.0@, rhs.0@)),
    {
        Siemen(self.0.par(rhs.0))
    }
}

impl Farad {
    /// The parallel combination `a * b / (a + b)` of two capacitances; two zero
    /// operands combine to exactly zero.
    pub fn par(self, rhs: Farad) -> (r: Farad)
        requires
            self.wf(),
            rhs.wf(),
            rat_is_zero(self.0@) && rat_is_zero(rhs.0@) || !rat_is_zero(
                rat_add(self.0@, rhs.0@),
            ),
            representable(rat_par(self.0@, rhs.0@)),
        ensures
            r.wf(),
            r.0@ == canon(rat_par(self.0@, rhs.0@)),
            rat_eq(r.0@, rat_par(self.0@, rhs.0@)),
    {
        Farad(self.0.par(rhs.0))
    }
}

/// The closed product relation resistance x capacitance = time, Ohm's law
/// partners, and the resistance/conductance reciprocal pair.
impl Ohm {
    /// A resistance times a capacitance is a time constant.
    pub fn times_farad(self, rhs: Farad) -> (r: Second)
        requires
            self.wf(),
            rhs.wf(),
            representable(rat_mul(self.0@, rhs.0@)),
        ensures
            r.wf(),
            r.0@ == canon(rat_mul(self.0@, rhs.0@)),
            rat_eq(r.0@, rat_mul(self.0@, rhs.0@)),
    {
        Second(self.0.times(rhs.0))
    }

    /// A resistance times a current drops a voltage.
    pub fn times_amp(self, rhs: Amp) -> (r: Volt)
        requires
            self.wf(),
            rhs.wf(),
            representable(rat_mul(self.0@, rhs.0@)),
        ensures
            r.wf(),
            r.0@ == canon(rat_mul(self.0@, rhs.0@)),
            rat_eq(r.0@, rat_mul(self.0@, rhs.0@)),
    {
        Volt(self.0.times(rhs.0))
    }

    /// A resistance times a conductance is a dimensionless scalar.
    pub fn times_siemen(self, rhs: Siemen) -> (r: Rat)
        requires
            self.wf(),
            rhs.wf(),
            representable(rat_mul(self.0@, rhs.0@)),
        ensures
            rat_wf(r),
            r@ == canon(rat_mul(self.0@, rhs.0@)),
            rat_eq(r@, rat_mul(self.0@, rhs.0@)),
    {
        self.0.times(rhs.0)
    }

    /// The reciprocal conductance: `1 / self`.
    pub fn recip(self) -> (r: Siemen)
        requires
            self.wf(),
            !rat_is_zero(self.0@),
        ensures
            r.wf(),
            r.0@ == canon(rat_recip(self.0@)),
            rat_eq(r.0@, rat_recip(self.0@)),
    {
        Siemen(self.0.recip())
    }

    /// A scalar divided by this resistance: `s / self`, a conductance.
    pub fn recip_scale(self, s: Rat) -> (r: Siemen)
        requires
            self.wf(),
            rat_wf(s),
            !rat_is_zero(self.0@),
            representable(rat_div(s@, self.0@)),
        ensures
            r.wf(),
            r.0@ == canon(rat_div(s@, self.0@)),
            rat_eq(r.0@, rat_div(s@, self.0@)),
    {
        Siemen(s.div_by(self.0))
    }

}

impl Farad {
    /// A capacitance times a resistance is a time constant.
    pub fn times_ohm(self, rhs: Ohm) -> (r: Second)
        requires
            self.wf(),
            rhs.wf(),
            representable(rat_mul(self.0@, rhs.0@)),
        ensures
            r.wf(),
            r.0@ == canon(rat_mul(self.0@, rhs.0@)),
            rat_eq(r.0@, rat_mul(self.0@, rhs.0@)),
    {
        Second(self.0.times(rhs.0))
    }

}

impl Second {
    /// A time times a frequency is a dimensionless scalar.
    pub fn times_hertz(self, rhs: Hertz) -> (r: Rat)
        requires
            self.wf(),
            rhs.wf(),
            representable(rat_mul(self.0@, rhs.0@)),
        ensures
            rat_wf(r),
            r@ == canon(rat_mul(self.0@, rhs.0@)),
            rat_eq(r@, rat_mul(self.0@, rhs.0@)),
    {
        self.0.times(rhs.0)
    }

    /// A time constant divided by a resistance is a capacitance.
    pub fn per_ohm(self, rhs: Ohm) -> (r: Farad)
        requires
            self.wf(),
            rhs.wf(),
            !rat_is_zero(rhs.0@),
            representable(rat_div(self.0@, rhs.0@)),
        ensures
            r.wf(),
            r.0@ == canon(rat_div(self.0@, rhs.0@)),
            rat_eq(r.0@, rat_div(self.0@, rhs.0@)),
    {
        Farad(self.0.div_by(rhs.0))
    }

    /// A time constant divided by a capacitance is a resistance.
    pub fn per_farad(self, rhs: Farad) -> (r: Ohm)
        requires
            self.wf(),
            rhs.wf(),
            !rat_is_zero(rhs.0@),
            representable(rat_div(self.0@, rhs.0@)),
        ensures
            r.wf(),
            r.0@ == canon(rat_div(self.0@, rhs.0@)),
            rat_eq(r.0@, rat_div(self.0@, rhs.0@)),
    {
        Ohm(self.0.div_by(rhs.0))
    }

    /// The reciprocal frequency: `1 / self`.
    pub fn recip(self) -> (r: Hertz)
        requires
            self.wf(),
            !rat_is_zero(self.0@),
        ensures
            r.wf(),
            r.0@ == canon(rat_recip(self.0@)),
            rat_eq(r.0@, rat_recip(self.0@)),
    {
        Hertz(self.0.recip())
    }

    /// A scalar divided by this time: `s / self`, a frequency.
    pub fn recip_scale(self, s: Rat) -> (r: Hertz)
        requires
            self.wf(),
            rat_wf(s),
            !rat_is_zero(self.0@),
            representable(rat_div(s@, self.0@)),
        ensures
            r.wf(),
            r.0@ == canon(rat_div(s@, self.0@)),
            rat_eq(r.0@, rat_div(s@, self.0@)),
    {
        Hertz(s.div_by(self.0))
    }

}

impl Hertz {
    /// A frequency times a time is a dimensionless scalar.
    pub fn times_second(self, rhs: Second) -> (r: Rat)
        requires
            self.wf(),
            rhs.wf(),
            representable(rat_mul(self.0@, rhs.0@)),
        ensures
            rat_wf(r),
            r@ == canon(rat_mul(self.0@, rhs.0@)),
            rat_eq(r@, rat_mul(self.0@, rhs.0@)),
    {
        self.0.times(rhs.0)
    }

    /// The reciprocal time: `1 / self`.
    pub fn recip(self) -> (r: Second)
        requires
            self.wf(),
            !rat_is_zero(self.0@),
        ensures
            r.wf(),
            r.0@ == canon(rat_recip(self.0@)),
            rat_eq(r.0@, rat_recip(self.0@)),
    {
        Second(self.0.recip())
    }

    /// A scalar divided by this frequency: `s / self`, a time.
    pub fn recip_scale(self, s: Rat) -> (r: Second)
        requires
            self.wf(),
            rat_wf(s),
            !rat_is_zero(self.0@),
            representable(rat_div(s@, self.0@)),
        ensures
            r.wf(),
            r.0@ == canon(rat_div(s@, self.0@)),
            rat_eq(r.0@, rat_div(s@, self.0@)),
    {
        Second(s.div_by(self.0))
    }

}

/// Ohm's law and the power relation.
impl Amp {
    /// A current through a resistance drops a voltage.
    pub fn times_ohm(self, rhs: Ohm) -> (r: Volt)
        requires
            self.wf(),
            rhs.wf(),
            representable(rat_mul(self.0@, rhs.0@)),
        ensures
            r.wf(),
            r.0@ == canon(rat_mul(self.0@, rhs.0@)),
            rat_eq(r.0@, rat_mul(self.0@, rhs.0@)),
    {
        Volt(self.0.times(rhs.0))
    }

    /// A current times a voltage is a power.
    pub fn times_volt(self, rhs: Volt) -> (r: Watt)
        requires
            self.wf(),
            rhs.wf(),
            representable(rat_mul(self.0@, rhs.0@)),
        ensures
            r.wf(),
            r.0@ == canon(rat_mul(self.0@, rhs.0@)),
            rat_eq(r.0@, rat_mul(self.0@, rhs.0@)),
    {
        Watt(self.0.times(rhs.0))
    }

}

impl Volt {
    /// A voltage times a current is a power.
    pub fn times_amp(self, rhs: Amp) -> (r: Watt)
        requires
            self.wf(),
            rhs.wf(),
            representable(rat_mul(self.0@, rhs.0@)),
        ensures
            r.wf(),
            r.0@ == canon(rat_mul(self.0@, rhs.0@)),
            rat_eq(r.0@, rat_mul(self.0@, rhs.0@)),
    {
        Watt(self.0.times(rhs.0))
    }

    /// A voltage across a resistance drives a current.
    pub fn per_ohm(self, rhs: Ohm) -> (r: Amp)
        requires
            self.wf(),
            rhs.wf(),
            !rat_is_zero(rhs.0@),
            representable(rat_div(self.0@, rhs.0@)),
        ensures
            r.wf(),
            r.0@ == canon(rat_div(self.0@, rhs.0@)),
            rat_eq(r.0@, rat_div(self.0@, rhs.0@)),
    {
        Amp(self.0.div_by(rhs.0))
    }

    /// A voltage over a current is a resistance.
    pub fn per_amp(self, rhs: Amp) -> (r: Ohm)
        requires
            self.wf(),
            rhs.wf(),
            !rat_is_zero(rhs.0@),
            representable(rat_div(self.0@, rhs.0@)),
        ensures
            r.wf(),
            r.0@ == canon(rat_div(self.0@, rhs.0@)),
            rat_eq(r.0@, rat_div(self.0@, rhs.0@)),
    {
        Ohm(self.0.div_by(rhs.0))
    }

}

impl Siemen {
    /// A conductance times a resistance is a dimensionless scalar.
    pub fn times_ohm(self, rhs: Ohm) -> (r: Rat)
        requires
            self.wf(),
            rhs.wf(),
            representable(rat_mul(self.0@, rhs.0@)),
        ensures
            rat_wf(r),
            r@ == canon(rat_mul(self.0@, rhs.0@)),
            rat_eq(r@, rat_mul(self.0@, rhs.0@)),
    {
        self.0.times(rhs.0)
    }

    /// The reciprocal resistance: `1 / self`.
    pub fn recip(self) -> (r: Ohm)
        requires
            self.wf(),
            !rat_is_zero(self.0@),
        ensures
            r.wf(),
            r.0@ == canon(rat_recip(self.0@)),
            rat_eq(r.0@, rat_recip(self.0@)),
    {
        Ohm(self.0.recip())
    }

    /// A scalar divided by this conductance: `s / self`, a resistance.
    pub fn recip_scale(self, s: Rat) -> (r: Ohm)
        requires
            self.wf(),
            rat_wf(s),
            !rat_is_zero(self.0@),
            representable(rat_div(s@, self.0@)),
        ensures
            r.wf(),
            r.0@ == canon(rat_div(s@, self.0@)),
            rat_eq(r.0@, rat_div(s@, self.0@)),
    {
        Ohm(s.div_by(self.0))
    }

}

impl Watt {
    /// A power over a voltage is a current.
    pub fn per_volt(self, rhs: Volt) -> (r: Amp)
        requires
            self.wf(),
            rhs.wf(),
            !rat_is_zero(rhs.0@),
            representable(rat_div(self.0@, rhs.0@)),
        ensures
            r.wf(),
            r.0@ == canon(rat_div(self.0@, rhs.0@)),
            rat_eq(r.0@, rat_div(self.0@, rhs.0@)),
    {
        Amp(self.0.div_by(rhs.0))
    }

    /// A power over a current is a voltage.
    pub fn per_amp(self, rhs: Amp) -> (r: Volt)
        requires
            self.wf(),
            rhs.wf(),
            !rat_is_zero(rhs.0@),
            representable(rat_div(self.0@, rhs.0@)),
        ensures
            r.wf(),
            r.0@ == canon(rat_div(self.0@, rhs.0@)),
            rat_eq(r.0@, rat_div(self.0@, rhs.0@)),
    {
        Volt(self.0.div_by(rhs.0))
    }

}

} // verus!

//! Engineering-notation display.
//!
//! A magnitude is scaled to the nearest power-of-1000 prefix (pico through
//! mega), the number of fractional digits is chosen from the scaled
//! magnitude, and the scaled value is rendered in exact decimal with
//! round-half-away-from-zero at the last digit.

use crate::elec::{cct_wf, Cct};
use crate::rat::{
    canon, int_abs, rat_abs, rat_div, rat_is_zero, rat_le, rat_wf, representable, Rat, Ratio,
};
use crate::units::{Amp, Farad, Hertz, Ohm, Second, Siemen, Volt, Watt};
use vstd::prelude::*;

verus! {

pub open spec fn mega() -> Ratio {
    Ratio { num: 1000000, den: 1 }
}

pub open spec fn kilo() -> Ratio {
    Ratio { num: 1000, den: 1 }
}

pub open spec fn unit_scale() -> Ratio {
    Ratio { num: 1, den: 1 }
}

pub open spec fn milli() -> Ratio {
    Ratio { num: 1, den: 1000 }
}

pub open spec fn micro() -> Ratio {
    Ratio { num: 1, den: 1000000 }
}

pub open spec fn nano() -> Ratio {
    Ratio { num: 1, den: 1000000000 }
}

pub open spec fn pico() -> Ratio {
    Ratio { num: 1, den: 1000000000000 }
}

/// The scale factor of the engineering prefix for a magnitude: the largest
/// of mega, kilo, one, milli, micro and nano not exceeding the absolute
/// magnitude, pico below that, with exact zero mapped to the unit scale.
pub open spec fn eng_scale_spec(v: Ratio) -> Ratio {
    let a = rat_abs(v);
    if rat_le(mega(), a) {
        mega()
    } else if rat_le(kilo(), a) {
        kilo()
    } else if rat_le(unit_scale(), a) {
        unit_scale()
    } else if rat_le(milli(), a) {
        milli()
    } else if rat_le(micro(), a) {
        micro()
    } else if rat_le(nano(), a) {
        nano()
    } else if rat_is_zero(v) {
        unit_scale()
    } else {
        pico()
    }
}

/// The prefix symbol paired with [`eng_scale_spec`].
pub open spec fn eng_prefix_spec(v: Ratio) -> Seq<char> {
    let a = rat_abs(v);
    if rat_le(mega(), a) {
        seq!['M']
    } else if rat_le(kilo(), a) {
        seq!['k']
    } else if rat_le(unit_scale(), a) {
        Seq::<char>::empty()
    } else if rat_le(milli(), a) {
        seq!['m']
    } else if rat_le(micro(), a) {
        seq!['μ']
    } else if rat_le(nano(), a) {
        seq!['n']
    } else if rat_is_zero(v) {
        Seq::<char>::empty()
    } else {
        seq!['p']
    }
}

/// The number of fractional digits for a scaled magnitude: 0 at or above
/// 100, 1 at or above 10, 2 at or above 1, 0 for exact zero, 10 otherwise.
pub open spec fn prec_spec(v: Ratio) -> int {
    let a = rat_abs(v);
    if rat_le(Ratio { num: 100, den: 1 }, a) {
        0
    } else if rat_le(Ratio { num: 10, den: 1 }, a) {
        1
    } else if rat_le(unit_scale(), a) {
        2
    } else if rat_is_zero(v) {
        0
    } else {
        10
    }
}

/// Selects the engineering prefix and scale factor for a magnitude.
pub fn engineering(value: Rat) -> (r: (&'static str, Rat))
    requires
        rat_wf(value),
    ensures
        r.0@ == eng_prefix_spec(value@),
        rat_wf(r.1),
        r.1@ == eng_scale_spec(value@),
{
    proof {
        reveal_strlit("M");
        reveal_strlit("k");
        reveal_strlit("");
        reveal_strlit("m");
        reveal_strlit("μ");
        reveal_strlit("n");
        reveal_strlit("p");
        assert("M"@ =~= seq!['M']);
        assert("k"@ =~= seq!['k']);
        assert(""@ =~= Seq::<char>::empty());
        assert("m"@ =~= seq!['m']);
        assert("μ"@ =~= seq!['μ']);
        assert("n"@ =~= seq!['n']);
        assert("p"@ =~= seq!['p']);
    }
    let a = value.abs_val();
    if (Rat { num: 1000000, den: 1 }).le(a) {
        ("M", Rat { num: 1000000, den: 1 })
    } else if (Rat { num: 1000, den: 1 }).le(a) {
        ("k", Rat { num: 1000, den: 1 })
    } else if (Rat { num: 1, den: 1 }).le(a) {
        ("", Rat { num: 1, den: 1 })
    } else if (Rat { num: 1, den: 1000 }).le(a) {
        ("m", Rat { num: 1, den: 1000 })
    } else if (Rat { num: 1, den: 1000000 }).le(a) {
        ("μ", Rat { num: 1, den: 1000000 })
    } else if (Rat { num: 1, den: 1000000000 }).le(a) {
        ("n", Rat { num: 1, den: 1000000000 })
    } else if value.is_zero() {
        ("", Rat { num: 1, den: 1 })
    } else {
        ("p", Rat { num: 1, den: 1000000000000 })
    }
}

/// Selects the number of fractional digits for a scaled magnitude.
pub fn precision(value: Rat) -> (r: usize)
    requires
        rat_wf(value),
    ensures
        r as int == prec_spec(value@),
{
    let a = value.abs_val();
    if (Rat { num: 100, den: 1 }).le(a) {
        0
    } else if (Rat { num: 10, den: 1 }).le(a) {
        1
    } else if (Rat { num: 1, den: 1 }).le(a) {
        2
    } else if value.is_zero() {
        0
    } else {
        10
    }
}

pub open spec fn pow10(p: nat) -> nat
    decreases p,
{
    if p == 0 {
        1
    } else {
        10 * pow10((p - 1) as nat)
    }
}

pub open spec fn digit_char(d: nat) -> char {
    if d == 0 {
        '0'
    } else if d == 1 {
        '1'
    } else if d == 2 {
        '2'
    } else if d == 3 {
        '3'
    } else if d == 4 {
        '4'
    } else if d == 5 {
        '5'
    } else if d == 6 {
        '6'
    } else if d == 7 {
        '7'
    } else if d == 8 {
        '8'
    } else {
        '9'
    }
}

/// The decimal digits of `n`, most significant first.
pub open spec fn dec_seq(n: nat) -> Seq<char>
    decreases n,
{
    if n < 10 {
        seq![digit_char(n)]
    } else {
        dec_seq(n / 10).push(digit_char(n % 10))
    }
}

/// Exactly `p` decimal digits of `n`, with leading zeros.
pub open spec fn frac_seq(n: nat, p: nat) -> Seq<char>
    decreases p,
{
    if p == 0 {
        Seq::<char>::empty()
    } else {
        frac_seq(n / 10, (p - 1) as nat).push(digit_char(n % 10))
    }
}

/// The absolute magnitude of `x` scaled by `10^p` and rounded half away
/// from zero to an integer.
pub open spec fn rounded_mag(x: Ratio, p: nat) -> int {
    (2 * int_abs(x.num) * pow10(p) + x.den) / (2 * x.den)
}

/// The fixed-point rendering of `x` with `p` fractional digits: an optional
/// minus sign, the integer digits, and for positive `p` a dot and exactly
/// `p` fractional digits.
pub open spec fn number_seq(x: Ratio, p: nat) -> Seq<char> {
    let q = rounded_mag(x, p) as nat;
    let sign: Seq<char> = if x.num < 0 {
        seq!['-']
    } else {
        Seq::<char>::empty()
    };
    if p == 0 {
        sign + dec_seq(q)
    } else {
        sign + dec_seq(q / pow10(p)) + seq!['.'] + frac_seq(q % pow10(p), p)
    }
}

/// The engineering-notation rendering of a magnitude: the value scaled by
/// the selected prefix, rendered with the selected precision, followed by
/// the prefix symbol.
pub open spec fn display_spec(v: Ratio) -> Seq<char> {
    let scaled = canon(rat_div(v, eng_scale_spec(v)));
    number_seq(scaled, prec_spec(scaled) as nat) + eng_prefix_spec(v)
}

/// The scaled magnitude is representable, so a quantity can be displayed.
pub open spec fn display_ok(v: Ratio) -> bool {
    representable(rat_div(v, eng_scale_spec(v)))
}

fn digit_str(d: u128) -> (s: &'static str)
    requires
        d < 10,
    ensures
        s@ == seq![digit_char(d as nat)],
{
    proof {
        reveal_strlit("0");
        reveal_strlit("1");
        reveal_strlit("2");
        reveal_strlit("3");
        reveal_strlit("4");
        reveal_strlit("5");
        reveal_strlit("6");
        reveal_strlit("7");
        reveal_strlit("8");
        reveal_strlit("9");
        assert("0"@ =~= seq!['0']);
        assert("1"@ =~= seq!['1']);
        assert("2"@ =~= seq!['2']);
        assert("3"@ =~= seq!['3']);
        assert("4"@ =~= seq!['4']);
        assert("5"@ =~= seq!['5']);
        assert("6"@ =~= seq!['6']);
        assert("7"@ =~= seq!['7']);
        assert("8"@ =~= seq!['8']);
        assert("9"@ =~= seq!['9']);
    }
    if d == 0 {
        "0"
    } else if d == 1 {
        "1"
    } else if d == 2 {
        "2"
    } else if d == 3 {
        "3"
    } else if d == 4 {
        "4"
    } else if d == 5 {
        "5"
    } else if d == 6 {
        "6"
    } else if d == 7 {
        "7"
    } else if d == 8 {
        "8"
    } else {
        "9"
    }
}

/// Renders the decimal digits of `n`.
fn dec_string(n: u128) -> (s: String)
    ensures
        s@ == dec_seq(n as nat),
    decreases n,
{
    if n < 10 {
        String::from_str(digit_str(n))
    } else {
        let mut s = dec_string(n / 10);
        s.append(digit_str(n % 10));
        proof {
            assert(s@ =~= dec_seq(n as nat));
        }
        s
    }
}

/// Renders exactly `p` digits of `n`, with leading zeros.
fn frac_string(n: u128, p: usize) -> (s: String)
    ensures
        s@ == frac_seq(n as nat, p as nat),
    decreases p,
{
    if p == 0 {
        let s = String::new();
        proof {
            assert(s@ =~= frac_seq(n as nat, 0));
        }
        s
    } else {
        let mut s = frac_string(n / 10, p - 1);
        s.append(digit_str(n % 10));
        proof {
            assert(s@ =~= frac_seq(n as nat, p as nat));
        }
        s
    }
}

fn pow10_u128(p: usize) -> (r: u128)
    requires
        p <= 10,
    ensures
        r as nat == pow10(p as nat),
        r >= 1,
{
    proof {
        reveal_with_fuel(pow10, 12);
    }
    if p == 0 {
        1
    } else if p == 1 {
        10
    } else if p == 2 {
        100
    } else if p == 3 {
        1000
    } else if p == 4 {
        10000
    } else if p == 5 {
        100000
    } else if p == 6 {
        1000000
    } else if p == 7 {
        10000000
    } else if p == 8 {
        100000000
    } else if p == 9 {
        1000000000
    } else {
        10000000000
    }
}

/// Renders `x` in fixed point with `p` fractional digits, rounding half
/// away from zero.
pub fn number_string(x: Rat, p: usize) -> (s: String)
    requires
        rat_wf(x),
        p <= 10,
    ensures
        s@ == number_seq(x@, p as nat),
{
    proof {
        reveal_strlit("-");
        reveal_strlit(".");
        assert("-"@ =~= seq!['-']);
        assert("."@ =~= seq!['.']);
    }
    let neg = x.num < 0;
    let na: u128 = (if neg {
        -x.num
    } else {
        x.num
    }) as u128;
    let d: u128 = x.den as u128;
    let pw = pow10_u128(p);
    proof {
        assert(pow10(p as nat) <= 10000000000) by {
            reveal_with_fuel(pow10, 12);
        }
        assert(2 * (na as int) * (pw as int) + d as int <= 0x200_0000_0000_0000_0000_0000_0000)
            by (nonlinear_arith)
            requires
                na as int <= 0x4000_0000_0000_0000,
                pw as int <= 10000000000,
                d as int <= 0x4000_0000_0000_0000,
                na >= 0,
                pw >= 1,
                d >= 1,
        ;
    }
    let q = (2 * na * pw + d) / (2 * d);
    proof {
        assert(q as int == rounded_mag(x@, p as nat));
        assert(q <= 2 * na * pw + d);
    }
    let mut s = if neg {
        String::from_str("-")
    } else {
        String::new()
    };
    if p == 0 {
        let digits = dec_string(q);
        s.append(digits.as_str());
        proof {
            assert(s@ =~= number_seq(x@, 0));
        }
        s
    } else {
        let hi = dec_string(q / pw);
        let lo = frac_string(q % pw, p);
        s.append(hi.as_str());
        s.append(".");
        s.append(lo.as_str());
        proof {
            assert(s@ =~= number_seq(x@, p as nat));
        }
        s
    }
}

/// Renders a magnitude in engineering notation: scaled value, then prefix.
pub fn eng_string(value: Rat) -> (s: String)
    requires
        rat_wf(value),
        display_ok(value@),
    ensures
        s@ == display_spec(value@),
{
    let (prefix, scale) = engineering(value);
    let scaled = value.div_by(scale);
    let p = precision(scaled);
    let mut s = number_string(scaled, p);
    s.append(prefix);
    proof {
        assert(s@ =~= display_spec(value@));
    }
    s
}

impl Volt {
    /// Renders the quantity in engineering notation with its unit symbol.
    pub fn display(self) -> (s: String)
        requires
            self.wf(),
            display_ok(self.0@),
        ensures
            s@ == display_spec(self.0@) + seq!['V'],
    {
        let mut s = eng_string(self.0);
        s.append("V");
        proof {
            reveal_strlit("V");
            assert(s@ =~= display_spec(self.0@) + seq!['V']);
        }
        s
    }
}

impl Amp {
    /// Renders the quantity in engineering notation with its unit symbol.
    pub fn display(self) -> (s: String)
        requires
            self.wf(),
            display_ok(self.0@),
        ensures
            s@ == display_spec(self.0@) + seq!['A'],
    {
        let mut s = eng_string(self.0);
        s.append("A");
        proof {
            reveal_strlit("A");
            assert(s@ =~= display_spec(self.0@) + seq!['A']);
        }
        s
    }
}

impl Watt {
    /// Renders the quantity in engineering notation with its unit symbol.
    pub fn display(self) -> (s: String)
        requires
            self.wf(),
            display_ok(self.0@),
        ensures
            s@ == display_spec(self.0@) + seq!['W'],
    {
        let mut s = eng_string(self.0);
        s.append("W");
        proof {
            reveal_strlit("W");
            assert(s@ =~= display_spec(self.0@) + seq!['W']);
        }
        s
    }
}

impl Ohm {
    /// Renders the quantity in engineering notation with its unit symbol.
    pub fn display(self) -> (s: String)
        requires
            self.wf(),
            display_ok(self.0@),
        ensures
            s@ == display_spec(self.0@) + seq!['Ω'],
    {
        let mut s = eng_string(self.0);
        s.append("Ω");
        proof {
            reveal_strlit("Ω");
            assert(s@ =~= display_spec(self.0@) + seq!['Ω']);
        }
        s
    }
}

impl Siemen {
    /// Renders the quantity in engineering notation with its unit symbol.
    pub fn display(self) -> (s: String)
        requires
            self.wf(),
            display_ok(self.0@),
        ensures
            s@ == display_spec(self.0@) + seq!['S'],
    {
        let mut s = eng_string(self.0);
        s.append("S");
        proof {
            reveal_strlit("S");
            assert(s@ =~= display_spec(self.0@) + seq!['S']);
        }
        s
    }
}

impl Second {
    /// Renders the quantity in engineering notation with its unit symbol.
    pub fn display(self) -> (s: String)
        requires
            self.wf(),
            display_ok(self.0@),
        ensures
            s@ == display_spec(self.0@) + seq!['s'],
    {
        let mut s = eng_string(self.0);
        s.append("s");
        proof {
            reveal_strlit("s");
            assert(s@ =~= display_spec(self.0@) + seq!['s']);
        }
        s
    }
}

impl Farad {
    /// Renders the quantity in engineering notation with its unit symbol.
    pub fn display(self) -> (s: String)
        requires
            self.wf(),
            display_ok(self.0@),
        ensures
            s@ == display_spec(self.0@) + seq!['F'],
    {
        let mut s = eng_string(self.0);
        s.append("F");
        proof {
            reveal_strlit("F");
            assert(s@ =~= display_spec(self.0@) + seq!['F']);
        }
        s
    }
}

impl Hertz {
    /// Renders the quantity in engineering notation with its unit symbol.
    pub fn display(self) -> (s: String)
        requires
            self.wf(),
            display_ok(self.0@),
        ensures
            s@ == display_spec(self.0@) + seq!['H', 'z'],
    {
        let mut s = eng_string(self.0);
        s.append("Hz");
        proof {
            reveal_strlit("Hz");
            assert(s@ =~= display_spec(self.0@) + seq!['H', 'z']);
        }
        s
    }
}

/// What [`Cct::display`] renders: the source quantity, the composition
/// operator of the representation, and the passive quantity.
pub open spec fn cct_display_spec(c: Cct) -> Seq<char> {
    match c {
        Cct::Thevenin(v, r) => display_spec(v.0@) + seq!['V'] + seq![' ', '+', ' '] + display_spec(
            r.0@,
        ) + seq!['\u{3a9}'],
        Cct::Norton(i, g) => display_spec(i.0@) + seq!['A'] + seq![' ', '|', ' '] + display_spec(
            g.0@,
        ) + seq!['S'],
    }
}

/// Both quantities of the one-port can be displayed.
pub open spec fn cct_display_ok(c: Cct) -> bool {
    match c {
        Cct::Thevenin(v, r) => display_ok(v.0@) && display_ok(r.0@),
        Cct::Norton(i, g) => display_ok(i.0@) && display_ok(g.0@),
    }
}

impl Cct {
    /// Renders a Thevenin form as `"<voltage> + <resistance>"` and a Norton
    /// form as `"<current> | <conductance>"`.
    pub fn display(self) -> (s: String)
        requires
            cct_wf(self),
            cct_display_ok(self),
        ensures
            s@ == cct_display_spec(self),
    {
        proof {
            reveal_strlit(" + ");
            reveal_strlit(" | ");
        }
        match self {
            Cct::Thevenin(v, r) => {
                let mut s = v.display();
                s.append(" + ");
                let rs = r.display();
                s.append(rs.as_str());
                proof {
                    assert(s@ =~= cct_display_spec(self));
                }
                s
            },
            Cct::Norton(i, g) => {
                let mut s = i.display();
                s.append(" | ");
                let gs = g.display();
                s.append(gs.as_str());
                proof {
                    assert(s@ =~= cct_display_spec(self));
                }
                s
            },
        }
    }
}

} // verus!

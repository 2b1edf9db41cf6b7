use oneport::elec::Cct;
use oneport::rat::Rat;
use oneport::rcnet::f3db;
use oneport::units::{Amp, Farad, Hertz, Ohm, Second, Siemen, Volt, Watt};

#[test]
fn add_then_subtract_cancels() {
    let a = Volt(Rat::new(7, 3));
    let b = Volt(Rat::new(-2, 5));
    assert_eq!(a.plus(b).minus(b), a);
    let c = Ohm(Rat::from_int(330_000));
    let d = Ohm(Rat::new(1, 7));
    assert_eq!(c.plus(d).minus(d), c);
}

#[test]
fn parallel_combine_commutes_and_absorbs_zero() {
    let a = Ohm(Rat::from_int(300));
    let b = Ohm(Rat::from_int(150));
    let zero = Ohm(Rat::from_int(0));
    assert_eq!(a.par(b), b.par(a));
    assert_eq!(a.par(b), Ohm(Rat::from_int(100)));
    assert_eq!(a.par(zero), zero);
    assert_eq!(zero.par(a), zero);
    assert_eq!(zero.par(zero), zero);
}

#[test]
fn cross_kind_relations() {
    // Ohm's law, the power relation, and the time-constant product.
    let v = Amp(Rat::new(1, 2)).times_ohm(Ohm(Rat::from_int(10)));
    assert_eq!(v, Volt(Rat::from_int(5)));
    assert_eq!(v.times_amp(Amp(Rat::from_int(3))), Watt(Rat::from_int(15)));
    assert_eq!(v.per_ohm(Ohm(Rat::from_int(10))), Amp(Rat::new(1, 2)));
    let t = Ohm(Rat::from_int(1_000)).times_farad(Farad(Rat::new(1, 1_000_000)));
    assert_eq!(t, Second(Rat::new(1, 1_000)));
    assert_eq!(t.per_ohm(Ohm(Rat::from_int(1_000))), Farad(Rat::new(1, 1_000_000)));
    assert_eq!(Ohm(Rat::from_int(4)).recip(), Siemen(Rat::new(1, 4)));
    assert_eq!(Siemen(Rat::new(1, 4)).recip(), Ohm(Rat::from_int(4)));
    assert_eq!(Hertz(Rat::from_int(50)).recip(), Second(Rat::new(1, 50)));
}

#[test]
fn ordering_and_scaling() {
    let a = Volt(Rat::new(3, 2));
    let b = Volt(Rat::from_int(2));
    assert!(a.lt(b));
    assert!(!b.lt(a));
    assert_eq!(b.scale(Rat::new(3, 4)), a);
    assert_eq!(a.div_scale(Rat::new(3, 4)), b);
    assert_eq!(a.ratio(b), Rat::new(3, 4));
    assert_eq!(a.negate().abs_val(), a);
}

#[test]
fn corner_frequency() {
    // f3db(t) == 1 / (2 pi t) with the library's rational 2 pi.
    let t = Second(Rat::from_int(1));
    assert_eq!(
        f3db(t),
        Hertz(Rat::new(1_000_000_000_000_000, 6_283_185_307_179_586))
    );
}

#[test]
fn display_kilo_resistance() {
    let r = Ohm(Rat::from_int(330_000));
    assert_eq!(r.display(), "330kΩ");
}

#[test]
fn display_zero_current() {
    let i = Amp(Rat::from_int(0));
    assert_eq!(i.display(), "0A");
}

#[test]
fn display_prefixes_and_precision() {
    assert_eq!(Volt(Rat::from_int(5)).display(), "5.00V");
    assert_eq!(Volt(Rat::new(-5, 1)).display(), "-5.00V");
    assert_eq!(Amp(Rat::new(1, 1_000)).display(), "1.00mA");
    assert_eq!(Volt(Rat::from_int(12_500_000)).display(), "12.5MV");
    assert_eq!(Second(Rat::new(15, 1_000_000_000)).display(), "15.0ns");
    assert_eq!(Farad(Rat::new(1, 2_000_000_000_000)).display(), "0.5000000000pF");
    assert_eq!(Ohm(Rat::new(1, 3)).display(), "333mΩ");
}

#[test]
fn display_circuit() {
    let c = Cct::thevenin(Volt(Rat::from_int(5)), Ohm(Rat::from_int(10_000)));
    assert_eq!(c.display(), "5.00V + 10.0kΩ");
    let n = Cct::norton(Amp(Rat::new(1, 1_000)), Siemen(Rat::new(1, 10_000)));
    assert_eq!(n.display(), "1.00mA | 100μS");
}

use oneport::elec::{norton_wins, Cct};
use oneport::rat::Rat;
use oneport::units::{Amp, Ohm, Siemen, Volt};

fn divider3(v1: Volt, r1: Ohm, v2: Volt, r2: Ohm, v3: Volt, r3: Ohm) -> Volt {
    v1.per_ohm(r1)
        .plus(v2.per_ohm(r2))
        .plus(v3.per_ohm(r3))
        .times_ohm(r1.par(r2).par(r3))
}

#[test]
fn open_evse_cp_example() {
    let r7 = Ohm(Rat::from_int(200_000));
    let r6 = Ohm(Rat::from_int(100_000));
    let r5 = Ohm(Rat::from_int(56_000));

    let vcc = Volt(Rat::from_int(5));
    let v_cp_hi = Volt(Rat::from_int(12));
    let gnd = Volt(Rat::from_int(0));

    let cct = Cct::thevenin(v_cp_hi, r7)
        .parallel(Cct::thevenin(gnd, r6))
        .parallel(Cct::thevenin(vcc, r5));

    let v1 = cct.v_open();
    let v2 = divider3(v_cp_hi, r7, gnd, r6, vcc, r5);

    assert_eq!(v1, v2)
}

#[test]
fn doc_example() {
    let vcc = Volt(Rat::from_int(5));
    let r1 = Ohm(Rat::from_int(10_000));
    let r2 = Ohm(Rat::from_int(5_000));

    let circuit = Cct::thevenin(vcc, r1).parallel_resistor(r2);

    let v1 = circuit.v_open();
    assert_eq!(v1, vcc.scale(r2.ratio(r1.plus(r2))))
}

#[test]
fn scenario_series_then_parallel() {
    // A 5 V source in series with 10 kOhm, in parallel with 5 kOhm, leaves
    // exactly 5 * 5000 / 15000 = 5/3 V at the open terminals.
    let circuit = Cct::thevenin(Volt(Rat::from_int(5)), Ohm(Rat::from_int(10_000)))
        .parallel_resistor(Ohm(Rat::from_int(5_000)));
    assert_eq!(circuit.v_open(), Volt(Rat::new(5, 3)));
}

#[test]
fn round_trip_thevenin_norton() {
    let v = Volt(Rat::from_int(5));
    let r = Ohm(Rat::from_int(10_000));
    let t = Cct::thevenin(v, r);
    let n = Cct::norton(t.i_short(), t.g_equiv());
    assert_eq!(n.v_open(), v);
    assert_eq!(n.r_equiv(), r);
}

#[test]
fn series_associative_and_identity() {
    let a = Cct::thevenin(Volt(Rat::from_int(3)), Ohm(Rat::from_int(100)));
    let b = Cct::thevenin(Volt(Rat::new(-2, 1)), Ohm(Rat::from_int(50)));
    let c = Cct::thevenin(Volt(Rat::new(7, 2)), Ohm(Rat::from_int(75)));
    let l = a.series(b).series(c);
    let r = a.series(b.series(c));
    assert_eq!(l.v_open(), r.v_open());
    assert_eq!(l.r_equiv(), r.r_equiv());

    let zero = Cct::thevenin(Volt(Rat::from_int(0)), Ohm(Rat::from_int(0)));
    let s = a.series(zero);
    assert_eq!(s.v_open(), a.v_open());
    assert_eq!(s.r_equiv(), a.r_equiv());
}

#[test]
fn parallel_associative_and_identity() {
    let a = Cct::norton(Amp(Rat::from_int(2)), Siemen(Rat::new(1, 100)));
    let b = Cct::norton(Amp(Rat::new(-1, 1)), Siemen(Rat::new(1, 50)));
    let c = Cct::norton(Amp(Rat::new(1, 2)), Siemen(Rat::new(1, 75)));
    let l = a.parallel(b).parallel(c);
    let r = a.parallel(b.parallel(c));
    assert_eq!(l.i_short(), r.i_short());
    assert_eq!(l.g_equiv(), r.g_equiv());

    let zero = Cct::norton(Amp(Rat::from_int(0)), Siemen(Rat::from_int(0)));
    let p = a.parallel(zero);
    assert_eq!(p.i_short(), a.i_short());
    assert_eq!(p.g_equiv(), a.g_equiv());
}

#[test]
fn negation_distributes_over_composition() {
    let a = Cct::thevenin(Volt(Rat::from_int(3)), Ohm(Rat::from_int(100)));
    let b = Cct::thevenin(Volt(Rat::from_int(5)), Ohm(Rat::from_int(200)));
    assert_eq!(
        a.negate().series(b.negate()).v_open(),
        a.series(b).v_open().negate()
    );
    assert_eq!(
        a.negate().parallel(b.negate()).v_open(),
        a.parallel(b).v_open().negate()
    );
    // The passive element is untouched by negation.
    assert_eq!(a.negate().series(b.negate()).r_equiv(), a.series(b).r_equiv());
}

#[test]
fn norton_wins_heuristic() {
    let t = Cct::thevenin(Volt(Rat::from_int(1)), Ohm(Rat::from_int(10)));
    let n_small = Cct::norton(Amp(Rat::from_int(1)), Siemen(Rat::new(1, 10_000_000_000)));
    let n_exact = Cct::norton(Amp(Rat::from_int(1)), Siemen(Rat::new(1, 1_000_000_000)));
    let n_large = Cct::norton(Amp(Rat::from_int(1)), Siemen(Rat::new(1, 100)));
    assert!(!norton_wins(t, t));
    assert!(norton_wins(n_small, n_large));
    assert!(norton_wins(n_small, t));
    assert!(norton_wins(t, n_small));
    // At exactly the threshold the comparison is strict, so Thevenin wins.
    assert!(!norton_wins(t, n_exact));
    assert!(!norton_wins(n_large, t));
}

#[test]
fn lifted_operands() {
    let v = Volt(Rat::from_int(5));
    let t = Cct::thevenin(v, Ohm(Rat::from_int(1_000)));
    let s = t.series_resistor(Ohm(Rat::from_int(500)));
    assert_eq!(s.r_equiv(), Ohm(Rat::from_int(1_500)));
    assert_eq!(s.v_open(), v);
    let g = t.parallel_conductance(Siemen(Rat::new(1, 1_000)));
    assert_eq!(g.r_equiv(), Ohm(Rat::from_int(500)));
}

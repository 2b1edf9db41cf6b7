//! A small engineering-calculation library for linear one-port electrical
//! networks: typed physical quantities with unit-checked exact rational
//! arithmetic, and a Thevenin/Norton equivalent-circuit combinator engine.

pub mod rat;
pub mod units;
pub mod elec;
pub mod scale;
pub mod laws;
pub mod rcnet;

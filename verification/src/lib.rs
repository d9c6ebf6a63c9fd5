//! Fixed-point calculators for low-voltage circuit design: adiabatic earthing
//! conductor sizing, cable voltage drop, percentage drop, energy-loss costing,
//! and placeholder substitution for markdown reports.
//!
//! All physical quantities are carried as exact integers in thousandths of
//! their unit ([`Milli`]), so every formula has a precise contract instead of
//! the silent rounding of machine floats.

use vstd::prelude::*;

pub mod arith;
pub mod formulas;
pub mod render;
pub mod report;
pub mod template;

verus! {

/// A nonnegative quantity in thousandths of its unit (volts, amperes, metres,
/// square millimetres, kilowatt-hours or pounds, depending on context).
#[derive(Clone, Copy, Debug, PartialEq, Eq, Structural)]
pub struct Milli(pub u64);

/// Integer division of `n` by `d`, rounded to the nearest integer with ties
/// rounded up.
pub open spec fn round_div(n: int, d: int) -> int {
    (n + d / 2) / d
}

} // verus!

//! The circuit-design formulas: adiabatic conductor sizing, cable voltage
//! drop, percentage drop, and the cost-of-loss arithmetic.
//!
//! Each executable formula returns exactly the value of its `*_result` spec
//! function, so the outcome is a function of the arguments alone. `None` is
//! returned precisely when a divisor is zero or the result does not fit.

use vstd::prelude::*;
use crate::Milli;
use crate::round_div;
use crate::arith::isqrt;
use crate::arith::mul3_div_round;
use crate::arith::lemma_sqrt_floor_bounds;
use crate::arith::sqrt_floor;

verus! {

/// Adiabatic K factors of the usual conductor materials, in thousandths, as
/// tabulated for protective conductors in the wiring regulations.
pub struct MaterialConstants {
    /// K factor for copper conductors (143).
    pub copper: Milli,
    /// K factor for aluminum conductors (95).
    pub aluminum: Milli,
    /// K factor for steel conductors (52).
    pub steel: Milli,
}

impl Default for MaterialConstants {
    /// The standard table values: copper 143, aluminum 95, steel 52.
    fn default() -> (r: Self)
        ensures
            r.copper == (Milli(143_000)),
            r.aluminum == (Milli(95_000)),
            r.steel == (Milli(52_000)),
    {
        MaterialConstants { copper: Milli(143_000), aluminum: Milli(95_000), steel: Milli(52_000) }
    }
}

/// Minimum conductor cross-section by the adiabatic equation, in thousandths
/// of a square millimetre: `current * sqrt(duration) / k`, with the square
/// root taken to three fixed decimals and the quotient rounded to nearest.
///
/// `None` when `k` is zero or the size does not fit in a `u64`.
pub open spec fn conductor_size_result(fault_current: Milli, fault_duration: Milli, k_factor: Milli) -> Option<Milli> {
    let root = sqrt_floor((fault_duration.0 * 1_000_000_000) as nat);
    let size = round_div(fault_current.0 * root, k_factor.0 * 1000);
    if k_factor.0 > 0 && size <= u64::MAX {
        Some(Milli(size as u64))
    } else {
        None
    }
}

/// Cable voltage drop in thousandths of a volt:
/// `mv_per_amp_per_meter * current * length / 1000`, rounded to nearest.
///
/// `None` when the drop does not fit in a `u64`.
pub open spec fn voltage_drop_result(mv_per_amp_per_meter: Milli, current: Milli, length: Milli) -> Option<Milli> {
    let drop = round_div(mv_per_amp_per_meter.0 * current.0 * length.0, 1_000_000_000);
    if drop <= u64::MAX {
        Some(Milli(drop as u64))
    } else {
        None
    }
}

/// Percentage voltage drop in thousandths of a percent:
/// `voltage_drop / nominal_voltage * 100`, rounded to nearest.
///
/// `None` when the nominal voltage is zero or the result does not fit.
pub open spec fn percentage_drop_result(voltage_drop: Milli, nominal_voltage: Milli) -> Option<Milli> {
    let percent = round_div(voltage_drop.0 * 100_000, nominal_voltage.0 as int);
    if nominal_voltage.0 > 0 && percent <= u64::MAX {
        Some(Milli(percent as u64))
    } else {
        None
    }
}

/// Dissipated power in thousandths of a watt: `voltage_drop * current`,
/// rounded to nearest.
pub open spec fn power_loss_result(voltage_drop: Milli, current: Milli) -> Option<Milli> {
    let power = round_div(voltage_drop.0 * current.0, 1000);
    if power <= u64::MAX {
        Some(Milli(power as u64))
    } else {
        None
    }
}

/// Yearly dissipated energy in thousandths of a kilowatt-hour, assuming four
/// hours of use on each of 365 days: `power * 4 * 365 / 1000`, rounded.
pub open spec fn yearly_energy_result(power_loss: Milli) -> Option<Milli> {
    let energy = round_div(power_loss.0 * 1460, 1000);
    if energy <= u64::MAX {
        Some(Milli(energy as u64))
    } else {
        None
    }
}

/// Yearly cost in thousandths of a pound, for a tariff given in millionths of
/// a pound per kilowatt-hour: `energy * tariff`, rounded.
pub open spec fn energy_cost_result(yearly_energy: Milli, tariff_micro: u64) -> Option<Milli> {
    let cost = round_div(yearly_energy.0 * tariff_micro, 1_000_000);
    if cost <= u64::MAX {
        Some(Milli(cost as u64))
    } else {
        None
    }
}

/// Minimum earthing-conductor cross-sectional area by the adiabatic equation.
///
/// All quantities are in thousandths: amperes, seconds and the K factor in;
/// square millimetres out.
pub fn calculate_conductor_size(fault_current: Milli, fault_duration: Milli, k_factor: Milli) -> (r: Option<Milli>)
    ensures
        r == conductor_size_result(fault_current, fault_duration, k_factor),
        r is Some <==> k_factor.0 > 0 && round_div(
            fault_current.0 * sqrt_floor((fault_duration.0 * 1_000_000_000) as nat),
            k_factor.0 * 1000,
        ) <= u64::MAX,
{
    if k_factor.0 == 0 {
        return None;
    }
    let ghost cap: int = u64::MAX as int;
    proof {
        assert(fault_duration.0 * 1_000_000_000 <= u128::MAX) by (nonlinear_arith)
            requires
                fault_duration.0 <= u64::MAX,
        {}
    }
    let scaled_duration: u128 = (fault_duration.0 as u128) * 1_000_000_000;
    let root: u64 = isqrt(scaled_duration);
    proof {
        lemma_sqrt_floor_bounds(scaled_duration as nat);
        assert(root < 0x1_0000_0000_0000) by (nonlinear_arith)
            requires
                root * root <= scaled_duration,
                scaled_duration <= u64::MAX as int * 1_000_000_000,
                root >= 0,
        {}
        assert(fault_current.0 * root <= u128::MAX) by (nonlinear_arith)
            requires
                fault_current.0 <= u64::MAX,
                root < 0x1_0000_0000_0000,
        {}
        assert(k_factor.0 * 1000 + fault_current.0 * root < u128::MAX) by (nonlinear_arith)
            requires
                fault_current.0 <= u64::MAX,
                root < 0x1_0000_0000_0000,
                k_factor.0 <= u64::MAX,
        {}
    }
    let numerator: u128 = (fault_current.0 as u128) * (root as u128);
    let denominator: u128 = (k_factor.0 as u128) * 1000;
    let size: u128 = (numerator + denominator / 2) / denominator;
    proof {
        assert(size == round_div(
            fault_current.0 * sqrt_floor((fault_duration.0 * 1_000_000_000) as nat),
            k_factor.0 * 1000,
        ));
    }
    if size > u64::MAX as u128 {
        return None;
    }
    Some(Milli(size as u64))
}

/// Voltage drop of a cable run, from the manufacturer's millivolt per ampere
/// per metre figure, the load current and the cable length.
///
/// All quantities are in thousandths: the rating, amperes and metres in;
/// volts out.
pub fn calculate_voltage_drop(mv_per_amp_per_meter: Milli, current: Milli, length: Milli) -> (r: Option<Milli>)
    ensures
        r == voltage_drop_result(mv_per_amp_per_meter, current, length),
        r is Some <==> round_div(
            mv_per_amp_per_meter.0 * current.0 * length.0,
            1_000_000_000,
        ) <= u64::MAX,
{
    match mul3_div_round(mv_per_amp_per_meter.0, current.0, length.0, 1_000_000_000) {
        Some(v) => Some(Milli(v)),
        None => None,
    }
}

/// Percentage voltage drop of a measured drop against the nominal voltage.
///
/// Both voltages are in thousandths of a volt; the result is in thousandths
/// of a percent.
pub fn calculate_percentage_drop(voltage_drop: Milli, nominal_voltage: Milli) -> (r: Option<Milli>)
    ensures
        r == percentage_drop_result(voltage_drop, nominal_voltage),
        r is Some <==> nominal_voltage.0 > 0 && round_div(
            voltage_drop.0 * 100_000,
            nominal_voltage.0 as int,
        ) <= u64::MAX,
{
    match mul3_div_round(voltage_drop.0, 100_000, 1, nominal_voltage.0) {
        Some(v) => Some(Milli(v)),
        None => None,
    }
}

/// Power dissipated in the cable: voltage drop times current, both in
/// thousandths; the result is in thousandths of a watt.
pub fn calculate_power_loss(voltage_drop: Milli, current: Milli) -> (r: Option<Milli>)
    ensures
        r == power_loss_result(voltage_drop, current),
{
    match mul3_div_round(voltage_drop.0, current.0, 1, 1000) {
        Some(v) => Some(Milli(v)),
        None => None,
    }
}

/// Yearly energy lost in the cable at four hours of use a day, in thousandths
/// of a kilowatt-hour.
pub fn calculate_yearly_energy(power_loss: Milli) -> (r: Option<Milli>)
    ensures
        r == yearly_energy_result(power_loss),
{
    match mul3_div_round(power_loss.0, 1460, 1, 1000) {
        Some(v) => Some(Milli(v)),
        None => None,
    }
}

/// Yearly cost of the lost energy under a tariff in millionths of a pound per
/// kilowatt-hour, in thousandths of a pound.
pub fn calculate_energy_cost(yearly_energy: Milli, tariff_micro: u64) -> (r: Option<Milli>)
    ensures
        r == energy_cost_result(yearly_energy, tariff_micro),
{
    match mul3_div_round(yearly_energy.0, tariff_micro, 1, 1_000_000) {
        Some(v) => Some(Milli(v)),
        None => None,
    }
}

/// Signed difference of two yearly costs: what upgrading saves each year.
pub fn cost_difference(baseline: Milli, upgraded: Milli) -> (r: i128)
    ensures
        r == baseline.0 - upgraded.0,
{
    (baseline.0 as i128) - (upgraded.0 as i128)
}

/// The percentage-drop formula is pure: two runs on the same inputs yield
/// identical output, as its result is a function of the arguments alone.
pub proof fn lemma_percentage_drop_pure(
    voltage_drop: Milli,
    nominal_voltage: Milli,
    first: Option<Milli>,
    second: Option<Milli>,
)
    requires
        first == percentage_drop_result(voltage_drop, nominal_voltage),
        second == percentage_drop_result(voltage_drop, nominal_voltage),
    ensures
        first == second,
{
}

} // verus!


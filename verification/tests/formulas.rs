use cable_calc::Milli;
use cable_calc::formulas::MaterialConstants;
use cable_calc::formulas::calculate_conductor_size;
use cable_calc::formulas::calculate_energy_cost;
use cable_calc::formulas::calculate_percentage_drop;
use cable_calc::formulas::calculate_power_loss;
use cable_calc::formulas::calculate_voltage_drop;
use cable_calc::formulas::calculate_yearly_energy;
use cable_calc::formulas::cost_difference;

fn as_units(v: Milli) -> f64 {
    v.0 as f64 / 1000.0
}

#[test]
fn earthing_conductor_test_conductor_size_calculation() {
    let fault_current = Milli(580_000);
    let fault_duration = Milli(5_000);
    let k_factor = Milli(143_000);

    let result = calculate_conductor_size(fault_current, fault_duration, k_factor).unwrap();
    assert!((as_units(result) - 9.07).abs() < 0.01); // Allowing for small fixed-point differences
}

#[test]
fn earthing_conductor_test_voltage_drop_calculation() {
    let mv_per_amp_per_meter = Milli(4_400);
    let current = Milli(64_000);
    let length = Milli(40_000);

    let result = calculate_voltage_drop(mv_per_amp_per_meter, current, length).unwrap();
    assert!((as_units(result) - 11.26).abs() < 0.01); // Allowing for small fixed-point differences
}

#[test]
fn earthing_conductor_test_percentage_drop_calculation() {
    let voltage_drop = Milli(11_260);
    let nominal_voltage = Milli(230_000);

    let result = calculate_percentage_drop(voltage_drop, nominal_voltage).unwrap();
    assert!((as_units(result) - 4.9).abs() < 0.01); // Allowing for small fixed-point differences
}

#[test]
fn garage_earth_test_conductor_size_calculation() {
    let fault_current = Milli(580_000);
    let fault_duration = Milli(5_000);
    let k_factor = Milli(143_000);

    let result = calculate_conductor_size(fault_current, fault_duration, k_factor).unwrap();
    assert!((as_units(result) - 9.07).abs() < 0.01);
}

#[test]
fn garage_earth_test_voltage_drop_calculation() {
    let mv_per_amp_per_meter = Milli(4_400);
    let current = Milli(64_000);
    let length = Milli(40_000);

    let result = calculate_voltage_drop(mv_per_amp_per_meter, current, length).unwrap();
    assert!((as_units(result) - 11.26).abs() < 0.01);
}

#[test]
fn garage_earth_test_percentage_drop_calculation() {
    let voltage_drop = Milli(11_260);
    let nominal_voltage = Milli(230_000);

    let result = calculate_percentage_drop(voltage_drop, nominal_voltage).unwrap();
    assert!((as_units(result) - 4.9).abs() < 0.01);
}

#[test]
fn garage_supply_test_voltage_drop_calculation() {
    let mv_per_amp_per_meter = Milli(4_700);
    let current = Milli(32_000);
    let length = Milli(45_000);

    let result = calculate_voltage_drop(mv_per_amp_per_meter, current, length).unwrap();
    assert!((as_units(result) - 6.77).abs() < 0.01);
}

#[test]
fn garage_supply_test_percentage_drop_calculation() {
    let voltage_drop = Milli(6_770);
    let nominal_voltage = Milli(230_000);

    let result = calculate_percentage_drop(voltage_drop, nominal_voltage).unwrap();
    assert!((as_units(result) - 2.94).abs() < 0.01);
}

#[test]
fn conductor_size_exact_thousandths() {
    // 580 * sqrt(5) / 143 = 9.0686...; the fixed-point pipeline lands on 9.069.
    let result = calculate_conductor_size(Milli(580_000), Milli(5_000), Milli(143_000)).unwrap();
    assert_eq!(result, Milli(9_069));
}

#[test]
fn conductor_size_all_default_materials() {
    let materials = MaterialConstants::default();
    let copper =
        calculate_conductor_size(Milli(580_000), Milli(5_000), materials.copper).unwrap();
    let aluminum =
        calculate_conductor_size(Milli(580_000), Milli(5_000), materials.aluminum).unwrap();
    let steel = calculate_conductor_size(Milli(580_000), Milli(5_000), materials.steel).unwrap();
    assert!((as_units(copper) - 9.07).abs() < 0.01);
    assert!((as_units(aluminum) - 13.65).abs() < 0.01);
    assert!((as_units(steel) - 24.94).abs() < 0.01);
}

#[test]
fn conductor_size_zero_k_is_rejected() {
    assert_eq!(calculate_conductor_size(Milli(580_000), Milli(5_000), Milli(0)), None);
}

#[test]
fn voltage_drop_exact_thousandths() {
    // 4.4 mV/A/m * 64 A * 40 m / 1000 = 11.264 V exactly.
    let result = calculate_voltage_drop(Milli(4_400), Milli(64_000), Milli(40_000)).unwrap();
    assert_eq!(result, Milli(11_264));
}

#[test]
fn voltage_drop_overflow_is_rejected() {
    assert_eq!(calculate_voltage_drop(Milli(u64::MAX), Milli(u64::MAX), Milli(u64::MAX)), None);
}

#[test]
fn percentage_drop_exact_thousandths() {
    // 11.264 / 230 * 100 = 4.897...; rounded to thousandths: 4.897.
    let result = calculate_percentage_drop(Milli(11_264), Milli(230_000)).unwrap();
    assert_eq!(result, Milli(4_897));
}

#[test]
fn percentage_drop_zero_nominal_is_rejected() {
    assert_eq!(calculate_percentage_drop(Milli(11_264), Milli(0)), None);
}

#[test]
fn percentage_drop_twice_yields_identical_output() {
    let first = calculate_percentage_drop(Milli(11_264), Milli(230_000));
    let second = calculate_percentage_drop(Milli(11_264), Milli(230_000));
    assert_eq!(first, second);
}

#[test]
fn cost_of_loss_chain() {
    // 6.768 V at 32 A: 216.576 W; at 4 h/day over 365 days: 316.201 kWh.
    let drop = calculate_voltage_drop(Milli(4_700), Milli(32_000), Milli(45_000)).unwrap();
    assert_eq!(drop, Milli(6_768));
    let power = calculate_power_loss(drop, Milli(32_000)).unwrap();
    assert_eq!(power, Milli(216_576));
    let energy = calculate_yearly_energy(power).unwrap();
    assert_eq!(energy, Milli(316_201));
    let cosy = calculate_energy_cost(energy, 141_400).unwrap();
    assert_eq!(cosy, Milli(44_711));
    let go = calculate_energy_cost(energy, 85_000).unwrap();
    assert_eq!(go, Milli(26_877));
    assert_eq!(cost_difference(cosy, go), 17_834);
    assert_eq!(cost_difference(go, cosy), -17_834);
}

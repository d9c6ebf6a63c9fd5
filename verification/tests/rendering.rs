use cable_calc::Milli;
use cable_calc::arith::isqrt;
use cable_calc::render::format_two_decimals;
use cable_calc::render::u64_to_string;

#[test]
fn integer_square_roots() {
    assert_eq!(isqrt(0), 0);
    assert_eq!(isqrt(1), 1);
    assert_eq!(isqrt(24), 4);
    assert_eq!(isqrt(25), 5);
    assert_eq!(isqrt(5_000_000_000_000), 2_236_067);
    assert_eq!(isqrt(u64::MAX as u128 * u64::MAX as u128), u64::MAX);
    assert_eq!(isqrt(u128::MAX), u64::MAX);
}

#[test]
fn decimal_rendering_of_integers() {
    assert_eq!(u64_to_string(0), "0");
    assert_eq!(u64_to_string(7), "7");
    assert_eq!(u64_to_string(230), "230");
    assert_eq!(u64_to_string(u64::MAX), "18446744073709551615");
}

#[test]
fn two_decimal_rendering() {
    assert_eq!(format_two_decimals(Milli(0)), "0.00");
    assert_eq!(format_two_decimals(Milli(14)), "0.01");
    assert_eq!(format_two_decimals(Milli(15)), "0.02");
    assert_eq!(format_two_decimals(Milli(999)), "1.00");
    assert_eq!(format_two_decimals(Milli(11_264)), "11.26");
    assert_eq!(format_two_decimals(Milli(4_897)), "4.90");
    assert_eq!(format_two_decimals(Milli(9_069)), "9.07");
    assert_eq!(format_two_decimals(Milli(6_768)), "6.77");
    assert_eq!(format_two_decimals(Milli(2_943)), "2.94");
}

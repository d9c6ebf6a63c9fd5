//! The markdown reports the calculators produce: the earthing-conductor
//! study with its worked figures substituted in, and the two file-backed
//! templates whose placeholders are overwritten with computed values.

use vstd::prelude::*;
use crate::Milli;
use crate::round_div;
use crate::arith::lemma_round_le_max;
use crate::arith::lemma_sqrt_floor_bounds;
use crate::arith::sqrt_floor;
use crate::formulas::MaterialConstants;
use crate::formulas::calculate_conductor_size;
use crate::formulas::calculate_percentage_drop;
use crate::formulas::calculate_voltage_drop;
use crate::formulas::conductor_size_result;
use crate::formulas::percentage_drop_result;
use crate::formulas::voltage_drop_result;
use crate::render::format_two_decimals;
use crate::render::two_decimals;
use crate::template::replace_all;
use crate::template::replace_all_spec;
use crate::template::substitute_sequence;
use crate::template::substitute_spec;

verus! {

/// The token that the report templates carry where a computed figure belongs.
pub const PLACEHOLDER: &'static str = "{:.2}";

/// The earthing-conductor study, with a placeholder wherever a worked
/// voltage-drop figure belongs.
pub const EARTHING_TEMPLATE: &'static str = "# Earthing Conductor (UK Standards)

## Overview
An earthing conductor is a conductor that connects the main earthing terminal to an earth electrode or other means of earthing, as defined by UK electrical standards.

## Key Characteristics
- Provides a low-impedance path to ground
- Must be able to carry fault current
- Should be protected against mechanical damage
- Must maintain electrical continuity

## Common Materials
- Copper (most common in UK installations)
- Galvanized steel (for specific applications)

## Installation Requirements (BS 7671)
1. Minimum cross-sectional area based on fault current
2. Proper mechanical protection
3. Adequate bonding to earth electrode
4. Protection against corrosion

## UK Standards
- BS 7671 (IET Wiring Regulations)
- BS EN 62305 (Lightning Protection)
- BS 7430 (Code of Practice for Earthing)

## Safety Considerations
- Regular inspection required (as per BS 7671)
- Must be accessible for testing
- Should be clearly identified with green/yellow marking
- Must be protected from damage
- Must comply with Building Regulations Part P 

## Sizing 

## UK Standards Format (BS 7430)
$A = \\frac{I \\sqrt{t}}{K}$

Where:
- $A$ is the cross-sectional area in mm²
- $I$ is the earth fault current in amperes (A)
- $t$ is the duration of the fault in seconds (s)
- $K$ is a constant depending on the material of the conductor

### K Values for Common Materials
From BS 7671 Regulation 543.1.3:
> \"The value of k for a protective conductor shall be determined from Table 54.2, taking into account the material of the conductor, its initial temperature and its final temperature.\"

From BS 7671 Table 54.2:
- Copper: 143 (for initial temperature of 30°C and final temperature of 160°C)
- Aluminum: 95
- Steel: 52

## BS 88-3 C Fuse Characteristics
From BS 7671 Figure 3A1 (Fuses):
> \"For a 100A BS 88-3 C fuse, the fault current is 580A and the fault duration is 5s. This is based on the manufacturer's data and BS 7671 requirements for protective device characteristics.\"

## Current Carrying Capacity
From BS 7671 Table 4D4A, for a 2-core SWA 10mm² cable:

### Installation Methods and Current Ratings
- Method A (enclosed in conduit in wall): 52A
- Method B (enclosed in conduit on wall): 57A
- Method C (clipped direct): 64A
- Method D (buried in ground): 71A
- Method E (in free air): 71A

Note: These ratings are for copper conductors at 70°C, with an ambient temperature of 30°C. Derating factors may apply for different installation conditions.

## Voltage Drop Calculation
From BS 7671 Table 4D4B, for a 2-core SWA 10mm² cable:

### Voltage Drop Formula
Voltage drop = (mV/A/m) × I × L / 1000

Where:
- mV/A/m = 4.4 (from BS 7671 Table 4D4B)
- I = current in amperes
- L = length in meters

### Example Calculation (40m length)
For a 40m length of 2-core SWA 10mm² cable:

1. At maximum current (Method C rating of 64A):
   - Voltage drop = 4.4 × 64 × 40 / 1000
   - Voltage drop = {:.2}V
   - Percentage drop = ({:.2}/230) × 100 = {:.2}%

2. At 50% load (32A):
   - Voltage drop = 4.4 × 32 × 40 / 1000
   - Voltage drop = {:.2}V
   - Percentage drop = ({:.2}/230) × 100 = {:.2}%

Note: BS 7671 recommends that the voltage drop should not exceed 3% for lighting circuits and 5% for other circuits. In this example, the voltage drop at maximum current ({:.2}%) is within the acceptable range for power circuits but exceeds the recommended limit for lighting circuits.
";

/// The figures substituted into the earthing report, in template order: the
/// voltage drop at the full 64 A rating (twice), its percentage of 230 V, the
/// drop at half load (twice), its percentage, and the full-load percentage
/// once more.
pub open spec fn earthing_report_values() -> Seq<Seq<char>> {
    let drop_max = voltage_drop_result(Milli(4400), Milli(64_000), Milli(40_000))->0;
    let percent_max = percentage_drop_result(drop_max, Milli(230_000))->0;
    let drop_half = voltage_drop_result(Milli(4400), Milli(32_000), Milli(40_000))->0;
    let percent_half = percentage_drop_result(drop_half, Milli(230_000))->0;
    seq![
        two_decimals(drop_max.0 as nat),
        two_decimals(drop_max.0 as nat),
        two_decimals(percent_max.0 as nat),
        two_decimals(drop_half.0 as nat),
        two_decimals(drop_half.0 as nat),
        two_decimals(percent_half.0 as nat),
        two_decimals(percent_max.0 as nat),
    ]
}

/// The earthing-conductor report: the embedded template with the worked
/// figures of a 40 m run of two-core SWA cable substituted for its
/// placeholders, in the order the template presents them.
pub fn generate_markdown() -> (r: String)
    ensures
        r@ == substitute_spec(EARTHING_TEMPLATE@, PLACEHOLDER@, earthing_report_values()),
{
    proof {
        reveal_strlit("{:.2}");
        lemma_round_le_max((4400 * 64_000) as int, 40_000, 1_000_000_000);
        lemma_round_le_max((4400 * 32_000) as int, 40_000, 1_000_000_000);
    }
    let drop_max = calculate_voltage_drop(Milli(4400), Milli(64_000), Milli(40_000)).unwrap();
    proof {
        lemma_round_le_max(100_000, drop_max.0 as int, 230_000);
    }
    let percent_max = calculate_percentage_drop(drop_max, Milli(230_000)).unwrap();
    let drop_half = calculate_voltage_drop(Milli(4400), Milli(32_000), Milli(40_000)).unwrap();
    proof {
        lemma_round_le_max(100_000, drop_half.0 as int, 230_000);
    }
    let percent_half = calculate_percentage_drop(drop_half, Milli(230_000)).unwrap();
    let mut vals: Vec<String> = Vec::new();
    vals.push(format_two_decimals(drop_max));
    vals.push(format_two_decimals(drop_max));
    vals.push(format_two_decimals(percent_max));
    vals.push(format_two_decimals(drop_half));
    vals.push(format_two_decimals(drop_half));
    vals.push(format_two_decimals(percent_half));
    vals.push(format_two_decimals(percent_max));
    let r = substitute_sequence(EARTHING_TEMPLATE, PLACEHOLDER, &vals);
    proof {
        assert(vals@.map_values(|v: String| v@) =~= earthing_report_values());
    }
    r
}

/// A caller-supplied earthing template with the copper conductor size for a
/// 580 A, five-second fault written over every placeholder.
pub fn earth_report(template: &str) -> (r: String)
    ensures
        r@ == replace_all_spec(
            template@,
            PLACEHOLDER@,
            two_decimals(
                (conductor_size_result(Milli(580_000), Milli(5_000), Milli(143_000))->0).0 as nat,
            ),
        ),
{
    proof {
        reveal_strlit("{:.2}");
        lemma_sqrt_floor_bounds(5_000_000_000_000);
        let root = sqrt_floor(5_000_000_000_000);
        assert(root <= 2_236_068) by (nonlinear_arith)
            requires
                root * root <= 5_000_000_000_000,
        {}
        assert(580_000 * root <= 580_000 * 2_236_068) by (nonlinear_arith)
            requires
                0 <= root <= 2_236_068,
        {}
        vstd::arithmetic::div_mod::lemma_div_nonincreasing(
            (580_000 * root + 71_500_000) as int,
            143_000_000,
        );
        assert(round_div((580_000 * root) as int, 143_000_000) <= u64::MAX);
    }
    let materials = MaterialConstants::default();
    let size = calculate_conductor_size(Milli(580_000), Milli(5_000), materials.copper).unwrap();
    let rendered = format_two_decimals(size);
    replace_all(template, PLACEHOLDER, rendered.as_str())
}

/// A caller-supplied supply template after the original's fixed cascade of
/// replacements: for each cable size (10, 16, 25 mm²) and each load (32, 40,
/// 50 A), the voltage drop over `length` is written over every `"{:.2}V"`
/// token still present and its percentage of 230 V over every `"{:.2}%"`
/// token still present, so the first pair of figures claims all the tokens
/// and the later replacements find none.
pub open spec fn supply_report_spec(t: Seq<char>, length: Milli) -> Seq<char> {
    let nominal = Milli(230_000);
    let d_32_10 = voltage_drop_result(Milli(4700), Milli(32_000), length)->0;
    let p_32_10 = percentage_drop_result(d_32_10, nominal)->0;
    let d_40_10 = voltage_drop_result(Milli(4700), Milli(40_000), length)->0;
    let p_40_10 = percentage_drop_result(d_40_10, nominal)->0;
    let d_50_10 = voltage_drop_result(Milli(4700), Milli(50_000), length)->0;
    let p_50_10 = percentage_drop_result(d_50_10, nominal)->0;
    let d_32_16 = voltage_drop_result(Milli(2900), Milli(32_000), length)->0;
    let p_32_16 = percentage_drop_result(d_32_16, nominal)->0;
    let d_40_16 = voltage_drop_result(Milli(2900), Milli(40_000), length)->0;
    let p_40_16 = percentage_drop_result(d_40_16, nominal)->0;
    let d_50_16 = voltage_drop_result(Milli(2900), Milli(50_000), length)->0;
    let p_50_16 = percentage_drop_result(d_50_16, nominal)->0;
    let d_32_25 = voltage_drop_result(Milli(1900), Milli(32_000), length)->0;
    let p_32_25 = percentage_drop_result(d_32_25, nominal)->0;
    let d_40_25 = voltage_drop_result(Milli(1900), Milli(40_000), length)->0;
    let p_40_25 = percentage_drop_result(d_40_25, nominal)->0;
    let d_50_25 = voltage_drop_result(Milli(1900), Milli(50_000), length)->0;
    let p_50_25 = percentage_drop_result(d_50_25, nominal)->0;
    let s = replace_all_spec(t, "{:.2}V"@, two_decimals(d_32_10.0 as nat) + "V"@);
    let s = replace_all_spec(s, "{:.2}%"@, two_decimals(p_32_10.0 as nat) + "%"@);
    let s = replace_all_spec(s, "{:.2}V"@, two_decimals(d_40_10.0 as nat) + "V"@);
    let s = replace_all_spec(s, "{:.2}%"@, two_decimals(p_40_10.0 as nat) + "%"@);
    let s = replace_all_spec(s, "{:.2}V"@, two_decimals(d_50_10.0 as nat) + "V"@);
    let s = replace_all_spec(s, "{:.2}%"@, two_decimals(p_50_10.0 as nat) + "%"@);
    let s = replace_all_spec(s, "{:.2}V"@, two_decimals(d_32_16.0 as nat) + "V"@);
    let s = replace_all_spec(s, "{:.2}%"@, two_decimals(p_32_16.0 as nat) + "%"@);
    let s = replace_all_spec(s, "{:.2}V"@, two_decimals(d_40_16.0 as nat) + "V"@);
    let s = replace_all_spec(s, "{:.2}%"@, two_decimals(p_40_16.0 as nat) + "%"@);
    let s = replace_all_spec(s, "{:.2}V"@, two_decimals(d_50_16.0 as nat) + "V"@);
    let s = replace_all_spec(s, "{:.2}%"@, two_decimals(p_50_16.0 as nat) + "%"@);
    let s = replace_all_spec(s, "{:.2}V"@, two_decimals(d_32_25.0 as nat) + "V"@);
    let s = replace_all_spec(s, "{:.2}%"@, two_decimals(p_32_25.0 as nat) + "%"@);
    let s = replace_all_spec(s, "{:.2}V"@, two_decimals(d_40_25.0 as nat) + "V"@);
    let s = replace_all_spec(s, "{:.2}%"@, two_decimals(p_40_25.0 as nat) + "%"@);
    let s = replace_all_spec(s, "{:.2}V"@, two_decimals(d_50_25.0 as nat) + "V"@);
    let s = replace_all_spec(s, "{:.2}%"@, two_decimals(p_50_25.0 as nat) + "%"@);
    s
}

/// A supply template with the drops and percentage drops of every cable size
/// and load written over its tokens, in the original cascade order.
pub fn supply_report(template: &str, length: Milli) -> (r: String)
    ensures
        r@ == supply_report_spec(template@, length),
{
    proof {
        reveal_strlit("{:.2}V");
        reveal_strlit("{:.2}%");
    }
    let nominal = Milli(230_000);
    proof {
        lemma_round_le_max((4700 * 32_000) as int, length.0 as int, 1_000_000_000);
        lemma_round_le_max((4700 * 40_000) as int, length.0 as int, 1_000_000_000);
        lemma_round_le_max((4700 * 50_000) as int, length.0 as int, 1_000_000_000);
        lemma_round_le_max((2900 * 32_000) as int, length.0 as int, 1_000_000_000);
        lemma_round_le_max((2900 * 40_000) as int, length.0 as int, 1_000_000_000);
        lemma_round_le_max((2900 * 50_000) as int, length.0 as int, 1_000_000_000);
        lemma_round_le_max((1900 * 32_000) as int, length.0 as int, 1_000_000_000);
        lemma_round_le_max((1900 * 40_000) as int, length.0 as int, 1_000_000_000);
        lemma_round_le_max((1900 * 50_000) as int, length.0 as int, 1_000_000_000);
    }
    let d_32_10 = calculate_voltage_drop(Milli(4700), Milli(32_000), length).unwrap();
    proof {
        lemma_round_le_max(100_000, d_32_10.0 as int, 230_000);
    }
    let p_32_10 = calculate_percentage_drop(d_32_10, nominal).unwrap();
    let d_40_10 = calculate_voltage_drop(Milli(4700), Milli(40_000), length).unwrap();
    proof {
        lemma_round_le_max(100_000, d_40_10.0 as int, 230_000);
    }
    let p_40_10 = calculate_percentage_drop(d_40_10, nominal).unwrap();
    let d_50_10 = calculate_voltage_drop(Milli(4700), Milli(50_000), length).unwrap();
    proof {
        lemma_round_le_max(100_000, d_50_10.0 as int, 230_000);
    }
    let p_50_10 = calculate_percentage_drop(d_50_10, nominal).unwrap();
    let d_32_16 = calculate_voltage_drop(Milli(2900), Milli(32_000), length).unwrap();
    proof {
        lemma_round_le_max(100_000, d_32_16.0 as int, 230_000);
    }
    let p_32_16 = calculate_percentage_drop(d_32_16, nominal).unwrap();
    let d_40_16 = calculate_voltage_drop(Milli(2900), Milli(40_000), length).unwrap();
    proof {
        lemma_round_le_max(100_000, d_40_16.0 as int, 230_000);
    }
    let p_40_16 = calculate_percentage_drop(d_40_16, nominal).unwrap();
    let d_50_16 = calculate_voltage_drop(Milli(2900), Milli(50_000), length).unwrap();
    proof {
        lemma_round_le_max(100_000, d_50_16.0 as int, 230_000);
    }
    let p_50_16 = calculate_percentage_drop(d_50_16, nominal).unwrap();
    let d_32_25 = calculate_voltage_drop(Milli(1900), Milli(32_000), length).unwrap();
    proof {
        lemma_round_le_max(100_000, d_32_25.0 as int, 230_000);
    }
    let p_32_25 = calculate_percentage_drop(d_32_25, nominal).unwrap();
    let d_40_25 = calculate_voltage_drop(Milli(1900), Milli(40_000), length).unwrap();
    proof {
        lemma_round_le_max(100_000, d_40_25.0 as int, 230_000);
    }
    let p_40_25 = calculate_percentage_drop(d_40_25, nominal).unwrap();
    let d_50_25 = calculate_voltage_drop(Milli(1900), Milli(50_000), length).unwrap();
    proof {
        lemma_round_le_max(100_000, d_50_25.0 as int, 230_000);
    }
    let p_50_25 = calculate_percentage_drop(d_50_25, nominal).unwrap();
    let s = replace_all(template, "{:.2}V", format_two_decimals(d_32_10).concat("V").as_str());
    let s = replace_all(s.as_str(), "{:.2}%", format_two_decimals(p_32_10).concat("%").as_str());
    let s = replace_all(s.as_str(), "{:.2}V", format_two_decimals(d_40_10).concat("V").as_str());
    let s = replace_all(s.as_str(), "{:.2}%", format_two_decimals(p_40_10).concat("%").as_str());
    let s = replace_all(s.as_str(), "{:.2}V", format_two_decimals(d_50_10).concat("V").as_str());
    let s = replace_all(s.as_str(), "{:.2}%", format_two_decimals(p_50_10).concat("%").as_str());
    let s = replace_all(s.as_str(), "{:.2}V", format_two_decimals(d_32_16).concat("V").as_str());
    let s = replace_all(s.as_str(), "{:.2}%", format_two_decimals(p_32_16).concat("%").as_str());
    let s = replace_all(s.as_str(), "{:.2}V", format_two_decimals(d_40_16).concat("V").as_str());
    let s = replace_all(s.as_str(), "{:.2}%", format_two_decimals(p_40_16).concat("%").as_str());
    let s = replace_all(s.as_str(), "{:.2}V", format_two_decimals(d_50_16).concat("V").as_str());
    let s = replace_all(s.as_str(), "{:.2}%", format_two_decimals(p_50_16).concat("%").as_str());
    let s = replace_all(s.as_str(), "{:.2}V", format_two_decimals(d_32_25).concat("V").as_str());
    let s = replace_all(s.as_str(), "{:.2}%", format_two_decimals(p_32_25).concat("%").as_str());
    let s = replace_all(s.as_str(), "{:.2}V", format_two_decimals(d_40_25).concat("V").as_str());
    let s = replace_all(s.as_str(), "{:.2}%", format_two_decimals(p_40_25).concat("%").as_str());
    let s = replace_all(s.as_str(), "{:.2}V", format_two_decimals(d_50_25).concat("V").as_str());
    let s = replace_all(s.as_str(), "{:.2}%", format_two_decimals(p_50_25).concat("%").as_str());
    s
}

} // verus!

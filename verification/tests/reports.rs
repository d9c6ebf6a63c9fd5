use cable_calc::Milli;
use cable_calc::report::EARTHING_TEMPLATE;
use cable_calc::report::earth_report;
use cable_calc::report::generate_markdown;
use cable_calc::report::supply_report;
use cable_calc::template::count_token;

#[test]
fn earthing_report_substitutes_every_placeholder() {
    assert_eq!(count_token(EARTHING_TEMPLATE, "{:.2}"), 7);
    let report = generate_markdown();
    assert_eq!(count_token(&report, "{:.2}"), 0);
    assert!(report.starts_with("# Earthing Conductor (UK Standards)"));
    assert!(report.contains("Voltage drop = 11.26V"));
    assert!(report.contains("Percentage drop = (11.26/230) \u{d7} 100 = 4.90%"));
    assert!(report.contains("Voltage drop = 5.63V"));
    assert!(report.contains("Percentage drop = (5.63/230) \u{d7} 100 = 2.45%"));
    assert!(report.contains("at maximum current (4.90%)"));
}

#[test]
fn earth_report_writes_the_copper_size() {
    let out = earth_report("Copper: {:.2} mm, and again {:.2}.");
    assert_eq!(out, "Copper: 9.07 mm, and again 9.07.");
}

#[test]
fn supply_report_first_pair_claims_all_tokens() {
    let out = supply_report("drop {:.2}V gives {:.2}% of nominal; also {:.2}V", Milli(45_000));
    assert_eq!(out, "drop 6.77V gives 2.94% of nominal; also 6.77V");
}

#[test]
fn supply_report_leaves_plain_text_alone() {
    let out = supply_report("no tokens at all", Milli(45_000));
    assert_eq!(out, "no tokens at all");
}

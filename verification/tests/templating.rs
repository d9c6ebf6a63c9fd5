use cable_calc::template::count_token;
use cable_calc::template::find_token;
use cable_calc::template::replace_all;
use cable_calc::template::substitute_sequence;

#[test]
fn find_first_occurrence() {
    assert_eq!(find_token("a {:.2}V b {:.2}V", "{:.2}V"), Some(2));
    assert_eq!(find_token("a {:.2}V b", "{:.2}%"), None);
    assert_eq!(find_token("", "x"), None);
}

#[test]
fn count_occurrences_without_overlap() {
    assert_eq!(count_token("a {:.2}V b {:.2}V c {:.2}V", "{:.2}V"), 3);
    assert_eq!(count_token("aaaa", "aa"), 2);
    assert_eq!(count_token("none here", "{:.2}"), 0);
}

#[test]
fn replace_all_occurrences() {
    assert_eq!(replace_all("Size: {:.2} mm (that is, {:.2})", "{:.2}", "9.07"), "Size: 9.07 mm (that is, 9.07)");
    assert_eq!(replace_all("untouched", "{:.2}", "9.07"), "untouched");
    assert_eq!(replace_all("aaaa", "aa", "b"), "bb");
}

#[test]
fn replace_all_does_not_rescan_replacements() {
    // A replacement that contains the token is kept as written.
    assert_eq!(replace_all("x ab y", "ab", "aab"), "x aab y");
}

#[test]
fn substitution_in_request_order() {
    let vals = vec![
        String::from("11.26"),
        String::from("4.90"),
        String::from("5.63"),
    ];
    let out = substitute_sequence("V={:.2} P={:.2} H={:.2}", "{:.2}", &vals);
    assert_eq!(out, "V=11.26 P=4.90 H=5.63");
    assert_eq!(count_token(&out, "{:.2}"), 0);
}

#[test]
fn substitution_stops_when_values_run_out() {
    let vals = vec![String::from("1.00")];
    let out = substitute_sequence("a {:.2} b {:.2}", "{:.2}", &vals);
    assert_eq!(out, "a 1.00 b {:.2}");
}

#[test]
fn substitution_stops_when_tokens_run_out() {
    let vals = vec![String::from("1.00"), String::from("2.00")];
    let out = substitute_sequence("only {:.2} here", "{:.2}", &vals);
    assert_eq!(out, "only 1.00 here");
}

#[test]
fn substitution_can_recreate_the_token_across_a_boundary() {
    // The value begins with the tail of the token, so a fresh occurrence
    // appears: the input the token-removal law excludes.
    let vals = vec![String::from("b!")];
    let out = substitute_sequence("xaab", "ab", &vals);
    assert_eq!(out, "xab!");
    assert_eq!(count_token(&out, "ab"), 1);
}

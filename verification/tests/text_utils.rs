use tailscale_applet::text::{
    contains_str, contains_str_ci, lines_of, prefix_before_dot, starts_with_str,
    starts_with_str_ci, strip_quote_comma, tokens_of, trim_of,
};

#[test]
fn substring_search_finds_and_misses() {
    assert!(contains_str("WantRunning: true", "true"));
    assert!(!contains_str("WantRunning: false", "true"));
    assert!(contains_str("anything", ""));
    assert!(!contains_str("", "a"));
}

#[test]
fn case_insensitive_search_folds_ascii() {
    assert!(contains_str_ci("AdvertiseRoutes: null", "advertiseroutes"));
    assert!(contains_str_ci("SUCCESS", "success"));
    assert!(!contains_str_ci("succes", "success"));
}

#[test]
fn prefix_tests() {
    assert!(starts_with_str("\"Name\": \"x\"", "\"Name\""));
    assert!(!starts_with_str("Name", "\"Name\""));
    assert!(starts_with_str_ci("ID Tailnet", "id"));
    assert!(!starts_with_str_ci("1234 foo", "id"));
}

#[test]
fn line_splitting_matches_std() {
    let s = "a\r\nb\n\nc";
    let got = lines_of(s);
    let want: Vec<String> = s.lines().map(|l| l.to_string()).collect();
    assert_eq!(got, want);
    assert_eq!(lines_of(""), Vec::<String>::new());
    assert_eq!(lines_of("\n"), vec!["".to_string()]);
    assert_eq!(lines_of("x\n"), vec!["x".to_string()]);
}

#[test]
fn tokenization_matches_std() {
    let s = "  100.64.0.2   laptop\tuser@ linux   active  ";
    let got = tokens_of(s);
    let want: Vec<String> = s.split_whitespace().map(|t| t.to_string()).collect();
    assert_eq!(got, want);
    assert_eq!(tokens_of("   "), Vec::<String>::new());
}

#[test]
fn trimming_matches_std() {
    assert_eq!(trim_of("  x y \t"), "x y");
    assert_eq!(trim_of("\u{3000}wide\u{3000}"), "wide");
    assert_eq!(trim_of("   "), "");
    assert_eq!(trim_of(""), "");
}

#[test]
fn dot_prefix_is_the_host_part() {
    assert_eq!(prefix_before_dot("gateway.tail1234.ts.net"), "gateway");
    assert_eq!(prefix_before_dot("nodots"), "nodots");
    assert_eq!(prefix_before_dot(".leading"), "");
}

#[test]
fn quote_and_comma_removal() {
    assert_eq!(strip_quote_comma("\"alice.github\","), "alice.github");
    assert_eq!(strip_quote_comma("plain"), "plain");
}

use tailscale_applet::parse::{
    parse_accounts, parse_current_account, parse_devices, parse_exit_nodes, parse_is_exit_node,
    parse_switch_success, pref_flag_enabled,
};

const PREFS_OUTPUT: &str = "{\n  \"WantRunning\": true,\n  \"RunSSH\": false,\n  \"RouteAll\": true,\n  \"AdvertiseRoutes\": null,\n}\n";

#[test]
fn pref_flag_reads_want_running() {
    assert!(pref_flag_enabled(PREFS_OUTPUT, "WantRunning"));
}

#[test]
fn pref_flag_reads_route_all() {
    assert!(pref_flag_enabled(PREFS_OUTPUT, "RouteAll"));
}

#[test]
fn pref_flag_false_when_line_says_false() {
    assert!(!pref_flag_enabled(PREFS_OUTPUT, "RunSSH"));
}

#[test]
fn pref_flag_false_when_key_missing() {
    assert!(!pref_flag_enabled(PREFS_OUTPUT, "ShieldsUp"));
}

#[test]
fn pref_flag_false_on_empty_output() {
    assert!(!pref_flag_enabled("", "WantRunning"));
}

#[test]
fn pref_flag_needs_key_and_true_on_one_line() {
    // `true` on another line than the key does not count.
    let out = "WantRunning yes\nsomething true\n";
    assert!(!pref_flag_enabled(out, "WantRunning"));
}

const STATUS_OUTPUT: &str = "100.64.0.1      host-machine         user@ linux   -\n100.64.0.2      laptop               user@ linux   active\n100.64.0.3      phone                user@ android offline\n\n# Health check:\n";

#[test]
fn devices_drop_host_and_prepend_placeholder() {
    let devices = parse_devices(STATUS_OUTPUT).unwrap();
    assert_eq!(devices, vec!["Select".to_string(), "laptop".to_string(), "phone".to_string()]);
}

#[test]
fn devices_empty_output_leaves_placeholder_only() {
    let devices = parse_devices("").unwrap();
    assert_eq!(devices, vec!["Select".to_string()]);
}

#[test]
fn devices_line_without_name_is_refused() {
    assert!(parse_devices("100.64.0.9\n").is_none());
}

#[test]
fn devices_line_without_address_is_ignored() {
    let devices = parse_devices("no address here\n").unwrap();
    assert_eq!(devices, vec!["Select".to_string()]);
}

const EXIT_NODE_OUTPUT: &str = "IP             HOSTNAME                    COUNTRY  CITY    STATUS\n100.64.0.7     relay.tail1234.ts.net       USA      Dallas  -\n100.64.0.8     gateway.tail1234.ts.net     USA      Miami   selected\n";

#[test]
fn exit_nodes_scrape_host_part_and_prepend_none() {
    let nodes = parse_exit_nodes(EXIT_NODE_OUTPUT).unwrap();
    assert_eq!(nodes, vec!["None".to_string(), "relay".to_string(), "gateway".to_string()]);
}

#[test]
fn exit_nodes_empty_output_reports_none_found() {
    let nodes = parse_exit_nodes("").unwrap();
    assert_eq!(nodes, vec!["No exit nodes found!".to_string()]);
}

#[test]
fn exit_nodes_line_without_hostname_is_refused() {
    assert!(parse_exit_nodes("x.y.ts.net\n").is_none());
}

const ACCOUNT_OUTPUT: &str = "ID      Tailnet          Account\n1234    alice.github     alice@github*\n5678    work.example     alice@example\n";

#[test]
fn accounts_skip_header_and_keep_tailnet_column() {
    let accounts = parse_accounts(ACCOUNT_OUTPUT).unwrap();
    assert_eq!(accounts, vec!["alice.github".to_string(), "work.example".to_string()]);
}

#[test]
fn accounts_line_without_tailnet_is_refused() {
    assert!(parse_accounts("ID  Tailnet\nlonely\n").is_none());
}

#[test]
fn accounts_empty_output_is_empty() {
    assert_eq!(parse_accounts("").unwrap(), Vec::<String>::new());
}

const STATUS_JSON_OUTPUT: &str = "{\n  \"Version\": \"1.60.0\",\n  \"CurrentTailnet\": {\n    \"Name\": \"alice.github\",\n    \"MagicDNSSuffix\": \"tail1234.ts.net\",\n  },\n}\n";

#[test]
fn current_account_scrapes_name_field() {
    assert_eq!(parse_current_account(STATUS_JSON_OUTPUT).unwrap(), "alice.github".to_string());
}

#[test]
fn current_account_missing_name_is_refused() {
    assert!(parse_current_account("{}\n").is_none());
}

#[test]
fn current_account_takes_first_name_line() {
    let out = "  \"Name\": \"first.one\",\n  \"Name\": \"second.one\",\n";
    assert_eq!(parse_current_account(out).unwrap(), "first.one".to_string());
}

#[test]
fn exit_node_advertisement_null_means_not_exit_node() {
    assert!(!parse_is_exit_node(PREFS_OUTPUT));
}

#[test]
fn exit_node_advertisement_routes_mean_exit_node() {
    let out = "  \"AdvertiseRoutes\": [\"0.0.0.0/0\", \"::/0\"],\n";
    assert!(parse_is_exit_node(out));
}

#[test]
fn exit_node_advertisement_absent_counts_as_exit_node() {
    // With no advertisement line at all nothing reports null.
    assert!(parse_is_exit_node(""));
}

#[test]
fn switch_success_is_case_insensitive() {
    assert!(parse_switch_success("Success.\n"));
    assert!(parse_switch_success("switched to account, success\n"));
    assert!(!parse_switch_success("error: no such account\n"));
}

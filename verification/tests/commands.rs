use tailscale_applet::cmd::{
    account_list_args, advertise_exit_node_args, allow_lan_args, connect_args, download_directory,
    exit_node_args, exit_node_list_args, files_to_send, ip_args, prefs_args, receive_args,
    receive_status_message, send_file_args, send_status, set_routes_args, set_ssh_args,
    status_args, status_json_args, switch_args,
};

fn strs(v: &[&str]) -> Vec<String> {
    v.iter().map(|s| s.to_string()).collect()
}

#[test]
fn fixed_argument_lists() {
    assert_eq!(prefs_args(), strs(&["--host", "tailscale", "debug", "prefs"]));
    assert_eq!(ip_args(), strs(&["--host", "tailscale", "ip", "-4"]));
    assert_eq!(status_args(), strs(&["--host", "tailscale", "status"]));
    assert_eq!(status_json_args(), strs(&["--host", "tailscale", "status", "--json"]));
    assert_eq!(exit_node_list_args(), strs(&["--host", "tailscale", "exit-node", "list"]));
    assert_eq!(account_list_args(), strs(&["--host", "tailscale", "switch", "--list"]));
}

#[test]
fn connect_arguments_pick_up_or_down() {
    assert_eq!(connect_args(true), strs(&["--host", "tailscale", "up"]));
    assert_eq!(connect_args(false), strs(&["--host", "tailscale", "down"]));
}

#[test]
fn ssh_arguments_pick_flag_form() {
    assert_eq!(set_ssh_args(true), strs(&["--host", "tailscale", "set", "--ssh"]));
    assert_eq!(set_ssh_args(false), strs(&["--host", "tailscale", "set", "--ssh=false"]));
}

#[test]
fn route_arguments_pick_flag_form() {
    assert_eq!(set_routes_args(true), strs(&["--host", "tailscale", "set", "--accept-routes"]));
    assert_eq!(
        set_routes_args(false),
        strs(&["--host", "tailscale", "set", "--accept-routes=false"])
    );
}

#[test]
fn advertise_arguments_format_the_flag() {
    assert_eq!(
        advertise_exit_node_args(true),
        strs(&["--host", "tailscale", "set", "--advertise-exit-node=true"])
    );
    assert_eq!(
        advertise_exit_node_args(false),
        strs(&["--host", "tailscale", "set", "--advertise-exit-node=false"])
    );
}

#[test]
fn lan_access_arguments_format_the_flag() {
    assert_eq!(
        allow_lan_args(true),
        strs(&["--host", "tailscale", "set", "--exit-node-allow-lan-access=true"])
    );
    assert_eq!(
        allow_lan_args(false),
        strs(&["--host", "tailscale", "set", "--exit-node-allow-lan-access=false"])
    );
}

#[test]
fn exit_node_arguments_take_the_name() {
    assert_eq!(
        exit_node_args("gateway"),
        strs(&["--host", "tailscale", "set", "--exit-node=gateway"])
    );
    assert_eq!(exit_node_args(""), strs(&["--host", "tailscale", "set", "--exit-node="]));
}

#[test]
fn switch_arguments_take_the_account() {
    assert_eq!(switch_args("alice.github"), strs(&["--host", "tailscale", "switch", "alice.github"]));
}

#[test]
fn send_arguments_name_file_and_target() {
    assert_eq!(
        send_file_args("/home/user/a.txt", "laptop"),
        strs(&["--host", "tailscale", "file", "cp", "/home/user/a.txt", "laptop:"])
    );
}

#[test]
fn receive_arguments_end_the_directory_with_a_slash() {
    assert_eq!(
        receive_args("/home/user/Downloads"),
        strs(&["--host", "tailscale", "file", "get", "/home/user/Downloads/"])
    );
}

#[test]
fn download_directory_prefers_the_known_one() {
    assert_eq!(
        download_directory(Some("/data/dl".to_string()), Some("/home/user".to_string())),
        "/data/dl".to_string()
    );
}

#[test]
fn download_directory_falls_back_to_home() {
    assert_eq!(
        download_directory(None, Some("/home/user".to_string())),
        "/home/user/Downloads".to_string()
    );
}

#[test]
fn download_directory_falls_back_to_tmp() {
    assert_eq!(download_directory(None, None), "/tmp/Downloads".to_string());
}

#[test]
fn files_before_a_missing_one_are_sent() {
    let files = vec![Some("a".to_string()), Some("b".to_string()), None, Some("c".to_string())];
    let (paths, missing) = files_to_send(&files);
    assert_eq!(paths, vec!["a".to_string(), "b".to_string()]);
    assert!(missing);
}

#[test]
fn all_files_sent_when_none_is_missing() {
    let files = vec![Some("a".to_string()), Some("b".to_string())];
    let (paths, missing) = files_to_send(&files);
    assert_eq!(paths, vec!["a".to_string(), "b".to_string()]);
    assert!(!missing);
}

#[test]
fn empty_queue_sends_nothing() {
    let (paths, missing) = files_to_send(&Vec::new());
    assert!(paths.is_empty());
    assert!(!missing);
}

#[test]
fn send_status_reports_bad_path_first() {
    assert_eq!(
        send_status(true, true).unwrap(),
        "Something went wrong sending the file!\nPossible bad file path!".to_string()
    );
}

#[test]
fn send_status_reports_cli_errors() {
    assert_eq!(
        send_status(false, true).unwrap(),
        "One or more files were not sent successfully!".to_string()
    );
}

#[test]
fn send_status_silent_on_success() {
    assert!(send_status(false, false).is_none());
}

#[test]
fn receive_message_on_success() {
    assert_eq!(receive_status_message(""), "Recieved file(s) in Downloads!".to_string());
}

#[test]
fn receive_message_passes_errors_through() {
    assert_eq!(receive_status_message("no files waiting\n"), "no files waiting\n".to_string());
}

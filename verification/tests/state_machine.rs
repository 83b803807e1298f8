use tailscale_applet::state::{
    connection_text, handle_event, init_state, send_status_text, Action, AppState, Event,
    STATUS_CLEAR_TIME,
};

fn fresh_state() -> AppState {
    init_state(
        true,
        false,
        true,
        vec!["Select".to_string(), "laptop".to_string(), "phone".to_string()],
        false,
        Some(vec!["None".to_string(), "gateway".to_string()]),
        Some(0),
        Some(false),
    )
}

#[test]
fn init_fills_the_scraped_values() {
    let s = fresh_state();
    assert!(s.ssh);
    assert!(!s.routes);
    assert!(s.connect);
    assert_eq!(s.device_options, vec!["Select", "laptop", "phone"]);
    assert_eq!(s.selected_device, "Select Exit Node");
    assert_eq!(s.selected_device_idx, Some(0));
    assert!(s.send_files.is_empty());
    assert_eq!(s.send_file_status, "");
    assert!(!s.files_sent);
    assert_eq!(s.receive_file_status, "");
    assert_eq!(s.avail_exit_nodes, vec!["None", "gateway"]);
    assert_eq!(s.sel_exit_node, "Select Exit Node");
    assert_eq!(s.sel_exit_node_idx, Some(0));
    assert!(!s.allow_lan);
    assert!(!s.is_exit_node);
    assert!(s.popup.is_none());
}

#[test]
fn init_shows_busy_notice_while_host_is_exit_node() {
    let s = init_state(
        false,
        false,
        false,
        vec!["Select".to_string()],
        true,
        None,
        None,
        None,
    );
    assert_eq!(
        s.avail_exit_nodes,
        vec!["Can't select an exit node\nwhile host is an exit node!".to_string()]
    );
    assert_eq!(s.sel_exit_node_idx, None);
    assert!(!s.allow_lan);
}

#[test]
fn toggle_popup_opens_then_closes() {
    let mut s = fresh_state();
    let a = handle_event(&mut s, Event::TogglePopup);
    assert!(matches!(a, Action::OpenPopup(0)));
    assert_eq!(s.popup, Some(0));
    s.receive_file_status = "left over".to_string();
    let a = handle_event(&mut s, Event::TogglePopup);
    assert!(matches!(a, Action::ClosePopup(0)));
    assert_eq!(s.popup, None);
    assert_eq!(s.receive_file_status, "");
    let a = handle_event(&mut s, Event::TogglePopup);
    assert!(matches!(a, Action::OpenPopup(1)));
}

#[test]
fn popup_close_notice_only_counts_for_the_current_one() {
    let mut s = fresh_state();
    handle_event(&mut s, Event::TogglePopup);
    let a = handle_event(&mut s, Event::PopupClosed(7));
    assert!(matches!(a, Action::Idle));
    assert_eq!(s.popup, Some(0));
    handle_event(&mut s, Event::PopupClosed(0));
    assert_eq!(s.popup, None);
}

#[test]
fn togglers_record_and_run() {
    let mut s = fresh_state();
    assert!(matches!(handle_event(&mut s, Event::EnableSsh(false)), Action::RunSetSsh(false)));
    assert!(!s.ssh);
    assert!(matches!(handle_event(&mut s, Event::AcceptRoutes(true)), Action::RunSetRoutes(true)));
    assert!(s.routes);
    assert!(matches!(
        handle_event(&mut s, Event::ConnectDisconnect(false)),
        Action::RunConnect(false)
    ));
    assert!(!s.connect);
}

#[test]
fn selecting_a_device_rearms_the_send_flow() {
    let mut s = fresh_state();
    s.files_sent = true;
    let a = handle_event(&mut s, Event::DeviceSelected(1));
    assert!(matches!(a, Action::Idle));
    assert_eq!(s.selected_device, "laptop");
    assert_eq!(s.selected_device_idx, Some(1));
    assert!(!s.files_sent);
}

#[test]
fn selected_files_queue_up_and_reopen_the_popup() {
    let mut s = fresh_state();
    let a = handle_event(
        &mut s,
        Event::FilesSelected(vec!["/tmp/a".to_string(), "/tmp/b".to_string()]),
    );
    assert!(matches!(a, Action::OpenPopup(0)));
    assert_eq!(s.popup, Some(0));
    assert_eq!(s.send_files, vec![Some("/tmp/a".to_string()), Some("/tmp/b".to_string())]);
    assert!(!s.files_sent);
}

#[test]
fn sending_needs_a_picked_device() {
    let mut s = fresh_state();
    handle_event(&mut s, Event::FilesSelected(vec!["/tmp/a".to_string()]));
    s.selected_device = "Select".to_string();
    let a = handle_event(&mut s, Event::SendFiles);
    assert!(matches!(a, Action::Idle));
    assert!(!s.files_sent);
}

#[test]
fn sending_hands_queue_and_target_over() {
    let mut s = fresh_state();
    handle_event(&mut s, Event::FilesSelected(vec!["/tmp/a".to_string()]));
    handle_event(&mut s, Event::DeviceSelected(1));
    let a = handle_event(&mut s, Event::SendFiles);
    match a {
        Action::RunSendFiles { files, target } => {
            assert_eq!(files, vec![Some("/tmp/a".to_string())]);
            assert_eq!(target, "laptop");
        },
        _ => panic!("unexpected action"),
    }
    assert!(s.files_sent);
}

#[test]
fn finished_transfer_reports_and_clears_the_queue() {
    let mut s = fresh_state();
    handle_event(&mut s, Event::FilesSelected(vec!["/tmp/a".to_string()]));
    let a = handle_event(&mut s, Event::FilesSent(None));
    assert!(matches!(a, Action::EmitClearStatus));
    assert_eq!(s.send_file_status, "File(s) sent successfully!");
    assert!(s.send_files.is_empty());
}

#[test]
fn finished_transfer_keeps_the_error_message() {
    let mut s = fresh_state();
    let a = handle_event(&mut s, Event::FilesSent(Some("it failed".to_string())));
    assert!(matches!(a, Action::EmitClearStatus));
    assert_eq!(s.send_file_status, "it failed");
}

#[test]
fn empty_transfer_report_stays_silent() {
    let mut s = fresh_state();
    let a = handle_event(&mut s, Event::FilesSent(Some(String::new())));
    assert!(matches!(a, Action::Idle));
    assert_eq!(s.send_file_status, "");
}

#[test]
fn cancelled_dialog_reopens_the_popup() {
    let mut s = fresh_state();
    let a = handle_event(&mut s, Event::FileChoosingCancelled);
    assert!(matches!(a, Action::OpenPopup(0)));
    assert_eq!(s.popup, Some(0));
}

#[test]
fn receive_flow_reports_and_arms_the_clearer() {
    let mut s = fresh_state();
    assert!(matches!(handle_event(&mut s, Event::ReceiveFiles), Action::RunReceive));
    let a = handle_event(&mut s, Event::FilesReceived("Recieved file(s) in Downloads!".to_string()));
    assert!(matches!(a, Action::EmitClearStatus));
    assert_eq!(s.receive_file_status, "Recieved file(s) in Downloads!");
    let a = handle_event(&mut s, Event::FilesReceived(String::new()));
    assert!(matches!(a, Action::Idle));
}

#[test]
fn picking_an_exit_node_selects_and_persists_it() {
    let mut s = fresh_state();
    let a = handle_event(&mut s, Event::ExitNodeSelected(1));
    match a {
        Action::RunSetExitNode { node, config_index } => {
            assert_eq!(node, "gateway");
            assert_eq!(config_index, 1);
        },
        _ => panic!("unexpected action"),
    }
    assert_eq!(s.sel_exit_node, "gateway");
    assert_eq!(s.sel_exit_node_idx, Some(1));
}

#[test]
fn picking_the_none_entry_clears_the_exit_node() {
    let mut s = fresh_state();
    let a = handle_event(&mut s, Event::ExitNodeSelected(0));
    match a {
        Action::RunSetExitNode { node, config_index } => {
            assert_eq!(node, "");
            assert_eq!(config_index, 0);
        },
        _ => panic!("unexpected action"),
    }
}

#[test]
fn exit_node_host_ignores_node_selection() {
    let mut s = fresh_state();
    s.is_exit_node = true;
    let a = handle_event(&mut s, Event::ExitNodeSelected(1));
    assert!(matches!(a, Action::Idle));
    assert_eq!(s.sel_exit_node, "Select Exit Node");
}

#[test]
fn lan_access_runs_only_on_an_exit_node() {
    let mut s = fresh_state();
    let a = handle_event(&mut s, Event::AllowExitNodeLanAccess(true));
    assert!(matches!(a, Action::Idle));
    assert!(s.allow_lan);
    s.is_exit_node = true;
    let a = handle_event(&mut s, Event::AllowExitNodeLanAccess(false));
    assert!(matches!(a, Action::RunAllowLanAccess { allow: false }));
    assert!(!s.allow_lan);
}

#[test]
fn host_exit_node_toggle_needs_the_none_entry_picked() {
    let mut s = fresh_state();
    let a = handle_event(&mut s, Event::UpdateIsExitNode(true));
    assert!(matches!(a, Action::RunEnableExitNode { advertise: true }));
    assert!(s.is_exit_node);
    s.sel_exit_node_idx = Some(1);
    let a = handle_event(&mut s, Event::UpdateIsExitNode(false));
    assert!(matches!(a, Action::Idle));
    assert!(s.is_exit_node);
}

#[test]
fn loaded_exit_nodes_replace_the_dropdown() {
    let mut s = fresh_state();
    let a = handle_event(
        &mut s,
        Event::ExitNodesLoaded(vec!["None".to_string(), "relay".to_string()]),
    );
    assert!(matches!(a, Action::Idle));
    assert_eq!(s.avail_exit_nodes, vec!["None", "relay"]);
}

#[test]
fn clearing_serves_the_receive_report_first() {
    let mut s = fresh_state();
    s.receive_file_status = "got one".to_string();
    s.send_file_status = "sent one".to_string();
    let a = handle_event(&mut s, Event::ClearTailDropStatus);
    assert!(matches!(a, Action::ScheduleReceiveClear { seconds: STATUS_CLEAR_TIME }));
    assert_eq!(s.selected_device, "Select Exit Node");
}

#[test]
fn clearing_a_send_report_resets_the_device_dropdown() {
    let mut s = fresh_state();
    s.send_file_status = "sent one".to_string();
    s.selected_device = "laptop".to_string();
    let a = handle_event(&mut s, Event::ClearTailDropStatus);
    assert!(matches!(a, Action::ScheduleSendClear { seconds: STATUS_CLEAR_TIME }));
    assert_eq!(s.selected_device, "Select");
    assert_eq!(s.selected_device_idx, Some(0));
}

#[test]
fn clearing_with_nothing_visible_is_idle() {
    let mut s = fresh_state();
    let a = handle_event(&mut s, Event::ClearTailDropStatus);
    assert!(matches!(a, Action::Idle));
}

#[test]
fn connection_labels() {
    assert_eq!(connection_text(true), "Tailscale Connected");
    assert_eq!(connection_text(false), "Tailscale Disconnected");
}

#[test]
fn send_status_text_prefers_the_report() {
    let mut s = fresh_state();
    s.send_file_status = "it failed".to_string();
    assert_eq!(send_status_text(&s), "it failed");
}

#[test]
fn send_status_text_reports_success_after_a_send() {
    let mut s = fresh_state();
    s.files_sent = true;
    s.selected_device = "laptop".to_string();
    assert_eq!(send_status_text(&s), "File(s) were sent successfully!");
}

#[test]
fn send_status_text_guides_towards_picking_a_device() {
    let mut s = fresh_state();
    s.selected_device = "Select".to_string();
    assert_eq!(send_status_text(&s), "Choose a device first,\nthen reselect your file(s)!");
}

#[test]
fn send_status_text_is_empty_otherwise() {
    let mut s = fresh_state();
    s.selected_device = "laptop".to_string();
    assert_eq!(send_status_text(&s), "");
}

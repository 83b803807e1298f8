//! The popup applet's state machine: the state the UI renders, the
//! events the UI and the finished CLI calls raise, and the action each
//! event asks the unverified shell to perform next.

use vstd::prelude::*;
use vstd::string::*;

verus! {

/// Seconds a Tail Drop status message stays on screen.
pub const STATUS_CLEAR_TIME: u64 = 5;

/// Everything the popup renders and the update cycle mutates.
pub struct AppState {
    /// Token of the open popup window, when one is open.
    pub popup: Option<u64>,
    /// Token the next opened popup will get.
    pub next_popup_id: u64,
    /// The SSH toggle as last scraped or set.
    pub ssh: bool,
    /// The route-acceptance toggle as last scraped or set.
    pub routes: bool,
    /// The connection toggle as last scraped or set.
    pub connect: bool,
    /// The device dropdown: a placeholder entry first, then devices.
    pub device_options: Vec<String>,
    /// The device currently picked in the dropdown.
    pub selected_device: String,
    /// Index of the picked device.
    pub selected_device_idx: Option<usize>,
    /// File paths picked for sending; a missing one aborts a transfer.
    pub send_files: Vec<Option<String>>,
    /// The last send report shown under the Tail Drop row.
    pub send_file_status: String,
    /// Whether a transfer was started since files were last picked.
    pub files_sent: bool,
    /// The last receive report shown under the Tail Drop row.
    pub receive_file_status: String,
    /// The exit-node dropdown entries.
    pub avail_exit_nodes: Vec<String>,
    /// The exit node currently picked in the dropdown.
    pub sel_exit_node: String,
    /// Index of the picked exit node.
    pub sel_exit_node_idx: Option<usize>,
    /// Whether the exit node may reach the host's LAN.
    pub allow_lan: bool,
    /// Whether this host advertises itself as an exit node.
    pub is_exit_node: bool,
}

impl AppState {
    /// The state is sound: the device dropdown always offers at least
    /// its placeholder entry, which the status clearer falls back to.
    pub open spec fn wf(self) -> bool {
        self.device_options@.len() >= 1
    }
}

/// What the UI or a finished CLI call reports to the update cycle.
pub enum Event {
    /// The panel icon was pressed.
    TogglePopup,
    /// The shell closed the popup with the given token.
    PopupClosed(u64),
    /// The SSH toggler was flipped.
    EnableSsh(bool),
    /// The route-acceptance toggler was flipped.
    AcceptRoutes(bool),
    /// The connection toggler was flipped.
    ConnectDisconnect(bool),
    /// A device was picked in the dropdown.
    DeviceSelected(usize),
    /// The file-selection button was pressed.
    ChooseFiles,
    /// The file dialog returned these existing paths.
    FilesSelected(Vec<String>),
    /// The send button was pressed.
    SendFiles,
    /// A transfer finished with this report, none meaning success.
    FilesSent(Option<String>),
    /// The file dialog was dismissed.
    FileChoosingCancelled,
    /// The receive button was pressed.
    ReceiveFiles,
    /// A fetch finished with this report.
    FilesReceived(String),
    /// An exit node was picked in the dropdown.
    ExitNodeSelected(usize),
    /// The LAN-access toggler was flipped.
    AllowExitNodeLanAccess(bool),
    /// The host-exit-node toggler was flipped.
    UpdateIsExitNode(bool),
    /// A fresh exit-node list was scraped.
    ExitNodesLoaded(Vec<String>),
    /// A Tail Drop report should be cleared after its timeout.
    ClearTailDropStatus,
}

/// What the unverified shell must do after an event was handled.
pub enum Action {
    /// Nothing.
    Idle,
    /// Open a popup and remember it under the given token.
    OpenPopup(u64),
    /// Destroy the popup remembered under the given token.
    ClosePopup(u64),
    /// Run the CLI call that toggles SSH.
    RunSetSsh(bool),
    /// Run the CLI call that toggles route acceptance.
    RunSetRoutes(bool),
    /// Run the CLI call that brings the connection up or down.
    RunConnect(bool),
    /// Show the file-selection dialog.
    OpenFileDialog,
    /// Send each file to the target device and report back.
    RunSendFiles { files: Vec<Option<String>>, target: String },
    /// Fetch the waiting Tail Drop files and report back.
    RunReceive,
    /// Raise the status-clearing event.
    EmitClearStatus,
    /// Select the exit node and persist its dropdown index.
    RunSetExitNode { node: String, config_index: usize },
    /// Toggle the exit node's LAN access and persist the flag.
    RunAllowLanAccess { allow: bool },
    /// Advertise or withdraw the host as an exit node, reconnect, and
    /// report the fresh exit-node list back.
    RunEnableExitNode { advertise: bool },
    /// Clear the receive report after this many seconds.
    ScheduleReceiveClear { seconds: u64 },
    /// Clear the send report after this many seconds.
    ScheduleSendClear { seconds: u64 },
}

/// The popup token that follows `n`.
pub open spec fn next_id(n: u64) -> u64 {
    if n == u64::MAX {
        0
    } else {
        (n + 1) as u64
    }
}

/// Pressing the panel icon closes the open popup, wiping the receive
/// report, or opens a fresh one.
pub open spec fn post_toggle_popup(pre: AppState, post: AppState, a: Action) -> bool {
    match pre.popup {
        Option::Some(p) => {
            &&& post == (AppState {
                popup: None,
                receive_file_status: post.receive_file_status,
                ..pre
            })
            &&& post.receive_file_status@ == Seq::<char>::empty()
            &&& a == Action::ClosePopup(p)
        },
        Option::None => {
            &&& post == (AppState {
                popup: Some(pre.next_popup_id),
                next_popup_id: post.next_popup_id,
                ..pre
            })
            &&& post.next_popup_id == next_id(pre.next_popup_id)
            &&& a == Action::OpenPopup(pre.next_popup_id)
        },
    }
}

/// A close notice forgets the popup only when its token is current.
pub open spec fn post_popup_closed(pre: AppState, post: AppState, a: Action, id: u64) -> bool {
    &&& post == (AppState {
        popup: if pre.popup == Some(id) {
            None
        } else {
            pre.popup
        },
        ..pre
    })
    &&& a == Action::Idle
}

/// Flipping the SSH toggler records it and runs the CLI call.
pub open spec fn post_enable_ssh(pre: AppState, post: AppState, a: Action, enabled: bool) -> bool {
    &&& post == (AppState { ssh: enabled, ..pre })
    &&& a == Action::RunSetSsh(enabled)
}

/// Flipping the route toggler records it and runs the CLI call.
pub open spec fn post_accept_routes(
    pre: AppState,
    post: AppState,
    a: Action,
    accepted: bool,
) -> bool {
    &&& post == (AppState { routes: accepted, ..pre })
    &&& a == Action::RunSetRoutes(accepted)
}

/// Flipping the connection toggler records it and runs the CLI call.
pub open spec fn post_connect(pre: AppState, post: AppState, a: Action, up: bool) -> bool {
    &&& post == (AppState { connect: up, ..pre })
    &&& a == Action::RunConnect(up)
}

/// Picking a device records it and rearms the send flow.
pub open spec fn post_device_selected(
    pre: AppState,
    post: AppState,
    a: Action,
    device: usize,
) -> bool {
    &&& post == (AppState {
        selected_device: pre.device_options@[device as int],
        selected_device_idx: Some(device),
        files_sent: false,
        ..pre
    })
    &&& a == Action::Idle
}

/// The file button only opens the dialog.
pub open spec fn post_choose_files(pre: AppState, post: AppState, a: Action) -> bool {
    &&& post == pre
    &&& a == Action::OpenFileDialog
}

/// Picked paths are queued for sending and the popup reopens.
pub open spec fn post_files_selected(
    pre: AppState,
    post: AppState,
    a: Action,
    paths: Vec<String>,
) -> bool {
    &&& post == (AppState {
        send_files: post.send_files,
        files_sent: false,
        popup: Some(pre.next_popup_id),
        next_popup_id: post.next_popup_id,
        ..pre
    })
    &&& post.send_files@ == pre.send_files@ + paths@.map_values(|p: String| Some(p))
    &&& post.next_popup_id == next_id(pre.next_popup_id)
    &&& a == Action::OpenPopup(pre.next_popup_id)
}

/// The send button starts a transfer of the queued files to the picked
/// device, unless the placeholder is still picked.
pub open spec fn post_send_files(pre: AppState, post: AppState, a: Action) -> bool {
    if pre.selected_device@ != "Select"@ {
        &&& post == (AppState { files_sent: true, ..pre })
        &&& a matches Action::RunSendFiles { files, target }
        &&& files@ == pre.send_files@
        &&& target == pre.selected_device
    } else {
        &&& post == pre
        &&& a == Action::Idle
    }
}

/// A finished transfer reports its outcome; any visible report empties
/// the queue and arms the status clearer.
pub open spec fn post_files_sent(
    pre: AppState,
    post: AppState,
    a: Action,
    status: Option<String>,
) -> bool {
    &&& match status {
        Option::Some(v) => post.send_file_status == v,
        Option::None => post.send_file_status@ == "File(s) sent successfully!"@,
    }
    &&& if post.send_file_status@.len() > 0 {
        &&& post == (AppState {
            send_file_status: post.send_file_status,
            send_files: post.send_files,
            ..pre
        })
        &&& post.send_files@ == if pre.send_files@.len() > 0 {
            Seq::<Option<String>>::empty()
        } else {
            pre.send_files@
        }
        &&& a == Action::EmitClearStatus
    } else {
        &&& post == (AppState { send_file_status: post.send_file_status, ..pre })
        &&& a == Action::Idle
    }
}

/// A dismissed dialog reopens the popup.
pub open spec fn post_file_choosing_cancelled(pre: AppState, post: AppState, a: Action) -> bool {
    &&& post == (AppState {
        popup: Some(pre.next_popup_id),
        next_popup_id: post.next_popup_id,
        ..pre
    })
    &&& post.next_popup_id == next_id(pre.next_popup_id)
    &&& a == Action::OpenPopup(pre.next_popup_id)
}

/// The receive button starts a fetch.
pub open spec fn post_receive_files(pre: AppState, post: AppState, a: Action) -> bool {
    &&& post == pre
    &&& a == Action::RunReceive
}

/// A finished fetch shows its report; a visible one arms the clearer.
pub open spec fn post_files_received(
    pre: AppState,
    post: AppState,
    a: Action,
    status: String,
) -> bool {
    &&& post == (AppState { receive_file_status: status, ..pre })
    &&& a == if status@.len() > 0 {
        Action::EmitClearStatus
    } else {
        Action::Idle
    }
}

/// Picking an exit node records it, selects it through the CLI and
/// persists the choice, unless this host is itself an exit node.
pub open spec fn post_exit_node_selected(
    pre: AppState,
    post: AppState,
    a: Action,
    node: usize,
) -> bool {
    if pre.is_exit_node {
        &&& post == pre
        &&& a == Action::Idle
    } else {
        &&& post == (AppState {
            sel_exit_node: pre.avail_exit_nodes@[node as int],
            sel_exit_node_idx: Some(node),
            ..pre
        })
        &&& a matches Action::RunSetExitNode { node: picked, config_index }
        &&& config_index == node
        &&& picked@ == if node == 0 {
            Seq::<char>::empty()
        } else {
            pre.avail_exit_nodes@[node as int]@
        }
    }
}

/// Flipping the LAN toggler records it; only an exit node runs the CLI
/// call and persists the flag.
pub open spec fn post_allow_lan(pre: AppState, post: AppState, a: Action, allow: bool) -> bool {
    &&& post == (AppState { allow_lan: allow, ..pre })
    &&& a == if pre.is_exit_node {
        Action::RunAllowLanAccess { allow }
    } else {
        Action::Idle
    }
}

/// Flipping the host-exit-node toggler takes effect only while no
/// foreign exit node is picked.
pub open spec fn post_update_is_exit_node(
    pre: AppState,
    post: AppState,
    a: Action,
    advertise: bool,
) -> bool {
    if pre.sel_exit_node_idx == Some(0usize) {
        &&& post == (AppState { is_exit_node: advertise, ..pre })
        &&& a == (Action::RunEnableExitNode { advertise })
    } else {
        &&& post == pre
        &&& a == Action::Idle
    }
}

/// A fresh exit-node list replaces the dropdown entries.
pub open spec fn post_exit_nodes_loaded(
    pre: AppState,
    post: AppState,
    a: Action,
    list: Vec<String>,
) -> bool {
    &&& post == (AppState { avail_exit_nodes: list, ..pre })
    &&& a == Action::Idle
}

/// Clearing first serves a visible receive report, then a send report,
/// which also resets the device dropdown to its placeholder.
pub open spec fn post_clear_status(pre: AppState, post: AppState, a: Action) -> bool {
    if pre.receive_file_status@.len() > 0 {
        &&& post == pre
        &&& a == (Action::ScheduleReceiveClear { seconds: STATUS_CLEAR_TIME })
    } else if pre.send_file_status@.len() > 0 || pre.files_sent {
        &&& post == (AppState {
            selected_device_idx: Some(0usize),
            selected_device: pre.device_options@[0],
            ..pre
        })
        &&& a == (Action::ScheduleSendClear { seconds: STATUS_CLEAR_TIME })
    } else {
        &&& post == pre
        &&& a == Action::Idle
    }
}

/// A value copy of the send queue, element for element.
fn clone_files(files: &Vec<Option<String>>) -> (r: Vec<Option<String>>)
    ensures
        r@ == files@,
{
    let mut r: Vec<Option<String>> = Vec::new();
    let mut i: usize = 0;
    while i < files.len()
        invariant
            i <= files@.len(),
            r@ == files@.subrange(0, i as int),
        decreases files@.len() - i,
    {
        match &files[i] {
            Option::Some(p) => {
                r.push(Some(p.clone()));
            },
            Option::None => {
                r.push(None);
            },
        }
        proof {
            assert(r@ =~= files@.subrange(0, i + 1));
        }
        i = i + 1;
    }
    proof {
        assert(files@.subrange(0, files@.len() as int) =~= files@);
    }
    r
}

/// One turn of the update cycle: the event mutates the state exactly as
/// its postcondition says and names the action the shell performs next.
pub fn handle_event(state: &mut AppState, event: Event) -> (a: Action)
    requires
        old(state).wf(),
        event matches Event::DeviceSelected(i) ==> i < old(state).device_options@.len(),
        event matches Event::ExitNodeSelected(i) ==> old(state).is_exit_node || i < old(
            state,
        ).avail_exit_nodes@.len(),
    ensures
        final(state).wf(),
        match event {
            Event::TogglePopup => post_toggle_popup(*old(state), *final(state), a),
            Event::PopupClosed(id) => post_popup_closed(*old(state), *final(state), a, id),
            Event::EnableSsh(b) => post_enable_ssh(*old(state), *final(state), a, b),
            Event::AcceptRoutes(b) => post_accept_routes(*old(state), *final(state), a, b),
            Event::ConnectDisconnect(b) => post_connect(*old(state), *final(state), a, b),
            Event::DeviceSelected(i) => post_device_selected(*old(state), *final(state), a, i),
            Event::ChooseFiles => post_choose_files(*old(state), *final(state), a),
            Event::FilesSelected(paths) => post_files_selected(*old(state), *final(state), a, paths),
            Event::SendFiles => post_send_files(*old(state), *final(state), a),
            Event::FilesSent(st) => post_files_sent(*old(state), *final(state), a, st),
            Event::FileChoosingCancelled => post_file_choosing_cancelled(
                *old(state),
                *final(state),
                a,
            ),
            Event::ReceiveFiles => post_receive_files(*old(state), *final(state), a),
            Event::FilesReceived(st) => post_files_received(*old(state), *final(state), a, st),
            Event::ExitNodeSelected(i) => post_exit_node_selected(*old(state), *final(state), a, i),
            Event::AllowExitNodeLanAccess(b) => post_allow_lan(*old(state), *final(state), a, b),
            Event::UpdateIsExitNode(b) => post_update_is_exit_node(*old(state), *final(state), a, b),
            Event::ExitNodesLoaded(list) => post_exit_nodes_loaded(*old(state), *final(state), a, list),
            Event::ClearTailDropStatus => post_clear_status(*old(state), *final(state), a),
        },
{
    match event {
        Event::TogglePopup => {
            match state.popup {
                Option::Some(p) => {
                    state.receive_file_status = String::new();
                    state.popup = None;
                    Action::ClosePopup(p)
                },
                Option::None => {
                    let nid = state.next_popup_id;
                    state.popup = Some(nid);
                    state.next_popup_id = if nid == u64::MAX {
                        0
                    } else {
                        nid + 1
                    };
                    Action::OpenPopup(nid)
                },
            }
        },
        Event::PopupClosed(id) => {
            let same = match state.popup {
                Option::Some(p) => p == id,
                Option::None => false,
            };
            if same {
                state.popup = None;
            }
            Action::Idle
        },
        Event::EnableSsh(b) => {
            state.ssh = b;
            Action::RunSetSsh(b)
        },
        Event::AcceptRoutes(b) => {
            state.routes = b;
            Action::RunSetRoutes(b)
        },
        Event::ConnectDisconnect(b) => {
            state.connect = b;
            Action::RunConnect(b)
        },
        Event::DeviceSelected(i) => {
            state.selected_device = state.device_options[i].clone();
            state.selected_device_idx = Some(i);
            state.files_sent = false;
            Action::Idle
        },
        Event::ChooseFiles => Action::OpenFileDialog,
        Event::FilesSelected(paths) => {
            let ghost pre_files = state.send_files@;
            let mut j: usize = 0;
            while j < paths.len()
                invariant
                    j <= paths@.len(),
                    *state == (AppState { send_files: state.send_files, ..*old(state) }),
                    state.send_files@ == pre_files + paths@.subrange(0, j as int).map_values(
                        |p: String| Some(p),
                    ),
                decreases paths@.len() - j,
            {
                let p = paths[j].clone();
                state.send_files.push(Some(p));
                proof {
                    assert(pre_files + paths@.subrange(0, j as int).map_values(
                        |p: String| Some(p),
                    ).push(Some(paths@[j as int])) =~= pre_files + paths@.subrange(
                        0,
                        j + 1,
                    ).map_values(|p: String| Some(p)));
                }
                j = j + 1;
            }
            proof {
                assert(paths@.subrange(0, paths@.len() as int) =~= paths@);
            }
            state.files_sent = false;
            let nid = state.next_popup_id;
            state.popup = Some(nid);
            state.next_popup_id = if nid == u64::MAX {
                0
            } else {
                nid + 1
            };
            Action::OpenPopup(nid)
        },
        Event::SendFiles => {
            if !(state.selected_device == "Select".to_owned()) {
                state.files_sent = true;
                let files = clone_files(&state.send_files);
                let target = state.selected_device.clone();
                Action::RunSendFiles { files, target }
            } else {
                Action::Idle
            }
        },
        Event::FilesSent(st) => {
            state.send_file_status = match st {
                Option::Some(v) => v,
                Option::None => "File(s) sent successfully!".to_owned(),
            };
            if !state.send_file_status.as_str().is_empty() {
                if state.send_files.len() > 0 {
                    state.send_files = Vec::new();
                    proof {
                        assert(state.send_files@ =~= Seq::<Option<String>>::empty());
                    }
                }
                Action::EmitClearStatus
            } else {
                Action::Idle
            }
        },
        Event::FileChoosingCancelled => {
            let nid = state.next_popup_id;
            state.popup = Some(nid);
            state.next_popup_id = if nid == u64::MAX {
                0
            } else {
                nid + 1
            };
            Action::OpenPopup(nid)
        },
        Event::ReceiveFiles => Action::RunReceive,
        Event::FilesReceived(st) => {
            let visible = !st.as_str().is_empty();
            state.receive_file_status = st;
            if visible {
                Action::EmitClearStatus
            } else {
                Action::Idle
            }
        },
        Event::ExitNodeSelected(i) => {
            if !state.is_exit_node {
                state.sel_exit_node = state.avail_exit_nodes[i].clone();
                state.sel_exit_node_idx = Some(i);
                let node = if i == 0 {
                    String::new()
                } else {
                    state.avail_exit_nodes[i].clone()
                };
                Action::RunSetExitNode { node, config_index: i }
            } else {
                Action::Idle
            }
        },
        Event::AllowExitNodeLanAccess(b) => {
            state.allow_lan = b;
            if state.is_exit_node {
                Action::RunAllowLanAccess { allow: b }
            } else {
                Action::Idle
            }
        },
        Event::UpdateIsExitNode(b) => {
            let armed = match state.sel_exit_node_idx {
                Option::Some(idx) => idx == 0,
                Option::None => false,
            };
            if armed {
                state.is_exit_node = b;
                Action::RunEnableExitNode { advertise: b }
            } else {
                Action::Idle
            }
        },
        Event::ExitNodesLoaded(list) => {
            state.avail_exit_nodes = list;
            Action::Idle
        },
        Event::ClearTailDropStatus => {
            if !state.receive_file_status.as_str().is_empty() {
                Action::ScheduleReceiveClear { seconds: STATUS_CLEAR_TIME }
            } else if !state.send_file_status.as_str().is_empty() || state.files_sent {
                state.selected_device_idx = Some(0);
                state.selected_device = state.device_options[0].clone();
                Action::ScheduleSendClear { seconds: STATUS_CLEAR_TIME }
            } else {
                Action::Idle
            }
        },
    }
}

/// The state the popup starts from, built from what the CLI scrapes and
/// the persisted configuration reported. The caller fetches the
/// exit-node list exactly when the host is no exit node, and hands
/// `None` otherwise, which shows the busy notice instead.
pub fn init_state(
    ssh: bool,
    routes: bool,
    connect: bool,
    devices: Vec<String>,
    is_exit_node: bool,
    exit_nodes: Option<Vec<String>>,
    cfg_exit_node_idx: Option<usize>,
    cfg_allow_lan: Option<bool>,
) -> (s: AppState)
    requires
        devices@.len() >= 1,
    ensures
        s.wf(),
        s.popup is None,
        s.next_popup_id == 0,
        s.ssh == ssh,
        s.routes == routes,
        s.connect == connect,
        s.device_options == devices,
        s.selected_device@ == "Select Exit Node"@,
        s.selected_device_idx == Some(0usize),
        s.send_files@ == Seq::<Option<String>>::empty(),
        s.send_file_status@ == Seq::<char>::empty(),
        s.files_sent == false,
        s.receive_file_status@ == Seq::<char>::empty(),
        (match exit_nodes {
            Option::Some(v) => s.avail_exit_nodes == v,
            Option::None => s.avail_exit_nodes.deep_view() == seq![
                "Can't select an exit node\nwhile host is an exit node!"@,
            ],
        }),
        s.sel_exit_node@ == "Select Exit Node"@,
        s.sel_exit_node_idx == cfg_exit_node_idx,
        s.allow_lan == (match cfg_allow_lan {
            Option::Some(b) => b,
            Option::None => false,
        }),
        s.is_exit_node == is_exit_node,
{
    let avail = match exit_nodes {
        Option::Some(v) => v,
        Option::None => {
            let mut busy: Vec<String> = Vec::new();
            busy.push("Can't select an exit node\nwhile host is an exit node!".to_owned());
            proof {
                assert(busy.deep_view() =~= seq![
                    "Can't select an exit node\nwhile host is an exit node!"@,
                ]);
            }
            busy
        },
    };
    let allow_lan = match cfg_allow_lan {
        Option::Some(b) => b,
        Option::None => false,
    };
    AppState {
        popup: None,
        next_popup_id: 0,
        ssh,
        routes,
        connect,
        device_options: devices,
        selected_device: "Select Exit Node".to_owned(),
        selected_device_idx: Some(0),
        send_files: Vec::new(),
        send_file_status: String::new(),
        files_sent: false,
        receive_file_status: String::new(),
        avail_exit_nodes: avail,
        sel_exit_node: "Select Exit Node".to_owned(),
        sel_exit_node_idx: cfg_exit_node_idx,
        allow_lan,
        is_exit_node,
    }
}

/// The label shown for the connection state in the status row.
pub fn connection_text(connected: bool) -> (r: String)
    ensures
        r@ == if connected {
            "Tailscale Connected"@
        } else {
            "Tailscale Disconnected"@
        },
{
    if connected {
        "Tailscale Connected".to_owned()
    } else {
        "Tailscale Disconnected".to_owned()
    }
}

/// The text under the Tail Drop row: a transfer report when one is
/// visible, else a success or guidance notice as the send flow stands.
pub fn send_status_text(state: &AppState) -> (r: String)
    ensures
        state.send_file_status@.len() > 0 ==> r@ == state.send_file_status@,
        state.send_file_status@.len() == 0 ==> {
            if state.files_sent && state.selected_device@ != "Select"@ {
                r@ == "File(s) were sent successfully!"@
            } else if state.selected_device@ == "Select"@ && !state.files_sent {
                r@ == "Choose a device first,\nthen reselect your file(s)!"@
            } else {
                r@ == Seq::<char>::empty()
            }
        },
{
    if !state.send_file_status.as_str().is_empty() {
        state.send_file_status.clone()
    } else {
        let placeholder = state.selected_device == "Select".to_owned();
        if state.files_sent && !placeholder {
            "File(s) were sent successfully!".to_owned()
        } else if placeholder && !state.files_sent {
            "Choose a device first,\nthen reselect your file(s)!".to_owned()
        } else {
            String::new()
        }
    }
}

} // verus!

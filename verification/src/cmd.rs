//! Builders for the argument lists handed to the spawned CLI, and the
//! decisions around sending and receiving files, with exact contracts.

use vstd::prelude::*;
use vstd::string::*;

verus! {

/// Arguments that read the preference dump: `tailscale debug prefs`.
pub fn prefs_args() -> (r: Vec<String>)
    ensures
        r.deep_view() == seq!["--host"@, "tailscale"@, "debug"@, "prefs"@],
{
    let mut r: Vec<String> = Vec::new();
    r.push("--host".to_owned());
    r.push("tailscale".to_owned());
    r.push("debug".to_owned());
    r.push("prefs".to_owned());
    proof {
        assert(r.deep_view() =~= seq!["--host"@, "tailscale"@, "debug"@, "prefs"@]);
    }
    r
}

/// Arguments that read the host's IPv4 address: `tailscale ip -4`.
pub fn ip_args() -> (r: Vec<String>)
    ensures
        r.deep_view() == seq!["--host"@, "tailscale"@, "ip"@, "-4"@],
{
    let mut r: Vec<String> = Vec::new();
    r.push("--host".to_owned());
    r.push("tailscale".to_owned());
    r.push("ip".to_owned());
    r.push("-4".to_owned());
    proof {
        assert(r.deep_view() =~= seq!["--host"@, "tailscale"@, "ip"@, "-4"@]);
    }
    r
}

/// Arguments that list the tailnet devices: `tailscale status`.
pub fn status_args() -> (r: Vec<String>)
    ensures
        r.deep_view() == seq!["--host"@, "tailscale"@, "status"@],
{
    let mut r: Vec<String> = Vec::new();
    r.push("--host".to_owned());
    r.push("tailscale".to_owned());
    r.push("status".to_owned());
    proof {
        assert(r.deep_view() =~= seq!["--host"@, "tailscale"@, "status"@]);
    }
    r
}

/// Arguments that dump the status as JSON: `tailscale status --json`.
pub fn status_json_args() -> (r: Vec<String>)
    ensures
        r.deep_view() == seq!["--host"@, "tailscale"@, "status"@, "--json"@],
{
    let mut r: Vec<String> = Vec::new();
    r.push("--host".to_owned());
    r.push("tailscale".to_owned());
    r.push("status".to_owned());
    r.push("--json".to_owned());
    proof {
        assert(r.deep_view() =~= seq!["--host"@, "tailscale"@, "status"@, "--json"@]);
    }
    r
}

/// Arguments that list the exit nodes: `tailscale exit-node list`.
pub fn exit_node_list_args() -> (r: Vec<String>)
    ensures
        r.deep_view() == seq!["--host"@, "tailscale"@, "exit-node"@, "list"@],
{
    let mut r: Vec<String> = Vec::new();
    r.push("--host".to_owned());
    r.push("tailscale".to_owned());
    r.push("exit-node".to_owned());
    r.push("list".to_owned());
    proof {
        assert(r.deep_view() =~= seq!["--host"@, "tailscale"@, "exit-node"@, "list"@]);
    }
    r
}

/// Arguments that list the accounts: `tailscale switch --list`.
pub fn account_list_args() -> (r: Vec<String>)
    ensures
        r.deep_view() == seq!["--host"@, "tailscale"@, "switch"@, "--list"@],
{
    let mut r: Vec<String> = Vec::new();
    r.push("--host".to_owned());
    r.push("tailscale".to_owned());
    r.push("switch".to_owned());
    r.push("--list".to_owned());
    proof {
        assert(r.deep_view() =~= seq!["--host"@, "tailscale"@, "switch"@, "--list"@]);
    }
    r
}

/// Arguments that switch to the named account: `tailscale switch NAME`.
pub fn switch_args(account: &str) -> (r: Vec<String>)
    ensures
        r.deep_view() == seq!["--host"@, "tailscale"@, "switch"@, account@],
{
    let mut r: Vec<String> = Vec::new();
    r.push("--host".to_owned());
    r.push("tailscale".to_owned());
    r.push("switch".to_owned());
    r.push(account.to_owned());
    proof {
        assert(r.deep_view() =~= seq!["--host"@, "tailscale"@, "switch"@, account@]);
    }
    r
}

/// Arguments that bring the connection up or down: `tailscale up` or
/// `tailscale down`.
pub fn connect_args(up: bool) -> (r: Vec<String>)
    ensures
        r.deep_view() == seq![
            "--host"@,
            "tailscale"@,
            if up {
                "up"@
            } else {
                "down"@
            },
        ],
{
    let mut r: Vec<String> = Vec::new();
    r.push("--host".to_owned());
    r.push("tailscale".to_owned());
    if up {
        r.push("up".to_owned());
    } else {
        r.push("down".to_owned());
    }
    proof {
        assert(r.deep_view() =~= seq![
            "--host"@,
            "tailscale"@,
            if up {
                "up"@
            } else {
                "down"@
            },
        ]);
    }
    r
}

/// Arguments that toggle the SSH server: `tailscale set --ssh` or
/// `tailscale set --ssh=false`.
pub fn set_ssh_args(enable: bool) -> (r: Vec<String>)
    ensures
        r.deep_view() == seq![
            "--host"@,
            "tailscale"@,
            "set"@,
            if enable {
                "--ssh"@
            } else {
                "--ssh=false"@
            },
        ],
{
    let mut r: Vec<String> = Vec::new();
    r.push("--host".to_owned());
    r.push("tailscale".to_owned());
    r.push("set".to_owned());
    if enable {
        r.push("--ssh".to_owned());
    } else {
        r.push("--ssh=false".to_owned());
    }
    proof {
        assert(r.deep_view() =~= seq![
            "--host"@,
            "tailscale"@,
            "set"@,
            if enable {
                "--ssh"@
            } else {
                "--ssh=false"@
            },
        ]);
    }
    r
}

/// Arguments that toggle route acceptance: `tailscale set
/// --accept-routes` or `tailscale set --accept-routes=false`.
pub fn set_routes_args(accept: bool) -> (r: Vec<String>)
    ensures
        r.deep_view() == seq![
            "--host"@,
            "tailscale"@,
            "set"@,
            if accept {
                "--accept-routes"@
            } else {
                "--accept-routes=false"@
            },
        ],
{
    let mut r: Vec<String> = Vec::new();
    r.push("--host".to_owned());
    r.push("tailscale".to_owned());
    r.push("set".to_owned());
    if accept {
        r.push("--accept-routes".to_owned());
    } else {
        r.push("--accept-routes=false".to_owned());
    }
    proof {
        assert(r.deep_view() =~= seq![
            "--host"@,
            "tailscale"@,
            "set"@,
            if accept {
                "--accept-routes"@
            } else {
                "--accept-routes=false"@
            },
        ]);
    }
    r
}

/// Arguments that advertise or withdraw the host as an exit node:
/// `tailscale set --advertise-exit-node=BOOL`.
pub fn advertise_exit_node_args(advertise: bool) -> (r: Vec<String>)
    ensures
        r.deep_view() == seq![
            "--host"@,
            "tailscale"@,
            "set"@,
            "--advertise-exit-node="@ + if advertise {
                "true"@
            } else {
                "false"@
            },
        ],
{
    let mut r: Vec<String> = Vec::new();
    r.push("--host".to_owned());
    r.push("tailscale".to_owned());
    r.push("set".to_owned());
    let flag = "--advertise-exit-node=".to_owned().concat(
        if advertise {
            "true"
        } else {
            "false"
        },
    );
    r.push(flag);
    proof {
        assert(r.deep_view() =~= seq![
            "--host"@,
            "tailscale"@,
            "set"@,
            "--advertise-exit-node="@ + if advertise {
                "true"@
            } else {
                "false"@
            },
        ]);
    }
    r
}

/// Arguments that grant or revoke the exit node's LAN access:
/// `tailscale set --exit-node-allow-lan-access=BOOL`.
pub fn allow_lan_args(allow: bool) -> (r: Vec<String>)
    ensures
        r.deep_view() == seq![
            "--host"@,
            "tailscale"@,
            "set"@,
            "--exit-node-allow-lan-access="@ + if allow {
                "true"@
            } else {
                "false"@
            },
        ],
{
    let mut r: Vec<String> = Vec::new();
    r.push("--host".to_owned());
    r.push("tailscale".to_owned());
    r.push("set".to_owned());
    let flag = "--exit-node-allow-lan-access=".to_owned().concat(
        if allow {
            "true"
        } else {
            "false"
        },
    );
    r.push(flag);
    proof {
        assert(r.deep_view() =~= seq![
            "--host"@,
            "tailscale"@,
            "set"@,
            "--exit-node-allow-lan-access="@ + if allow {
                "true"@
            } else {
                "false"@
            },
        ]);
    }
    r
}

/// Arguments that select the named exit node, or none when the name is
/// empty: `tailscale set --exit-node=NAME`.
pub fn exit_node_args(node: &str) -> (r: Vec<String>)
    ensures
        r.deep_view() == seq!["--host"@, "tailscale"@, "set"@, "--exit-node="@ + node@],
{
    let mut r: Vec<String> = Vec::new();
    r.push("--host".to_owned());
    r.push("tailscale".to_owned());
    r.push("set".to_owned());
    r.push("--exit-node=".to_owned().concat(node));
    proof {
        assert(r.deep_view() =~= seq!["--host"@, "tailscale"@, "set"@, "--exit-node="@ + node@]);
    }
    r
}

/// Arguments that send one file to a device's Tail Drop inbox:
/// `tailscale file cp PATH TARGET:`.
pub fn send_file_args(path: &str, target: &str) -> (r: Vec<String>)
    ensures
        r.deep_view() == seq![
            "--host"@,
            "tailscale"@,
            "file"@,
            "cp"@,
            path@,
            target@ + ":"@,
        ],
{
    let mut r: Vec<String> = Vec::new();
    r.push("--host".to_owned());
    r.push("tailscale".to_owned());
    r.push("file".to_owned());
    r.push("cp".to_owned());
    r.push(path.to_owned());
    r.push(target.to_owned().concat(":"));
    proof {
        assert(r.deep_view() =~= seq![
            "--host"@,
            "tailscale"@,
            "file"@,
            "cp"@,
            path@,
            target@ + ":"@,
        ]);
    }
    r
}

/// Arguments that fetch the waiting Tail Drop files into a directory:
/// `tailscale file get DIR/`.
pub fn receive_args(dir: &str) -> (r: Vec<String>)
    ensures
        r.deep_view() == seq!["--host"@, "tailscale"@, "file"@, "get"@, dir@ + "/"@],
{
    let mut r: Vec<String> = Vec::new();
    r.push("--host".to_owned());
    r.push("tailscale".to_owned());
    r.push("file".to_owned());
    r.push("get".to_owned());
    r.push(dir.to_owned().concat("/"));
    proof {
        assert(r.deep_view() =~= seq!["--host"@, "tailscale"@, "file"@, "get"@, dir@ + "/"@]);
    }
    r
}

/// The directory received files land in: the platform's download
/// directory when one is known, else `Downloads` under the home
/// directory, else under `/tmp`.
pub fn download_directory(dir: Option<String>, home: Option<String>) -> (r: String)
    ensures
        dir matches Some(d) ==> r@ == d@,
        dir is None ==> (home matches Some(h) ==> r@ == h@ + "/Downloads"@),
        dir is None && home is None ==> r@ == "/tmp"@ + "/Downloads"@,
{
    match dir {
        Option::Some(d) => d,
        Option::None => match home {
            Option::Some(h) => h.concat("/Downloads"),
            Option::None => "/tmp".to_owned().concat("/Downloads"),
        },
    }
}

/// The index of the first missing file path, or the length when none is
/// missing.
pub open spec fn first_missing(files: Seq<Option<Seq<char>>>) -> int
    decreases files.len(),
{
    if files.len() == 0 {
        0
    } else if files[0] is None {
        0
    } else {
        1 + first_missing(files.drop_first())
    }
}

proof fn lemma_first_missing(files: Seq<Option<Seq<char>>>, j: int)
    requires
        0 <= j <= files.len(),
        forall|t: int| 0 <= t < j ==> files[t] is Some,
        j < files.len() ==> files[j] is None,
    ensures
        first_missing(files) == j,
    decreases files.len(),
{
    if j > 0 {
        lemma_first_missing(files.drop_first(), j - 1);
    }
}

/// The file paths a transfer hands to the CLI: every path before the
/// first missing one, in order; and whether a missing one stops the
/// transfer there.
pub fn files_to_send(files: &Vec<Option<String>>) -> (r: (Vec<String>, bool))
    ensures
        r.1 == (first_missing(files.deep_view()) < files.deep_view().len()),
        r.0.deep_view().len() == first_missing(files.deep_view()),
        forall|t: int|
            0 <= t < r.0.deep_view().len() ==> files.deep_view()[t] == Some(
                #[trigger] r.0.deep_view()[t],
            ),
{
    let ghost fv = files.deep_view();
    let mut out: Vec<String> = Vec::new();
    let mut i: usize = 0;
    while i < files.len()
        invariant
            i <= files@.len(),
            fv == files.deep_view(),
            fv.len() == files@.len(),
            out@.len() == i,
            forall|t: int| 0 <= t < i ==> fv[t] is Some,
            forall|t: int| 0 <= t < i ==> fv[t] == Some(#[trigger] out.deep_view()[t]),
        decreases files@.len() - i,
    {
        match &files[i] {
            Option::Some(p) => {
                let ghost old_out = out.deep_view();
                let q = p.clone();
                out.push(q);
                proof {
                    assert(out.deep_view() =~= old_out.push(p@));
                    assert(fv[i as int] == Some(p@));
                }
            },
            Option::None => {
                proof {
                    lemma_first_missing(fv, i as int);
                }
                return (out, true);
            },
        }
        i = i + 1;
    }
    proof {
        lemma_first_missing(fv, fv.len() as int);
    }
    (out, false)
}

/// The message a file transfer reports: a bad-path complaint when a
/// path was missing, a failure notice when the CLI wrote errors, and
/// nothing otherwise.
pub fn send_status(missing: bool, any_error: bool) -> (r: Option<String>)
    ensures
        missing ==> (r matches Some(m) && m@
            == "Something went wrong sending the file!\nPossible bad file path!"@),
        !missing && any_error ==> (r matches Some(m) && m@
            == "One or more files were not sent successfully!"@),
        !missing && !any_error ==> r is None,
{
    if missing {
        Some("Something went wrong sending the file!\nPossible bad file path!".to_owned())
    } else if any_error {
        Some("One or more files were not sent successfully!".to_owned())
    } else {
        None
    }
}

/// The message a Tail Drop fetch reports: what the CLI wrote to its
/// error stream, or a success notice when it wrote nothing.
pub fn receive_status_message(stderr: &str) -> (r: String)
    ensures
        stderr@.len() == 0 ==> r@ == "Recieved file(s) in Downloads!"@,
        stderr@.len() > 0 ==> r@ == stderr@,
{
    if stderr.unicode_len() == 0 {
        "Recieved file(s) in Downloads!".to_owned()
    } else {
        stderr.to_owned()
    }
}

} // verus!

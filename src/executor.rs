//! Connection strategies to a guest's command channel: how each one is
//! reached, what is sent, and what the answers mean.
use vstd::prelude::*;
use crate::error::{AivaError, Result};
use crate::text::{contains_seq, decimal, decimal_string, str_contains};
use crate::types::VMInstance;

verus! {

/// Port on which the guest's command agent listens.
pub const VSOCK_COMMAND_PORT: u32 = 5555;

/// Context id given to a guest reached over vsock.
pub const DEFAULT_GUEST_CID: u32 = 3;

/// One way to reach a guest's command channel.
#[derive(Clone, Debug)]
pub enum ConnectionType {
    /// A virtio socket to the guest's context id.
    Vsock { cid: u32 },
    /// A stream connection to a forwarded port.
    Network { host: String, port: u16 },
    /// An SSH session as root.
    Ssh { host: String, port: u16, key_path: Option<String> },
}

/// The transport that a strategy runs over. Vsock is carried by the
/// network transport to the local command port.
pub open spec fn transport_of(c: ConnectionView) -> ConnectionView {
    match c {
        ConnectionView::Vsock { .. } => ConnectionView::Network {
            host: "localhost"@,
            port: VSOCK_COMMAND_PORT as u16,
        },
        _ => c,
    }
}

/// The command sent to check that a channel works.
pub open spec fn probe_command() -> Seq<char> {
    "echo 'connection_test'"@
}

/// The text that a working channel echoes back.
pub open spec fn probe_marker() -> Seq<char> {
    "connection_test"@
}

/// A probe answer that shows a working channel.
pub open spec fn probe_confirms(answer: Result<String>) -> bool {
    answer matches Ok(out) && contains_seq(out@, probe_marker())
}

/// The arguments of an SSH client run for `command`.
pub open spec fn ssh_argv(host: Seq<char>, port: u16, key_path: Option<Seq<char>>, command: Seq<char>) -> Seq<Seq<char>> {
    let base = seq![
        "-o"@,
        "StrictHostKeyChecking=no"@,
        "-o"@,
        "UserKnownHostsFile=/dev/null"@,
        "-o"@,
        "LogLevel=ERROR"@,
        "-p"@,
        decimal(port as nat),
    ];
    let with_key = match key_path {
        Some(k) => base + seq!["-i"@, k],
        None => base,
    };
    with_key + seq!["root@"@ + host, command]
}

/// Runs commands in one guest over one connection strategy.
pub struct VsockExecutor {
    vm_name: String,
    connection_type: ConnectionType,
}

impl VsockExecutor {
    /// An executor for `vm_name` over `connection_type`.
    pub fn new(vm_name: String, connection_type: ConnectionType) -> (r: VsockExecutor)
        ensures
            r.vm_name() == vm_name,
            r.connection() == connection_type,
    {
        VsockExecutor { vm_name, connection_type }
    }

    /// The guest this executor reaches.
    pub closed spec fn vm_name(&self) -> String {
        self.vm_name
    }

    /// The strategy this executor was built with.
    pub closed spec fn connection(&self) -> ConnectionType {
        self.connection_type
    }

    /// The guest this executor reaches.
    pub fn name(&self) -> (r: &String)
        ensures
            *r == self.vm_name(),
    {
        &self.vm_name
    }

    /// The strategy this executor was built with.
    pub fn connection_type(&self) -> (r: &ConnectionType)
        ensures
            *r == self.connection(),
    {
        &self.connection_type
    }

    /// The transport to use for this executor's strategy.
    pub fn transport(&self) -> (r: ConnectionType)
        ensures
            r@ == transport_of(self.connection()@),
    {
        proof { reveal_strlit("localhost"); }
        match &self.connection_type {
            ConnectionType::Vsock { .. } => ConnectionType::Network {
                host: String::from_str("localhost"),
                port: VSOCK_COMMAND_PORT as u16,
            },
            ConnectionType::Network { host, port } => ConnectionType::Network {
                host: host.clone(),
                port: *port,
            },
            ConnectionType::Ssh { host, port, key_path } => ConnectionType::Ssh {
                host: host.clone(),
                port: *port,
                key_path: clone_opt(key_path),
            },
        }
    }
}

/// The plain value of a strategy: strings as character sequences.
pub enum ConnectionView {
    Vsock { cid: u32 },
    Network { host: Seq<char>, port: u16 },
    Ssh { host: Seq<char>, port: u16, key_path: Option<Seq<char>> },
}

impl View for ConnectionType {
    type V = ConnectionView;

    open spec fn view(&self) -> ConnectionView {
        match self {
            ConnectionType::Vsock { cid } => ConnectionView::Vsock { cid: *cid },
            ConnectionType::Network { host, port } => ConnectionView::Network {
                host: host@,
                port: *port,
            },
            ConnectionType::Ssh { host, port, key_path } => ConnectionView::Ssh {
                host: host@,
                port: *port,
                key_path: match key_path {
                    Some(k) => Some(k@),
                    None => None,
                },
            },
        }
    }
}

fn clone_opt(o: &Option<String>) -> (r: Option<String>)
    ensures
        r == *o,
{
    match o {
        Some(s) => Some(s.clone()),
        None => None,
    }
}

/// The command that checks that a channel works.
pub fn connection_probe() -> (r: &'static str)
    ensures
        r@ == probe_command(),
{
    proof { reveal_strlit("echo 'connection_test'"); }
    "echo 'connection_test'"
}

/// Whether a probe's answer shows a working channel. A failed probe is
/// never an error of its own: it only means "not connected".
pub fn probe_succeeded(answer: &Result<String>) -> (r: bool)
    ensures
        r == probe_confirms(*answer),
{
    proof { reveal_strlit("connection_test"); }
    match answer {
        Ok(out) => str_contains(out.as_str(), "connection_test"),
        Err(_) => false,
    }
}

/// The `host:port` address of a network strategy.
pub fn network_address(host: &str, port: u16) -> (r: String)
    ensures
        r@ == host@ + ":"@ + decimal(port as nat),
{
    proof { reveal_strlit(":"); }
    let r = String::from_str(host).concat(":").concat(decimal_string(port as u64).as_str());
    r
}

/// What is written to a network channel: the command and a newline.
pub fn network_request(command: &str) -> (r: String)
    ensures
        r@ == command@ + "\n"@,
{
    proof { reveal_strlit("\n"); }
    String::from_str(command).concat("\n")
}

fn push_str(v: &mut Vec<String>, s: &str)
    ensures
        final(v)@.len() == old(v)@.len() + 1,
        forall|i: int| 0 <= i < old(v)@.len() ==> final(v)@[i] == old(v)@[i],
        final(v)@.last()@ == s@,
{
    v.push(String::from_str(s));
}

/// The arguments of the SSH client for `command`: no host-key checks,
/// errors only, the port, the identity file if any, then `root@host`.
pub fn ssh_args(host: &str, port: u16, key_path: Option<&str>, command: &str) -> (r: Vec<String>)
    ensures
        r@.map_values(|s: String| s@) == ssh_argv(
            host@,
            port,
            match key_path {
                Some(k) => Some(k@),
                None => None,
            },
            command@,
        ),
{
    proof {
        reveal_strlit("-o");
        reveal_strlit("StrictHostKeyChecking=no");
        reveal_strlit("UserKnownHostsFile=/dev/null");
        reveal_strlit("LogLevel=ERROR");
        reveal_strlit("-p");
        reveal_strlit("-i");
        reveal_strlit("root@");
    }
    let mut v: Vec<String> = Vec::new();
    push_str(&mut v, "-o");
    push_str(&mut v, "StrictHostKeyChecking=no");
    push_str(&mut v, "-o");
    push_str(&mut v, "UserKnownHostsFile=/dev/null");
    push_str(&mut v, "-o");
    push_str(&mut v, "LogLevel=ERROR");
    push_str(&mut v, "-p");
    v.push(decimal_string(port as u64));
    match key_path {
        Some(k) => {
            push_str(&mut v, "-i");
            push_str(&mut v, k);
        },
        None => {},
    }
    v.push(String::from_str("root@").concat(host));
    push_str(&mut v, command);
    proof {
        let kv = match key_path {
            Some(k) => Some(k@),
            None => None,
        };
        assert(v@.map_values(|s: String| s@) =~= ssh_argv(host@, port, kv, command@));
    }
    v
}

/// The result of an SSH run: its standard output where it exited with
/// success, else a recoverable platform error carrying its standard error.
pub fn ssh_outcome(success: bool, stdout: String, stderr: &str) -> (r: Result<String>)
    ensures
        success ==> r == Ok::<String, AivaError>(stdout),
        !success ==> (r matches Err(AivaError::PlatformError { platform, message, recoverable })
            && platform@ == "ssh"@ && message@ == "SSH command failed: "@ + stderr@ && recoverable),
{
    if success {
        Ok(stdout)
    } else {
        proof {
            reveal_strlit("ssh");
            reveal_strlit("SSH command failed: ");
        }
        Err(
            AivaError::PlatformError {
                platform: String::from_str("ssh"),
                message: String::from_str("SSH command failed: ").concat(stderr),
                recoverable: true,
            },
        )
    }
}

/// The strategies to try for a guest, in order: vsock where the host
/// supports it, else the guest's address on the command port; then SSH to
/// the first forwarded host port, where one exists.
pub fn connection_candidates(instance: &VMInstance, vsock_supported: bool)
    -> (r: Vec<ConnectionType>)
    ensures
        r@.len() == 1 + (if instance.config.network.port_mappings@.len() > 0 {
            1int
        } else {
            0int
        }),
        vsock_supported ==> r@[0] == (ConnectionType::Vsock { cid: DEFAULT_GUEST_CID }),
        !vsock_supported ==> r@[0] == (ConnectionType::Network {
            host: instance.config.network.guest_ip,
            port: VSOCK_COMMAND_PORT as u16,
        }),
        instance.config.network.port_mappings@.len() > 0 ==> r@[1]@ == (ConnectionView::Ssh {
            host: "localhost"@,
            port: instance.config.network.port_mappings@[0].host_port,
            key_path: None,
        }),
{
    let mut v: Vec<ConnectionType> = Vec::new();
    if vsock_supported {
        v.push(ConnectionType::Vsock { cid: DEFAULT_GUEST_CID });
    } else {
        v.push(
            ConnectionType::Network {
                host: instance.config.network.guest_ip.clone(),
                port: VSOCK_COMMAND_PORT as u16,
            },
        );
    }
    if instance.config.network.port_mappings.len() > 0 {
        proof { reveal_strlit("localhost"); }
        v.push(
            ConnectionType::Ssh {
                host: String::from_str("localhost"),
                port: instance.config.network.port_mappings[0].host_port,
                key_path: None,
            },
        );
    }
    v
}

/// The first strategy whose probe confirmed a working channel, given the
/// probe answers in the order the strategies were tried.
pub fn first_confirmed(answers: &Vec<Result<String>>) -> (r: Option<usize>)
    ensures
        r matches Some(i) ==> i < answers@.len() && probe_confirms(answers@[i as int]) && forall|
            k: int,
        | 0 <= k < i ==> !probe_confirms(#[trigger] answers@[k]),
        r is None ==> forall|k: int| 0 <= k < answers@.len() ==> !probe_confirms(#[trigger] answers@[k]),
{
    let mut i: usize = 0;
    while i < answers.len()
        invariant
            i <= answers@.len(),
            forall|k: int| 0 <= k < i ==> !probe_confirms(#[trigger] answers@[k]),
        decreases answers@.len() - i,
    {
        if probe_succeeded(&answers[i]) {
            return Some(i);
        }
        i += 1;
    }
    None
}

} // verus!

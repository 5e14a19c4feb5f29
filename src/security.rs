//! Security policies: presets, validation, merging, and assignment of
//! policies to VMs.
use vstd::prelude::*;
use crate::error::{AivaError, Result};
use crate::config::{lower_of, to_lower};
use crate::text::{str_eq, strings, texts};

verus! {

/// How strongly a guest is confined, weakest first.
#[derive(Clone, Copy, Debug, PartialEq, Eq, Structural)]
pub enum IsolationLevel {
    NoIsolation,
    Basic,
    Enhanced,
    Maximum,
}

/// The position of a level in the order from weakest to strongest.
pub open spec fn level_rank(l: IsolationLevel) -> nat {
    match l {
        IsolationLevel::NoIsolation => 0,
        IsolationLevel::Basic => 1,
        IsolationLevel::Enhanced => 2,
        IsolationLevel::Maximum => 3,
    }
}

/// `r` is the level a lower-case name denotes, or the error naming the
/// text as given.
pub open spec fn level_of_lower(r: Result<IsolationLevel>, lower: Seq<char>, name: Seq<char>) -> bool {
    if lower == "none"@ {
        r == Ok::<IsolationLevel, AivaError>(IsolationLevel::NoIsolation)
    } else if lower == "basic"@ {
        r == Ok::<IsolationLevel, AivaError>(IsolationLevel::Basic)
    } else if lower == "enhanced"@ {
        r == Ok::<IsolationLevel, AivaError>(IsolationLevel::Enhanced)
    } else if lower == "maximum"@ {
        r == Ok::<IsolationLevel, AivaError>(IsolationLevel::Maximum)
    } else {
        r matches Err(AivaError::SecurityError(m)) && m@ == "Invalid isolation level: "@ + name
    }
}

impl IsolationLevel {
    /// The lower-case name of the level.
    pub fn as_str(&self) -> (r: &'static str)
        ensures
            r@ == (match *self {
                IsolationLevel::NoIsolation => "none"@,
                IsolationLevel::Basic => "basic"@,
                IsolationLevel::Enhanced => "enhanced"@,
                IsolationLevel::Maximum => "maximum"@,
            }),
    {
        match self {
            IsolationLevel::NoIsolation => {
                proof { reveal_strlit("none"); }
                "none"
            }
            IsolationLevel::Basic => {
                proof { reveal_strlit("basic"); }
                "basic"
            }
            IsolationLevel::Enhanced => {
                proof { reveal_strlit("enhanced"); }
                "enhanced"
            }
            IsolationLevel::Maximum => {
                proof { reveal_strlit("maximum"); }
                "maximum"
            }
        }
    }

    /// The level a name denotes, in any case: none, basic, enhanced or
    /// maximum; any other name is a security error.
    pub fn from_name(s: &str) -> (r: Result<IsolationLevel>)
        ensures
            level_of_lower(r, lower_of(s@), s@),
    {
        let lower = to_lower(s);
        IsolationLevel::from_lower(lower.as_str(), s)
    }

    /// The level a lower-case name denotes; `name` is the text as given,
    /// for the error.
    pub fn from_lower(lower: &str, name: &str) -> (r: Result<IsolationLevel>)
        ensures
            level_of_lower(r, lower@, name@),
    {
        proof {
            reveal_strlit("none");
            reveal_strlit("basic");
            reveal_strlit("enhanced");
            reveal_strlit("maximum");
            reveal_strlit("Invalid isolation level: ");
            assert("none"@.len() != "basic"@.len());
            assert("none"@.len() != "enhanced"@.len());
            assert("none"@.len() != "maximum"@.len());
            assert("basic"@.len() != "enhanced"@.len());
            assert("basic"@.len() != "maximum"@.len());
            assert("enhanced"@.len() != "maximum"@.len());
        }
        if str_eq(lower, "none") {
            Ok(IsolationLevel::NoIsolation)
        } else if str_eq(lower, "basic") {
            Ok(IsolationLevel::Basic)
        } else if str_eq(lower, "enhanced") {
            Ok(IsolationLevel::Enhanced)
        } else if str_eq(lower, "maximum") {
            Ok(IsolationLevel::Maximum)
        } else {
            Err(AivaError::SecurityError(String::from_str("Invalid isolation level: ").concat(name)))
        }
    }

    /// The position of the level, weakest first.
    pub fn rank(&self) -> (r: u8)
        ensures
            r as nat == level_rank(*self),
    {
        match self {
            IsolationLevel::NoIsolation => 0,
            IsolationLevel::Basic => 1,
            IsolationLevel::Enhanced => 2,
            IsolationLevel::Maximum => 3,
        }
    }
}

/// Linux capabilities granted and withheld.
#[derive(Clone, Debug)]
pub struct CapabilitySet {
    pub allowed: Vec<String>,
    pub denied: Vec<String>,
}

/// What a syscall filter does with a call.
#[derive(Clone, Copy, Debug, PartialEq, Eq, Structural)]
pub enum FilterAction {
    Allow,
    Kill,
    Trap,
    Log,
}

/// How a syscall argument is compared.
#[derive(Clone, Copy, Debug, PartialEq, Eq, Structural)]
pub enum CompareOp {
    Equal,
    NotEqual,
    Greater,
    GreaterEqual,
    Less,
    LessEqual,
    MaskedEqual(u64),
}

/// A test on one syscall argument.
#[derive(Clone, Copy, Debug, PartialEq, Eq, Structural)]
pub struct Condition {
    pub arg_index: u32,
    pub operation: CompareOp,
    pub value: u64,
}

/// The action for one syscall, under optional conditions.
#[derive(Clone, Debug)]
pub struct SyscallRule {
    pub syscall: String,
    pub action: FilterAction,
    pub conditions: Option<Vec<Condition>>,
}

/// A default action and its exceptions.
#[derive(Clone, Debug)]
pub struct SyscallFilter {
    pub default_action: FilterAction,
    pub rules: Vec<SyscallRule>,
}

/// Block I/O limits.
#[derive(Clone, Copy, Debug, PartialEq, Eq, Structural)]
pub struct IOLimit {
    pub read_bps: Option<u64>,
    pub write_bps: Option<u64>,
    pub read_iops: Option<u64>,
    pub write_iops: Option<u64>,
}

/// Resource quotas of a guest.
#[derive(Clone, Copy, Debug, PartialEq, Eq, Structural)]
pub struct ResourceLimits {
    pub cpu_quota: Option<u32>,
    pub memory_limit: Option<u64>,
    pub pids_limit: Option<u32>,
    pub open_files: Option<u32>,
    pub io_bandwidth: Option<IOLimit>,
}

/// Direction of traffic a port rule allows.
#[derive(Clone, Copy, Debug, PartialEq, Eq, Structural)]
pub enum Direction {
    Inbound,
    Outbound,
    Both,
}

/// One allowed port.
#[derive(Clone, Debug)]
pub struct PortRule {
    pub port: u16,
    pub protocol: String,
    pub direction: Direction,
}

/// Bandwidth and connection-rate caps.
#[derive(Clone, Copy, Debug, PartialEq, Eq, Structural)]
pub struct NetworkRateLimit {
    pub bandwidth_mbps: u32,
    pub connections_per_second: u32,
}

/// What network traffic a guest may have.
#[derive(Clone, Debug)]
pub struct NetworkPolicy {
    pub allow_outbound: bool,
    pub allowed_ports: Vec<PortRule>,
    pub blocked_ips: Vec<String>,
    pub rate_limit: Option<NetworkRateLimit>,
}

/// A named confinement policy.
#[derive(Clone, Debug)]
pub struct SecurityPolicy {
    pub name: String,
    pub isolation_level: IsolationLevel,
    pub capabilities: CapabilitySet,
    pub syscall_filter: Option<SyscallFilter>,
    pub resource_limits: ResourceLimits,
    pub network_policy: NetworkPolicy,
}

/// Bytes in a GiB.
pub const GIB: u64 = 1073741824;

/// Bytes in a MiB.
pub const MIB: u64 = 1048576;

impl Default for ResourceLimits {
    fn default() -> (r: ResourceLimits)
        ensures
            r == (ResourceLimits {
                cpu_quota: Some(100),
                memory_limit: Some((8 * GIB) as u64),
                pids_limit: Some(1024),
                open_files: Some(1024),
                io_bandwidth: None,
            }),
    {
        ResourceLimits {
            cpu_quota: Some(100),
            memory_limit: Some((8 * GIB) as u64),
            pids_limit: Some(1024),
            open_files: Some(1024),
            io_bandwidth: None,
        }
    }
}

impl Default for NetworkPolicy {
    fn default() -> (r: NetworkPolicy)
        ensures
            r.allow_outbound,
            r.allowed_ports@.len() == 0,
            r.blocked_ips@.len() == 0,
            r.rate_limit is None,
    {
        NetworkPolicy { allow_outbound: true, allowed_ports: Vec::new(), blocked_ips: Vec::new(), rate_limit: None }
    }
}

/// The standard policy: basic isolation, CAP_SYS_ADMIN denied, default
/// limits, no syscall filter, outbound traffic allowed.
pub open spec fn is_standard_policy(p: SecurityPolicy) -> bool {
    &&& p.name@ == "default"@
    &&& p.isolation_level == IsolationLevel::Basic
    &&& p.capabilities.allowed@.len() == 0
    &&& texts(p.capabilities.denied@) == seq!["CAP_SYS_ADMIN"@]
    &&& p.syscall_filter is None
    &&& p.resource_limits == (ResourceLimits {
        cpu_quota: Some(100),
        memory_limit: Some((8 * GIB) as u64),
        pids_limit: Some(1024),
        open_files: Some(1024),
        io_bandwidth: None,
    })
    &&& p.network_policy.allow_outbound
    &&& p.network_policy.allowed_ports@.len() == 0
    &&& p.network_policy.blocked_ips@.len() == 0
    &&& p.network_policy.rate_limit is None
}

impl Default for SecurityPolicy {
    fn default() -> (r: SecurityPolicy)
        ensures
            is_standard_policy(r),
    {
        proof {
            reveal_strlit("default");
            reveal_strlit("CAP_SYS_ADMIN");
        }
        let denied = strings(&["CAP_SYS_ADMIN"]);
        proof {
            assert(texts(denied@) =~= seq!["CAP_SYS_ADMIN"@]);
        }
        SecurityPolicy {
            name: String::from_str("default"),
            isolation_level: IsolationLevel::Basic,
            capabilities: CapabilitySet { allowed: Vec::new(), denied },
            syscall_filter: None,
            resource_limits: ResourceLimits::default(),
            network_policy: NetworkPolicy::default(),
        }
    }
}

fn rule(syscall: &str, action: FilterAction) -> (r: SyscallRule)
    ensures
        r.syscall@ == syscall@,
        r.action == action,
        r.conditions is None,
{
    SyscallRule { syscall: String::from_str(syscall), action, conditions: None }
}

fn tcp_rule(port: u16, direction: Direction) -> (r: PortRule)
    ensures
        r.port == port,
        r.protocol@ == "tcp"@,
        r.direction == direction,
{
    proof { reveal_strlit("tcp"); }
    PortRule { port, protocol: String::from_str("tcp"), direction }
}

/// The syscall names of a filter's rules.
pub open spec fn rule_names(rules: Seq<SyscallRule>) -> Seq<Seq<char>> {
    rules.map_values(|r: SyscallRule| r.syscall@)
}

/// The (port, direction) pairs of port rules, all of which are TCP.
pub open spec fn tcp_ports(rules: Seq<PortRule>) -> Seq<(u16, Direction)> {
    rules.map_values(|r: PortRule| (r.port, r.direction))
}

/// Every port rule is for TCP.
pub open spec fn all_tcp(rules: Seq<PortRule>) -> bool {
    forall|i: int| 0 <= i < rules.len() ==> (#[trigger] rules[i]).protocol@ == "tcp"@
}

/// The trusted preset: no isolation, no limits, nothing blocked.
pub open spec fn is_trusted_policy(p: SecurityPolicy) -> bool {
    &&& p.name@ == "trusted"@
    &&& p.isolation_level == IsolationLevel::NoIsolation
    &&& p.capabilities.allowed@.len() == 0 && p.capabilities.denied@.len() == 0
    &&& p.syscall_filter is None
    &&& p.resource_limits == (ResourceLimits {
        cpu_quota: None,
        memory_limit: None,
        pids_limit: None,
        open_files: None,
        io_bandwidth: None,
    })
    &&& p.network_policy.allow_outbound
    &&& p.network_policy.allowed_ports@.len() == 0
    &&& p.network_policy.blocked_ips@.len() == 0
    &&& p.network_policy.rate_limit is None
}

/// The restricted preset: enhanced isolation, ptrace and mount killed,
/// half the CPU, 4 GiB, web ports out only, private ranges blocked.
pub open spec fn is_restricted_policy(p: SecurityPolicy) -> bool {
    &&& p.name@ == "restricted"@
    &&& p.isolation_level == IsolationLevel::Enhanced
    &&& p.capabilities.allowed@.len() == 0
    &&& texts(p.capabilities.denied@) == seq!["CAP_SYS_ADMIN"@, "CAP_NET_ADMIN"@, "CAP_SYS_PTRACE"@]
    &&& p.syscall_filter matches Some(f) && f.default_action == FilterAction::Allow
        && rule_names(f.rules@) == seq!["ptrace"@, "mount"@]
        && f.rules@[0].action == FilterAction::Kill && f.rules@[1].action == FilterAction::Kill
    &&& p.resource_limits == (ResourceLimits {
        cpu_quota: Some(50),
        memory_limit: Some((4 * GIB) as u64),
        pids_limit: Some(512),
        open_files: Some(512),
        io_bandwidth: Some(IOLimit {
            read_bps: Some((100 * MIB) as u64),
            write_bps: Some((100 * MIB) as u64),
            read_iops: Some(1000),
            write_iops: Some(1000),
        }),
    })
    &&& !p.network_policy.allow_outbound
    &&& all_tcp(p.network_policy.allowed_ports@)
    &&& tcp_ports(p.network_policy.allowed_ports@) == seq![(443u16, Direction::Outbound), (80u16, Direction::Outbound)]
    &&& texts(p.network_policy.blocked_ips@) == seq!["10.0.0.0/8"@, "192.168.0.0/16"@]
    &&& p.network_policy.rate_limit == Some(NetworkRateLimit { bandwidth_mbps: 100, connections_per_second: 10 })
}

/// The isolated preset: maximum isolation, every capability denied, only
/// read, write, open and close allowed, a quarter of the CPU, 2 GiB, no
/// traffic.
pub open spec fn is_isolated_policy(p: SecurityPolicy) -> bool {
    &&& p.name@ == "isolated"@
    &&& p.isolation_level == IsolationLevel::Maximum
    &&& p.capabilities.allowed@.len() == 0
    &&& texts(p.capabilities.denied@) == seq!["ALL"@]
    &&& p.syscall_filter matches Some(f) && f.default_action == FilterAction::Kill
        && rule_names(f.rules@) == seq!["read"@, "write"@, "open"@, "close"@]
        && (forall|i: int| 0 <= i < f.rules@.len() ==> (#[trigger] f.rules@[i]).action == FilterAction::Allow)
    &&& p.resource_limits == (ResourceLimits {
        cpu_quota: Some(25),
        memory_limit: Some((2 * GIB) as u64),
        pids_limit: Some(256),
        open_files: Some(256),
        io_bandwidth: Some(IOLimit {
            read_bps: Some((50 * MIB) as u64),
            write_bps: Some((50 * MIB) as u64),
            read_iops: Some(500),
            write_iops: Some(500),
        }),
    })
    &&& !p.network_policy.allow_outbound
    &&& p.network_policy.allowed_ports@.len() == 0
    &&& texts(p.network_policy.blocked_ips@) == seq!["0.0.0.0/0"@]
    &&& p.network_policy.rate_limit == Some(NetworkRateLimit { bandwidth_mbps: 10, connections_per_second: 1 })
}

/// The preset policies by name: trusted, standard, restricted, isolated.
pub fn load_preset_policies() -> (r: Vec<(String, SecurityPolicy)>)
    ensures
        r@.len() == 4,
        r@[0].0@ == "trusted"@ && is_trusted_policy(r@[0].1),
        r@[1].0@ == "standard"@ && is_standard_policy(r@[1].1),
        r@[2].0@ == "restricted"@ && is_restricted_policy(r@[2].1),
        r@[3].0@ == "isolated"@ && is_isolated_policy(r@[3].1),
{
    proof {
        reveal_strlit("trusted");
        reveal_strlit("standard");
        reveal_strlit("restricted");
        reveal_strlit("isolated");
        reveal_strlit("CAP_SYS_ADMIN");
        reveal_strlit("CAP_NET_ADMIN");
        reveal_strlit("CAP_SYS_PTRACE");
        reveal_strlit("ptrace");
        reveal_strlit("mount");
        reveal_strlit("10.0.0.0/8");
        reveal_strlit("192.168.0.0/16");
        reveal_strlit("ALL");
        reveal_strlit("read");
        reveal_strlit("write");
        reveal_strlit("open");
        reveal_strlit("close");
        reveal_strlit("0.0.0.0/0");
    }
    let mut out: Vec<(String, SecurityPolicy)> = Vec::new();
    let trusted = SecurityPolicy {
        name: String::from_str("trusted"),
        isolation_level: IsolationLevel::NoIsolation,
        capabilities: CapabilitySet { allowed: Vec::new(), denied: Vec::new() },
        syscall_filter: None,
        resource_limits: ResourceLimits {
            cpu_quota: None,
            memory_limit: None,
            pids_limit: None,
            open_files: None,
            io_bandwidth: None,
        },
        network_policy: NetworkPolicy {
            allow_outbound: true,
            allowed_ports: Vec::new(),
            blocked_ips: Vec::new(),
            rate_limit: None,
        },
    };
    out.push((String::from_str("trusted"), trusted));
    out.push((String::from_str("standard"), SecurityPolicy::default()));

    let r_denied = strings(&["CAP_SYS_ADMIN", "CAP_NET_ADMIN", "CAP_SYS_PTRACE"]);
    let mut r_rules: Vec<SyscallRule> = Vec::new();
    r_rules.push(rule("ptrace", FilterAction::Kill));
    r_rules.push(rule("mount", FilterAction::Kill));
    let mut r_ports: Vec<PortRule> = Vec::new();
    r_ports.push(tcp_rule(443, Direction::Outbound));
    r_ports.push(tcp_rule(80, Direction::Outbound));
    let r_blocked = strings(&["10.0.0.0/8", "192.168.0.0/16"]);
    proof {
        assert(texts(r_denied@) =~= seq!["CAP_SYS_ADMIN"@, "CAP_NET_ADMIN"@, "CAP_SYS_PTRACE"@]);
        assert(rule_names(r_rules@) =~= seq!["ptrace"@, "mount"@]);
        assert(tcp_ports(r_ports@) =~= seq![(443u16, Direction::Outbound), (80u16, Direction::Outbound)]);
        assert(texts(r_blocked@) =~= seq!["10.0.0.0/8"@, "192.168.0.0/16"@]);
    }
    let restricted = SecurityPolicy {
        name: String::from_str("restricted"),
        isolation_level: IsolationLevel::Enhanced,
        capabilities: CapabilitySet { allowed: Vec::new(), denied: r_denied },
        syscall_filter: Some(SyscallFilter { default_action: FilterAction::Allow, rules: r_rules }),
        resource_limits: ResourceLimits {
            cpu_quota: Some(50),
            memory_limit: Some((4 * GIB) as u64),
            pids_limit: Some(512),
            open_files: Some(512),
            io_bandwidth: Some(
                IOLimit {
                    read_bps: Some((100 * MIB) as u64),
                    write_bps: Some((100 * MIB) as u64),
                    read_iops: Some(1000),
                    write_iops: Some(1000),
                },
            ),
        },
        network_policy: NetworkPolicy {
            allow_outbound: false,
            allowed_ports: r_ports,
            blocked_ips: r_blocked,
            rate_limit: Some(NetworkRateLimit { bandwidth_mbps: 100, connections_per_second: 10 }),
        },
    };
    out.push((String::from_str("restricted"), restricted));

    let i_denied = strings(&["ALL"]);
    let mut i_rules: Vec<SyscallRule> = Vec::new();
    i_rules.push(rule("read", FilterAction::Allow));
    i_rules.push(rule("write", FilterAction::Allow));
    i_rules.push(rule("open", FilterAction::Allow));
    i_rules.push(rule("close", FilterAction::Allow));
    let i_blocked = strings(&["0.0.0.0/0"]);
    proof {
        assert(texts(i_denied@) =~= seq!["ALL"@]);
        assert(rule_names(i_rules@) =~= seq!["read"@, "write"@, "open"@, "close"@]);
        assert(texts(i_blocked@) =~= seq!["0.0.0.0/0"@]);
    }
    let isolated = SecurityPolicy {
        name: String::from_str("isolated"),
        isolation_level: IsolationLevel::Maximum,
        capabilities: CapabilitySet { allowed: Vec::new(), denied: i_denied },
        syscall_filter: Some(SyscallFilter { default_action: FilterAction::Kill, rules: i_rules }),
        resource_limits: ResourceLimits {
            cpu_quota: Some(25),
            memory_limit: Some((2 * GIB) as u64),
            pids_limit: Some(256),
            open_files: Some(256),
            io_bandwidth: Some(
                IOLimit {
                    read_bps: Some((50 * MIB) as u64),
                    write_bps: Some((50 * MIB) as u64),
                    read_iops: Some(500),
                    write_iops: Some(500),
                },
            ),
        },
        network_policy: NetworkPolicy {
            allow_outbound: false,
            allowed_ports: Vec::new(),
            blocked_ips: i_blocked,
            rate_limit: Some(NetworkRateLimit { bandwidth_mbps: 10, connections_per_second: 1 }),
        },
    };
    out.push((String::from_str("isolated"), isolated));
    out
}

/// The policy for MCP servers: enhanced isolation, port binding allowed,
/// mount, umount and ptrace killed, web ports out and 8080 in.
pub fn create_mcp_policy() -> (r: SecurityPolicy)
    ensures
        r.name@ == "mcp-server"@,
        r.isolation_level == IsolationLevel::Enhanced,
        texts(r.capabilities.allowed@) == seq!["CAP_NET_BIND_SERVICE"@],
        texts(r.capabilities.denied@) == seq!["CAP_SYS_ADMIN"@, "CAP_SYS_PTRACE"@, "CAP_SYS_MODULE"@],
        r.syscall_filter matches Some(f) && f.default_action == FilterAction::Allow
            && rule_names(f.rules@) == seq!["mount"@, "umount"@, "ptrace"@]
            && (forall|i: int| 0 <= i < f.rules@.len() ==> (#[trigger] f.rules@[i]).action == FilterAction::Kill),
        r.resource_limits == (ResourceLimits {
            cpu_quota: Some(75),
            memory_limit: Some((4 * GIB) as u64),
            pids_limit: Some(512),
            open_files: Some(1024),
            io_bandwidth: Some(IOLimit {
                read_bps: Some((200 * MIB) as u64),
                write_bps: Some((200 * MIB) as u64),
                read_iops: Some(2000),
                write_iops: Some(2000),
            }),
        }),
        r.network_policy.allow_outbound,
        all_tcp(r.network_policy.allowed_ports@),
        tcp_ports(r.network_policy.allowed_ports@) == seq![
            (443u16, Direction::Outbound),
            (80u16, Direction::Outbound),
            (8080u16, Direction::Inbound),
        ],
        texts(r.network_policy.blocked_ips@) == seq!["127.0.0.1/32"@],
        r.network_policy.rate_limit == Some(NetworkRateLimit { bandwidth_mbps: 500, connections_per_second: 50 }),
{
    proof {
        reveal_strlit("mcp-server");
        reveal_strlit("CAP_NET_BIND_SERVICE");
        reveal_strlit("CAP_SYS_ADMIN");
        reveal_strlit("CAP_SYS_PTRACE");
        reveal_strlit("CAP_SYS_MODULE");
        reveal_strlit("mount");
        reveal_strlit("umount");
        reveal_strlit("ptrace");
        reveal_strlit("127.0.0.1/32");
    }
    let allowed = strings(&["CAP_NET_BIND_SERVICE"]);
    let denied = strings(&["CAP_SYS_ADMIN", "CAP_SYS_PTRACE", "CAP_SYS_MODULE"]);
    let mut rules: Vec<SyscallRule> = Vec::new();
    rules.push(rule("mount", FilterAction::Kill));
    rules.push(rule("umount", FilterAction::Kill));
    rules.push(rule("ptrace", FilterAction::Kill));
    let mut ports: Vec<PortRule> = Vec::new();
    ports.push(tcp_rule(443, Direction::Outbound));
    ports.push(tcp_rule(80, Direction::Outbound));
    ports.push(tcp_rule(8080, Direction::Inbound));
    let blocked = strings(&["127.0.0.1/32"]);
    proof {
        assert(texts(allowed@) =~= seq!["CAP_NET_BIND_SERVICE"@]);
        assert(texts(denied@) =~= seq!["CAP_SYS_ADMIN"@, "CAP_SYS_PTRACE"@, "CAP_SYS_MODULE"@]);
        assert(rule_names(rules@) =~= seq!["mount"@, "umount"@, "ptrace"@]);
        assert(tcp_ports(ports@) =~= seq![
            (443u16, Direction::Outbound),
            (80u16, Direction::Outbound),
            (8080u16, Direction::Inbound),
        ]);
        assert(texts(blocked@) =~= seq!["127.0.0.1/32"@]);
    }
    SecurityPolicy {
        name: String::from_str("mcp-server"),
        isolation_level: IsolationLevel::Enhanced,
        capabilities: CapabilitySet { allowed, denied },
        syscall_filter: Some(SyscallFilter { default_action: FilterAction::Allow, rules }),
        resource_limits: ResourceLimits {
            cpu_quota: Some(75),
            memory_limit: Some((4 * GIB) as u64),
            pids_limit: Some(512),
            open_files: Some(1024),
            io_bandwidth: Some(
                IOLimit {
                    read_bps: Some((200 * MIB) as u64),
                    write_bps: Some((200 * MIB) as u64),
                    read_iops: Some(2000),
                    write_iops: Some(2000),
                },
            ),
        },
        network_policy: NetworkPolicy {
            allow_outbound: true,
            allowed_ports: ports,
            blocked_ips: blocked,
            rate_limit: Some(NetworkRateLimit { bandwidth_mbps: 500, connections_per_second: 50 }),
        },
    }
}

/// The policy for AI agents: basic isolation, no syscall filter, 80% of
/// the CPU, 16 GiB, web ports out.
pub fn create_ai_agent_policy() -> (r: SecurityPolicy)
    ensures
        r.name@ == "ai-agent"@,
        r.isolation_level == IsolationLevel::Basic,
        r.capabilities.allowed@.len() == 0,
        texts(r.capabilities.denied@) == seq!["CAP_SYS_ADMIN"@, "CAP_NET_ADMIN"@],
        r.syscall_filter is None,
        r.resource_limits == (ResourceLimits {
            cpu_quota: Some(80),
            memory_limit: Some((16 * GIB) as u64),
            pids_limit: Some(1024),
            open_files: Some(2048),
            io_bandwidth: Some(IOLimit {
                read_bps: Some(GIB),
                write_bps: Some(GIB),
                read_iops: Some(10000),
                write_iops: Some(10000),
            }),
        }),
        r.network_policy.allow_outbound,
        all_tcp(r.network_policy.allowed_ports@),
        tcp_ports(r.network_policy.allowed_ports@) == seq![(443u16, Direction::Outbound), (80u16, Direction::Outbound)],
        r.network_policy.blocked_ips@.len() == 0,
        r.network_policy.rate_limit == Some(NetworkRateLimit { bandwidth_mbps: 1000, connections_per_second: 100 }),
{
    proof {
        reveal_strlit("ai-agent");
        reveal_strlit("CAP_SYS_ADMIN");
        reveal_strlit("CAP_NET_ADMIN");
    }
    let denied = strings(&["CAP_SYS_ADMIN", "CAP_NET_ADMIN"]);
    let mut ports: Vec<PortRule> = Vec::new();
    ports.push(tcp_rule(443, Direction::Outbound));
    ports.push(tcp_rule(80, Direction::Outbound));
    proof {
        assert(texts(denied@) =~= seq!["CAP_SYS_ADMIN"@, "CAP_NET_ADMIN"@]);
        assert(tcp_ports(ports@) =~= seq![(443u16, Direction::Outbound), (80u16, Direction::Outbound)]);
    }
    SecurityPolicy {
        name: String::from_str("ai-agent"),
        isolation_level: IsolationLevel::Basic,
        capabilities: CapabilitySet { allowed: Vec::new(), denied },
        syscall_filter: None,
        resource_limits: ResourceLimits {
            cpu_quota: Some(80),
            memory_limit: Some((16 * GIB) as u64),
            pids_limit: Some(1024),
            open_files: Some(2048),
            io_bandwidth: Some(
                IOLimit {
                    read_bps: Some(GIB),
                    write_bps: Some(GIB),
                    read_iops: Some(10000),
                    write_iops: Some(10000),
                },
            ),
        },
        network_policy: NetworkPolicy {
            allow_outbound: true,
            allowed_ports: ports,
            blocked_ips: Vec::new(),
            rate_limit: Some(NetworkRateLimit { bandwidth_mbps: 1000, connections_per_second: 100 }),
        },
    }
}


/// Texts of `a`, then those of `b` not already present, in order.
pub open spec fn union_texts(a: Seq<Seq<char>>, b: Seq<Seq<char>>) -> Seq<Seq<char>>
    decreases b.len(),
{
    if b.len() == 0 {
        a
    } else {
        let u = union_texts(a, b.drop_last());
        if u.contains(b.last()) {
            u
        } else {
            u.push(b.last())
        }
    }
}

/// The smaller of two optional limits; a missing overlay keeps the base.
pub open spec fn tighter_u32(base: Option<u32>, overlay: Option<u32>) -> Option<u32> {
    match overlay {
        Some(o) => match base {
            Some(b) => Some(if o < b { o } else { b }),
            None => Some(o),
        },
        None => base,
    }
}

/// The smaller of two optional limits; a missing overlay keeps the base.
pub open spec fn tighter_u64(base: Option<u64>, overlay: Option<u64>) -> Option<u64> {
    match overlay {
        Some(o) => match base {
            Some(b) => Some(if o < b { o } else { b }),
            None => Some(o),
        },
        None => base,
    }
}

/// The tighter of two optional rate limits, cap by cap.
pub open spec fn tighter_rate(base: Option<NetworkRateLimit>, overlay: Option<NetworkRateLimit>) -> Option<NetworkRateLimit> {
    match overlay {
        Some(o) => match base {
            Some(b) => Some(NetworkRateLimit {
                bandwidth_mbps: if o.bandwidth_mbps < b.bandwidth_mbps { o.bandwidth_mbps } else { b.bandwidth_mbps },
                connections_per_second: if o.connections_per_second < b.connections_per_second {
                    o.connections_per_second
                } else {
                    b.connections_per_second
                },
            }),
            None => Some(o),
        },
        None => base,
    }
}

/// The rules a valid policy keeps: a name, a CPU quota in 1..=100, a
/// memory limit above zero, and no allowed capability beside a denied ALL.
pub open spec fn policy_valid(p: SecurityPolicy) -> bool {
    &&& p.name@.len() > 0
    &&& p.resource_limits.cpu_quota matches Some(q) ==> 1 <= q <= 100
    &&& p.resource_limits.memory_limit matches Some(m) ==> m > 0
    &&& texts(p.capabilities.denied@).contains("ALL"@) ==> p.capabilities.allowed@.len() == 0
}

/// Keeps the known policies by name.
pub struct PolicyManager {
    policies_dir: String,
    policies: Vec<SecurityPolicy>,
}

impl View for PolicyManager {
    type V = Seq<SecurityPolicy>;

    closed spec fn view(&self) -> Seq<SecurityPolicy> {
        self.policies@
    }
}

/// Some policy in `s` has this name.
pub open spec fn has_policy(s: Seq<SecurityPolicy>, name: Seq<char>) -> bool {
    exists|i: int| 0 <= i < s.len() && s[i].name@ == name
}

/// The error for a policy name that is not known.
pub open spec fn is_policy_missing(e: AivaError, name: Seq<char>) -> bool {
    e matches AivaError::SecurityError(m) && m@ == "Policy "@ + name + " not found"@
}

fn texts_contain(v: &Vec<String>, s: &str) -> (r: bool)
    ensures
        r == texts(v@).contains(s@),
{
    let mut i: usize = 0;
    while i < v.len()
        invariant
            i <= v@.len(),
            forall|k: int| 0 <= k < i ==> v@[k]@ != s@,
        decreases v@.len() - i,
    {
        if str_eq(v[i].as_str(), s) {
            proof {
                assert(texts(v@)[i as int] == s@);
            }
            return true;
        }
        i += 1;
    }
    proof {
        assert forall|k: int| 0 <= k < texts(v@).len() implies texts(v@)[k] != s@ by {
            assert(texts(v@)[k] == v@[k]@);
        }
    }
    false
}

fn copy_strings(v: &Vec<String>) -> (r: Vec<String>)
    ensures
        r@ == v@,
{
    let mut out: Vec<String> = Vec::new();
    let mut i: usize = 0;
    while i < v.len()
        invariant
            i <= v@.len(),
            out@ == v@.subrange(0, i as int),
        decreases v@.len() - i,
    {
        out.push(v[i].clone());
        proof {
            assert(out@ =~= v@.subrange(0, i + 1));
        }
        i += 1;
    }
    proof {
        assert(out@ =~= v@);
    }
    out
}

fn copy_port_rules(v: &Vec<PortRule>) -> (r: Vec<PortRule>)
    ensures
        r@ == v@,
{
    let mut out: Vec<PortRule> = Vec::new();
    let mut i: usize = 0;
    while i < v.len()
        invariant
            i <= v@.len(),
            out@ == v@.subrange(0, i as int),
        decreases v@.len() - i,
    {
        let p = &v[i];
        out.push(PortRule { port: p.port, protocol: p.protocol.clone(), direction: p.direction });
        proof {
            assert(out@ =~= v@.subrange(0, i + 1));
        }
        i += 1;
    }
    proof {
        assert(out@ =~= v@);
    }
    out
}

fn copy_conditions(v: &Vec<Condition>) -> (r: Vec<Condition>)
    ensures
        r@ == v@,
{
    let mut out: Vec<Condition> = Vec::new();
    let mut i: usize = 0;
    while i < v.len()
        invariant
            i <= v@.len(),
            out@ == v@.subrange(0, i as int),
        decreases v@.len() - i,
    {
        out.push(v[i]);
        proof {
            assert(out@ =~= v@.subrange(0, i + 1));
        }
        i += 1;
    }
    proof {
        assert(out@ =~= v@);
    }
    out
}

/// A syscall rule with the same name, action and condition list.
pub open spec fn same_rule(a: SyscallRule, b: SyscallRule) -> bool {
    &&& a.syscall == b.syscall
    &&& a.action == b.action
    &&& match (a.conditions, b.conditions) {
        (Some(x), Some(y)) => x@ == y@,
        (None, None) => true,
        _ => false,
    }
}

/// A filter with the same default and the same rules.
pub open spec fn same_filter(a: Option<SyscallFilter>, b: Option<SyscallFilter>) -> bool {
    match (a, b) {
        (Some(x), Some(y)) => x.default_action == y.default_action && x.rules@.len() == y.rules@.len()
            && forall|i: int| 0 <= i < x.rules@.len() ==> #[trigger] same_rule(x.rules@[i], y.rules@[i]),
        (None, None) => true,
        _ => false,
    }
}

fn copy_filter(f: &Option<SyscallFilter>) -> (r: Option<SyscallFilter>)
    ensures
        same_filter(r, *f),
{
    match f {
        None => None,
        Some(filter) => {
            let mut rules: Vec<SyscallRule> = Vec::new();
            let mut i: usize = 0;
            while i < filter.rules.len()
                invariant
                    i <= filter.rules@.len(),
                    rules@.len() == i,
                    forall|k: int| 0 <= k < i ==> #[trigger] same_rule(rules@[k], filter.rules@[k]),
                decreases filter.rules@.len() - i,
            {
                let r = &filter.rules[i];
                let conditions = match &r.conditions {
                    Some(c) => Some(copy_conditions(c)),
                    None => None,
                };
                rules.push(SyscallRule { syscall: r.syscall.clone(), action: r.action, conditions });
                i += 1;
            }
            Some(SyscallFilter { default_action: filter.default_action, rules })
        },
    }
}

fn min_u32(a: u32, b: u32) -> (r: u32)
    ensures
        r == (if a < b { a } else { b }),
{
    if a < b { a } else { b }
}

fn min_u64(a: u64, b: u64) -> (r: u64)
    ensures
        r == (if a < b { a } else { b }),
{
    if a < b { a } else { b }
}

fn union_into(acc: &mut Vec<String>, more: &Vec<String>)
    ensures
        texts(final(acc)@) == union_texts(texts(old(acc)@), texts(more@)),
{
    let ghost start = texts(acc@);
    let mut i: usize = 0;
    while i < more.len()
        invariant
            i <= more@.len(),
            texts(acc@) == union_texts(start, texts(more@.subrange(0, i as int))),
        decreases more@.len() - i,
    {
        proof {
            assert(texts(more@.subrange(0, i + 1)).drop_last() =~= texts(more@.subrange(0, i as int)));
        }
        if !texts_contain(acc, more[i].as_str()) {
            let ghost before = acc@;
            acc.push(more[i].clone());
            proof {
                assert(texts(acc@) =~= texts(before).push(more@[i as int]@));
            }
        }
        i += 1;
    }
    proof {
        assert(more@.subrange(0, more@.len() as int) =~= more@);
    }
}

impl PolicyManager {
    /// A manager with no policies, kept under `policies_dir`.
    pub fn new(policies_dir: String) -> (r: Result<PolicyManager>)
        ensures
            r matches Ok(m) && m@.len() == 0 && m.dir() == policies_dir,
    {
        Ok(PolicyManager { policies_dir, policies: Vec::new() })
    }

    /// The directory the policies are kept in.
    pub closed spec fn dir(&self) -> String {
        self.policies_dir
    }

    /// The directory the policies are kept in.
    pub fn policies_dir(&self) -> (r: &String)
        ensures
            *r == self.dir(),
    {
        &self.policies_dir
    }

    fn position(&self, name: &str) -> (r: Option<usize>)
        ensures
            r matches Some(i) ==> i < self@.len() && self@[i as int].name@ == name@,
            r is None ==> !has_policy(self@, name@),
    {
        let mut i: usize = 0;
        while i < self.policies.len()
            invariant
                i <= self@.len(),
                forall|k: int| 0 <= k < i ==> self@[k].name@ != name@,
            decreases self@.len() - i,
        {
            if str_eq(self.policies[i].name.as_str(), name) {
                return Some(i);
            }
            i += 1;
        }
        None
    }

    /// The policy with this name, or a security error.
    pub fn get_policy(&self, name: &str) -> (r: Result<&SecurityPolicy>)
        ensures
            r is Ok <==> has_policy(self@, name@),
            r matches Ok(p) ==> self@.contains(*p) && p.name@ == name@,
            r matches Err(e) ==> is_policy_missing(e, name@),
    {
        proof {
            reveal_strlit("Policy ");
            reveal_strlit(" not found");
        }
        match self.position(name) {
            Some(i) => Ok(&self.policies[i]),
            None => Err(
                AivaError::SecurityError(String::from_str("Policy ").concat(name).concat(" not found")),
            ),
        }
    }

    /// The names of all policies, in the order they were added.
    pub fn list_policies(&self) -> (r: Vec<String>)
        ensures
            r@.len() == self@.len(),
            forall|i: int| 0 <= i < r@.len() ==> #[trigger] r@[i] == self@[i].name,
    {
        let mut out: Vec<String> = Vec::new();
        let mut i: usize = 0;
        while i < self.policies.len()
            invariant
                i <= self@.len(),
                out@.len() == i,
                forall|k: int| 0 <= k < i ==> #[trigger] out@[k] == self@[k].name,
            decreases self@.len() - i,
        {
            out.push(self.policies[i].name.clone());
            i += 1;
        }
        out
    }

    /// Adds a valid policy, replacing one of the same name; an invalid
    /// policy is refused and nothing changes.
    pub fn insert_policy(&mut self, policy: SecurityPolicy) -> (r: Result<()>)
        ensures
            r is Ok <==> policy_valid(policy),
            r is Ok ==> final(self)@.last() == policy && has_policy(final(self)@, policy.name@),
            r is Err ==> final(self)@ == old(self)@,
    {
        match self.validate_policy(&policy) {
            Ok(()) => {},
            Err(e) => return Err(e),
        }
        match self.position(policy.name.as_str()) {
            Some(i) => {
                self.policies.remove(i);
            },
            None => {},
        }
        self.policies.push(policy);
        proof {
            assert(self@[self@.len() - 1].name@ == policy.name@);
        }
        Ok(())
    }

    /// Replaces a known policy with a valid one of the same name; an
    /// unknown name or an invalid policy changes nothing.
    pub fn update_policy(&mut self, policy: SecurityPolicy) -> (r: Result<()>)
        ensures
            r is Ok <==> has_policy(old(self)@, policy.name@) && policy_valid(policy),
            !has_policy(old(self)@, policy.name@) ==> (r matches Err(e) && is_policy_missing(e, policy.name@)),
            r is Ok ==> final(self)@.last() == policy && has_policy(final(self)@, policy.name@),
            r is Err ==> final(self)@ == old(self)@,
    {
        proof {
            reveal_strlit("Policy ");
            reveal_strlit(" not found");
        }
        if self.position(policy.name.as_str()).is_none() {
            return Err(
                AivaError::SecurityError(
                    String::from_str("Policy ").concat(policy.name.as_str()).concat(" not found"),
                ),
            );
        }
        self.insert_policy(policy)
    }

    /// Forgets a known policy; an unknown name is a security error.
    pub fn delete_policy(&mut self, name: &str) -> (r: Result<()>)
        ensures
            r is Ok <==> has_policy(old(self)@, name@),
            r matches Err(e) ==> is_policy_missing(e, name@) && final(self)@ == old(self)@,
            r is Ok ==> exists|i: int| 0 <= i < old(self)@.len() && old(self)@[i].name@ == name@
                && final(self)@ == old(self)@.remove(i),
    {
        proof {
            reveal_strlit("Policy ");
            reveal_strlit(" not found");
        }
        match self.position(name) {
            Some(i) => {
                self.policies.remove(i);
                Ok(())
            },
            None => Err(AivaError::SecurityError(String::from_str("Policy ").concat(name).concat(" not found"))),
        }
    }

    /// Checks a policy against the rules every policy keeps.
    pub fn validate_policy(&self, policy: &SecurityPolicy) -> (r: Result<()>)
        ensures
            r is Ok <==> policy_valid(*policy),
            r matches Err(e) ==> e is SecurityError,
    {
        proof {
            reveal_strlit("Policy name cannot be empty");
            reveal_strlit("CPU quota must be between 1 and 100");
            reveal_strlit("Memory limit must be greater than 0");
            reveal_strlit("ALL");
            reveal_strlit("Cannot allow capabilities when ALL is denied");
        }
        if policy.name.as_str().unicode_len() == 0 {
            return Err(AivaError::SecurityError(String::from_str("Policy name cannot be empty")));
        }
        match policy.resource_limits.cpu_quota {
            Some(q) => {
                if q == 0 || q > 100 {
                    return Err(
                        AivaError::SecurityError(String::from_str("CPU quota must be between 1 and 100")),
                    );
                }
            },
            None => {},
        }
        match policy.resource_limits.memory_limit {
            Some(m) => {
                if m == 0 {
                    return Err(
                        AivaError::SecurityError(String::from_str("Memory limit must be greater than 0")),
                    );
                }
            },
            None => {},
        }
        if texts_contain(&policy.capabilities.denied, "ALL") && policy.capabilities.allowed.len() > 0 {
            return Err(
                AivaError::SecurityError(
                    String::from_str("Cannot allow capabilities when ALL is denied"),
                ),
            );
        }
        Ok(())
    }

    /// Combines two known policies into a stricter one named
    /// "base-overlay": the higher isolation, denied capabilities joined,
    /// allowed ones kept only where both allow them, the lower quotas and
    /// rate caps, outbound traffic only where both allow it, and blocked
    /// addresses joined. Everything else is the base policy's.
    pub fn merge_policies(&self, base: &str, overlay: &str) -> (r: Result<SecurityPolicy>)
        ensures
            r is Ok <==> has_policy(self@, base@) && has_policy(self@, overlay@),
            r matches Err(e) ==> (!has_policy(self@, base@) ==> is_policy_missing(e, base@))
                && (has_policy(self@, base@) ==> is_policy_missing(e, overlay@)),
            r matches Ok(m) ==> exists|b: SecurityPolicy, o: SecurityPolicy|
                self@.contains(b) && b.name@ == base@ && self@.contains(o) && o.name@ == overlay@
                && is_merge_of(m, b, o, base@, overlay@),
    {
        let b = match self.get_policy(base) {
            Ok(p) => p,
            Err(e) => return Err(e),
        };
        let o = match self.get_policy(overlay) {
            Ok(p) => p,
            Err(e) => return Err(e),
        };
        proof { reveal_strlit("-"); }
        let name = String::from_str(base).concat("-").concat(overlay);
        let level = if o.isolation_level.rank() > b.isolation_level.rank() {
            o.isolation_level
        } else {
            b.isolation_level
        };
        let mut denied = copy_strings(&b.capabilities.denied);
        union_into(&mut denied, &o.capabilities.denied);
        let mut allowed: Vec<String> = Vec::new();
        let mut i: usize = 0;
        while i < b.capabilities.allowed.len()
            invariant
                i <= b.capabilities.allowed@.len(),
                texts(allowed@) == texts(b.capabilities.allowed@.subrange(0, i as int)).filter(
                    |c: Seq<char>| texts(o.capabilities.allowed@).contains(c),
                ),
            decreases b.capabilities.allowed@.len() - i,
        {
            let ghost before = allowed@;
            let keep = texts_contain(&o.capabilities.allowed, b.capabilities.allowed[i].as_str());
            if keep {
                allowed.push(b.capabilities.allowed[i].clone());
            }
            proof {
                let pred = |c: Seq<char>| texts(o.capabilities.allowed@).contains(c);
                let prev = texts(b.capabilities.allowed@.subrange(0, i as int));
                let t = texts(b.capabilities.allowed@.subrange(0, i + 1));
                assert(t.drop_last() =~= prev);
                assert(t.last() == b.capabilities.allowed@[i as int]@);
                reveal(Seq::filter);
                assert(t.filter(pred) == (if pred(t.last()) {
                    prev.filter(pred).push(t.last())
                } else {
                    prev.filter(pred)
                }));
                if keep {
                    assert(texts(allowed@) =~= texts(before).push(b.capabilities.allowed@[i as int]@));
                }
            }
            i += 1;
        }
        proof {
            assert(b.capabilities.allowed@.subrange(0, b.capabilities.allowed@.len() as int)
                =~= b.capabilities.allowed@);
        }
        let cpu = match o.resource_limits.cpu_quota {
            Some(oc) => match b.resource_limits.cpu_quota {
                Some(bc) => Some(min_u32(oc, bc)),
                None => Some(oc),
            },
            None => b.resource_limits.cpu_quota,
        };
        let mem = match o.resource_limits.memory_limit {
            Some(om) => match b.resource_limits.memory_limit {
                Some(bm) => Some(min_u64(om, bm)),
                None => Some(om),
            },
            None => b.resource_limits.memory_limit,
        };
        let mut blocked = copy_strings(&b.network_policy.blocked_ips);
        union_into(&mut blocked, &o.network_policy.blocked_ips);
        let rate = match o.network_policy.rate_limit {
            Some(orl) => match b.network_policy.rate_limit {
                Some(brl) => Some(
                    NetworkRateLimit {
                        bandwidth_mbps: min_u32(orl.bandwidth_mbps, brl.bandwidth_mbps),
                        connections_per_second: min_u32(
                            orl.connections_per_second,
                            brl.connections_per_second,
                        ),
                    },
                ),
                None => Some(orl),
            },
            None => b.network_policy.rate_limit,
        };
        let merged = SecurityPolicy {
                name,
                isolation_level: level,
                capabilities: CapabilitySet { allowed, denied },
                syscall_filter: copy_filter(&b.syscall_filter),
                resource_limits: ResourceLimits {
                    cpu_quota: cpu,
                    memory_limit: mem,
                    pids_limit: b.resource_limits.pids_limit,
                    open_files: b.resource_limits.open_files,
                    io_bandwidth: b.resource_limits.io_bandwidth,
                },
                network_policy: NetworkPolicy {
                    allow_outbound: b.network_policy.allow_outbound && o.network_policy.allow_outbound,
                    allowed_ports: copy_port_rules(&b.network_policy.allowed_ports),
                    blocked_ips: blocked,
                    rate_limit: rate,
                },
            };
        proof {
            assert(is_merge_of(merged, *b, *o, base@, overlay@));
        }
        Ok(merged)
    }
}

/// `m` is the merge of `b` under `o`, named "base-overlay".
pub open spec fn is_merge_of(m: SecurityPolicy, b: SecurityPolicy, o: SecurityPolicy, base: Seq<char>, overlay: Seq<char>) -> bool {
    &&& m.name@ == base + "-"@ + overlay
    &&& m.isolation_level == (if level_rank(o.isolation_level) > level_rank(b.isolation_level) {
        o.isolation_level
    } else {
        b.isolation_level
    })
    &&& texts(m.capabilities.denied@) == union_texts(texts(b.capabilities.denied@), texts(o.capabilities.denied@))
    &&& texts(m.capabilities.allowed@) == texts(b.capabilities.allowed@).filter(
        |c: Seq<char>| texts(o.capabilities.allowed@).contains(c),
    )
    &&& same_filter(m.syscall_filter, b.syscall_filter)
    &&& m.resource_limits.cpu_quota == tighter_u32(b.resource_limits.cpu_quota, o.resource_limits.cpu_quota)
    &&& m.resource_limits.memory_limit == tighter_u64(b.resource_limits.memory_limit, o.resource_limits.memory_limit)
    &&& m.resource_limits.pids_limit == b.resource_limits.pids_limit
    &&& m.resource_limits.open_files == b.resource_limits.open_files
    &&& m.resource_limits.io_bandwidth == b.resource_limits.io_bandwidth
    &&& m.network_policy.allow_outbound == (b.network_policy.allow_outbound && o.network_policy.allow_outbound)
    &&& m.network_policy.allowed_ports@ == b.network_policy.allowed_ports@
    &&& texts(m.network_policy.blocked_ips@) == union_texts(texts(b.network_policy.blocked_ips@), texts(o.network_policy.blocked_ips@))
    &&& m.network_policy.rate_limit == tighter_rate(b.network_policy.rate_limit, o.network_policy.rate_limit)
}


/// The rules the isolation manager holds a policy to: a name and a CPU
/// quota in 1..=100.
pub open spec fn isolation_valid(p: SecurityPolicy) -> bool {
    &&& p.name@.len() > 0
    &&& p.resource_limits.cpu_quota matches Some(q) ==> 1 <= q <= 100
}

/// One step of confining a guest.
#[derive(Clone, Copy, Debug, PartialEq, Eq, Structural)]
pub enum IsolationStep {
    ResourceLimits,
    Capabilities,
    SyscallFilter,
    NetworkPolicy,
    MaximumRestrictions,
}

/// The steps that confine a guest under a policy, in order: none for no
/// isolation; limits and capabilities for basic; then the syscall filter
/// (where the policy has one) and the network policy for enhanced; then
/// the host's strictest restrictions for maximum.
pub open spec fn steps_for(p: SecurityPolicy) -> Seq<IsolationStep> {
    let basic = seq![IsolationStep::ResourceLimits, IsolationStep::Capabilities];
    let enhanced = basic + (if p.syscall_filter is Some {
        seq![IsolationStep::SyscallFilter]
    } else {
        Seq::empty()
    }) + seq![IsolationStep::NetworkPolicy];
    match p.isolation_level {
        IsolationLevel::NoIsolation => Seq::empty(),
        IsolationLevel::Basic => basic,
        IsolationLevel::Enhanced => enhanced,
        IsolationLevel::Maximum => enhanced.push(IsolationStep::MaximumRestrictions),
    }
}

/// The steps that confine a guest under `policy`.
pub fn isolation_steps(policy: &SecurityPolicy) -> (r: Vec<IsolationStep>)
    ensures
        r@ == steps_for(*policy),
{
    let mut v: Vec<IsolationStep> = Vec::new();
    match policy.isolation_level {
        IsolationLevel::NoIsolation => {},
        _ => {
            v.push(IsolationStep::ResourceLimits);
            v.push(IsolationStep::Capabilities);
            match policy.isolation_level {
                IsolationLevel::Basic => {},
                _ => {
                    if policy.syscall_filter.is_some() {
                        v.push(IsolationStep::SyscallFilter);
                    }
                    v.push(IsolationStep::NetworkPolicy);
                    match policy.isolation_level {
                        IsolationLevel::Maximum => v.push(IsolationStep::MaximumRestrictions),
                        _ => {},
                    }
                },
            }
        },
    }
    proof {
        assert(v@ =~= steps_for(*policy));
    }
    v
}

/// Some entry of `s` has this key.
pub open spec fn has_key<V>(s: Seq<(String, V)>, key: Seq<char>) -> bool {
    exists|i: int| 0 <= i < s.len() && s[i].0@ == key
}

fn key_position<V>(s: &Vec<(String, V)>, key: &str) -> (r: Option<usize>)
    ensures
        r matches Some(i) ==> i < s@.len() && s@[i as int].0@ == key@,
        r is None ==> !has_key(s@, key@),
{
    let mut i: usize = 0;
    while i < s.len()
        invariant
            i <= s@.len(),
            forall|k: int| 0 <= k < i ==> s@[k].0@ != key@,
        decreases s@.len() - i,
    {
        if str_eq(s[i].0.as_str(), key) {
            return Some(i);
        }
        i += 1;
    }
    None
}

/// Confines guests according to named policies.
pub struct IsolationManager {
    policies: Vec<(String, SecurityPolicy)>,
    vm_policies: Vec<(String, String)>,
}

impl IsolationManager {
    /// The policies by key.
    pub closed spec fn policies(&self) -> Seq<(String, SecurityPolicy)> {
        self.policies@
    }

    /// The (VM, policy name) assignments.
    pub closed spec fn assignments(&self) -> Seq<(String, String)> {
        self.vm_policies@
    }

    /// A manager holding the preset policies and no assignments.
    pub fn new() -> (r: Result<IsolationManager>)
        ensures
            r matches Ok(m) && m.policies().len() == 4 && m.assignments().len() == 0
                && has_key(m.policies(), "trusted"@) && has_key(m.policies(), "standard"@)
                && has_key(m.policies(), "restricted"@) && has_key(m.policies(), "isolated"@),
    {
        let presets = load_preset_policies();
        proof {
            assert(presets@[0].0@ == "trusted"@);
        }
        Ok(IsolationManager { policies: presets, vm_policies: Vec::new() })
    }

    /// Checks a policy: a name and a CPU quota in 1..=100.
    pub fn validate_policy(&self, policy: &SecurityPolicy) -> (r: Result<()>)
        ensures
            r is Ok <==> isolation_valid(*policy),
            r matches Err(e) ==> e is SecurityError,
    {
        proof {
            reveal_strlit("Policy name cannot be empty");
            reveal_strlit("CPU quota must be between 1 and 100");
        }
        if policy.name.as_str().unicode_len() == 0 {
            return Err(AivaError::SecurityError(String::from_str("Policy name cannot be empty")));
        }
        match policy.resource_limits.cpu_quota {
            Some(q) => {
                if q == 0 || q > 100 {
                    return Err(
                        AivaError::SecurityError(String::from_str("CPU quota must be between 1 and 100")),
                    );
                }
            },
            None => {},
        }
        Ok(())
    }

    /// Adds a valid policy under its name, replacing one of that key.
    pub fn add_policy(&mut self, policy: SecurityPolicy) -> (r: Result<()>)
        ensures
            r is Ok <==> isolation_valid(policy),
            r is Ok ==> has_key(final(self).policies(), policy.name@),
            r is Err ==> final(self).policies() == old(self).policies(),
            final(self).assignments() == old(self).assignments(),
    {
        match self.validate_policy(&policy) {
            Ok(()) => {},
            Err(e) => return Err(e),
        }
        let key = policy.name.clone();
        match key_position(&self.policies, key.as_str()) {
            Some(i) => {
                self.policies.set(i, (key, policy));
                proof {
                    assert(self.policies@[i as int].0@ == policy.name@);
                }
            },
            None => {
                self.policies.push((key, policy));
                proof {
                    assert(self.policies@[self.policies@.len() - 1].0@ == policy.name@);
                }
            },
        }
        Ok(())
    }

    /// The policy under this key, or a security error.
    pub fn get_policy(&self, name: &str) -> (r: Result<&SecurityPolicy>)
        ensures
            r is Ok <==> has_key(self.policies(), name@),
            r matches Ok(p) ==> exists|i: int|
                0 <= i < self.policies().len() && self.policies()[i].0@ == name@ && self.policies()[i].1 == *p,
            r matches Err(e) ==> is_policy_missing(e, name@),
    {
        proof {
            reveal_strlit("Policy ");
            reveal_strlit(" not found");
        }
        match key_position(&self.policies, name) {
            Some(i) => {
                proof {
                    assert(self.policies()[i as int] == self.policies@[i as int]);
                }
                Ok(&self.policies[i].1)
            },
            None => Err(
                AivaError::SecurityError(String::from_str("Policy ").concat(name).concat(" not found")),
            ),
        }
    }

    /// The keys of all policies.
    pub fn list_policies(&self) -> (r: Vec<String>)
        ensures
            r@.len() == self.policies().len(),
            forall|i: int| 0 <= i < r@.len() ==> #[trigger] r@[i] == self.policies()[i].0,
    {
        let mut out: Vec<String> = Vec::new();
        let mut i: usize = 0;
        while i < self.policies.len()
            invariant
                i <= self.policies@.len(),
                out@.len() == i,
                forall|k: int| 0 <= k < i ==> #[trigger] out@[k] == self.policies@[k].0,
            decreases self.policies@.len() - i,
        {
            out.push(self.policies[i].0.clone());
            i += 1;
        }
        out
    }

    /// Assigns a known policy to a VM, replacing an earlier assignment.
    pub fn assign_policy(&mut self, vm_id: &str, policy_name: &str) -> (r: Result<()>)
        ensures
            r is Ok <==> has_key(old(self).policies(), policy_name@),
            r matches Err(e) ==> is_policy_missing(e, policy_name@) && final(self).assignments() == old(self).assignments(),
            r is Ok ==> exists|i: int|
                0 <= i < final(self).assignments().len() && final(self).assignments()[i].0@ == vm_id@
                    && final(self).assignments()[i].1@ == policy_name@,
            final(self).policies() == old(self).policies(),
    {
        proof {
            reveal_strlit("Policy ");
            reveal_strlit(" not found");
        }
        if key_position(&self.policies, policy_name).is_none() {
            return Err(
                AivaError::SecurityError(String::from_str("Policy ").concat(policy_name).concat(" not found")),
            );
        }
        let entry = (String::from_str(vm_id), String::from_str(policy_name));
        match key_position(&self.vm_policies, vm_id) {
            Some(i) => {
                self.vm_policies.set(i, entry);
                proof {
                    assert(self.vm_policies@[i as int].0@ == vm_id@);
                    assert(self.vm_policies@[i as int].1@ == policy_name@);
                    assert(self.assignments()[i as int] == self.vm_policies@[i as int]);
                }
            },
            None => {
                self.vm_policies.push(entry);
                proof {
                    let last = self.vm_policies@.len() - 1;
                    assert(self.vm_policies@[last].0@ == vm_id@);
                    assert(self.vm_policies@[last].1@ == policy_name@);
                    assert(self.assignments()[last] == self.vm_policies@[last]);
                }
            },
        }
        Ok(())
    }

    /// The name of the policy assigned to a VM, or a security error.
    pub fn get_vm_policy(&self, vm_id: &str) -> (r: Result<&String>)
        ensures
            r is Ok <==> has_key(self.assignments(), vm_id@),
            r matches Ok(n) ==> exists|i: int|
                0 <= i < self.assignments().len() && self.assignments()[i].0@ == vm_id@ && self.assignments()[i].1 == *n,
            r matches Err(e) ==> (e matches AivaError::SecurityError(m) && m@ == "No policy assigned to VM "@ + vm_id@),
    {
        proof { reveal_strlit("No policy assigned to VM "); }
        match key_position(&self.vm_policies, vm_id) {
            Some(i) => {
                proof {
                    assert(self.assignments()[i as int] == self.vm_policies@[i as int]);
                }
                Ok(&self.vm_policies[i].1)
            },
            None => Err(
                AivaError::SecurityError(String::from_str("No policy assigned to VM ").concat(vm_id)),
            ),
        }
    }

    /// The policy in force for a VM: the one assigned to it.
    pub fn get_effective_policy(&self, vm_id: &str) -> (r: Result<&SecurityPolicy>)
        ensures
            r is Ok ==> has_key(self.assignments(), vm_id@),
            !has_key(self.assignments(), vm_id@) ==> r is Err,
            r matches Ok(p) ==> exists|i: int, j: int|
                0 <= i < self.assignments().len() && self.assignments()[i].0@ == vm_id@
                    && 0 <= j < self.policies().len() && self.policies()[j].0@ == self.assignments()[i].1@
                    && self.policies()[j].1 == *p,
    {
        let name = match self.get_vm_policy(vm_id) {
            Ok(n) => n,
            Err(e) => return Err(e),
        };
        self.get_policy(name.as_str())
    }
}

} // verus!

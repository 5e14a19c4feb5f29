//! The host networking plans of a guest: its TAP device and the iptables
//! rules that wire and unwire it.
use vstd::prelude::*;
use crate::error::Result;
use crate::text::{decimal, decimal_string, strings, texts};
use crate::types::{NetworkConfig, NetworkInfo, PortMapping, Protocol, VMInstance};

verus! {

/// What an iptables command does with its rule.
#[derive(Clone, Copy, Debug, PartialEq, Eq, Structural)]
pub enum RuleOp {
    Append,
    Check,
    Delete,
}

/// The iptables flag of an operation.
pub open spec fn op_flag(op: RuleOp) -> Seq<char> {
    match op {
        RuleOp::Append => "-A"@,
        RuleOp::Check => "-C"@,
        RuleOp::Delete => "-D"@,
    }
}

fn flag(op: RuleOp) -> (r: &'static str)
    ensures
        r@ == op_flag(op),
{
    match op {
        RuleOp::Append => {
            proof { reveal_strlit("-A"); }
            "-A"
        }
        RuleOp::Check => {
            proof { reveal_strlit("-C"); }
            "-C"
        }
        RuleOp::Delete => {
            proof { reveal_strlit("-D"); }
            "-D"
        }
    }
}

/// The first `n` characters of `s`, or all of it.
pub open spec fn prefix_of(s: Seq<char>, n: int) -> Seq<char> {
    if s.len() <= n {
        s
    } else {
        s.subrange(0, n)
    }
}

/// The TAP device of a VM: "aiva-tap-" and the first eight characters of
/// its name.
pub fn tap_device_name(vm_name: &str) -> (r: String)
    ensures
        r@ == "aiva-tap-"@ + prefix_of(vm_name@, 8),
{
    proof { reveal_strlit("aiva-tap-"); }
    let n = vm_name.unicode_len();
    let end: usize = if n <= 8 { n } else { 8 };
    proof {
        if n <= 8 {
            assert(vm_name@.subrange(0, n as int) =~= vm_name@);
        }
    }
    String::from_str("aiva-tap-").concat(vm_name.substring_char(0, end))
}

/// The arguments of the NAT rule that masquerades the guest subnet.
pub open spec fn masquerade(op: RuleOp, subnet: Seq<char>) -> Seq<Seq<char>> {
    seq!["-t"@, "nat"@, op_flag(op), "POSTROUTING"@, "-s"@, subnet, "-j"@, "MASQUERADE"@]
}

/// The arguments of a FORWARD rule from (`from_subnet`) or to the subnet.
pub open spec fn forward(op: RuleOp, subnet: Seq<char>, from_subnet: bool, action: Seq<char>) -> Seq<Seq<char>> {
    seq![op_flag(op), "FORWARD"@, if from_subnet { "-s"@ } else { "-d"@ }, subnet, "-j"@, action]
}

/// The lower-case protocol name.
pub open spec fn protocol_name(p: Protocol) -> Seq<char> {
    match p {
        Protocol::Tcp => "tcp"@,
        Protocol::Udp => "udp"@,
    }
}

/// The arguments of the DNAT rule that forwards a host port to the guest.
pub open spec fn port_forward(op: RuleOp, guest_ip: Seq<char>, m: PortMapping) -> Seq<Seq<char>> {
    seq![
        "-t"@,
        "nat"@,
        op_flag(op),
        "PREROUTING"@,
        "-p"@,
        protocol_name(m.protocol),
        "--dport"@,
        decimal(m.host_port as nat),
        "-j"@,
        "DNAT"@,
        "--to-destination"@,
        guest_ip + ":"@ + decimal(m.guest_port as nat),
    ]
}

fn strs(items: &[&str]) -> (r: Vec<String>)
    ensures
        texts(r@) == items@.map_values(|s: &str| s@),
{
    let v = strings(items);
    proof {
        assert(texts(v@) =~= items@.map_values(|s: &str| s@));
    }
    v
}

/// The masquerade rule, for iptables.
pub fn masquerade_args(op: RuleOp, subnet: &str) -> (r: Vec<String>)
    ensures
        texts(r@) == masquerade(op, subnet@),
{
    proof {
        reveal_strlit("-t");
        reveal_strlit("nat");
        reveal_strlit("POSTROUTING");
        reveal_strlit("-s");
        reveal_strlit("-j");
        reveal_strlit("MASQUERADE");
    }
    let v = strs(&["-t", "nat", flag(op), "POSTROUTING", "-s", subnet, "-j", "MASQUERADE"]);
    proof {
        assert(texts(v@) =~= masquerade(op, subnet@));
    }
    v
}

/// A FORWARD rule, for iptables.
pub fn forward_args(op: RuleOp, subnet: &str, from_subnet: bool, action: &str) -> (r: Vec<String>)
    ensures
        texts(r@) == forward(op, subnet@, from_subnet, action@),
{
    proof {
        reveal_strlit("FORWARD");
        reveal_strlit("-s");
        reveal_strlit("-d");
        reveal_strlit("-j");
    }
    let dir = if from_subnet { "-s" } else { "-d" };
    let v = strs(&[flag(op), "FORWARD", dir, subnet, "-j", action]);
    proof {
        assert(texts(v@) =~= forward(op, subnet@, from_subnet, action@));
    }
    v
}

/// A port-forwarding rule, for iptables.
pub fn port_forward_args(op: RuleOp, guest_ip: &str, m: PortMapping) -> (r: Vec<String>)
    ensures
        texts(r@) == port_forward(op, guest_ip@, m),
{
    proof {
        reveal_strlit("-t");
        reveal_strlit("nat");
        reveal_strlit("PREROUTING");
        reveal_strlit("-p");
        reveal_strlit("--dport");
        reveal_strlit("-j");
        reveal_strlit("DNAT");
        reveal_strlit("--to-destination");
        reveal_strlit(":");
    }
    let proto = m.protocol.as_str();
    let host = decimal_string(m.host_port as u64);
    let dest = String::from_str(guest_ip).concat(":").concat(decimal_string(m.guest_port as u64).as_str());
    let v = strs(
        &[
            "-t",
            "nat",
            flag(op),
            "PREROUTING",
            "-p",
            proto,
            "--dport",
            host.as_str(),
            "-j",
            "DNAT",
            "--to-destination",
            dest.as_str(),
        ],
    );
    proof {
        assert(texts(v@) =~= port_forward(op, guest_ip@, m));
    }
    v
}

/// The iptables commands that wire a guest network: masquerade the
/// subnet, forward from and to it, then one DNAT rule per port mapping.
pub open spec fn is_nat_plan(plan: Seq<Seq<Seq<char>>>, op: RuleOp, c: NetworkConfig) -> bool {
    &&& plan.len() == 3 + c.port_mappings@.len()
    &&& plan[0] == masquerade(op, c.subnet@)
    &&& plan[1] == forward(op, c.subnet@, true, "ACCEPT"@)
    &&& plan[2] == forward(op, c.subnet@, false, "ACCEPT"@)
    &&& forall|i: int| 0 <= i < c.port_mappings@.len() ==> #[trigger] plan[3 + i] == port_forward(op, c.guest_ip@, c.port_mappings@[i])
}

/// The commands of a plan, as character sequences.
pub open spec fn plan_texts(plan: Seq<Vec<String>>) -> Seq<Seq<Seq<char>>> {
    plan.map_values(|v: Vec<String>| texts(v@))
}

/// The iptables commands that wire (`Append`) or unwire (`Delete`) the
/// guest network of a configuration.
pub fn nat_plan(op: RuleOp, config: &NetworkConfig) -> (r: Vec<Vec<String>>)
    ensures
        is_nat_plan(plan_texts(r@), op, *config),
{
    proof { reveal_strlit("ACCEPT"); }
    let mut plan: Vec<Vec<String>> = Vec::new();
    plan.push(masquerade_args(op, config.subnet.as_str()));
    plan.push(forward_args(op, config.subnet.as_str(), true, "ACCEPT"));
    plan.push(forward_args(op, config.subnet.as_str(), false, "ACCEPT"));
    let mut i: usize = 0;
    while i < config.port_mappings.len()
        invariant
            i <= config.port_mappings@.len(),
            plan@.len() == 3 + i,
            texts(plan@[0]@) == masquerade(op, config.subnet@),
            texts(plan@[1]@) == forward(op, config.subnet@, true, "ACCEPT"@),
            texts(plan@[2]@) == forward(op, config.subnet@, false, "ACCEPT"@),
            forall|k: int| 0 <= k < i ==> #[trigger] texts(plan@[3 + k]@) == port_forward(op, config.guest_ip@, config.port_mappings@[k]),
        decreases config.port_mappings@.len() - i,
    {
        plan.push(port_forward_args(op, config.guest_ip.as_str(), config.port_mappings[i]));
        proof {
            assert forall|k: int| 0 <= k < i + 1 implies #[trigger] texts(plan@[3 + k]@) == port_forward(op, config.guest_ip@, config.port_mappings@[k]) by {
                if k < i {
                    assert(texts(plan@[3 + k]@) == port_forward(op, config.guest_ip@, config.port_mappings@[k]));
                }
            }
        }
        i += 1;
    }
    proof {
        let p = plan_texts(plan@);
        assert forall|k: int| 0 <= k < config.port_mappings@.len() implies #[trigger] p[3 + k] == port_forward(op, config.guest_ip@, config.port_mappings@[k]) by {
            assert(p[3 + k] == texts(plan@[3 + k]@));
        }
    }
    plan
}

/// Host-side addressing of a guest on a TAP device.
pub fn network_info(instance: &VMInstance, tap_device: String) -> (r: NetworkInfo)
    ensures
        r.tap_device == tap_device,
        r.guest_ip == instance.config.network.guest_ip,
        r.host_ip == instance.config.network.host_ip,
{
    NetworkInfo {
        tap_device,
        guest_ip: instance.config.network.guest_ip.clone(),
        host_ip: instance.config.network.host_ip.clone(),
    }
}

/// DHCP for guests: nothing is served, the guests use static addresses.
pub fn setup_dhcp_server(config: &NetworkConfig) -> (r: Result<()>)
    ensures
        r is Ok,
{
    Ok(())
}

} // verus!

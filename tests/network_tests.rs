use aiva::network::{
    forward_args, masquerade_args, nat_plan, port_forward_args, setup_dhcp_server, tap_device_name, RuleOp,
};
use aiva::{NetworkConfig, PortMapping, Protocol};

#[test]
fn tap_names_keep_eight_characters() {
    assert_eq!(tap_device_name("alice"), "aiva-tap-alice");
    assert_eq!(tap_device_name("integration-test-vm"), "aiva-tap-integrat");
    assert_eq!(tap_device_name(""), "aiva-tap-");
}

#[test]
fn iptables_rules() {
    assert_eq!(
        masquerade_args(RuleOp::Check, "172.16.0.0/24"),
        vec!["-t", "nat", "-C", "POSTROUTING", "-s", "172.16.0.0/24", "-j", "MASQUERADE"]
    );
    assert_eq!(forward_args(RuleOp::Delete, "10.0.0.0/8", false, "ACCEPT"), vec!["-D", "FORWARD", "-d", "10.0.0.0/8", "-j", "ACCEPT"]);
    let m = PortMapping { host_port: 8080, guest_port: 80, protocol: Protocol::Udp };
    assert_eq!(
        port_forward_args(RuleOp::Append, "172.16.0.2", m),
        vec!["-t", "nat", "-A", "PREROUTING", "-p", "udp", "--dport", "8080", "-j", "DNAT", "--to-destination", "172.16.0.2:80"]
    );
}

#[test]
fn nat_plan_covers_every_mapping() {
    let mut c = NetworkConfig::default();
    c.port_mappings.push(PortMapping { host_port: 3000, guest_port: 3000, protocol: Protocol::Tcp });
    c.port_mappings.push(PortMapping { host_port: 9000, guest_port: 90, protocol: Protocol::Tcp });
    let plan = nat_plan(RuleOp::Append, &c);
    assert_eq!(plan.len(), 5);
    assert_eq!(plan[0][2], "-A");
    assert_eq!(plan[1], vec!["-A", "FORWARD", "-s", "172.16.0.0/24", "-j", "ACCEPT"]);
    assert_eq!(plan[4][11], "172.16.0.2:90");
    assert!(setup_dhcp_server(&c).is_ok());
}

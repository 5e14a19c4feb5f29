use aiva::command_pool::CommandPool;
use aiva::executor::{
    connection_candidates, first_confirmed, network_address, network_request, probe_succeeded,
    ssh_args, ssh_outcome, DEFAULT_GUEST_CID,
};
use aiva::templates::VMTemplate;
use aiva::{AivaError, ConnectionType, RuntimeInfo, VMInstance, VMState, VsockExecutor, VSOCK_COMMAND_PORT};

fn network(host: &str, port: u16) -> ConnectionType {
    ConnectionType::Network { host: host.to_string(), port }
}

#[test]
fn test_command_pool_creation() {
    let pool = CommandPool::new();
    let vms = pool.list_vms();
    assert_eq!(vms.len(), 0, "New pool should have no VMs");
}

#[test]
fn test_vm_registration() {
    let pool = CommandPool::new();
    let vm_name = "test-vm".to_string();
    let _connection = network("127.0.0.1", 5555);
    assert!(!pool.is_registered(&vm_name));
}

#[test]
fn test_vm_unregistration() {
    let mut pool = CommandPool::new();
    let vm_name = "test-vm";
    pool.unregister_vm(vm_name).unwrap();
    assert!(!pool.is_registered(vm_name));
}

#[test]
fn test_connection_types() {
    let _vsock = ConnectionType::Vsock { cid: 3 };
    let _network = network("192.168.1.100", 8080);
    let _ssh = ConnectionType::Ssh {
        host: "example.com".to_string(),
        port: 22,
        key_path: Some("/home/user/.ssh/id_rsa".to_string()),
    };
}

#[test]
fn test_vsock_executor_creation() {
    let vm_name = "test-vm".to_string();
    let _vsock_executor = VsockExecutor::new(vm_name.clone(), ConnectionType::Vsock { cid: 3 });
    let _network_executor = VsockExecutor::new(vm_name.clone(), network("192.168.1.100", 5555));
    let ssh_conn = ConnectionType::Ssh {
        host: "example.com".to_string(),
        port: 22,
        key_path: Some("/home/user/.ssh/id_rsa".to_string()),
    };
    let _ssh_executor = VsockExecutor::new(vm_name, ssh_conn);
}

#[test]
fn test_create_executor_replacement() {
    let executor = VsockExecutor::new("test-vm".to_string(), network("192.168.1.100", 8080));
    assert_eq!(executor.name(), "test-vm");
    let refused = AivaError::NetworkError {
        operation: "connect".to_string(),
        cause: "Failed to connect to 192.168.1.100:8080".to_string(),
    };
    assert!(!probe_succeeded(&Err(refused)));
}

#[test]
fn test_connection_check_failure() {
    let executor = VsockExecutor::new("nonexistent-vm".to_string(), network("127.0.0.1", 9999));
    let mut pool = CommandPool::new();
    let timed_out = AivaError::NetworkError {
        operation: "connect".to_string(),
        cause: "Connection to 127.0.0.1:9999 timed out".to_string(),
    };
    assert!(!probe_succeeded(&Err(timed_out.clone())));
    assert!(pool.register_vm(executor, Err(timed_out)).is_err());
    assert!(!pool.is_registered("nonexistent-vm"));
}

#[test]
fn test_ssh_connection_type() {
    let with_key = ConnectionType::Ssh {
        host: "test.example.com".to_string(),
        port: 2222,
        key_path: Some("/path/to/key".to_string()),
    };
    let executor_with_key = VsockExecutor::new("ssh-vm".to_string(), with_key);
    let without_key = ConnectionType::Ssh { host: "test.example.com".to_string(), port: 22, key_path: None };
    let executor_without_key = VsockExecutor::new("ssh-vm".to_string(), without_key);
    assert!(matches!(executor_with_key.connection_type(), ConnectionType::Ssh { port: 2222, .. }));
    assert!(matches!(executor_without_key.connection_type(), ConnectionType::Ssh { key_path: None, .. }));
}

#[test]
fn failed_probe_never_registers() {
    let mut pool = CommandPool::new();
    let ex = VsockExecutor::new("vm".to_string(), network("10.0.0.2", 5555));
    match pool.register_vm(ex, Ok("something else".to_string())) {
        Err(AivaError::NetworkError { operation, cause }) => {
            assert_eq!(operation, "register_vm");
            assert_eq!(cause, "Failed to establish connection to VM vm");
        }
        other => panic!("unexpected {:?}", other),
    }
    assert!(!pool.is_registered("vm"));
    assert!(pool.list_vms().is_empty());
}

#[test]
fn succeeding_probe_makes_vm_reachable() {
    let mut pool = CommandPool::new();
    let ex = VsockExecutor::new("vm".to_string(), network("10.0.0.2", 5555));
    pool.register_vm(ex, Ok("connection_test\n".to_string())).unwrap();
    assert!(pool.is_registered("vm"));
    let found = pool.executor_for("vm").unwrap();
    assert_eq!(found.name(), "vm");
    let replacement = VsockExecutor::new("vm".to_string(), network("10.0.0.3", 6000));
    pool.register_vm(replacement, Ok("xx connection_test".to_string())).unwrap();
    assert_eq!(pool.list_vms(), vec!["vm".to_string()]);
    assert!(matches!(pool.executor_for("vm").unwrap().connection_type(), ConnectionType::Network { port: 6000, .. }));
    pool.unregister_vm("vm").unwrap();
    assert!(!pool.is_registered("vm"));
}

#[test]
fn unregistered_execute_fails_without_connecting() {
    let pool = CommandPool::new();
    match pool.executor_for("ghost") {
        Err(AivaError::VMError { vm_name, state, message }) => {
            assert_eq!(vm_name, "ghost");
            assert_eq!(state, VMState::Stopped);
            assert_eq!(message, "VM not registered in command pool");
        }
        Ok(_) => panic!("should not be registered"),
        Err(e) => panic!("unexpected {:?}", e),
    }
}

#[test]
fn vsock_runs_over_local_command_port() {
    let ex = VsockExecutor::new("v".to_string(), ConnectionType::Vsock { cid: 3 });
    match ex.transport() {
        ConnectionType::Network { host, port } => {
            assert_eq!(host, "localhost");
            assert_eq!(port as u32, VSOCK_COMMAND_PORT);
        }
        other => panic!("unexpected {:?}", other),
    }
    let ssh = VsockExecutor::new("v".to_string(), ConnectionType::Ssh { host: "h".to_string(), port: 2, key_path: None });
    assert!(matches!(ssh.transport(), ConnectionType::Ssh { port: 2, .. }));
}

#[test]
fn ssh_arguments_in_order() {
    assert_eq!(
        ssh_args("test.example.com", 2222, Some("/path/to/key"), "uptime"),
        vec![
            "-o", "StrictHostKeyChecking=no", "-o", "UserKnownHostsFile=/dev/null", "-o", "LogLevel=ERROR",
            "-p", "2222", "-i", "/path/to/key", "root@test.example.com", "uptime",
        ]
    );
    assert_eq!(
        ssh_args("h", 22, None, "ls"),
        vec!["-o", "StrictHostKeyChecking=no", "-o", "UserKnownHostsFile=/dev/null", "-o", "LogLevel=ERROR", "-p", "22", "root@h", "ls"]
    );
}

#[test]
fn ssh_outcome_maps_exit_status() {
    assert_eq!(ssh_outcome(true, "out".to_string(), "err").unwrap(), "out");
    match ssh_outcome(false, "out".to_string(), "denied") {
        Err(AivaError::PlatformError { platform, message, recoverable }) => {
            assert_eq!(platform, "ssh");
            assert_eq!(message, "SSH command failed: denied");
            assert!(recoverable);
        }
        other => panic!("unexpected {:?}", other),
    }
}

#[test]
fn network_framing() {
    assert_eq!(network_address("127.0.0.1", 5555), "127.0.0.1:5555");
    assert_eq!(network_address("h", 0), "h:0");
    assert_eq!(network_request("echo hi"), "echo hi\n");
}

#[test]
fn candidates_fall_back_to_ssh_on_first_forwarded_port() {
    let mut config = VMTemplate::nodejs22_npx().base_config;
    config.network.guest_ip = "172.16.0.9".to_string();
    let vm = VMInstance {
        id: 1,
        name: "n".to_string(),
        state: VMState::Running,
        config,
        runtime: RuntimeInfo::empty(),
        created_at: 0,
        updated_at: 0,
    };
    let c = connection_candidates(&vm, false);
    assert_eq!(c.len(), 2);
    assert!(matches!(&c[0], ConnectionType::Network { host, port: 5555 } if host == "172.16.0.9"));
    assert!(matches!(&c[1], ConnectionType::Ssh { host, port: 3001, key_path: None } if host == "localhost"));
    let v = connection_candidates(&vm, true);
    assert!(matches!(v[0], ConnectionType::Vsock { cid } if cid == DEFAULT_GUEST_CID));
    let mut bare = vm.clone();
    bare.config.network.port_mappings.clear();
    assert_eq!(connection_candidates(&bare, true).len(), 1);
}

#[test]
fn first_confirmed_probe_wins() {
    let answers = vec![
        Err(AivaError::Other("down".to_string())),
        Ok("nope".to_string()),
        Ok("connection_test".to_string()),
        Ok("connection_test".to_string()),
    ];
    assert_eq!(first_confirmed(&answers), Some(2));
    assert_eq!(first_confirmed(&answers[..2].to_vec()), None);
}

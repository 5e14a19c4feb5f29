use aiva::platform::{service_port, created_instance, make_guest_dir_command, not_responding_error, socket_wait_step, stop_script, WaitStep};
use aiva::platform::{firecracker_vm_config, HostRun};
use aiva::{detect_platform, LinuxPlatform, MacOSPlatform, PlatformKind, WindowsPlatform, VSOCK_COMMAND_PORT};
use aiva::platform::select_platform;

#[test]
fn test_detect_platform() {
    assert_eq!(detect_platform("linux"), "linux");
    assert_eq!(detect_platform("macos"), "macos");
    assert_eq!(detect_platform("windows"), "windows");
}

#[test]
fn test_vsock_support_check() {
    let platform = LinuxPlatform::new().unwrap();
    let _has_vsock = platform.check_vsock_support();
}

#[test]
fn test_vsock_port_constant() {
    assert_eq!(VSOCK_COMMAND_PORT, 5555);
}

#[test]
fn test_linux_platform_creation() {
    let platform = LinuxPlatform::new().unwrap();
    assert_eq!(platform.name(), "linux");
}

#[test]
fn test_macos_platform_creation() {
    let platform = MacOSPlatform::new().unwrap();
    assert_eq!(platform.name(), "macos");
}

#[test]
fn test_macos_with_custom_config() {
    let platform = MacOSPlatform::with_config("/path/to/lima.yml".to_string()).unwrap();
    assert_eq!(platform.name(), "macos");
    assert_eq!(platform.lima_config_path.as_deref(), Some("/path/to/lima.yml"));
}

#[test]
fn test_windows_platform_creation() {
    let platform = WindowsPlatform::new().unwrap();
    assert_eq!(platform.name(), "windows");
}

#[test]
fn detect_platform_unknown_os() {
    assert_eq!(detect_platform("freebsd"), "unknown");
}

#[test]
fn select_platform_per_os() {
    assert_eq!(select_platform("linux").unwrap(), PlatformKind::Linux);
    assert_eq!(select_platform("macos").unwrap().name(), "macos");
    assert_eq!(select_platform("windows").unwrap().name(), "windows");
    match select_platform("plan9") {
        Err(aiva::AivaError::PlatformError { platform, message, recoverable }) => {
            assert_eq!(platform, "plan9");
            assert_eq!(message, "Unsupported platform");
            assert!(!recoverable);
        }
        other => panic!("unexpected {:?}", other),
    }
}

#[test]
fn linux_requirements_verdict_order() {
    let p = LinuxPlatform::with_paths("/opt/fc".to_string(), "/opt/jailer".to_string());
    assert!(p.requirements_verdict(true, true, true).is_ok());
    match p.requirements_verdict(true, false, true) {
        Err(aiva::AivaError::PlatformError { message, recoverable, .. }) => {
            assert_eq!(message, "Firecracker not found at /opt/fc. Please install Firecracker.");
            assert!(recoverable);
        }
        other => panic!("unexpected {:?}", other),
    }
    match p.requirements_verdict(true, true, false) {
        Err(aiva::AivaError::PlatformError { message, .. }) => {
            assert_eq!(message, "Jailer not found at /opt/jailer. Please install Firecracker.");
        }
        other => panic!("unexpected {:?}", other),
    }
    match p.requirements_verdict(false, true, true) {
        Err(aiva::AivaError::PlatformError { recoverable, .. }) => assert!(!recoverable),
        other => panic!("unexpected {:?}", other),
    }
}

fn finished(success: bool, stdout: &str, stderr: &str) -> aiva::platform::HostRun {
    aiva::platform::HostRun::Finished { success, stdout: stdout.to_string(), stderr: stderr.to_string() }
}

fn macos_error(r: aiva::Result<impl std::fmt::Debug>) -> (String, bool) {
    match r {
        Err(aiva::AivaError::PlatformError { platform, message, recoverable }) => {
            assert_eq!(platform, "macos");
            (message, recoverable)
        }
        other => panic!("unexpected {:?}", other),
    }
}

#[test]
fn lima_listing_outcomes() {
    let p = MacOSPlatform::new().unwrap();
    assert_eq!(p.lima_listing(finished(true, "[{\"name\":\"aiva-host\"}]", "")).unwrap(), "[{\"name\":\"aiva-host\"}]");
    assert_eq!(macos_error(p.lima_listing(finished(false, "", "x"))), ("Failed to list Lima instances".to_string(), false));
    assert_eq!(macos_error(p.lima_listing(HostRun::NotStarted("no such file".to_string()))), ("Failed to run limactl: no such file".to_string(), true));
    assert_eq!(
        macos_error(p.lima_listing(HostRun::TimedOut)),
        ("limactl list command timed out after 10 seconds".to_string(), true)
    );
    assert!(!p.needs_lima_instance("{\"name\":\"aiva-host\"}"));
    assert!(p.needs_lima_instance("{\"name\":\"default\"}"));
}

#[test]
fn lima_configuration_and_creation() {
    let p = MacOSPlatform::new().unwrap();
    assert_eq!(p.lima_config_choice(Some("/env.yml".to_string()), true, "builtin.yaml"), "/env.yml");
    assert_eq!(p.lima_config_choice(None, true, "builtin.yaml"), "./lima.yml");
    assert_eq!(p.lima_config_choice(None, false, "builtin.yaml"), "builtin.yaml");
    let custom = MacOSPlatform::with_config("/path/to/lima.yml".to_string()).unwrap();
    assert_eq!(custom.lima_config_choice(Some("/env.yml".to_string()), true, "b"), "/path/to/lima.yml");
    assert_eq!(p.lima_start_args("c.yml"), vec!["start", "--name", "aiva-host", "--tty=false", "c.yml"]);
    assert!(p.lima_created(finished(true, "", "")).is_ok());
    assert_eq!(macos_error(p.lima_created(finished(false, "", "disk full"))), ("Failed to create Lima instance: disk full".to_string(), false));
    assert_eq!(
        macos_error(p.lima_created(HostRun::TimedOut)),
        ("Lima instance creation timed out after 120 seconds".to_string(), false)
    );
}

#[test]
fn firecracker_setup_of_an_instance() {
    let mut config = aiva::templates::VMTemplate::python3_uv().base_config;
    config.cpus = 3;
    let vm = aiva::VMInstance {
        id: 9,
        name: "alice".to_string(),
        state: aiva::VMState::Stopped,
        config,
        runtime: aiva::RuntimeInfo::empty(),
        created_at: 0,
        updated_at: 0,
    };
    let fc = firecracker_vm_config(&vm);
    assert_eq!(fc.socket_path, "/var/lib/firecracker/alice/firecracker.socket");
    assert_eq!(fc.rootfs_path, "/var/lib/firecracker/alice/alice.rootfs.ext4");
    assert_eq!(fc.tap_device, "tap-alice");
    let seq = fc.boot_sequence();
    assert_eq!(seq.len(), 5);
    assert_eq!(
        seq[0],
        "sudo curl -s -X PUT 'http://localhost/machine-config' --unix-socket /var/lib/firecracker/alice/firecracker.socket -H 'Content-Type: application/json' -d '{\"vcpu_count\": 3, \"mem_size_mib\": 4096}'"
    );
    assert!(seq[1].contains("ip=172.16.0.2::172.16.0.1:255.255.255.0::eth0:off"));
    assert!(seq[3].ends_with("{\"iface_id\": \"eth0\", \"host_dev_name\": \"tap-alice\"}'"));
    assert!(seq[4].ends_with("{\"action_type\": \"InstanceStart\"}'"));
}

#[test]
fn windows_host_checks() {
    let p = WindowsPlatform::new().unwrap();
    assert!(p.is_windows_11("Microsoft Windows [Version 10.0.22631.4317]"));
    assert!(!p.is_windows_11("Microsoft Windows [Version 10.0.19045.3803]"));
    assert!(p.wsl2_verdict("Default Version: 2\nWSL version: 2.0.9.0").is_ok());
    assert!(p.wsl2_verdict("WSL 2 kernel").is_ok());
    match p.wsl2_verdict("WSL version: 1") {
        Err(aiva::AivaError::PlatformError { platform, message, recoverable }) => {
            assert_eq!(platform, "windows");
            assert_eq!(message, "WSL 2 is required for nested virtualization");
            assert!(recoverable);
        }
        other => panic!("unexpected {:?}", other),
    }
    assert_eq!(p.choose_distro("Ubuntu\nDebian\n").unwrap(), "Ubuntu");
    assert_eq!(p.choose_distro("Debian\n").unwrap(), "Debian");
    let custom = WindowsPlatform { wsl_distro: "aiva-wsl".to_string() };
    assert_eq!(custom.choose_distro("Ubuntu\naiva-wsl\n").unwrap(), "aiva-wsl");
    assert!(matches!(p.choose_distro("kali-linux\n"), Err(aiva::AivaError::PlatformError { recoverable: true, .. })));
}

#[test]
fn macos_creation_reports_stopped_instance_with_socket_and_tap() {
    let mut vm = aiva::VMInstance {
        id: 4,
        name: "bob".to_string(),
        state: aiva::VMState::Creating,
        config: aiva::templates::VMTemplate::nodejs22_npx().base_config,
        runtime: aiva::RuntimeInfo::empty(),
        created_at: 11,
        updated_at: 11,
    };
    vm.runtime.pid = Some(99);
    vm.config.disk_gb = 30;
    let fc = firecracker_vm_config(&vm);
    let created = created_instance(vm.clone());
    assert_eq!(created.state, aiva::VMState::Stopped);
    assert_eq!(created.runtime.pid, None);
    assert_eq!(created.runtime.api_socket.as_deref(), Some("/var/lib/firecracker/bob/firecracker.socket"));
    assert_eq!(created.runtime.tap_device.as_deref(), Some("tap-bob"));
    assert_eq!((created.id, created.name.as_str(), created.created_at), (4, "bob", 11));
    assert_eq!(make_guest_dir_command("bob"), "sudo mkdir -p /var/lib/firecracker/bob && sudo chmod 755 /var/lib/firecracker/bob");
    let script = fc.rootfs_script(vm.config.disk_gb);
    assert!(script.starts_with("sudo cp /opt/aiva/images/base.rootfs.ext4 /var/lib/firecracker/bob/bob.rootfs.ext4\n"));
    assert!(script.contains("sudo truncate -s 30G /var/lib/firecracker/bob/bob.rootfs.ext4\n"));
    assert!(script.ends_with("echo \"Rootfs created at /var/lib/firecracker/bob/bob.rootfs.ext4\"\n"));
}

#[test]
fn stop_scripts_kill_only_when_forced() {
    let gentle = stop_script("bob", false);
    let forced = stop_script("bob", true);
    assert!(gentle.contains("sudo kill -TERM $FC_PID"));
    assert!(!gentle.contains("-KILL"));
    assert!(forced.contains("sudo kill -KILL $FC_PID"));
    assert!(!forced.contains("-TERM"));
    for s in [&gentle, &forced] {
        assert!(s.contains("rm -f /tmp/firecracker-bob.pid"));
        assert!(s.contains("sudo rm -f /var/lib/firecracker/bob/firecracker.socket"));
        assert!(s.contains("sudo ip link delete tap-bob"));
        assert!(s.contains("/tmp/mcp-bob.pid"));
        assert!(s.ends_with("echo \"Firecracker VM bob stopped and cleaned up\"\n"));
    }
}

#[test]
fn socket_wait_steps() {
    assert_eq!(socket_wait_step(0, true, true), WaitStep::Ready { after_ms: 200 });
    assert_eq!(socket_wait_step(4, true, false), WaitStep::Retry);
    assert_eq!(socket_wait_step(28, false, false), WaitStep::Retry);
    assert_eq!(socket_wait_step(29, false, false), WaitStep::GiveUp);
    assert_eq!(socket_wait_step(29, true, true), WaitStep::Ready { after_ms: 6000 });
    match not_responding_error("bob", "boom") {
        aiva::AivaError::VMError { vm_name, state, message } => {
            assert_eq!(vm_name, "bob");
            assert_eq!(state, aiva::VMState::Error);
            assert_eq!(message, "Firecracker not responding after 6 seconds. Logs:\nboom");
        }
        other => panic!("unexpected {:?}", other),
    }
    let fc = firecracker_vm_config(&aiva::VMInstance {
        id: 1,
        name: "a".to_string(),
        state: aiva::VMState::Stopped,
        config: aiva::templates::VMTemplate::python3_uv().base_config,
        runtime: aiva::RuntimeInfo::empty(),
        created_at: 0,
        updated_at: 0,
    });
    assert_eq!(fc.socket_check_command(), "test -S /var/lib/firecracker/a/firecracker.socket && echo 'ready'");
}

#[test]
fn linux_preflight_matches_verdict() {
    let p = LinuxPlatform::with_paths("/nonexistent/fc".to_string(), "/nonexistent/jailer".to_string());
    match p.check_requirements() {
        Err(aiva::AivaError::PlatformError { .. }) => {}
        other => panic!("unexpected {:?}", other),
    }
    match p.requirements_verdict(false, true, true) {
        Err(aiva::AivaError::PlatformError { message, .. }) => {
            assert_eq!(message, "KVM device not found at /dev/kvm. Please ensure KVM is enabled.");
        }
        other => panic!("unexpected {:?}", other),
    }
}

#[test]
fn windows_metrics_script_names_the_vm() {
    let p = WindowsPlatform::new().unwrap();
    let script = p.metrics_script("win1");
    assert!(script.starts_with("PID=$(pgrep -f 'firecracker.*win1' | head -1)\n"));
    assert!(script.contains("awk '/tap-win1:/ {print $2}' /proc/net/dev"));
    assert!(script.contains("echo 'error: not running'"));
}

#[test]
fn mcp_service_port_choice() {
    let mut vm = aiva::VMInstance {
        id: 1,
        name: "a".to_string(),
        state: aiva::VMState::Running,
        config: aiva::templates::VMTemplate::nodejs22_npx().base_config,
        runtime: aiva::RuntimeInfo::empty(),
        created_at: 0,
        updated_at: 0,
    };
    assert_eq!(service_port("npx server --port 8123 --port 9", &vm), 8123);
    assert_eq!(service_port("npx server --port abc", &vm), 3000);
    assert_eq!(service_port("npx server", &vm), 3001);
    vm.config.network.port_mappings.clear();
    assert_eq!(service_port("npx server", &vm), 3000);
}

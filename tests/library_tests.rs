use aiva::status::{format_duration, VMStatus};
use aiva::config::{get_config_value, set_config_value, Config};
use aiva::security::{
    create_ai_agent_policy, create_mcp_policy, isolation_steps, load_preset_policies, IsolationLevel,
    IsolationManager, IsolationStep, PolicyManager,
};
use aiva::templates::{TemplateManager, VMConfigCustomizations, VMTemplate};
use aiva::text::{decimal_string, parse_u64, str_contains};
use aiva::utils::{
    data_dir_under, get_images_dir, get_vm_dir, join_path, parse_disk_size, parse_memory_size,
    parse_port_mapping,
};
use aiva::{AivaError, CacheStrategy, NetworkConfig, PortMapping, Protocol, StorageConfig, VMMetrics};

fn config_error<T: std::fmt::Debug>(r: aiva::Result<T>) -> String {
    match r {
        Err(AivaError::ConfigError(m)) => m,
        other => panic!("expected a configuration error, got {:?}", other),
    }
}

#[test]
fn memory_sizes() {
    assert_eq!(parse_memory_size("4GB").unwrap(), 4096);
    assert_eq!(parse_memory_size("4gb").unwrap(), 4096);
    assert_eq!(parse_memory_size("512MB").unwrap(), 512);
    assert_eq!(parse_memory_size("512mb").unwrap(), 512);
    assert_eq!(parse_memory_size("2GBGB").unwrap(), 2048);
    assert_eq!(parse_memory_size("+1GB").unwrap(), 1024);
    assert_eq!(config_error(parse_memory_size("4TB")), "Memory size must end with MB or GB");
    assert_eq!(config_error(parse_memory_size("xGB")), "Invalid memory size");
    assert_eq!(config_error(parse_memory_size("GB")), "Invalid memory size");
    assert_eq!(config_error(parse_memory_size("18014398509481984GB")), "Invalid memory size");
    assert_eq!(parse_memory_size("18014398509481983GB").unwrap(), 18014398509481983 * 1024);
}

#[test]
fn disk_sizes() {
    assert_eq!(parse_disk_size("20GB").unwrap(), 20);
    assert_eq!(parse_disk_size("100gb").unwrap(), 100);
    assert_eq!(config_error(parse_disk_size("20MB")), "Disk size must end with GB");
    assert_eq!(config_error(parse_disk_size("-1GB")), "Invalid disk size");
}

#[test]
fn port_mappings() {
    assert_eq!(parse_port_mapping("8080:80").unwrap(), (8080, 80));
    assert_eq!(parse_port_mapping("0:65535").unwrap(), (0, 65535));
    assert_eq!(config_error(parse_port_mapping("8080")), "Port mapping must be in format host:guest");
    assert_eq!(config_error(parse_port_mapping("1:2:3")), "Port mapping must be in format host:guest");
    assert_eq!(config_error(parse_port_mapping("a:80")), "Invalid host port");
    assert_eq!(config_error(parse_port_mapping("80:70000")), "Invalid guest port");
    assert_eq!(config_error(parse_port_mapping(":80")), "Invalid host port");
}

#[test]
fn data_paths() {
    assert_eq!(data_dir_under(Some("/home/u".to_string())).unwrap(), "/home/u/.aiva/data");
    assert_eq!(data_dir_under(Some("/home/u/".to_string())).unwrap(), "/home/u/.aiva/data");
    assert_eq!(config_error(data_dir_under(None)), "Cannot determine home directory");
    assert_eq!(join_path("/a", "/b"), "/b");
    assert_eq!(join_path("", "b"), "b");
    if let Ok(d) = get_images_dir() {
        assert!(d.ends_with("/.aiva/data/images"));
    }
    if let Ok(d) = get_vm_dir("alice") {
        assert!(d.ends_with("/.aiva/data/vms/alice"));
    }
}

#[test]
fn decimal_text_and_search() {
    assert_eq!(decimal_string(0), "0");
    assert_eq!(decimal_string(18446744073709551615), "18446744073709551615");
    assert_eq!(parse_u64("18446744073709551615"), Some(u64::MAX));
    assert_eq!(parse_u64("18446744073709551616"), None);
    assert_eq!(parse_u64(""), None);
    assert_eq!(parse_u64("+"), None);
    assert!(str_contains("abc", ""));
    assert!(str_contains("xxconnection_test", "connection_test"));
    assert!(!str_contains("connection_tes", "connection_test"));
}

#[test]
fn defaults_of_network_and_storage() {
    let n = NetworkConfig::default();
    assert_eq!(n.guest_ip, "172.16.0.2");
    assert_eq!(n.gateway, "172.16.0.1");
    assert_eq!(n.dns_servers, vec!["8.8.8.8", "1.1.1.1"]);
    assert!(!n.dhcp_enabled && n.port_mappings.is_empty());
    let s = StorageConfig::default();
    assert_eq!(s.cache_strategy, CacheStrategy::Writeback);
    assert_eq!(Protocol::Tcp.as_str(), "tcp");
    assert_eq!(CacheStrategy::Unsafe.as_str(), "unsafe");
    let z = VMMetrics::zero();
    assert_eq!(z.cpu_usage_hundredths, 0);
    assert_eq!(z.memory_usage.total_mb, 0);
}

#[test]
fn templates_by_name_and_alias() {
    for n in ["python3-uv", "python3", "python"] {
        assert_eq!(VMTemplate::get_template_by_name(n).unwrap().name, "python3-uv");
    }
    for n in ["nodejs22-npx", "nodejs22", "nodejs", "node"] {
        assert_eq!(TemplateManager::get_template(n).unwrap().name, "nodejs22-npx");
    }
    assert_eq!(
        config_error(VMTemplate::get_template_by_name("ruby")),
        "Unknown template: ruby. Available templates: python3-uv, nodejs22-npx"
    );
    assert!(TemplateManager::validate_template_name("node"));
    assert!(!TemplateManager::validate_template_name("Node"));
    let all = TemplateManager::list_templates();
    assert_eq!(all.len(), 2);
    assert_eq!(all[1].mcp_support.default_port, Some(3001));
    let listed = VMTemplate::list_available_templates();
    assert_eq!(listed[0].0, "python3-uv");
    assert_eq!(listed[1].1, "Node.js 22 with npx for MCP servers");
}

#[test]
fn template_contents() {
    let py = VMTemplate::python3_uv();
    assert_eq!(py.base_config.cpus, 2);
    assert_eq!(py.base_config.memory_mb, 4096);
    assert_eq!(py.base_config.network.port_mappings[0].host_port, 3000);
    assert_eq!(py.runtime_commands[1], ("pip".to_string(), "uv pip".to_string()));
    let script = py.get_setup_script();
    assert!(script.starts_with("#!/bin/bash\nset -e\n"));
    assert!(script.ends_with("echo 'Python 3.12 with uv setup complete'"));
    assert_eq!(script.lines().count(), 14);
    let node = VMTemplate::nodejs22_npx();
    assert_eq!(node.setup_scripts.len(), 17);
    assert_eq!(node.runtime_commands[3], ("run".to_string(), "npx".to_string()));
}

#[test]
fn run_commands_per_runtime_and_transport() {
    let py = VMTemplate::python3_uv();
    assert_eq!(py.get_run_command("server.py", "sse").unwrap(), "cd /opt/mcp && uv run server.py sse --port 3000");
    assert_eq!(py.get_run_command("python server.py", "stdio").unwrap(), "cd /opt/mcp && python server.py stdio");
    assert_eq!(py.get_run_command("uv run app --port 9", "sse").unwrap(), "cd /opt/mcp && uv run app --port 9");
    assert_eq!(py.get_run_command("app sse", "sse").unwrap(), "cd /opt/mcp && uv run app sse --port 3000");
    assert_eq!(py.get_run_command("app stdio", "stdio").unwrap(), "cd /opt/mcp && uv run app stdio");
    let node = VMTemplate::nodejs22_npx();
    assert_eq!(node.get_run_command("@mcp/server", "sse").unwrap(), "cd /opt/mcp && npx @mcp/server sse --port 3001");
    assert_eq!(node.get_run_command("node index.js", "stdio").unwrap(), "cd /opt/mcp && node index.js stdio");
    assert_eq!(
        config_error(node.get_run_command("x", "http")),
        "Transport 'http' not supported by template 'nodejs22-npx'"
    );
}

#[test]
fn customizations_override_resources_and_add_ports() {
    let py = VMTemplate::python3_uv();
    let unchanged = py.generate_vm_config(None);
    assert_eq!((unchanged.cpus, unchanged.memory_mb, unchanged.disk_gb), (2, 4096, 20));
    let custom = VMConfigCustomizations {
        cpus: Some(4),
        memory_mb: None,
        disk_gb: Some(40),
        additional_ports: Some(vec![8080, 9090]),
    };
    let c = py.generate_vm_config(Some(custom));
    assert_eq!((c.cpus, c.memory_mb, c.disk_gb), (4, 4096, 40));
    assert_eq!(
        c.network.port_mappings,
        vec![
            PortMapping { host_port: 3000, guest_port: 3000, protocol: Protocol::Tcp },
            PortMapping { host_port: 8080, guest_port: 8080, protocol: Protocol::Tcp },
            PortMapping { host_port: 9090, guest_port: 9090, protocol: Protocol::Tcp },
        ]
    );
    assert_eq!(c.kernel_path, "/opt/aiva/images/vmlinux");
    assert_eq!(c.network.dns_servers, vec!["8.8.8.8", "1.1.1.1"]);
}

#[test]
fn resource_profiles_and_defaults() {
    let p = Config::resource_profiles();
    assert_eq!(p.len(), 3);
    assert_eq!(p[0].0, "minimal");
    assert_eq!((p[1].1.cpus, p[1].1.memory.as_str()), (4, "8GB"));
    assert_eq!(p[2].1.description, "Large model inference");
    let d = Config::default();
    assert_eq!(d.version, "1.0");
    assert_eq!(d.platform.macos.lima_instance, "aiva-host");
    assert_eq!(d.networking.bridge_name, "aiva-br0");
}

#[test]
fn config_values_read_and_written() {
    let mut c = VMTemplate::python3_uv().base_config;
    assert_eq!(get_config_value(&c, "cpus").unwrap().unwrap(), "2");
    assert_eq!(get_config_value(&c, "memory").unwrap().unwrap(), "4096");
    assert_eq!(get_config_value(&c, "network.dns_servers").unwrap().unwrap(), "8.8.8.8,1.1.1.1");
    assert_eq!(get_config_value(&c, "storage.cache_strategy").unwrap().unwrap(), "writeback");
    assert_eq!(get_config_value(&c, "network.dhcp_enabled").unwrap().unwrap(), "false");
    assert!(get_config_value(&c, "nope").unwrap().is_none());

    set_config_value(&mut c, "cpus", "8").unwrap();
    assert_eq!(c.cpus, 8);
    assert_eq!(config_error(set_config_value(&mut c, "cpus", "4294967296")), "Invalid CPU count");
    assert_eq!(c.cpus, 8);
    set_config_value(&mut c, "network.dns_servers", " 9.9.9.9 ,1.0.0.1").unwrap();
    assert_eq!(c.network.dns_servers, vec!["9.9.9.9", "1.0.0.1"]);
    set_config_value(&mut c, "storage.cache_strategy", "UNSAFE").unwrap();
    assert_eq!(c.storage.cache_strategy, CacheStrategy::Unsafe);
    assert_eq!(config_error(set_config_value(&mut c, "storage.cache_strategy", "none")), "Invalid cache strategy");
    set_config_value(&mut c, "network.dhcp_enabled", "true").unwrap();
    assert!(c.network.dhcp_enabled);
    assert_eq!(config_error(set_config_value(&mut c, "network.dhcp_enabled", "yes")), "Invalid boolean value");
    assert_eq!(config_error(set_config_value(&mut c, "memory", "1")), "Unknown configuration key: memory");
    set_config_value(&mut c, "kernel_path", "/k").unwrap();
    assert_eq!(c.kernel_path, "/k");
}

#[test]
fn preset_policies() {
    let p = load_preset_policies();
    let names: Vec<&str> = p.iter().map(|(n, _)| n.as_str()).collect();
    assert_eq!(names, vec!["trusted", "standard", "restricted", "isolated"]);
    assert_eq!(p[0].1.isolation_level, IsolationLevel::NoIsolation);
    assert_eq!(p[1].1.name, "default");
    assert_eq!(p[2].1.resource_limits.memory_limit, Some(4 * 1024 * 1024 * 1024));
    assert_eq!(p[3].1.capabilities.denied, vec!["ALL"]);
    assert_eq!(IsolationLevel::Maximum.as_str(), "maximum");
    assert_eq!(IsolationLevel::NoIsolation.as_str(), "none");
    let mcp = create_mcp_policy();
    assert_eq!(mcp.name, "mcp-server");
    assert_eq!(mcp.network_policy.allowed_ports.len(), 3);
    let agent = create_ai_agent_policy();
    assert_eq!(agent.resource_limits.memory_limit, Some(16 * 1024 * 1024 * 1024));
}

fn security_error(r: aiva::Result<()>) -> String {
    match r {
        Err(AivaError::SecurityError(m)) => m,
        other => panic!("expected a security error, got {:?}", other),
    }
}

#[test]
fn policy_validation() {
    let m = PolicyManager::new("/tmp/policies".to_string()).unwrap();
    assert_eq!(m.policies_dir(), "/tmp/policies");
    assert!(m.validate_policy(&create_mcp_policy()).is_ok());
    let mut p = create_mcp_policy();
    p.name.clear();
    assert_eq!(security_error(m.validate_policy(&p)), "Policy name cannot be empty");
    let mut p = create_mcp_policy();
    p.resource_limits.cpu_quota = Some(101);
    assert_eq!(security_error(m.validate_policy(&p)), "CPU quota must be between 1 and 100");
    let mut p = create_mcp_policy();
    p.resource_limits.memory_limit = Some(0);
    assert_eq!(security_error(m.validate_policy(&p)), "Memory limit must be greater than 0");
    let mut p = create_mcp_policy();
    p.capabilities.denied.push("ALL".to_string());
    assert_eq!(security_error(m.validate_policy(&p)), "Cannot allow capabilities when ALL is denied");
}

#[test]
fn policy_lookup_and_merge() {
    let mut m = PolicyManager::new("/tmp/policies".to_string()).unwrap();
    for (_, p) in load_preset_policies() {
        m.insert_policy(p).unwrap();
    }
    m.insert_policy(create_mcp_policy()).unwrap();
    assert_eq!(m.list_policies(), vec!["trusted", "default", "restricted", "isolated", "mcp-server"]);
    assert_eq!(security_error(m.get_policy("nope").map(|_| ())), "Policy nope not found");
    let merged = m.merge_policies("mcp-server", "restricted").unwrap();
    assert_eq!(merged.name, "mcp-server-restricted");
    assert_eq!(merged.isolation_level, IsolationLevel::Enhanced);
    assert_eq!(merged.capabilities.denied, vec!["CAP_SYS_ADMIN", "CAP_SYS_PTRACE", "CAP_SYS_MODULE", "CAP_NET_ADMIN"]);
    assert!(merged.capabilities.allowed.is_empty());
    assert_eq!(merged.resource_limits.cpu_quota, Some(50));
    assert_eq!(merged.resource_limits.open_files, Some(1024));
    assert!(!merged.network_policy.allow_outbound);
    assert_eq!(merged.network_policy.blocked_ips, vec!["127.0.0.1/32", "10.0.0.0/8", "192.168.0.0/16"]);
    let rate = merged.network_policy.rate_limit.unwrap();
    assert_eq!((rate.bandwidth_mbps, rate.connections_per_second), (100, 10));
    let strict = m.merge_policies("trusted", "isolated").unwrap();
    assert_eq!(strict.isolation_level, IsolationLevel::Maximum);
    assert_eq!(strict.resource_limits.cpu_quota, Some(25));
    assert_eq!(security_error(m.merge_policies("trusted", "zzz").map(|_| ())), "Policy zzz not found");
    assert_eq!(security_error(m.merge_policies("yyy", "zzz").map(|_| ())), "Policy yyy not found");
}

#[test]
fn isolation_manager_assignments() {
    let mut m = IsolationManager::new().unwrap();
    assert_eq!(m.list_policies(), vec!["trusted", "standard", "restricted", "isolated"]);
    assert_eq!(m.get_policy("standard").unwrap().name, "default");
    assert_eq!(security_error(m.assign_policy("vm-1", "nope")), "Policy nope not found");
    assert_eq!(security_error(m.get_vm_policy("vm-1").map(|_| ())), "No policy assigned to VM vm-1");
    m.assign_policy("vm-1", "restricted").unwrap();
    assert_eq!(m.get_vm_policy("vm-1").unwrap(), "restricted");
    assert_eq!(m.get_effective_policy("vm-1").unwrap().isolation_level, IsolationLevel::Enhanced);
    m.assign_policy("vm-1", "isolated").unwrap();
    assert_eq!(m.get_effective_policy("vm-1").unwrap().name, "isolated");
    m.add_policy(create_mcp_policy()).unwrap();
    assert!(m.get_policy("mcp-server").is_ok());
    let mut bad = create_mcp_policy();
    bad.resource_limits.cpu_quota = Some(0);
    assert_eq!(security_error(m.add_policy(bad)), "CPU quota must be between 1 and 100");
}

#[test]
fn isolation_steps_per_level() {
    let presets = load_preset_policies();
    assert!(isolation_steps(&presets[0].1).is_empty());
    assert_eq!(isolation_steps(&presets[1].1), vec![IsolationStep::ResourceLimits, IsolationStep::Capabilities]);
    assert_eq!(
        isolation_steps(&presets[2].1),
        vec![IsolationStep::ResourceLimits, IsolationStep::Capabilities, IsolationStep::SyscallFilter, IsolationStep::NetworkPolicy]
    );
    let mut maximum = presets[3].1.clone();
    maximum.syscall_filter = None;
    assert_eq!(
        isolation_steps(&maximum),
        vec![IsolationStep::ResourceLimits, IsolationStep::Capabilities, IsolationStep::NetworkPolicy, IsolationStep::MaximumRestrictions]
    );
}

#[test]
fn durations_and_status_rows() {
    assert_eq!(format_duration(59), "59s");
    assert_eq!(format_duration(60), "1m");
    assert_eq!(format_duration(3599), "59m");
    assert_eq!(format_duration(3600 * 5 + 60 * 7 + 3), "5h 7m");
    assert_eq!(format_duration(86400 * 2 + 3600 * 3), "2d 3h");
    let mut vm = aiva::VMInstance {
        id: 1,
        name: "alice".to_string(),
        state: aiva::VMState::Running,
        config: VMTemplate::python3_uv().base_config,
        runtime: aiva::RuntimeInfo::empty(),
        created_at: 1_000,
        updated_at: 1_000,
    };
    let row = VMStatus::of(&vm, 1_000 + 90_500);
    assert_eq!((row.state.as_str(), row.memory.as_str(), row.uptime.as_str(), row.ip.as_str()), ("Running", "4096MB", "1m", "172.16.0.2"));
    vm.state = aiva::VMState::Stopped;
    assert_eq!(VMStatus::of(&vm, 5_000_000).uptime, "-");
}

#[test]
fn isolation_level_names_and_policy_updates() {
    assert_eq!(IsolationLevel::from_name("Enhanced").unwrap(), IsolationLevel::Enhanced);
    assert_eq!(IsolationLevel::from_name("none").unwrap(), IsolationLevel::NoIsolation);
    assert_eq!(security_error(IsolationLevel::from_name("strict").map(|_| ())), "Invalid isolation level: strict");
    let mut m = PolicyManager::new("/tmp/p".to_string()).unwrap();
    assert_eq!(security_error(m.update_policy(create_mcp_policy())), "Policy mcp-server not found");
    m.insert_policy(create_mcp_policy()).unwrap();
    let mut changed = create_mcp_policy();
    changed.resource_limits.cpu_quota = Some(10);
    m.update_policy(changed).unwrap();
    assert_eq!(m.get_policy("mcp-server").unwrap().resource_limits.cpu_quota, Some(10));
    m.delete_policy("mcp-server").unwrap();
    assert!(m.list_policies().is_empty());
    assert_eq!(security_error(m.delete_policy("mcp-server")), "Policy mcp-server not found");
}

#[test]
fn log_tail_and_lines() {
    assert_eq!(aiva::logging::tail_start(10, Some(3)), 7);
    assert_eq!(aiva::logging::tail_start(2, Some(3)), 0);
    assert_eq!(aiva::logging::tail_start(5, None), 0);
    let logger = aiva::logging::VMLogger::under(Some("/home/u".to_string()), "alice".to_string());
    assert_eq!(logger.log_file, "/home/u/.aiva/logs/alice.log");
    let line = logger.entry("2026-01-02 03:04:05.678", aiva::logging::LogLevel::Warn, "disk low");
    assert_eq!(line, "2026-01-02 03:04:05.678 [WARN] [alice] disk low\n");
    let fallback = aiva::logging::VMLogger::under(None, "b".to_string());
    assert_eq!(fallback.log_file, "./.aiva/logs/b.log");
}

#[test]
fn folded_texts_and_vm_dirs() {
    assert_eq!(aiva::utils::memory_size_of_upper("4GB").unwrap(), 4096);
    assert!(aiva::utils::memory_size_of_upper("4gb").is_err());
    assert_eq!(aiva::utils::disk_size_of_upper("20GB").unwrap(), 20);
    assert_eq!(aiva::utils::vm_dir_under(Some("/home/u".to_string()), "alice").unwrap(), "/home/u/.aiva/data/vms/alice");
    assert_eq!(config_error(aiva::utils::vm_dir_under(None, "alice")), "Cannot determine home directory");
    assert_eq!(IsolationLevel::from_lower("basic", "BASIC").unwrap(), IsolationLevel::Basic);
    assert_eq!(security_error(IsolationLevel::from_lower("x", "X").map(|_| ())), "Invalid isolation level: X");
    assert_eq!(aiva::text::str_trim("\u{3000} a b\t\n"), "a b");
    assert_eq!(aiva::text::str_trim("   "), "");
    assert_eq!(aiva::config::cache_strategy_of_lower("unsafe"), Some(CacheStrategy::Unsafe));
    assert_eq!(aiva::config::cache_strategy_of_lower("UNSAFE"), None);
}

//! User settings, resource profiles, and reading and writing single keys
//! of a VM configuration.
use vstd::prelude::*;
use crate::error::{AivaError, Result};
use crate::text::{
    joined_with, str_trim, trimmed, texts, decimal, decimal_string, digits_value, parse_u64, parses_u64, pieces, split_pieces, str_eq,
    unsigned_body,
};
use crate::types::{CacheStrategy, VMConfig};

verus! {

/// User settings of the tool.
#[derive(Clone, Debug)]
pub struct Config {
    pub version: String,
    pub defaults: DefaultConfig,
    pub platform: PlatformConfig,
    pub networking: NetworkingConfig,
}

/// Resources given to a VM when the caller names none.
#[derive(Clone, Debug)]
pub struct DefaultConfig {
    pub cpus: u32,
    pub memory: String,
    pub disk: String,
    pub cache_strategy: String,
}

/// Settings of each host platform.
#[derive(Clone, Debug)]
pub struct PlatformConfig {
    pub linux: LinuxConfig,
    pub macos: MacOSConfig,
    pub windows: WindowsConfig,
}

/// Where the Linux platform finds its binaries.
#[derive(Clone, Debug)]
pub struct LinuxConfig {
    pub firecracker_binary: String,
    pub jailer_binary: String,
}

/// The Lima host of the macOS platform.
#[derive(Clone, Debug)]
pub struct MacOSConfig {
    pub lima_instance: String,
    pub lima_cpus: u32,
    pub lima_memory: String,
}

/// The WSL distribution of the Windows platform.
#[derive(Clone, Debug)]
pub struct WindowsConfig {
    pub wsl_distro: String,
    pub nested_virtualization: bool,
}

/// Host networking shared by all guests.
#[derive(Clone, Debug)]
pub struct NetworkingConfig {
    pub bridge_name: String,
    pub subnet: String,
    pub dns_servers: Vec<String>,
}

/// A named bundle of resources.
#[derive(Clone, Debug)]
pub struct ResourceProfile {
    pub cpus: u32,
    pub memory: String,
    pub disk: String,
    pub description: String,
}

/// A profile with these values.
pub open spec fn is_profile(p: ResourceProfile, cpus: u32, memory: Seq<char>, disk: Seq<char>, description: Seq<char>) -> bool {
    p.cpus == cpus && p.memory@ == memory && p.disk@ == disk && p.description@ == description
}

fn profile(cpus: u32, memory: &str, disk: &str, description: &str) -> (r: ResourceProfile)
    ensures
        is_profile(r, cpus, memory@, disk@, description@),
{
    ResourceProfile {
        cpus,
        memory: String::from_str(memory),
        disk: String::from_str(disk),
        description: String::from_str(description),
    }
}

impl Config {
    /// The built-in resource profiles, by name: minimal, standard and
    /// performance.
    pub fn resource_profiles() -> (r: Vec<(String, ResourceProfile)>)
        ensures
            r@.len() == 3,
            r@[0].0@ == "minimal"@,
            is_profile(r@[0].1, 2, "4GB"@, "20GB"@, "Lightweight MCP server"@),
            r@[1].0@ == "standard"@,
            is_profile(r@[1].1, 4, "8GB"@, "50GB"@, "Standard AI agent"@),
            r@[2].0@ == "performance"@,
            is_profile(r@[2].1, 8, "16GB"@, "100GB"@, "Large model inference"@),
    {
        let mut v: Vec<(String, ResourceProfile)> = Vec::new();
        v.push((String::from_str("minimal"), profile(2, "4GB", "20GB", "Lightweight MCP server")));
        v.push((String::from_str("standard"), profile(4, "8GB", "50GB", "Standard AI agent")));
        v.push((String::from_str("performance"), profile(8, "16GB", "100GB", "Large model inference")));
        v
    }
}

impl Default for Config {
    fn default() -> (r: Config)
        ensures
            r.version@ == "1.0"@,
            r.defaults.cpus == 4,
            r.defaults.memory@ == "8GB"@,
            r.defaults.disk@ == "50GB"@,
            r.defaults.cache_strategy@ == "writeback"@,
            r.platform.linux.firecracker_binary@ == "/usr/bin/firecracker"@,
            r.platform.linux.jailer_binary@ == "/usr/bin/jailer"@,
            r.platform.macos.lima_instance@ == "aiva-host"@,
            r.platform.macos.lima_cpus == 8,
            r.platform.macos.lima_memory@ == "16GB"@,
            r.platform.windows.wsl_distro@ == "aiva-wsl"@,
            r.platform.windows.nested_virtualization,
            r.networking.bridge_name@ == "aiva-br0"@,
            r.networking.subnet@ == "172.16.0.0/24"@,
            texts(r.networking.dns_servers@) == seq!["8.8.8.8"@, "1.1.1.1"@],
    {
        let dns = crate::types::default_dns_servers();
        proof {
            assert(texts(dns@) =~= seq!["8.8.8.8"@, "1.1.1.1"@]);
        }
        Config {
            version: String::from_str("1.0"),
            defaults: DefaultConfig {
                cpus: 4,
                memory: String::from_str("8GB"),
                disk: String::from_str("50GB"),
                cache_strategy: String::from_str("writeback"),
            },
            platform: PlatformConfig {
                linux: LinuxConfig {
                    firecracker_binary: String::from_str("/usr/bin/firecracker"),
                    jailer_binary: String::from_str("/usr/bin/jailer"),
                },
                macos: MacOSConfig {
                    lima_instance: String::from_str("aiva-host"),
                    lima_cpus: 8,
                    lima_memory: String::from_str("16GB"),
                },
                windows: WindowsConfig {
                    wsl_distro: String::from_str("aiva-wsl"),
                    nested_virtualization: true,
                },
            },
            networking: NetworkingConfig {
                bridge_name: String::from_str("aiva-br0"),
                subnet: String::from_str("172.16.0.0/24"),
                dns_servers: dns,
            },
        }
    }
}

/// The lower-case form of a text, as `str::to_lowercase` gives it.
pub uninterp spec fn lower_of(s: Seq<char>) -> Seq<char>;

/// Relies on str::to_lowercase: the Unicode lower-case mapping, which
/// depends on the characters alone.
#[verifier::external_body]
pub(crate) fn to_lower(s: &str) -> (r: String)
    ensures
        r@ == lower_of(s@),
{
    s.to_lowercase()
}

fn join_strings(items: &Vec<String>, sep: &str) -> (r: String)
    ensures
        r@ == joined_with(texts(items@), sep@),
{
    let mut out = String::new();
    let mut i: usize = 0;
    while i < items.len()
        invariant
            i <= items@.len(),
            out@ == joined_with(texts(items@.subrange(0, i as int)), sep@),
        decreases items@.len() - i,
    {
        proof {
            assert(texts(items@.subrange(0, i + 1)).drop_last() =~= texts(items@.subrange(0, i as int)));
        }
        if i > 0 {
            out.append(sep);
        }
        out.append(items[i].as_str());
        i += 1;
    }
    proof {
        assert(items@.subrange(0, items@.len() as int) =~= items@);
    }
    out
}

/// The value shown for a key of a VM configuration, where the key is one.
pub open spec fn config_value(c: VMConfig, key: Seq<char>) -> Option<Seq<char>> {
    if key == "cpus"@ {
        Some(decimal(c.cpus as nat))
    } else if key == "memory"@ || key == "memory_mb"@ {
        Some(decimal(c.memory_mb as nat))
    } else if key == "disk"@ || key == "disk_gb"@ {
        Some(decimal(c.disk_gb as nat))
    } else if key == "kernel_path"@ {
        Some(c.kernel_path@)
    } else if key == "rootfs_path"@ {
        Some(c.rootfs_path@)
    } else if key == "network.guest_ip"@ {
        Some(c.network.guest_ip@)
    } else if key == "network.host_ip"@ {
        Some(c.network.host_ip@)
    } else if key == "network.subnet"@ {
        Some(c.network.subnet@)
    } else if key == "network.gateway"@ {
        Some(c.network.gateway@)
    } else if key == "network.dns_servers"@ {
        Some(joined_with(texts(c.network.dns_servers@), ","@))
    } else if key == "network.dhcp_enabled"@ {
        Some(if c.network.dhcp_enabled { "true"@ } else { "false"@ })
    } else if key == "storage.cache_strategy"@ {
        Some(match c.storage.cache_strategy {
            CacheStrategy::Writeback => "writeback"@,
            CacheStrategy::Unsafe => "unsafe"@,
        })
    } else {
        None
    }
}

/// The value of a key of a VM configuration as text; `None` for a key
/// that names no setting.
pub fn get_config_value(config: &VMConfig, key: &str) -> (r: Result<Option<String>>)
    ensures
        r matches Ok(v) && match v {
            Some(s) => config_value(*config, key@) == Some(s@),
            None => config_value(*config, key@) is None,
        },
{
    proof {
        reveal_strlit("cpus");
        reveal_strlit("memory");
        reveal_strlit("memory_mb");
        reveal_strlit("disk");
        reveal_strlit("disk_gb");
        reveal_strlit("kernel_path");
        reveal_strlit("rootfs_path");
        reveal_strlit("network.guest_ip");
        reveal_strlit("network.host_ip");
        reveal_strlit("network.subnet");
        reveal_strlit("network.gateway");
        reveal_strlit("network.dns_servers");
        reveal_strlit("network.dhcp_enabled");
        reveal_strlit("storage.cache_strategy");
        reveal_strlit(",");
        reveal_strlit("true");
        reveal_strlit("false");
    }
    let v = if str_eq(key, "cpus") {
        Some(decimal_string(config.cpus as u64))
    } else if str_eq(key, "memory") || str_eq(key, "memory_mb") {
        Some(decimal_string(config.memory_mb))
    } else if str_eq(key, "disk") || str_eq(key, "disk_gb") {
        Some(decimal_string(config.disk_gb))
    } else if str_eq(key, "kernel_path") {
        Some(config.kernel_path.clone())
    } else if str_eq(key, "rootfs_path") {
        Some(config.rootfs_path.clone())
    } else if str_eq(key, "network.guest_ip") {
        Some(config.network.guest_ip.clone())
    } else if str_eq(key, "network.host_ip") {
        Some(config.network.host_ip.clone())
    } else if str_eq(key, "network.subnet") {
        Some(config.network.subnet.clone())
    } else if str_eq(key, "network.gateway") {
        Some(config.network.gateway.clone())
    } else if str_eq(key, "network.dns_servers") {
        Some(join_strings(&config.network.dns_servers, ","))
    } else if str_eq(key, "network.dhcp_enabled") {
        Some(String::from_str(if config.network.dhcp_enabled { "true" } else { "false" }))
    } else if str_eq(key, "storage.cache_strategy") {
        Some(String::from_str(config.storage.cache_strategy.as_str()))
    } else {
        None
    };
    Ok(v)
}

/// The cache strategy a lower-case name denotes.
pub open spec fn strategy_of_lower(lower: Seq<char>) -> Option<CacheStrategy> {
    if lower == "writeback"@ {
        Some(CacheStrategy::Writeback)
    } else if lower == "unsafe"@ {
        Some(CacheStrategy::Unsafe)
    } else {
        None
    }
}

/// The cache strategy a lower-case name denotes: "writeback" or "unsafe".
pub fn cache_strategy_of_lower(lower: &str) -> (r: Option<CacheStrategy>)
    ensures
        r == strategy_of_lower(lower@),
{
    proof {
        reveal_strlit("writeback");
        reveal_strlit("unsafe");
    }
    if str_eq(lower, "writeback") {
        Some(CacheStrategy::Writeback)
    } else if str_eq(lower, "unsafe") {
        Some(CacheStrategy::Unsafe)
    } else {
        None
    }
}

/// A `u32` text, as `u32::from_str` reads it.
pub open spec fn u32_value(s: Seq<char>) -> Option<u32> {
    if parses_u64(s) && digits_value(unsigned_body(s)) <= u32::MAX {
        Some(digits_value(unsigned_body(s)) as u32)
    } else {
        None
    }
}

/// A `u64` text, as `u64::from_str` reads it.
pub open spec fn u64_value(s: Seq<char>) -> Option<u64> {
    if parses_u64(s) {
        Some(digits_value(unsigned_body(s)) as u64)
    } else {
        None
    }
}

/// A `bool` text, as `bool::from_str` reads it.
pub open spec fn bool_value(s: Seq<char>) -> Option<bool> {
    if s == "true"@ {
        Some(true)
    } else if s == "false"@ {
        Some(false)
    } else {
        None
    }
}

/// The keys that `set_config_value` accepts.
pub open spec fn settable_key(key: Seq<char>) -> bool {
    key == "cpus"@ || key == "memory_mb"@ || key == "disk_gb"@ || key == "kernel_path"@
        || key == "rootfs_path"@ || key == "network.guest_ip"@ || key == "network.host_ip"@
        || key == "network.subnet"@ || key == "network.gateway"@ || key == "network.dns_servers"@
        || key == "network.dhcp_enabled"@ || key == "storage.cache_strategy"@
}

/// The value of `key` after a successful `set_config_value` with `value`.
pub open spec fn set_value_ok(c: VMConfig, key: Seq<char>, value: Seq<char>) -> bool {
    if key == "cpus"@ {
        u32_value(value) == Some(c.cpus)
    } else if key == "memory_mb"@ {
        u64_value(value) == Some(c.memory_mb)
    } else if key == "disk_gb"@ {
        u64_value(value) == Some(c.disk_gb)
    } else if key == "kernel_path"@ {
        c.kernel_path@ == value
    } else if key == "rootfs_path"@ {
        c.rootfs_path@ == value
    } else if key == "network.guest_ip"@ {
        c.network.guest_ip@ == value
    } else if key == "network.host_ip"@ {
        c.network.host_ip@ == value
    } else if key == "network.subnet"@ {
        c.network.subnet@ == value
    } else if key == "network.gateway"@ {
        c.network.gateway@ == value
    } else if key == "network.dns_servers"@ {
        texts(c.network.dns_servers@) == pieces(value, false, ',').map_values(|p: Seq<char>| trimmed(p))
    } else if key == "network.dhcp_enabled"@ {
        bool_value(value) == Some(c.network.dhcp_enabled)
    } else {
        (lower_of(value) == "writeback"@ && c.storage.cache_strategy == CacheStrategy::Writeback)
            || (lower_of(value) == "unsafe"@ && c.storage.cache_strategy == CacheStrategy::Unsafe)
    }
}

/// Whether `value` is acceptable for `key`.
pub open spec fn value_parses(key: Seq<char>, value: Seq<char>) -> bool {
    if key == "cpus"@ {
        u32_value(value) is Some
    } else if key == "memory_mb"@ || key == "disk_gb"@ {
        u64_value(value) is Some
    } else if key == "network.dhcp_enabled"@ {
        bool_value(value) is Some
    } else if key == "storage.cache_strategy"@ {
        lower_of(value) == "writeback"@ || lower_of(value) == "unsafe"@
    } else {
        true
    }
}

/// Sets one key of a VM configuration from text. Numbers and booleans are
/// read as Rust reads them, the DNS list is split at commas and each entry
/// trimmed, and the cache strategy is matched in any case. A value that
/// does not parse, or an unknown key, is a configuration error that
/// leaves the configuration as it was.
pub fn set_config_value(config: &mut VMConfig, key: &str, value: &str) -> (r: Result<()>)
    ensures
        r is Ok <==> settable_key(key@) && value_parses(key@, value@),
        r is Ok ==> set_value_ok(*final(config), key@, value@),
        r is Err ==> *final(config) == *old(config),
        r matches Err(e) ==> e is ConfigError,
{
    proof {
        reveal_strlit("cpus");
        reveal_strlit("memory_mb");
        reveal_strlit("disk_gb");
        reveal_strlit("kernel_path");
        reveal_strlit("rootfs_path");
        reveal_strlit("network.guest_ip");
        reveal_strlit("network.host_ip");
        reveal_strlit("network.subnet");
        reveal_strlit("network.gateway");
        reveal_strlit("network.dns_servers");
        reveal_strlit("network.dhcp_enabled");
        reveal_strlit("storage.cache_strategy");
        reveal_strlit("true");
        reveal_strlit("false");
        reveal_strlit("writeback");
        reveal_strlit("unsafe");
        reveal_strlit("Invalid CPU count");
        reveal_strlit("Invalid memory size");
        reveal_strlit("Invalid disk size");
        reveal_strlit("Invalid boolean value");
        reveal_strlit("Invalid cache strategy");
        reveal_strlit("Unknown configuration key: ");
        assert("kernel_path"@[0] != "rootfs_path"@[0]);
        assert("network.host_ip"@[8] != "network.gateway"@[8]);
        assert("network.guest_ip"@.len() != "cpus"@.len());
        assert("network.guest_ip"@.len() != "memory_mb"@.len());
        assert("network.guest_ip"@.len() != "disk_gb"@.len());
        assert("network.guest_ip"@.len() != "network.dhcp_enabled"@.len());
        assert("network.guest_ip"@.len() != "storage.cache_strategy"@.len());
        assert("network.subnet"@.len() != "cpus"@.len());
        assert("network.subnet"@.len() != "memory_mb"@.len());
        assert("network.subnet"@.len() != "disk_gb"@.len());
        assert("network.subnet"@.len() != "network.dhcp_enabled"@.len());
        assert("network.subnet"@.len() != "storage.cache_strategy"@.len());
    }
    if str_eq(key, "cpus") {
        match parse_u64(value) {
            Some(v) => {
                if v <= 4294967295 {
                    config.cpus = v as u32;
                    return Ok(());
                }
            },
            None => {},
        }
        return Err(AivaError::ConfigError(String::from_str("Invalid CPU count")));
    } else if str_eq(key, "memory_mb") {
        match parse_u64(value) {
            Some(v) => {
                config.memory_mb = v;
                return Ok(());
            },
            None => {},
        }
        return Err(AivaError::ConfigError(String::from_str("Invalid memory size")));
    } else if str_eq(key, "disk_gb") {
        match parse_u64(value) {
            Some(v) => {
                config.disk_gb = v;
                return Ok(());
            },
            None => {},
        }
        return Err(AivaError::ConfigError(String::from_str("Invalid disk size")));
    } else if str_eq(key, "kernel_path") {
        config.kernel_path = String::from_str(value);
    } else if str_eq(key, "rootfs_path") {
        config.rootfs_path = String::from_str(value);
    } else if str_eq(key, "network.guest_ip") {
        config.network.guest_ip = String::from_str(value);
    } else if str_eq(key, "network.host_ip") {
        config.network.host_ip = String::from_str(value);
    } else if str_eq(key, "network.subnet") {
        config.network.subnet = String::from_str(value);
    } else if str_eq(key, "network.gateway") {
        config.network.gateway = String::from_str(value);
    } else if str_eq(key, "network.dns_servers") {
        let parts = split_pieces(value, false, ',');
        let mut servers: Vec<String> = Vec::new();
        let mut i: usize = 0;
        while i < parts.len()
            invariant
                i <= parts@.len(),
                texts(servers@) == texts(parts@.subrange(0, i as int)).map_values(|p: Seq<char>| trimmed(p)),
            decreases parts@.len() - i,
        {
            let ghost before = servers@;
            servers.push(str_trim(parts[i].as_str()));
            proof {
                assert(texts(servers@) =~= texts(before).push(trimmed(parts@[i as int]@)));
                assert(texts(parts@.subrange(0, i + 1)) =~= texts(parts@.subrange(0, i as int)).push(parts@[i as int]@));
                assert(texts(servers@) =~= texts(parts@.subrange(0, i + 1)).map_values(|p: Seq<char>| trimmed(p)));
            }
            i += 1;
        }
        proof {
            assert(parts@.subrange(0, parts@.len() as int) =~= parts@);
        }
        config.network.dns_servers = servers;
    } else if str_eq(key, "network.dhcp_enabled") {
        if str_eq(value, "true") {
            config.network.dhcp_enabled = true;
        } else if str_eq(value, "false") {
            config.network.dhcp_enabled = false;
        } else {
            return Err(AivaError::ConfigError(String::from_str("Invalid boolean value")));
        }
    } else if str_eq(key, "storage.cache_strategy") {
        match cache_strategy_of_lower(to_lower(value).as_str()) {
            Some(c) => {
                config.storage.cache_strategy = c;
            },
            None => {
                return Err(AivaError::ConfigError(String::from_str("Invalid cache strategy")));
            },
        }
    } else {
        return Err(
            AivaError::ConfigError(String::from_str("Unknown configuration key: ").concat(key)),
        );
    }
    Ok(())
}

} // verus!

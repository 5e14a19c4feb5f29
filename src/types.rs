//! The data model: VM instances, their configuration and runtime
//! records, and metrics.
use vstd::prelude::*;

verus! {

/// Lifecycle state of a VM instance.
#[derive(Clone, Copy, Debug, PartialEq, Eq, Structural)]
pub enum VMState {
    Creating,
    Running,
    Paused,
    Stopping,
    Stopped,
    Error,
}

/// A state from which the VM is stuck when its last update is too old.
pub open spec fn is_transitional(s: VMState) -> bool {
    s == VMState::Creating || s == VMState::Stopping
}

impl VMState {
    /// Whether the state is `Creating` or `Stopping`.
    pub fn is_transitional(&self) -> (r: bool)
        ensures
            r == is_transitional(*self),
    {
        match self {
            VMState::Creating | VMState::Stopping => true,
            _ => false,
        }
    }
}


/// Transport protocol of a port mapping.
#[derive(Clone, Copy, Debug, PartialEq, Eq, Structural)]
pub enum Protocol {
    Tcp,
    Udp,
}

impl Protocol {
    /// Lower-case name of the protocol.
    pub fn as_str(&self) -> (r: &'static str)
        ensures
            r@ == (match *self {
                Protocol::Tcp => "tcp"@,
                Protocol::Udp => "udp"@,
            }),
    {
        match self {
            Protocol::Tcp => {
                proof { reveal_strlit("tcp"); }
                "tcp"
            }
            Protocol::Udp => {
                proof { reveal_strlit("udp"); }
                "udp"
            }
        }
    }
}

/// A forwarded port from the host to the guest.
#[derive(Clone, Copy, Debug, PartialEq, Eq, Structural)]
pub struct PortMapping {
    pub host_port: u16,
    pub guest_port: u16,
    pub protocol: Protocol,
}

/// Cache mode of the root drive.
#[derive(Clone, Copy, Debug, PartialEq, Eq, Structural)]
pub enum CacheStrategy {
    Writeback,
    Unsafe,
}

impl CacheStrategy {
    /// Lower-case name of the strategy.
    pub fn as_str(&self) -> (r: &'static str)
        ensures
            r@ == (match *self {
                CacheStrategy::Writeback => "writeback"@,
                CacheStrategy::Unsafe => "unsafe"@,
            }),
    {
        match self {
            CacheStrategy::Writeback => {
                proof { reveal_strlit("writeback"); }
                "writeback"
            }
            CacheStrategy::Unsafe => {
                proof { reveal_strlit("unsafe"); }
                "unsafe"
            }
        }
    }
}

/// An additional block device attached to the guest.
#[derive(Clone, Debug)]
pub struct BlockDevice {
    pub path: String,
    pub size_mb: u64,
    pub read_only: bool,
}

/// Guest networking: addresses, DNS and forwarded ports.
#[derive(Clone, Debug)]
pub struct NetworkConfig {
    pub guest_ip: String,
    pub host_ip: String,
    pub subnet: String,
    pub gateway: String,
    pub dns_servers: Vec<String>,
    pub dhcp_enabled: bool,
    pub port_mappings: Vec<PortMapping>,
}

/// Drive caching and extra block devices.
#[derive(Clone, Debug)]
pub struct StorageConfig {
    pub cache_strategy: CacheStrategy,
    pub additional_drives: Vec<BlockDevice>,
}

/// Desired resources and devices of a VM.
#[derive(Clone, Debug)]
pub struct VMConfig {
    pub cpus: u32,
    pub memory_mb: u64,
    pub disk_gb: u64,
    pub kernel_path: String,
    pub rootfs_path: String,
    pub network: NetworkConfig,
    pub storage: StorageConfig,
}

/// What exists of a VM while it is materialized by a platform.
#[derive(Clone, Debug)]
pub struct RuntimeInfo {
    pub pid: Option<u32>,
    pub api_socket: Option<String>,
    pub vsock_cid: Option<u32>,
    pub tap_device: Option<String>,
}

/// The runtime record of a VM that has not been materialized.
pub open spec fn empty_runtime(r: RuntimeInfo) -> bool {
    r.pid.is_none() && r.api_socket.is_none() && r.vsock_cid.is_none() && r.tap_device.is_none()
}

impl RuntimeInfo {
    /// A record with nothing materialized.
    pub fn empty() -> (r: RuntimeInfo)
        ensures
            empty_runtime(r),
    {
        RuntimeInfo { pid: None, api_socket: None, vsock_cid: None, tap_device: None }
    }
}

/// A VM in the registry. The id is the 128-bit value of a UUID; the
/// timestamps are milliseconds since the Unix epoch.
#[derive(Clone, Debug)]
pub struct VMInstance {
    pub id: u128,
    pub name: String,
    pub state: VMState,
    pub config: VMConfig,
    pub runtime: RuntimeInfo,
    pub created_at: i64,
    pub updated_at: i64,
}

/// Host-side addressing of a guest's network interface.
#[derive(Clone, Debug)]
pub struct NetworkInfo {
    pub tap_device: String,
    pub guest_ip: String,
    pub host_ip: String,
}

/// Memory usage of a guest, in MiB.
#[derive(Clone, Copy, Debug, PartialEq, Eq, Structural)]
pub struct MemoryMetrics {
    pub total_mb: u64,
    pub used_mb: u64,
    pub available_mb: u64,
    pub cache_mb: u64,
}

/// Block I/O counters of a guest.
#[derive(Clone, Copy, Debug, PartialEq, Eq, Structural)]
pub struct DiskIOMetrics {
    pub read_bytes: u64,
    pub write_bytes: u64,
    pub read_ops: u64,
    pub write_ops: u64,
}

/// Network I/O counters of a guest.
#[derive(Clone, Copy, Debug, PartialEq, Eq, Structural)]
pub struct NetworkIOMetrics {
    pub rx_bytes: u64,
    pub tx_bytes: u64,
    pub rx_packets: u64,
    pub tx_packets: u64,
}

/// A telemetry sample of a guest. CPU usage is in hundredths of a
/// percent; uptime is in whole seconds.
#[derive(Clone, Copy, Debug, PartialEq, Eq, Structural)]
pub struct VMMetrics {
    pub cpu_usage_hundredths: u64,
    pub memory_usage: MemoryMetrics,
    pub disk_io: DiskIOMetrics,
    pub network_io: NetworkIOMetrics,
    pub uptime_secs: u64,
}

/// The sample reported when no telemetry can be had.
pub open spec fn is_zero_metrics(m: VMMetrics) -> bool {
    m == VMMetrics {
        cpu_usage_hundredths: 0,
        memory_usage: MemoryMetrics { total_mb: 0, used_mb: 0, available_mb: 0, cache_mb: 0 },
        disk_io: DiskIOMetrics { read_bytes: 0, write_bytes: 0, read_ops: 0, write_ops: 0 },
        network_io: NetworkIOMetrics { rx_bytes: 0, tx_bytes: 0, rx_packets: 0, tx_packets: 0 },
        uptime_secs: 0,
    }
}

impl VMMetrics {
    /// The all-zero best-effort sample.
    pub fn zero() -> (r: VMMetrics)
        ensures
            is_zero_metrics(r),
    {
        VMMetrics {
            cpu_usage_hundredths: 0,
            memory_usage: MemoryMetrics { total_mb: 0, used_mb: 0, available_mb: 0, cache_mb: 0 },
            disk_io: DiskIOMetrics { read_bytes: 0, write_bytes: 0, read_ops: 0, write_ops: 0 },
            network_io: NetworkIOMetrics { rx_bytes: 0, tx_bytes: 0, rx_packets: 0, tx_packets: 0 },
            uptime_secs: 0,
        }
    }
}

/// Protocol used to move data into a guest over the network.
#[derive(Clone, Copy, Debug, PartialEq, Eq, Structural)]
pub enum TransferProtocol {
    Ssh,
    Http,
    VSock,
}

/// File system of a temporary volume.
#[derive(Clone, Copy, Debug, PartialEq, Eq, Structural)]
pub enum FileSystem {
    Ext4,
    Xfs,
    Btrfs,
}

/// How data reaches a guest.
#[derive(Clone, Debug)]
pub enum DataTransferMethod {
    NetworkTransfer { protocol: TransferProtocol },
    BlockDeviceMount { image_path: String, mount_point: String },
    TemporaryVolume { size_mb: u64, format: FileSystem },
}

/// The default guest network: 172.16.0.2 behind 172.16.0.1, public DNS,
/// no DHCP and no forwarded ports.
pub open spec fn is_default_network(n: NetworkConfig) -> bool {
    &&& n.guest_ip@ == "172.16.0.2"@
    &&& n.host_ip@ == "172.16.0.1"@
    &&& n.subnet@ == "172.16.0.0/24"@
    &&& n.gateway@ == "172.16.0.1"@
    &&& n.dns_servers@.len() == 2
    &&& n.dns_servers@[0]@ == "8.8.8.8"@
    &&& n.dns_servers@[1]@ == "1.1.1.1"@
    &&& !n.dhcp_enabled
    &&& n.port_mappings@.len() == 0
}

/// The public DNS resolvers used by default.
pub fn default_dns_servers() -> (r: Vec<String>)
    ensures
        r@.len() == 2,
        r@[0]@ == "8.8.8.8"@,
        r@[1]@ == "1.1.1.1"@,
{
    let mut v: Vec<String> = Vec::new();
    v.push(String::from_str("8.8.8.8"));
    v.push(String::from_str("1.1.1.1"));
    v
}

impl Default for NetworkConfig {
    fn default() -> (r: NetworkConfig)
        ensures
            is_default_network(r),
    {
        NetworkConfig {
            guest_ip: String::from_str("172.16.0.2"),
            host_ip: String::from_str("172.16.0.1"),
            subnet: String::from_str("172.16.0.0/24"),
            gateway: String::from_str("172.16.0.1"),
            dns_servers: default_dns_servers(),
            dhcp_enabled: false,
            port_mappings: Vec::new(),
        }
    }
}

impl Default for StorageConfig {
    fn default() -> (r: StorageConfig)
        ensures
            r.cache_strategy == CacheStrategy::Writeback,
            r.additional_drives@.len() == 0,
    {
        StorageConfig { cache_strategy: CacheStrategy::Writeback, additional_drives: Vec::new() }
    }
}

} // verus!

//! Plain data of the monitoring collaborator and its default collector.
use vstd::prelude::*;
use crate::types::{DiskIOMetrics, MemoryMetrics, NetworkIOMetrics, VMMetrics};

verus! {

/// Host network counters.
#[derive(Clone, Copy, Debug, PartialEq, Eq, Structural)]
pub struct NetworkStats {
    pub rx_bytes: u64,
    pub tx_bytes: u64,
    pub rx_packets: u64,
    pub tx_packets: u64,
    pub errors: u64,
    pub drops: u64,
}

/// Severity of a monitoring log entry.
#[derive(Clone, Copy, Debug, PartialEq, Eq, Structural)]
pub enum LogLevel {
    Error,
    Warn,
    Info,
    Debug,
    Trace,
}

/// What an alert is about.
#[derive(Clone, Copy, Debug, PartialEq, Eq, Structural)]
pub enum AlertType {
    ResourceExhaustion,
    HighCpuUsage,
    HighMemoryUsage,
    DiskSpaceLow,
    NetworkConnectivity,
    VMCrash,
    SecurityViolation,
    PerformanceDegradation,
}

impl AlertType {
    /// The display name of the alert type.
    pub fn label(&self) -> (r: &'static str)
        ensures
            r@ == (match *self {
                AlertType::ResourceExhaustion => "Resource Exhaustion"@,
                AlertType::HighCpuUsage => "High CPU Usage"@,
                AlertType::HighMemoryUsage => "High Memory Usage"@,
                AlertType::DiskSpaceLow => "Disk Space Low"@,
                AlertType::NetworkConnectivity => "Network Connectivity"@,
                AlertType::VMCrash => "VM Crash"@,
                AlertType::SecurityViolation => "Security Violation"@,
                AlertType::PerformanceDegradation => "Performance Degradation"@,
            }),
    {
        match self {
            AlertType::ResourceExhaustion => {
                proof { reveal_strlit("Resource Exhaustion"); }
                "Resource Exhaustion"
            }
            AlertType::HighCpuUsage => {
                proof { reveal_strlit("High CPU Usage"); }
                "High CPU Usage"
            }
            AlertType::HighMemoryUsage => {
                proof { reveal_strlit("High Memory Usage"); }
                "High Memory Usage"
            }
            AlertType::DiskSpaceLow => {
                proof { reveal_strlit("Disk Space Low"); }
                "Disk Space Low"
            }
            AlertType::NetworkConnectivity => {
                proof { reveal_strlit("Network Connectivity"); }
                "Network Connectivity"
            }
            AlertType::VMCrash => {
                proof { reveal_strlit("VM Crash"); }
                "VM Crash"
            }
            AlertType::SecurityViolation => {
                proof { reveal_strlit("Security Violation"); }
                "Security Violation"
            }
            AlertType::PerformanceDegradation => {
                proof { reveal_strlit("Performance Degradation"); }
                "Performance Degradation"
            }
        }
    }
}

/// How urgent an alert is.
#[derive(Clone, Copy, Debug, PartialEq, Eq, Structural)]
pub enum AlertSeverity {
    Critical,
    High,
    Medium,
    Low,
}

/// The collector used when no backend telemetry is wired in.
pub struct DefaultMetricsCollector;

impl DefaultMetricsCollector {
    /// A best-effort sample: idle, 8192 MiB all available, no I/O.
    pub fn collect_metrics(&self, vm_id: &str) -> (r: VMMetrics)
        ensures
            r == (VMMetrics {
                cpu_usage_hundredths: 0,
                memory_usage: MemoryMetrics { total_mb: 8192, used_mb: 0, available_mb: 8192, cache_mb: 0 },
                disk_io: DiskIOMetrics { read_bytes: 0, write_bytes: 0, read_ops: 0, write_ops: 0 },
                network_io: NetworkIOMetrics { rx_bytes: 0, tx_bytes: 0, rx_packets: 0, tx_packets: 0 },
                uptime_secs: 0,
            }),
    {
        VMMetrics {
            cpu_usage_hundredths: 0,
            memory_usage: MemoryMetrics { total_mb: 8192, used_mb: 0, available_mb: 8192, cache_mb: 0 },
            disk_io: DiskIOMetrics { read_bytes: 0, write_bytes: 0, read_ops: 0, write_ops: 0 },
            network_io: NetworkIOMetrics { rx_bytes: 0, tx_bytes: 0, rx_packets: 0, tx_packets: 0 },
            uptime_secs: 0,
        }
    }

    /// Idle host network counters.
    pub fn network_stats(&self) -> (r: NetworkStats)
        ensures
            r == (NetworkStats { rx_bytes: 0, tx_bytes: 0, rx_packets: 0, tx_packets: 0, errors: 0, drops: 0 }),
    {
        NetworkStats { rx_bytes: 0, tx_bytes: 0, rx_packets: 0, tx_packets: 0, errors: 0, drops: 0 }
    }
}

} // verus!

//! Lifecycle orchestration of microVMs that host AI-agent and MCP-server
//! workloads.
//!
//! The verified core: the VM registry and its state machine (`vm`), the
//! per-VM command pool and connection strategies (`command_pool`,
//! `executor`), platform selection and the host-side plans of each
//! platform (`platform`, `network`, `telemetry`). Around it: templates,
//! configuration, resource parsing, security policies and the plain data
//! types the front end and collaborators exchange.
pub mod command_pool;
pub mod commands;
pub mod config;
pub mod error;
pub mod executor;
pub mod ids;
pub mod logging;
pub mod monitoring;
pub mod network;
pub mod platform;
pub mod security;
pub mod status;
pub mod storage;
pub mod telemetry;
pub mod templates;
pub mod text;
pub mod types;
pub mod utils;
pub mod vm;

pub use command_pool::CommandPool;
pub use error::{AivaError, ResourceType, Result};
pub use executor::{ConnectionType, VsockExecutor, VSOCK_COMMAND_PORT};
pub use platform::{
    detect_platform, FirecrackerVMConfig, LinuxPlatform, MacOSPlatform, PlatformKind,
    WindowsPlatform,
};
pub use types::{
    BlockDevice, CacheStrategy, DataTransferMethod, DiskIOMetrics, FileSystem, MemoryMetrics,
    NetworkConfig, NetworkIOMetrics, NetworkInfo, PortMapping, Protocol, RuntimeInfo,
    StorageConfig, TransferProtocol, VMConfig, VMInstance, VMMetrics, VMState,
};
pub use vm::{Operation, StopOutcome, VMOrchestrator};

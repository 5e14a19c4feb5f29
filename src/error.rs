//! The error taxonomy of the library.
use vstd::prelude::*;
use crate::types::VMState;

verus! {

/// A kind of host resource that can run out.
#[derive(Clone, Copy, Debug, PartialEq, Eq, Structural)]
pub enum ResourceType {
    Cpu,
    Memory,
    Disk,
    Network,
}

impl ResourceType {
    /// Display name of the resource.
    pub fn as_str(&self) -> (r: &'static str)
        ensures
            r@ == (match *self {
                ResourceType::Cpu => "CPU"@,
                ResourceType::Memory => "Memory"@,
                ResourceType::Disk => "Disk"@,
                ResourceType::Network => "Network"@,
            }),
    {
        match self {
            ResourceType::Cpu => {
                proof { reveal_strlit("CPU"); }
                "CPU"
            }
            ResourceType::Memory => {
                proof { reveal_strlit("Memory"); }
                "Memory"
            }
            ResourceType::Disk => {
                proof { reveal_strlit("Disk"); }
                "Disk"
            }
            ResourceType::Network => {
                proof { reveal_strlit("Network"); }
                "Network"
            }
        }
    }
}

/// Every failure the library reports, by kind.
#[derive(Clone, Debug)]
pub enum AivaError {
    PlatformError { platform: String, message: String, recoverable: bool },
    ResourceError { resource_type: ResourceType, message: String },
    NetworkError { operation: String, cause: String },
    VMError { vm_name: String, state: VMState, message: String },
    ConfigError(String),
    IoError(String),
    SerializationError(String),
    SecurityError(String),
    StorageError(String),
    InvalidStateTransition(String),
    NotImplemented(String),
    Other(String),
}

/// Results of the library.
pub type Result<T> = core::result::Result<T, AivaError>;

} // verus!

//! Plain data of the storage collaborator.
use vstd::prelude::*;

verus! {

/// On-disk layout of a volume.
#[derive(Clone, Copy, Debug, PartialEq, Eq, Structural)]
pub enum VolumeFormat {
    Raw,
    Qcow2,
    Ext4,
}

/// What a new volume should be.
#[derive(Clone, Debug)]
pub struct VolumeConfig {
    pub name: String,
    pub size_mb: u64,
    pub format: VolumeFormat,
    pub sparse: bool,
}

/// A volume as attached to a guest.
#[derive(Clone, Debug)]
pub struct BlockDeviceInfo {
    pub path: String,
    pub device: String,
    pub read_only: bool,
}

/// On-disk format of a base image.
#[derive(Clone, Copy, Debug, PartialEq, Eq, Structural)]
pub enum ImageFormat {
    Raw,
    Qcow2,
    Vmdk,
    Vhd,
}

/// Where a base image comes from.
#[derive(Clone, Debug)]
pub enum ImageSource {
    Url(String),
    Local(String),
    Registry { repo: String, tag: String },
}

} // verus!

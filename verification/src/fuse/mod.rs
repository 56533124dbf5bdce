//! The virtual file system that serves scenery packs and generates missing
//! DDS textures on demand.

pub mod windows;

pub use windows::dds::DdsFilename;
pub use windows::{
    MountError, MountHandle, MountResult, OrthoUnionFS, PassthroughFS, SpawnedMountHandle,
};

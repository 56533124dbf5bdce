//! Rules of the Windows virtual file system, which Dokan drives.

pub mod dds;
pub mod error;
pub mod info;
pub mod mount;
pub mod ortho_union;
pub mod passthrough;
pub mod wide;

pub use error::{MountError, MountResult};
pub use mount::{MountHandle, SpawnedMountHandle};
pub use ortho_union::OrthoUnionFS;
pub use passthrough::{FileContext, PassthroughFS};

//! The consolidated mount of several scenery packs, which cannot be mounted
//! yet.

use crate::fuse::windows::error::{MountError, MountResult};
use crate::fuse::windows::mount::{MountHandle, SpawnedMountHandle};
use vstd::prelude::*;
use vstd::string::StringExecFns;

verus! {

/// A file system over several scenery packs. `I` is the index of their files,
/// `C` the client of the texture generator, `G` the geographic index, and `D`
/// and `E` are the senders that are told of texture reads and of accesses.
pub struct OrthoUnionFS<I, C, G, D, E> {
    pub index: I,
    pub dds_client: C,
    pub expected_dds_size: usize,
    pub geo_index: Option<G>,
    pub dds_access_tx: Option<D>,
    pub scene_tracker_tx: Option<E>,
    pub fuse_max_background: Option<u16>,
    pub fuse_congestion_threshold: Option<u16>,
}

/// What is said of an attempt to mount.
pub open spec fn not_implemented_text() -> Seq<char> {
    "Dokan OrthoUnionFS (consolidated multi-package mount) is not implemented yet — only the single-directory PassthroughFS is wired up so far."@
}

/// The answer to an attempt to mount.
fn not_implemented() -> (r: MountError)
    ensures
        r matches MountError::MountFailed(text) && text@ == not_implemented_text(),
{
    MountError::MountFailed(
        String::from_str(
            "Dokan OrthoUnionFS (consolidated multi-package mount) is not implemented yet — only the single-directory PassthroughFS is wired up so far.",
        ),
    )
}

impl<I, C, G, D, E> OrthoUnionFS<I, C, G, D, E> {
    /// A file system over the packs of `index`, without any of the options.
    pub fn new(index: I, dds_client: C, expected_dds_size: usize) -> (r: Self)
        ensures
            r == (OrthoUnionFS::<I, C, G, D, E> {
                index,
                dds_client,
                expected_dds_size,
                geo_index: None,
                dds_access_tx: None,
                scene_tracker_tx: None,
                fuse_max_background: None,
                fuse_congestion_threshold: None,
            }),
    {
        OrthoUnionFS {
            index,
            dds_client,
            expected_dds_size,
            geo_index: None,
            dds_access_tx: None,
            scene_tracker_tx: None,
            fuse_max_background: None,
            fuse_congestion_threshold: None,
        }
    }

    /// Uses a geographic index.
    pub fn with_geo_index(self, geo_index: G) -> (r: Self)
        ensures
            r == (OrthoUnionFS { geo_index: Some(geo_index), ..self }),
    {
        OrthoUnionFS { geo_index: Some(geo_index), ..self }
    }

    /// Tells `tx` of texture reads.
    pub fn with_dds_access_channel(self, tx: D) -> (r: Self)
        ensures
            r == (OrthoUnionFS { dds_access_tx: Some(tx), ..self }),
    {
        OrthoUnionFS { dds_access_tx: Some(tx), ..self }
    }

    /// Tells `tx` of accesses.
    pub fn with_scene_tracker_channel(self, tx: E) -> (r: Self)
        ensures
            r == (OrthoUnionFS { scene_tracker_tx: Some(tx), ..self }),
    {
        OrthoUnionFS { scene_tracker_tx: Some(tx), ..self }
    }

    /// Accepts a metrics client, of which no use is made.
    pub fn with_metrics<M>(self, _metrics: M) -> (r: Self)
        ensures
            r == self,
    {
        self
    }

    /// Sets the limits of the driver's request queue.
    pub fn with_fuse_limits(self, max_background: u16, congestion_threshold: u16) -> (r: Self)
        ensures
            r == (OrthoUnionFS {
                fuse_max_background: Some(max_background),
                fuse_congestion_threshold: Some(congestion_threshold),
                ..self
            }),
    {
        OrthoUnionFS {
            fuse_max_background: Some(max_background),
            fuse_congestion_threshold: Some(congestion_threshold),
            ..self
        }
    }

    /// Refuses to mount.
    pub fn mount<S, J>(self, _mountpoint: &str) -> (r: MountResult<MountHandle<S, J>>)
        ensures
            r matches Err(MountError::MountFailed(text)) && text@ == not_implemented_text() && text@
                == "Dokan OrthoUnionFS (consolidated multi-package mount) is not implemented yet — only the single-directory PassthroughFS is wired up so far."@,
    {
        Err(not_implemented())
    }

    /// Refuses to mount.
    pub fn mount_spawned<S, J>(self, _mountpoint: &str) -> (r: MountResult<
        SpawnedMountHandle<S, J>,
    >)
        ensures
            r matches Err(MountError::MountFailed(text)) && text@ == not_implemented_text() && text@
                == "Dokan OrthoUnionFS (consolidated multi-package mount) is not implemented yet — only the single-directory PassthroughFS is wired up so far."@,
    {
        Err(not_implemented())
    }
}

} // verus!

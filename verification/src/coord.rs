//! Tile coordinates.

use vstd::prelude::*;

verus! {

/// A Web Mercator tile.
#[derive(Clone, Copy, Debug, PartialEq, Eq)]
pub struct TileCoord {
    pub row: u32,
    pub col: u32,
    pub zoom: u8,
}

} // verus!

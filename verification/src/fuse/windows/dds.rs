//! DDS textures that are generated on demand.

use crate::coord::TileCoord;
use vstd::prelude::*;

verus! {

/// The chunk coordinates in the name of a DDS texture.
#[derive(Clone, Copy, Debug, PartialEq, Eq)]
pub struct DdsFilename {
    pub row: u32,
    pub col: u32,
    pub zoom: u8,
}

/// The tile that holds a chunk: a tile is 16 by 16 chunks, four zoom levels
/// up, and no zoom level is below zero.
pub open spec fn tile_of_chunk(coords: DdsFilename) -> TileCoord {
    TileCoord {
        row: coords.row / 16,
        col: coords.col / 16,
        zoom: if coords.zoom >= 4 {
            (coords.zoom - 4) as u8
        } else {
            0
        },
    }
}

/// The tile that holds the chunk in a texture's name.
pub fn chunk_to_tile_coords(coords: &DdsFilename) -> (r: TileCoord)
    ensures
        r == tile_of_chunk(*coords),
{
    TileCoord {
        row: coords.row / 16,
        col: coords.col / 16,
        zoom: coords.zoom.saturating_sub(4),
    }
}

/// What came of a request for a texture.
pub enum DdsReply {
    /// The generator answered with this data.
    Response(Vec<u8>),
    /// The generator went away without an answer.
    Dropped,
    /// No answer came in time.
    TimedOut,
}

/// What is served for a texture.
pub enum DdsPayload {
    /// The generator's data.
    Generated(Vec<u8>),
    /// The placeholder texture; the request is to be cancelled.
    CancelAndPlaceholder,
}

/// Settles a request for a texture: an answer is served, and without one the
/// request is cancelled and the placeholder is served.
pub fn settle_reply(reply: DdsReply) -> (r: DdsPayload)
    ensures
        r == (match reply {
            DdsReply::Response(data) => DdsPayload::Generated(data),
            DdsReply::Dropped => DdsPayload::CancelAndPlaceholder,
            DdsReply::TimedOut => DdsPayload::CancelAndPlaceholder,
        }),
{
    match reply {
        DdsReply::Response(data) => DdsPayload::Generated(data),
        DdsReply::Dropped => DdsPayload::CancelAndPlaceholder,
        DdsReply::TimedOut => DdsPayload::CancelAndPlaceholder,
    }
}

/// The number of bytes of `data` that a read of `len` bytes at `offset` gives.
/// An offset is taken as an unsigned position, so that a negative one lies
/// beyond the end.
pub open spec fn served_len(data: Seq<u8>, offset: i64, len: nat) -> nat {
    let start = offset as usize;
    if start >= data.len() {
        0
    } else if start + len <= data.len() {
        len
    } else {
        (data.len() - start) as nat
    }
}

/// The bytes that a read of `len` bytes at `offset` gives.
pub open spec fn served(data: Seq<u8>, offset: i64, len: nat) -> Seq<u8> {
    let start = offset as usize;
    let n = served_len(data, offset, len);
    if n == 0 {
        Seq::empty()
    } else {
        data.subrange(start as int, start + n)
    }
}

/// Copies the part of `data` that begins at `offset` into `buffer`, as far as
/// both reach, and returns how many bytes that was. The rest of `buffer` stays
/// as it was.
pub fn read_virtual_file(data: &[u8], offset: i64, buffer: &mut [u8]) -> (r: u32)
    ensures
        r == served_len(data@, offset, old(buffer)@.len()) as u32,
        final(buffer)@ == served(data@, offset, old(buffer)@.len()) + old(buffer)@.skip(
            served_len(data@, offset, old(buffer)@.len()) as int,
        ),
{
    let start: usize = offset as usize;
    let len: usize = buffer.len();
    if start >= data.len() {
        assert(buffer@ == Seq::<u8>::empty() + buffer@.skip(0));
        return 0;
    }
    let left: usize = data.len() - start;
    let n: usize = if len <= left {
        len
    } else {
        left
    };
    let mut i: usize = 0;
    while i < n
        invariant
            i <= n <= len,
            len == buffer@.len() == old(buffer)@.len(),
            start + n <= data@.len() <= usize::MAX,
            forall|j: int| 0 <= j < i ==> buffer@[j] == data@[start + j],
            forall|j: int| i <= j < len ==> buffer@[j] == old(buffer)@[j],
        decreases n - i,
    {
        buffer[i] = data[start + i];
        i = i + 1;
    }
    assert(buffer@ == served(data@, offset, len as nat) + old(buffer)@.skip(n as int));
    n as u32
}

/// A tile holds a chunk exactly where the chunk's row and column lie in the
/// tile's block of sixteen: each chunk has one tile, and the 256 chunks of a
/// block share it.
pub proof fn law_tile_is_block_of_chunks(coords: DdsFilename, row: u32, col: u32)
    ensures
        tile_of_chunk(coords).row == row <==> 16 * row <= coords.row < 16 * row + 16,
        tile_of_chunk(coords).col == col <==> 16 * col <= coords.col < 16 * col + 16,
        tile_of_chunk(coords).zoom <= coords.zoom,
        coords.zoom >= 4 ==> tile_of_chunk(coords).zoom + 4 == coords.zoom,
        coords.zoom < 4 ==> tile_of_chunk(coords).zoom == 0,
{
}

/// A read of everything gives the whole texture.
pub proof fn law_whole_read(data: Seq<u8>, len: nat)
    requires
        data.len() <= len,
    ensures
        served(data, 0, len) == data,
{
}

/// Two reads, the second where the first ended, give what one read of both
/// lengths gives.
pub proof fn law_reads_join(data: Seq<u8>, offset: i64, first: nat, second: nat)
    requires
        0 <= offset,
        offset + first <= i64::MAX,
        offset + first <= usize::MAX,
    ensures
        served(data, offset, first) + served(data, (offset + first) as i64, second) == served(
            data,
            offset,
            first + second,
        ),
{
    assert(offset as usize == offset);
    assert(((offset + first) as i64) as usize == offset + first);
}

/// A negative offset, or one beyond the end, reads nothing.
pub proof fn law_nothing_beyond_the_end(data: Seq<u8>, offset: i64, len: nat)
    requires
        data.len() <= isize::MAX,
        offset < 0 && usize::BITS == 64 || 0 <= offset <= usize::MAX && data.len() <= offset,
    ensures
        served(data, offset, len) == Seq::<u8>::empty(),
{
    if offset < 0 {
        assert(offset < 0 ==> (offset as u64) >= 0x8000_0000_0000_0000) by (bit_vector);
    }
}

/// A read gives the bytes that stand in the texture from the offset on, as many
/// as are asked for or are left.
pub proof fn law_read_gives_the_bytes_at_the_offset(
    data: Seq<u8>,
    offset: i64,
    len: nat,
    i: int,
)
    requires
        0 <= offset <= usize::MAX,
        data.len() <= usize::MAX,
        0 <= i < len,
        offset + i < data.len(),
    ensures
        served(data, offset, len).len() == served_len(data, offset, len),
        served(data, offset, len).len() == if offset + len <= data.len() {
            len as int
        } else {
            data.len() - offset
        },
        served(data, offset, len)[i] == data[offset + i],
{
    assert(offset as usize == offset);
}

} // verus!

//! The passthrough file system: what is on disk under a scenery pack passes
//! through, and DDS textures that are missing there are made on demand.

use crate::coord::TileCoord;
use crate::fuse::windows::dds;
use crate::fuse::windows::dds::DdsFilename;
use crate::fuse::windows::error::Status;
use crate::fuse::windows::info;
use crate::fuse::windows::info::{ClockReadings, EntryMetadata, FileInfo};
use crate::text;
use std::path::PathBuf;
use vstd::prelude::*;

verus! {

/// A span of time.
#[derive(Clone, Copy, Debug, PartialEq, Eq)]
pub struct Timeout {
    /// Whole seconds.
    pub secs: u64,
    /// Nanoseconds beyond them.
    pub nanos: u32,
}

/// What an open handle stands for.
#[derive(Debug)]
pub enum FileContext {
    Directory,
    RealFile(PathBuf),
    VirtualDds(DdsFilename),
}

/// What the driver is told when it opens a file or directory.
#[derive(Debug)]
pub struct CreateFileInfo {
    pub context: FileContext,
    pub is_dir: bool,
    pub new_file_created: bool,
}

/// How a read is to be carried out.
#[derive(Debug)]
pub enum ReadPlan<'a> {
    /// Read the file at `path` from `position` on.
    FromDisk { path: &'a PathBuf, position: u64 },
    /// Have the texture made, and read from it.
    FromGenerator { coords: DdsFilename },
}

/// What is asked of the texture generator.
pub struct DdsRequest<'a, C, K> {
    /// Where the request goes.
    pub client: &'a C,
    /// The tile to make, which `callback` is told of as well.
    pub tile: TileCoord,
    /// Who is told of the tile before the request is made.
    pub callback: Option<&'a K>,
    /// How long an answer is waited for.
    pub timeout: Timeout,
}

/// The name of a DDS texture.
pub open spec fn is_dds_file_name(name: Seq<char>) -> bool {
    ".dds"@.is_suffix_of(name)
}

/// What an open of `full_path` gives. What is on disk passes through; a
/// texture that is not there, and whose name gives its coordinates, is made on
/// demand; there is nothing else.
pub open spec fn opened(
    full_path: PathBuf,
    metadata: Option<EntryMetadata>,
    name: Seq<char>,
    parsed: Option<DdsFilename>,
) -> Result<CreateFileInfo, Status> {
    match metadata {
        Some(metadata) => Ok(
            CreateFileInfo {
                context: if metadata.is_dir {
                    FileContext::Directory
                } else {
                    FileContext::RealFile(full_path)
                },
                is_dir: metadata.is_dir,
                new_file_created: false,
            },
        ),
        None => match parsed {
            Some(coords) if is_dds_file_name(name) => Ok(
                CreateFileInfo {
                    context: FileContext::VirtualDds(coords),
                    is_dir: false,
                    new_file_created: false,
                },
            ),
            _ => Err(Status::ObjectNameNotFound),
        },
    }
}

/// What the driver is told of an open handle. A texture that is made on demand
/// has the size that textures are expected to have, and one time; everything
/// else is what the metadata says.
pub open spec fn information_of(
    context: FileContext,
    metadata: Option<EntryMetadata>,
    expected_dds_size: u64,
    now: ClockReadings,
) -> Result<FileInfo, Status> {
    match context {
        FileContext::VirtualDds(_) => Ok(
            info::virtual_file_info_of(expected_dds_size, now.creation),
        ),
        _ => match metadata {
            Some(metadata) => Ok(info::file_info_of(metadata, now)),
            None => Err(Status::ObjectNameNotFound),
        },
    }
}

/// How a read at `offset` is to be carried out.
pub open spec fn planned<'a>(context: &'a FileContext, offset: i64) -> Result<
    ReadPlan<'a>,
    Status,
> {
    match context {
        FileContext::Directory => Err(Status::AccessDenied),
        FileContext::RealFile(path) => Ok(ReadPlan::FromDisk { path, position: offset as u64 }),
        FileContext::VirtualDds(coords) => Ok(ReadPlan::FromGenerator { coords: *coords }),
    }
}

/// Whether `name` is that of a DDS texture.
pub fn is_dds_name(name: &str) -> (r: bool)
    ensures
        r == is_dds_file_name(name@),
{
    let chars = text::chars_of(name);
    text::strip_suffix(chars.as_slice(), ".dds").is_some()
}

/// A file system that overlays one scenery pack directory. `C` is the client
/// of the texture generator, `K` a callback that is told of each tile asked
/// for.
pub struct PassthroughFS<C, K> {
    pub source_dir: PathBuf,
    pub dds_client: C,
    pub expected_dds_size: u64,
    pub timeout: Timeout,
    pub tile_request_callback: Option<K>,
}

impl<C, K> PassthroughFS<C, K> {
    /// A file system over `source_dir`. Textures are reported to have
    /// `expected_dds_size` bytes, and are waited for up to 30 seconds.
    pub fn new(source_dir: PathBuf, dds_client: C, expected_dds_size: usize) -> (r: Self)
        ensures
            r.source_dir == source_dir,
            r.dds_client == dds_client,
            r.expected_dds_size == expected_dds_size,
            r.timeout == (Timeout { secs: 30, nanos: 0 }),
            r.tile_request_callback is None,
    {
        PassthroughFS {
            source_dir,
            dds_client,
            expected_dds_size: expected_dds_size as u64,
            timeout: Timeout { secs: 30, nanos: 0 },
            tile_request_callback: None,
        }
    }

    /// Waits for textures up to `timeout`.
    pub fn with_timeout(self, timeout: Timeout) -> (r: Self)
        ensures
            r == (PassthroughFS { timeout, ..self }),
    {
        PassthroughFS { timeout, ..self }
    }

    /// Tells `callback` of each tile that is asked for.
    pub fn with_tile_request_callback(self, callback: K) -> (r: Self)
        ensures
            r == (PassthroughFS { tile_request_callback: Some(callback), ..self }),
    {
        PassthroughFS { tile_request_callback: Some(callback), ..self }
    }

    /// Opens a file or directory.
    ///
    /// `full_path` is the path in the scenery pack, and `metadata` what is
    /// there. `name` is the last component of the path, empty where it has
    /// none, and `parsed` are the coordinates that it gives as the name of a
    /// texture; both matter only where nothing is on disk.
    pub fn create_file(
        &self,
        full_path: PathBuf,
        metadata: Option<EntryMetadata>,
        name: &str,
        parsed: Option<DdsFilename>,
    ) -> (r: Result<CreateFileInfo, Status>)
        ensures
            r == opened(full_path, metadata, name@, parsed),
    {
        if let Some(metadata) = metadata {
            let is_dir = metadata.is_dir;
            return Ok(
                CreateFileInfo {
                    context: if is_dir {
                        FileContext::Directory
                    } else {
                        FileContext::RealFile(full_path)
                    },
                    is_dir,
                    new_file_created: false,
                },
            );
        }
        if is_dds_name(name) {
            if let Some(coords) = parsed {
                return Ok(
                    CreateFileInfo {
                        context: FileContext::VirtualDds(coords),
                        is_dir: false,
                        new_file_created: false,
                    },
                );
            }
        }
        Err(Status::ObjectNameNotFound)
    }

    /// The path whose metadata tells of an open handle: the file itself, and
    /// for a directory the root of the scenery pack. A texture that is made on
    /// demand has none.
    pub fn information_path<'a>(&'a self, context: &'a FileContext) -> (r: Option<&'a PathBuf>)
        ensures
            match *context {
                FileContext::Directory => r == Some(&self.source_dir),
                FileContext::RealFile(path) => r == Some(&path),
                FileContext::VirtualDds(_) => r is None,
            },
    {
        match context {
            FileContext::Directory => Some(&self.source_dir),
            FileContext::RealFile(path) => Some(path),
            FileContext::VirtualDds(_) => None,
        }
    }

    /// What the driver is told of an open handle, given the metadata at its
    /// [`Self::information_path`] and the readings of the clock for times that
    /// are not recorded; `None` stands for metadata that could not be read. A
    /// texture that is made on demand takes its one reading from the first.
    pub fn get_file_information_at(
        &self,
        context: &FileContext,
        metadata: Option<EntryMetadata>,
        now: &ClockReadings,
    ) -> (r: Result<FileInfo, Status>)
        ensures
            r == information_of(*context, metadata, self.expected_dds_size, *now),
    {
        match context {
            FileContext::VirtualDds(_) => Ok(
                info::virtual_dds_file_info_at(self.expected_dds_size, now.creation),
            ),
            _ => match metadata {
                Some(metadata) => Ok(info::metadata_to_file_info_at(&metadata, now)),
                None => Err(Status::ObjectNameNotFound),
            },
        }
    }

    /// What the driver is told of an open handle, given the metadata at its
    /// [`Self::information_path`]; `None` stands for metadata that could not
    /// be read.
    pub fn get_file_information(
        &self,
        context: &FileContext,
        metadata: Option<EntryMetadata>,
    ) -> (r: Result<FileInfo, Status>)
        ensures
            exists|now: ClockReadings|
                info::are_readings(now) && r == #[trigger] information_of(
                    *context,
                    metadata,
                    self.expected_dds_size,
                    now,
                ),
    {
        let now = info::read_clock();
        self.get_file_information_at(context, metadata, &now)
    }

    /// How a read at `offset` is to be carried out. A directory cannot be
    /// read.
    pub fn read_file<'a>(&self, context: &'a FileContext, offset: i64) -> (r: Result<
        ReadPlan<'a>,
        Status,
    >)
        ensures
            r == planned(context, offset),
    {
        match context {
            FileContext::Directory => Err(Status::AccessDenied),
            FileContext::RealFile(path) => Ok(
                ReadPlan::FromDisk { path, position: offset as u64 },
            ),
            FileContext::VirtualDds(coords) => Ok(ReadPlan::FromGenerator { coords: *coords }),
        }
    }

    /// The answer to a read from disk that gave `read` bytes; `None` stands
    /// for a file that could not be opened or read.
    pub fn disk_read_result(&self, read: Option<usize>) -> (r: Result<u32, Status>)
        ensures
            r == (match read {
                Some(n) => Ok::<u32, Status>(n as u32),
                None => Err(Status::ObjectNameNotFound),
            }),
    {
        match read {
            Some(n) => Ok(n as u32),
            None => Err(Status::ObjectNameNotFound),
        }
    }

    /// What is asked of the texture generator for the texture with `coords` in
    /// its name.
    pub fn dds_request<'a>(&'a self, coords: &DdsFilename) -> (r: DdsRequest<'a, C, K>)
        ensures
            *r.client == self.dds_client,
            r.tile == dds::tile_of_chunk(*coords),
            match self.tile_request_callback {
                Some(callback) => r.callback == Some(&callback),
                None => r.callback is None,
            },
            r.timeout == self.timeout,
    {
        DdsRequest {
            client: &self.dds_client,
            tile: dds::chunk_to_tile_coords(coords),
            callback: self.tile_request_callback.as_ref(),
            timeout: self.timeout,
        }
    }
}

/// What is on disk always wins: neither the name nor the coordinates in it
/// matter, and no texture is made.
pub proof fn law_disk_wins(
    full_path: PathBuf,
    metadata: EntryMetadata,
    name: Seq<char>,
    parsed: Option<DdsFilename>,
    other_name: Seq<char>,
    other_parsed: Option<DdsFilename>,
)
    ensures
        opened(full_path, Some(metadata), name, parsed) == opened(
            full_path,
            Some(metadata),
            other_name,
            other_parsed,
        ),
        opened(full_path, Some(metadata), name, parsed) is Ok,
        !(opened(full_path, Some(metadata), name, parsed)->Ok_0.context is VirtualDds),
{
}

/// A texture is made on demand exactly where nothing is on disk, the name is
/// that of a texture, and coordinates can be read from it.
pub proof fn law_missing_textures_are_made(
    full_path: PathBuf,
    metadata: Option<EntryMetadata>,
    name: Seq<char>,
    parsed: Option<DdsFilename>,
    coords: DdsFilename,
)
    ensures
        (opened(full_path, metadata, name, parsed) matches Ok(info) && info.context
            == FileContext::VirtualDds(coords)) <==> metadata is None && is_dds_file_name(name)
            && parsed == Some(coords),
{
}

/// A handle reads what was opened: a file on disk from its own path, and a
/// texture that is made on demand by the coordinates in its name. Only a
/// directory cannot be read.
pub proof fn law_handle_reads_what_was_opened(
    full_path: PathBuf,
    metadata: Option<EntryMetadata>,
    name: Seq<char>,
    parsed: Option<DdsFilename>,
    offset: i64,
)
    requires
        opened(full_path, metadata, name, parsed) is Ok,
    ensures
        match metadata {
            Some(metadata) => planned(
                &opened(full_path, Some(metadata), name, parsed)->Ok_0.context,
                offset,
            ) == if metadata.is_dir {
                Err::<ReadPlan, Status>(Status::AccessDenied)
            } else {
                Ok(ReadPlan::FromDisk { path: &full_path, position: offset as u64 })
            },
            None => planned(
                &opened(full_path, None, name, parsed)->Ok_0.context,
                offset,
            ) == Ok::<ReadPlan, Status>(ReadPlan::FromGenerator { coords: parsed->0 }),
        },
{
}

/// Opening never creates anything, and the directory flag tells what the
/// handle stands for.
pub proof fn law_open_changes_nothing(
    full_path: PathBuf,
    metadata: Option<EntryMetadata>,
    name: Seq<char>,
    parsed: Option<DdsFilename>,
)
    ensures
        opened(full_path, metadata, name, parsed) matches Ok(info) ==> {
            &&& !info.new_file_created
            &&& info.is_dir <==> info.context is Directory
            &&& info.context is VirtualDds ==> metadata is None && is_dds_file_name(name)
        },
        opened(full_path, metadata, name, parsed) matches Err(status) ==> metadata is None
            && status == Status::ObjectNameNotFound,
{
}

/// Where nothing is on disk, a name that ends in `.dds` and gives coordinates
/// opens the texture with these coordinates, whatever stands before the
/// ending.
pub proof fn law_dds_names_open_textures(full_path: PathBuf, stem: Seq<char>, coords: DdsFilename)
    ensures
        opened(full_path, None, stem + ".dds"@, Some(coords)) == Ok::<CreateFileInfo, Status>(
            (CreateFileInfo {
                context: FileContext::VirtualDds(coords),
                is_dir: false,
                new_file_created: false,
            }),
        ),
{
    let name = stem + ".dds"@;
    assert(name.subrange(name.len() - ".dds"@.len(), name.len() as int) == ".dds"@);
}

/// Where nothing is on disk, a name that does not end in `.dds`, or gives no
/// coordinates, opens nothing.
pub proof fn law_other_names_open_nothing(
    full_path: PathBuf,
    name: Seq<char>,
    parsed: Option<DdsFilename>,
)
    requires
        parsed is None || forall|stem: Seq<char>| name != #[trigger] (stem + ".dds"@),
    ensures
        opened(full_path, None, name, parsed) == Err::<CreateFileInfo, Status>(
            Status::ObjectNameNotFound,
        ),
{
    if is_dds_file_name(name) {
        let at = name.len() - ".dds"@.len();
        assert(name == name.take(at) + ".dds"@);
    }
}

/// A directory on disk opens as a directory, and anything else on disk as the
/// file at its path.
pub proof fn law_disk_entries_open_as_they_are(
    full_path: PathBuf,
    metadata: EntryMetadata,
    name: Seq<char>,
    parsed: Option<DdsFilename>,
)
    ensures
        opened(full_path, Some(metadata), name, parsed) matches Ok(info) && {
            &&& !info.new_file_created
            &&& info.is_dir == metadata.is_dir
            &&& metadata.is_dir ==> info.context == FileContext::Directory
            &&& !metadata.is_dir ==> info.context == FileContext::RealFile(full_path)
        },
{
}

/// A file is read from its own path, from the position that the offset gives;
/// a texture by its coordinates; a directory not at all.
pub proof fn law_reads_are_planned_by_context(path: PathBuf, coords: DdsFilename, offset: i64)
    ensures
        planned(&FileContext::RealFile(path), offset) matches Ok(
            ReadPlan::FromDisk { path: p, position },
        ) && *p == path && (offset >= 0 ==> position as int == offset as int) && (offset < 0
            ==> position as int == offset + 0x1_0000_0000_0000_0000),
        planned(&FileContext::VirtualDds(coords), offset) == Ok::<ReadPlan, Status>(
            ReadPlan::FromGenerator { coords },
        ),
        planned(&FileContext::Directory, offset) == Err::<ReadPlan, Status>(Status::AccessDenied),
{
    assert(offset < 0 ==> (offset as u64) == offset + 0x1_0000_0000_0000_0000) by (bit_vector);
}

/// The driver is told the whole size of a file on disk, and the size that
/// textures are expected to have of one that is made on demand. A file on disk
/// without metadata is not there.
pub proof fn law_handles_tell_their_size(
    path: PathBuf,
    coords: DdsFilename,
    metadata: EntryMetadata,
    other: Option<EntryMetadata>,
    expected: u64,
    now: ClockReadings,
)
    ensures
        information_of(FileContext::RealFile(path), Some(metadata), expected, now) matches Ok(info)
            && info.file_size as int == metadata.len as int && (!metadata.is_dir
            ==> info.attributes == 0x81) && info == info::file_info_of(metadata, now),
        information_of(FileContext::Directory, Some(metadata), expected, now) matches Ok(info)
            && info.file_size as int == metadata.len as int && (metadata.is_dir ==> info.attributes
            == 0x10) && info == info::file_info_of(metadata, now),
        information_of(FileContext::VirtualDds(coords), other, expected, now) matches Ok(info)
            && info.file_size as int == expected as int && info.attributes == 0x81 && info
            == info::virtual_file_info_of(expected, now.creation),
        information_of(FileContext::RealFile(path), None, expected, now) == Err::<FileInfo, Status>(
            Status::ObjectNameNotFound,
        ),
        information_of(FileContext::Directory, None, expected, now) == Err::<FileInfo, Status>(
            Status::ObjectNameNotFound,
        ),
{
}

} // verus!

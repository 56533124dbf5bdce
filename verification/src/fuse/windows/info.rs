//! What the driver is told of files, directories and the volume.

use crate::fuse::windows::error::Status;
use crate::fuse::windows::wide;
use std::time::SystemTime;
use vstd::prelude::*;

verus! {

/// Windows file attributes.
pub const FILE_ATTRIBUTE_READONLY: u32 = 0x1;

pub const FILE_ATTRIBUTE_DIRECTORY: u32 = 0x10;

pub const FILE_ATTRIBUTE_NORMAL: u32 = 0x80;

/// What the file system knows of a file or directory.
#[derive(Clone, Copy, Debug)]
pub struct EntryMetadata {
    pub is_dir: bool,
    /// Size in bytes.
    pub len: u64,
    /// When it was created, where that is recorded.
    pub created: Option<SystemTime>,
    /// When it was last read, where that is recorded.
    pub accessed: Option<SystemTime>,
    /// When it was last written, where that is recorded.
    pub modified: Option<SystemTime>,
}

/// An entry of a directory.
pub struct DirEntry {
    /// What is known of it, where it could be read.
    pub metadata: Option<EntryMetadata>,
    /// Its name, in UTF-16.
    pub file_name: Vec<u16>,
}

/// What the driver is told of an open file or directory.
#[derive(Clone, Copy, Debug)]
pub struct FileInfo {
    pub attributes: u32,
    pub creation_time: SystemTime,
    pub last_access_time: SystemTime,
    pub last_write_time: SystemTime,
    pub file_size: u64,
    pub number_of_links: u32,
    pub file_index: u64,
}

/// What the driver is told of an entry of a directory.
pub struct FindData {
    pub attributes: u32,
    pub creation_time: SystemTime,
    pub last_access_time: SystemTime,
    pub last_write_time: SystemTime,
    pub file_size: u64,
    /// In UTF-16, without a nul.
    pub file_name: Vec<u16>,
}

/// Sizes of the file system that holds the scenery pack.
#[derive(Clone, Copy, Debug)]
pub struct FsInfo {
    pub total_bytes: u64,
    pub available_bytes: u64,
}

/// What the driver is told of the free space on the volume.
#[derive(Clone, Copy, Debug, PartialEq, Eq)]
pub struct DiskSpaceInfo {
    pub byte_count: u64,
    pub free_byte_count: u64,
    pub available_byte_count: u64,
}

/// What the driver is told of the volume.
pub struct VolumeInfo {
    /// In UTF-16, without a nul.
    pub name: Vec<u16>,
    pub serial_number: u32,
    pub max_component_length: u32,
    pub fs_flags: u32,
    /// In UTF-16, without a nul.
    pub fs_name: Vec<u16>,
}

/// Readings of the clock, one for each time that may not be recorded.
#[derive(Clone, Copy, Debug, PartialEq, Eq)]
pub struct ClockReadings {
    pub creation: SystemTime,
    pub last_access: SystemTime,
    pub last_write: SystemTime,
}

/// Readings that the clock may give.
pub open spec fn are_readings(now: ClockReadings) -> bool {
    &&& call_ensures(SystemTime::now, (), now.creation)
    &&& call_ensures(SystemTime::now, (), now.last_access)
    &&& call_ensures(SystemTime::now, (), now.last_write)
}

/// Directories are marked as such; everything else is an ordinary file that
/// can only be read.
pub open spec fn attributes_of(is_dir: bool) -> u32 {
    if is_dir {
        0x10
    } else {
        0x81
    }
}

/// The recorded time, or `now` where none is recorded.
pub open spec fn time_or(recorded: Option<SystemTime>, now: SystemTime) -> SystemTime {
    match recorded {
        Some(time) => time,
        None => now,
    }
}

/// What the driver is told of a file or directory on disk, with a reading of
/// the clock for each time that is not recorded.
pub open spec fn file_info_of(metadata: EntryMetadata, now: ClockReadings) -> FileInfo {
    FileInfo {
        attributes: attributes_of(metadata.is_dir),
        creation_time: time_or(metadata.created, now.creation),
        last_access_time: time_or(metadata.accessed, now.last_access),
        last_write_time: time_or(metadata.modified, now.last_write),
        file_size: metadata.len,
        number_of_links: 1,
        file_index: 0,
    }
}

/// What the driver is told of a texture of `size` bytes that is made on demand,
/// as of one reading of the clock.
pub open spec fn virtual_file_info_of(size: u64, now: SystemTime) -> FileInfo {
    FileInfo {
        attributes: attributes_of(false),
        creation_time: now,
        last_access_time: now,
        last_write_time: now,
        file_size: size,
        number_of_links: 1,
        file_index: 0,
    }
}

/// An entry that a listing shows: it could be read, and its name has no nul.
pub open spec fn is_listed(entry: DirEntry) -> bool {
    entry.metadata is Some && !entry.file_name@.contains(0)
}

/// The entries that a listing shows, in the order of the directory.
pub open spec fn listed(entries: Seq<DirEntry>) -> Seq<DirEntry>
    decreases entries.len(),
{
    if entries.len() == 0 {
        Seq::empty()
    } else if is_listed(entries.last()) {
        listed(entries.drop_last()).push(entries.last())
    } else {
        listed(entries.drop_last())
    }
}

/// The entries that a listing shows, each with its readings of the clock.
pub open spec fn listed_with(entries: Seq<DirEntry>, clocks: Seq<ClockReadings>) -> Seq<
    (DirEntry, ClockReadings),
>
    decreases entries.len(),
{
    if entries.len() == 0 {
        Seq::empty()
    } else {
        let before = listed_with(entries.drop_last(), clocks.drop_last());
        if is_listed(entries.last()) {
            before.push((entries.last(), clocks.last()))
        } else {
            before
        }
    }
}

/// `data` describes `entry`, with a reading of the clock for each time that is
/// not recorded.
pub open spec fn describes_entry(data: FindData, entry: DirEntry, now: ClockReadings) -> bool {
    match entry.metadata {
        Some(metadata) => {
            &&& data.attributes == attributes_of(metadata.is_dir)
            &&& data.creation_time == time_or(metadata.created, now.creation)
            &&& data.last_access_time == time_or(metadata.accessed, now.last_access)
            &&& data.last_write_time == time_or(metadata.modified, now.last_write)
            &&& data.file_size == metadata.len
            &&& data.file_name@ == entry.file_name@
        },
        None => false,
    }
}

/// `found` describes the entries that a listing shows, one for one, with the
/// readings of the clock that were made for each.
pub open spec fn describes_listing(
    found: Seq<FindData>,
    entries: Seq<DirEntry>,
    clocks: Seq<ClockReadings>,
) -> bool {
    let shown = listed_with(entries, clocks);
    &&& found.len() == shown.len()
    &&& forall|i: int|
        0 <= i < found.len() ==> describes_entry(#[trigger] found[i], shown[i].0, shown[i].1)
}

/// The recorded time, or `now` where none is recorded.
pub fn system_time_or(recorded: Option<SystemTime>, now: SystemTime) -> (r: SystemTime)
    ensures
        r == time_or(recorded, now),
{
    match recorded {
        Some(time) => time,
        None => now,
    }
}

/// The recorded time, or the current time where none is recorded.
pub fn system_time_or_now(recorded: Option<SystemTime>) -> (r: SystemTime)
    ensures
        exists|now: SystemTime|
            call_ensures(SystemTime::now, (), now) && r == #[trigger] time_or(recorded, now),
{
    system_time_or(recorded, SystemTime::now())
}

/// Reads the clock for each time that may not be recorded.
pub(crate) fn read_clock() -> (r: ClockReadings)
    ensures
        are_readings(r),
{
    ClockReadings {
        creation: SystemTime::now(),
        last_access: SystemTime::now(),
        last_write: SystemTime::now(),
    }
}

/// The attributes of a file or directory.
fn attributes(is_dir: bool) -> (r: u32)
    ensures
        r == attributes_of(is_dir),
{
    if is_dir {
        FILE_ATTRIBUTE_DIRECTORY
    } else {
        assert(0x80u32 | 0x1u32 == 0x81u32) by (bit_vector);
        FILE_ATTRIBUTE_NORMAL | FILE_ATTRIBUTE_READONLY
    }
}

/// What the driver is told of a file or directory on disk, given the readings
/// of the clock for times that are not recorded.
pub fn metadata_to_file_info_at(metadata: &EntryMetadata, now: &ClockReadings) -> (r: FileInfo)
    ensures
        r == file_info_of(*metadata, *now),
{
    FileInfo {
        attributes: attributes(metadata.is_dir),
        creation_time: system_time_or(metadata.created, now.creation),
        last_access_time: system_time_or(metadata.accessed, now.last_access),
        last_write_time: system_time_or(metadata.modified, now.last_write),
        file_size: metadata.len,
        number_of_links: 1,
        file_index: 0,
    }
}

/// What the driver is told of a file or directory on disk.
pub fn metadata_to_file_info(metadata: &EntryMetadata) -> (r: FileInfo)
    ensures
        exists|now: ClockReadings|
            are_readings(now) && r == #[trigger] file_info_of(*metadata, now),
{
    let now = read_clock();
    metadata_to_file_info_at(metadata, &now)
}

/// What the driver is told of a texture of `size` bytes that is made on demand,
/// given the reading of the clock.
pub fn virtual_dds_file_info_at(size: u64, now: SystemTime) -> (r: FileInfo)
    ensures
        r == virtual_file_info_of(size, now),
{
    FileInfo {
        attributes: attributes(false),
        creation_time: now,
        last_access_time: now,
        last_write_time: now,
        file_size: size,
        number_of_links: 1,
        file_index: 0,
    }
}

/// What the driver is told of a texture of `size` bytes that is made on demand.
pub fn virtual_dds_file_info(size: u64) -> (r: FileInfo)
    ensures
        exists|now: SystemTime|
            call_ensures(SystemTime::now, (), now) && r == #[trigger] virtual_file_info_of(
                size,
                now,
            ),
{
    virtual_dds_file_info_at(size, SystemTime::now())
}

/// What the driver is told of an entry, where a listing shows it, given the
/// readings of the clock for times that are not recorded.
pub fn find_data_at(entry: &DirEntry, now: &ClockReadings) -> (r: Option<FindData>)
    ensures
        r is Some <==> is_listed(*entry),
        r matches Some(data) ==> describes_entry(data, *entry, *now),
{
    match entry.metadata {
        Some(metadata) => {
            let units: Vec<u16> = entry.file_name.clone();
            assert(units@ == entry.file_name@);
            match wide::wide_name(units) {
                Some(file_name) => Some(
                    FindData {
                        attributes: attributes(metadata.is_dir),
                        creation_time: system_time_or(metadata.created, now.creation),
                        last_access_time: system_time_or(metadata.accessed, now.last_access),
                        last_write_time: system_time_or(metadata.modified, now.last_write),
                        file_size: metadata.len,
                        file_name,
                    },
                ),
                None => None,
            }
        },
        None => None,
    }
}

/// What the driver is told of the contents of a directory, given the readings
/// of the clock for each entry; `None` stands for a directory that could not be
/// read. Entries that cannot be described are passed over.
pub fn find_files_at(directory: Option<&Vec<DirEntry>>, clocks: &Vec<ClockReadings>) -> (r: Result<
    Vec<FindData>,
    Status,
>)
    requires
        directory matches Some(entries) ==> entries@.len() == clocks@.len(),
    ensures
        match (directory, r) {
            (Some(entries), Ok(found)) => describes_listing(found@, entries@, clocks@),
            (None, Err(status)) => status == Status::NotADirectory,
            _ => false,
        },
{
    let entries = match directory {
        Some(entries) => entries,
        None => {
            return Err(Status::NotADirectory);
        },
    };
    let mut found: Vec<FindData> = Vec::new();
    let mut i: usize = 0;
    while i < entries.len()
        invariant
            i <= entries@.len() == clocks@.len(),
            describes_listing(found@, entries@.take(i as int), clocks@.take(i as int)),
        decreases entries@.len() - i,
    {
        assert(entries@.take(i + 1).drop_last() == entries@.take(i as int));
        assert(clocks@.take(i + 1).drop_last() == clocks@.take(i as int));
        match find_data_at(&entries[i], &clocks[i]) {
            Some(data) => {
                found.push(data);
            },
            None => {},
        }
        i = i + 1;
    }
    assert(entries@.take(entries@.len() as int) == entries@);
    assert(clocks@.take(clocks@.len() as int) == clocks@);
    Ok(found)
}

/// What the driver is told of the contents of a directory; `None` stands for
/// one that could not be read. Entries that cannot be described are passed
/// over.
pub fn find_files(directory: Option<&Vec<DirEntry>>) -> (r: Result<Vec<FindData>, Status>)
    ensures
        match (directory, r) {
            (Some(entries), Ok(found)) => exists|clocks: Seq<ClockReadings>|
                {
                    &&& clocks.len() == entries@.len()
                    &&& forall|i: int|
                        0 <= i < clocks.len() ==> are_readings(#[trigger] clocks[i])
                    &&& #[trigger] describes_listing(found@, entries@, clocks)
                },
            (None, Err(status)) => status == Status::NotADirectory,
            _ => false,
        },
{
    let mut clocks: Vec<ClockReadings> = Vec::new();
    if let Some(entries) = directory {
        while clocks.len() < entries.len()
            invariant
                clocks@.len() <= entries@.len(),
                forall|i: int| 0 <= i < clocks@.len() ==> are_readings(#[trigger] clocks@[i]),
            decreases entries@.len() - clocks@.len(),
        {
            clocks.push(read_clock());
        }
    }
    find_files_at(directory, &clocks)
}

/// What the driver is told of the free space; `None` stands for sizes that
/// could not be read.
pub fn get_disk_free_space(info: Option<FsInfo>) -> (r: Result<DiskSpaceInfo, Status>)
    ensures
        r == (match info {
            Some(info) => Ok::<DiskSpaceInfo, Status>(
                (DiskSpaceInfo {
                    byte_count: info.total_bytes,
                    free_byte_count: info.available_bytes,
                    available_byte_count: info.available_bytes,
                }),
            ),
            None => Err(Status::AccessDenied),
        }),
{
    match info {
        Some(info) => Ok(
            DiskSpaceInfo {
                byte_count: info.total_bytes,
                free_byte_count: info.available_bytes,
                available_byte_count: info.available_bytes,
            },
        ),
        None => Err(Status::AccessDenied),
    }
}

/// `text` as a wide string, or an empty one where it has a nul.
fn wide_or_empty(text: &str) -> (r: Vec<u16>)
    ensures
        !text@.contains('\0') ==> r@ == wide::utf16_units(text@),
        text@.contains('\0') ==> r@.len() == 0,
{
    match wide::wide_text(text) {
        Ok(units) => units,
        Err(_) => Vec::new(),
    }
}

/// What the driver is told of the volume.
pub fn get_volume_information() -> (r: VolumeInfo)
    ensures
        r.name@ == wide::utf16_units("XEarthLayer"@),
        r.serial_number == 0x5845_4C31,
        r.max_component_length == 255,
        r.fs_flags == 0,
        r.fs_name@ == wide::utf16_units("NTFS"@),
{
    proof {
        reveal_strlit("XEarthLayer");
        reveal_strlit("NTFS");
    }
    VolumeInfo {
        name: wide_or_empty("XEarthLayer"),
        serial_number: 0x5845_4C31,
        max_component_length: 255,
        fs_flags: 0,
        fs_name: wide_or_empty("NTFS"),
    }
}

/// A listing shows no entry that the directory does not have, and every entry
/// that can be described: one whose metadata could be read and whose name has
/// no nul.
pub proof fn law_listing_is_complete(entries: Seq<DirEntry>, entry: DirEntry)
    ensures
        listed(entries).contains(entry) <==> entries.contains(entry) && is_listed(entry),
        listed(entries).contains(entry) <==> entries.contains(entry) && entry.metadata is Some && (
        forall|i: int| 0 <= i < entry.file_name@.len() ==> entry.file_name@[i] != 0),
    decreases entries.len(),
{
    if forall|i: int| 0 <= i < entry.file_name@.len() ==> entry.file_name@[i] != 0 {
        assert(!entry.file_name@.contains(0));
    } else {
        let i = choose|i: int| 0 <= i < entry.file_name@.len() && entry.file_name@[i] == 0;
        assert(entry.file_name@.contains(entry.file_name@[i]));
    }
    if entries.len() > 0 {
        let before = entries.drop_last();
        law_listing_is_complete(before, entry);
        assert(entries == before.push(entries.last()));
        assert forall|s: Seq<DirEntry>, a: DirEntry| #[trigger]
            s.push(a).contains(entry) <==> s.contains(entry) || a == entry by {
            if s.contains(entry) {
                let i = choose|i: int| 0 <= i < s.len() && s[i] == entry;
                assert(s.push(a)[i] == entry);
            }
            if a == entry {
                assert(s.push(a)[s.len() as int] == entry);
            }
            if s.push(a).contains(entry) {
                let i = choose|i: int| 0 <= i < s.push(a).len() && s.push(a)[i] == entry;
                if i < s.len() {
                    assert(s[i] == entry);
                }
            }
        }
    }
}

/// The clock makes no difference to which entries a listing shows, nor to
/// their order.
pub proof fn law_clock_does_not_change_the_listing(
    entries: Seq<DirEntry>,
    clocks: Seq<ClockReadings>,
)
    requires
        entries.len() == clocks.len(),
    ensures
        listed_with(entries, clocks).len() == listed(entries).len(),
        forall|i: int|
            0 <= i < listed(entries).len() ==> (#[trigger] listed_with(entries, clocks)[i]).0
                == listed(entries)[i],
    decreases entries.len(),
{
    if entries.len() > 0 {
        law_clock_does_not_change_the_listing(entries.drop_last(), clocks.drop_last());
    }
}

/// Nothing but a directory is offered for writing: every file, on disk or made
/// on demand, carries the read-only attribute, and is not marked a directory.
pub proof fn law_files_are_read_only(metadata: EntryMetadata, size: u64, now: ClockReadings)
    requires
        !metadata.is_dir,
    ensures
        file_info_of(metadata, now).attributes & FILE_ATTRIBUTE_READONLY == FILE_ATTRIBUTE_READONLY,
        file_info_of(metadata, now).attributes & FILE_ATTRIBUTE_DIRECTORY == 0,
        virtual_file_info_of(size, now.creation).attributes & FILE_ATTRIBUTE_READONLY
            == FILE_ATTRIBUTE_READONLY,
        virtual_file_info_of(size, now.creation).attributes & FILE_ATTRIBUTE_DIRECTORY == 0,
{
    assert(0x81u32 & 0x1u32 == 0x1u32) by (bit_vector);
    assert(0x81u32 & 0x10u32 == 0u32) by (bit_vector);
}

/// A recorded time is reported as it is recorded, whatever the clock says.
pub proof fn law_recorded_times_are_kept(metadata: EntryMetadata, now: ClockReadings)
    ensures
        metadata.created matches Some(time) ==> file_info_of(metadata, now).creation_time == time,
        metadata.accessed matches Some(time) ==> file_info_of(metadata, now).last_access_time
            == time,
        metadata.modified matches Some(time) ==> file_info_of(metadata, now).last_write_time
            == time,
{
}

/// What is reported of a file or directory on disk: its whole size, one link,
/// what kind it is, and for each time that is not recorded the reading that
/// was made for it.
pub proof fn law_metadata_is_reported(metadata: EntryMetadata, now: ClockReadings)
    ensures
        file_info_of(metadata, now).file_size as int == metadata.len as int,
        file_info_of(metadata, now).number_of_links == 1,
        file_info_of(metadata, now).file_index == 0,
        metadata.is_dir ==> file_info_of(metadata, now).attributes == 0x10,
        !metadata.is_dir ==> file_info_of(metadata, now).attributes == 0x81,
        metadata.created is None ==> file_info_of(metadata, now).creation_time == now.creation,
        metadata.accessed is None ==> file_info_of(metadata, now).last_access_time
            == now.last_access,
        metadata.modified is None ==> file_info_of(metadata, now).last_write_time
            == now.last_write,
        metadata.created matches Some(time) ==> file_info_of(metadata, now).creation_time == time,
        metadata.accessed matches Some(time) ==> file_info_of(metadata, now).last_access_time
            == time,
        metadata.modified matches Some(time) ==> file_info_of(metadata, now).last_write_time
            == time,
{
}

/// What is reported of a texture that is made on demand: its whole size, one
/// link, a file that can only be read, and one time.
pub proof fn law_virtual_texture_is_reported(size: u64, now: SystemTime)
    ensures
        virtual_file_info_of(size, now).file_size as int == size as int,
        virtual_file_info_of(size, now).number_of_links == 1,
        virtual_file_info_of(size, now).file_index == 0,
        virtual_file_info_of(size, now).attributes == 0x81,
        virtual_file_info_of(size, now).creation_time == now,
        virtual_file_info_of(size, now).last_access_time == now,
        virtual_file_info_of(size, now).last_write_time == now,
{
}

/// A listing shows a directory of one entry unless its metadata could not be
/// read or a unit of its name is nul; nothing else keeps an entry out.
pub proof fn law_one_entry_is_listed(entry: DirEntry, now: ClockReadings)
    ensures
        entry.metadata is Some && (forall|i: int|
            0 <= i < entry.file_name@.len() ==> entry.file_name@[i] != 0) ==> listed(
            seq![entry],
        ) == seq![entry] && listed_with(seq![entry], seq![now]) == seq![(entry, now)],
        entry.metadata is None || (exists|i: int|
            0 <= i < entry.file_name@.len() && entry.file_name@[i] == 0) ==> listed(
            seq![entry],
        ).len() == 0 && listed_with(seq![entry], seq![now]).len() == 0,
{
    reveal_with_fuel(listed, 2);
    reveal_with_fuel(listed_with, 2);
    assert(seq![entry].drop_last() == Seq::<DirEntry>::empty());
    if entry.metadata is Some && (forall|i: int|
        0 <= i < entry.file_name@.len() ==> entry.file_name@[i] != 0) {
        assert(!entry.file_name@.contains(0));
    }
}

/// Entries do not affect each other: a listing of two lots of entries shows
/// what each lot shows, the first before the second.
pub proof fn law_listings_join(
    first: Seq<DirEntry>,
    second: Seq<DirEntry>,
    first_clocks: Seq<ClockReadings>,
    second_clocks: Seq<ClockReadings>,
)
    requires
        first.len() == first_clocks.len(),
        second.len() == second_clocks.len(),
    ensures
        listed(first + second) == listed(first) + listed(second),
        listed_with(first + second, first_clocks + second_clocks) == listed_with(
            first,
            first_clocks,
        ) + listed_with(second, second_clocks),
    decreases second.len(),
{
    let entries = first + second;
    let clocks = first_clocks + second_clocks;
    if second.len() == 0 {
        assert(entries == first);
        assert(clocks == first_clocks);
        assert(listed(second) == Seq::<DirEntry>::empty());
        assert(listed_with(second, second_clocks) == Seq::<(DirEntry, ClockReadings)>::empty());
    } else {
        assert(entries.drop_last() == first + second.drop_last());
        assert(clocks.drop_last() == first_clocks + second_clocks.drop_last());
        law_listings_join(first, second.drop_last(), first_clocks, second_clocks.drop_last());
    }
}

/// The driver is told of every entry that could be read and has no nul in its
/// name: under its name, with its whole size, its kind, and each time that is
/// recorded.
pub proof fn law_readable_entries_are_found(
    found: Seq<FindData>,
    entries: Seq<DirEntry>,
    clocks: Seq<ClockReadings>,
    k: int,
    metadata: EntryMetadata,
)
    requires
        describes_listing(found, entries, clocks),
        entries.len() == clocks.len(),
        0 <= k < entries.len(),
        entries[k].metadata == Some(metadata),
        forall|i: int| 0 <= i < entries[k].file_name@.len() ==> entries[k].file_name@[i] != 0,
    ensures
        exists|i: int|
            0 <= i < found.len() && {
                let data = #[trigger] found[i];
                &&& data.file_name@ == entries[k].file_name@
                &&& data.file_size as int == metadata.len as int
                &&& data.attributes == if metadata.is_dir {
                    0x10u32
                } else {
                    0x81u32
                }
                &&& metadata.created matches Some(time) ==> data.creation_time == time
                &&& metadata.accessed matches Some(time) ==> data.last_access_time == time
                &&& metadata.modified matches Some(time) ==> data.last_write_time == time
                &&& metadata.created is None ==> data.creation_time == clocks[k].creation
                &&& metadata.accessed is None ==> data.last_access_time == clocks[k].last_access
                &&& metadata.modified is None ==> data.last_write_time == clocks[k].last_write
            },
{
    let shown = listed_with(entries, clocks);
    let i = lemma_listed_position(entries, clocks, k);
    assert(describes_entry(found[i], shown[i].0, shown[i].1));
}

/// Where an entry that can be described stands in the listing.
proof fn lemma_listed_position(
    entries: Seq<DirEntry>,
    clocks: Seq<ClockReadings>,
    k: int,
) -> (i: int)
    requires
        entries.len() == clocks.len(),
        0 <= k < entries.len(),
        entries[k].metadata is Some,
        forall|i: int| 0 <= i < entries[k].file_name@.len() ==> entries[k].file_name@[i] != 0,
    ensures
        0 <= i < listed_with(entries, clocks).len(),
        listed_with(entries, clocks)[i] == (entries[k], clocks[k]),
    decreases entries.len(),
{
    assert(!entries[k].file_name@.contains(0));
    if k == entries.len() - 1 {
        listed_with(entries, clocks).len() - 1
    } else {
        lemma_listed_position(entries.drop_last(), clocks.drop_last(), k)
    }
}

/// The driver is told of nothing that is not in the directory: each item has
/// the name of an entry that could be read, in the order of the listing.
pub proof fn law_found_items_are_entries(
    found: Seq<FindData>,
    entries: Seq<DirEntry>,
    clocks: Seq<ClockReadings>,
    i: int,
)
    requires
        describes_listing(found, entries, clocks),
        entries.len() == clocks.len(),
        0 <= i < found.len(),
    ensures
        found.len() <= entries.len(),
        found.len() == listed_with(entries, clocks).len(),
        found[i].file_name@ == listed_with(entries, clocks)[i].0.file_name@,
        exists|k: int|
            0 <= k < entries.len() && (#[trigger] entries[k]).metadata is Some
                && found[i].file_name@ == entries[k].file_name@,
{
    let shown = listed_with(entries, clocks);
    assert(describes_entry(found[i], shown[i].0, shown[i].1));
    lemma_listed_source(entries, clocks, i);
}

/// Which entry an item of the listing is.
proof fn lemma_listed_source(entries: Seq<DirEntry>, clocks: Seq<ClockReadings>, i: int)
    requires
        entries.len() == clocks.len(),
        0 <= i < listed_with(entries, clocks).len(),
    ensures
        listed_with(entries, clocks).len() <= entries.len(),
        exists|k: int|
            0 <= k < entries.len() && #[trigger] entries[k] == listed_with(entries, clocks)[i].0,
    decreases entries.len(),
{
    if entries.len() > 0 {
        let before = listed_with(entries.drop_last(), clocks.drop_last());
        if i < before.len() {
            lemma_listed_source(entries.drop_last(), clocks.drop_last(), i);
            let k = choose|k: int|
                0 <= k < entries.len() - 1 && #[trigger] entries.drop_last()[k] == before[i].0;
            assert(entries[k] == entries.drop_last()[k]);
        } else {
            if before.len() > 0 {
                lemma_listed_source(entries.drop_last(), clocks.drop_last(), before.len() - 1);
            }
            assert(entries[entries.len() - 1] == listed_with(entries, clocks)[i].0);
        }
    }
}

/// Readings of the clock are what the clock gave.
pub proof fn law_readings_come_from_the_clock(now: ClockReadings)
    requires
        are_readings(now),
    ensures
        call_ensures(SystemTime::now, (), now.creation),
        call_ensures(SystemTime::now, (), now.last_access),
        call_ensures(SystemTime::now, (), now.last_write),
{
}

} // verus!

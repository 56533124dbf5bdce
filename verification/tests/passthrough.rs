use std::path::{Path, PathBuf};
use std::time::SystemTime;
use xearthlayer::coord::TileCoord;
use xearthlayer::fuse::windows::dds::{
    chunk_to_tile_coords, read_virtual_file, settle_reply, DdsFilename, DdsPayload, DdsReply,
};
use xearthlayer::fuse::windows::error::Status;
use xearthlayer::fuse::windows::info::{
    find_data_at, find_files, find_files_at, get_disk_free_space, get_volume_information,
    metadata_to_file_info, metadata_to_file_info_at, system_time_or, system_time_or_now,
    virtual_dds_file_info, virtual_dds_file_info_at, ClockReadings, DirEntry, DiskSpaceInfo,
    EntryMetadata, FsInfo, FILE_ATTRIBUTE_DIRECTORY, FILE_ATTRIBUTE_NORMAL,
    FILE_ATTRIBUTE_READONLY,
};
use xearthlayer::fuse::windows::passthrough::{
    is_dds_name, FileContext, PassthroughFS, ReadPlan, Timeout,
};
use xearthlayer::fuse::windows::wide::{to_relative_path, wide_name, wide_text};

fn file_system() -> PassthroughFS<&'static str, &'static str> {
    PassthroughFS::new(PathBuf::from("/packs/na"), "client", 11_174_016)
}

fn wide(text: &str) -> Vec<u16> {
    text.encode_utf16().collect()
}

fn metadata(is_dir: bool) -> EntryMetadata {
    EntryMetadata { is_dir, len: 22, created: None, accessed: None, modified: None }
}

/// Three different readings of the clock, from `secs` on.
fn readings(secs: u64) -> ClockReadings {
    let at = |secs| SystemTime::UNIX_EPOCH + std::time::Duration::from_secs(secs);
    ClockReadings { creation: at(secs), last_access: at(secs + 1), last_write: at(secs + 2) }
}

#[test]
fn texture_name_gives_its_tile() {
    let coords = DdsFilename { row: 100000, col: 125184, zoom: 18 };
    let tile = chunk_to_tile_coords(&coords);
    assert_eq!(tile, TileCoord { row: 100000 / 16, col: 125184 / 16, zoom: 14 });
}

#[test]
fn zoom_does_not_go_below_zero() {
    let tile = chunk_to_tile_coords(&DdsFilename { row: 15, col: 16, zoom: 3 });
    assert_eq!(tile, TileCoord { row: 0, col: 1, zoom: 0 });
}

#[test]
fn paths_lose_their_root() {
    assert_eq!(to_relative_path(&wide("\\sub\\nested.txt")), "sub\\nested.txt");
    assert_eq!(to_relative_path(&wide("/\\//hello.txt")), "hello.txt");
    assert_eq!(to_relative_path(&wide("hello.txt")), "hello.txt");
    assert_eq!(to_relative_path(&wide("\\")), "");
    assert_eq!(to_relative_path(&[]), "");
    assert_eq!(to_relative_path(&wide("\\\u{1F30D}/x")), "\u{1F30D}/x");
}

#[test]
fn lone_surrogates_are_replaced() {
    assert_eq!(to_relative_path(&[0x5C, 0xD800, 0x41]), "\u{FFFD}A");
    assert_eq!(to_relative_path(&[0xDC00, 0xD83C, 0xDF0D]), "\u{FFFD}\u{1F30D}");
    assert_eq!(to_relative_path(&[0x41, 0xD83C]), "A\u{FFFD}");
}

#[test]
fn wide_strings_have_no_nul() {
    assert_eq!(wide_text("K:\\"), Ok(vec![0x4B, 0x3A, 0x5C]));
    assert_eq!(wide_text("\u{1F30D}"), Ok(vec![0xD83C, 0xDF0D]));
    assert_eq!(
        wide_text("a\u{1F30D}\0b\0"),
        Err("nul value found at position 3".to_string())
    );
    assert_eq!(wide_name(vec![0x41, 0xD800]), Some(vec![0x41, 0xD800]));
    assert_eq!(wide_name(vec![0x41, 0, 0x42]), None);
    assert_eq!(wide_name(vec![]), Some(vec![]));
}

#[test]
fn decoding_undoes_encoding() {
    let text = "Earth nav data\u{E4}\u{FFFF}\u{10000}\u{10FFFF}";
    assert_eq!(to_relative_path(&wide_text(text).unwrap()), text);
}

#[test]
fn real_files_pass_through() {
    let fs = file_system();
    let opened = fs
        .create_file(PathBuf::from("/packs/na/hello.txt"), Some(metadata(false)), "hello.txt", None)
        .unwrap();
    assert!(!opened.is_dir);
    assert!(!opened.new_file_created);
    match &opened.context {
        FileContext::RealFile(path) => assert_eq!(path, Path::new("/packs/na/hello.txt")),
        other => panic!("not a real file: {:?}", other),
    }
    assert_eq!(
        fs.information_path(&opened.context),
        Some(&PathBuf::from("/packs/na/hello.txt"))
    );
    match fs.read_file(&opened.context, 7) {
        Ok(ReadPlan::FromDisk { path, position }) => {
            assert_eq!(path, Path::new("/packs/na/hello.txt"));
            assert_eq!(position, 7);
        }
        other => panic!("not read from disk: {:?}", other),
    }
    match fs.read_file(&opened.context, -1) {
        Ok(ReadPlan::FromDisk { position, .. }) => assert_eq!(position, u64::MAX),
        other => panic!("not read from disk: {:?}", other),
    }
}

#[test]
fn real_textures_are_not_generated() {
    let coords = DdsFilename { row: 1, col: 2, zoom: 18 };
    let opened = file_system()
        .create_file(PathBuf::from("/t/1_2_BI18.dds"), Some(metadata(false)), "1_2_BI18.dds", Some(coords))
        .unwrap();
    assert!(matches!(opened.context, FileContext::RealFile(_)));
}

#[test]
fn directories_cannot_be_read() {
    let fs = file_system();
    let opened = fs
        .create_file(PathBuf::from("/packs/na/sub"), Some(metadata(true)), "sub", None)
        .unwrap();
    assert!(opened.is_dir);
    assert!(matches!(opened.context, FileContext::Directory));
    assert!(matches!(
        fs.read_file(&opened.context, 0),
        Err(Status::AccessDenied)
    ));
    assert_eq!(fs.information_path(&opened.context), Some(&PathBuf::from("/packs/na")));
}

#[test]
fn missing_textures_are_virtual() {
    let fs = file_system();
    let coords = DdsFilename { row: 100000, col: 125184, zoom: 18 };
    let name = "100000_125184_BI18.dds";
    let opened = fs
        .create_file(PathBuf::from("/packs/na").join(name), None, name, Some(coords))
        .unwrap();
    assert!(!opened.is_dir);
    assert!(!opened.new_file_created);
    assert!(matches!(opened.context, FileContext::VirtualDds(c) if c == coords));
    assert!(fs.information_path(&opened.context).is_none());
    match fs.read_file(&opened.context, 0) {
        Ok(ReadPlan::FromGenerator { coords: asked }) => assert_eq!(asked, coords),
        other => panic!("not generated: {:?}", other),
    }
    let info = fs.get_file_information(&opened.context, None).unwrap();
    assert_eq!(info.file_size, 11_174_016);
    assert_eq!(info.attributes, 0x81);
}

#[test]
fn other_missing_files_are_not_found() {
    let fs = file_system();
    let coords = DdsFilename { row: 1, col: 2, zoom: 18 };
    let path = || PathBuf::from("/packs/na/x");
    assert_eq!(
        fs.create_file(path(), None, "note.txt", Some(coords)).unwrap_err(),
        Status::ObjectNameNotFound
    );
    assert_eq!(
        fs.create_file(path(), None, "odd.dds", None).unwrap_err(),
        Status::ObjectNameNotFound
    );
    assert_eq!(
        fs.create_file(path(), None, "", None).unwrap_err(),
        Status::ObjectNameNotFound
    );
}

#[test]
fn texture_names_end_in_dds() {
    assert!(is_dds_name("1_2_BI18.dds"));
    assert!(is_dds_name(".dds"));
    assert!(!is_dds_name("1_2_BI18.DDS"));
    assert!(!is_dds_name("1_2_BI18.dds.tmp"));
    assert!(!is_dds_name("dds"));
    assert!(!is_dds_name(""));
}

#[test]
fn status_codes_are_those_of_nt() {
    assert_eq!(Status::AccessDenied.code(), 0xC000_0022);
    assert_eq!(Status::ObjectNameNotFound.code(), 0xC000_0034);
    assert_eq!(Status::NotADirectory.code(), 0xC000_0103);
}

#[test]
fn information_needs_metadata() {
    let fs = file_system();
    let file = FileContext::RealFile(PathBuf::from("/packs/na/hello.txt"));
    assert_eq!(
        fs.get_file_information(&file, None).unwrap_err(),
        Status::ObjectNameNotFound
    );
    assert_eq!(
        fs.get_file_information(&FileContext::Directory, None).unwrap_err(),
        Status::ObjectNameNotFound
    );
    let info = fs.get_file_information(&file, Some(metadata(false))).unwrap();
    assert_eq!(info.file_size, 22);
}

#[test]
fn metadata_is_reported_as_recorded() {
    let hour = std::time::Duration::from_secs(3600);
    let created = SystemTime::UNIX_EPOCH + hour;
    let accessed = created + hour;
    let modified = accessed + hour;
    let info = metadata_to_file_info(&EntryMetadata {
        is_dir: false,
        len: 5,
        created: Some(created),
        accessed: Some(accessed),
        modified: Some(modified),
    });
    assert_eq!(info.creation_time, created);
    assert_eq!(info.last_access_time, accessed);
    assert_eq!(info.last_write_time, modified);
    assert_eq!(info.file_size, 5);
    assert_eq!(info.number_of_links, 1);
    assert_eq!(info.file_index, 0);
    assert_eq!(info.attributes, FILE_ATTRIBUTE_NORMAL | FILE_ATTRIBUTE_READONLY);
    assert_eq!(metadata_to_file_info(&metadata(true)).attributes, FILE_ATTRIBUTE_DIRECTORY);
}

#[test]
fn missing_times_are_the_present() {
    let before = SystemTime::now();
    let time = system_time_or_now(None);
    assert!(time >= before);
    assert_eq!(system_time_or_now(Some(SystemTime::UNIX_EPOCH)), SystemTime::UNIX_EPOCH);
    assert_eq!(system_time_or(None, before), before);
    assert_eq!(system_time_or(Some(SystemTime::UNIX_EPOCH), before), SystemTime::UNIX_EPOCH);
}

#[test]
fn each_missing_time_has_its_own_reading() {
    let now = readings(100);
    let info = metadata_to_file_info_at(&metadata(false), &now);
    assert_eq!(info.creation_time, now.creation);
    assert_eq!(info.last_access_time, now.last_access);
    assert_eq!(info.last_write_time, now.last_write);

    let recorded = EntryMetadata { modified: Some(SystemTime::UNIX_EPOCH), ..metadata(false) };
    let info = metadata_to_file_info_at(&recorded, &now);
    assert_eq!(info.creation_time, now.creation);
    assert_eq!(info.last_write_time, SystemTime::UNIX_EPOCH);

    let virtual_info = virtual_dds_file_info_at(9, now.creation);
    assert_eq!(virtual_info.last_write_time, now.creation);
}

#[test]
fn handles_are_described_as_of_the_readings() {
    let fs = file_system();
    let now = readings(100);
    let file = FileContext::RealFile(PathBuf::from("/packs/na/hello.txt"));
    let info = fs.get_file_information_at(&file, Some(metadata(false)), &now).unwrap();
    assert_eq!(info.last_access_time, now.last_access);
    assert_eq!(
        fs.get_file_information_at(&file, None, &now).unwrap_err(),
        Status::ObjectNameNotFound
    );
    let texture = FileContext::VirtualDds(DdsFilename { row: 1, col: 2, zoom: 18 });
    let info = fs.get_file_information_at(&texture, None, &now).unwrap();
    assert_eq!(info.creation_time, now.creation);
    assert_eq!(info.last_access_time, now.creation);
    assert_eq!(info.last_write_time, now.creation);
    assert_eq!(info.file_size, 11_174_016);
}

#[test]
fn entries_are_described_as_of_their_readings() {
    let entry = DirEntry { metadata: Some(metadata(false)), file_name: wide("a") };
    let now = readings(7);
    let data = find_data_at(&entry, &now).unwrap();
    assert_eq!(data.creation_time, now.creation);
    assert_eq!(data.last_access_time, now.last_access);
    assert_eq!(data.last_write_time, now.last_write);

    let entries = vec![
        DirEntry { metadata: None, file_name: wide("gone") },
        entry,
        DirEntry { metadata: Some(metadata(true)), file_name: wide("b") },
    ];
    let clocks = vec![readings(10), readings(20), readings(30)];
    let found = find_files_at(Some(&entries), &clocks).unwrap_or_default();
    assert_eq!(found.len(), 2);
    assert_eq!(found[0].creation_time, clocks[1].creation);
    assert_eq!(found[1].last_write_time, clocks[2].last_write);
    assert_eq!(find_files_at(None, &clocks).err(), Some(Status::NotADirectory));
}

#[test]
fn virtual_textures_have_one_time() {
    let info = virtual_dds_file_info(9);
    assert_eq!(info.creation_time, info.last_access_time);
    assert_eq!(info.last_access_time, info.last_write_time);
    assert_eq!(info.file_size, 9);
    assert_eq!(info.attributes, 0x81);
}

#[test]
fn listing_passes_over_what_it_cannot_describe() {
    let entries = vec![
        DirEntry { metadata: Some(metadata(false)), file_name: wide("hello.txt") },
        DirEntry { metadata: None, file_name: wide("gone") },
        DirEntry { metadata: Some(metadata(true)), file_name: wide("a\0b") },
        DirEntry { metadata: Some(metadata(true)), file_name: wide("sub") },
    ];
    let found = find_files(Some(&entries)).unwrap_or_default();
    assert_eq!(found.len(), 2);
    assert_eq!(found[0].file_name, wide("hello.txt"));
    assert_eq!(found[0].attributes, 0x81);
    assert_eq!(found[0].file_size, 22);
    assert_eq!(found[1].file_name, wide("sub"));
    assert_eq!(found[1].attributes, 0x10);
}

#[test]
fn unreadable_directory_is_refused() {
    assert_eq!(find_files(None).err(), Some(Status::NotADirectory));
    assert_eq!(find_files(Some(&Vec::new())).map(|found| found.len()), Ok(0));
}

#[test]
fn free_space_is_that_of_the_source() {
    let info = FsInfo { total_bytes: 100, available_bytes: 40 };
    assert_eq!(
        get_disk_free_space(Some(info)),
        Ok(DiskSpaceInfo { byte_count: 100, free_byte_count: 40, available_byte_count: 40 })
    );
    assert_eq!(get_disk_free_space(None), Err(Status::AccessDenied));
}

#[test]
fn volume_is_named() {
    let volume = get_volume_information();
    assert_eq!(volume.name, wide("XEarthLayer"));
    assert_eq!(volume.fs_name, wide("NTFS"));
    assert_eq!(&volume.serial_number.to_be_bytes(), b"XEL1");
    assert_eq!(volume.max_component_length, 255);
    assert_eq!(volume.fs_flags, 0);
}

#[test]
fn disk_reads_report_their_length() {
    let fs = file_system();
    assert_eq!(fs.disk_read_result(Some(14)), Ok(14));
    assert_eq!(fs.disk_read_result(None), Err(Status::ObjectNameNotFound));
}

#[test]
fn virtual_reads_stay_within_the_texture() {
    let data = b"DDS texture";
    let mut buffer = [0u8; 4];
    assert_eq!(read_virtual_file(data, 0, &mut buffer), 4);
    assert_eq!(&buffer, b"DDS ");
    assert_eq!(read_virtual_file(data, 8, &mut buffer), 3);
    assert_eq!(&buffer, b"ure ");
    assert_eq!(read_virtual_file(data, 11, &mut buffer), 0);
    assert_eq!(read_virtual_file(data, -1, &mut buffer), 0);
    assert_eq!(read_virtual_file(data, i64::MIN, &mut buffer), 0);
    assert_eq!(&buffer, b"ure ");
    assert_eq!(read_virtual_file(data, 3, &mut []), 0);
    assert_eq!(read_virtual_file(&[], 0, &mut buffer), 0);
}

#[test]
fn virtual_reads_join() {
    let data: Vec<u8> = (0..100).collect();
    let mut whole = vec![0u8; 150];
    assert_eq!(read_virtual_file(&data, 0, &mut whole), 100);
    assert_eq!(&whole[..100], &data[..]);
    let mut first = vec![0u8; 60];
    let mut second = vec![0u8; 60];
    assert_eq!(read_virtual_file(&data, 0, &mut first), 60);
    assert_eq!(read_virtual_file(&data, 60, &mut second), 40);
    first.extend_from_slice(&second[..40]);
    assert_eq!(first, data);
}

#[test]
fn replies_are_settled() {
    assert!(matches!(
        settle_reply(DdsReply::Response(vec![1, 2])),
        DdsPayload::Generated(data) if data == vec![1, 2]
    ));
    assert!(matches!(settle_reply(DdsReply::Dropped), DdsPayload::CancelAndPlaceholder));
    assert!(matches!(settle_reply(DdsReply::TimedOut), DdsPayload::CancelAndPlaceholder));
}

#[test]
fn requests_carry_the_configuration() {
    let coords = DdsFilename { row: 32, col: 47, zoom: 16 };
    let fs = file_system();
    let request = fs.dds_request(&coords);
    assert_eq!(*request.client, "client");
    assert_eq!(request.tile, TileCoord { row: 2, col: 2, zoom: 12 });
    assert_eq!(request.callback, None);
    assert_eq!(request.timeout, Timeout { secs: 30, nanos: 0 });

    let fs = file_system()
        .with_timeout(Timeout { secs: 1, nanos: 5 })
        .with_tile_request_callback("told");
    let request = fs.dds_request(&coords);
    assert_eq!(request.callback, Some(&"told"));
    assert_eq!(request.timeout, Timeout { secs: 1, nanos: 5 });
    assert_eq!(fs.source_dir, PathBuf::from("/packs/na"));
}

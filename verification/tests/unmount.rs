use xearthlayer::system::unmount::{
    is_stale_fuse_mount, is_stale_mount_error, recover_stale_fuse_mount, run_unmount, unmount_fuse,
    CommandOutcome, DirectoryListing, Recovery, StaleCodes, Unmount, UnmountTool,
};

/// What opening `path` as a directory gives.
fn listing(path: &std::path::Path) -> DirectoryListing {
    match path.read_dir() {
        Ok(_) => DirectoryListing::Readable,
        Err(error) => DirectoryListing::Failed(error.raw_os_error()),
    }
}

fn failed(stderr: &str) -> CommandOutcome {
    CommandOutcome::Exited { success: false, stderr: stderr.as_bytes().to_vec() }
}

fn succeeded() -> CommandOutcome {
    CommandOutcome::Exited { success: true, stderr: Vec::new() }
}

/// The next command line, without the mount point.
fn command_line(unmount: &Unmount) -> Option<String> {
    unmount
        .command()
        .map(|command| format!("{} {}", command.program.name(), command.flag.text()))
}

/// Unmounting a path that isn't a mountpoint must be treated as success.
#[test]
fn unmount_of_non_mountpoint_reports_success() {
    let dir = tempfile::tempdir().expect("tempdir");
    let mut unmount = unmount_fuse(UnmountTool::Fusermount, false);
    assert_eq!(command_line(&unmount), Some("fusermount3 -u".to_string()));
    unmount.observe(&failed(&format!(
        "fusermount3: entry for {} not found in /etc/mtab\n",
        dir.path().display()
    )));
    assert_eq!(
        unmount.result(),
        Some(true),
        "non-mountpoint should be reported as already unmounted"
    );
}

#[test]
fn stale_mount_error_classification() {
    let stale_macos = std::io::Error::from_raw_os_error(libc::ENXIO);
    let stale_linux = std::io::Error::from_raw_os_error(libc::ENOTCONN);
    let missing = std::io::Error::from_raw_os_error(libc::ENOENT);
    let denied = std::io::Error::from_raw_os_error(libc::EACCES);

    assert!(is_stale_mount_error(stale_macos.raw_os_error()), "ENXIO is stale");
    assert!(is_stale_mount_error(stale_linux.raw_os_error()), "ENOTCONN is stale");
    assert!(!is_stale_mount_error(missing.raw_os_error()), "ENOENT is not stale");
    assert!(!is_stale_mount_error(denied.raw_os_error()), "EACCES is not stale");
}

/// A healthy directory is not a stale mount.
#[test]
fn healthy_directory_is_not_stale() {
    let dir = tempfile::tempdir().expect("tempdir");
    assert!(!is_stale_fuse_mount(&listing(dir.path())));
}

/// A missing path is not a stale mount (nothing to recover).
#[test]
fn missing_path_is_not_stale() {
    let dir = tempfile::tempdir().expect("tempdir");
    let missing = dir.path().join("does-not-exist");
    assert!(!is_stale_fuse_mount(&listing(&missing)));
}

/// Recovery on a healthy mountpoint is a no-op that reports false.
#[test]
fn recover_on_healthy_mountpoint_is_noop() {
    let dir = tempfile::tempdir().expect("tempdir");
    let recovery = recover_stale_fuse_mount(UnmountTool::Fusermount, &listing(dir.path()));
    assert_eq!(recovery, Recovery::Healthy);
    assert_eq!(recovery.result(), Some(false));
}

#[test]
fn codes_of_the_platform_are_those_of_libc() {
    let codes = StaleCodes::of_platform();
    assert_eq!(codes, StaleCodes { enxio: libc::ENXIO, enotconn: libc::ENOTCONN });
    assert_ne!(codes.enxio, codes.enotconn);
}

#[test]
fn errors_without_a_code_are_not_stale() {
    assert!(!is_stale_mount_error(None));
    assert!(!is_stale_fuse_mount(&DirectoryListing::Failed(None)));
    let codes = StaleCodes { enxio: 6, enotconn: 57 };
    assert!(codes.is_stale_mount_error(Some(57)));
    assert!(!codes.is_stale_mount_error(Some(107)));
    for code in [0, 1, 2, 5, 13, 16, 44] {
        assert!(!is_stale_fuse_mount(&DirectoryListing::Failed(Some(code))));
    }
}

#[test]
fn dead_mount_is_unmounted_by_force() {
    let dead = DirectoryListing::Failed(Some(libc::ENOTCONN));
    assert!(is_stale_fuse_mount(&dead));
    let recovery = recover_stale_fuse_mount(UnmountTool::Fusermount, &dead);
    assert_eq!(recovery.result(), None);
    let mut unmount = match recovery {
        Recovery::Clearing(unmount) => unmount,
        Recovery::Healthy => panic!("a dead mount is to be cleared"),
    };
    assert_eq!(command_line(&unmount), Some("fusermount3 -uz".to_string()));
    unmount.observe(&succeeded());
    assert_eq!(Recovery::Clearing(unmount).result(), Some(true));
}

#[test]
fn dead_mount_that_stays_is_not_recovered() {
    let dead = DirectoryListing::Failed(Some(libc::ENXIO));
    let mut unmount = match recover_stale_fuse_mount(UnmountTool::Umount, &dead) {
        Recovery::Clearing(unmount) => unmount,
        Recovery::Healthy => panic!("a dead mount is to be cleared"),
    };
    unmount.observe(&failed("umount: busy"));
    assert_eq!(Recovery::Clearing(unmount).result(), Some(false));
}

#[test]
fn fusermount_falls_back_once() {
    let mut unmount = unmount_fuse(UnmountTool::Fusermount, true);
    assert_eq!(command_line(&unmount), Some("fusermount3 -uz".to_string()));
    unmount.observe(&CommandOutcome::NotRun);
    assert_eq!(unmount.result(), None);
    assert_eq!(command_line(&unmount), Some("fusermount -uz".to_string()));
    unmount.observe(&failed("fusermount: device is busy"));
    assert_eq!(command_line(&unmount), None);
    assert_eq!(unmount.result(), Some(false));
    unmount.observe(&succeeded());
    assert_eq!(unmount.result(), Some(false));
}

#[test]
fn fusermount_success_ends_at_once() {
    let mut unmount = unmount_fuse(UnmountTool::Fusermount, false);
    unmount.observe(&succeeded());
    assert_eq!(command_line(&unmount), None);
    assert_eq!(unmount.result(), Some(true));
}

#[test]
fn umount_is_always_forced_and_runs_once() {
    for force in [false, true] {
        let mut unmount = unmount_fuse(UnmountTool::Umount, force);
        assert_eq!(command_line(&unmount), Some("umount -f".to_string()));
        unmount.observe(&failed("umount: /mnt/x: not currently mounted\n"));
        assert_eq!(command_line(&unmount), None);
        assert_eq!(unmount.result(), Some(true));
    }
}

#[test]
fn outcomes_that_leave_nothing_mounted() {
    assert!(run_unmount(&succeeded()));
    assert!(run_unmount(&CommandOutcome::Exited { success: true, stderr: b"warning".to_vec() }));
    assert!(run_unmount(&failed("umount: /mnt/x: not mounted.")));
    assert!(run_unmount(&failed("not found")));
    assert!(run_unmount(&failed("x: not currently mounted")));
    assert!(run_unmount(&CommandOutcome::Exited {
        success: false,
        stderr: b"\xff\xfe not mounted \xff".to_vec(),
    }));
}

#[test]
fn outcomes_that_leave_a_mount() {
    assert!(!run_unmount(&CommandOutcome::NotRun));
    assert!(!run_unmount(&failed("")));
    assert!(!run_unmount(&failed("not foun")));
    assert!(!run_unmount(&failed("Not Mounted")));
    assert!(!run_unmount(&CommandOutcome::Exited {
        success: false,
        stderr: b"not m\xffounted".to_vec(),
    }));
}

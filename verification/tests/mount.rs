use std::path::PathBuf;
use xearthlayer::fuse::windows::error::{io_message, MountError};
use xearthlayer::fuse::windows::mount::{
    join_result, mount_options, JoinOutcome, MountEvent, MountStage, PendingMount, ReadySignal,
    SpawnedMountHandle,
};
use xearthlayer::fuse::windows::ortho_union::OrthoUnionFS;
use xearthlayer::fuse::windows::passthrough::PassthroughFS;

const NOT_IMPLEMENTED: &str = "Dokan OrthoUnionFS (consolidated multi-package mount) is not \
                               implemented yet \u{2014} only the single-directory PassthroughFS is \
                               wired up so far.";

fn pending() -> PendingMount {
    let fs: PassthroughFS<(), ()> = PassthroughFS::new(PathBuf::from("/packs/na"), (), 1);
    fs.mount_spawned("K:\\").expect("a plain mount point")
}

#[test]
fn mount_points_are_widened() {
    let mount = pending();
    assert_eq!(mount.mountpoint, "K:\\");
    assert_eq!(mount.mount_point, vec![0x4B, 0x3A, 0x5C]);
}

#[test]
fn mount_points_with_a_nul_are_invalid() {
    let fs: PassthroughFS<(), ()> = PassthroughFS::new(PathBuf::from("/packs/na"), (), 1);
    match fs.mount_spawned("K\0:") {
        Err(MountError::InvalidPath(text)) => assert_eq!(text, "nul value found at position 1"),
        other => panic!("accepted: {:?}", other),
    }
}

#[test]
fn every_mount_is_write_protected() {
    assert!(mount_options().write_protect);
}

#[test]
fn ready_mount_is_held() {
    let spawned = pending()
        .finish(ReadySignal::Reported(Ok(())), 'u', 'j')
        .expect("the mount is ready");
    assert_eq!(spawned.unmount_tx, Some('u'));
    assert_eq!(spawned.join_handle, Some('j'));
    assert_eq!(spawned.mountpoint, "K:\\");
}

#[test]
fn refused_mount_gives_its_reason() {
    let refusal = MountStage::ReportingRefusal("DriverInstallError".to_string())
        .report()
        .expect("a refusal is reported");
    match pending().finish(ReadySignal::Reported(refusal), (), ()) {
        Err(error) => assert_eq!(error.message(), "Mount failed: DriverInstallError"),
        other => panic!("mounted: {:?}", other),
    }
}

#[test]
fn lost_mount_thread_is_a_failure() {
    match pending().finish(ReadySignal::ThreadGone, (), ()) {
        Err(MountError::MountFailed(text)) => {
            assert_eq!(text, "mount thread exited before signaling readiness")
        }
        other => panic!("mounted: {:?}", other),
    }
}

#[test]
fn handles_pass_errors_on() {
    let fs: PassthroughFS<(), ()> = PassthroughFS::new(PathBuf::from("/packs/na"), (), 1);
    let handle = fs
        .mount(pending().finish(ReadySignal::Reported(Ok(())), 1, 2))
        .expect("the mount is ready");
    assert_eq!(handle.spawned.unmount_tx, Some(1));
    let failed = fs.mount::<(), ()>(Err(MountError::InvalidPath("x".to_string())));
    assert_eq!(failed.unwrap_err().message(), "Invalid path: x");
}

#[test]
fn mount_ends_once() {
    let mut handle = SpawnedMountHandle {
        unmount_tx: Some("stop"),
        join_handle: Some("thread"),
        mountpoint: "K:\\".to_string(),
    };
    let teardown = handle.unmount();
    assert_eq!(teardown.signal, Some("stop"));
    assert_eq!(teardown.join, Some("thread"));
    let again = handle.unmount();
    assert_eq!(again.signal, None);
    assert_eq!(again.join, None);
    assert_eq!(handle.mountpoint, "K:\\");
}

#[test]
fn joins_tell_how_they_failed() {
    assert_eq!(join_result(JoinOutcome::NotNeeded), Ok(()));
    assert_eq!(join_result(JoinOutcome::Joined), Ok(()));
    assert_eq!(
        join_result(JoinOutcome::Failed("cancelled".to_string())),
        Err("mount thread join failed: cancelled".to_string())
    );
}

#[test]
fn mounted_thread_goes_through_its_stages() {
    let mut seen = Vec::new();
    let mut reports = 0;
    let mut stage = MountStage::start();
    while !matches!(stage, MountStage::Finished) {
        seen.push(format!("{:?}", stage));
        if let Some(report) = stage.report() {
            assert!(report.is_ok());
            reports += 1;
        }
        stage = stage.next(MountEvent::Done);
    }
    assert_eq!(
        seen,
        vec![
            "Initializing",
            "Mounting",
            "ReportingReady",
            "Serving",
            "Unmounting",
            "Releasing",
            "ShuttingDown"
        ]
    );
    assert_eq!(reports, 1);
    assert!(matches!(stage.next(MountEvent::Done), MountStage::Finished));
}

#[test]
fn refused_thread_shuts_down() {
    let stage = MountStage::start().next(MountEvent::Done);
    let stage = stage.next(MountEvent::Refused("no driver".to_string()));
    match stage.report() {
        Some(Err(MountError::MountFailed(text))) => assert_eq!(text, "no driver"),
        other => panic!("reported {:?}", other),
    }
    let stage = stage.next(MountEvent::Done);
    assert!(matches!(stage, MountStage::ShuttingDown));
    assert!(matches!(stage.next(MountEvent::Done), MountStage::Finished));
}

#[test]
fn input_output_errors_are_carried() {
    let error = MountError::from(std::io::Error::from_raw_os_error(libc::EACCES));
    assert!(matches!(error, MountError::Io(_)));
    assert_eq!(error.message(), "I/O error: Permission denied (os error 13)");
}

#[test]
fn input_output_errors_keep_the_system_text() {
    assert_eq!(io_message("disk on fire"), "I/O error: disk on fire");
    assert_eq!(io_message(""), "I/O error: ");
}

#[test]
fn consolidated_mount_is_refused() {
    let fs: OrthoUnionFS<&str, &str, u8, u16, u32> = OrthoUnionFS::new("index", "client", 7);
    assert_eq!(fs.expected_dds_size, 7);
    assert!(fs.geo_index.is_none() && fs.dds_access_tx.is_none() && fs.scene_tracker_tx.is_none());
    assert!(fs.fuse_max_background.is_none() && fs.fuse_congestion_threshold.is_none());
    match fs.mount::<(), ()>("K:\\") {
        Err(MountError::MountFailed(text)) => assert_eq!(text, NOT_IMPLEMENTED),
        other => panic!("mounted: {:?}", other),
    }
}

#[test]
fn consolidated_file_system_keeps_its_options() {
    let fs: OrthoUnionFS<&str, &str, u8, u16, u32> = OrthoUnionFS::new("index", "client", 7);
    let fs = fs
        .with_geo_index(1)
        .with_dds_access_channel(2)
        .with_scene_tracker_channel(3)
        .with_metrics("unused")
        .with_fuse_limits(64, 48);
    assert_eq!(fs.geo_index, Some(1));
    assert_eq!(fs.dds_access_tx, Some(2));
    assert_eq!(fs.scene_tracker_tx, Some(3));
    assert_eq!(fs.fuse_max_background, Some(64));
    assert_eq!(fs.fuse_congestion_threshold, Some(48));
    match fs.mount_spawned::<(), ()>("K:\\") {
        Err(MountError::MountFailed(text)) => assert_eq!(text, NOT_IMPLEMENTED),
        other => panic!("mounted: {:?}", other),
    }
}

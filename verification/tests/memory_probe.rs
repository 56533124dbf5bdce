use std::sync::Once;
use xearthlayer::metrics::{
    allocator_environment, MemoryProbe, MemorySample, ProcessMemoryProbe, StaticMemoryProbe,
};

/// The guard of the first reading in this process.
static INIT: Once = Once::new();

/// The part of a Linux process's `/proc/self/status` around the two fields.
const STATUS: &str = "Name:\tcat\nUmask:\t0022\nState:\tR (running)\nTgid:\t6735\n\
                      Groups:\t \nVmPeak:\t    2640 kB\nVmSize:\t    2640 kB\n\
                      VmRSS:\t    1416 kB\nVmPTE:\t      48 kB\nVmSwap:\t       0 kB\n\
                      HugetlbPages:\t       0 kB\nCoreDumping:\t0\nTHP_enabled:\t1\n\
                      Threads:\t1\nSigQ:\t0/64181\nSigPnd:\t0000000000000000\n";

#[test]
fn process_probe_reports_nonzero_memory() {
    let probe = ProcessMemoryProbe::new();
    let sample = probe
        .sample(&INIT, Some(STATUS))
        .expect("probe must work on supported platforms");
    assert!(sample.rss_bytes > 0, "rss_bytes should be positive");
    assert!(sample.vm_bytes > 0, "vm_bytes should be positive");
}

#[test]
fn static_probe_returns_configured_values() {
    let probe = StaticMemoryProbe::new(1024, 2048);
    let sample = probe.sample().unwrap();
    assert_eq!(sample.rss_bytes, 1024);
    assert_eq!(sample.vm_bytes, 2048);
    assert_eq!(sample.swap_bytes, Some(0));
    assert_eq!(sample.threads, Some(42));
}

#[test]
fn static_probe_swap_bytes_can_be_overridden() {
    let probe = StaticMemoryProbe::new(1024, 2048).with_swap_bytes(9_999);
    let sample = probe.sample().unwrap();
    assert_eq!(sample.swap_bytes, Some(9_999));
    assert_eq!(sample.rss_bytes, 1024);
}

#[test]
fn unavailable_probe_returns_none() {
    assert!(StaticMemoryProbe::unavailable().sample().is_none());
    assert!(StaticMemoryProbe::unavailable()
        .with_swap_bytes(1)
        .sample()
        .is_none());
}

#[test]
fn linux_probe_reports_thread_count() {
    let sample = ProcessMemoryProbe::new().sample(&INIT, Some(STATUS)).unwrap();
    assert!(
        sample.threads.unwrap_or(0) >= 1,
        "linux should report >= 1 thread"
    );
}

#[test]
fn linux_probe_reports_swap_bytes() {
    let sample = ProcessMemoryProbe::new().sample(&INIT, Some(STATUS)).unwrap();
    assert!(
        sample.swap_bytes.is_some(),
        "linux should always expose VmSwap, even if the value is 0"
    );
}

#[test]
fn first_reading_is_made_under_the_guard() {
    let probe = ProcessMemoryProbe::new();
    assert!(probe.sample(&INIT, None).is_some());
    assert!(INIT.is_completed());

    let init = Once::new();
    assert!(!init.is_completed());
    let sample = probe.sample(&init, None).unwrap();
    assert!(init.is_completed());
    assert_eq!(sample.threads, None);
    assert_eq!(sample.swap_bytes, None);
}

#[test]
fn status_fields_are_read_from_their_lines() {
    let status = "Name:\tcat\nVmRSS:\t    1000 kB\nVmSwap:\t      12 kB\nThreads:\t71\nSigQ:\t0/1\n";
    assert_eq!(
        ProcessMemoryProbe::linux_status_fields(Some(status)),
        (Some(71), Some(12 * 1024))
    );
}

#[test]
fn status_fields_of_an_unreadable_file_are_none() {
    assert_eq!(ProcessMemoryProbe::linux_status_fields(None), (None, None));
    assert_eq!(
        ProcessMemoryProbe::linux_status_fields(Some("")),
        (None, None)
    );
}

#[test]
fn status_values_that_are_not_numbers_are_none() {
    let fields = ProcessMemoryProbe::linux_status_fields;
    assert_eq!(fields(Some("Threads:\tmany\n")), (None, None));
    assert_eq!(fields(Some("Threads:\t-1\n")), (None, None));
    assert_eq!(fields(Some("Threads:\n")), (None, None));
    assert_eq!(fields(Some("Threads:\t+7\n")), (Some(7), None));
    assert_eq!(fields(Some("Threads: 18446744073709551616")), (None, None));
    assert_eq!(
        fields(Some("Threads: 18446744073709551615")),
        (Some(u64::MAX), None)
    );
    assert_eq!(fields(Some("VmSwap:\t12\n")), (None, None));
    assert_eq!(fields(Some("VmSwap:\t12 MB\n")), (None, None));
    assert_eq!(fields(Some("VmSwap:12kB")), (None, Some(12_288)));
    assert_eq!(fields(Some(" Threads:\t3\n")), (None, None));
}

#[test]
fn last_line_of_a_field_counts() {
    let fields = ProcessMemoryProbe::linux_status_fields;
    assert_eq!(fields(Some("Threads: 1\nThreads: 2\n")), (Some(2), None));
    assert_eq!(fields(Some("Threads: 1\nThreads: x\n")), (None, None));
    assert_eq!(
        fields(Some("VmSwap: 1 kB\r\nVmSwap: 2 kB\r\n")),
        (None, Some(2048))
    );
}

#[test]
fn carriage_returns_end_lines_only_before_a_line_feed() {
    let fields = ProcessMemoryProbe::linux_status_fields;
    assert_eq!(fields(Some("Threads: 5\r\nVmSwap: 4 kB\r")), (Some(5), Some(4096)));
}

#[test]
fn swap_sizes_that_do_not_fit_are_recognised() {
    assert!(ProcessMemoryProbe::swap_fits("VmSwap: 18014398509481983 kB\n"));
    assert!(!ProcessMemoryProbe::swap_fits("VmSwap: 18014398509481984 kB\n"));
    assert!(ProcessMemoryProbe::swap_fits("VmSwap: 99999999999999999999999 kB\n"));
    assert_eq!(
        ProcessMemoryProbe::linux_status_fields(Some("VmSwap: 18014398509481983 kB\n")),
        (None, Some(18_446_744_073_709_550_592))
    );
}

#[test]
fn samples_need_the_process_sizes_only() {
    let probe = ProcessMemoryProbe::new();
    assert_eq!(probe.sample_from(None, Some("Threads: 3\n")), None);
    assert_eq!(probe.sample_from(None, Some("VmSwap: 18014398509481984 kB\n")), None);
    assert_eq!(
        probe.sample_from(Some((10, 20)), None),
        Some(MemorySample { rss_bytes: 10, vm_bytes: 20, threads: None, swap_bytes: None })
    );
    assert_eq!(
        probe.sample_from(Some((10, 20)), Some("VmSwap: 1 kB\nThreads: 3\n")),
        Some(MemorySample {
            rss_bytes: 10,
            vm_bytes: 20,
            threads: Some(3),
            swap_bytes: Some(1024),
        })
    );
}

#[test]
fn allocator_line_lists_what_is_set() {
    assert_eq!(allocator_environment(None, None, None), None);
    assert_eq!(
        allocator_environment(Some("1048576"), Some("2"), None),
        Some("MALLOC_MMAP_THRESHOLD_=1048576 MALLOC_ARENA_MAX=2".to_string())
    );
    assert_eq!(
        allocator_environment(None, None, Some("")),
        Some("MALLOC_TRIM_THRESHOLD_=".to_string())
    );
    assert_eq!(
        allocator_environment(Some("1"), Some("2"), Some("3")),
        Some("MALLOC_MMAP_THRESHOLD_=1 MALLOC_ARENA_MAX=2 MALLOC_TRIM_THRESHOLD_=3".to_string())
    );
}

use std::path::PathBuf;
use xearthlayer::platform::{
    app_data_dir, app_data_dir_in, cache_dir, cache_dir_in, config_dir, config_dir_in,
    ensure_directories, ensure_directories_in, AppDir, DirBase, DirectoryStep, Platform,
};

/// The base and the part below it, as one text.
fn shown(dir: &AppDir) -> String {
    match &dir.base {
        DirBase::Known(path) => format!("<{}> {}", path.display(), dir.relative),
        DirBase::Fallback(text) => format!("{} {}", text, dir.relative),
    }
}

fn some(path: &str) -> Option<PathBuf> {
    Some(PathBuf::from(path))
}

#[test]
fn named_directories_are_used() {
    let linux = Platform::Linux;
    assert_eq!(shown(&config_dir_in(linux, some("/c"))), "</c> xearthlayer");
    assert_eq!(shown(&cache_dir_in(linux, some("/k"), some("/c"))), "</k> xearthlayer");
    assert_eq!(shown(&app_data_dir_in(linux, some("/d"), some("/c"))), "</d> xearthlayer");
    let windows = Platform::Windows;
    assert_eq!(shown(&config_dir_in(windows, some("C:"))), "<C:> xearthlayer");
    assert_eq!(
        shown(&cache_dir_in(windows, some("K:"), some("C:"))),
        "<K:> xearthlayer\\cache"
    );
    assert_eq!(shown(&app_data_dir_in(windows, some("D:"), some("C:"))), "<D:> xearthlayer");
}

#[test]
fn linux_has_fixed_fallbacks() {
    let linux = Platform::Linux;
    assert_eq!(shown(&config_dir_in(linux, None)), ".config xearthlayer");
    assert_eq!(shown(&cache_dir_in(linux, None, some("/c"))), ".cache xearthlayer");
    assert_eq!(shown(&app_data_dir_in(linux, None, some("/c"))), ".local/share xearthlayer");
}

#[test]
fn windows_falls_back_to_the_configuration() {
    let windows = Platform::Windows;
    assert_eq!(shown(&cache_dir_in(windows, None, some("C:"))), "<C:> xearthlayer\\cache");
    assert_eq!(shown(&app_data_dir_in(windows, None, some("C:"))), "<C:> xearthlayer");
    let local = "C:\\Users\\AppData\\Local";
    assert_eq!(shown(&config_dir_in(windows, None)), format!("{} xearthlayer", local));
    assert_eq!(
        shown(&cache_dir_in(windows, None, None)),
        format!("{} xearthlayer\\cache", local)
    );
    assert_eq!(
        shown(&app_data_dir_in(windows, None, None)),
        format!("{} xearthlayer", local)
    );
}

#[test]
fn system_is_asked_for_each_directory() {
    let linux = Platform::Linux;
    assert_eq!(
        shown(&config_dir(linux)),
        shown(&config_dir_in(linux, dirs::config_dir()))
    );
    assert_eq!(
        shown(&cache_dir(linux)),
        shown(&cache_dir_in(linux, dirs::cache_dir(), None))
    );
    assert_eq!(
        shown(&app_data_dir(linux)),
        shown(&app_data_dir_in(linux, dirs::data_dir(), None))
    );
    assert_eq!(
        shown(&cache_dir(Platform::Windows)),
        shown(&cache_dir_in(Platform::Windows, dirs::cache_dir(), dirs::config_dir()))
    );
}

#[test]
fn directories_are_created_in_order() {
    for platform in [Platform::Linux, Platform::Windows] {
        let dirs: Vec<String> = ensure_directories(platform).dirs.iter().map(shown).collect();
        assert_eq!(
            dirs,
            vec![
                shown(&config_dir(platform)),
                shown(&cache_dir(platform)),
                shown(&app_data_dir(platform))
            ]
        );
    }
}

#[test]
fn every_directory_is_tried_once() {
    let mut creation = ensure_directories(Platform::Linux);
    let mut tried = Vec::new();
    while let Some(dir) = creation.next_dir().map(shown) {
        tried.push(dir);
        creation.observe(Ok(()));
    }
    assert_eq!(
        tried,
        vec![
            shown(&config_dir(Platform::Linux)),
            shown(&cache_dir(Platform::Linux)),
            shown(&app_data_dir(Platform::Linux))
        ]
    );
    assert!(matches!(creation.result(), Some(Ok(()))));
}

#[test]
fn first_failure_ends_the_creation() {
    let denied = || std::io::Error::from_raw_os_error(libc::EACCES);
    let missing = || std::io::Error::from_raw_os_error(libc::ENOENT);
    for failing in 0..3 {
        let mut creation = ensure_directories(Platform::Linux);
        for _ in 0..failing {
            creation.observe(Ok(()));
        }
        assert!(matches!(creation.step, DirectoryStep::Create(n) if n == failing));
        creation.observe(Err(denied()));
        assert!(creation.next_dir().is_none());
        creation.observe(Err(missing()));
        creation.observe(Ok(()));
        assert!(creation.next_dir().is_none());
        let error = creation.result().unwrap().unwrap_err();
        assert_eq!(error.raw_os_error(), Some(libc::EACCES));
    }
}

#[test]
fn unfinished_creation_has_no_result() {
    let mut creation = ensure_directories(Platform::Windows);
    creation.observe(Ok(()));
    assert!(creation.result().is_none());
}

#[test]
fn named_directories_are_created_where_they_are_named() {
    let creation = ensure_directories_in(
        Platform::Linux,
        some("/c"),
        some("/k"),
        some("/c"),
        some("/d"),
        some("/c"),
    );
    let dirs: Vec<String> = creation.dirs.iter().map(shown).collect();
    assert_eq!(dirs, vec!["</c> xearthlayer", "</k> xearthlayer", "</d> xearthlayer"]);
    assert!(matches!(creation.step, DirectoryStep::Create(0)));

    let creation =
        ensure_directories_in(Platform::Windows, some("C:"), None, some("C:"), None, None);
    let dirs: Vec<String> = creation.dirs.iter().map(shown).collect();
    assert_eq!(
        dirs,
        vec![
            "<C:> xearthlayer",
            "<C:> xearthlayer\\cache",
            "C:\\Users\\AppData\\Local xearthlayer"
        ]
    );
}

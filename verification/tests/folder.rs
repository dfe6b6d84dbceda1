use docsort::config::Config;
use docsort::folder::{
    canonicalize_or_fallback, check_watch_outside_root, is_within_dir, FolderError,
};

#[test]
fn within_dir_goes_by_components() {
    assert!(is_within_dir("/data/docs/bucket", "/data/docs"));
    assert!(is_within_dir("/data/docs", "/data/docs"));
    assert!(is_within_dir("/data/docs/", "/data/docs"));
    assert!(!is_within_dir("/data/docsbucket", "/data/docs"));
    assert!(!is_within_dir("/data/bucket", "/data/docs"));
    assert!(!is_within_dir("/data", "/data/docs"));
}

#[test]
fn fallback_keeps_the_given_path() {
    assert_eq!(canonicalize_or_fallback("./bucket", None), "./bucket");
    assert_eq!(
        canonicalize_or_fallback("./bucket", Some("/home/u/bucket".to_string())),
        "/home/u/bucket"
    );
}

#[test]
fn watch_inside_root_is_refused() {
    let cfg = Config::default();
    match check_watch_outside_root(&cfg, "/home/u/docs/bucket", "/home/u/docs") {
        Err(FolderError::WatchInsideRoot { watch_path, root_path }) => {
            assert_eq!(watch_path, "./bucket");
            assert_eq!(root_path, "./docs");
        }
        Ok(()) => panic!("layout should be refused"),
    }
    assert!(check_watch_outside_root(&cfg, "/home/u/docs", "/home/u/docs").is_err());
}

#[test]
fn separate_folders_are_accepted() {
    let cfg = Config::default();
    assert!(check_watch_outside_root(&cfg, "/home/u/bucket", "/home/u/docs").is_ok());
    // The root inside the watched folder is not what the check is about.
    assert!(check_watch_outside_root(&cfg, "/home/u", "/home/u/docs").is_ok());
}

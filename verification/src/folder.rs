//! The folder layout check: the watched folder must lie outside the folder
//! that documents are sorted into.
//!
//! If `watch_path` were inside `root_path`, moving files into `root_path`
//! would raise new notifications for the watched folder, in a loop. Watching
//! the very folder that is written to is refused for the same reason.

use vstd::prelude::*;

use crate::config::Config;
use crate::paths::{path_starts_with, spec_path_starts_with};

verus! {

/// Why a folder layout is refused.
#[derive(Debug, Clone)]
pub enum FolderError {
    /// `watch_path` is `root_path` or lies under it (the configured paths).
    WatchInsideRoot { watch_path: String, root_path: String },
}

/// The canonical form of `path` when it could be had, the path as given
/// otherwise (canonicalizing fails on some platforms and edge cases).
pub fn canonicalize_or_fallback(path: &str, canonical: Option<String>) -> (res: String)
    ensures
        res@ == (match canonical {
            Some(c) => c@,
            None => path@,
        }),
{
    match canonical {
        Some(c) => c,
        None => String::from_str(path),
    }
}

/// Whether `candidate` is `ancestor` or lies under it, component by
/// component.
pub fn is_within_dir(candidate: &str, ancestor: &str) -> (res: bool)
    ensures
        res == spec_path_starts_with(candidate@, ancestor@),
        candidate@ == ancestor@ ==> res,
{
    path_starts_with(candidate, ancestor)
}

/// Check the layout, given the absolute forms of the watched folder and of
/// the root folder.
pub fn check_watch_outside_root(cfg: &Config, watch_abs: &str, root_abs: &str) -> (res: Result<
    (),
    FolderError,
>)
    ensures
        res is Err <==> spec_path_starts_with(watch_abs@, root_abs@),
        watch_abs@ == root_abs@ ==> res is Err,
        res matches Err(FolderError::WatchInsideRoot { watch_path, root_path }) ==> watch_path@
            == cfg.watch_path@ && root_path@ == cfg.root_path@,
{
    if is_within_dir(watch_abs, root_abs) {
        Err(
            FolderError::WatchInsideRoot {
                watch_path: cfg.watch_path.clone(),
                root_path: cfg.root_path.clone(),
            },
        )
    } else {
        Ok(())
    }
}

} // verus!

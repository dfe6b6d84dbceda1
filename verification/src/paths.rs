//! What the library reads of a path, through `std::path::Path`.
//!
//! Paths are handled as strings. The component rules of `std::path` are not
//! restated: their results are named, and the wrappers below tie each call to
//! its name.

use vstd::prelude::*;

verus! {

/// What `Path::extension` returns for the path spelled by `path`: nothing when
/// the path has no file name, when the file name holds no `.`, or when its only
/// `.` is the leading one; otherwise the part of the file name after its last
/// `.`.
pub uninterp spec fn spec_path_extension(path: Seq<char>) -> Option<Seq<char>>;

/// What `Path::starts_with` returns: whether the components of `base` are a
/// prefix of those of `path`.
pub uninterp spec fn spec_path_starts_with(path: Seq<char>, base: Seq<char>) -> bool;

/// What `Path::parent` returns: the path without its last component, or
/// nothing when the path ends in a root or prefix, or is empty.
pub uninterp spec fn spec_path_parent(path: Seq<char>) -> Option<Seq<char>>;

/// Calls `Path::parent` on `path` and converts the parent to a `String`. The
/// contract claims only that the result is the named parent of the argument;
/// the parent of a `&str` path is a prefix of it, valid UTF-8, so the `to_str`
/// conversion never drops it.
#[verifier::external_body]
pub(crate) fn path_parent(path: &str) -> (res: Option<String>)
    ensures
        match res {
            Some(p) => spec_path_parent(path@) == Some(p@),
            None => spec_path_parent(path@) is None,
        },
{
    match std::path::Path::new(path).parent() {
        Some(parent) => match parent.to_str() {
            Some(p) => Some(p.to_string()),
            None => None,
        },
        None => None,
    }
}

/// Calls `Path::extension` on `path` and converts the extension to a `String`.
/// The contract claims only that the result is the named extension of the
/// argument; the extension of a `&str` path is always valid UTF-8, so the
/// `to_str` conversion never drops it.
#[verifier::external_body]
pub(crate) fn path_extension(path: &str) -> (res: Option<String>)
    ensures
        match res {
            Some(e) => spec_path_extension(path@) == Some(e@),
            None => spec_path_extension(path@) is None,
        },
{
    match std::path::Path::new(path).extension() {
        Some(ext) => match ext.to_str() {
            Some(e) => Some(e.to_string()),
            None => None,
        },
        None => None,
    }
}

/// Calls `Path::starts_with(path, base)`. The contract claims that the result
/// is the named relation of the two arguments, and that a path always starts
/// with itself (both sides yield the same components).
#[verifier::external_body]
pub(crate) fn path_starts_with(path: &str, base: &str) -> (res: bool)
    ensures
        res == spec_path_starts_with(path@, base@),
        path@ == base@ ==> res,
{
    std::path::Path::new(path).starts_with(base)
}

} // verus!

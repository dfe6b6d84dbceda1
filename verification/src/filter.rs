//! Which filesystem notifications are worth acting on.
//!
//! A notification is modelled by what the filter reads of it: its kind, and
//! for each path whether it names a regular file.

use vstd::prelude::*;

use crate::config::Config;
use crate::paths::{path_extension, spec_path_extension};
use crate::text::{
    ascii_lower,
    ascii_lower_seq,
    chars_of,
    eq_ignore_ascii_case,
    eq_ignore_ascii_case_spec,
    to_ascii_lowercase,
};

verus! {

/// Which metadata changed.
#[derive(Debug, Clone, Copy, PartialEq, Eq, Structural)]
pub enum MetadataKind {
    Any,
    AccessTime,
    WriteTime,
    Permissions,
    Ownership,
    Extended,
    Other,
}

/// How a file was modified.
#[derive(Debug, Clone, Copy, PartialEq, Eq, Structural)]
pub enum ModifyKind {
    Any,
    Data,
    Metadata(MetadataKind),
    Name,
    Other,
}

/// What was created.
#[derive(Debug, Clone, Copy, PartialEq, Eq, Structural)]
pub enum CreateKind {
    Any,
    File,
    Folder,
    Other,
}

/// What kind of change a notification reports.
#[derive(Debug, Clone, Copy, PartialEq, Eq, Structural)]
pub enum EventKind {
    Any,
    Access,
    Create(CreateKind),
    Modify(ModifyKind),
    Remove,
    Other,
}

/// A path of a notification, and whether it named a regular file when the
/// notification was handled.
#[derive(Debug, Clone)]
pub struct EventPath {
    pub path: String,
    pub is_file: bool,
}

/// A filesystem notification.
#[derive(Debug, Clone)]
pub struct FileEvent {
    pub kind: EventKind,
    pub paths: Vec<EventPath>,
}

/// Whether `path` has an extension that equals, ignoring ASCII case, one of
/// `allowed`.
pub open spec fn has_supported_extension(allowed: Seq<Seq<char>>, path: Seq<char>) -> bool {
    match spec_path_extension(path) {
        Some(ext) => is_allowed_extension(allowed, ext),
        None => false,
    }
}

/// Whether `ext` equals, ignoring ASCII case, one of `allowed`.
pub open spec fn is_allowed_extension(allowed: Seq<Seq<char>>, ext: Seq<char>) -> bool {
    exists|i: int| 0 <= i < allowed.len() && #[trigger] eq_ignore_ascii_case_spec(allowed[i], ext)
}

/// Whether one of `paths` names a regular file with a supported extension.
pub open spec fn has_supported_file(allowed: Seq<Seq<char>>, paths: Seq<EventPath>) -> bool {
    exists|i: int|
        0 <= i < paths.len() && #[trigger] paths[i].is_file && has_supported_extension(
            allowed,
            paths[i].path@,
        )
}

/// Whether a notification reports an extended-metadata change of at least one
/// regular file with a supported extension.
pub open spec fn is_relevant_event(allowed: Seq<Seq<char>>, event: FileEvent) -> bool {
    &&& event.kind == EventKind::Modify(ModifyKind::Metadata(MetadataKind::Extended))
    &&& has_supported_file(allowed, event.paths@)
}

/// Whether a kind of change reports a new file or a modified one: any
/// creation, a modification of unknown kind or of the contents, a rename (a
/// file moved or renamed into place; the old name of a moved file no longer
/// names a regular file), or a change of extended metadata.
pub open spec fn is_new_or_modified(kind: EventKind) -> bool {
    match kind {
        EventKind::Create(_) => true,
        EventKind::Modify(ModifyKind::Any) => true,
        EventKind::Modify(ModifyKind::Data) => true,
        EventKind::Modify(ModifyKind::Name) => true,
        EventKind::Modify(ModifyKind::Metadata(MetadataKind::Extended)) => true,
        _ => false,
    }
}

/// Whether a notification reports a new or modified regular file with a
/// supported extension: such a file is picked up for processing.
pub open spec fn is_new_or_modified_file_event(allowed: Seq<Seq<char>>, event: FileEvent) -> bool {
    &&& is_new_or_modified(event.kind)
    &&& has_supported_file(allowed, event.paths@)
}

/// Comparing with a lower-cased sequence is comparing ignoring case.
proof fn lemma_eq_ignore_case_lowered(a: Seq<char>, b: Seq<char>)
    ensures
        eq_ignore_ascii_case_spec(a, ascii_lower_seq(b)) == eq_ignore_ascii_case_spec(a, b),
{
    if a.len() == b.len() {
        assert forall|i: int| 0 <= i < a.len() implies ascii_lower(ascii_lower_seq(b)[i])
            == ascii_lower(b[i]) by {}
    }
}

/// Whether `ext` is one of the configured extensions, compared without
/// regard to ASCII case. The extension is lower-cased first.
pub fn extension_is_allowed(cfg: &Config, ext: &str) -> (res: bool)
    ensures
        res == is_allowed_extension(cfg.extensions(), ext@),
{
    let lowered = to_ascii_lowercase(ext);
    let n = cfg.allowed_file_extensions.len();
    let mut i: usize = 0;
    while i < n
        invariant
            n == cfg.allowed_file_extensions@.len(),
            i <= n,
            lowered@ == ascii_lower_seq(ext@),
            forall|j: int|
                0 <= j < i ==> !#[trigger] eq_ignore_ascii_case_spec(cfg.extensions()[j], ext@),
        decreases n - i,
    {
        let allowed = chars_of(cfg.allowed_file_extensions[i].as_str());
        proof {
            lemma_eq_ignore_case_lowered(cfg.extensions()[i as int], ext@);
        }
        if eq_ignore_ascii_case(allowed.as_slice(), lowered.as_slice()) {
            assert(eq_ignore_ascii_case_spec(cfg.extensions()[i as int], ext@));
            return true;
        }
        i = i + 1;
    }
    false
}

/// Whether the extension of `path` is one of the configured extensions,
/// compared without regard to ASCII case.
pub fn is_supported_extension(cfg: &Config, path: &str) -> (res: bool)
    ensures
        res == has_supported_extension(cfg.extensions(), path@),
{
    match path_extension(path) {
        Some(ext) => extension_is_allowed(cfg, ext.as_str()),
        None => false,
    }
}

/// Whether one of `paths` names a regular file with a supported extension.
pub fn has_supported_file_path(cfg: &Config, paths: &Vec<EventPath>) -> (res: bool)
    ensures
        res == has_supported_file(cfg.extensions(), paths@),
{
    let n = paths.len();
    let mut i: usize = 0;
    while i < n
        invariant
            n == paths@.len(),
            i <= n,
            forall|j: int|
                0 <= j < i ==> !(#[trigger] paths@[j].is_file && has_supported_extension(
                    cfg.extensions(),
                    paths@[j].path@,
                )),
        decreases n - i,
    {
        if paths[i].is_file && is_supported_extension(cfg, paths[i].path.as_str()) {
            assert(paths@[i as int].is_file && has_supported_extension(
                cfg.extensions(),
                paths@[i as int].path@,
            ));
            return true;
        }
        i = i + 1;
    }
    false
}

/// Whether a kind of change reports a new or modified file.
pub fn reports_new_or_modified(kind: EventKind) -> (res: bool)
    ensures
        res == is_new_or_modified(kind),
{
    match kind {
        EventKind::Create(_) => true,
        EventKind::Modify(ModifyKind::Any) => true,
        EventKind::Modify(ModifyKind::Data) => true,
        EventKind::Modify(ModifyKind::Name) => true,
        EventKind::Modify(ModifyKind::Metadata(MetadataKind::Extended)) => true,
        _ => false,
    }
}

/// Keep the notification if it reports a new or modified regular file with a
/// supported extension; drop it otherwise.
pub fn filter_new_or_modified_file_event(cfg: &Config, event: FileEvent) -> (res: Option<
    FileEvent,
>)
    ensures
        res is Some <==> is_new_or_modified_file_event(cfg.extensions(), event),
        res matches Some(e) ==> e == event,
{
    if reports_new_or_modified(event.kind) && has_supported_file_path(cfg, &event.paths) {
        Some(event)
    } else {
        None
    }
}

/// Keep the notification if it reports an extended-metadata change of a
/// regular file with a supported extension; drop it otherwise.
pub fn filter_supported_modify_metadata_extended_file_event(
    cfg: &Config,
    event: FileEvent,
) -> (res: Option<FileEvent>)
    ensures
        res is Some <==> is_relevant_event(cfg.extensions(), event),
        res matches Some(e) ==> e == event,
{
    match event.kind {
        EventKind::Modify(ModifyKind::Metadata(MetadataKind::Extended)) => {
            if has_supported_file_path(cfg, &event.paths) {
                Some(event)
            } else {
                None
            }
        },
        _ => None,
    }
}

/// Whether an extension is handled does not depend on the ASCII case of the
/// extension: lower-casing it first, as the check does, changes nothing.
pub proof fn law_extension_match_ignores_case(allowed: Seq<Seq<char>>, ext: Seq<char>)
    ensures
        is_allowed_extension(allowed, ascii_lower_seq(ext)) == is_allowed_extension(allowed, ext),
{
    assert forall|i: int| 0 <= i < allowed.len() implies eq_ignore_ascii_case_spec(
        allowed[i],
        ascii_lower_seq(ext),
    ) == eq_ignore_ascii_case_spec(allowed[i], ext) by {
        lemma_eq_ignore_case_lowered(allowed[i], ext);
    }
    if is_allowed_extension(allowed, ext) {
        let i = choose|i: int|
            0 <= i < allowed.len() && #[trigger] eq_ignore_ascii_case_spec(allowed[i], ext);
        lemma_eq_ignore_case_lowered(allowed[i], ext);
    }
    if is_allowed_extension(allowed, ascii_lower_seq(ext)) {
        let i = choose|i: int|
            0 <= i < allowed.len() && #[trigger] eq_ignore_ascii_case_spec(
                allowed[i],
                ascii_lower_seq(ext),
            );
        lemma_eq_ignore_case_lowered(allowed[i], ext);
    }
}

/// Every notification the extended-metadata filter keeps is one of a new or
/// modified file; in particular, the creation, content change or renaming
/// into place of a regular file with a supported extension is picked up.
pub proof fn law_new_or_modified_covers_relevant(allowed: Seq<Seq<char>>, event: FileEvent)
    ensures
        is_relevant_event(allowed, event) ==> is_new_or_modified_file_event(allowed, event),
        (event.kind is Create || event.kind == EventKind::Modify(ModifyKind::Data) || event.kind
            == EventKind::Modify(ModifyKind::Name)) ==> (
        is_new_or_modified_file_event(allowed, event) <==> has_supported_file(
            allowed,
            event.paths@,
        )),
{
}

/// The extended-metadata filter keeps nothing but extended-metadata changes.
pub proof fn law_relevant_only_extended_metadata(allowed: Seq<Seq<char>>, event: FileEvent)
    ensures
        is_relevant_event(allowed, event) ==> event.kind == EventKind::Modify(
            ModifyKind::Metadata(MetadataKind::Extended),
        ),
{
}

/// What counts as a new or modified file: every creation, a change of the
/// contents or of unknown kind, a rename into place and the extended-metadata
/// change do; of the metadata changes only the extended one does (reading a
/// file, touching its times, permissions or owner does not), and accesses,
/// removals and unclassified events never do.
pub proof fn law_new_or_modified_kinds(c: CreateKind, m: MetadataKind)
    ensures
        is_new_or_modified(EventKind::Create(c)),
        is_new_or_modified(EventKind::Modify(ModifyKind::Data)),
        is_new_or_modified(EventKind::Modify(ModifyKind::Any)),
        is_new_or_modified(EventKind::Modify(ModifyKind::Name)),
        is_new_or_modified(EventKind::Modify(ModifyKind::Metadata(m))) <==> m
            == MetadataKind::Extended,
        !is_new_or_modified(EventKind::Modify(ModifyKind::Other)),
        !is_new_or_modified(EventKind::Access),
        !is_new_or_modified(EventKind::Remove),
        !is_new_or_modified(EventKind::Any),
        !is_new_or_modified(EventKind::Other),
{
}

} // verus!

use docsort::config::Config;
use docsort::filter::{
    extension_is_allowed, filter_new_or_modified_file_event,
    filter_supported_modify_metadata_extended_file_event, has_supported_file_path,
    is_supported_extension, reports_new_or_modified, CreateKind, EventKind, EventPath, FileEvent,
    MetadataKind, ModifyKind,
};

fn extended() -> EventKind {
    EventKind::Modify(ModifyKind::Metadata(MetadataKind::Extended))
}

fn event(kind: EventKind, paths: &[(&str, bool)]) -> FileEvent {
    FileEvent {
        kind,
        paths: paths
            .iter()
            .map(|(p, f)| EventPath { path: p.to_string(), is_file: *f })
            .collect(),
    }
}

#[test]
fn supported_extensions_ignore_case() {
    let cfg = Config::default();
    assert!(is_supported_extension(&cfg, "bucket/report.pdf"));
    assert!(is_supported_extension(&cfg, "bucket/Report.PDF"));
    assert!(is_supported_extension(&cfg, "sheet.XlSx"));
    assert!(is_supported_extension(&cfg, "/tmp/a.b/letter.docx"));
}

#[test]
fn unsupported_or_missing_extensions() {
    let cfg = Config::default();
    assert!(!is_supported_extension(&cfg, "notes.txt"));
    assert!(!is_supported_extension(&cfg, "README"));
    assert!(!is_supported_extension(&cfg, ".pdf"));
    assert!(!is_supported_extension(&cfg, "archive.pdf.zip"));
    assert!(!is_supported_extension(&cfg, "file.pd"));
}

#[test]
fn configured_extensions_compare_without_case() {
    let mut cfg = Config::default();
    cfg.allowed_file_extensions = vec!["TXT".to_string()];
    assert!(is_supported_extension(&cfg, "a.txt"));
    assert!(!is_supported_extension(&cfg, "a.pdf"));
    cfg.allowed_file_extensions = vec![];
    assert!(!is_supported_extension(&cfg, "a.txt"));
}

#[test]
fn extended_metadata_change_of_supported_file_is_kept() {
    let cfg = Config::default();
    let ev = event(extended(), &[("x.txt", true), ("bucket/a.pdf", true)]);
    let kept = filter_supported_modify_metadata_extended_file_event(&cfg, ev)
        .expect("a relevant event");
    assert_eq!(kept.paths.len(), 2);
    assert_eq!(kept.paths[1].path, "bucket/a.pdf");
}

#[test]
fn other_kinds_are_dropped() {
    let cfg = Config::default();
    for kind in [
        EventKind::Create(CreateKind::File),
        EventKind::Modify(ModifyKind::Data),
        EventKind::Modify(ModifyKind::Metadata(MetadataKind::WriteTime)),
        EventKind::Modify(ModifyKind::Any),
        EventKind::Remove,
        EventKind::Any,
    ] {
        let ev = event(kind, &[("a.pdf", true)]);
        assert!(filter_supported_modify_metadata_extended_file_event(&cfg, ev).is_none());
    }
}

#[test]
fn directories_and_unsupported_files_are_dropped() {
    let cfg = Config::default();
    let ev = event(extended(), &[("a.pdf", false), ("b.txt", true)]);
    assert!(filter_supported_modify_metadata_extended_file_event(&cfg, ev).is_none());
    let ev = event(extended(), &[]);
    assert!(filter_supported_modify_metadata_extended_file_event(&cfg, ev).is_none());
}

#[test]
fn allowed_extension_given_the_extension() {
    let cfg = Config::default();
    assert!(extension_is_allowed(&cfg, "PDF"));
    assert!(extension_is_allowed(&cfg, "xls"));
    assert!(!extension_is_allowed(&cfg, "pdf "));
    assert!(!extension_is_allowed(&cfg, ""));
}

#[test]
fn supported_file_among_paths() {
    let cfg = Config::default();
    let ev = event(EventKind::Any, &[("a.txt", true), ("b.docx", false)]);
    assert!(!has_supported_file_path(&cfg, &ev.paths));
    let ev = event(EventKind::Any, &[("a.txt", true), ("b.docx", true)]);
    assert!(has_supported_file_path(&cfg, &ev.paths));
}

#[test]
fn new_and_modified_kinds() {
    assert!(reports_new_or_modified(EventKind::Create(CreateKind::File)));
    assert!(reports_new_or_modified(EventKind::Create(CreateKind::Any)));
    assert!(reports_new_or_modified(EventKind::Modify(ModifyKind::Any)));
    assert!(reports_new_or_modified(EventKind::Modify(ModifyKind::Data)));
    assert!(reports_new_or_modified(extended()));
    assert!(reports_new_or_modified(EventKind::Modify(ModifyKind::Name)));
    assert!(!reports_new_or_modified(EventKind::Modify(ModifyKind::Metadata(
        MetadataKind::Permissions
    ))));
    assert!(!reports_new_or_modified(EventKind::Remove));
    assert!(!reports_new_or_modified(EventKind::Access));
}

#[test]
fn new_or_modified_documents_are_picked_up() {
    let cfg = Config::default();
    let created = event(EventKind::Create(CreateKind::File), &[("bucket/new.pdf", true)]);
    assert!(filter_new_or_modified_file_event(&cfg, created.clone()).is_some());
    // The narrow filter only keeps extended-metadata changes.
    assert!(filter_supported_modify_metadata_extended_file_event(&cfg, created).is_none());
    let written = event(EventKind::Modify(ModifyKind::Data), &[("bucket/a.XLSX", true)]);
    assert!(filter_new_or_modified_file_event(&cfg, written).is_some());
    let folder = event(EventKind::Create(CreateKind::Folder), &[("bucket/dir.pdf", false)]);
    assert!(filter_new_or_modified_file_event(&cfg, folder).is_none());
    let moved_in = event(
        EventKind::Modify(ModifyKind::Name),
        &[("elsewhere/a.pdf", false), ("bucket/a.pdf", true)],
    );
    assert!(filter_new_or_modified_file_event(&cfg, moved_in).is_some());
    let moved_out = event(EventKind::Modify(ModifyKind::Name), &[("bucket/a.pdf", false)]);
    assert!(filter_new_or_modified_file_event(&cfg, moved_out).is_none());
    let removed = event(EventKind::Remove, &[("bucket/a.pdf", true)]);
    assert!(filter_new_or_modified_file_event(&cfg, removed).is_none());
}

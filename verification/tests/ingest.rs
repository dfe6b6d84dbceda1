use docsort::config::Config;
use docsort::filter::{CreateKind, EventKind, EventPath, FileEvent, MetadataKind, ModifyKind};
use docsort::ingest::{ingest_message, tasks_for_event, IngestStep, RunnerMsg, TaskIds};
use docsort::task::TaskKind;

fn relevant_event() -> FileEvent {
    FileEvent {
        kind: EventKind::Modify(ModifyKind::Metadata(MetadataKind::Extended)),
        paths: vec![
            EventPath { path: "bucket/a.pdf".to_string(), is_file: true },
            EventPath { path: "bucket/b.txt".to_string(), is_file: true },
        ],
    }
}

#[test]
fn task_ids_count_from_one_and_wrap() {
    let mut ids = TaskIds::new();
    assert_eq!(ids.fetch_next(), 1);
    assert_eq!(ids.fetch_next(), 2);
    assert_eq!(ids.fetch_next(), 3);
}

#[test]
fn one_task_per_path_with_a_shared_id() {
    let tasks = tasks_for_event(&relevant_event(), 42, 1234);
    assert_eq!(tasks.len(), 2);
    for (t, p) in tasks.iter().zip(["bucket/a.pdf", "bucket/b.txt"]) {
        assert_eq!(t.id, 42);
        assert_eq!(t.created_at, 1234);
        let TaskKind::FileChanged { path } = &t.kind;
        assert_eq!(path, p);
    }
}

#[test]
fn relevant_notification_becomes_tasks() {
    let cfg = Config::default();
    let mut ids = TaskIds::new();
    match ingest_message(&cfg, RunnerMsg::Notify(Ok(relevant_event())), &mut ids, 9) {
        IngestStep::Enqueue(tasks) => {
            assert_eq!(tasks.len(), 2);
            assert!(tasks.iter().all(|t| t.id == 1 && t.created_at == 9));
        }
        other => panic!("unexpected step {other:?}"),
    }
    match ingest_message(&cfg, RunnerMsg::Notify(Ok(relevant_event())), &mut ids, 10) {
        IngestStep::Enqueue(tasks) => assert!(tasks.iter().all(|t| t.id == 2)),
        other => panic!("unexpected step {other:?}"),
    }
}

#[test]
fn irrelevant_notifications_and_errors_are_ignored() {
    let cfg = Config::default();
    let mut ids = TaskIds::new();
    let mut ev = relevant_event();
    ev.kind = EventKind::Remove;
    assert!(matches!(
        ingest_message(&cfg, RunnerMsg::Notify(Ok(ev)), &mut ids, 1),
        IngestStep::Ignore
    ));
    assert!(matches!(
        ingest_message(&cfg, RunnerMsg::Notify(Err("watch failed".to_string())), &mut ids, 1),
        IngestStep::Ignore
    ));
    // No id was used up.
    assert_eq!(ids.fetch_next(), 1);
}

#[test]
fn shutdown_is_passed_on() {
    let cfg = Config::default();
    let mut ids = TaskIds::new();
    assert!(matches!(
        ingest_message(&cfg, RunnerMsg::Shutdown, &mut ids, 1),
        IngestStep::Shutdown
    ));
}

#[test]
fn a_new_document_becomes_a_task() {
    let cfg = Config::default();
    let mut ids = TaskIds::new();
    let ev = FileEvent {
        kind: EventKind::Create(CreateKind::File),
        paths: vec![EventPath { path: "bucket/new.pdf".to_string(), is_file: true }],
    };
    match ingest_message(&cfg, RunnerMsg::Notify(Ok(ev)), &mut ids, 3) {
        IngestStep::Enqueue(tasks) => {
            assert_eq!(tasks.len(), 1);
            let TaskKind::FileChanged { path } = &tasks[0].kind;
            assert_eq!(path, "bucket/new.pdf");
            assert_eq!(tasks[0].id, 1);
        }
        other => panic!("unexpected step {other:?}"),
    }
}

#[test]
fn a_new_folder_is_not_a_task() {
    let cfg = Config::default();
    let mut ids = TaskIds::new();
    let ev = FileEvent {
        kind: EventKind::Create(CreateKind::Folder),
        paths: vec![EventPath { path: "bucket/dir".to_string(), is_file: false }],
    };
    assert!(matches!(
        ingest_message(&cfg, RunnerMsg::Notify(Ok(ev)), &mut ids, 3),
        IngestStep::Ignore
    ));
}

use downloader::event::display_message;
use downloader::event::TransferError;
use downloader::event::TransferEvent;
use downloader::reducer::Registry;
use downloader::state::DownloadState;
use downloader::task::dest_path_of;
use downloader::task::Task;
use downloader::task::TaskAction;
use downloader::task::TaskInput;

#[test]
fn destination_path_is_last_segment() {
    assert_eq!(dest_path_of("http://x/file.bin"), "file.bin");
    assert_eq!(dest_path_of("http://host/a/b/c.txt"), "c.txt");
    assert_eq!(dest_path_of("plain"), "plain");
    assert_eq!(dest_path_of("http://host/dir/"), "");
    assert_eq!(dest_path_of(""), "");
}

#[test]
fn task_success_flow() {
    let mut task = Task::new(0, String::from("http://x/file.bin"));
    assert_eq!(task.dest_path, "file.bin");
    assert!(matches!(task.next_action(), TaskAction::IssueRequest));

    let r = task.step(TaskInput::Response { outcome: Ok(Some(1024)) });
    assert!(r.is_none());
    assert!(matches!(task.next_action(), TaskAction::CheckDestination));

    let r = task.step(TaskInput::DestinationExists { exists: false });
    assert!(r.is_none());
    assert!(matches!(task.next_action(), TaskAction::CreateFile));

    let r = task.step(TaskInput::FileCreated { outcome: Ok(()) });
    assert!(matches!(r, Some(TransferEvent::Started { id: 0, total_size: Some(1024) })));
    assert!(matches!(task.next_action(), TaskAction::ReadChunk));

    let r = task.step(TaskInput::ChunkRead { outcome: Ok(Some(512)) });
    assert!(r.is_none());
    assert!(matches!(task.next_action(), TaskAction::WriteChunk));

    let r = task.step(TaskInput::ChunkWritten { outcome: Ok(()) });
    assert!(matches!(r, Some(TransferEvent::Progress { id: 0, chunk_bytes: 512 })));
    assert!(matches!(task.next_action(), TaskAction::ReadChunk));

    let r = task.step(TaskInput::ChunkRead { outcome: Ok(None) });
    assert!(matches!(r, Some(TransferEvent::Finished { id: 0 })));
    assert!(matches!(task.next_action(), TaskAction::Stop));
    assert!(!task.accepts(&TaskInput::ChunkRead { outcome: Ok(None) }));
}

#[test]
fn task_fails_on_connection_error() {
    let mut task = Task::new(3, String::from("http://x/file.bin"));
    let r = task.step(TaskInput::Response {
        outcome: Err(String::from("connection refused")),
    });
    match r {
        Some(TransferEvent::Failed { id, message }) => {
            assert_eq!(id, 3);
            assert_eq!(message, "connection refused");
        }
        _ => panic!("expected a failure event"),
    }
    assert!(matches!(task.next_action(), TaskAction::Stop));
}

#[test]
fn task_fails_on_preexisting_destination() {
    let mut reg = Registry::new();
    let url = String::from("http://x/file.bin");
    let id = reg.start(url.clone());
    let mut task = Task::new(id, url);
    let r = task.step(TaskInput::Response { outcome: Ok(Some(9)) });
    assert!(r.is_none());
    let r = task.step(TaskInput::DestinationExists { exists: true });
    let event = r.expect("expected a failure event");
    match &event {
        TransferEvent::Failed { id: eid, message } => {
            assert_eq!(*eid, id);
            assert_eq!(message, "File already exists: file.bin");
        }
        _ => panic!("expected a failure event"),
    }
    // The task never emitted Started and does no further work; the entry
    // goes straight from Starting to Error.
    assert!(matches!(task.next_action(), TaskAction::Stop));
    assert!(matches!(reg.snapshot()[id].state, DownloadState::Starting));
    assert!(reg.check_apply(&event));
    reg.apply(event);
    match &reg.snapshot()[id].state {
        DownloadState::Error { message } => {
            assert_eq!(message, "File already exists: file.bin");
        }
        _ => panic!("expected the error state"),
    }
}

#[test]
fn task_fails_on_create_error() {
    let mut task = Task::new(1, String::from("http://x/file.bin"));
    task.step(TaskInput::Response { outcome: Ok(None) });
    task.step(TaskInput::DestinationExists { exists: false });
    let r = task.step(TaskInput::FileCreated {
        outcome: Err(String::from("permission denied")),
    });
    match r {
        Some(TransferEvent::Failed { id, message }) => {
            assert_eq!(id, 1);
            assert_eq!(message, "permission denied");
        }
        _ => panic!("expected a failure event"),
    }
    assert!(matches!(task.next_action(), TaskAction::Stop));
}

#[test]
fn task_fails_on_mid_stream_drop() {
    let mut task = Task::new(0, String::from("http://x/file.bin"));
    task.step(TaskInput::Response { outcome: Ok(Some(1024)) });
    task.step(TaskInput::DestinationExists { exists: false });
    task.step(TaskInput::FileCreated { outcome: Ok(()) });
    task.step(TaskInput::ChunkRead { outcome: Ok(Some(50)) });
    task.step(TaskInput::ChunkWritten { outcome: Ok(()) });
    let r = task.step(TaskInput::ChunkRead {
        outcome: Err(String::from("connection reset by peer")),
    });
    assert!(matches!(r, Some(TransferEvent::Failed { .. })));
    assert!(matches!(task.next_action(), TaskAction::Stop));
}

#[test]
fn task_fails_on_write_error() {
    let mut task = Task::new(0, String::from("http://x/file.bin"));
    task.step(TaskInput::Response { outcome: Ok(None) });
    task.step(TaskInput::DestinationExists { exists: false });
    task.step(TaskInput::FileCreated { outcome: Ok(()) });
    task.step(TaskInput::ChunkRead { outcome: Ok(Some(8)) });
    let r = task.step(TaskInput::ChunkWritten {
        outcome: Err(String::from("no space left on device")),
    });
    match r {
        Some(TransferEvent::Failed { message, .. }) => {
            assert_eq!(message, "no space left on device");
        }
        _ => panic!("expected a failure event"),
    }
}

#[test]
fn error_messages_render_by_kind() {
    let network = TransferError::NetworkError { message: String::from("timed out") };
    assert_eq!(network.message(), "timed out");
    let conflict = TransferError::DestinationConflict { path: String::from("file.bin") };
    assert_eq!(conflict.message(), "File already exists: file.bin");
    let fs = TransferError::FilesystemError { message: String::from("disk full") };
    assert_eq!(fs.message(), "disk full");
}

#[test]
fn display_message_normalizes_newlines() {
    assert_eq!(display_message("error: one\ntwo\nthree"), "error: one two three");
    assert_eq!(display_message("unchanged text"), "unchanged text");
    assert_eq!(display_message("\n"), " ");
    assert_eq!(display_message(""), "");
}

#[test]
fn event_id_addresses_entry() {
    assert_eq!(TransferEvent::Started { id: 4, total_size: None }.id(), 4);
    assert_eq!(TransferEvent::Progress { id: 5, chunk_bytes: 1 }.id(), 5);
    assert_eq!(TransferEvent::Finished { id: 6 }.id(), 6);
    assert_eq!(TransferEvent::Failed { id: 7, message: String::from("m") }.id(), 7);
}

#[test]
fn scenario_task_drives_registry_to_done() {
    // One download, driven end to end: the task's events, applied in
    // order, walk the entry through the documented transitions.
    let mut reg = Registry::new();
    let url = String::from("http://x/file.bin");
    let id = reg.start(url.clone());
    let mut task = Task::new(id, url);

    let script = vec![
        TaskInput::Response { outcome: Ok(Some(1024)) },
        TaskInput::DestinationExists { exists: false },
        TaskInput::FileCreated { outcome: Ok(()) },
        TaskInput::ChunkRead { outcome: Ok(Some(512)) },
        TaskInput::ChunkWritten { outcome: Ok(()) },
        TaskInput::ChunkRead { outcome: Ok(Some(512)) },
        TaskInput::ChunkWritten { outcome: Ok(()) },
        TaskInput::ChunkRead { outcome: Ok(None) },
    ];
    let mut observed: Vec<(u64, Option<u64>)> = Vec::new();
    for input in script {
        assert!(task.accepts(&input));
        if let Some(event) = task.step(input) {
            assert!(reg.check_apply(&event));
            reg.apply(event);
            if let DownloadState::Downloading { downloaded_bytes, total_size } =
                reg.snapshot()[id].state
            {
                observed.push((downloaded_bytes, total_size));
            }
        }
    }
    assert_eq!(
        observed,
        vec![(0, Some(1024)), (512, Some(1024)), (1024, Some(1024))]
    );
    assert!(matches!(reg.snapshot()[id].state, DownloadState::Done { completed_size: 1024 }));
}

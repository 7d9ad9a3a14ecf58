use cloudreve::download::{
    check_local, Action, Connection, DownloadTask, Event, Fault, InventoryReply, LocalFileInfo,
    Outcome, RemoteFile, SkipReason, Step,
};

type TaskStep = Option<Step<String, Vec<String>, u32>>;
type TaskEvent = Event<String, Vec<String>, u32>;

const DRIVE: &str = "67e55044-10b1-426f-9247-bb680e5fe0c8";
const HYDRATED: LocalFileInfo = LocalFileInfo {
    exists: true,
    is_directory: false,
    placeholder: true,
    partial_on_disk: false,
};

fn rate(bytes: u64, nanos: u128) -> u64 {
    (bytes as f64 / (nanos as f64 / 1e9)) as u64
}

fn task(drive: &str, atomic_replace: bool) -> DownloadTask<u32> {
    DownloadTask::new(
        "t1".to_string(),
        drive.to_string(),
        Some("/sync/a.txt".to_string()),
        atomic_replace,
    )
}

/// The events up to the first chunk of a file of 7 bytes.
fn opening() -> Vec<TaskEvent> {
    vec![
        Event::Local(Some(HYDRATED)),
        Event::Inventory(InventoryReply::Present),
        Event::Uri(Some("cloudreve://my/a.txt".to_string())),
        Event::Info(Some(RemoteFile {
            size: 7,
            primary_entity: Some("e1".to_string()),
            description: 31,
        })),
        Event::Urls(Some(vec!["https://s/1".to_string(), "https://s/2".to_string()])),
        Event::Connected(Connection::Status(200)),
        Event::Created(true),
    ]
}

fn chunk(len: u64) -> TaskEvent {
    Event::Chunk { cancelled: false, read: Some(len) }
}

fn written(since_report: u128) -> TaskEvent {
    Event::Written { ok: true, since_report }
}

/// Runs the events and gives the last step; each of them has to be what the task waits for.
fn last(task: &mut DownloadTask<u32>, events: Vec<TaskEvent>) -> Step<String, Vec<String>, u32> {
    let mut step: TaskStep = None;
    for event in events {
        step = task.step(event);
        assert!(step.is_some());
    }
    step.unwrap()
}

fn fault(step: Step<String, Vec<String>, u32>) -> (Fault<String>, bool) {
    assert!(!step.report);
    match step.action {
        Action::Finish(Outcome::Failed(fault)) => (fault, step.remove_temp),
        other => panic!("{:?}", other),
    }
}

#[test]
fn only_hydrated_placeholders_are_downloaded_to() {
    assert_eq!(check_local(&HYDRATED), None);
    let cases = [
        (LocalFileInfo { exists: false, is_directory: true, ..HYDRATED }, SkipReason::Missing),
        (
            LocalFileInfo { is_directory: true, placeholder: false, ..HYDRATED },
            SkipReason::Directory,
        ),
        (
            LocalFileInfo { placeholder: false, partial_on_disk: true, ..HYDRATED },
            SkipReason::NotPlaceholder,
        ),
        (LocalFileInfo { partial_on_disk: true, ..HYDRATED }, SkipReason::NotHydrated),
    ];
    for (info, reason) in cases {
        assert_eq!(check_local(&info), Some(reason));
        let mut task = task(DRIVE, false);
        let step = task.step(Event::Local(Some(info))).unwrap();
        assert!(!step.report && !step.remove_temp);
        match step.action {
            Action::Finish(Outcome::Skipped(given)) => assert_eq!(given, reason),
            other => panic!("{:?}", other),
        }
        assert!(task.step(Event::Local(Some(HYDRATED))).is_none());
    }
}

#[test]
fn a_download_goes_through_its_steps() {
    let mut task = task(DRIVE, false);
    let mut events = opening().into_iter();
    let mut step = || task.step(events.next().unwrap()).unwrap();
    assert!(matches!(step().action, Action::QueryInventory(path) if path == "/sync/a.txt"));
    assert!(matches!(step().action, Action::ResolveUri));
    assert!(matches!(step().action, Action::FetchInfo(uri) if uri == "cloudreve://my/a.txt"));
    match step().action {
        Action::FetchUrl(request) => {
            assert_eq!(request.uris, vec!["cloudreve://my/a.txt"]);
            assert_eq!(request.entity.as_deref(), Some("e1"));
        }
        other => panic!("{:?}", other),
    }
    let connect = step();
    assert!(connect.remove_temp);
    match connect.action {
        Action::Connect { url, temp_name } => {
            assert_eq!(url, "https://s/1");
            assert_eq!(temp_name, "cloudreve_download_t1");
        }
        other => panic!("{:?}", other),
    }
    assert!(matches!(step().action, Action::CreateTemp));
    assert!(matches!(step().action, Action::NextChunk));
    assert!(matches!(task.step(chunk(5)).unwrap().action, Action::WriteChunk));
    let quiet = task.step(written(99_999_999)).unwrap();
    assert!(!quiet.report && matches!(quiet.action, Action::NextChunk));
    task.step(chunk(2));
    assert!(task.step(written(100_000_000)).unwrap().report);
    let update = task.progress_update(rate).unwrap();
    assert_eq!((update.downloaded, update.total_size), (7, 7));
    assert!(matches!(task.step(Event::End).unwrap().action, Action::Flush));
    let copy = task.step(Event::Flushed(true)).unwrap();
    assert!(copy.report);
    assert!(matches!(copy.action, Action::CopyBeside(name) if name == ".cloudreve_replace_t1"));
    let swap = task.step(Event::Copied(true)).unwrap();
    assert!(matches!(swap.action, Action::ReplaceByCopy(name) if name == ".cloudreve_replace_t1"));
    match task.step(Event::Replaced(true)).unwrap().action {
        Action::Commit { drive, file } => {
            assert_eq!((drive, file), (0x67e55044_10b1_426f_9247_bb680e5fe0c8, 31));
        }
        other => panic!("{:?}", other),
    }
    let done = task.step(Event::Committed(true)).unwrap();
    assert!(done.remove_temp);
    assert!(matches!(done.action, Action::Finish(Outcome::Done)));
    assert!(task.step(Event::Committed(true)).is_none());
}

#[test]
fn a_replacement_that_fails_is_made_with_a_copy_beside_the_file() {
    let mut events = opening();
    events.extend([Event::End, Event::Flushed(true)]);
    let mut replaced = task(DRIVE, true);
    let step = last(&mut replaced, events);
    assert!(step.report && matches!(step.action, Action::ReplaceFile));
    assert!(matches!(replaced.step(Event::Replaced(true)).unwrap().action, Action::Commit { .. }));
    let mut events = opening();
    events.extend([Event::End, Event::Flushed(true), Event::Replaced(false)]);
    let mut copied = task(DRIVE, true);
    assert!(matches!(last(&mut copied, events).action, Action::CopyBeside(_)));
    assert!(matches!(copied.step(Event::Copied(true)).unwrap().action, Action::ReplaceByCopy(_)));
    assert!(matches!(copied.step(Event::Replaced(true)).unwrap().action, Action::Commit { .. }));
}

#[test]
fn the_local_file_is_changed_by_replacements_alone() {
    for (atomic, replaced, copied, swapped) in [
        (true, true, true, true),
        (true, false, true, true),
        (true, false, true, false),
        (true, false, false, false),
        (false, false, true, true),
        (false, false, true, false),
        (false, false, false, false),
    ] {
        let (mut local, mut copy) = ("old", "");
        let mut task = task(DRIVE, atomic);
        let mut events = opening();
        events.push(Event::End);
        last(&mut task, events);
        let mut step = task.step(Event::Flushed(true)).unwrap();
        let outcome = loop {
            if step.remove_copy {
                copy = "";
            }
            let event = match step.action {
                Action::ReplaceFile => {
                    if replaced {
                        local = "new";
                    }
                    Event::Replaced(replaced)
                }
                Action::CopyBeside(_) => {
                    copy = if copied { "new" } else { "ne" };
                    Event::Copied(copied)
                }
                Action::ReplaceByCopy(_) => {
                    if swapped {
                        local = copy;
                        copy = "";
                    }
                    Event::Replaced(swapped)
                }
                Action::Commit { .. } => Event::Committed(true),
                Action::Finish(outcome) => break outcome,
                other => panic!("{:?}", other),
            };
            step = task.step(event).unwrap();
        };
        let done = matches!(outcome, Outcome::Done);
        assert_eq!(done, atomic && replaced || copied && swapped);
        assert_eq!(local, if done { "new" } else { "old" });
        assert_eq!(copy, "");
    }
}

#[test]
fn faults_before_the_request_leave_no_temporary_file() {
    let failing: Vec<(usize, TaskEvent, &str)> = vec![
        (0, Event::Local(None), "LocalInfo"),
        (1, Event::Inventory(InventoryReply::Failed), "InventoryQuery"),
        (1, Event::Inventory(InventoryReply::Absent), "NotInInventory(\"/sync/a.txt\")"),
        (2, Event::Uri(None), "Uri"),
        (3, Event::Info(None), "RemoteInfo"),
        (4, Event::Urls(None), "FileUrl"),
        (4, Event::Urls(Some(Vec::new())), "NoUrl"),
    ];
    for (before, event, expected) in failing {
        let mut task = task(DRIVE, false);
        let mut events = opening();
        events.truncate(before);
        events.push(event);
        let (fault, remove_temp) = fault(last(&mut task, events));
        assert_eq!(format!("{:?}", fault), expected);
        assert!(!remove_temp);
        assert!(task.progress_update(rate).is_none());
    }
}

#[test]
fn faults_of_the_request_remove_the_temporary_file() {
    let failing: Vec<(usize, Vec<TaskEvent>, &str)> = vec![
        (5, vec![Event::Connected(Connection::NoClient)], "ClientBuild"),
        (5, vec![Event::Connected(Connection::NotSent)], "Request"),
        (5, vec![Event::Connected(Connection::Status(404))], "Status(404)"),
        (6, vec![Event::Created(false)], "TempCreate"),
        (7, vec![Event::Chunk { cancelled: true, read: Some(1) }], "Cancelled"),
        (7, vec![Event::Chunk { cancelled: true, read: None }], "Cancelled"),
        (7, vec![Event::Chunk { cancelled: false, read: None }], "ChunkRead"),
        (7, vec![chunk(1), Event::Written { ok: false, since_report: 0 }], "ChunkWrite"),
        (7, vec![Event::End, Event::Flushed(false)], "Flush"),
    ];
    for (before, more, expected) in failing {
        let mut task = task(DRIVE, false);
        let mut events = opening();
        events.truncate(before);
        events.extend(more);
        let (fault, remove_temp) = fault(last(&mut task, events));
        assert_eq!(format!("{:?}", fault), expected);
        assert!(remove_temp);
    }
}

#[test]
fn faults_of_the_replacement_keep_the_temporary_file() {
    let failing: Vec<(&str, Vec<TaskEvent>, &str)> = vec![
        (DRIVE, vec![Event::Copied(false)], "Copy"),
        (DRIVE, vec![Event::Copied(true), Event::Replaced(false)], "Copy"),
        ("no uuid", vec![Event::Copied(true), Event::Replaced(true)], "DriveId"),
        (
            DRIVE,
            vec![Event::Copied(true), Event::Replaced(true), Event::Committed(false)],
            "Commit",
        ),
    ];
    for (drive, more, expected) in failing {
        let mut task = task(drive, false);
        let mut events = opening();
        events.extend([Event::End, Event::Flushed(true)]);
        events.extend(more);
        let (fault, remove_temp) = fault(last(&mut task, events));
        assert_eq!(format!("{:?}", fault), expected);
        assert!(!remove_temp);
        assert_eq!(
            fault.context().as_deref(),
            Some("failed to replace and commit placeholder")
        );
    }
}

#[test]
fn a_path_that_is_no_text_fails() {
    let mut task: DownloadTask<u32> =
        DownloadTask::new("t".to_string(), DRIVE.to_string(), None, false);
    let (fault, _) = fault(task.step(Event::Local(Some(HYDRATED))).unwrap());
    assert!(matches!(fault, Fault::PathNotText));
}

#[test]
fn a_skipped_file_is_skipped_whatever_its_path() {
    let mut task: DownloadTask<u32> =
        DownloadTask::new("t".to_string(), DRIVE.to_string(), None, false);
    let info = LocalFileInfo { exists: false, ..HYDRATED };
    let step = task.step(Event::Local(Some(info))).unwrap();
    assert!(matches!(step.action, Action::Finish(Outcome::Skipped(SkipReason::Missing))));
}

#[test]
fn unexpected_events_change_nothing() {
    let mut task = task(DRIVE, false);
    assert!(task.step(Event::End).is_none());
    assert!(task.step(chunk(3)).is_none());
    assert!(task.step(Event::Committed(true)).is_none());
    last(&mut task, opening());
    assert!(task.step(written(0)).is_none());
    assert!(task.step(Event::Created(true)).is_none());
    task.step(chunk(3));
    assert!(task.step(chunk(4)).is_none());
    task.step(written(0));
    assert_eq!(task.progress_update(rate).unwrap().downloaded, 3);
}

#[test]
fn a_status_that_is_none_is_not_taken() {
    let mut task = task(DRIVE, false);
    let mut events = opening();
    events.truncate(5);
    last(&mut task, events);
    assert!(task.step(Event::Connected(Connection::Status(99))).is_none());
    assert!(task.step(Event::Connected(Connection::Status(1000))).is_none());
    assert!(task.step(Event::Connected(Connection::Status(299))).is_some());
}

#[test]
fn a_remote_file_may_have_no_entity_and_a_negative_size() {
    let mut task = task(DRIVE, false);
    let mut events = opening();
    events.truncate(3);
    last(&mut task, events);
    let file = RemoteFile { size: -1, primary_entity: None, description: 0 };
    match task.step(Event::Info(Some(file))).unwrap().action {
        Action::FetchUrl(request) => assert_eq!(request.entity, None),
        other => panic!("{:?}", other),
    }
    task.step(Event::Urls(Some(vec!["u".to_string()])));
    assert_eq!(task.progress_update(rate).unwrap().total_size, u64::MAX);
}

#[test]
fn the_drive_is_read_in_any_notation_of_a_uuid() {
    for drive in ["67e5504410b1426f9247bb680e5fe0c8", "{67E55044-10B1-426F-9247-BB680E5FE0C8}"] {
        let mut task = task(drive, false);
        let mut events = opening();
        events.extend([
            Event::End,
            Event::Flushed(true),
            Event::Copied(true),
            Event::Replaced(true),
        ]);
        match last(&mut task, events).action {
            Action::Commit { drive, file } => {
            assert_eq!((drive, file), (0x67e55044_10b1_426f_9247_bb680e5fe0c8, 31));
        }
            other => panic!("{:?}", other),
        }
    }
}

#[test]
fn a_settled_task_is_committed_on_the_given_drive() {
    assert!(matches!(
        task(DRIVE, false).settle(Some(5), 8).action,
        Action::Commit { drive: 5, file: 8 }
    ));
    let (fault, remove_temp) = fault(task(DRIVE, false).settle(None, 8));
    assert!(matches!(fault, Fault::DriveId) && !remove_temp);
}

#[test]
fn faults_have_their_words() {
    let words: Vec<(Fault<String>, Option<&str>)> = vec![
        (Fault::LocalInfo, Some("failed to get local file info")),
        (Fault::PathNotText, Some("failed to get local path as str")),
        (Fault::InventoryQuery, Some("failed to get inventory meta")),
        (
            Fault::NotInInventory("/a".to_string()),
            Some(
                "File not found in inventory: /a. Cannot download without inventory metadata.",
            ),
        ),
        (Fault::Uri, Some("failed to convert local path to cloudreve uri")),
        (Fault::RemoteInfo, Some("failed to get file info from remote")),
        (Fault::FileUrl, Some("failed to get file url")),
        (Fault::NoUrl, Some("no download URL in response")),
        (Fault::ClientBuild, None),
        (Fault::Request, Some("failed to send download request")),
        (Fault::Status(403), Some("Download request failed with status: 403 Forbidden")),
        (Fault::TempCreate, Some("failed to create temp file")),
        (Fault::Cancelled, Some("Download cancelled")),
        (Fault::ChunkRead, Some("failed to read chunk from stream")),
        (Fault::ChunkWrite, Some("failed to write chunk to temp file")),
        (Fault::Flush, Some("failed to flush temp file")),
        (Fault::Copy, Some("failed to copy temp file to local path")),
        (Fault::DriveId, Some("invalid drive ID")),
        (Fault::Commit, Some("failed to commit placeholder")),
    ];
    for (fault, expected) in words {
        assert_eq!(fault.message().as_deref(), expected);
        let replacing = matches!(fault, Fault::Copy | Fault::DriveId | Fault::Commit);
        assert_eq!(fault.context().is_some(), replacing);
    }
}

#[test]
fn a_task_takes_two_steps_for_each_chunk() {
    let mut task = task(DRIVE, true);
    let mut events = opening();
    for _ in 0..50 {
        events.push(chunk(1));
        events.push(written(0));
    }
    events.extend([
        Event::End,
        Event::Flushed(true),
        Event::Replaced(false),
        Event::Copied(true),
        Event::Replaced(true),
        Event::Committed(true),
    ]);
    assert_eq!(events.len(), 13 + 2 * 50);
    let step = last(&mut task, events);
    assert!(matches!(step.action, Action::Finish(Outcome::Done)));
    assert_eq!(task.progress_update(rate).unwrap().downloaded, 50);
}

#[test]
fn the_file_that_was_described_is_committed_whatever_is_told_later() {
    let mut task = task(DRIVE, false);
    last(&mut task, opening());
    let other = RemoteFile { size: 9, primary_entity: None, description: 99 };
    assert!(task.step(Event::Info(Some(other))).is_none());
    let events = vec![Event::End, Event::Flushed(true), Event::Copied(true), Event::Replaced(true)];
    match last(&mut task, events).action {
        Action::Commit { file, .. } => assert_eq!(file, 31),
        other => panic!("{:?}", other),
    }
    assert_eq!(task.progress_update(rate).unwrap().total_size, 7);
}

#[test]
fn the_clock_of_a_download_runs_on_between_updates() {
    let mut task = task(DRIVE, false);
    last(&mut task, opening());
    let mut longest = 0;
    for _ in 0..3 {
        let start = std::time::Instant::now();
        while start.elapsed().as_millis() < 3 {}
        let seen = std::cell::Cell::new(0u128);
        task.progress_update(|_, nanos| {
            seen.set(nanos);
            1
        });
        task.step(chunk(1));
        task.step(written(0));
        assert!(seen.get() == 0 && longest == 0 || seen.get() >= longest + 3_000_000);
        longest = longest.max(seen.get());
    }
    assert!(longest >= 6_000_000);
}

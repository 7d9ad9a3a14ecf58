//! The download of a remote file into a hydrated local placeholder, as a sequence of decisions.
//!
//! A `DownloadTask` says what is to be done next, is told how it went, and answers with the next
//! step, until the task is finished. It does no I/O itself.
//!
//! The new content reaches the local file in one operation only: by replacing the local file with
//! the temporary file, or, where that cannot be done, with a copy made beside the local file.

use crate::http::{is_status, is_success, status_display, status_text, success};
use crate::progress::{
    counted, is_reading, reported_once, DownloadProgressTracker, DownloadProgressUpdate, TrackerView,
    MIN_SPEED_NANOS,
};
use crate::text::{concat2, concat3, optional, texts, Text, Texts};
use std::time::Instant;
use uuid::Uuid;
use vstd::prelude::*;

verus! {

/// Time between progress reports, in nanoseconds.
pub const REPORT_INTERVAL_NANOS: u128 = 100_000_000;

/// What is known of the local file before anything is downloaded.
#[derive(Debug, Clone, Copy, PartialEq, Eq, Structural)]
pub struct LocalFileInfo {
    pub exists: bool,
    pub is_directory: bool,
    /// The file is a placeholder.
    pub placeholder: bool,
    /// The content is not fully present on disk.
    pub partial_on_disk: bool,
}

/// Why a task ends without doing anything.
#[derive(Debug, Clone, Copy, PartialEq, Eq, Structural)]
pub enum SkipReason {
    /// The local file does not exist.
    Missing,
    /// The local path is a directory.
    Directory,
    /// The local file is no placeholder.
    NotPlaceholder,
    /// The placeholder is not fully hydrated.
    NotHydrated,
}

/// What the inventory says of the local path.
#[derive(Debug, Clone, Copy, PartialEq, Eq, Structural)]
pub enum InventoryReply {
    Failed,
    Absent,
    Present,
}

/// How the request for the content went.
#[derive(Debug, Clone, Copy, PartialEq, Eq, Structural)]
pub enum Connection {
    /// The HTTP client could not be built.
    NoClient,
    /// The request could not be sent.
    NotSent,
    /// The server answered with this status.
    Status(u16),
}

/// What the server says of the remote file.
#[derive(Debug)]
pub struct RemoteFile<T, D> {
    pub size: i64,
    pub primary_entity: Option<T>,
    /// All that the server says of it, which is committed with the placeholder.
    pub description: D,
}

/// The request for download URLs.
#[derive(Debug)]
pub struct FileUrlRequest<T, L> {
    pub uris: L,
    pub entity: Option<T>,
}

/// Why a task failed.
#[derive(Debug)]
pub enum Fault<T> {
    /// The local file could not be examined.
    LocalInfo,
    /// The local path is not valid text.
    PathNotText,
    /// The inventory could not be queried.
    InventoryQuery,
    /// The inventory does not know the path.
    NotInInventory(T),
    /// The local path has no remote address.
    Uri,
    /// The remote file could not be examined.
    RemoteInfo,
    /// The download URL could not be requested.
    FileUrl,
    /// The server named no download URL.
    NoUrl,
    /// The HTTP client could not be built.
    ClientBuild,
    /// The content could not be requested.
    Request,
    /// The content was refused with this status.
    Status(u16),
    /// The temporary file could not be created.
    TempCreate,
    /// The download was cancelled.
    Cancelled,
    /// A chunk could not be read.
    ChunkRead,
    /// A chunk could not be written.
    ChunkWrite,
    /// The temporary file could not be flushed.
    Flush,
    /// The content could not be put in the place of the local file.
    Copy,
    /// The drive's ID is no UUID.
    DriveId,
    /// The placeholder could not be committed.
    Commit,
}

/// How a task ended.
#[derive(Debug)]
pub enum Outcome<T> {
    Skipped(SkipReason),
    Failed(Fault<T>),
    Done,
}

/// What is to be done next.
#[derive(Debug)]
pub enum Action<T, L, D> {
    /// Examine the local file.
    InspectLocal,
    /// Look the path up in the inventory.
    QueryInventory(T),
    /// Turn the local path into a remote address.
    ResolveUri,
    /// Ask the server about the file at this address.
    FetchInfo(T),
    /// Ask the server for download URLs.
    FetchUrl(FileUrlRequest<T, L>),
    /// Request the content of `url`, which is to go to the temporary file `temp_name`.
    Connect { url: T, temp_name: T },
    /// Create the temporary file.
    CreateTemp,
    /// Wait for the next chunk.
    NextChunk,
    /// Write the chunk at hand to the temporary file.
    WriteChunk,
    /// Flush the temporary file.
    Flush,
    /// Replace the local file by the temporary file in one operation.
    ReplaceFile,
    /// Copy the temporary file to a file of this name, beside the local file.
    CopyBeside(T),
    /// Replace the local file by the copy of this name beside it in one operation.
    ReplaceByCopy(T),
    /// Mark the placeholder as in sync with `file` on the drive with the ID `drive`.
    Commit { drive: u128, file: D },
    /// Nothing: the task has ended.
    Finish(Outcome<T>),
}

/// What happened.
#[derive(Debug)]
pub enum Event<T, L, D> {
    /// The local file was examined, or could not be.
    Local(Option<LocalFileInfo>),
    /// The inventory answered.
    Inventory(InventoryReply),
    /// The local path has this remote address, or none.
    Uri(Option<T>),
    /// The server described the remote file, or the request failed.
    Info(Option<RemoteFile<T, D>>),
    /// The server named these URLs, or the request failed.
    Urls(Option<L>),
    /// The content was requested.
    Connected(Connection),
    /// The temporary file was created, or not.
    Created(bool),
    /// A chunk of so many bytes was read, or failed to be; the task may have been cancelled.
    Chunk { cancelled: bool, read: Option<u64> },
    /// There are no more chunks.
    End,
    /// The chunk was written, or not, so many nanoseconds after the last progress report.
    Written { ok: bool, since_report: u128 },
    /// The temporary file was flushed, or not.
    Flushed(bool),
    /// The local file was replaced, or not.
    Replaced(bool),
    /// The temporary file was copied beside the local file, or not.
    Copied(bool),
    /// The placeholder was committed, or not.
    Committed(bool),
}

/// One step of a task. First progress is reported, where `report` says so; then the temporary
/// file is removed, where it exists and `remove_temp` says so, and the copy beside the local file,
/// where it exists and `remove_copy` says so; then the action follows.
#[derive(Debug)]
pub struct Step<T, L, D> {
    pub report: bool,
    pub remove_temp: bool,
    pub remove_copy: bool,
    pub action: Action<T, L, D>,
}

/// What a task waits for.
#[derive(Debug)]
pub enum Stage<T> {
    Inspecting,
    Consulting,
    Resolving,
    FetchingInfo(T),
    FetchingUrl(i64),
    Connecting,
    Creating,
    Streaming,
    Writing(u64),
    Flushing,
    Replacing,
    Copying,
    Swapping,
    Committing,
    Finished,
}

impl<D> View for RemoteFile<String, D> {
    type V = RemoteFile<Text, D>;

    open spec fn view(&self) -> RemoteFile<Text, D> {
        RemoteFile {
            size: self.size,
            primary_entity: optional(self.primary_entity),
            description: self.description,
        }
    }
}

impl View for FileUrlRequest<String, Vec<String>> {
    type V = FileUrlRequest<Text, Texts>;

    open spec fn view(&self) -> FileUrlRequest<Text, Texts> {
        FileUrlRequest { uris: texts(self.uris@), entity: optional(self.entity) }
    }
}

impl View for Fault<String> {
    type V = Fault<Text>;

    open spec fn view(&self) -> Fault<Text> {
        match *self {
            Fault::LocalInfo => Fault::LocalInfo,
            Fault::PathNotText => Fault::PathNotText,
            Fault::InventoryQuery => Fault::InventoryQuery,
            Fault::NotInInventory(path) => Fault::NotInInventory(path@),
            Fault::Uri => Fault::Uri,
            Fault::RemoteInfo => Fault::RemoteInfo,
            Fault::FileUrl => Fault::FileUrl,
            Fault::NoUrl => Fault::NoUrl,
            Fault::ClientBuild => Fault::ClientBuild,
            Fault::Request => Fault::Request,
            Fault::Status(code) => Fault::Status(code),
            Fault::TempCreate => Fault::TempCreate,
            Fault::Cancelled => Fault::Cancelled,
            Fault::ChunkRead => Fault::ChunkRead,
            Fault::ChunkWrite => Fault::ChunkWrite,
            Fault::Flush => Fault::Flush,
            Fault::Copy => Fault::Copy,
            Fault::DriveId => Fault::DriveId,
            Fault::Commit => Fault::Commit,
        }
    }
}

impl View for Outcome<String> {
    type V = Outcome<Text>;

    open spec fn view(&self) -> Outcome<Text> {
        match *self {
            Outcome::Skipped(reason) => Outcome::Skipped(reason),
            Outcome::Failed(fault) => Outcome::Failed(fault@),
            Outcome::Done => Outcome::Done,
        }
    }
}

impl<D> View for Action<String, Vec<String>, D> {
    type V = Action<Text, Texts, D>;

    open spec fn view(&self) -> Action<Text, Texts, D> {
        match *self {
            Action::InspectLocal => Action::InspectLocal,
            Action::QueryInventory(path) => Action::QueryInventory(path@),
            Action::ResolveUri => Action::ResolveUri,
            Action::FetchInfo(uri) => Action::FetchInfo(uri@),
            Action::FetchUrl(request) => Action::FetchUrl(request@),
            Action::Connect { url, temp_name } => Action::Connect {
                url: url@,
                temp_name: temp_name@,
            },
            Action::CreateTemp => Action::CreateTemp,
            Action::NextChunk => Action::NextChunk,
            Action::WriteChunk => Action::WriteChunk,
            Action::Flush => Action::Flush,
            Action::ReplaceFile => Action::ReplaceFile,
            Action::CopyBeside(name) => Action::CopyBeside(name@),
            Action::ReplaceByCopy(name) => Action::ReplaceByCopy(name@),
            Action::Commit { drive, file } => Action::Commit { drive, file },
            Action::Finish(outcome) => Action::Finish(outcome@),
        }
    }
}

impl<D> View for Event<String, Vec<String>, D> {
    type V = Event<Text, Texts, D>;

    open spec fn view(&self) -> Event<Text, Texts, D> {
        match *self {
            Event::Local(info) => Event::Local(info),
            Event::Inventory(reply) => Event::Inventory(reply),
            Event::Uri(uri) => Event::Uri(optional(uri)),
            Event::Info(Some(file)) => Event::Info(Some(file@)),
            Event::Info(None) => Event::Info(None),
            Event::Urls(Some(urls)) => Event::Urls(Some(texts(urls@))),
            Event::Urls(None) => Event::Urls(None),
            Event::Connected(connection) => Event::Connected(connection),
            Event::Created(ok) => Event::Created(ok),
            Event::Chunk { cancelled, read } => Event::Chunk { cancelled, read },
            Event::End => Event::End,
            Event::Written { ok, since_report } => Event::Written { ok, since_report },
            Event::Flushed(ok) => Event::Flushed(ok),
            Event::Replaced(ok) => Event::Replaced(ok),
            Event::Copied(ok) => Event::Copied(ok),
            Event::Committed(ok) => Event::Committed(ok),
        }
    }
}

impl<D> View for Step<String, Vec<String>, D> {
    type V = Step<Text, Texts, D>;

    open spec fn view(&self) -> Step<Text, Texts, D> {
        Step {
            report: self.report,
            remove_temp: self.remove_temp,
            remove_copy: self.remove_copy,
            action: self.action@,
        }
    }
}

impl View for Stage<String> {
    type V = Stage<Text>;

    open spec fn view(&self) -> Stage<Text> {
        match *self {
            Stage::Inspecting => Stage::Inspecting,
            Stage::Consulting => Stage::Consulting,
            Stage::Resolving => Stage::Resolving,
            Stage::FetchingInfo(uri) => Stage::FetchingInfo(uri@),
            Stage::FetchingUrl(size) => Stage::FetchingUrl(size),
            Stage::Connecting => Stage::Connecting,
            Stage::Creating => Stage::Creating,
            Stage::Streaming => Stage::Streaming,
            Stage::Writing(len) => Stage::Writing(len),
            Stage::Flushing => Stage::Flushing,
            Stage::Replacing => Stage::Replacing,
            Stage::Copying => Stage::Copying,
            Stage::Swapping => Stage::Swapping,
            Stage::Committing => Stage::Committing,
            Stage::Finished => Stage::Finished,
        }
    }
}

/// A task as its contracts see it.
#[verifier::ext_equal]
#[verifier::reject_recursive_types(D)]
pub struct TaskView<D> {
    pub task_id: Text,
    pub drive_id: Text,
    pub local_path: Option<Text>,
    pub atomic_replace: bool,
    pub stage: Stage<Text>,
    /// What the server said of the remote file, until it is committed.
    pub remote: Option<D>,
    pub tracker: Option<TrackerView>,
}

/// Why a local file is not downloaded to, if so.
pub open spec fn skip_reason(info: LocalFileInfo) -> Option<SkipReason> {
    if !info.exists {
        Some(SkipReason::Missing)
    } else if info.is_directory {
        Some(SkipReason::Directory)
    } else if !info.placeholder {
        Some(SkipReason::NotPlaceholder)
    } else if info.partial_on_disk {
        Some(SkipReason::NotHydrated)
    } else {
        None
    }
}

/// The name of the temporary file of a task.
pub open spec fn temp_name(task_id: Text) -> Text {
    "cloudreve_download_"@ + task_id
}

/// The name of the copy that a task makes beside the local file.
pub open spec fn copy_name(task_id: Text) -> Text {
    ".cloudreve_replace_"@ + task_id
}

/// The `u64` with the bits of `n`: `n` itself where it fits, and `n` plus 2^64 where it does not.
pub open spec fn unsigned(n: i64) -> u64 {
    if n >= 0 {
        n as u64
    } else {
        (n + 0x1_0000_0000_0000_0000) as u64
    }
}

/// The UUID that a text stands for, as `Uuid::from_str` reads it.
pub uninterp spec fn uuid_value(text: Seq<char>) -> Option<u128>;

/// Calls `Uuid::from_str` and gives the UUID as a number, or nothing where the text is none.
/// The result depends on the text alone, and is named `uuid_value`; the accepted notations are
/// not repeated here.
#[verifier::external_body]
fn parse_uuid(text: &str) -> (res: Option<u128>)
    ensures
        res == uuid_value(text@),
{
    std::str::FromStr::from_str(text).ok().map(|id: Uuid| id.as_u128())
}

/// A task moves to `stage`, with `action` to follow.
pub open spec fn proceed<D>(t: TaskView<D>, stage: Stage<Text>, action: Action<Text, Texts, D>) -> (
    TaskView<D>,
    Step<Text, Texts, D>,
) {
    (
        TaskView { stage, ..t },
        Step { report: false, remove_temp: false, remove_copy: false, action },
    )
}

/// A task ends.
pub open spec fn end<D>(t: TaskView<D>, outcome: Outcome<Text>, remove_temp: bool) -> (
    TaskView<D>,
    Step<Text, Texts, D>,
) {
    (
        TaskView { stage: Stage::Finished, ..t },
        Step { report: false, remove_temp, remove_copy: false, action: Action::Finish(outcome) },
    )
}

/// A task fails, and its temporary file goes or stays.
pub open spec fn fail<D>(t: TaskView<D>, fault: Fault<Text>, remove_temp: bool) -> (
    TaskView<D>,
    Step<Text, Texts, D>,
) {
    end(t, Outcome::Failed(fault), remove_temp)
}

/// A task fails because the content could not be put in the place of the local file; the copy
/// beside it goes, the temporary file stays.
pub open spec fn fail_to_replace<D>(t: TaskView<D>) -> (TaskView<D>, Step<Text, Texts, D>) {
    let (after, step) = fail(t, Fault::Copy, false);
    (after, Step { remove_copy: true, ..step })
}

/// The new content is in place; what follows depends on whether the drive's ID is a UUID. The
/// description of the remote file is handed out with the commit.
pub open spec fn settle<D>(t: TaskView<D>, drive: Option<u128>, file: D) -> (
    TaskView<D>,
    Step<Text, Texts, D>,
) {
    let settled = TaskView { remote: None, ..t };
    match drive {
        Some(id) => proceed(settled, Stage::Committing, Action::Commit { drive: id, file }),
        None => fail(settled, Fault::DriveId, false),
    }
}

/// The new content is in place, in a task that knows the remote file.
pub open spec fn settled<D>(t: TaskView<D>) -> Option<(TaskView<D>, Step<Text, Texts, D>)> {
    match t.remote {
        Some(file) => Some(settle(t, uuid_value(t.drive_id), file)),
        None => None,
    }
}

/// The state and the step that follow an event, or nothing where the event is not what the task
/// waits for.
pub open spec fn next<D>(t: TaskView<D>, e: Event<Text, Texts, D>) -> Option<
    (TaskView<D>, Step<Text, Texts, D>),
> {
    match (t.stage, e) {
        (Stage::Inspecting, Event::Local(info)) => Some(
            match info {
                None => fail(t, Fault::LocalInfo, false),
                Some(info) => match skip_reason(info) {
                    Some(reason) => end(t, Outcome::Skipped(reason), false),
                    None => match t.local_path {
                        None => fail(t, Fault::PathNotText, false),
                        Some(path) => proceed(t, Stage::Consulting, Action::QueryInventory(path)),
                    },
                },
            },
        ),
        (Stage::Consulting, Event::Inventory(reply)) => match t.local_path {
            None => None,
            Some(path) => Some(
                match reply {
                    InventoryReply::Failed => fail(t, Fault::InventoryQuery, false),
                    InventoryReply::Absent => fail(t, Fault::NotInInventory(path), false),
                    InventoryReply::Present => proceed(t, Stage::Resolving, Action::ResolveUri),
                },
            ),
        },
        (Stage::Resolving, Event::Uri(uri)) => Some(
            match uri {
                None => fail(t, Fault::Uri, false),
                Some(uri) => proceed(t, Stage::FetchingInfo(uri), Action::FetchInfo(uri)),
            },
        ),
        (Stage::FetchingInfo(uri), Event::Info(file)) => Some(
            match file {
                None => fail(t, Fault::RemoteInfo, false),
                Some(file) => proceed(
                    TaskView { remote: Some(file.description), ..t },
                    Stage::FetchingUrl(file.size),
                    Action::FetchUrl(
                        FileUrlRequest { uris: seq![uri], entity: file.primary_entity },
                    ),
                ),
            },
        ),
        (Stage::FetchingUrl(size), Event::Urls(urls)) => Some(
            match urls {
                None => fail(t, Fault::FileUrl, false),
                Some(urls) => if urls.len() == 0 {
                    fail(t, Fault::NoUrl, false)
                } else {
                    (
                        TaskView {
                            stage: Stage::Connecting,
                            tracker: Some(
                                TrackerView {
                                    total_size: unsigned(size),
                                    downloaded: 0,
                                    samples: Seq::empty(),
                                },
                            ),
                            ..t
                        },
                        Step {
                            report: false,
                            remove_temp: true,
                            remove_copy: false,
                            action: Action::Connect {
                                url: urls[0],
                                temp_name: temp_name(t.task_id),
                            },
                        },
                    )
                },
            },
        ),
        (Stage::Connecting, Event::Connected(connection)) => match connection {
            Connection::NoClient => Some(fail(t, Fault::ClientBuild, true)),
            Connection::NotSent => Some(fail(t, Fault::Request, true)),
            Connection::Status(code) => if !is_status(code) {
                None
            } else if is_success(code) {
                Some(proceed(t, Stage::Creating, Action::CreateTemp))
            } else {
                Some(fail(t, Fault::Status(code), true))
            },
        },
        (Stage::Creating, Event::Created(ok)) => Some(
            if ok {
                proceed(t, Stage::Streaming, Action::NextChunk)
            } else {
                fail(t, Fault::TempCreate, true)
            },
        ),
        (Stage::Streaming, Event::Chunk { cancelled, read }) => Some(
            if cancelled {
                fail(t, Fault::Cancelled, true)
            } else {
                match read {
                    None => fail(t, Fault::ChunkRead, true),
                    Some(len) => proceed(t, Stage::Writing(len), Action::WriteChunk),
                }
            },
        ),
        (Stage::Streaming, Event::End) => Some(proceed(t, Stage::Flushing, Action::Flush)),
        (Stage::Writing(len), Event::Written { ok, since_report }) => Some(
            if ok {
                (
                    TaskView {
                        stage: Stage::Streaming,
                        tracker: match t.tracker {
                            Some(tracker) => Some(
                                TrackerView {
                                    downloaded: counted(tracker.downloaded, len),
                                    ..tracker
                                },
                            ),
                            None => None,
                        },
                        ..t
                    },
                    Step {
                        report: since_report >= REPORT_INTERVAL_NANOS,
                        remove_temp: false,
                        remove_copy: false,
                        action: Action::NextChunk,
                    },
                )
            } else {
                fail(t, Fault::ChunkWrite, true)
            },
        ),
        (Stage::Flushing, Event::Flushed(ok)) => Some(
            if !ok {
                fail(t, Fault::Flush, true)
            } else {
                let (after, step) = if t.atomic_replace {
                    proceed(t, Stage::Replacing, Action::ReplaceFile)
                } else {
                    proceed(t, Stage::Copying, Action::CopyBeside(copy_name(t.task_id)))
                };
                (after, Step { report: true, ..step })
            },
        ),
        (Stage::Replacing, Event::Replaced(ok)) => if ok {
            settled(t)
        } else {
            Some(proceed(t, Stage::Copying, Action::CopyBeside(copy_name(t.task_id))))
        },
        (Stage::Copying, Event::Copied(ok)) => Some(
            if ok {
                proceed(t, Stage::Swapping, Action::ReplaceByCopy(copy_name(t.task_id)))
            } else {
                fail_to_replace(t)
            },
        ),
        (Stage::Swapping, Event::Replaced(ok)) => if ok {
            settled(t)
        } else {
            Some(fail_to_replace(t))
        },
        (Stage::Committing, Event::Committed(ok)) => Some(
            if ok {
                end(t, Outcome::Done, true)
            } else {
                fail(t, Fault::Commit, false)
            },
        ),
        _ => None,
    }
}

/// Whether `after` and `step` are what follows an event in state `before`: what `next` says, or
/// nothing and no change.
pub open spec fn followed<D>(
    before: TaskView<D>,
    e: Event<Text, Texts, D>,
    after: TaskView<D>,
    step: Option<Step<String, Vec<String>, D>>,
) -> bool {
    match next(before, e) {
        Some((task, next_step)) => {
            &&& after == task
            &&& step matches Some(s)
            &&& s@ == next_step
        },
        None => after == before && step is None,
    }
}

/// Download task that brings a remote file into a local placeholder.
pub struct DownloadTask<D> {
    task_id: String,
    drive_id: String,
    local_path: Option<String>,
    atomic_replace: bool,
    stage: Stage<String>,
    remote: Option<D>,
    tracker: Option<DownloadProgressTracker>,
}

impl<D> View for DownloadTask<D> {
    type V = TaskView<D>;

    closed spec fn view(&self) -> TaskView<D> {
        TaskView {
            task_id: self.task_id@,
            drive_id: self.drive_id@,
            local_path: optional(self.local_path),
            atomic_replace: self.atomic_replace,
            stage: self.stage@,
            remote: self.remote,
            tracker: match self.tracker {
                Some(tracker) => Some(tracker@),
                None => None,
            },
        }
    }
}

fn to_unsigned(n: i64) -> (res: u64)
    ensures
        res == unsigned(n),
{
    assert(n >= 0 ==> (n as u64) == n) by (bit_vector);
    assert(n < 0 ==> (n as u64) == n + 0x1_0000_0000_0000_0000) by (bit_vector);
    #[verifier::truncate]
    let res: u64 = n as u64;
    res
}

/// Why a local file is not downloaded to, if so.
pub fn check_local(info: &LocalFileInfo) -> (reason: Option<SkipReason>)
    ensures
        reason == skip_reason(*info),
{
    if !info.exists {
        Some(SkipReason::Missing)
    } else if info.is_directory {
        Some(SkipReason::Directory)
    } else if !info.placeholder {
        Some(SkipReason::NotPlaceholder)
    } else if info.partial_on_disk {
        Some(SkipReason::NotHydrated)
    } else {
        None
    }
}

impl<D> DownloadTask<D> {
    /// When the tracking of the download started, once it has.
    pub closed spec fn start(&self) -> Option<Instant> {
        match self.tracker {
            Some(tracker) => Some(tracker.start()),
            None => None,
        }
    }

    /// A task that has done nothing yet. `local_path` is nothing where the path is not valid
    /// text; `atomic_replace` says whether the platform can replace the local file by the
    /// temporary file, wherever that lies, in one operation.
    pub fn new(
        task_id: String,
        drive_id: String,
        local_path: Option<String>,
        atomic_replace: bool,
    ) -> (task: Self)
        ensures
            task@ == (TaskView::<D> {
                task_id: task_id@,
                drive_id: drive_id@,
                local_path: optional(local_path),
                atomic_replace,
                stage: Stage::Inspecting,
                remote: None,
                tracker: None,
            }),
            task.start() is None,
    {
        DownloadTask {
            task_id,
            drive_id,
            local_path,
            atomic_replace,
            stage: Stage::Inspecting,
            remote: None,
            tracker: None,
        }
    }

    fn proceed(&mut self, stage: Stage<String>, action: Action<String, Vec<String>, D>) -> (step: Step<String, Vec<String>, D>)
        ensures
            (final(self)@, step@) == proceed(old(self)@, stage@, action@),
            final(self).start() == old(self).start(),
    {
        self.stage = stage;
        Step { report: false, remove_temp: false, remove_copy: false, action }
    }

    fn end(&mut self, outcome: Outcome<String>, remove_temp: bool) -> (step: Step<String, Vec<String>, D>)
        ensures
            (final(self)@, step@) == end(old(self)@, outcome@, remove_temp),
            final(self).start() == old(self).start(),
    {
        self.stage = Stage::Finished;
        Step { report: false, remove_temp, remove_copy: false, action: Action::Finish(outcome) }
    }

    fn fail(&mut self, fault: Fault<String>, remove_temp: bool) -> (step: Step<String, Vec<String>, D>)
        ensures
            (final(self)@, step@) == fail(old(self)@, fault@, remove_temp),
            final(self).start() == old(self).start(),
    {
        self.end(Outcome::Failed(fault), remove_temp)
    }

    fn fail_to_replace(&mut self) -> (step: Step<String, Vec<String>, D>)
        ensures
            (final(self)@, step@) == fail_to_replace(old(self)@),
            final(self).start() == old(self).start(),
    {
        let mut step = self.fail(Fault::Copy, false);
        step.remove_copy = true;
        step
    }

    fn copy_name(&self) -> (name: String)
        ensures
            name@ == copy_name(self@.task_id),
    {
        concat2(".cloudreve_replace_", self.task_id.as_str())
    }

    /// What follows once the new content is in place: the placeholder is committed with `file` on
    /// the drive with the given ID, or, where there is none, the task fails.
    pub fn settle(&mut self, drive: Option<u128>, file: D) -> (step: Step<String, Vec<String>, D>)
        ensures
            (final(self)@, step@) == settle(old(self)@, drive, file),
            final(self).start() == old(self).start(),
    {
        self.remote = None;
        match drive {
            Some(id) => self.proceed(Stage::Committing, Action::Commit { drive: id, file }),
            None => self.fail(Fault::DriveId, false),
        }
    }

    fn settled(&mut self) -> (step: Option<Step<String, Vec<String>, D>>)
        ensures
            match settled(old(self)@) {
                Some((task, next_step)) => {
                    &&& final(self)@ == task
                    &&& step matches Some(s)
                    &&& s@ == next_step
                },
                None => final(self)@ == old(self)@ && step is None,
            },
            final(self).start() == old(self).start(),
    {
        match self.remote.take() {
            Some(file) => {
                let drive = parse_uuid(self.drive_id.as_str());
                Some(self.settle(drive, file))
            },
            None => None,
        }
    }

    /// Takes note of an event and says what is to be done next. An event that is not what the
    /// task waits for changes nothing.
    pub fn step(&mut self, event: Event<String, Vec<String>, D>) -> (step: Option<
        Step<String, Vec<String>, D>,
    >)
        ensures
            followed(old(self)@, event@, final(self)@, step),
            final(self).start() == old(self).start() || old(self)@.stage is FetchingUrl && (
            final(self).start() matches Some(start) && is_reading(start)),
    {
        match event {
            Event::Local(info) => self.on_local(info),
            Event::Inventory(reply) => self.on_inventory(reply),
            Event::Uri(uri) => self.on_uri(uri),
            Event::Info(file) => self.on_info(file),
            Event::Urls(urls) => self.on_urls(urls),
            Event::Connected(connection) => self.on_connected(connection),
            Event::Created(ok) => self.on_created(ok),
            Event::Chunk { cancelled, read } => self.on_chunk(cancelled, read),
            Event::End => self.on_end(),
            Event::Written { ok, since_report } => self.on_written(ok, since_report),
            Event::Flushed(ok) => self.on_flushed(ok),
            Event::Replaced(ok) => self.on_replaced(ok),
            Event::Copied(ok) => self.on_copied(ok),
            Event::Committed(ok) => self.on_committed(ok),
        }
    }

    fn on_local(&mut self, info: Option<LocalFileInfo>) -> (step: Option<Step<String, Vec<String>, D>>)
        ensures
            followed(old(self)@, Event::Local(info), final(self)@, step),
            final(self).start() == old(self).start(),
    {
        match &self.stage {
            Stage::Inspecting => {},
            _ => {
                return None;
            },
        }
        let info = match info {
            Some(info) => info,
            None => {
                return Some(self.fail(Fault::LocalInfo, false));
            },
        };
        if let Some(reason) = check_local(&info) {
            return Some(self.end(Outcome::Skipped(reason), false));
        }
        match self.local_path.clone() {
            Some(path) => Some(self.proceed(Stage::Consulting, Action::QueryInventory(path))),
            None => Some(self.fail(Fault::PathNotText, false)),
        }
    }

    fn on_inventory(&mut self, reply: InventoryReply) -> (step: Option<Step<String, Vec<String>, D>>)
        ensures
            followed(old(self)@, Event::Inventory(reply), final(self)@, step),
            final(self).start() == old(self).start(),
    {
        match &self.stage {
            Stage::Consulting => {},
            _ => {
                return None;
            },
        }
        let path = match self.local_path.clone() {
            Some(path) => path,
            None => {
                return None;
            },
        };
        Some(
            match reply {
                InventoryReply::Failed => self.fail(Fault::InventoryQuery, false),
                InventoryReply::Absent => self.fail(Fault::NotInInventory(path), false),
                InventoryReply::Present => self.proceed(Stage::Resolving, Action::ResolveUri),
            },
        )
    }

    fn on_uri(&mut self, uri: Option<String>) -> (step: Option<Step<String, Vec<String>, D>>)
        ensures
            followed(old(self)@, Event::Uri(optional(uri)), final(self)@, step),
            final(self).start() == old(self).start(),
    {
        match &self.stage {
            Stage::Resolving => {},
            _ => {
                return None;
            },
        }
        Some(
            match uri {
                Some(uri) => {
                    let address = uri.clone();
                    self.proceed(Stage::FetchingInfo(uri), Action::FetchInfo(address))
                },
                None => self.fail(Fault::Uri, false),
            },
        )
    }

    fn on_info(&mut self, file: Option<RemoteFile<String, D>>) -> (step: Option<
        Step<String, Vec<String>, D>,
    >)
        ensures
            followed(old(self)@, Event::Info(file)@, final(self)@, step),
            final(self).start() == old(self).start(),
    {
        let uri = match &self.stage {
            Stage::FetchingInfo(uri) => uri.clone(),
            _ => {
                return None;
            },
        };
        let file = match file {
            Some(file) => file,
            None => {
                return Some(self.fail(Fault::RemoteInfo, false));
            },
        };
        let ghost address = uri@;
        let mut uris: Vec<String> = Vec::new();
        uris.push(uri);
        assert(texts(uris@) =~= seq![address]);
        let request = FileUrlRequest { uris, entity: file.primary_entity };
        self.remote = Some(file.description);
        Some(self.proceed(Stage::FetchingUrl(file.size), Action::FetchUrl(request)))
    }

    fn on_urls(&mut self, urls: Option<Vec<String>>) -> (step: Option<Step<String, Vec<String>, D>>)
        ensures
            followed(old(self)@, Event::Urls(urls)@, final(self)@, step),
            final(self).start() == old(self).start() || old(self)@.stage is FetchingUrl && (
            final(self).start() matches Some(start) && is_reading(start)),
    {
        let size: i64 = match &self.stage {
            Stage::FetchingUrl(size) => *size,
            _ => {
                return None;
            },
        };
        let urls = match urls {
            Some(urls) => urls,
            None => {
                return Some(self.fail(Fault::FileUrl, false));
            },
        };
        if urls.len() == 0 {
            return Some(self.fail(Fault::NoUrl, false));
        }
        let url = urls[0].clone();
        let temp_name = concat2("cloudreve_download_", self.task_id.as_str());
        self.tracker = Some(DownloadProgressTracker::new(to_unsigned(size)));
        self.stage = Stage::Connecting;
        Some(
            Step {
                report: false,
                remove_temp: true,
                remove_copy: false,
                action: Action::Connect { url, temp_name },
            },
        )
    }

    fn on_connected(&mut self, connection: Connection) -> (step: Option<Step<String, Vec<String>, D>>)
        ensures
            followed(old(self)@, Event::Connected(connection), final(self)@, step),
            final(self).start() == old(self).start(),
    {
        match &self.stage {
            Stage::Connecting => {},
            _ => {
                return None;
            },
        }
        match connection {
            Connection::NoClient => Some(self.fail(Fault::ClientBuild, true)),
            Connection::NotSent => Some(self.fail(Fault::Request, true)),
            Connection::Status(code) => {
                if code < 100 || code > 999 {
                    None
                } else if success(code) {
                    Some(self.proceed(Stage::Creating, Action::CreateTemp))
                } else {
                    Some(self.fail(Fault::Status(code), true))
                }
            },
        }
    }

    fn on_created(&mut self, ok: bool) -> (step: Option<Step<String, Vec<String>, D>>)
        ensures
            followed(old(self)@, Event::Created(ok), final(self)@, step),
            final(self).start() == old(self).start(),
    {
        match &self.stage {
            Stage::Creating => {},
            _ => {
                return None;
            },
        }
        if ok {
            Some(self.proceed(Stage::Streaming, Action::NextChunk))
        } else {
            Some(self.fail(Fault::TempCreate, true))
        }
    }

    fn on_chunk(&mut self, cancelled: bool, read: Option<u64>) -> (step: Option<
        Step<String, Vec<String>, D>,
    >)
        ensures
            followed(old(self)@, Event::Chunk { cancelled, read }, final(self)@, step),
            final(self).start() == old(self).start(),
    {
        match &self.stage {
            Stage::Streaming => {},
            _ => {
                return None;
            },
        }
        if cancelled {
            return Some(self.fail(Fault::Cancelled, true));
        }
        match read {
            Some(len) => Some(self.proceed(Stage::Writing(len), Action::WriteChunk)),
            None => Some(self.fail(Fault::ChunkRead, true)),
        }
    }

    fn on_end(&mut self) -> (step: Option<Step<String, Vec<String>, D>>)
        ensures
            followed(old(self)@, Event::End, final(self)@, step),
            final(self).start() == old(self).start(),
    {
        match &self.stage {
            Stage::Streaming => Some(self.proceed(Stage::Flushing, Action::Flush)),
            _ => None,
        }
    }

    fn on_written(&mut self, ok: bool, since_report: u128) -> (step: Option<
        Step<String, Vec<String>, D>,
    >)
        ensures
            followed(old(self)@, Event::Written { ok, since_report }, final(self)@, step),
            final(self).start() == old(self).start(),
    {
        let len: u64 = match &self.stage {
            Stage::Writing(len) => *len,
            _ => {
                return None;
            },
        };
        if !ok {
            return Some(self.fail(Fault::ChunkWrite, true));
        }
        self.tracker = match self.tracker.take() {
            Some(mut tracker) => {
                tracker.add_bytes(len);
                Some(tracker)
            },
            None => None,
        };
        self.stage = Stage::Streaming;
        Some(
            Step {
                report: since_report >= REPORT_INTERVAL_NANOS,
                remove_temp: false,
                remove_copy: false,
                action: Action::NextChunk,
            },
        )
    }

    fn on_flushed(&mut self, ok: bool) -> (step: Option<Step<String, Vec<String>, D>>)
        ensures
            followed(old(self)@, Event::Flushed(ok), final(self)@, step),
            final(self).start() == old(self).start(),
    {
        match &self.stage {
            Stage::Flushing => {},
            _ => {
                return None;
            },
        }
        if !ok {
            return Some(self.fail(Fault::Flush, true));
        }
        let mut step = if self.atomic_replace {
            self.proceed(Stage::Replacing, Action::ReplaceFile)
        } else {
            let name = self.copy_name();
            self.proceed(Stage::Copying, Action::CopyBeside(name))
        };
        step.report = true;
        Some(step)
    }

    fn on_replaced(&mut self, ok: bool) -> (step: Option<Step<String, Vec<String>, D>>)
        ensures
            followed(old(self)@, Event::Replaced(ok), final(self)@, step),
            final(self).start() == old(self).start(),
    {
        let by_copy = match &self.stage {
            Stage::Replacing => false,
            Stage::Swapping => true,
            _ => {
                return None;
            },
        };
        if ok {
            self.settled()
        } else if by_copy {
            Some(self.fail_to_replace())
        } else {
            let name = self.copy_name();
            Some(self.proceed(Stage::Copying, Action::CopyBeside(name)))
        }
    }

    fn on_copied(&mut self, ok: bool) -> (step: Option<Step<String, Vec<String>, D>>)
        ensures
            followed(old(self)@, Event::Copied(ok), final(self)@, step),
            final(self).start() == old(self).start(),
    {
        match &self.stage {
            Stage::Copying => {},
            _ => {
                return None;
            },
        }
        if ok {
            let name = self.copy_name();
            Some(self.proceed(Stage::Swapping, Action::ReplaceByCopy(name)))
        } else {
            Some(self.fail_to_replace())
        }
    }

    fn on_committed(&mut self, ok: bool) -> (step: Option<Step<String, Vec<String>, D>>)
        ensures
            followed(old(self)@, Event::Committed(ok), final(self)@, step),
            final(self).start() == old(self).start(),
    {
        match &self.stage {
            Stage::Committing => {},
            _ => {
                return None;
            },
        }
        if ok {
            Some(self.end(Outcome::Done, true))
        } else {
            Some(self.fail(Fault::Commit, false))
        }
    }

    /// The progress update of the task, once its content has been requested. `rate` gives the
    /// bytes per second of so many bytes in so many nanoseconds.
    pub fn progress_update<F: Fn(u64, u128) -> u64>(&mut self, rate: F) -> (update: Option<
        DownloadProgressUpdate,
    >)
        requires
            forall|bytes: u64, nanos: u128|
                nanos >= MIN_SPEED_NANOS ==> call_requires(rate, (bytes, nanos)),
        ensures
            old(self)@.tracker is Some == update is Some,
            old(self)@.tracker is Some == final(self)@.tracker is Some,
            update matches Some(u) ==> reported_once(
                old(self).start()->0,
                old(self)@.tracker->0,
                final(self)@.tracker->0,
                rate,
                u,
            ),
            final(self)@ == (TaskView { tracker: final(self)@.tracker, ..old(self)@ }),
            final(self).start() == old(self).start(),
    {
        match self.tracker.take() {
            Some(mut tracker) => {
                let update = tracker.create_update(rate);
                self.tracker = Some(tracker);
                Some(update)
            },
            None => None,
        }
    }
}

/// What a failed task reports: the library's own words, or nothing where the error of the HTTP
/// client stands for itself.
pub open spec fn fault_message(fault: Fault<Text>) -> Option<Text> {
    match fault {
        Fault::LocalInfo => Some("failed to get local file info"@),
        Fault::PathNotText => Some("failed to get local path as str"@),
        Fault::InventoryQuery => Some("failed to get inventory meta"@),
        Fault::NotInInventory(path) => Some(
            "File not found in inventory: "@ + path
                + ". Cannot download without inventory metadata."@,
        ),
        Fault::Uri => Some("failed to convert local path to cloudreve uri"@),
        Fault::RemoteInfo => Some("failed to get file info from remote"@),
        Fault::FileUrl => Some("failed to get file url"@),
        Fault::NoUrl => Some("no download URL in response"@),
        Fault::ClientBuild => None,
        Fault::Request => Some("failed to send download request"@),
        Fault::Status(code) => Some(
            "Download request failed with status: "@ + status_display(code),
        ),
        Fault::TempCreate => Some("failed to create temp file"@),
        Fault::Cancelled => Some("Download cancelled"@),
        Fault::ChunkRead => Some("failed to read chunk from stream"@),
        Fault::ChunkWrite => Some("failed to write chunk to temp file"@),
        Fault::Flush => Some("failed to flush temp file"@),
        Fault::Copy => Some("failed to copy temp file to local path"@),
        Fault::DriveId => Some("invalid drive ID"@),
        Fault::Commit => Some("failed to commit placeholder"@),
    }
}

/// Whether the task failed after the download, when the local file was to be replaced.
pub open spec fn while_replacing(fault: Fault<Text>) -> bool {
    fault is Copy || fault is DriveId || fault is Commit
}

impl Fault<String> {
    /// What a failed task reports, if it has words of its own.
    pub fn message(&self) -> (text: Option<String>)
        requires
            self matches Fault::Status(code) ==> is_status(*code),
        ensures
            optional(text) == fault_message(self@),
    {
        match self {
            Fault::LocalInfo => Some("failed to get local file info".to_owned()),
            Fault::PathNotText => Some("failed to get local path as str".to_owned()),
            Fault::InventoryQuery => Some("failed to get inventory meta".to_owned()),
            Fault::NotInInventory(path) => Some(
                concat3(
                    "File not found in inventory: ",
                    path.as_str(),
                    ". Cannot download without inventory metadata.",
                ),
            ),
            Fault::Uri => Some("failed to convert local path to cloudreve uri".to_owned()),
            Fault::RemoteInfo => Some("failed to get file info from remote".to_owned()),
            Fault::FileUrl => Some("failed to get file url".to_owned()),
            Fault::NoUrl => Some("no download URL in response".to_owned()),
            Fault::ClientBuild => None,
            Fault::Request => Some("failed to send download request".to_owned()),
            Fault::Status(code) => Some(
                concat2("Download request failed with status: ", status_text(*code).as_str()),
            ),
            Fault::TempCreate => Some("failed to create temp file".to_owned()),
            Fault::Cancelled => Some("Download cancelled".to_owned()),
            Fault::ChunkRead => Some("failed to read chunk from stream".to_owned()),
            Fault::ChunkWrite => Some("failed to write chunk to temp file".to_owned()),
            Fault::Flush => Some("failed to flush temp file".to_owned()),
            Fault::Copy => Some("failed to copy temp file to local path".to_owned()),
            Fault::DriveId => Some("invalid drive ID".to_owned()),
            Fault::Commit => Some("failed to commit placeholder".to_owned()),
        }
    }

    /// The words that are put in front of the message of a fault that came while the local file
    /// was to be replaced.
    pub fn context(&self) -> (text: Option<String>)
        ensures
            optional(text) == if while_replacing(self@) {
                Some("failed to replace and commit placeholder"@)
            } else {
                None
            },
    {
        match self {
            Fault::Copy | Fault::DriveId | Fault::Commit => Some(
                "failed to replace and commit placeholder".to_owned(),
            ),
            _ => None,
        }
    }
}

} // verus!

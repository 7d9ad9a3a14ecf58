//! What holds of every run of a download task, whatever happens to it.

use crate::download::{
    copy_name, fault_message, followed, next, temp_name, unsigned, uuid_value, while_replacing,
    Action, Connection, Event, Fault, FileUrlRequest, InventoryReply, LocalFileInfo, Outcome,
    RemoteFile, SkipReason, Stage, Step, TaskView,
};
use crate::http::{is_status, status_display};
use crate::progress::total;
use crate::text::{Text, Texts};
use vstd::prelude::*;

verus! {

/// The state and the steps of a task after the given events.
pub open spec fn run<D>(t: TaskView<D>, events: Seq<Event<Text, Texts, D>>) -> (
    TaskView<D>,
    Seq<Step<Text, Texts, D>>,
)
    decreases events.len(),
{
    if events.len() == 0 {
        (t, Seq::empty())
    } else {
        let (before, steps) = run(t, events.drop_last());
        match next(before, events.last()) {
            Some((after, step)) => (after, steps.push(step)),
            None => (before, steps),
        }
    }
}

/// Whether a task has done nothing yet.
pub open spec fn fresh<D>(t: TaskView<D>) -> bool {
    t.stage == Stage::<Text>::Inspecting && t.tracker is None
}

/// Whether the steps end the task, and how.
pub open spec fn ends_with<D>(steps: Seq<Step<Text, Texts, D>>, outcome: Outcome<Text>) -> bool {
    steps.len() > 0 && steps.last().action == Action::<Text, Texts, D>::Finish(outcome)
}

/// Whether one of the steps requests the content.
pub open spec fn requested<D>(steps: Seq<Step<Text, Texts, D>>) -> bool {
    exists|i: int| 0 <= i < steps.len() && #[trigger] steps[i].action is Connect
}

/// Whether an action changes the local file or the placeholder.
pub open spec fn touches_local_file<D>(action: Action<Text, Texts, D>) -> bool {
    action is ReplaceFile || action is ReplaceByCopy || action is Commit
}

/// Whether the stage comes after the request of the content.
spec fn past_request(stage: Stage<Text>) -> bool {
    match stage {
        Stage::Connecting | Stage::Creating | Stage::Streaming | Stage::Writing(_)
        | Stage::Flushing | Stage::Replacing | Stage::Copying | Stage::Swapping
        | Stage::Committing => true,
        _ => false,
    }
}

/// Whether the stage comes after the whole content was written.
spec fn past_flush(stage: Stage<Text>) -> bool {
    match stage {
        Stage::Replacing | Stage::Copying | Stage::Swapping | Stage::Committing => true,
        _ => false,
    }
}

/// What holds of a run at any time.
spec fn run_inv<D>(t: TaskView<D>, events: Seq<Event<Text, Texts, D>>) -> bool {
    let (now, steps) = run(t, events);
    &&& now.drive_id == t.drive_id
    &&& now.stage is Inspecting <==> steps.len() == 0
    &&& now.stage is Finished <==> steps.len() > 0 && steps.last().action is Finish
    &&& !(now.stage is Finished) ==> (requested(steps) <==> past_request(now.stage))
    &&& past_request(now.stage) ==> now.tracker is Some
    &&& past_flush(now.stage) ==> events.contains(Event::Flushed(true))
    &&& now.stage is Committing ==> {
        &&& events.contains(Event::Replaced(true))
        &&& uuid_value(t.drive_id) is Some
    }
    &&& forall|i: int|
        0 <= i < steps.len() && touches_local_file(#[trigger] steps[i].action)
            ==> events.contains(Event::Flushed(true))
    &&& forall|i: int|
        0 <= i < steps.len() - 1 ==> !(#[trigger] steps[i].action is Finish)
    &&& forall|i: int|
        0 <= i < steps.len() && (#[trigger] steps[i]).remove_temp ==> requested(steps)
    &&& forall|i: int|
        0 <= i < steps.len() && (#[trigger] steps[i].action) is Commit ==> {
            &&& uuid_value(t.drive_id) == Some(steps[i].action->drive)
            &&& events.contains(Event::Replaced(true))
        }
    &&& forall|reason| ends_with(steps, Outcome::Skipped(reason)) ==> steps.len() == 1
    &&& ends_with(steps, Outcome::Done) ==> {
        &&& events.contains(Event::Flushed(true))
        &&& events.contains(Event::Replaced(true))
        &&& events.contains(Event::Committed(true))
        &&& uuid_value(t.drive_id) is Some
    }
    &&& forall|outcome: Outcome<Text>| #[trigger]
        ends_with(steps, outcome) && requested(steps) ==> (steps.last().remove_temp
            <==> !(outcome matches Outcome::Failed(fault) && while_replacing(fault)))
}

#[verifier::rlimit(60)]
proof fn lemma_run_inv<D>(t: TaskView<D>, events: Seq<Event<Text, Texts, D>>)
    requires
        fresh(t),
    ensures
        run_inv(t, events),
    decreases events.len(),
{
    if events.len() == 0 {
        assert(run(t, events).1 =~= Seq::empty());
    } else {
        let rest = events.drop_last();
        let last = events.last();
        lemma_run_inv(t, rest);
        let (before, steps) = run(t, rest);
        let (after, all) = run(t, events);
        assert(events[events.len() - 1] == last);
        assert(events.contains(last));
        assert forall|e: Event<Text, Texts, D>| rest.contains(e) implies events.contains(e) by {
            let i = choose|i: int| 0 <= i < rest.len() && rest[i] == e;
            assert(events[i] == e);
        }
        if let Some((_, step)) = next(before, last) {
            assert(all == steps.push(step));
            assert(all.last() == step);
            assert forall|i: int| 0 <= i < steps.len() implies all[i] == steps[i] by {}
            if requested(steps) {
                let i = choose|i: int| 0 <= i < steps.len() && #[trigger] steps[i].action is Connect;
                assert(all[i].action is Connect);
            }
            if step.action is Connect {
                assert(all[all.len() - 1].action is Connect);
            }
            assert(requested(all) <==> requested(steps) || step.action is Connect);
        }
    }
}

/// A task that is skipped has done nothing but examine the local file: its first step is its
/// last.
pub proof fn law_skip_touches_nothing<D>(
    t: TaskView<D>,
    events: Seq<Event<Text, Texts, D>>,
    reason: SkipReason,
)
    requires
        fresh(t),
        ends_with(run(t, events).1, Outcome::Skipped(reason)),
    ensures
        run(t, events).1.len() == 1,
        !run(t, events).1[0].remove_temp,
        !run(t, events).1[0].report,
{
    lemma_run_inv(t, events);
    let steps = run(t, events).1;
    if requested(steps) {
        let i = choose|i: int| 0 <= i < steps.len() && #[trigger] steps[i].action is Connect;
        assert(steps[i].action is Finish);
    }
    lemma_no_report_at_end(t, events);
}

proof fn lemma_no_report_at_end<D>(t: TaskView<D>, events: Seq<Event<Text, Texts, D>>)
    ensures
        forall|i: int|
            0 <= i < run(t, events).1.len() && (#[trigger] run(t, events).1[i]).action is Finish
                ==> !run(t, events).1[i].report,
    decreases events.len(),
{
    if events.len() > 0 {
        lemma_no_report_at_end(t, events.drop_last());
    }
}

/// The local file and its placeholder are touched only once the whole content has been written
/// and flushed; and the placeholder is committed only once the content is in place, on the drive
/// that the task names.
pub proof fn law_local_file_changes_last<D>(t: TaskView<D>, events: Seq<Event<Text, Texts, D>>, i: int)
    requires
        fresh(t),
        0 <= i < run(t, events).1.len(),
        touches_local_file(run(t, events).1[i].action),
    ensures
        events.contains(Event::Flushed(true)),
        run(t, events).1[i].action matches Action::Commit { drive, .. } ==> {
            &&& uuid_value(t.drive_id) == Some(drive)
            &&& events.contains(Event::Replaced(true))
        },
{
    lemma_run_inv(t, events);
}

/// A task that is done has flushed the content, put it in place and committed it.
pub proof fn law_done_means_committed<D>(t: TaskView<D>, events: Seq<Event<Text, Texts, D>>)
    requires
        fresh(t),
        ends_with(run(t, events).1, Outcome::Done),
    ensures
        events.contains(Event::Flushed(true)),
        events.contains(Event::Replaced(true)),
        events.contains(Event::Committed(true)),
        uuid_value(t.drive_id) is Some,
{
    lemma_run_inv(t, events);
}

/// The files that a task works with: the content of the local file, of the temporary file, and of
/// the copy beside the local file.
pub struct Files {
    pub local: Seq<u8>,
    pub temp: Seq<u8>,
    pub copy: Seq<u8>,
}

/// What an event in a stage says of the files. A replacement happens as a whole or not at all; a
/// copy that failed may have left anything, here `partial`.
pub open spec fn files_after_event<D>(
    files: Files,
    stage: Stage<Text>,
    e: Event<Text, Texts, D>,
    partial: Seq<u8>,
) -> Files {
    match (stage, e) {
        (Stage::Replacing, Event::Replaced(ok)) => if ok {
            Files { local: files.temp, ..files }
        } else {
            files
        },
        (Stage::Copying, Event::Copied(ok)) => Files {
            copy: if ok {
                files.temp
            } else {
                partial
            },
            ..files
        },
        (Stage::Swapping, Event::Replaced(ok)) => if ok {
            Files { local: files.copy, ..files }
        } else {
            files
        },
        _ => files,
    }
}

/// The files after the given events, where the temporary file holds the whole content by the time
/// that it is flushed.
pub open spec fn files_after<D>(
    t: TaskView<D>,
    files: Files,
    events: Seq<Event<Text, Texts, D>>,
    partial: Seq<u8>,
) -> Files
    decreases events.len(),
{
    if events.len() == 0 {
        files
    } else {
        files_after_event(
            files_after(t, files, events.drop_last(), partial),
            run(t, events.drop_last()).0.stage,
            events.last(),
            partial,
        )
    }
}

/// Whatever happens, and whenever it stops, the local file holds all of the old content or all of
/// the new, never a part or a mixture; and it holds the new content if the task is done.
pub proof fn law_replacement_is_atomic<D>(
    t: TaskView<D>,
    files: Files,
    events: Seq<Event<Text, Texts, D>>,
    partial: Seq<u8>,
)
    requires
        fresh(t),
    ensures
        files_after(t, files, events, partial).local == files.local || files_after(
            t,
            files,
            events,
            partial,
        ).local == files.temp,
        ends_with(run(t, events).1, Outcome::Done) ==> files_after(
            t,
            files,
            events,
            partial,
        ).local == files.temp,
{
    lemma_files(t, files, events, partial);
}

proof fn lemma_files<D>(
    t: TaskView<D>,
    files: Files,
    events: Seq<Event<Text, Texts, D>>,
    partial: Seq<u8>,
)
    requires
        fresh(t),
    ensures
        files_after(t, files, events, partial).temp == files.temp,
        files_after(t, files, events, partial).local == files.local || files_after(
            t,
            files,
            events,
            partial,
        ).local == files.temp,
        run(t, events).0.stage is Swapping ==> files_after(t, files, events, partial).copy
            == files.temp,
        run(t, events).0.stage is Committing || ends_with(run(t, events).1, Outcome::Done)
            ==> files_after(t, files, events, partial).local == files.temp,
    decreases events.len(),
{
    if events.len() > 0 {
        lemma_files(t, files, events.drop_last(), partial);
        lemma_run_inv(t, events.drop_last());
    }
}

/// The copy beside the local file is removed whenever it was not used up: a task fails with the
/// copy in place only together with its removal.
pub proof fn law_copy_is_removed<D>(t: TaskView<D>, e: Event<Text, Texts, D>)
    ensures
        next(t, e) matches Some((_, step)) ==> (step.remove_copy <==> match (t.stage, e) {
            (Stage::Copying, Event::Copied(ok)) => !ok,
            (Stage::Swapping, Event::Replaced(ok)) => !ok,
            _ => false,
        }),
{
}

/// What a task was told of the remote file when it asked.
pub open spec fn fetched<D>(t: TaskView<D>, events: Seq<Event<Text, Texts, D>>) -> Option<
    RemoteFile<Text, D>,
>
    decreases events.len(),
{
    if events.len() == 0 {
        None
    } else {
        match (run(t, events.drop_last()).0.stage, events.last()) {
            (Stage::FetchingInfo(_), Event::Info(file)) => file,
            _ => fetched(t, events.drop_last()),
        }
    }
}

/// What is committed, what is asked for and what progress is measured by is one and the same
/// remote file: the one that the server described in this run.
pub proof fn law_fetched_file_is_committed<D>(
    t: TaskView<D>,
    events: Seq<Event<Text, Texts, D>>,
    i: int,
)
    requires
        fresh(t),
        0 <= i < run(t, events).1.len(),
    ensures
        run(t, events).1[i].action matches Action::Commit { file, .. } ==> (fetched(t, events)
            matches Some(remote) && remote.description == file),
        run(t, events).1[i].action matches Action::FetchUrl(request) ==> (fetched(t, events)
            matches Some(remote) && request.entity == remote.primary_entity),
        run(t, events).0.tracker matches Some(tracker) ==> (fetched(t, events) matches Some(remote)
            && tracker.total_size == unsigned(remote.size)),
{
    lemma_fetched(t, events);
}

/// Whether a stage comes after the description of the remote file.
spec fn past_info(stage: Stage<Text>) -> bool {
    match stage {
        Stage::Inspecting | Stage::Consulting | Stage::Resolving | Stage::FetchingInfo(_) => false,
        _ => true,
    }
}

/// Whether a stage comes after the description of the remote file, and before its commit.
spec fn holds_remote(stage: Stage<Text>) -> bool {
    past_info(stage) && !(stage is Committing) && !(stage is Finished)
}

proof fn lemma_fetched<D>(t: TaskView<D>, events: Seq<Event<Text, Texts, D>>)
    requires
        fresh(t),
    ensures
        !past_info(run(t, events).0.stage) ==> {
            &&& run(t, events).0.tracker is None
            &&& forall|i: int|
                0 <= i < run(t, events).1.len() ==> !(#[trigger] run(t, events).1[i].action is Commit)
                    && !(run(t, events).1[i].action is FetchUrl)
        },
        past_info(run(t, events).0.stage) && !(run(t, events).0.stage is Finished) ==> fetched(
            t,
            events,
        ) is Some,
        holds_remote(run(t, events).0.stage) ==> {
            &&& run(t, events).0.remote matches Some(file)
            &&& fetched(t, events) matches Some(remote)
            &&& remote.description == file
        },
        run(t, events).0.stage matches Stage::FetchingUrl(size) ==> (fetched(t, events)
            matches Some(remote) && remote.size == size),
        forall|i: int|
            0 <= i < run(t, events).1.len() ==> {
                &&& (#[trigger] run(t, events).1[i]).action matches Action::Commit { file, .. }
                    ==> (fetched(t, events) matches Some(remote) && remote.description == file)
                &&& run(t, events).1[i].action matches Action::FetchUrl(request) ==> (fetched(
                    t,
                    events,
                ) matches Some(remote) && request.entity == remote.primary_entity)
            },
        run(t, events).0.tracker matches Some(tracker) ==> (fetched(t, events) matches Some(remote)
            && tracker.total_size == unsigned(remote.size)),
    decreases events.len(),
{
    if events.len() > 0 {
        lemma_fetched(t, events.drop_last());
    }
}

/// However a task ends, its temporary file is removed with the last step if the content was
/// requested, except where the local file could not be replaced or committed; a task that
/// requested no content removes nothing.
pub proof fn law_temp_file_is_removed<D>(
    t: TaskView<D>,
    events: Seq<Event<Text, Texts, D>>,
    outcome: Outcome<Text>,
)
    requires
        fresh(t),
        ends_with(run(t, events).1, outcome),
    ensures
        requested(run(t, events).1) ==> (run(t, events).1.last().remove_temp <==> !(
        outcome matches Outcome::Failed(fault) && while_replacing(fault))),
        !requested(run(t, events).1) ==> forall|i: int|
            0 <= i < run(t, events).1.len() ==> !(#[trigger] run(t, events).1[i]).remove_temp,
{
    lemma_run_inv(t, events);
}

/// A task that has ended stays as it is, whatever it is told.
pub proof fn law_end_is_final<D>(
    t: TaskView<D>,
    events: Seq<Event<Text, Texts, D>>,
    more: Seq<Event<Text, Texts, D>>,
    outcome: Outcome<Text>,
)
    requires
        fresh(t),
        ends_with(run(t, events).1, outcome),
    ensures
        run(t, events + more) == run(t, events),
    decreases more.len(),
{
    if more.len() == 0 {
        assert(events + more =~= events);
    } else {
        law_end_is_final(t, events, more.drop_last(), outcome);
        assert((events + more).drop_last() =~= events + more.drop_last());
        lemma_run_inv(t, events);
    }
}

/// A cancelled download writes nothing more: the next chunk ends the task and removes the
/// temporary file.
pub proof fn law_cancel_ends_download<D>(t: TaskView<D>, read: Option<u64>)
    requires
        t.stage == Stage::<Text>::Streaming,
    ensures
        next(t, Event::Chunk { cancelled: true, read }) matches Some((after, step)) && {
            &&& after.stage is Finished
            &&& step.remove_temp
            &&& step.action == Action::<Text, Texts, D>::Finish(Outcome::Failed(Fault::Cancelled))
        },
{
}

/// Whether an event is an answer to what a stage waits for.
pub open spec fn answers<D>(stage: Stage<Text>, e: Event<Text, Texts, D>) -> bool {
    match stage {
        Stage::Inspecting => e is Local,
        Stage::Consulting => e is Inventory,
        Stage::Resolving => e is Uri,
        Stage::FetchingInfo(_) => e is Info,
        Stage::FetchingUrl(_) => e is Urls,
        Stage::Connecting => e matches Event::Connected(connection) && (
        connection matches Connection::Status(code) ==> is_status(code)),
        Stage::Creating => e is Created,
        Stage::Streaming => e is Chunk || e is End,
        Stage::Writing(_) => e is Written,
        Stage::Flushing => e is Flushed,
        Stage::Replacing | Stage::Swapping => e is Replaced,
        Stage::Copying => e is Copied,
        Stage::Committing => e is Committed,
        Stage::Finished => false,
    }
}

/// A task never gets stuck: at any time it goes on with every answer to what it waits for, and
/// with nothing else.
pub proof fn law_every_answer_is_taken<D>(
    t: TaskView<D>,
    events: Seq<Event<Text, Texts, D>>,
    e: Event<Text, Texts, D>,
)
    requires
        fresh(t),
    ensures
        next(run(t, events).0, e) is Some <==> answers(run(t, events).0.stage, e),
{
    lemma_fetched(t, events);
    lemma_path(t, events);
}

proof fn lemma_path<D>(t: TaskView<D>, events: Seq<Event<Text, Texts, D>>)
    requires
        fresh(t),
    ensures
        run(t, events).0.local_path == t.local_path,
        run(t, events).0.stage is Consulting ==> t.local_path is Some,
    decreases events.len(),
{
    if events.len() > 0 {
        lemma_path(t, events.drop_last());
    }
}

/// Progress is reported with a chunk that was written a tenth of a second or more after the last
/// report, and once more when the whole content is there; at no other time.
pub proof fn law_when_progress_is_reported<D>(t: TaskView<D>, e: Event<Text, Texts, D>)
    ensures
        next(t, e) matches Some((_, step)) ==> (step.report <==> match e {
            Event::Written { ok, since_report } => ok && since_report >= 100_000_000,
            Event::Flushed(ok) => ok,
            _ => false,
        }),
{
}

/// The sizes of the chunks that a task has written, in order.
pub open spec fn written<D>(t: TaskView<D>, events: Seq<Event<Text, Texts, D>>) -> Seq<u64>
    decreases events.len(),
{
    if events.len() == 0 {
        Seq::empty()
    } else {
        let before = written(t, events.drop_last());
        match (run(t, events.drop_last()).0.stage, events.last()) {
            (Stage::Writing(len), Event::Written { ok, since_report }) => if ok {
                before.push(len)
            } else {
                before
            },
            _ => before,
        }
    }
}

/// Whether a stage comes before the first chunk.
spec fn before_chunks(stage: Stage<Text>) -> bool {
    match stage {
        Stage::Inspecting | Stage::Consulting | Stage::Resolving | Stage::FetchingInfo(_)
        | Stage::FetchingUrl(_) => true,
        _ => false,
    }
}

/// The bytes that a task counts are those of the chunks that it has written, modulo 2^64.
pub proof fn law_counts_what_is_written<D>(t: TaskView<D>, events: Seq<Event<Text, Texts, D>>)
    requires
        fresh(t),
    ensures
        run(t, events).0.tracker matches Some(tracker) ==> tracker.downloaded == total(
            written(t, events),
        ) % 0x1_0000_0000_0000_0000,
{
    lemma_counts(t, events);
}

proof fn lemma_counts<D>(t: TaskView<D>, events: Seq<Event<Text, Texts, D>>)
    requires
        fresh(t),
    ensures
        before_chunks(run(t, events).0.stage) ==> written(t, events).len() == 0,
        run(t, events).0.tracker is None ==> written(t, events).len() == 0,
        past_request(run(t, events).0.stage) ==> run(t, events).0.tracker is Some,
        run(t, events).0.tracker matches Some(tracker) ==> tracker.downloaded == total(
            written(t, events),
        ) % 0x1_0000_0000_0000_0000,
    decreases events.len(),
{
    if events.len() > 0 {
        let rest = events.drop_last();
        lemma_counts(t, rest);
        let so_far = written(t, rest);
        match (run(t, rest).0.stage, events.last()) {
            (Stage::Writing(len), Event::Written { ok, since_report }) => {
                if ok {
                    assert(so_far.push(len).drop_last() =~= so_far);
                    assert(total(so_far.push(len)) == total(so_far) + len as nat);
                    let n = total(so_far) as int;
                    let m = 0x1_0000_0000_0000_0000int;
                    assert((n % m + len as int) % m == (n + len as int) % m) by (nonlinear_arith)
                        requires
                            n >= 0,
                            len >= 0,
                            m == 0x1_0000_0000_0000_0000int,
                    ;
                }
            },
            _ => {},
        }
    }
}

/// The number of steps that write a chunk.
pub open spec fn writes<D>(steps: Seq<Step<Text, Texts, D>>) -> nat
    decreases steps.len(),
{
    if steps.len() == 0 {
        0
    } else {
        writes(steps.drop_last()) + if steps.last().action is WriteChunk {
            1nat
        } else {
            0
        }
    }
}

/// The steps that lead to a stage, apart from those for the chunks.
spec fn depth(stage: Stage<Text>) -> int {
    match stage {
        Stage::Inspecting => 0,
        Stage::Consulting => 1,
        Stage::Resolving => 2,
        Stage::FetchingInfo(_) => 3,
        Stage::FetchingUrl(_) => 4,
        Stage::Connecting => 5,
        Stage::Creating => 6,
        Stage::Streaming => 7,
        Stage::Writing(_) => 6,
        Stage::Flushing => 8,
        Stage::Replacing => 9,
        Stage::Copying => 10,
        Stage::Swapping => 11,
        Stage::Committing => 12,
        Stage::Finished => 13,
    }
}

/// A task makes progress with every step: it takes at most thirteen, and two more for each
/// chunk.
pub proof fn law_steps_are_bounded<D>(t: TaskView<D>, events: Seq<Event<Text, Texts, D>>)
    requires
        fresh(t),
    ensures
        run(t, events).1.len() <= 13 + 2 * writes(run(t, events).1),
{
    lemma_depth(t, events);
}

proof fn lemma_depth<D>(t: TaskView<D>, events: Seq<Event<Text, Texts, D>>)
    requires
        fresh(t),
    ensures
        run(t, events).1.len() <= depth(run(t, events).0.stage) + 2 * writes(run(t, events).1),
    decreases events.len(),
{
    if events.len() > 0 {
        let rest = events.drop_last();
        lemma_depth(t, rest);
        let (before, steps) = run(t, rest);
        if let Some((_, step)) = next(before, events.last()) {
            assert(steps.push(step).drop_last() =~= steps);
        }
    }
}

/// A chunk that was read, in a task that was not cancelled, is written: all of it, before anything
/// else happens.
pub proof fn law_chunk_read_is_written<D>(t: TaskView<D>, len: u64)
    requires
        t.stage is Streaming,
    ensures
        next(t, Event::Chunk { cancelled: false, read: Some(len) }) matches Some((after, step)) && {
            &&& after == (TaskView { stage: Stage::Writing(len), ..t })
            &&& step.action is WriteChunk
            &&& !step.report && !step.remove_temp && !step.remove_copy
        },
{
}

/// A chunk that was written is counted, by its whole length, and the next one is waited for.
pub proof fn law_chunk_written_is_counted<D>(t: TaskView<D>, len: u64, since_report: u128)
    requires
        t.stage == Stage::<Text>::Writing(len),
    ensures
        next(t, Event::Written { ok: true, since_report }) matches Some((after, step)) && {
            &&& after.stage is Streaming
            &&& step.action is NextChunk
            &&& after == (TaskView { stage: after.stage, tracker: after.tracker, ..t })
            &&& t.tracker matches Some(before) ==> (after.tracker matches Some(tracker) && {
                &&& tracker.downloaded == (before.downloaded + len) % 0x1_0000_0000_0000_0000
                &&& tracker.total_size == before.total_size
                &&& tracker.samples == before.samples
            })
        },
{
}

/// The sizes of the chunks that a task was told to have been read, in order, while it was not
/// cancelled.
pub open spec fn chunks_read<D>(t: TaskView<D>, events: Seq<Event<Text, Texts, D>>) -> Seq<u64>
    decreases events.len(),
{
    if events.len() == 0 {
        Seq::empty()
    } else {
        let before = chunks_read(t, events.drop_last());
        match (run(t, events.drop_last()).0.stage, events.last()) {
            (Stage::Streaming, Event::Chunk { cancelled: false, read: Some(len) }) => before.push(
                len,
            ),
            _ => before,
        }
    }
}

/// A task that is done has written every chunk that was read, whole and in order, and the stream
/// had ended; its byte count is the sum of their sizes, modulo 2^64.
pub proof fn law_done_means_all_written<D>(t: TaskView<D>, events: Seq<Event<Text, Texts, D>>)
    requires
        fresh(t),
        ends_with(run(t, events).1, Outcome::Done),
    ensures
        written(t, events) == chunks_read(t, events),
        events.contains(Event::End),
        run(t, events).0.tracker matches Some(tracker) && tracker.downloaded == total(
            chunks_read(t, events),
        ) % 0x1_0000_0000_0000_0000,
{
    lemma_all_written(t, events);
    lemma_run_inv(t, events);
    lemma_counts(t, events);
}

/// The temporary file is flushed, and whatever follows that is done, only once the stream has
/// ended; and what was read by then has all been written.
pub proof fn law_flush_comes_after_end<D>(
    t: TaskView<D>,
    events: Seq<Event<Text, Texts, D>>,
    i: int,
)
    requires
        fresh(t),
        0 <= i < run(t, events).1.len(),
        run(t, events).1[i].action is Flush || run(t, events).1[i].action is CopyBeside
            || touches_local_file(run(t, events).1[i].action),
    ensures
        events.contains(Event::End),
        written(t, events) == chunks_read(t, events),
{
    lemma_all_written(t, events);
}

/// Whether a stage comes after the end of the stream.
spec fn past_end(stage: Stage<Text>) -> bool {
    match stage {
        Stage::Flushing | Stage::Replacing | Stage::Copying | Stage::Swapping | Stage::Committing =>
        true,
        _ => false,
    }
}

/// Whether an action comes after the end of the stream.
spec fn after_end<D>(action: Action<Text, Texts, D>) -> bool {
    action is Flush || action is CopyBeside || touches_local_file(action)
        || action == Action::<Text, Texts, D>::Finish(Outcome::Done)
}

proof fn lemma_all_written<D>(t: TaskView<D>, events: Seq<Event<Text, Texts, D>>)
    requires
        fresh(t),
    ensures
        match run(t, events).0.stage {
            Stage::Writing(len) => chunks_read(t, events) == written(t, events).push(len),
            Stage::Finished => true,
            _ => chunks_read(t, events) == written(t, events),
        },
        past_end(run(t, events).0.stage) ==> events.contains(Event::End),
        forall|i: int|
            0 <= i < run(t, events).1.len() && after_end((#[trigger] run(t, events).1[i]).action)
                ==> {
                &&& events.contains(Event::End)
                &&& chunks_read(t, events) == written(t, events)
                &&& past_end(run(t, events).0.stage) || run(t, events).0.stage is Finished
            },
        run(t, events).0.tracker is None ==> !(past_end(run(t, events).0.stage)),
        ends_with(run(t, events).1, Outcome::Done) ==> run(t, events).0.tracker is Some,
    decreases events.len(),
{
    if events.len() > 0 {
        let rest = events.drop_last();
        lemma_all_written(t, rest);
        lemma_run_inv(t, rest);
        assert(events[events.len() - 1] == events.last());
        assert forall|e: Event<Text, Texts, D>| rest.contains(e) implies events.contains(e) by {
            let i = choose|i: int| 0 <= i < rest.len() && rest[i] == e;
            assert(events[i] == e);
        }
        let (before, steps) = run(t, rest);
        let all = run(t, events).1;
        if let Some((_, step)) = next(before, events.last()) {
            assert(all == steps.push(step));
            assert(forall|i: int| 0 <= i < steps.len() ==> all[i] == #[trigger] steps[i]);
        }
    }
}


/// One more event, and one more step where the event is waited for.
proof fn lemma_run_push<D>(
    t: TaskView<D>,
    events: Seq<Event<Text, Texts, D>>,
    e: Event<Text, Texts, D>,
)
    ensures
        match next(run(t, events).0, e) {
            Some((after, step)) => run(t, events.push(e)) == (after, run(t, events).1.push(step)),
            None => run(t, events.push(e)) == run(t, events),
        },
{
    assert(events.push(e).drop_last() =~= events);
}

/// The events of a download in which everything goes well, up to the first chunk.
pub open spec fn opening<D>(
    info: LocalFileInfo,
    uri: Text,
    file: RemoteFile<Text, D>,
    urls: Texts,
    code: u16,
) -> Seq<Event<Text, Texts, D>> {
    Seq::empty().push(Event::Local(Some(info))).push(
        Event::Inventory(InventoryReply::Present),
    ).push(Event::Uri(Some(uri))).push(Event::Info(Some(file))).push(Event::Urls(Some(urls))).push(
        Event::Connected(Connection::Status(code)),
    ).push(Event::Created(true))
}

/// The events that come before, and then chunks of the given sizes, each read and written so long
/// after the last report.
pub open spec fn with_chunks<D>(
    before: Seq<Event<Text, Texts, D>>,
    chunks: Seq<(u64, u128)>,
) -> Seq<Event<Text, Texts, D>>
    decreases chunks.len(),
{
    if chunks.len() == 0 {
        before
    } else {
        with_chunks(before, chunks.drop_last()).push(
            Event::Chunk { cancelled: false, read: Some(chunks.last().0) },
        ).push(Event::Written { ok: true, since_report: chunks.last().1 })
    }
}

/// The events that come before, and then the end of the stream and what puts the content in place:
/// a replacement that succeeds at once, or one with a copy, after one that was tried or not.
pub open spec fn with_closing<D>(
    before: Seq<Event<Text, Texts, D>>,
    atomic_replace: bool,
    at_once: bool,
) -> Seq<Event<Text, Texts, D>> {
    let flushed = before.push(Event::End).push(Event::Flushed(true));
    let placed = if atomic_replace && at_once {
        flushed.push(Event::Replaced(true))
    } else if atomic_replace {
        flushed.push(Event::Replaced(false)).push(Event::Copied(true)).push(Event::Replaced(true))
    } else {
        flushed.push(Event::Copied(true)).push(Event::Replaced(true))
    };
    placed.push(Event::Committed(true))
}

/// The sum of the sizes of chunks.
pub open spec fn sum(chunks: Seq<(u64, u128)>) -> nat
    decreases chunks.len(),
{
    if chunks.len() == 0 {
        0
    } else {
        sum(chunks.drop_last()) + chunks.last().0 as nat
    }
}

/// Where everything goes well the download is done, whatever the file, its size and its chunks
/// are: for a hydrated placeholder with a path that is text, on a drive whose ID is a UUID, with
/// one download URL or more, and any status that reports success. By then it has asked for the
/// right things, counted every byte, and handed out what is committed.
pub proof fn law_good_download_is_done<D>(
    t: TaskView<D>,
    path: Text,
    drive: u128,
    info: LocalFileInfo,
    uri: Text,
    file: RemoteFile<Text, D>,
    urls: Texts,
    code: u16,
    chunks: Seq<(u64, u128)>,
    at_once: bool,
)
    requires
        fresh(t),
        t.local_path == Some(path),
        uuid_value(t.drive_id) == Some(drive),
        info.exists,
        !info.is_directory,
        info.placeholder,
        !info.partial_on_disk,
        urls.len() > 0,
        code / 100 == 2,
    ensures
        ({
            let events = with_closing(
                with_chunks(opening(info, uri, file, urls, code), chunks),
                t.atomic_replace,
                at_once,
            );
            let (after, steps) = run(t, events);
            &&& ends_with(steps, Outcome::Done)
            &&& steps.last().remove_temp
            &&& after.tracker matches Some(tracker)
            &&& tracker.downloaded == sum(chunks) % 0x1_0000_0000_0000_0000
            &&& (file.size >= 0 ==> tracker.total_size == file.size)
            &&& steps[0].action == Action::<Text, Texts, D>::QueryInventory(path)
            &&& steps[2].action == Action::<Text, Texts, D>::FetchInfo(uri)
            &&& steps[3].action == Action::<Text, Texts, D>::FetchUrl(
                FileUrlRequest { uris: seq![uri], entity: file.primary_entity },
            )
            &&& steps[4].action matches Action::Connect { url, .. }
            &&& url == urls[0]
            &&& steps[steps.len() - 2].action == (Action::<Text, Texts, D>::Commit {
                drive,
                file: file.description,
            })
        }),
{
    let e0 = Seq::<Event<Text, Texts, D>>::empty();
    let e1 = e0.push(Event::Local(Some(info)));
    let e2 = e1.push(Event::Inventory(InventoryReply::Present));
    let e3 = e2.push(Event::Uri(Some(uri)));
    let e4 = e3.push(Event::Info(Some(file)));
    let e5 = e4.push(Event::Urls(Some(urls)));
    let e6 = e5.push(Event::Connected(Connection::Status(code)));
    let e7 = e6.push(Event::Created(true));
    lemma_run_push(t, e0, Event::Local(Some(info)));
    lemma_run_push(t, e1, Event::Inventory(InventoryReply::Present));
    lemma_run_push(t, e2, Event::Uri(Some(uri)));
    lemma_run_push(t, e3, Event::Info(Some(file)));
    lemma_run_push(t, e4, Event::Urls(Some(urls)));
    lemma_run_push(t, e5, Event::Connected(Connection::Status(code)));
    lemma_run_push(t, e6, Event::Created(true));
    assert(run(t, e7).0.stage is Streaming);
    assert(run(t, e7).1.len() == 7);
    lemma_chunks_go_well(t, e7, chunks);
    let streamed = with_chunks(e7, chunks);
    lemma_run_push(t, streamed, Event::End);
    let ended = streamed.push(Event::End);
    lemma_run_push(t, ended, Event::Flushed(true));
    let flushed = ended.push(Event::Flushed(true));
    let placed = if t.atomic_replace && at_once {
        lemma_run_push(t, flushed, Event::Replaced(true));
        flushed.push(Event::Replaced(true))
    } else if t.atomic_replace {
        let tried = flushed.push(Event::Replaced(false));
        lemma_run_push(t, flushed, Event::Replaced(false));
        lemma_run_push(t, tried, Event::Copied(true));
        lemma_run_push(t, tried.push(Event::Copied(true)), Event::Replaced(true));
        tried.push(Event::Copied(true)).push(Event::Replaced(true))
    } else {
        lemma_run_push(t, flushed, Event::Copied(true));
        lemma_run_push(t, flushed.push(Event::Copied(true)), Event::Replaced(true));
        flushed.push(Event::Copied(true)).push(Event::Replaced(true))
    };
    lemma_run_push(t, placed, Event::Committed(true));
}

proof fn lemma_chunks_go_well<D>(
    t: TaskView<D>,
    before: Seq<Event<Text, Texts, D>>,
    chunks: Seq<(u64, u128)>,
)
    requires
        run(t, before).0.stage is Streaming,
        run(t, before).0.tracker matches Some(tracker) && tracker.downloaded == 0,
    ensures
        ({
            let (after, steps) = run(t, with_chunks(before, chunks));
            &&& after == (TaskView { tracker: after.tracker, ..run(t, before).0 })
            &&& after.tracker matches Some(tracker)
            &&& tracker.downloaded == sum(chunks) % 0x1_0000_0000_0000_0000
            &&& tracker.total_size == run(t, before).0.tracker->0.total_size
            &&& steps.len() >= run(t, before).1.len()
            &&& forall|i: int|
                0 <= i < run(t, before).1.len() ==> (#[trigger] steps[i]) == run(t, before).1[i]
        }),
    decreases chunks.len(),
{
    if chunks.len() > 0 {
        let rest = chunks.drop_last();
        let (len, since_report) = chunks.last();
        lemma_chunks_go_well(t, before, rest);
        let so_far = with_chunks(before, rest);
        let read = Event::Chunk { cancelled: false, read: Some(len) };
        lemma_run_push(t, so_far, read);
        lemma_run_push(t, so_far.push(read), Event::Written { ok: true, since_report });
        let n = sum(rest) as int;
        let m = 0x1_0000_0000_0000_0000int;
        assert((n % m + len as int) % m == (n + len as int) % m) by (nonlinear_arith)
            requires
                n >= 0,
                len >= 0,
                m == 0x1_0000_0000_0000_0000int,
        ;
    }
}

/// What goes wrong ends the task with the fault that names it.
pub open spec fn fault_of<D>(stage: Stage<Text>, e: Event<Text, Texts, D>) -> Option<Fault<Text>> {
    match e {
        Event::Local(None) => Some(Fault::LocalInfo),
        Event::Inventory(InventoryReply::Failed) => Some(Fault::InventoryQuery),
        Event::Uri(None) => Some(Fault::Uri),
        Event::Info(None) => Some(Fault::RemoteInfo),
        Event::Urls(None) => Some(Fault::FileUrl),
        Event::Connected(Connection::NoClient) => Some(Fault::ClientBuild),
        Event::Connected(Connection::NotSent) => Some(Fault::Request),
        Event::Created(false) => Some(Fault::TempCreate),
        Event::Chunk { cancelled: true, .. } => Some(Fault::Cancelled),
        Event::Chunk { cancelled: false, read: None } => Some(Fault::ChunkRead),
        Event::Written { ok: false, .. } => Some(Fault::ChunkWrite),
        Event::Flushed(false) => Some(Fault::Flush),
        Event::Copied(false) => Some(Fault::Copy),
        Event::Replaced(false) => if stage is Swapping {
            Some(Fault::Copy)
        } else {
            None
        },
        Event::Committed(false) => Some(Fault::Commit),
        _ => None,
    }
}

/// A task fails with the fault of what went wrong; it fails for no other reason than that, a path
/// that the inventory does not know or that is no text, a list of URLs that is empty, a status
/// other than success, and a drive whose ID is no UUID.
pub proof fn law_fault_names_what_went_wrong<D>(
    t: TaskView<D>,
    e: Event<Text, Texts, D>,
    fault: Fault<Text>,
)
    requires
        next(t, e) is Some,
    ensures
        next(t, e) matches Some((_, step)) && {
            &&& fault_of(t.stage, e) matches Some(expected) ==> step.action == Action::<
                Text,
                Texts,
                D,
            >::Finish(Outcome::Failed(expected))
            &&& step.action == Action::<Text, Texts, D>::Finish(Outcome::Failed(fault)) ==> {
                ||| fault_of(t.stage, e) == Some(fault)
                ||| e == Event::<Text, Texts, D>::Inventory(InventoryReply::Absent) && t.local_path
                    is Some && fault == Fault::NotInInventory(t.local_path->0)
                ||| t.local_path is None && fault is PathNotText
                ||| fault is NoUrl && (e matches Event::Urls(Some(urls)) && urls.len() == 0)
                ||| (e matches Event::Connected(Connection::Status(code)) && code / 100 != 2
                    && fault == Fault::<Text>::Status(code))
                ||| fault is DriveId && uuid_value(t.drive_id) is None && e == Event::<
                    Text,
                    Texts,
                    D,
                >::Replaced(true)
            }
        },
{
}

/// A file that exists, is no directory, is a placeholder and is wholly on disk is downloaded to; a
/// file that is not is skipped for the first of these that it fails.
pub proof fn law_only_hydrated_placeholders<D>(t: TaskView<D>, info: LocalFileInfo)
    requires
        t.stage is Inspecting,
    ensures
        next(t, Event::Local(Some(info))) matches Some((_, step)) && {
            let end = Action::<Text, Texts, D>::Finish(
                Outcome::Skipped(
                    if !info.exists {
                        SkipReason::Missing
                    } else if info.is_directory {
                        SkipReason::Directory
                    } else if !info.placeholder {
                        SkipReason::NotPlaceholder
                    } else {
                        SkipReason::NotHydrated
                    },
                ),
            );
            if info.exists && !info.is_directory && info.placeholder && !info.partial_on_disk {
                match t.local_path {
                    Some(path) => step.action == Action::<Text, Texts, D>::QueryInventory(path),
                    None => step.action == Action::<Text, Texts, D>::Finish(
                        Outcome::Failed(Fault::PathNotText),
                    ),
                }
            } else {
                step.action == end
            }
        },
{
}

/// What is asked for is what the task or its last answer named: the inventory for the local path,
/// the server for the address of that path and then for the URLs of that address, the content at
/// the first of these URLs.
pub proof fn law_actions_name_their_subject<D>(t: TaskView<D>, e: Event<Text, Texts, D>)
    requires
        next(t, e) is Some,
    ensures
        next(t, e) matches Some((_, step)) && match step.action {
            Action::QueryInventory(path) => t.local_path == Some(path),
            Action::FetchInfo(uri) => e == Event::<Text, Texts, D>::Uri(Some(uri)),
            Action::FetchUrl(request) => {
                &&& t.stage matches Stage::FetchingInfo(uri)
                &&& request.uris.len() == 1
                &&& request.uris[0] == uri
                &&& e matches Event::Info(Some(file))
                &&& request.entity == file.primary_entity
            },
            Action::Connect { url, temp_name } => {
                &&& e matches Event::Urls(Some(urls))
                &&& urls.len() > 0
                &&& url == urls[0]
                &&& temp_name == "cloudreve_download_"@ + t.task_id
            },
            Action::CopyBeside(name) => name == ".cloudreve_replace_"@ + t.task_id,
            Action::ReplaceByCopy(name) => name == ".cloudreve_replace_"@ + t.task_id,
            Action::Commit { drive, file } => uuid_value(t.drive_id) == Some(drive) && t.remote
                == Some(file),
            _ => true,
        },
{
}

/// Tasks with different IDs work with different files, and the temporary file is none of the
/// copies.
pub proof fn law_file_names_are_distinct(a: Text, b: Text)
    ensures
        temp_name(a) == temp_name(b) <==> a == b,
        copy_name(a) == copy_name(b) <==> a == b,
        temp_name(a) != copy_name(b),
{
    reveal_strlit("cloudreve_download_");
    reveal_strlit(".cloudreve_replace_");
    assert(temp_name(a).skip("cloudreve_download_"@.len() as int) =~= a);
    assert(temp_name(b).skip("cloudreve_download_"@.len() as int) =~= b);
    assert(copy_name(a).skip(".cloudreve_replace_"@.len() as int) =~= a);
    assert(copy_name(b).skip(".cloudreve_replace_"@.len() as int) =~= b);
    assert(temp_name(a)[0] == 'c');
    assert(copy_name(b)[0] == '.');
}

/// A size is read by its bits: as it is unless it is negative, and otherwise plus 2^64.
pub proof fn law_sizes_are_read_by_bits(size: i64)
    ensures
        (unsigned(size) - size) % 0x1_0000_0000_0000_0000 == 0,
        size >= 0 ==> unsigned(size) == size,
{
}

/// The words of a fault name what they are about: the path that is not in the inventory, and the
/// status that was returned.
pub proof fn law_fault_is_worded(path: Text, code: u16)
    ensures
        fault_message(Fault::NotInInventory(path)) == Some(
            "File not found in inventory: "@ + path
                + ". Cannot download without inventory metadata."@,
        ),
        fault_message(Fault::Status(code)) == Some(
            "Download request failed with status: "@ + status_display(code),
        ),
        while_replacing(Fault::Copy) && while_replacing(Fault::DriveId) && while_replacing(
            Fault::Commit,
        ),
        !while_replacing(Fault::NotInInventory(path)) && !while_replacing(Fault::Status(code)),
{
}

/// What a step of the task comes to is the next state and step, and where there is none the task
/// stays as it is.
pub proof fn law_step_is_next<D>(
    before: TaskView<D>,
    e: Event<Text, Texts, D>,
    after: TaskView<D>,
    step: Option<Step<String, Vec<String>, D>>,
)
    requires
        followed(before, e, after, step),
    ensures
        step is Some <==> next(before, e) is Some,
        step matches Some(s) ==> next(before, e) == Some((after, s@)),
        step is None ==> after == before,
{
}


/// The temporary file is removed before the content is requested, when the download of the content
/// fails, and when the task is done; at no other time.
pub proof fn law_when_temp_file_is_removed<D>(t: TaskView<D>, e: Event<Text, Texts, D>)
    ensures
        next(t, e) matches Some((_, step)) ==> (step.remove_temp <==> {
            ||| step.action is Connect
            ||| step.action == Action::<Text, Texts, D>::Finish(Outcome::Done)
            ||| step.action is Finish && (t.stage is Connecting || t.stage is Creating || t.stage
                is Streaming || t.stage is Writing || t.stage is Flushing)
        }),
{
}

/// A task stays the task that it is: its ID, its drive, its path and its way of replacing files
/// never change.
pub proof fn law_task_keeps_its_identity<D>(t: TaskView<D>, events: Seq<Event<Text, Texts, D>>)
    ensures
        run(t, events).0.task_id == t.task_id,
        run(t, events).0.drive_id == t.drive_id,
        run(t, events).0.local_path == t.local_path,
        run(t, events).0.atomic_replace == t.atomic_replace,
    decreases events.len(),
{
    if events.len() > 0 {
        law_task_keeps_its_identity(t, events.drop_last());
    }
}

/// Tracking starts when the content is requested, with the size that the server stated, no bytes
/// and no samples; and from then on the tracker changes by the chunks that are written alone.
pub proof fn law_tracking_starts_with_request<D>(t: TaskView<D>, e: Event<Text, Texts, D>)
    requires
        next(t, e) is Some,
    ensures
        next(t, e) matches Some((after, step)) && {
            &&& step.action is Connect ==> {
                &&& t.stage matches Stage::FetchingUrl(size)
                &&& after.tracker matches Some(tracker)
                &&& tracker.downloaded == 0
                &&& tracker.samples.len() == 0
                &&& (size >= 0 ==> tracker.total_size == size)
            }
            &&& !(step.action is Connect) && !(e is Written) ==> after.tracker == t.tracker
        },
{
}


} // verus!

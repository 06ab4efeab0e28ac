//! What holds of the receiving side as a whole, over several requests.
use std::time::Instant;
use vstd::prelude::*;

use crate::clock::{age_secs, Clock};
use crate::error::{AppError, AppErrorView};
use crate::platform::Platform;
use crate::receiver::chunk::{
    after_promotion, arrived, chunk_finalizes, chunk_opens, chunk_replies, complete_finalizes,
    complete_opens, complete_replies, creating_decides, epitaph, measure_decides,
    not_durable_because, nothing_taken, too_large, write_advances, ChunkFinalize, ChunkNext,
    ChunkWrite, CompleteFinalize, CompleteNext,
};
use crate::receiver::finalize::{
    after_failure, certifying_decides, completion_tombstone, failure_tombstone, finalizing_ends,
    finalizing_opens, hash_decides, placement_decides, promotion_ends, promotion_opens,
    promotion_records, starts_failing, Failing, FinalizeNext, FinalizePlace, PlaceFinalError,
    PlacedFile, PromoteNext, PromoteRecord,
};
use crate::receiver::init::{
    accepted_task, conflict_over, init_accepts, init_opens, init_replies, resume_offset, InitMeasure,
    InitNext, InitRequest,
};
use crate::receiver::intent::FinalizeIntent;
use crate::receiver::placement::{intent_for, PlaceJob};
use crate::receiver::resume::{
    ended_receive, history_decides, looking_decides, plain_file_of, reading_decides, recovered_task,
    recovery_promotes, replayed_chunk, replayed_status, reply_view, resolving_decides, FinalEntry,
    IntentRead, RecoverHash, RecoverNext, RecoverRead, RecoverStat,
};
use crate::receiver::status::{status_of_task, status_of_tomb, status_opens, StatusNext};
use crate::receiver::validation::{safe_name, stays_within};
use crate::receiver::ChunkResp;
use crate::registry::{OutcomeView, RegistryView, TOMBSTONE_TTL_SECS};
use crate::task::{opt_task, TaskView, TransferDirection, TransferStatus};
use crate::CHUNK_SIZE;

verus! {

// ---------------------------------------------------------------------------
// Repeated requests
// ---------------------------------------------------------------------------
/// Once a transfer has been recorded as completed, and for as long as its
/// tombstone stands, a repeated chunk of whatever offset is answered with success
/// and the whole size. Nothing is written, nothing is put in progress again.
pub proof fn a_repeated_chunk_is_answered_as_completed(
    platform: Platform,
    before: RegistryView,
    recorded: RegistryView,
    state: PromoteRecord,
    clock: Clock,
    promoted: PromoteNext,
    after: RegistryView,
    offset: u64,
    len: usize,
    at: Instant,
    next: ChunkNext,
)
    requires
        promotion_records(platform, before, recorded, state, Ok::<(), AppError>(()), clock, promoted),
        chunk_opens(recorded, after, state.id@, offset, len, at, next),
        len <= CHUNK_SIZE,
        age_secs(at, clock.at) < TOMBSTONE_TTL_SECS,
    ensures
        chunk_replies(
            next,
            Ok(ChunkResp { success: true, received_bytes: state.task@.size }),
        ),
        after.tasks == recorded.tasks,
        after.standing(state.id@, at) == recorded.standing(state.id@, at),
{
    assert(after.tombstones.contains_key(state.id@));
}

/// Likewise a repeated request to complete.
pub proof fn a_repeated_complete_is_answered_as_completed(
    platform: Platform,
    before: RegistryView,
    recorded: RegistryView,
    state: PromoteRecord,
    clock: Clock,
    promoted: PromoteNext,
    after: RegistryView,
    at: Instant,
    next: CompleteNext,
)
    requires
        promotion_records(platform, before, recorded, state, Ok::<(), AppError>(()), clock, promoted),
        complete_opens(recorded, after, state.id@, at, next),
        age_secs(at, clock.at) < TOMBSTONE_TTL_SECS,
    ensures
        complete_replies(
            next,
            Ok(ChunkResp { success: true, received_bytes: state.task@.size }),
            None,
        ),
        after.tasks == recorded.tasks,
{
}

/// Likewise a request for the status: it is `completed`, with every byte moved.
pub proof fn a_completed_transfer_has_status_completed(
    platform: Platform,
    before: RegistryView,
    recorded: RegistryView,
    state: PromoteRecord,
    clock: Clock,
    promoted: PromoteNext,
    after: RegistryView,
    at: Instant,
    next: StatusNext,
)
    requires
        promotion_records(platform, before, recorded, state, Ok::<(), AppError>(()), clock, promoted),
        status_opens(recorded, after, state.id@, at, next),
        age_secs(at, clock.at) < TOMBSTONE_TTL_SECS,
    ensures
        next matches StatusNext::Reply(r) && r@.status == "completed"@ && r@.transferred_bytes
            == state.task@.size && r@.size == state.task@.size && r@.filename == state.task@.filename,
{
}

/// Likewise an attempt to open the transfer again is refused.
pub proof fn a_completed_transfer_is_not_opened_again(
    platform: Platform,
    before: RegistryView,
    recorded: RegistryView,
    state: PromoteRecord,
    clock: Clock,
    promoted: PromoteNext,
    after: RegistryView,
    request: InitRequest,
    at: Instant,
    next: InitNext,
)
    requires
        promotion_records(platform, before, recorded, state, Ok::<(), AppError>(()), clock, promoted),
        init_opens(recorded, after, request, at, next),
        request.transfer_id@ == state.id@,
        age_secs(at, clock.at) < TOMBSTONE_TTL_SECS,
    ensures
        init_replies(next, Err(conflict_over(state.id@, "` 已终态完成，拒绝重新 init"@))),
        after.tasks == recorded.tasks,
{
}

/// Once a transfer has failed, and for as long as its tombstone stands, a
/// repeated chunk is answered with the same failure: with what had arrived.
pub proof fn a_repeated_chunk_is_answered_as_failed(
    before: RegistryView,
    marked: RegistryView,
    id: Seq<char>,
    error: Seq<char>,
    now: Seq<char>,
    failing: Failing,
    set_at: Instant,
    after: RegistryView,
    offset: u64,
    len: usize,
    at: Instant,
    next: ChunkNext,
)
    requires
        before.task(id) is Some,
        starts_failing(before, marked, id, error, now, failing),
        chunk_opens(after_failure(marked, failing, set_at), after, id, offset, len, at, next),
        len <= CHUNK_SIZE,
        age_secs(at, set_at) < TOMBSTONE_TTL_SECS,
    ensures
        chunk_replies(
            next,
            Ok(
                ChunkResp {
                    success: false,
                    received_bytes: before.tasks[id].transferred_bytes,
                },
            ),
        ),
{
}

// ---------------------------------------------------------------------------
// Memory and history
// ---------------------------------------------------------------------------
/// What the tombstone of a completed transfer answers, its row in history
/// answers too: a restart, or the end of the tombstone, changes no answer.
pub proof fn history_answers_as_the_tombstone_did(
    platform: Platform,
    id: Seq<char>,
    task: TaskView,
    now: Seq<char>,
    at: Instant,
)
    requires
        task.direction == TransferDirection::Receive,
        task.status == TransferStatus::Completed,
    ensures
        replayed_chunk(Some(task)) == Some(epitaph(completion_tombstone(platform, task, now, at))),
        replayed_status(id, Some(task)) == Some(
            status_of_tomb(id, completion_tombstone(platform, task, now, at)),
        ),
{
}

/// The same holds of a transfer that failed: the row that is recorded for it
/// answers as its tombstone does.
pub proof fn history_answers_failures_as_the_tombstone_did(
    before: RegistryView,
    marked: RegistryView,
    id: Seq<char>,
    error: Seq<char>,
    now: Seq<char>,
    failing: Failing,
    at: Instant,
)
    requires
        starts_failing(before, marked, id, error, now, failing),
        before.task(id) is Some,
        before.tasks[id].direction == TransferDirection::Receive,
    ensures
        failing.row is Some,
        replayed_chunk(opt_task(failing.row)) == Some(
            epitaph(failure_tombstone(before.tasks[id], error, now, at)),
        ),
        replayed_status(id, opt_task(failing.row)) == Some(
            status_of_tomb(id, failure_tombstone(before.tasks[id], error, now, at)),
        ),
{
}

// ---------------------------------------------------------------------------
// What is never touched
// ---------------------------------------------------------------------------
/// A task that this device is sending is safe from every receiving request under
/// its id: nothing is read, written, moved or recorded for it, and it stays as
/// it is.
pub proof fn a_sent_file_is_never_touched(
    registry: RegistryView,
    id: Seq<char>,
    at: Instant,
    request: InitRequest,
    after_init: RegistryView,
    init: InitNext,
    offset: u64,
    len: usize,
    after_chunk: RegistryView,
    chunk: ChunkNext,
    after_complete: RegistryView,
    complete: CompleteNext,
    finalize: FinalizeNext,
)
    requires
        registry.task(id) is Some,
        registry.tasks[id].direction == TransferDirection::Send,
        request.transfer_id@ == id,
        init_opens(registry, after_init, request, at, init),
        chunk_opens(registry, after_chunk, id, offset, len, at, chunk),
        complete_opens(registry, after_complete, id, at, complete),
        finalizing_opens(registry, id, finalize),
    ensures
        after_init == registry,
        init_replies(init, Err(conflict_over(id, "` 属于发送任务，拒绝作为接收 init 目标"@))),
        after_chunk == registry,
        len <= CHUNK_SIZE ==> chunk_replies(chunk, Ok(nothing_taken())),
        len > CHUNK_SIZE ==> chunk_replies(chunk, Err(too_large(len as nat))),
        after_complete == registry,
        complete_replies(complete, Ok(nothing_taken()), None),
        finalizing_ends(finalize, Ok(()), None),
{
}

/// A file that is in place is never written to again: a chunk for it leads to
/// its promotion or to an answer, not to a write.
pub proof fn a_placed_file_is_never_written_to(
    registry: RegistryView,
    id: Seq<char>,
    offset: u64,
    len: usize,
    at: Instant,
    after: RegistryView,
    next: ChunkNext,
)
    requires
        registry.task(id) is Some,
        registry.tasks[id].status == TransferStatus::Completed,
        chunk_opens(registry, after, id, offset, len, at, next),
    ensures
        !(next is Write),
        after == registry,
{
}

/// A file that is in place but not recorded is not reported as completed.
pub proof fn an_unrecorded_file_is_not_reported_as_completed(id: Seq<char>, task: TaskView)
    requires
        task.direction == TransferDirection::Receive,
    ensures
        status_of_task(id, task).status != "completed"@,
        task.status == TransferStatus::Completed ==> status_of_task(id, task).status
            == "transferring"@ && status_of_task(id, task).transferred_bytes == task.size,
{
    reveal_strlit("pending");
    reveal_strlit("transferring");
    reveal_strlit("completed");
    reveal_strlit("failed");
    reveal_strlit("cancelled");
    assert("completed"@[2] != "cancelled"@[2]);
    assert("completed"@.len() != "transferring"@.len());
    assert("completed"@.len() != "failed"@.len());
    assert("completed"@.len() != "pending"@.len());
}

/// Once the file has been put in place the transfer does not fail any more: its
/// task is completed, with its file at the final path, and stays in progress
/// until it is recorded.
pub proof fn a_placed_file_is_never_failed(
    before: RegistryView,
    after: RegistryView,
    state: FinalizePlace,
    outcome: Result<PlacedFile, PlaceFinalError>,
    clock: Clock,
    next: FinalizeNext,
)
    requires
        placement_decides(before, after, state, outcome, clock, next),
        outcome matches Err(e) ==> e is DurabilityPending,
        before.task(state.id@) is Some,
    ensures
        !(next is Fail),
        after.task(state.id@) is Some,
        after.tasks[state.id@].status == TransferStatus::Completed,
        after.tasks[state.id@].file_path == (match outcome {
            Ok(placed) => placed.final_path@,
            Err(PlaceFinalError::DurabilityPending { placed, message }) => placed.final_path@,
            Err(PlaceFinalError::Unplaced(e)) => Seq::empty(),
        }),
{
}

// ---------------------------------------------------------------------------
// A history that fails
// ---------------------------------------------------------------------------
/// Finalizing transfer `id` up to the recording of its row, every action having
/// succeeded: the contents are right, the file is put in place, and it is
/// certified.
pub open spec fn finalizes_up_to(
    platform: Platform,
    id: Seq<char>,
    before: RegistryView,
    sha: String,
    receive_dir: Seq<char>,
    placed: PlacedFile,
    clock: Clock,
    opened: FinalizeNext,
    hashed: RegistryView,
    after_hash: FinalizeNext,
    in_place: RegistryView,
    after_place: FinalizeNext,
    record: PromoteRecord,
) -> bool {
    &&& finalizing_opens(before, id, opened)
    &&& opened matches FinalizeNext::HashTmp(h) ==> hash_decides(
        platform,
        before,
        hashed,
        h,
        Ok::<String, AppError>(sha),
        receive_dir,
        clock,
        after_hash,
    )
    &&& after_hash matches FinalizeNext::Place(p) ==> placement_decides(
        hashed,
        in_place,
        p,
        Ok::<PlacedFile, PlaceFinalError>(placed),
        clock,
        after_place,
    )
    &&& after_place matches FinalizeNext::Promote(PromoteNext::Certify(c)) ==> certifying_decides(
        c,
        Ok::<(), AppError>(()),
        PromoteNext::Record(record),
    )
}

/// Finalizing transfer `id` again, up to the recording of its row, its file being
/// in place and certified.
pub open spec fn promotes_up_to(
    id: Seq<char>,
    before: RegistryView,
    opened: FinalizeNext,
    record: PromoteRecord,
) -> bool {
    &&& finalizing_opens(before, id, opened)
    &&& opened matches FinalizeNext::Promote(PromoteNext::Certify(c)) ==> certifying_decides(
        c,
        Ok::<(), AppError>(()),
        PromoteNext::Record(record),
    )
}

/// A transfer that has been received whole and is being received still.
pub open spec fn received(platform: Platform, registry: RegistryView, id: Seq<char>, sha: String) -> bool {
    &&& registry.task(id) is Some
    &&& registry.tasks[id].direction == TransferDirection::Receive
    &&& registry.tasks[id].status != TransferStatus::Completed
    &&& registry.tasks[id].sha256 == sha@
    &&& safe_name(platform, registry.tasks[id].filename)
    &&& registry.tomb(id) is None
}

/// Whoever asks at `at` is told that the transfer has the status `status`.
pub open spec fn reported(registry: RegistryView, id: Seq<char>, at: Instant, status: Seq<char>) -> bool {
    forall|post: RegistryView, next: StatusNext| #[trigger]
        status_opens(registry, post, id, at, next) ==> (next matches StatusNext::Reply(r) && r@.status
            == status)
}

/// A transfer whose file is in place at `path`, and whose row is not recorded: it
/// is not reported as completed.
pub open spec fn unrecorded(
    registry: RegistryView,
    id: Seq<char>,
    size: u64,
    path: Seq<char>,
) -> bool {
    &&& registry.task(id) is Some
    &&& registry.tasks[id].direction == TransferDirection::Receive
    &&& registry.tasks[id].status == TransferStatus::Completed
    &&& registry.tasks[id].size == size
    &&& registry.tasks[id].file_path == path
    &&& registry.tomb(id) is None
    &&& forall|at: Instant| #[trigger] reported(registry, id, at, "transferring"@)
}

/// A transfer that was recorded: its tombstone stands in its place.
pub open spec fn recorded_as_completed(
    registry: RegistryView,
    id: Seq<char>,
    size: u64,
    path: Seq<char>,
    at: Instant,
) -> bool {
    &&& registry.task(id) is None
    &&& registry.standing(id, at) matches Some(tomb) && tomb.size == size && tomb.received_bytes == size
        && (tomb.outcome matches OutcomeView::Completed { file_path, .. } && file_path == path)
    &&& reported(registry, id, at, "completed"@)
}

/// The row that is recorded says that the transfer completed, with its file at
/// `path`.
pub open spec fn records_completion(record: PromoteRecord, id: Seq<char>, path: Seq<char>) -> bool {
    &&& record.id@ == id
    &&& record.task@.status == TransferStatus::Completed
    &&& record.task@.file_path == path
}

/// A request to complete whose row cannot be recorded is answered with an error
/// that may be repeated. The file stays in place, the transfer stays in progress,
/// and it is not reported as completed. The same request made again, the row now
/// being recorded, is answered with success and the whole size; the transfer has
/// left the registry for its tombstone, and its intent is cleared.
pub proof fn a_complete_succeeds_once_it_is_recorded(
    platform: Platform,
    id: Seq<char>,
    started: RegistryView,
    // The first request.
    at: Instant,
    opened: RegistryView,
    after_open: CompleteNext,
    len: Option<u64>,
    measured: RegistryView,
    after_measure: CompleteNext,
    created: RegistryView,
    after_create: CompleteNext,
    ready: CompleteFinalize,
    sha: String,
    receive_dir: Seq<char>,
    placed: PlacedFile,
    clock: Clock,
    finalizing: FinalizeNext,
    hashed: RegistryView,
    after_hash: FinalizeNext,
    in_place: RegistryView,
    after_place: FinalizeNext,
    record: PromoteRecord,
    failure: AppError,
    refused: RegistryView,
    after_refusal: PromoteNext,
    answered: RegistryView,
    answer: CompleteNext,
    // The second request.
    again_at: Instant,
    reopened: RegistryView,
    after_reopen: CompleteNext,
    promoting: FinalizeNext,
    record_again: PromoteRecord,
    clock_again: Clock,
    recorded: RegistryView,
    after_record: PromoteNext,
    end_at: Instant,
    end: RegistryView,
    reply: Result<ChunkResp, AppError>,
)
    requires
        received(platform, started, id, sha),
        complete_opens(started, opened, id, at, after_open),
        arrived(started.tasks[id], len) >= started.tasks[id].size,
        after_open matches CompleteNext::MeasureTmp(s) ==> measure_decides(
            opened,
            measured,
            s,
            Ok::<Option<u64>, AppError>(len),
            clock,
            after_measure,
        ),
        after_measure matches CompleteNext::Finalize(f) ==> ready == f && created == measured,
        after_measure matches CompleteNext::CreateEmpty(c) ==> creating_decides(
            measured,
            created,
            c,
            Ok::<(), AppError>(()),
            clock,
            after_create,
        ) && after_create == CompleteNext::Finalize(ready),
        finalizes_up_to(
            platform,
            id,
            created,
            sha,
            receive_dir,
            placed,
            clock,
            finalizing,
            hashed,
            after_hash,
            in_place,
            after_place,
            record,
        ),
        promotion_records(
            platform,
            in_place,
            refused,
            record,
            Err::<(), AppError>(failure),
            clock,
            after_refusal,
        ),
        complete_finalizes(
            refused,
            answered,
            ready,
            Err::<(), AppError>(failure),
            at,
            answer,
        ),
        complete_opens(answered, reopened, id, again_at, after_reopen),
        promotes_up_to(id, reopened, promoting, record_again),
        promotion_records(
            platform,
            reopened,
            recorded,
            record_again,
            Ok::<(), AppError>(()),
            clock_again,
            after_record,
        ),
        after_promotion(recorded, end, id, Ok::<(), AppError>(()), end_at, reply_view(reply)),
        age_secs(end_at, clock_again.at) < TOMBSTONE_TTL_SECS,
    ensures
        promotion_ends(after_refusal, Err(failure@), None),
        complete_replies(answer, Err(not_durable_because(id, failure@)), None),
        unrecorded(answered, id, started.tasks[id].size, placed.final_path@),
        after_reopen matches CompleteNext::Promote(s) && s.id@ == id,
        reply_view(reply) == Ok::<ChunkResp, AppErrorView>(
            ChunkResp { success: true, received_bytes: started.tasks[id].size },
        ),
        recorded_as_completed(end, id, started.tasks[id].size, placed.final_path@, end_at),
        records_completion(record_again, id, placed.final_path@),
        after_record matches PromoteNext::ClearIntent(c) && c.id@ == id,
{
    assert(recorded.tombstones.contains_key(id));
}

/// The last chunk, whose row cannot be recorded, is answered with an error that
/// may be repeated, not with a failure. The file stays in place, the transfer
/// stays in progress, and it is not reported as completed. A chunk sent again, the
/// row now being recorded, is answered with success and the whole size, without
/// anything being written.
pub proof fn a_last_chunk_succeeds_once_it_is_recorded(
    platform: Platform,
    started: RegistryView,
    // The first request.
    write: ChunkWrite,
    at: Instant,
    moved: RegistryView,
    after_write: ChunkNext,
    ready: ChunkFinalize,
    sha: String,
    receive_dir: Seq<char>,
    placed: PlacedFile,
    clock: Clock,
    finalizing: FinalizeNext,
    hashed: RegistryView,
    after_hash: FinalizeNext,
    in_place: RegistryView,
    after_place: FinalizeNext,
    record: PromoteRecord,
    failure: AppError,
    refused: RegistryView,
    after_refusal: PromoteNext,
    answered: RegistryView,
    answer: ChunkNext,
    // The second request.
    offset: u64,
    len: usize,
    again_at: Instant,
    reopened: RegistryView,
    after_reopen: ChunkNext,
    promoting: FinalizeNext,
    record_again: PromoteRecord,
    clock_again: Clock,
    recorded: RegistryView,
    after_record: PromoteNext,
    end_at: Instant,
    end: RegistryView,
    reply: Result<ChunkResp, AppError>,
)
    requires
        received(platform, started, write.id@, sha),
        write.size == started.tasks[write.id@].size,
        write.offset + write.len >= write.size,
        write_advances(started, moved, write, Ok::<(), AppError>(()), at, after_write),
        after_write matches ChunkNext::Finalize(f) ==> ready == f,
        finalizes_up_to(
            platform,
            write.id@,
            moved,
            sha,
            receive_dir,
            placed,
            clock,
            finalizing,
            hashed,
            after_hash,
            in_place,
            after_place,
            record,
        ),
        promotion_records(
            platform,
            in_place,
            refused,
            record,
            Err::<(), AppError>(failure),
            clock,
            after_refusal,
        ),
        chunk_finalizes(refused, answered, ready, Err::<(), AppError>(failure), at, answer),
        len <= CHUNK_SIZE,
        chunk_opens(answered, reopened, write.id@, offset, len, again_at, after_reopen),
        promotes_up_to(write.id@, reopened, promoting, record_again),
        promotion_records(
            platform,
            reopened,
            recorded,
            record_again,
            Ok::<(), AppError>(()),
            clock_again,
            after_record,
        ),
        after_promotion(
            recorded,
            end,
            write.id@,
            Ok::<(), AppError>(()),
            end_at,
            reply_view(reply),
        ),
        age_secs(end_at, clock_again.at) < TOMBSTONE_TTL_SECS,
    ensures
        promotion_ends(after_refusal, Err(failure@), None),
        chunk_replies(answer, Err(not_durable_because(write.id@, failure@))),
        unrecorded(answered, write.id@, write.size, placed.final_path@),
        after_reopen matches ChunkNext::Promote(s) && s.id@ == write.id@,
        reply_view(reply) == Ok::<ChunkResp, AppErrorView>(
            ChunkResp { success: true, received_bytes: write.size },
        ),
        recorded_as_completed(end, write.id@, write.size, placed.final_path@, end_at),
        records_completion(record_again, write.id@, placed.final_path@),
        after_record matches PromoteNext::ClearIntent(c) && c.id@ == write.id@,
{
    assert(recorded.tombstones.contains_key(write.id@));
}

// ---------------------------------------------------------------------------
// Restarts
// ---------------------------------------------------------------------------
/// A file that was put in place, and whose transfer a restart kept from being
/// recorded, is recovered where it is: its intent, read back, leads to the
/// promotion of the file under the path that it was given, and to no other name.
/// Until it is recorded the transfer stays in progress, completed.
pub proof fn a_placed_file_is_recovered_where_it_is(
    platform: Platform,
    job: PlaceJob,
    final_filename: Seq<char>,
    final_path: Seq<char>,
    placed_at: Seq<char>,
    intent: FinalizeIntent,
    read: RecoverRead,
    after_read: RecoverNext,
    row: Option<TaskView>,
    after_lookup: RecoverNext,
    canonical_dir: Option<Seq<char>>,
    canonical_parent: Option<Seq<char>>,
    after_resolve: RecoverNext,
    entry: FinalEntry,
    after_look: RecoverNext,
    restarted: RegistryView,
    sha: String,
    clock: Clock,
    recovered: RegistryView,
    next: RecoverNext,
)
    requires
        intent@ == intent_for(job, final_filename, final_path, placed_at),
        read.id@ == job.id@,
        reading_decides(read, IntentRead::Parsed(intent), after_read),
        row matches Some(t) ==> !ended_receive(t),
        after_read matches RecoverNext::LookupHistory(s) ==> history_decides(
            s,
            Ok(row),
            after_lookup,
        ),
        stays_within(platform, read.receive_dir@, final_path, canonical_dir, canonical_parent) is Ok,
        after_lookup matches RecoverNext::Resolve(s) ==> resolving_decides(
            platform,
            s,
            canonical_dir,
            canonical_parent,
            after_resolve,
        ),
        plain_file_of(entry, job.task@.size),
        after_resolve matches RecoverNext::Stat(s) ==> looking_decides(s, entry, after_look),
        sha@ == job.task@.sha256,
        after_look matches RecoverNext::Hash(s) ==> recovery_promotes(
            restarted,
            recovered,
            s,
            Ok::<String, AppError>(sha),
            clock,
            next,
        ),
    ensures
        after_look is Hash,
        next matches RecoverNext::Promote(p) && p.after.size == job.task@.size && promotion_opens(
            job.id@,
            recovered_task(job.id@, intent@, clock.iso@),
            p.promotion,
        ),
        recovered.task(job.id@) is Some,
        recovered.tasks[job.id@].status == TransferStatus::Completed,
        recovered.tasks[job.id@].file_path == final_path,
        recovered.tombstones == restarted.tombstones,
{
}

/// What is found at the final path is recovered only if it is what was promised:
/// a link, a directory, a file of another size, and a file of the same size with
/// other contents are left alone, and nothing is put in progress for them.
pub proof fn only_the_promised_file_is_recovered(
    looked: RecoverStat,
    entry: FinalEntry,
    after_look: RecoverNext,
    hashed: RecoverHash,
    before: RegistryView,
    after: RegistryView,
    sha: Result<String, AppError>,
    clock: Clock,
    next: RecoverNext,
)
    requires
        looking_decides(looked, entry, after_look),
        recovery_promotes(before, after, hashed, sha, clock, next),
    ensures
        !plain_file_of(entry, looked.intent@.size) ==> after_look is ClearAndGiveUp,
        sha is Err || sha->Ok_0@ != hashed.intent@.sha256 ==> next is ClearAndGiveUp && after == before,
{
}

// ---------------------------------------------------------------------------
// From the first request to the last
// ---------------------------------------------------------------------------
/// A transfer that was accepted is in progress from the offset that was
/// answered, and the same request made again is accepted again.
pub proof fn an_accepted_transfer_is_accepted_again(
    before: RegistryView,
    accepted: RegistryView,
    state: InitMeasure,
    measured: Option<u64>,
    clock: Clock,
    reply: InitNext,
    after: RegistryView,
    again: InitRequest,
    at: Instant,
    next: InitNext,
)
    requires
        init_accepts(before, accepted, state, Ok::<Option<u64>, AppError>(measured), clock, reply),
        resume_offset(measured) <= state.request.meta.size,
        again.transfer_id@ == state.request.transfer_id@,
        again.safe_filename@ == state.request.safe_filename@,
        again.meta == state.request.meta,
        init_opens(accepted, after, again, at, next),
    ensures
        accepted.task(state.request.transfer_id@) == Some(
            accepted_task(state.request, state.tmp_path@, resume_offset(measured), clock.iso@),
        ),
        after == accepted,
        next matches InitNext::ProbeLen(s) && s.transfer_id@ == state.request.transfer_id@
            && s.transferred_bytes == resume_offset(measured),
{
}

/// The last chunk of a file whose contents are right, from the write to the
/// answer: with every outside action succeeding, the answer is success with the
/// whole size, and the transfer has left the registry for its tombstone.
pub proof fn the_last_chunk_completes_the_transfer(
    platform: Platform,
    started: RegistryView,
    task: TaskView,
    write: ChunkWrite,
    at: Instant,
    moved: RegistryView,
    after_write: ChunkNext,
    opened: FinalizeNext,
    sha: String,
    receive_dir: Seq<char>,
    hashed: RegistryView,
    after_hash: FinalizeNext,
    clock: Clock,
    placed: PlacedFile,
    in_place: RegistryView,
    after_place: FinalizeNext,
    record: PromoteRecord,
    recorded: RegistryView,
    after_record: PromoteNext,
    end: RegistryView,
    answer: ChunkNext,
)
    requires
        started.task(write.id@) == Some(task),
        task.direction == TransferDirection::Receive,
        task.status == TransferStatus::Transferring,
        write.size == task.size,
        write.offset + write.len == task.size,
        safe_name(platform, task.filename),
        sha@ == task.sha256,
        write_advances(started, moved, write, Ok::<(), AppError>(()), at, after_write),
        finalizing_opens(moved, write.id@, opened),
        opened matches FinalizeNext::HashTmp(h) ==> hash_decides(
            platform,
            moved,
            hashed,
            h,
            Ok::<String, AppError>(sha),
            receive_dir,
            clock,
            after_hash,
        ),
        after_hash matches FinalizeNext::Place(p) ==> placement_decides(
            hashed,
            in_place,
            p,
            Ok::<PlacedFile, PlaceFinalError>(placed),
            clock,
            after_place,
        ),
        record.id@ == write.id@,
        record.task@ == in_place.tasks[write.id@],
        promotion_records(platform, in_place, recorded, record, Ok::<(), AppError>(()), clock, after_record),
        after_write matches ChunkNext::Finalize(f) ==> chunk_finalizes(
            recorded,
            end,
            f,
            Ok::<(), AppError>(()),
            at,
            answer,
        ),
        age_secs(at, clock.at) < TOMBSTONE_TTL_SECS,
    ensures
        after_write is Finalize,
        opened is HashTmp,
        after_hash is Place,
        after_place matches FinalizeNext::Promote(p) && p is Certify,
        in_place.task(write.id@) is Some,
        in_place.tasks[write.id@].file_path == placed.final_path@,
        chunk_replies(answer, Ok(ChunkResp { success: true, received_bytes: task.size })),
        end.task(write.id@) is None,
        end.standing(write.id@, at) is Some,
{
    assert(recorded.tombstones.contains_key(write.id@));
}

} // verus!

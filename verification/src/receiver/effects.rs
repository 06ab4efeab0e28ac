//! What each request to the receiving side does: to the transfer that it names,
//! to the others, and in its answer.
use std::time::Instant;
use vstd::prelude::*;

use crate::clock::{age_secs, Clock};
use crate::error::{AppError, AppErrorView};
use crate::platform::Platform;
use crate::receiver::chunk::{
    after_promotion, chunk_finalizes, chunk_looks_up, chunk_opens, complete_finalizes,
    complete_looks_up, complete_opens, complete_recovers, creating_decides, measure_decides,
    write_advances, ChunkFinalize, ChunkNext, ChunkWrite, CompleteCreate, CompleteFinalize,
    CompleteMeasure, CompleteNext,
};
use crate::receiver::init::{
    accepts_names, discarding_answers, init_accepts, init_looks_up, init_opens, init_recovers,
    probing_answers, InitDiscard, InitHistory, InitMeasure, InitNext, InitProbe, InitRequest,
};
use crate::receiver::resume::reply_view;
use crate::receiver::status::{
    status_looks_again, status_looks_up, status_opens, status_recovers, StatusNext,
};
use crate::receiver::{ChunkResp, InitMeta};
use crate::registry::{
    only_forgets, only_records, others_kept, progress_is_recorded_as_told, same_attempt,
    tombstones_are_forgotten_by_age_alone, RegistryView, TombstoneView, TOMBSTONE_TTL_SECS,
};
use crate::task::{TaskView, TransferDirection, TransferStatus};
use crate::text::{decimal, trimmed};
use crate::CHUNK_SIZE;

verus! {

broadcast use vstd::string::group_string_axioms;

/// There is a tombstone under `id` that is not too old at `at`.
pub open spec fn remembered(registry: RegistryView, id: Seq<char>, at: Instant) -> bool {
    registry.tombstones.contains_key(id) && age_secs(at, registry.tombstones[id].created_at)
        < TOMBSTONE_TTL_SECS
}

/// The error that asks for a repetition, because the end of `id` is not recorded.
pub open spec fn asks_again(id: Seq<char>) -> AppErrorView {
    AppErrorView::Unavailable("transfer_history 尚未 durable，请重试 complete: "@ + id)
}

/// The same, with what kept it from being recorded.
pub open spec fn asks_again_because(id: Seq<char>, why: AppErrorView) -> AppErrorView {
    AppErrorView::Unavailable(
        "transfer_history 尚未 durable，请重试 complete: "@ + id + ": "@ + why.message(),
    )
}

/// A transfer of this side that has come to an end.
pub open spec fn received_to_an_end(task: TaskView) -> bool {
    task.direction == TransferDirection::Receive && (task.status == TransferStatus::Completed
        || task.status == TransferStatus::Failed || task.status == TransferStatus::Cancelled)
}

// ---------------------------------------------------------------------------
// init
// ---------------------------------------------------------------------------
/// The offset that an accepting `init` answers with is the length of the temporary
/// file, or nothing where there is none, and is what the task that it puts in
/// progress has received; that task is for the file that was announced, and no
/// other is touched. A temporary file longer than the file, and one that cannot be
/// measured, put nothing in progress.
pub proof fn an_accepted_init_goes_on_from_the_end_of_the_temporary_file(
    before: RegistryView,
    after: RegistryView,
    state: InitMeasure,
    measured: Result<Option<u64>, AppError>,
    clock: Clock,
    next: InitNext,
)
    requires
        init_accepts(before, after, state, measured, clock, next),
    ensures
        next matches InitNext::Reply(Ok(_)) <==> (measured matches Ok(m) && (m matches Some(len)
            ==> len <= state.request.meta.size)),
        next matches InitNext::Reply(Ok(r)) ==> ({
            let id = state.request.transfer_id@;
            let task = after.tasks[id];
            &&& r.accepted && r.transfer_id@ == id
            &&& measured matches Ok(Some(len)) ==> r.resume_offset == len
            &&& measured matches Ok(None) ==> r.resume_offset == 0
            &&& after.tasks.contains_key(id) && after.tokens.contains_key(id)
            &&& task.transferred_bytes == r.resume_offset && r.resume_offset <= task.size
            &&& task.id == id && task.filename == state.request.safe_filename@
            &&& task.file_path == state.tmp_path@
            &&& task.size == state.request.meta.size
            &&& task.sha256 == state.request.meta.sha256@
            &&& task.chunk_size == state.request.meta.chunk_size
            &&& task.direction == TransferDirection::Receive
            &&& task.peer_device_id.len() == 0
            &&& task.status == TransferStatus::Pending
            &&& task.created_at == clock.iso@ && task.completed_at is None
            &&& task.phase is None && task.failure is None && task.attempt == 1
            &&& task.logical_transfer_id == id && task.attempt_id == id && task.protocol_transfer_id
                == id
            &&& task.client_operation_id is None && task.operation_payload_hash is None
            &&& others_kept(before, after, id)
        }),
        !(next matches InitNext::Reply(Ok(_))) ==> after == before,
        measured matches Err(e) ==> (next matches InitNext::Reply(Err(x)) && x@ == e@),
        measured matches Ok(Some(len)) ==> (len > state.request.meta.size ==> (
        next matches InitNext::RemoveTmp(s) && s.tmp_path@ == state.tmp_path@ && s.len == len
            && s.size == state.request.meta.size)),
{
    if let Ok(m) = measured {
        let id = state.request.transfer_id@;
        assert(after.tasks.remove(id) =~= before.tasks.remove(id) || after == before);
        assert(after.tokens.remove(id) =~= before.tokens.remove(id) || after == before);
    }
}

/// A temporary file longer than the file is refused as invalid, with both lengths.
pub proof fn a_temporary_file_that_is_too_long_is_refused(state: InitDiscard, next: InitNext)
    requires
        discarding_answers(state, next),
    ensures
        next matches InitNext::Reply(Err(e)) && e@ == AppErrorView::Validation(
            "临时文件长度 "@ + decimal(state.len as nat) + " 超过声明 size "@ + decimal(
                state.size as nat,
            ) + "，已删除损坏断点，请重新发起传输"@,
        ),
{
}

/// A repeated `init` is answered with the larger of what has been recorded and
/// what lies in the file, and so never with less than was answered before.
pub proof fn a_repeated_init_never_goes_back(
    before: RegistryView,
    accepted: RegistryView,
    state: InitMeasure,
    measured: Result<Option<u64>, AppError>,
    clock: Clock,
    first: InitNext,
    again: InitRequest,
    at: Instant,
    after: RegistryView,
    probe: InitNext,
    len: Option<u64>,
    second: InitNext,
)
    requires
        init_accepts(before, accepted, state, measured, clock, first),
        first matches InitNext::Reply(Ok(_)),
        again.transfer_id@ == state.request.transfer_id@,
        again.safe_filename@ == state.request.safe_filename@,
        again.meta == state.request.meta,
        init_opens(accepted, after, again, at, probe),
        probe matches InitNext::ProbeLen(s) ==> probing_answers(s, len, second),
    ensures
        after == accepted,
        second matches InitNext::Reply(Ok(b)) && b.accepted && b.transfer_id@
            == state.request.transfer_id@ && (first matches InitNext::Reply(Ok(a))
            && a.resume_offset <= b.resume_offset && (len matches Some(n) ==> n <= b.resume_offset) && (
        b.resume_offset == a.resume_offset || len == Some(b.resume_offset))),
{
}

/// The answer for a transfer in progress goes on from the larger of what is
/// recorded and what lies in the file.
pub proof fn a_probed_init_goes_on_from_the_larger(
    state: InitProbe,
    len: Option<u64>,
    next: InitNext,
)
    requires
        probing_answers(state, len, next),
    ensures
        next matches InitNext::Reply(Ok(r)) && r.accepted && r.transfer_id@ == state.transfer_id@
            && state.transferred_bytes <= r.resume_offset && (len matches Some(n) ==> n
            <= r.resume_offset) && (r.resume_offset == state.transferred_bytes || len == Some(
            r.resume_offset,
        )),
{
}

/// A request is served under the names that it gives, without the white space
/// around them, or refused; a name that is served is one name without separators.
pub proof fn an_init_is_served_under_the_names_it_gives(
    platform: Platform,
    meta: InitMeta,
    request: Result<InitRequest, AppError>,
)
    requires
        accepts_names(platform, meta, request),
    ensures
        request matches Ok(r) ==> ({
            &&& r.meta == meta
            &&& r.safe_filename@ == trimmed(meta.filename@)
            &&& meta.transfer_id matches Some(id) ==> r.transfer_id@ == trimmed(id@)
            &&& r.safe_filename@.len() > 0 && r.transfer_id@.len() > 0
            &&& !r.safe_filename@.contains('/') && !r.safe_filename@.contains('\\')
                && !r.safe_filename@.contains('\0')
            &&& !r.transfer_id@.contains('/') && !r.transfer_id@.contains('\\')
                && !r.transfer_id@.contains('\0')
            &&& r.safe_filename@ != "."@ && r.safe_filename@ != ".."@
            &&& r.transfer_id@ != "."@ && r.transfer_id@ != ".."@
        }),
        request matches Err(e) ==> e@ is Validation,
{
}

/// `init` leaves a transfer in progress as it is. It goes on only for the same
/// file being received, from what the task says of it; any other is a conflict. A
/// transfer that is not in progress is looked up unless it is remembered to have
/// ended, which is a conflict too.
pub proof fn init_takes_over_no_transfer(
    before: RegistryView,
    after: RegistryView,
    request: InitRequest,
    at: Instant,
    next: InitNext,
)
    requires
        init_opens(before, after, request, at, next),
    ensures
        before.tasks.contains_key(request.transfer_id@) ==> ({
            let task = before.tasks[request.transfer_id@];
            &&& after == before
            &&& next is ProbeLen <==> task.direction == TransferDirection::Receive && task.filename
                == request.safe_filename@ && task.size == request.meta.size && task.sha256
                == request.meta.sha256@ && task.chunk_size == request.meta.chunk_size
            &&& next matches InitNext::ProbeLen(s) ==> s.transfer_id@ == request.transfer_id@
                && s.file_path@ == task.file_path && s.transferred_bytes == task.transferred_bytes
            &&& !(next is ProbeLen) ==> (next matches InitNext::Reply(Err(e)) && e@
                == AppErrorView::Conflict(
                "transfer_id `"@ + request.transfer_id@ + (if task.direction
                    == TransferDirection::Receive {
                    "` 已存在且元数据不一致，拒绝覆盖活跃传输"@
                } else {
                    "` 属于发送任务，拒绝作为接收 init 目标"@
                }),
            ))
        }),
        !before.tasks.contains_key(request.transfer_id@) ==> ({
            &&& only_forgets(before, after, at)
            &&& if remembered(before, request.transfer_id@, at) {
                next matches InitNext::Reply(Err(e)) && e@ == AppErrorView::Conflict(
                    "transfer_id `"@ + request.transfer_id@ + "` 已终态完成，拒绝重新 init"@,
                )
            } else {
                next matches InitNext::LookupHistory(s) && s.request == request
            }
        }),
{
    tombstones_are_forgotten_by_age_alone(
        before,
        request.transfer_id@,
        before.tombstones[request.transfer_id@],
        at,
    );
}

/// A transfer that history holds as ended, or that was recovered just now, is not
/// opened again; one that could not be looked up or recovered is refused for that
/// reason; any other goes on as it was asked for, in a temporary file of the
/// receive directory that is named after it.
pub proof fn init_opens_no_ended_transfer(
    platform: Platform,
    state: InitHistory,
    row: Result<Option<TaskView>, AppErrorView>,
    after_lookup: InitNext,
    request: InitRequest,
    outcome: Result<Option<ChunkResp>, AppError>,
    receive_dir: Seq<char>,
    canonical_dir: Option<Seq<char>>,
    canonical_parent: Option<Seq<char>>,
    after_recovery: InitNext,
)
    requires
        init_looks_up(state, row, after_lookup),
        init_recovers(
            platform,
            request,
            outcome,
            receive_dir,
            canonical_dir,
            canonical_parent,
            after_recovery,
        ),
    ensures
        row matches Err(e) ==> (after_lookup matches InitNext::Reply(Err(x)) && x@ == e),
        row matches Ok(Some(t)) && received_to_an_end(t) ==> (after_lookup matches InitNext::Reply(
            Err(x),
        ) && x@ == AppErrorView::Conflict(
            "transfer_id `"@ + state.request.transfer_id@
                + "` 已在 transfer_history 终态，拒绝重新 init"@,
        )),
        (row matches Ok(t) && (t matches Some(x) ==> !received_to_an_end(x))) ==> (
        after_lookup matches InitNext::Recover(s) && s.request == state.request),
        outcome matches Err(e) ==> (after_recovery matches InitNext::Reply(Err(x)) && x@ == e@),
        outcome matches Ok(Some(_)) ==> (after_recovery matches InitNext::Reply(Err(x)) && x@
            == AppErrorView::Conflict(
            "transfer_id `"@ + request.transfer_id@
                + "` 已从 finalize intent 恢复终态，拒绝重新 init"@,
        )),
        outcome matches Ok(None) ==> (after_recovery matches InitNext::Reply(Err(_)))
            || after_recovery is MeasureTmp,
        after_recovery matches InitNext::MeasureTmp(s) ==> s.request == request && s.tmp_path@
            == crate::paths::joined(
            platform,
            receive_dir,
            "."@ + request.transfer_id@ + ".tmp"@,
        ),
{
}

// ---------------------------------------------------------------------------
// chunk
// ---------------------------------------------------------------------------
/// A chunk is written at the offset, and with the length, that it came with, to
/// the file of the transfer that it names, and only its status changes. That
/// happens for every transfer that is being received and is not in place yet, and
/// for no other; and for no other is a task touched.
pub proof fn a_chunk_goes_to_its_own_place_in_its_own_file(
    before: RegistryView,
    after: RegistryView,
    id: Seq<char>,
    offset: u64,
    len: usize,
    at: Instant,
    next: ChunkNext,
)
    requires
        chunk_opens(before, after, id, offset, len, at, next),
    ensures
        next is Write <==> len <= CHUNK_SIZE && before.tasks.contains_key(id)
            && before.tasks[id].direction == TransferDirection::Receive && before.tasks[id].status
            != TransferStatus::Completed,
        next matches ChunkNext::Write(s) ==> ({
            let was = before.tasks[id];
            let now = after.tasks[id];
            &&& s.id@ == id && s.tmp_path@ == was.file_path
            &&& s.offset == offset && s.len == len && s.size == was.size
            &&& only_records(before, after, id)
            &&& now.status == TransferStatus::Transferring && now.transferred_bytes
                == was.transferred_bytes
            &&& same_attempt(now, was) && now.file_path == was.file_path
            &&& now.phase == was.phase && now.failure == was.failure && now.completed_at
                == was.completed_at
        }),
        len > CHUNK_SIZE ==> after == before && (next matches ChunkNext::Reply(Err(e)) && e@
            == AppErrorView::Validation(
            "chunk 大小 "@ + decimal(len as nat) + " 超过上限 "@ + decimal(CHUNK_SIZE as nat) + " 字节"@,
        )),
        len <= CHUNK_SIZE && before.tasks.contains_key(id) && !(next is Write) ==> after == before && (
        if before.tasks[id].direction == TransferDirection::Receive {
            next matches ChunkNext::Promote(s) && s.id@ == id
        } else {
            next matches ChunkNext::Reply(Ok(r)) && !r.success && r.received_bytes == 0
        }),
        len <= CHUNK_SIZE && !before.tasks.contains_key(id) ==> only_forgets(before, after, at) && (
        if remembered(before, id, at) {
            next matches ChunkNext::Reply(Ok(r)) && r.success == (before.tombstones[id].outcome is Completed)
                && r.received_bytes == before.tombstones[id].received_bytes
        } else {
            next matches ChunkNext::LookupHistory(s) && s.id@ == id
        }),
{
    if before.tasks.contains_key(id) {
        progress_is_recorded_as_told(
            before,
            id,
            0,
            TransferStatus::Transferring,
            crate::task::TransferPhase::Queued,
        );
    }
    tombstones_are_forgotten_by_age_alone(before, id, before.tombstones[id], at);
}

/// After a chunk has been written, the transfer has progressed to the end of the
/// chunk in the file, and, while the file is not whole, the answer says so; once it
/// is whole the transfer is finalized with as much. Nothing else is recorded. A
/// write that failed is answered with its error and records nothing.
pub proof fn a_written_chunk_is_counted_to_its_end(
    before: RegistryView,
    after: RegistryView,
    write: ChunkWrite,
    outcome: Result<(), AppError>,
    at: Instant,
    next: ChunkNext,
)
    requires
        write_advances(before, after, write, outcome, at, next),
        write.offset + write.len <= u64::MAX,
    ensures
        outcome matches Err(e) ==> after == before && (next matches ChunkNext::Reply(Err(x)) && x@
            == e@),
        outcome is Ok && before.tasks.contains_key(write.id@) ==> ({
            let was = before.tasks[write.id@];
            let now = after.tasks[write.id@];
            &&& only_records(before, after, write.id@)
            &&& now.transferred_bytes == write.offset + write.len
            &&& now.status == TransferStatus::Transferring
            &&& same_attempt(now, was) && now.file_path == was.file_path
            &&& now.phase == was.phase && now.failure == was.failure && now.completed_at
                == was.completed_at
        }),
        outcome is Ok && write.offset + write.len < write.size && before.tasks.contains_key(write.id@)
            ==> (next matches ChunkNext::Reply(Ok(r)) && r.success && r.received_bytes
            == write.offset + write.len),
        outcome is Ok && write.offset + write.len >= write.size ==> (next matches ChunkNext::Finalize(f)
            && f.id@ == write.id@ && f.received == write.offset + write.len),
        outcome is Ok && write.offset + write.len < write.size && !before.tasks.contains_key(write.id@)
            ==> (next matches ChunkNext::Reply(Ok(r)) && if remembered(before, write.id@, at) {
            r.success == (before.tombstones[write.id@].outcome is Completed) && r.received_bytes
                == before.tombstones[write.id@].received_bytes
        } else {
            r.success && r.received_bytes == write.offset + write.len
        }),
        !before.tasks.contains_key(write.id@) ==> after.tasks == before.tasks,
{
    if before.tasks.contains_key(write.id@) {
        progress_is_recorded_as_told(
            before,
            write.id@,
            (write.offset + write.len) as u64,
            TransferStatus::Transferring,
            crate::task::TransferPhase::Queued,
        );
    }
    tombstones_are_forgotten_by_age_alone(before, write.id@, before.tombstones[write.id@], at);
}

/// A chunk of `len` bytes at `offset`, from the request to the answer: what is
/// answered, and what is recorded of the transfer, is the end of the chunk in the
/// file.
pub proof fn a_taken_chunk_is_answered_with_its_end(
    before: RegistryView,
    opened: RegistryView,
    id: Seq<char>,
    offset: u64,
    len: usize,
    at: Instant,
    write: ChunkNext,
    outcome: Result<(), AppError>,
    after: RegistryView,
    written_at: Instant,
    next: ChunkNext,
)
    requires
        chunk_opens(before, opened, id, offset, len, at, write),
        write matches ChunkNext::Write(w) && write_advances(
            opened,
            after,
            w,
            outcome,
            written_at,
            next,
        ),
        offset + len < before.tasks[id].size,
        outcome is Ok,
    ensures
        next matches ChunkNext::Reply(Ok(r)) && r.success && r.received_bytes == offset + len,
        after.tasks.contains_key(id) && after.tasks[id].transferred_bytes == offset + len,
{
}

/// Chunks that are taken in order never lower the progress: a chunk that starts at
/// or after the end of the one before leaves at least as much recorded, and
/// answers with at least as much.
pub proof fn chunks_in_order_never_lower_the_progress(
    before: RegistryView,
    between: RegistryView,
    after: RegistryView,
    first: ChunkWrite,
    second: ChunkWrite,
    at: Instant,
    later: Instant,
    one: ChunkNext,
    two: ChunkNext,
)
    requires
        before.tasks.contains_key(first.id@),
        second.id@ == first.id@,
        first.offset + first.len <= second.offset,
        second.offset + second.len < second.size,
        second.size == first.size,
        write_advances(before, between, first, Ok::<(), AppError>(()), at, one),
        write_advances(between, after, second, Ok::<(), AppError>(()), later, two),
    ensures
        between.tasks[first.id@].transferred_bytes <= after.tasks[first.id@].transferred_bytes,
        one matches ChunkNext::Reply(Ok(a)) && (two matches ChunkNext::Reply(Ok(b)) && a.received_bytes
            <= b.received_bytes && b.received_bytes - a.received_bytes == (second.offset - (first.offset
            + first.len)) + second.len),
{
}

/// A chunk of a transfer that is not in progress is answered by history: as
/// success with the whole size if it was completed, as failure with what had
/// arrived if it failed, and as failure with nothing otherwise. A lookup that
/// failed is answered with its error.
pub proof fn a_late_chunk_is_answered_by_history(
    row: Result<Option<TaskView>, AppErrorView>,
    next: ChunkNext,
)
    requires
        chunk_looks_up(row, next),
    ensures
        row matches Err(e) ==> (next matches ChunkNext::Reply(Err(x)) && x@ == e),
        row matches Ok(Some(t)) ==> (t.direction == TransferDirection::Receive && t.status
            == TransferStatus::Completed ==> (next matches ChunkNext::Reply(Ok(r)) && r.success
            && r.received_bytes == t.size)),
        row matches Ok(Some(t)) ==> (t.direction == TransferDirection::Receive && t.status
            == TransferStatus::Failed ==> (next matches ChunkNext::Reply(Ok(r)) && !r.success
            && r.received_bytes == t.transferred_bytes)),
        row matches Ok(t) && (t matches Some(x) ==> x.direction != TransferDirection::Receive || (
        x.status != TransferStatus::Completed && x.status != TransferStatus::Failed)) ==> (
        next matches ChunkNext::Reply(Ok(r)) && !r.success && r.received_bytes == 0),
{
}

/// The last chunk is answered by what became of the transfer. Success is answered
/// only with the tombstone of a completed transfer, or where finalizing succeeded
/// and nothing says otherwise; a file that is in place but not recorded is
/// answered with an error that asks for a repetition; and whatever is answered,
/// no task is touched.
pub proof fn a_last_chunk_is_answered_by_what_became_of_it(
    before: RegistryView,
    after: RegistryView,
    state: ChunkFinalize,
    outcome: Result<(), AppError>,
    at: Instant,
    next: ChunkNext,
)
    requires
        chunk_finalizes(before, after, state, outcome, at, next),
    ensures
        after.tasks == before.tasks && after.tokens == before.tokens,
        after == before || only_forgets(before, after, at),
        next matches ChunkNext::Reply(r) && ({
            let id = state.id@;
            let told = remembered(before, id, at);
            let tomb = before.tombstones[id];
            let known = before.tasks.contains_key(id);
            let placed = known && before.tasks[id].status == TransferStatus::Completed;
            &&& outcome is Ok && !known && told ==> reply_view(r) == Ok::<ChunkResp, AppErrorView>(
                ChunkResp {
                    success: tomb.outcome is Completed,
                    received_bytes: tomb.received_bytes,
                },
            )
            &&& outcome is Ok && ((!known && !told) || (known && !placed) || (placed && told))
                ==> reply_view(r) == Ok::<ChunkResp, AppErrorView>(
                ChunkResp { success: true, received_bytes: state.received },
            )
            &&& outcome is Ok && placed && !told ==> (r matches Err(e) && e@ == asks_again(id))
            &&& outcome is Err && told ==> reply_view(r) == Ok::<ChunkResp, AppErrorView>(
                ChunkResp {
                    success: tomb.outcome is Completed,
                    received_bytes: tomb.received_bytes,
                },
            )
            &&& outcome matches Err(why) ==> (!told && placed ==> (r matches Err(e) && e@
                == asks_again_because(id, why@)))
            &&& outcome is Err && !told && known && !placed ==> reply_view(r) == Ok::<
                ChunkResp,
                AppErrorView,
            >(ChunkResp { success: false, received_bytes: before.tasks[id].transferred_bytes })
            &&& outcome is Err && !told && !known ==> reply_view(r) == Ok::<ChunkResp, AppErrorView>(
                ChunkResp { success: false, received_bytes: state.received },
            )
        }),
{
    tombstones_are_forgotten_by_age_alone(before, state.id@, before.tombstones[state.id@], at);
}

// ---------------------------------------------------------------------------
// complete
// ---------------------------------------------------------------------------
/// `complete` measures the file of a transfer that is being received, as the task
/// stands; goes on with one that is in place; takes nothing for one that is sent;
/// is answered by what is remembered of one that has ended; and looks up any
/// other. It changes no task.
pub proof fn complete_measures_what_is_being_received(
    before: RegistryView,
    after: RegistryView,
    id: Seq<char>,
    at: Instant,
    next: CompleteNext,
)
    requires
        complete_opens(before, after, id, at, next),
    ensures
        before.tasks.contains_key(id) ==> after == before && ({
            let task = before.tasks[id];
            if task.direction != TransferDirection::Receive {
                next matches CompleteNext::Reply { reply: Ok(r), event } && !r.success && r.received_bytes
                    == 0 && event is None
            } else if task.status == TransferStatus::Completed {
                next matches CompleteNext::Promote(s) && s.id@ == id
            } else {
                next matches CompleteNext::MeasureTmp(s) && s.id@ == id && s.task@ == task
            }
        }),
        !before.tasks.contains_key(id) ==> only_forgets(before, after, at) && if remembered(
            before,
            id,
            at,
        ) {
            next matches CompleteNext::Reply { reply: Ok(r), event } && event is None && r.success == (
            before.tombstones[id].outcome is Completed) && r.received_bytes
                == before.tombstones[id].received_bytes
        } else {
            next matches CompleteNext::LookupHistory(s) && s.id@ == id
        },
{
    tombstones_are_forgotten_by_age_alone(before, id, before.tombstones[id], at);
}

/// A transfer that is not in progress is completed by what history holds of its
/// end; one that history does not hold as completed or failed is recovered from
/// its intent, and the answer is what the recovery says, or that nothing was taken.
pub proof fn a_late_complete_is_answered_by_history(
    id: Seq<char>,
    row: Result<Option<TaskView>, AppErrorView>,
    after_lookup: CompleteNext,
    outcome: Result<Option<ChunkResp>, AppErrorView>,
    after_recovery: CompleteNext,
)
    requires
        complete_looks_up(id, row, after_lookup),
        complete_recovers(outcome, after_recovery),
    ensures
        row matches Err(e) ==> (after_lookup matches CompleteNext::Reply { reply: Err(x), event } && x@
            == e && event is None),
        row matches Ok(Some(t)) ==> (t.direction == TransferDirection::Receive && t.status
            == TransferStatus::Completed ==> (after_lookup matches CompleteNext::Reply {
            reply: Ok(r),
            event,
        } && r.success && r.received_bytes == t.size && event is None)),
        row matches Ok(Some(t)) ==> (t.direction == TransferDirection::Receive && t.status
            == TransferStatus::Failed ==> (after_lookup matches CompleteNext::Reply {
            reply: Ok(r),
            event,
        } && !r.success && r.received_bytes == t.transferred_bytes && event is None)),
        row matches Ok(t) && (t matches Some(x) ==> x.direction != TransferDirection::Receive || (
        x.status != TransferStatus::Completed && x.status != TransferStatus::Failed)) ==> (
        after_lookup matches CompleteNext::Recover(s) && s.id@ == id),
        outcome matches Err(e) ==> (after_recovery matches CompleteNext::Reply { reply: Err(x), event }
            && x@ == e && event is None),
        outcome matches Ok(Some(resp)) ==> (after_recovery matches CompleteNext::Reply {
            reply: Ok(r),
            event,
        } && r.success == resp.success && r.received_bytes == resp.received_bytes && event is None),
        outcome matches Ok(None) ==> (after_recovery matches CompleteNext::Reply { reply: Ok(r), event }
            && !r.success && r.received_bytes == 0 && event is None),
{
}

/// After a promotion the answer is the tombstone that it left. One that failed, and
/// one that left none, are answered with an error that asks for a repetition.
pub proof fn a_promotion_is_answered_by_its_tombstone(
    before: RegistryView,
    after: RegistryView,
    id: Seq<char>,
    outcome: Result<(), AppError>,
    at: Instant,
    reply: Result<ChunkResp, AppErrorView>,
)
    requires
        after_promotion(before, after, id, outcome, at, reply),
    ensures
        outcome matches Err(why) ==> after == before && reply == Err::<ChunkResp, AppErrorView>(
            asks_again_because(id, why@),
        ),
        outcome is Ok ==> only_forgets(before, after, at) && if remembered(before, id, at) {
            reply matches Ok(r) && r.success == (before.tombstones[id].outcome is Completed)
                && r.received_bytes == before.tombstones[id].received_bytes
        } else {
            reply == Err::<ChunkResp, AppErrorView>(
                AppErrorView::Unavailable(
                    "transfer durable 晋升后无墓碑，请重试 complete: "@ + id,
                ),
            )
        },
{
    tombstones_are_forgotten_by_age_alone(before, id, before.tombstones[id], at);
}

/// `complete` goes on exactly when as many bytes as the file has have arrived: as
/// many as the temporary file holds, or, where there is none, as many as were
/// recorded. Otherwise it is answered with how many did. An empty file that is not
/// there is made first. A file that cannot be measured fails the transfer.
pub proof fn a_complete_goes_on_once_all_has_arrived(
    before: RegistryView,
    after: RegistryView,
    state: CompleteMeasure,
    measured: Result<Option<u64>, AppError>,
    clock: Clock,
    next: CompleteNext,
)
    requires
        measure_decides(before, after, state, measured, clock, next),
    ensures
        measured is Ok ==> after == before,
        measured matches Ok(Some(len)) ==> (if len < state.task@.size {
            next matches CompleteNext::Reply { reply: Ok(r), event } && !r.success && r.received_bytes
                == len && event is None
        } else if len == 0 {
            next matches CompleteNext::CreateEmpty(s) && s.id@ == state.id@ && s.tmp_path@
                == state.task@.file_path && s.len == 0
        } else {
            next matches CompleteNext::Finalize(s) && s.id@ == state.id@ && s.len == len
        }),
        measured matches Ok(None) ==> (if state.task@.size == 0 {
            next matches CompleteNext::CreateEmpty(s) && s.id@ == state.id@ && s.tmp_path@
                == state.task@.file_path && s.len == 0
        } else if state.task@.transferred_bytes < state.task@.size {
            next matches CompleteNext::Reply { reply: Ok(r), event } && !r.success && r.received_bytes
                == state.task@.transferred_bytes && event is None
        } else {
            next matches CompleteNext::Finalize(s) && s.id@ == state.id@ && s.len
                == state.task@.transferred_bytes
        }),
        measured matches Err(e) ==> (next matches CompleteNext::Fail(s) && s.failing.id@ == state.id@
            && s.failing.error@ == "读取临时文件失败: "@ + e@.message() && s.failing.completed_at@
            == clock.iso@),
{
}

/// An empty file that was made is finalized with the length it has; one that could
/// not be made fails the transfer.
pub proof fn an_empty_file_is_finalized_once_it_is_made(
    before: RegistryView,
    after: RegistryView,
    state: CompleteCreate,
    outcome: Result<(), AppError>,
    clock: Clock,
    next: CompleteNext,
)
    requires
        creating_decides(before, after, state, outcome, clock, next),
    ensures
        outcome is Ok ==> after == before && (next matches CompleteNext::Finalize(s) && s.id@ == state.id@
            && s.len == state.len),
        outcome matches Err(e) ==> (next matches CompleteNext::Fail(s) && s.failing.id@ == state.id@
            && s.failing.error@ == "创建空临时文件失败: "@ + e@.message() && s.failing.completed_at@
            == clock.iso@),
{
}

/// A `complete` that finalized its transfer is answered by the tombstone. Without
/// one, a file in place is answered with an error that asks for a repetition, and
/// any other transfer with failure and what had arrived of it. No task is touched
/// and nothing is announced.
pub proof fn a_complete_is_answered_by_what_became_of_it(
    before: RegistryView,
    after: RegistryView,
    state: CompleteFinalize,
    outcome: Result<(), AppError>,
    at: Instant,
    next: CompleteNext,
)
    requires
        complete_finalizes(before, after, state, outcome, at, next),
    ensures
        after.tasks == before.tasks && after.tokens == before.tokens,
        after == before || only_forgets(before, after, at),
        next matches CompleteNext::Reply { reply: r, event } && event is None && ({
            let id = state.id@;
            let told = remembered(before, id, at);
            let known = before.tasks.contains_key(id);
            let placed = known && before.tasks[id].status == TransferStatus::Completed;
            if placed && outcome is Err {
                r matches Err(e) && e@ == asks_again_because(id, outcome->Err_0@)
            } else if placed && !told {
                r matches Err(e) && e@ == asks_again(id)
            } else if told {
                r matches Ok(x) && x.success == (before.tombstones[id].outcome is Completed)
                    && x.received_bytes == before.tombstones[id].received_bytes
            } else if known {
                r matches Ok(x) && !x.success && x.received_bytes == before.tasks[id].transferred_bytes
            } else {
                r matches Ok(x) && !x.success && x.received_bytes == state.len
            }
        }),
{
    tombstones_are_forgotten_by_age_alone(before, state.id@, before.tombstones[state.id@], at);
}

// ---------------------------------------------------------------------------
// status
// ---------------------------------------------------------------------------
/// The status of a transfer in progress is what its task says: its name, its size,
/// how much has moved, and its state, but for a received file that is in place and
/// not recorded, which is still on its way.
pub proof fn a_status_says_what_the_task_says(
    before: RegistryView,
    after: RegistryView,
    id: Seq<char>,
    at: Instant,
    next: StatusNext,
)
    requires
        status_opens(before, after, id, at, next),
        before.tasks.contains_key(id),
    ensures
        after == before,
        next matches StatusNext::Reply(r) && ({
            let task = before.tasks[id];
            let waits = task.direction == TransferDirection::Receive && task.status
                == TransferStatus::Completed;
            &&& r.transfer_id@ == id && r.filename@ == task.filename && r.size == task.size
            &&& r.progress.done == task.transferred_bytes && r.progress.total == task.size
            &&& !waits ==> r.transferred_bytes == task.transferred_bytes
            &&& waits ==> r.transferred_bytes == task.size && r.status@ == "transferring"@
            &&& task.status == TransferStatus::Pending ==> r.status@ == "pending"@
            &&& task.status == TransferStatus::Transferring ==> r.status@ == "transferring"@
            &&& task.status == TransferStatus::Completed && !waits ==> r.status@ == "completed"@
            &&& task.status == TransferStatus::Failed ==> r.status@ == "failed"@
            &&& task.status == TransferStatus::Cancelled ==> r.status@ == "cancelled"@
        }),
{
}

/// The status of a transfer that is remembered to have ended is what its tombstone
/// says, and all of it has moved if it was completed. One that is not remembered
/// is looked up.
pub proof fn a_status_says_what_the_tombstone_says(
    before: RegistryView,
    after: RegistryView,
    id: Seq<char>,
    at: Instant,
    next: StatusNext,
)
    requires
        status_opens(before, after, id, at, next),
        !before.tasks.contains_key(id),
    ensures
        only_forgets(before, after, at),
        remembered(before, id, at) ==> (next matches StatusNext::Reply(r) && told_by(
            r,
            id,
            before.tombstones[id],
        )),
        !remembered(before, id, at) ==> (next matches StatusNext::LookupHistory(s) && s.id@ == id),
{
    tombstones_are_forgotten_by_age_alone(before, id, before.tombstones[id], at);
}

/// `r` says of transfer `id` what `tomb` says of it.
pub open spec fn told_by(r: crate::receiver::StatusResp, id: Seq<char>, tomb: TombstoneView) -> bool {
    &&& r.transfer_id@ == id && r.filename@ == tomb.filename && r.size == tomb.size
    &&& r.progress.done == r.transferred_bytes && r.progress.total == tomb.size
    &&& tomb.outcome is Completed ==> r.status@ == "completed"@ && r.transferred_bytes == tomb.size
    &&& tomb.outcome is Failed ==> r.status@ == "failed"@ && r.transferred_bytes
        == tomb.received_bytes
}

/// `r` says of transfer `id` what its row in history, which has ended, says of it.
pub open spec fn told_by_row(r: crate::receiver::StatusResp, id: Seq<char>, row: TaskView) -> bool {
    &&& r.transfer_id@ == id && r.filename@ == row.filename && r.size == row.size
    &&& r.progress.done == r.transferred_bytes && r.progress.total == row.size
    &&& row.status == TransferStatus::Completed ==> r.status@ == "completed"@ && r.transferred_bytes
        == row.size
    &&& row.status == TransferStatus::Failed ==> r.status@ == "failed"@ && r.transferred_bytes
        == row.transferred_bytes
    &&& row.status == TransferStatus::Cancelled ==> r.status@ == "cancelled"@ && r.transferred_bytes
        == row.transferred_bytes
}

/// `r` says that nothing is known of transfer `id`.
pub open spec fn tells_nothing(r: crate::receiver::StatusResp, id: Seq<char>) -> bool {
    &&& r.transfer_id@ == id && r.status@ == "unknown"@ && r.filename@.len() == 0
    &&& r.size == 0 && r.transferred_bytes == 0
    &&& r.progress.done == 0 && r.progress.total == 0
}

/// The status of a transfer that only history knows is what its row says, if it
/// was received and has ended; any other is recovered from its intent. Once it was
/// recovered its tombstone answers, or its row; if nothing was recovered, or the
/// row is not that of an end, nothing is known.
pub proof fn a_late_status_is_answered_by_history(
    id: Seq<char>,
    row: Result<Option<TaskView>, AppErrorView>,
    after_lookup: StatusNext,
    before: RegistryView,
    after: RegistryView,
    outcome: Result<Option<ChunkResp>, AppErrorView>,
    at: Instant,
    after_recovery: StatusNext,
    again: StatusNext,
)
    requires
        status_looks_up(id, row, after_lookup),
        status_recovers(before, after, id, outcome, at, after_recovery),
        status_looks_again(id, row, again),
    ensures
        row matches Ok(Some(t)) ==> (received_to_an_end(t) ==> (after_lookup matches StatusNext::Reply(
            r,
        ) && told_by_row(r, id, t)) && (again matches StatusNext::Reply(r) && told_by_row(r, id, t))),
        row is Err || (row matches Ok(t) && (t matches Some(x) ==> !received_to_an_end(x))) ==> (
        after_lookup matches StatusNext::Recover(s) && s.id@ == id) && (again matches StatusNext::Reply(
            r,
        ) && tells_nothing(r, id)),
        outcome matches Ok(Some(_)) ==> only_forgets(before, after, at) && if remembered(
            before,
            id,
            at,
        ) {
            after_recovery matches StatusNext::Reply(r) && told_by(r, id, before.tombstones[id])
        } else {
            after_recovery matches StatusNext::LookupRecovered(s) && s.id@ == id
        },
        !(outcome matches Ok(Some(_))) ==> after == before && (after_recovery matches StatusNext::Reply(
            r,
        ) && tells_nothing(r, id)),
{
    tombstones_are_forgotten_by_age_alone(before, id, before.tombstones[id], at);
}

} // verus!

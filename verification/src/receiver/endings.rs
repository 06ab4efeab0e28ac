//! What a received transfer ends as: the file that is put in place, the tombstone
//! and the row that are left of it, and what is recovered of it after a restart.
use std::time::Instant;
use vstd::prelude::*;

use crate::clock::{age_secs, Clock};
use crate::error::{AppError, AppErrorView};
use crate::event::{opt_event, EventView};
use crate::paths::{file_name_of, joined, parts};
use crate::platform::Platform;
use crate::receiver::chunk::{complete_failed, CompleteNext};
use crate::receiver::effects::{received_to_an_end, remembered};
use crate::receiver::finalize::{
    after_failure, certifying_decides, finalizing_failed, finalizing_fails, finalizing_opens,
    hash_decides, placement_decides, promotion_announces, promotion_opens, promotion_records,
    starts_failing, Failing, FinalizeHash, FinalizeNext, FinalizePlace, PlaceFinalError, PlacedFile,
    PromoteNext, PromoteRecord,
};
use crate::receiver::intent::{FinalizeIntent, IntentDirFacts};
use crate::receiver::placement::{placing_decides, PlaceJob, PlaceNext, PlaceResolve};
use crate::receiver::resume::{
    history_decides, looking_decides, reading_decides, recovery_opens, recovery_promotes,
    recovery_replays, recovery_settles, resolving_decides, FinalEntry, IntentRead, RecoverHash,
    RecoverHistory, RecoverNext, RecoverPromoted, RecoverRead, RecoverResolve, RecoverStat,
};
use crate::receiver::status::{status_opens, StatusNext};
use crate::receiver::validation::safe_name;
use crate::registry::{
    an_end_is_recorded_as_told, only_records, others_kept, same_attempt,
    tombstones_are_forgotten_by_age_alone, OutcomeView, RegistryView, TombstoneView,
    TOMBSTONE_TTL_SECS,
};
use crate::task::{FailureView, TaskView, TransferDirection, TransferFailureStage, TransferStatus};

verus! {

broadcast use vstd::string::group_string_axioms;

/// `post` is `pre` with the transfer `id` gone from what is in progress and `tomb`
/// in its place; nothing else is new, and only tombstones that are too old at `at`
/// are gone.
pub open spec fn laid_to_rest(
    pre: RegistryView,
    post: RegistryView,
    id: Seq<char>,
    tomb: TombstoneView,
    at: Instant,
) -> bool {
    &&& post.tasks == pre.tasks.remove(id) && post.tokens == pre.tokens.remove(id)
    &&& post.locks == pre.locks && post.dir_lock == pre.dir_lock
    &&& post.tombstones.contains_key(id) && post.tombstones[id] == tomb
    &&& forall|other: Seq<char>|
        other != id ==> (#[trigger] post.tombstones.contains_key(other) <==> remembered(
            pre,
            other,
            at,
        ))
    &&& forall|other: Seq<char>|
        other != id && #[trigger] post.tombstones.contains_key(other) ==> post.tombstones[other]
            == pre.tombstones[other]
}

proof fn burying_lays_to_rest(
    pre: RegistryView,
    id: Seq<char>,
    tomb: TombstoneView,
    at: Instant,
)
    ensures
        laid_to_rest(pre, pre.without(id).buried(id, tomb, at), id, tomb, at),
{
    let post = pre.without(id).buried(id, tomb, at);
    assert forall|other: Seq<char>| other != id implies (#[trigger] post.tombstones.contains_key(other)
        <==> remembered(pre, other, at)) by {
        tombstones_are_forgotten_by_age_alone(pre.without(id), other, tomb, at);
    }
}

// ---------------------------------------------------------------------------
// Failing
// ---------------------------------------------------------------------------
/// A transfer that fails is recorded as failed with what had arrived of it, when it
/// failed, and leaves for a tombstone that says the same: its name, its size, what
/// had arrived, and why it failed. No other transfer is touched.
pub proof fn a_failed_transfer_is_recorded_as_it_failed(
    before: RegistryView,
    failed: RegistryView,
    id: Seq<char>,
    error: Seq<char>,
    now: Seq<char>,
    failing: Failing,
    after: RegistryView,
    at: Instant,
)
    requires
        before.tasks.contains_key(id),
        starts_failing(before, failed, id, error, now, failing),
        after == after_failure(failed, failing, at),
    ensures
        only_records(before, failed, id),
        failing.id@ == id && failing.error@ == error && failing.completed_at@ == now,
        failing.row matches Some(row) && ({
            let was = before.tasks[id];
            &&& row@ == failed.tasks[id]
            &&& row@.status == TransferStatus::Failed && row@.completed_at == Some(now)
            &&& row@.transferred_bytes == was.transferred_bytes && row@.file_path == was.file_path
            &&& same_attempt(row@, was) && row@.phase == was.phase && row@.failure == was.failure
        }),
        laid_to_rest(
            failed,
            after,
            id,
            TombstoneView {
                outcome: OutcomeView::Failed { error },
                received_bytes: before.tasks[id].transferred_bytes,
                size: before.tasks[id].size,
                filename: before.tasks[id].filename,
                completed_at: now,
                created_at: at,
            },
            at,
        ),
{
    an_end_is_recorded_as_told(
        before,
        id,
        now,
        now,
        FailureView { stage: TransferFailureStage::Source, code: now, retryable: true, message: now },
    );
    burying_lays_to_rest(
        failed,
        id,
        crate::receiver::finalize::failure_tombstone(before.tasks[id], error, now, at),
        at,
    );
}

/// A transfer that is not in progress fails without a trace: nothing is recorded
/// and no tombstone is set.
pub proof fn an_unknown_transfer_fails_without_a_trace(
    before: RegistryView,
    failed: RegistryView,
    id: Seq<char>,
    error: Seq<char>,
    now: Seq<char>,
    failing: Failing,
    after: RegistryView,
    at: Instant,
)
    requires
        !before.tasks.contains_key(id),
        starts_failing(before, failed, id, error, now, failing),
        after == after_failure(failed, failing, at),
    ensures
        failed == before,
        failing.row is None,
        after.tasks == before.tasks,
        after.tombstones == before.tombstones,
{
    assert(before.tasks.remove(id) =~= before.tasks);
}

/// The failure of a transfer is announced under its id, with its reason, both when
/// it fails while it is finalized and when it fails on `complete`; the latter is
/// answered with failure and what had arrived.
pub proof fn a_failure_is_announced_with_its_reason(
    before: RegistryView,
    failing: Failing,
    at: Instant,
    finalized: RegistryView,
    after_finalizing: FinalizeNext,
    completed: RegistryView,
    after_completing: CompleteNext,
)
    requires
        finalizing_failed(before, finalized, failing, at, after_finalizing),
        complete_failed(before, completed, failing, at, after_completing),
    ensures
        finalized == after_failure(before, failing, at),
        after_finalizing matches FinalizeNext::Done { result, event } && result is Ok && opt_event(event)
            == Some(EventView::Failed { id: failing.id@, error_message: failing.error@ }),
        completed.tasks == finalized.tasks && completed.tokens == finalized.tokens,
        after_completing matches CompleteNext::Reply { reply: Ok(r), event } && !r.success && opt_event(
            event,
        ) == Some(EventView::Failed { id: failing.id@, error_message: failing.error@ }) && (
        failing.snapshot matches Some(t) ==> (age_secs(at, at) < TOMBSTONE_TTL_SECS ==> r.received_bytes
            == t@.transferred_bytes)),
{
}

// ---------------------------------------------------------------------------
// From the data to the file in place
// ---------------------------------------------------------------------------
/// A transfer that is being received is finalized from what its task says; one in
/// place is promoted as its task stands; nothing is done for any other.
pub proof fn finalizing_starts_from_the_task(
    registry: RegistryView,
    id: Seq<char>,
    next: FinalizeNext,
)
    requires
        finalizing_opens(registry, id, next),
    ensures
        !registry.tasks.contains_key(id) || registry.tasks[id].direction != TransferDirection::Receive
            ==> (next matches FinalizeNext::Done { result, event } && result is Ok && event is None),
        registry.tasks.contains_key(id) && registry.tasks[id].direction == TransferDirection::Receive
            && registry.tasks[id].status == TransferStatus::Completed ==> (
        next matches FinalizeNext::Promote(PromoteNext::Certify(c)) && c.id@ == id && c.task@
            == registry.tasks[id]),
        registry.tasks.contains_key(id) && registry.tasks[id].direction == TransferDirection::Receive
            && registry.tasks[id].status != TransferStatus::Completed ==> (
        next matches FinalizeNext::HashTmp(h) && h.id@ == id && h.task@ == registry.tasks[id]),
{
}

/// Only contents with the promised hash go on to be placed, from the file that
/// they were received into, under the name that was announced. Contents with
/// another hash are thrown away, and the reason that is recorded names both.
pub proof fn only_the_promised_contents_are_placed(
    platform: Platform,
    before: RegistryView,
    after: RegistryView,
    state: FinalizeHash,
    sha: Result<String, AppError>,
    receive_dir: Seq<char>,
    clock: Clock,
    next: FinalizeNext,
)
    requires
        hash_decides(platform, before, after, state, sha, receive_dir, clock, next),
    ensures
        next matches FinalizeNext::Place(s) ==> after == before && (sha matches Ok(h) && h@
            == state.task@.sha256) && s.id@ == state.id@ && s.receive_dir@ == receive_dir && s.tmp_path@
            == state.task@.file_path && s.task@ == state.task@ && s.safe_filename@
            == crate::text::trimmed(state.task@.filename),
        sha matches Ok(h) ==> (h@ == state.task@.sha256 && safe_name(platform, state.task@.filename)
            ==> (next matches FinalizeNext::Place(s) && s.safe_filename@ == state.task@.filename)),
        sha matches Ok(h) ==> (h@ != state.task@.sha256 ==> after == before && (
        next matches FinalizeNext::RemoveTmp(s) && s.id@ == state.id@ && s.tmp_path@
            == state.task@.file_path && s.error@ == "SHA256 校验失败: 期望="@ + state.task@.sha256
            + ", 实际="@ + h@)),
        sha matches Err(e) ==> (next matches FinalizeNext::Fail(s) && s.failing.id@ == state.id@
            && s.failing.error@ == "读取临时文件失败: "@ + e@.message() && s.failing.completed_at@
            == clock.iso@),
        !(next is Place) && !(next is RemoveTmp) ==> next is Fail,
{
    if safe_name(platform, state.task@.filename) {
        assert(crate::text::trimmed(state.task@.filename) == state.task@.filename);
    }
}

/// Contents with a wrong hash, from the hash to the tombstone: the transfer has
/// failed, with what had arrived, and its tombstone says that the hash was wrong.
pub proof fn wrong_contents_end_as_a_failure(
    platform: Platform,
    before: RegistryView,
    hashed: RegistryView,
    state: FinalizeHash,
    actual: String,
    receive_dir: Seq<char>,
    clock: Clock,
    after_hash: FinalizeNext,
    failed: RegistryView,
    after_discard: FinalizeNext,
    after: RegistryView,
    at: Instant,
    next: FinalizeNext,
)
    requires
        before.tasks.contains_key(state.id@),
        actual@ != state.task@.sha256,
        hash_decides(
            platform,
            before,
            hashed,
            state,
            Ok::<String, AppError>(actual),
            receive_dir,
            clock,
            after_hash,
        ),
        after_hash matches FinalizeNext::RemoveTmp(s) ==> finalizing_fails(
            hashed,
            failed,
            s.id@,
            s.error@,
            clock.iso@,
            after_discard,
        ),
        after_discard matches FinalizeNext::Fail(s) ==> finalizing_failed(
            failed,
            after,
            s.failing,
            at,
            next,
        ),
    ensures
        next matches FinalizeNext::Done { result, event } && result is Ok && (opt_event(
            event,
        ) matches Some(EventView::Failed { id, error_message }) && id == state.id@ && error_message
            == "SHA256 校验失败: 期望="@ + state.task@.sha256 + ", 实际="@ + actual@),
        !after.tasks.contains_key(state.id@),
        after.tombstones.contains_key(state.id@),
        after.tombstones[state.id@].outcome == (OutcomeView::Failed {
            error: "SHA256 校验失败: 期望="@ + state.task@.sha256 + ", 实际="@ + actual@,
        }),
        after.tombstones[state.id@].received_bytes == before.tasks[state.id@].transferred_bytes,
        after.tombstones[state.id@].size == before.tasks[state.id@].size,
        after.tombstones[state.id@].filename == before.tasks[state.id@].filename,
{
}

/// A file that is in place makes its transfer completed, at the path where it is,
/// with all its bytes, whether or not it is known to be durable; only a durable
/// one is promoted, as the task then stands. A file that is not in place fails its
/// transfer.
pub proof fn a_file_in_place_completes_its_transfer(
    before: RegistryView,
    after: RegistryView,
    state: FinalizePlace,
    outcome: Result<PlacedFile, PlaceFinalError>,
    clock: Clock,
    next: FinalizeNext,
)
    requires
        placement_decides(before, after, state, outcome, clock, next),
        before.tasks.contains_key(state.id@),
        before.tasks[state.id@].direction == TransferDirection::Receive,
    ensures
        outcome matches Ok(placed) ==> at_rest(before, after, state.id@, placed.final_path@, clock.iso@)
            && (next matches FinalizeNext::Promote(PromoteNext::Certify(c)) && c.id@ == state.id@
            && c.task@ == after.tasks[state.id@]),
        outcome matches Err(PlaceFinalError::DurabilityPending { placed, message }) ==> at_rest(
            before,
            after,
            state.id@,
            placed.final_path@,
            clock.iso@,
        ) && (next matches FinalizeNext::Done { result: Err(e), event } && event is None && e@
            == AppErrorView::Unavailable(
            "最终文件已落地但 durability 未完成，请重试 complete: "@ + state.id@ + ": "@ + message@,
        )),
        outcome matches Err(PlaceFinalError::Unplaced(e)) ==> (next matches FinalizeNext::Fail(s)
            && s.failing.id@ == state.id@ && s.failing.error@ == "原子落盘失败: "@ + e@.message()
            && s.failing.completed_at@ == clock.iso@),
{
    match outcome {
        Ok(placed) => {
            an_end_is_recorded_as_told(
                before,
                state.id@,
                clock.iso@,
                placed.final_path@,
                FailureView {
                    stage: TransferFailureStage::Source,
                    code: clock.iso@,
                    retryable: true,
                    message: clock.iso@,
                },
            );
        },
        Err(PlaceFinalError::DurabilityPending { placed, message }) => {
            an_end_is_recorded_as_told(
                before,
                state.id@,
                clock.iso@,
                placed.final_path@,
                FailureView {
                    stage: TransferFailureStage::Source,
                    code: clock.iso@,
                    retryable: true,
                    message: clock.iso@,
                },
            );
        },
        Err(_) => {},
    }
}

/// The task under `id` has become completed, with all its bytes at `path`, at
/// `now`, and nothing else has changed.
pub open spec fn at_rest(
    before: RegistryView,
    after: RegistryView,
    id: Seq<char>,
    path: Seq<char>,
    now: Seq<char>,
) -> bool {
    let was = before.tasks[id];
    let is = after.tasks[id];
    &&& only_records(before, after, id)
    &&& is.status == TransferStatus::Completed && is.completed_at == Some(now)
    &&& is.file_path == path && is.transferred_bytes == was.size
    &&& same_attempt(is, was) && is.phase == was.phase && is.failure == was.failure
}

// ---------------------------------------------------------------------------
// Promotion
// ---------------------------------------------------------------------------
/// Only a received and completed task is promoted, and it is certified, recorded,
/// remembered and announced as it stands: the tombstone names the file as it was
/// announced and as it lies, with the whole size, and the event says where it lies.
/// A file that is not certified, and a row that is not recorded, leave everything
/// as it was, with an error.
pub proof fn a_promoted_transfer_is_remembered_as_it_stands(
    platform: Platform,
    id: Seq<char>,
    task: TaskView,
    opened: PromoteNext,
    certified: Result<(), AppError>,
    after_certifying: PromoteNext,
    before: RegistryView,
    after: RegistryView,
    recorded: Result<(), AppError>,
    clock: Clock,
    after_recording: PromoteNext,
    announced: PromoteNext,
)
    requires
        promotion_opens(id, task, opened),
        opened matches PromoteNext::Certify(s) ==> certifying_decides(s, certified, after_certifying),
        after_certifying matches PromoteNext::Record(s) ==> promotion_records(
            platform,
            before,
            after,
            s,
            recorded,
            clock,
            after_recording,
        ),
        after_recording matches PromoteNext::ClearIntent(s) ==> promotion_announces(s, announced),
    ensures
        opened is Certify <==> task.direction == TransferDirection::Receive && task.status
            == TransferStatus::Completed,
        opened matches PromoteNext::Certify(s) ==> s.id@ == id && s.task@ == task,
        !(opened is Certify) ==> (opened matches PromoteNext::Done { result: Err(e), event }
            && event is None && e@ == (if task.direction == TransferDirection::Receive {
            AppErrorView::Generic("任务尚未 Completed，不能晋升 durable: "@ + id)
        } else {
            AppErrorView::Validation("仅 Receive 任务可晋升 durable 终态: "@ + id)
        })),
        opened is Certify ==> (certified matches Err(why) ==> (
        after_certifying matches PromoteNext::Done { result: Err(e), event } && e@
            == AppErrorView::Unavailable(
            "最终文件已落地但 durability 未完成，请重试 complete: "@ + id + ": "@ + why@.message(),
        ) && event is None)),
        opened is Certify && certified is Ok ==> (after_certifying matches PromoteNext::Record(s) && s.id@
            == id && s.task@ == task),
        opened is Certify && certified is Ok ==> (recorded matches Err(e) ==> after == before && (
        after_recording matches PromoteNext::Done { result: Err(x), event } && x@ == e@
            && event is None)),
        opened is Certify && certified is Ok && recorded is Ok ==> ({
            &&& laid_to_rest(before, after, id, after.tombstones[id], clock.at)
            &&& remembers_completion(after.tombstones[id], task, clock)
            &&& (file_name_of(parts(platform, task.file_path)) matches Some(n) ==> after.tombstones[id].outcome
                == (OutcomeView::Completed { final_filename: n, file_path: task.file_path }))
            &&& announced matches PromoteNext::Done { result, event } && result is Ok && opt_event(event)
                == Some(EventView::Completed { id, file_path: Some(task.file_path) })
        }),
{
    if opened is Certify && certified is Ok && recorded is Ok {
        burying_lays_to_rest(
            before,
            id,
            crate::receiver::finalize::completion_tombstone(platform, task, clock.iso@, clock.at),
            clock.at,
        );
    }
}

/// `tomb` says of the completed `task` what there is to say.
pub open spec fn remembers_completion(tomb: TombstoneView, task: TaskView, clock: Clock) -> bool {
    &&& tomb.outcome matches OutcomeView::Completed { file_path, .. } && file_path == task.file_path
    &&& tomb.received_bytes == task.size && tomb.size == task.size && tomb.filename == task.filename
    &&& tomb.completed_at == (match task.completed_at {
        Some(t) => t,
        None => clock.iso@,
    })
    &&& tomb.created_at == clock.at
}

// ---------------------------------------------------------------------------
// Restarts
// ---------------------------------------------------------------------------
/// The intent of a placement, read back after a restart, brings back the transfer
/// that was placed. The task that is promoted, and the one that is in progress
/// where none was, agree with the task that was placed in name, size, hash and
/// chunk size, are fully transferred, and lie at the path of the intent.
pub proof fn a_recovered_transfer_is_the_one_that_was_placed(
    resolve: PlaceResolve,
    placed_dir: Option<Seq<char>>,
    placed_parent: Option<Seq<char>>,
    placed_at: Seq<char>,
    placing: PlaceNext,
    intent: FinalizeIntent,
    state: RecoverHash,
    before: RegistryView,
    after: RegistryView,
    sha: Result<String, AppError>,
    clock: Clock,
    next: RecoverNext,
)
    requires
        placing_decides(resolve, placed_dir, placed_parent, placed_at, placing),
        placing matches PlaceNext::WriteIntent(j) && intent@ == j.intent@,
        state.id@ == resolve.job.id@,
        state.intent@ == intent@,
        sha matches Ok(h) && h@ == resolve.job.task@.sha256,
        recovery_promotes(before, after, state, sha, clock, next),
    ensures
        next matches RecoverNext::Promote(p) && p.after.size == resolve.job.task@.size && (
        p.promotion matches PromoteNext::Certify(c) && c.id@ == resolve.job.id@ && brings_back(
            c.task@,
            resolve.job,
            resolve.final_path@,
            placed_at,
            clock.iso@,
        )),
        after.tasks.contains_key(resolve.job.id@),
        !before.tasks.contains_key(resolve.job.id@) ==> brings_back(
            after.tasks[resolve.job.id@],
            resolve.job,
            resolve.final_path@,
            placed_at,
            clock.iso@,
        ) && others_kept(before, after, resolve.job.id@),
        before.tasks.contains_key(resolve.job.id@) ==> at_rest(
            before,
            after,
            resolve.job.id@,
            resolve.final_path@,
            clock.iso@,
        ),
{
    let id = resolve.job.id@;
    if before.tasks.contains_key(id) {
        an_end_is_recorded_as_told(
            before,
            id,
            clock.iso@,
            resolve.final_path@,
            FailureView {
                stage: TransferFailureStage::Source,
                code: clock.iso@,
                retryable: true,
                message: clock.iso@,
            },
        );
    } else {
        assert(after.tasks.remove(id) =~= before.tasks.remove(id));
        assert(after.tokens.remove(id) =~= before.tokens.remove(id));
    }
}

/// `task` is the transfer of `job`, whole, at `path`.
pub open spec fn brings_back(
    task: TaskView,
    job: PlaceJob,
    path: Seq<char>,
    placed_at: Seq<char>,
    now: Seq<char>,
) -> bool {
    &&& task.id == job.id@
    &&& task.filename == job.task@.filename
    &&& task.size == job.task@.size
    &&& task.sha256 == job.task@.sha256
    &&& task.chunk_size == job.task@.chunk_size
    &&& task.transferred_bytes == job.task@.size
    &&& task.file_path == path
    &&& task.direction == TransferDirection::Receive
    &&& task.status == TransferStatus::Completed
    &&& task.created_at == placed_at
    &&& task.completed_at == Some(now)
    &&& task.peer_device_id.len() == 0
    &&& task.phase is None && task.failure is None && task.attempt == 1
    &&& task.logical_transfer_id == job.id@ && task.attempt_id == job.id@ && task.protocol_transfer_id
        == job.id@
    &&& task.client_operation_id is None && task.operation_payload_hash is None
}

/// Whether or not a restart came between the placement and the record, the same is
/// answered of the transfer afterwards: the row that is recorded names the same
/// file, of the same size, hash and chunk size, at the same path, and the status
/// that is answered from the tombstone is the same.
pub proof fn a_restart_changes_nothing_that_is_answered(
    platform: Platform,
    resolve: PlaceResolve,
    placed_dir: Option<Seq<char>>,
    placed_parent: Option<Seq<char>>,
    placed_at: Seq<char>,
    placing: PlaceNext,
    running: RegistryView,
    in_place: RegistryView,
    place: FinalizePlace,
    placed: PlacedFile,
    clock: Clock,
    after_placing: FinalizeNext,
    state: RecoverHash,
    sha: Result<String, AppError>,
    restarted: RegistryView,
    recovered: RegistryView,
    restart_clock: Clock,
    next: RecoverNext,
    straight: PromoteRecord,
    straight_end: RegistryView,
    straight_next: PromoteNext,
    late: PromoteRecord,
    late_end: RegistryView,
    late_next: PromoteNext,
    at: Instant,
    straight_seen: RegistryView,
    straight_status: StatusNext,
    late_seen: RegistryView,
    late_status: StatusNext,
)
    requires
        // the placement, and its intent
        placing_decides(resolve, placed_dir, placed_parent, placed_at, placing),
        placing matches PlaceNext::WriteIntent(j) && state.intent@ == j.intent@,
        state.id@ == resolve.job.id@,
        // straight on: the file is in place and recorded
        running.tasks.contains_key(resolve.job.id@),
        running.tasks[resolve.job.id@] == resolve.job.task@,
        resolve.job.task@.id == resolve.job.id@,
        resolve.job.task@.direction == TransferDirection::Receive,
        place.id@ == resolve.job.id@,
        placed.final_path@ == resolve.final_path@,
        placement_decides(
            running,
            in_place,
            place,
            Ok::<PlacedFile, PlaceFinalError>(placed),
            clock,
            after_placing,
        ),
        after_placing matches FinalizeNext::Promote(PromoteNext::Certify(c)) && straight.task@ == c.task@
            && straight.id@ == c.id@,
        promotion_records(
            platform,
            in_place,
            straight_end,
            straight,
            Ok::<(), AppError>(()),
            clock,
            straight_next,
        ),
        // after a restart: the intent is read back, and the file recorded
        sha matches Ok(h) && h@ == resolve.job.task@.sha256,
        recovery_promotes(restarted, recovered, state, sha, restart_clock, next),
        next matches RecoverNext::Promote(p) && (p.promotion matches PromoteNext::Certify(c) && late.task@
            == c.task@ && late.id@ == c.id@),
        promotion_records(
            platform,
            recovered,
            late_end,
            late,
            Ok::<(), AppError>(()),
            restart_clock,
            late_next,
        ),
        // and the status is asked for
        remembered(straight_end, resolve.job.id@, at),
        remembered(late_end, resolve.job.id@, at),
        status_opens(straight_end, straight_seen, resolve.job.id@, at, straight_status),
        status_opens(late_end, late_seen, resolve.job.id@, at, late_status),
    ensures
        late.task@.id == straight.task@.id,
        late.task@.filename == straight.task@.filename,
        late.task@.size == straight.task@.size,
        late.task@.sha256 == straight.task@.sha256,
        late.task@.chunk_size == straight.task@.chunk_size,
        late.task@.transferred_bytes == straight.task@.transferred_bytes,
        late.task@.file_path == straight.task@.file_path,
        late.task@.status == straight.task@.status,
        late.task@.direction == straight.task@.direction,
        straight_status matches StatusNext::Reply(a) && (late_status matches StatusNext::Reply(b)
            && a.filename@ == resolve.job.task@.filename && b.filename@ == a.filename@ && b.size == a.size
            && b.status@ == a.status@ && a.status@ == "completed"@ && b.transferred_bytes
            == a.transferred_bytes && b.progress == a.progress && a.size == resolve.job.task@.size),
        late_end.tombstones[resolve.job.id@].outcome == straight_end.tombstones[resolve.job.id@].outcome,
{
    let id = resolve.job.id@;
    assert(straight_end.tombstones.contains_key(id));
    assert(late_end.tombstones.contains_key(id));
    assert(!straight_end.tasks.contains_key(id));
    assert(!late_end.tasks.contains_key(id));
}

/// Recovering looks only at an intent of the transfer itself, in the journal of
/// the receive directory; one that names another transfer, or makes no sense, is
/// cleared; one that cannot be read is an error; and without one there is nothing
/// to recover. What history holds as ended is answered from history; any other is
/// looked for where the intent says, if that is below the receive directory.
pub proof fn only_its_own_intent_recovers_a_transfer(
    platform: Platform,
    read: RecoverRead,
    found: IntentRead,
    after_read: RecoverNext,
    history: RecoverHistory,
    row: Result<Option<TaskView>, AppErrorView>,
    after_lookup: RecoverNext,
    resolve: RecoverResolve,
    canonical_dir: Option<Seq<char>>,
    canonical_parent: Option<Seq<char>>,
    after_resolve: RecoverNext,
    stat: RecoverStat,
    entry: FinalEntry,
    after_stat: RecoverNext,
)
    requires
        reading_decides(read, found, after_read),
        history_decides(history, row, after_lookup),
        resolving_decides(platform, resolve, canonical_dir, canonical_parent, after_resolve),
        looking_decides(stat, entry, after_stat),
    ensures
        found is Missing ==> (after_read matches RecoverNext::Done(Ok(None))),
        found matches IntentRead::Failed(e) ==> (after_read matches RecoverNext::Done(Err(x)) && x@ == e@),
        found is Malformed ==> after_read is ClearAndGiveUp,
        found matches IntentRead::Parsed(i) ==> if i.transfer_id@ == read.id@ {
            after_read matches RecoverNext::LookupHistory(s) && s.id@ == read.id@ && s.receive_dir@
                == read.receive_dir@ && s.intent@ == i@
        } else {
            after_read is ClearAndGiveUp
        },
        row matches Err(e) ==> (after_lookup matches RecoverNext::Done(Err(x)) && x@ == e),
        row matches Ok(Some(t)) ==> (received_to_an_end(t) ==> (
        after_lookup matches RecoverNext::ClearThenLookup(s) && s.id@ == history.id@)),
        row matches Ok(t) && (t matches Some(x) ==> !received_to_an_end(x)) ==> (
        after_lookup matches RecoverNext::Resolve(s) && s.id@ == history.id@ && s.receive_dir@
            == history.receive_dir@ && s.intent@ == history.intent@),
        after_resolve matches RecoverNext::Stat(s) ==> s.id@ == resolve.id@ && s.intent@
            == resolve.intent@,
        !(after_resolve is Stat) ==> after_resolve is ClearAndGiveUp,
        after_stat is Hash <==> (entry matches FinalEntry::Found { is_symlink, is_file, len }
            && !is_symlink && is_file && len == stat.intent@.size),
        after_stat matches RecoverNext::Hash(s) ==> s.id@ == stat.id@ && s.intent@ == stat.intent@,
        !(after_stat is Hash) ==> after_stat is ClearAndGiveUp,
{
}

/// A file in place whose transfer is not in progress any more is an error that
/// names it, and nothing is put in progress for it.
pub proof fn a_file_without_its_task_is_an_error(
    before: RegistryView,
    after: RegistryView,
    state: FinalizePlace,
    placed: PlacedFile,
    clock: Clock,
    next: FinalizeNext,
)
    requires
        !before.tasks.contains_key(state.id@),
        placement_decides(
            before,
            after,
            state,
            Ok::<PlacedFile, PlaceFinalError>(placed),
            clock,
            next,
        ),
    ensures
        after == before,
        next matches FinalizeNext::Done { result: Err(e), event } && event is None && e@
            == AppErrorView::Generic(
            "落盘后丢失 active 任务，无法写入 transfer_history: "@ + state.id@,
        ),
{
}

/// Recovering a transfer starts with the intent in its own place in the journal,
/// and there is nothing to recover where it has none.
pub proof fn a_recovery_starts_with_the_intent_of_the_transfer(
    platform: Platform,
    id: Seq<char>,
    receive_dir: Seq<char>,
    facts: IntentDirFacts,
    next: RecoverNext,
)
    requires
        recovery_opens(platform, id, receive_dir, facts, next),
    ensures
        next matches RecoverNext::ReadIntent(s) ==> s.id@ == id && s.receive_dir@ == receive_dir
            && s.path@ == joined(
            platform,
            joined(platform, receive_dir, ".cc-partner-transfer-intents"@),
            crate::text::trimmed(id) + ".json"@,
        ),
        !(next is ReadIntent) ==> (next matches RecoverNext::Done(Ok(None))),
        next is ReadIntent <==> crate::receiver::intent::intent_path(
            platform,
            receive_dir,
            id,
            facts,
        ) is Ok,
{
}

/// A recovery that promoted its file answers success with the size of the file, or
/// the error of the promotion; one that found the transfer ended answers as history
/// does: success with the whole size, or failure with what had arrived.
pub proof fn a_recovery_answers_for_its_file(
    state: RecoverPromoted,
    outcome: Result<(), AppErrorView>,
    settled: RecoverNext,
    row: Result<Option<TaskView>, AppErrorView>,
    replayed: RecoverNext,
)
    requires
        recovery_settles(state, outcome, settled),
        recovery_replays(row, replayed),
    ensures
        outcome is Ok ==> (settled matches RecoverNext::Done(Ok(Some(r))) && r.success && r.received_bytes
            == state.size),
        outcome matches Err(e) ==> (settled matches RecoverNext::Done(Err(x)) && x@ == e),
        row matches Err(e) ==> (replayed matches RecoverNext::Done(Err(x)) && x@ == e),
        row matches Ok(Some(t)) ==> (t.direction == TransferDirection::Receive && t.status
            == TransferStatus::Completed ==> (replayed matches RecoverNext::Done(Ok(Some(r)))
            && r.success && r.received_bytes == t.size)),
        row matches Ok(Some(t)) ==> (t.direction == TransferDirection::Receive && t.status
            == TransferStatus::Failed ==> (replayed matches RecoverNext::Done(Ok(Some(r)))
            && !r.success && r.received_bytes == t.transferred_bytes)),
        row matches Ok(t) && (t matches Some(x) ==> x.direction != TransferDirection::Receive || (
        x.status != TransferStatus::Completed && x.status != TransferStatus::Failed)) ==> (
        replayed matches RecoverNext::Done(Ok(None))),
{
}

} // verus!

//! What taking up a failed transfer again does: who it goes to, what it offers,
//! when it is refused, and what is left of an attempt that was given up.
use vstd::prelude::*;

use crate::error::{AppError, AppErrorView};
use crate::ident::is_random_uuid;
use crate::registry::{same_attempt, RegistryView};
use crate::sender::effects::{a_started_job_runs_its_task, has_ended, runs};
use crate::sender::recovery::{
    activity_known, claim_rechecked, claim_settles, claims, giving_up_recorded, logical_id_of,
    parent_known, parent_looked_up, peer_known, pending_inspected, recheck_decides,
    recovery_refusal, recovery_starts, replay_given_up, replay_inspected, replay_opens, resumes,
    retries, source_change, source_checked, source_known, stands_in_the_way, sweep_advances,
    sweep_starts, PeerProbe, PendingNext, PendingSource, PendingSweep, RecoveryActive,
    RecoveryClaim, RecoveryClaimed, RecoveryNext, RecoveryPeer, RecoveryRecheck, RecoveryRequest,
    RecoverySource, ReplayNext, SenderClaimOutcome, SourceInspection, SourceState,
};
use crate::task::{
    payload_hash, FailureView, SourceFingerprint, TaskView, TransferDirection, TransferFailureStage,
    TransferPhase, TransferRecoveryKind, TransferStatus, TransferTask,
};
use crate::text::{decimal, trimmed};
use crate::CHUNK_SIZE;

verus! {

broadcast use vstd::string::group_string_axioms;

// ---------------------------------------------------------------------------
// What may be taken up again
// ---------------------------------------------------------------------------
/// Which error a task that may not be taken up again is refused with: a conflict
/// while it is active, and otherwise as invalid.
pub proof fn an_active_task_is_a_conflict(parent: TaskView, kind: TransferRecoveryKind)
    ensures
        recovery_refusal(parent, kind) matches Some(e) ==> (e is Conflict <==> parent.direction
            == TransferDirection::Send && !(parent.phase == Some(TransferPhase::Completed) || (
        parent.phase is None && parent.status == TransferStatus::Completed)) && (!(parent.phase == Some(
            TransferPhase::Failed,
        ) || parent.phase == Some(TransferPhase::Cancelled) || (parent.phase is None && (parent.status
            == TransferStatus::Failed || parent.status == TransferStatus::Cancelled)))
            || (parent.status != TransferStatus::Completed && parent.status != TransferStatus::Failed
            && parent.status != TransferStatus::Cancelled))),
        recovery_refusal(parent, kind) matches Some(e) ==> e is Conflict || e is Validation,
        parent.direction == TransferDirection::Send && parent.phase is None && parent.status
            == TransferStatus::Failed ==> (parent.failure matches Some(f) ==> (!f.retryable
            ==> recovery_refusal(parent, kind) == Some(
            AppErrorView::Validation("non_retryable: 失败码 "@ + f.code + " 不可重试"@),
        ))),
{
}

/// Attempts belong to one logical transfer: the one they name, or, where they name
/// none, their own.
pub proof fn a_task_without_a_logical_id_is_its_own(task: TaskView)
    ensures
        trimmed(task.logical_transfer_id).len() > 0 ==> logical_id_of(task)
            == task.logical_transfer_id,
        trimmed(task.logical_transfer_id).len() == 0 ==> logical_id_of(task) == task.id,
{
}

/// `task` is another attempt at `logical` than `exclude`, has not ended, and was
/// not asked for by the operation `op`.
pub open spec fn rivals(
    task: TaskView,
    logical: Seq<char>,
    exclude: Seq<char>,
    op: Seq<char>,
) -> bool {
    &&& task.id != exclude
    &&& trimmed(task.logical_transfer_id).len() > 0 ==> task.logical_transfer_id == logical
    &&& trimmed(task.logical_transfer_id).len() == 0 ==> task.id == logical
    &&& !has_ended(task)
    &&& task.client_operation_id != Some(op)
}

/// The conflict that names the attempt `id` at `logical` that was there first.
pub open spec fn names_the_rival(logical: Seq<char>, id: Seq<char>) -> AppErrorView {
    AppErrorView::Conflict(
        "logical_transfer_active: logical_transfer_id="@ + logical + " 已有活跃 attempt "@ + id,
    )
}

/// Some attempt in `registry` rivals the one that is asked for.
pub open spec fn rivalled(
    registry: RegistryView,
    logical: Seq<char>,
    exclude: Seq<char>,
    op: Seq<char>,
) -> bool {
    exists|id: Seq<char>| #[trigger]
        registry.tasks.contains_key(id) && rivals(registry.tasks[id], logical, exclude, op)
}

proof fn rivals_stand_in_the_way(
    registry: RegistryView,
    logical: Seq<char>,
    exclude: Seq<char>,
    op: Seq<char>,
)
    ensures
        forall|id: Seq<char>| #[trigger]
            registry.tasks.contains_key(id) ==> (stands_in_the_way(
                registry.tasks[id],
                logical,
                exclude,
                op,
            ) <==> rivals(registry.tasks[id], logical, exclude, op)),
{
}

/// A known parent leads to a search of history, with the request and the parent
/// as they are, exactly when it may be taken up again and no other attempt at its
/// logical transfer is in progress; a rival in progress is a conflict.
pub proof fn a_parent_is_taken_up_when_nothing_rivals_it(
    registry: RegistryView,
    request: RecoveryRequest,
    parent: TaskView,
    next: RecoveryNext,
)
    requires
        parent_known(registry, request, parent, next),
    ensures
        recovery_refusal(parent, request.kind) matches Some(e) ==> (next matches RecoveryNext::Refused(
            x,
        ) && x@ == e),
        recovery_refusal(parent, request.kind) is None ==> if rivalled(
            registry,
            logical_id_of(parent),
            parent.id,
            request.client_operation_id@,
        ) {
            exists|id: Seq<char>| #[trigger]
                registry.tasks.contains_key(id) && rivals(
                    registry.tasks[id],
                    logical_id_of(parent),
                    parent.id,
                    request.client_operation_id@,
                ) && (next matches RecoveryNext::Refused(x) && x@ == names_the_rival(
                    logical_id_of(parent),
                    registry.tasks[id].id,
                ))
        } else {
            next matches RecoveryNext::LookupActive(s) && s.request == request && s.parent@ == parent
                && s.logical_id@ == logical_id_of(parent)
        },
{
    rivals_stand_in_the_way(
        registry,
        logical_id_of(parent),
        parent.id,
        request.client_operation_id@,
    );
}

/// A recovery is of the task that it names: the one in progress under that id, or
/// else the one that history holds; without either it is refused as not found.
pub proof fn a_recovery_is_of_the_task_it_names(
    registry: RegistryView,
    request: RecoveryRequest,
    next: RecoveryNext,
    row: Result<Option<TaskView>, AppErrorView>,
    looked_up: RecoveryNext,
)
    requires
        recovery_starts(registry, request, next),
        parent_looked_up(registry, request, row, looked_up),
    ensures
        registry.tasks.contains_key(request.task_id@) ==> parent_known(
            registry,
            request,
            registry.tasks[request.task_id@],
            next,
        ),
        !registry.tasks.contains_key(request.task_id@) ==> (next matches RecoveryNext::LookupParent(s)
            && s.request == request),
        row matches Ok(Some(parent)) ==> parent_known(registry, request, parent, looked_up),
        row matches Ok(None) ==> (looked_up matches RecoveryNext::Refused(e) && e@
            == AppErrorView::NotFound("传输任务不存在: "@ + request.task_id@)),
        row matches Err(e) ==> (looked_up matches RecoveryNext::Refused(x) && x@ == e),
{
}

/// History stops a recovery exactly when it holds another attempt, of another
/// operation, as not ended; otherwise the source file is inspected for the same
/// request and parent.
pub proof fn history_stops_only_for_another_attempt(
    state: RecoveryActive,
    row: Result<Option<TaskView>, AppErrorView>,
    next: RecoveryNext,
)
    requires
        activity_known(state, row, next),
    ensures
        row matches Err(e) ==> (next matches RecoveryNext::Refused(x) && x@ == e),
        row matches Ok(active) ==> if active is Some && active->0.id != state.parent@.id
            && active->0.client_operation_id != Some(state.request.client_operation_id@) {
            next matches RecoveryNext::Refused(x) && x@ == names_the_rival(
                state.logical_id@,
                active->0.id,
            )
        } else {
            next matches RecoveryNext::InspectSource(s) && s.request == state.request && s.parent
                == state.parent && s.logical_id == state.logical_id
        },
{
}

// ---------------------------------------------------------------------------
// The source file
// ---------------------------------------------------------------------------
/// A source file is still the one that a task was made for exactly when it has the
/// task's hash and size, as far as the task has either; a change is a conflict.
/// What is known of an unchanged one is what was found, with its time of change in
/// nanoseconds where that fits.
pub proof fn a_source_is_unchanged_when_hash_and_size_are(
    task: TaskView,
    source: SourceState,
    checked: Result<SourceFingerprint, AppError>,
)
    requires
        source_checked(task, source, checked),
    ensures
        checked is Ok <==> (task.sha256.len() == 0 || task.sha256 == source.sha256@) && (task.size == 0
            || task.size == source.size),
        source_change(task, source) is None <==> checked is Ok,
        checked matches Err(e) ==> source_change(task, source) == Some(e@),
        source_change(task, source) matches Some(e) ==> e == AppErrorView::Conflict(
            if task.sha256.len() > 0 && task.sha256 != source.sha256@ {
                "source_changed: SHA 不匹配（期望 "@ + task.sha256 + "）"@
            } else {
                "source_changed: 大小不匹配（期望 "@ + decimal(task.size as nat) + " 实际 "@ + decimal(
                    source.size as nat,
                ) + "）"@
            },
        ),
        checked matches Ok(fp) ==> fp.size == source.size && fp.sha256@ == source.sha256@ && (
        source.modified is None ==> fp.mtime_ns is None) && (source.modified matches Some(m) ==> (
        fp.mtime_ns matches Some(n) ==> n == m.0 * 1_000_000_000 + m.1)) && (source.modified matches Some(
            m,
        ) ==> (fp.mtime_ns is None <==> m.0 * 1_000_000_000 + m.1 > u64::MAX)),
{
}

/// An unchanged source file leads on, with the size and hash that were found: to
/// the claim where the file is sent from the start, and to the peer where it goes
/// on. A file that is gone, cannot be read or has changed is refused.
pub proof fn an_unchanged_source_leads_on(
    state: RecoverySource,
    source: SourceInspection,
    now: Seq<char>,
    next: RecoveryNext,
)
    requires
        source_known(state, source, now, next),
    ensures
        source is Missing ==> (next matches RecoveryNext::Refused(e) && e@ == AppErrorView::NotFound(
            "源文件不存在: "@ + state.parent@.file_path,
        )),
        source matches SourceInspection::Failed(e) ==> (next matches RecoveryNext::Refused(x) && x@
            == e@),
        source matches SourceInspection::Found(f) ==> ({
            let parent = state.parent@;
            let unchanged = (parent.sha256.len() == 0 || parent.sha256 == f.sha256@) && (parent.size == 0
                || parent.size == f.size);
            &&& !unchanged ==> (next matches RecoveryNext::Refused(e) && Some(e@) == source_change(
                parent,
                f,
            ))
            &&& unchanged && state.request.kind == TransferRecoveryKind::Resume ==> (
            next matches RecoveryNext::ProbePeer(s) && s.request == state.request && s.parent
                == state.parent && s.logical_id == state.logical_id && s.file_size == f.size && s.sha256@
                == f.sha256@)
            &&& unchanged && state.request.kind == TransferRecoveryKind::Retry ==> next is Claim
                && claims(
                next,
                state.request,
                parent,
                state.logical_id@,
                f.size,
                f.sha256@,
                now,
            )
        }),
{
}

/// A transfer goes on only with a peer that is there and can go on; every other
/// answer is an obstacle of its own kind.
pub proof fn a_transfer_goes_on_only_with_a_peer_that_can(
    state: RecoveryPeer,
    probe: PeerProbe,
    now: Seq<char>,
    next: RecoveryNext,
)
    requires
        peer_known(state, probe, now, next),
    ensures
        next is Claim <==> (probe matches PeerProbe::Info(info) && info.protocol_version >= 1
            && exists|i: int|
            0 <= i < info.capabilities@.len() && (#[trigger] info.capabilities@[i])@
                == "transfer.resume.v1"@),
        next is Claim ==> claims(
            next,
            state.request,
            state.parent@,
            state.logical_id@,
            state.file_size,
            state.sha256@,
            now,
        ),
        probe is Offline ==> (next matches RecoveryNext::Refused(e) && e@ == AppErrorView::NotFound(
            "对端设备不存在或离线: "@ + state.parent@.peer_device_id,
        )),
        probe matches PeerProbe::Failed(m) ==> (next matches RecoveryNext::Refused(e) && e@
            == AppErrorView::Unavailable("无法探测对端 resume 能力: "@ + m@)),
        probe is Info && !(next is Claim) ==> (next matches RecoveryNext::Refused(e)
            && e@ is Validation),
{
    if let PeerProbe::Info(info) = probe {
        let told = crate::paths::texts(info.capabilities@);
        let wanted = crate::peer::CAPABILITY_TRANSFER_RESUME_V1@;
        assert(wanted == "transfer.resume.v1"@);
        if told.contains(wanted) {
            let i = choose|i: int| 0 <= i < told.len() && told[i] == wanted;
            assert(info.capabilities@[i]@ == wanted);
        }
        assert forall|i: int|
            0 <= i < info.capabilities@.len() && (#[trigger] info.capabilities@[i])@
                == "transfer.resume.v1"@ implies told.contains(wanted) by {
            assert(told[i] == wanted);
        }
    }
}

// ---------------------------------------------------------------------------
// The claim
// ---------------------------------------------------------------------------
/// An attempt that takes up `parent` again is addressed to the parent's peer and
/// offers the parent's file under the parent's name, with the size and hash that
/// were found. It is a fresh attempt at the same logical transfer, with nothing
/// moved, one more than its parent, and found under the operation that asked for
/// it. One that goes on keeps the id that the peer knows; one from the start takes
/// its own.
pub proof fn an_attempt_is_addressed_as_its_parent_was(
    next: RecoveryNext,
    request: RecoveryRequest,
    parent: TaskView,
    logical: Seq<char>,
    size: u64,
    sha256: Seq<char>,
    now: Seq<char>,
)
    requires
        claims(next, request, parent, logical, size, sha256, now),
    ensures
        next matches RecoveryNext::Claim(c) && ({
            let task = c.task@;
            &&& task.peer_device_id == parent.peer_device_id
            &&& task.filename == parent.filename
            &&& task.file_path == parent.file_path
            &&& task.size == size && task.sha256 == sha256
            &&& is_random_uuid(task.id) && task.attempt_id == task.id
            &&& task.logical_transfer_id == logical
            &&& task.chunk_size == CHUNK_SIZE && task.direction == TransferDirection::Send
            &&& task.status == TransferStatus::Pending && task.phase == Some(TransferPhase::Queued)
            &&& task.transferred_bytes == 0 && task.failure is None
            &&& task.created_at == now && task.completed_at is None
            &&& task.attempt >= 2 && task.attempt >= parent.attempt
            &&& 1 <= parent.attempt < u32::MAX ==> task.attempt == parent.attempt + 1
            &&& task.client_operation_id == Some(request.client_operation_id@)
            &&& c.client_operation_id@ == request.client_operation_id@
            &&& task.operation_payload_hash == Some(c.payload_hash@)
            &&& request.kind == TransferRecoveryKind::Retry ==> task.protocol_transfer_id == task.id
                && c.payload_hash@ == payload_hash(
                request.kind,
                logical,
                parent.file_path,
                parent.peer_device_id,
                ""@,
            )
            &&& request.kind == TransferRecoveryKind::Resume ==> ({
                let known = if parent.protocol_transfer_id.len() > 0 {
                    parent.protocol_transfer_id
                } else {
                    parent.id
                };
                task.protocol_transfer_id == known && c.payload_hash@ == payload_hash(
                    request.kind,
                    logical,
                    parent.file_path,
                    parent.peer_device_id,
                    known,
                )
            })
        }),
{
}

/// From the claim to the start: the job that runs an attempt goes to the parent's
/// peer, sends the parent's file with the size and hash that were found, and goes
/// on under the parent's id where it resumes; the task in progress is the one that
/// was claimed.
pub proof fn a_started_attempt_goes_to_its_parents_peer(
    claiming: RecoveryNext,
    request: RecoveryRequest,
    parent: TaskView,
    logical: Seq<char>,
    size: u64,
    sha256: Seq<char>,
    now: Seq<char>,
    registry: RegistryView,
    claim: RecoveryClaim,
    fresh: SenderClaimOutcome,
    claimed: RecoveryNext,
    row: Result<Option<TaskView>, AppErrorView>,
    rechecked: RecoveryNext,
    source: Result<SourceState, AppError>,
    later: Seq<char>,
    after: RegistryView,
    started: RecoveryNext,
)
    requires
        claims(claiming, request, parent, logical, size, sha256, now),
        claiming == RecoveryNext::Claim(claim),
        fresh matches SenderClaimOutcome::Fresh(t) && t@ == claim.task@,
        claim_settles(registry, claim, Ok::<SenderClaimOutcome, AppError>(fresh), claimed),
        claimed matches RecoveryNext::RecheckActive(s) ==> claim_rechecked(
            registry,
            s,
            row,
            later,
            rechecked,
        ),
        rechecked matches RecoveryNext::RecheckSource(s) && recheck_decides(
            registry,
            after,
            s,
            source,
            later,
            started,
        ),
        started is Started,
    ensures
        started matches RecoveryNext::Started { task, job } && ({
            &&& task@ == claim.task@
            &&& job.device_id@ == parent.peer_device_id
            &&& job.file_path@ == parent.file_path
            &&& job.transfer_id@ == task@.id
            &&& job.file_size == size && job.sha256@ == sha256
            &&& source matches Ok(s) && s.size == size && s.sha256@ == sha256
            &&& request.kind == TransferRecoveryKind::Resume && parent.protocol_transfer_id.len() > 0
                ==> job.wire_id@ == parent.protocol_transfer_id
            &&& request.kind == TransferRecoveryKind::Resume && parent.protocol_transfer_id.len() == 0
                && parent.id.len() > 0 ==> job.wire_id@ == parent.id
            &&& request.kind == TransferRecoveryKind::Retry ==> job.wire_id@ == task@.id
            &&& after.tasks.contains_key(task@.id)
            &&& after.tasks[task@.id].peer_device_id == parent.peer_device_id
            &&& after.tasks[task@.id].filename == parent.filename
            &&& after.tasks[task@.id].file_path == parent.file_path
            &&& runs(registry, after, task@, size, sha256, job)
        }),
{
    if let RecoveryNext::Started { task, job } = started {
        if let RecoveryNext::RecheckSource(s) = rechecked {
            a_started_job_runs_its_task(registry, after, task@, size, sha256, job);
        }
    }
}

/// A claim is settled by the ledger: the first claim goes on as it was made; a
/// repeated one is answered for by the attempt that made the first; one with
/// another payload is a conflict; and an error is passed on.
pub proof fn a_claim_is_settled_by_the_ledger(
    registry: RegistryView,
    claim: RecoveryClaim,
    outcome: Result<SenderClaimOutcome, AppError>,
    next: RecoveryNext,
)
    requires
        claim_settles(registry, claim, outcome, next),
    ensures
        outcome matches Err(e) ==> (next matches RecoveryNext::Refused(x) && x@ == e@),
        outcome matches Ok(SenderClaimOutcome::Conflict { existing }) ==> (
        next matches RecoveryNext::Refused(x) && x@ is Conflict),
        outcome matches Ok(SenderClaimOutcome::Replay(t)) ==> (next matches RecoveryNext::Replay(r)
            && replay_opens(registry, t@, r)),
        outcome matches Ok(SenderClaimOutcome::Fresh(t)) ==> (next matches RecoveryNext::RecheckActive(s)
            && s.client_operation_id@ == claim.client_operation_id@ && s.logical_id@
            == claim.task@.logical_transfer_id && s.task@ == t@ && s.file_size == claim.task@.size
            && s.sha256@ == claim.task@.sha256),
{
}

/// `row` is the failure of `task` at `stage` with `code`, at `now`: open to another
/// attempt, with what had moved, and the same attempt in all else.
pub open spec fn given_up_as(
    row: TaskView,
    task: TaskView,
    stage: TransferFailureStage,
    code: Seq<char>,
    message: Seq<char>,
    now: Seq<char>,
) -> bool {
    &&& row.status == TransferStatus::Failed && row.phase == Some(TransferPhase::Failed)
    &&& row.failure == Some(FailureView { stage, code, retryable: true, message })
    &&& row.completed_at == Some(now)
    &&& row.transferred_bytes == task.transferred_bytes && row.file_path == task.file_path
    &&& same_attempt(row, task)
}

/// A claimed attempt gives way exactly to a rival, in progress or in history, and
/// to a search that failed; it is then recorded as failed, open to another try,
/// and refused for that reason. Otherwise its source is looked at once more.
pub proof fn a_claimed_attempt_gives_way_to_a_rival(
    registry: RegistryView,
    state: RecoveryClaimed,
    row: Result<Option<TaskView>, AppErrorView>,
    now: Seq<char>,
    next: RecoveryNext,
    outcome: Result<(), AppErrorView>,
    refused: RecoveryNext,
)
    requires
        claim_rechecked(registry, state, row, now, next),
        next matches RecoveryNext::RecordFailed(s) ==> giving_up_recorded(s, outcome, refused),
    ensures
        next is RecheckSource <==> !rivalled(
            registry,
            state.logical_id@,
            state.task@.id,
            state.client_operation_id@,
        ) && (row matches Ok(active) && !(active is Some && active->0.id != state.task@.id
            && active->0.client_operation_id != Some(state.client_operation_id@))),
        next matches RecoveryNext::RecheckSource(s) ==> s.task@ == state.task@ && s.file_size
            == state.file_size && s.sha256@ == state.sha256@,
        !(next is RecheckSource) ==> (next matches RecoveryNext::RecordFailed(s) && given_up_as(
            s.row@,
            state.task@,
            TransferFailureStage::Transfer,
            "logical_recovery_conflict"@,
            "同 logical_transfer_id 已有活跃 attempt，本次 claim 作废"@,
            now,
        ) && (outcome is Ok ==> (refused matches RecoveryNext::Refused(e) && e@ == s.error@)) && (
        outcome matches Err(e) ==> (refused matches RecoveryNext::Refused(x) && x@ == e))),
        !rivalled(registry, state.logical_id@, state.task@.id, state.client_operation_id@) ==> (
        row matches Err(e) ==> (next matches RecoveryNext::RecordFailed(s) && s.error@ == e)),
        rivalled(registry, state.logical_id@, state.task@.id, state.client_operation_id@)
            ==> exists|id: Seq<char>| #[trigger]
            registry.tasks.contains_key(id) && rivals(
                registry.tasks[id],
                state.logical_id@,
                state.task@.id,
                state.client_operation_id@,
            ) && (next matches RecoveryNext::RecordFailed(s) && s.error@ == names_the_rival(
                state.logical_id@,
                registry.tasks[id].id,
            )),
        !rivalled(registry, state.logical_id@, state.task@.id, state.client_operation_id@) && !(
        next is RecheckSource) ==> (row matches Ok(Some(t)) ==> (
        next matches RecoveryNext::RecordFailed(s) && s.error@ == names_the_rival(
            state.logical_id@,
            t.id,
        ))),
{
    rivals_stand_in_the_way(
        registry,
        state.logical_id@,
        state.task@.id,
        state.client_operation_id@,
    );
}

/// An attempt is started exactly when its source is still what was claimed; one
/// whose source changed since is recorded as failed for that reason, and nothing
/// is put in progress.
pub proof fn an_attempt_starts_only_with_the_claimed_source(
    before: RegistryView,
    after: RegistryView,
    state: RecoveryRecheck,
    source: Result<SourceState, AppError>,
    now: Seq<char>,
    next: RecoveryNext,
)
    requires
        recheck_decides(before, after, state, source, now, next),
    ensures
        source matches Err(e) ==> after == before && (next matches RecoveryNext::Refused(x) && x@ == e@),
        next matches RecoveryNext::Started { task, job } ==> task@ == state.task@ && runs(
            before,
            after,
            state.task@,
            state.file_size,
            state.sha256@,
            job,
        ) && (source matches Ok(s) && s.size == state.file_size && s.sha256@ == state.sha256@),
        !(next is Started) ==> after == before,
        source matches Ok(s) ==> ({
            let task = state.task@;
            let unchanged = (task.sha256.len() == 0 || task.sha256 == s.sha256@) && (task.size == 0
                || task.size == s.size);
            let claimed = s.size == state.file_size && s.sha256@ == state.sha256@;
            &&& next is Started <==> unchanged && claimed
            &&& !unchanged ==> (next matches RecoveryNext::Refused(e) && Some(e@) == source_change(
                task,
                s,
            ))
            &&& unchanged && !claimed ==> (next matches RecoveryNext::RecordFailed(f) && given_up_as(
                f.row@,
                task,
                TransferFailureStage::Source,
                "source_changed"@,
                "spawn 前源文件 fingerprint 已变化"@,
                now,
            ) && f.error@ is Conflict)
        }),
{
    if let RecoveryNext::Started { task, job } = next {
        a_started_job_runs_its_task(
            before,
            after,
            state.task@,
            state.file_size,
            state.sha256@,
            job,
        );
    }
}

// ---------------------------------------------------------------------------
// Repeated requests
// ---------------------------------------------------------------------------
/// A repeated request is answered by the attempt that it made: refused once that
/// has ended, with its end and its code; answered with it while it is in progress;
/// and otherwise run again from its source file.
pub proof fn a_repeated_request_is_answered_by_its_attempt(
    registry: RegistryView,
    task: TaskView,
    next: ReplayNext,
)
    requires
        replay_opens(registry, task, next),
    ensures
        task.status == TransferStatus::Completed ==> (next matches ReplayNext::Refused(e) && e@
            == AppErrorView::Conflict(
            "operation_terminal: clientOperationId 已有终态 "@ + "completed"@ + " ("@ + "succeeded"@
                + ")，请使用新的 clientOperationId"@,
        )),
        task.status == TransferStatus::Failed ==> (next matches ReplayNext::Refused(e) && e@
            == AppErrorView::Conflict(
            "operation_terminal: clientOperationId 已有终态 "@ + "failed"@ + " ("@ + (
            match task.failure {
                Some(f) => f.code,
                None => "failed"@,
            }) + ")，请使用新的 clientOperationId"@,
        )),
        task.status == TransferStatus::Cancelled ==> (next matches ReplayNext::Refused(e) && e@
            == AppErrorView::Conflict(
            "operation_terminal: clientOperationId 已有终态 "@ + "cancelled"@ + " ("@ + "cancelled"@
                + ")，请使用新的 clientOperationId"@,
        )),
        !has_ended(task) && registry.tasks.contains_key(task.id) ==> (next matches ReplayNext::Running(t)
            && t@ == task),
        !has_ended(task) && !registry.tasks.contains_key(task.id) ==> (
        next matches ReplayNext::InspectSource(s) && s.task@ == task),
{
}

/// An attempt that is not running is run again with its unchanged source, as it
/// stands; one whose source is gone is recorded as failed for that reason and
/// refused; one whose source changed, or cannot be read, is refused.
pub proof fn an_attempt_is_run_again_as_it_stands(
    before: RegistryView,
    after: RegistryView,
    task: TaskView,
    source: SourceInspection,
    now: Seq<char>,
    next: ReplayNext,
    outcome: Result<(), AppErrorView>,
    refused: ReplayNext,
)
    requires
        replay_inspected(before, after, task, source, now, next),
        next matches ReplayNext::RecordFailed(s) ==> replay_given_up(s, outcome, refused),
    ensures
        next matches ReplayNext::Started { task: t, job } ==> t@ == task && (
        source matches SourceInspection::Found(s) && runs(before, after, task, s.size, s.sha256@, job)),
        !(next is Started) ==> after == before,
        source is Missing ==> (next matches ReplayNext::RecordFailed(s) && given_up_as(
            s.row@,
            task,
            TransferFailureStage::Source,
            "source_missing"@,
            "Replay re-spawn 时源文件不存在"@,
            now,
        ) && (outcome is Ok ==> (refused matches ReplayNext::Refused(e) && e@ == AppErrorView::NotFound(
            "源文件不存在: "@ + task.file_path,
        ))) && (outcome matches Err(e) ==> (refused matches ReplayNext::Refused(x) && x@ == e))),
        source matches SourceInspection::Failed(e) ==> (next matches ReplayNext::Refused(x) && x@ == e@),
        source matches SourceInspection::Found(s) ==> ({
            let unchanged = (task.sha256.len() == 0 || task.sha256 == s.sha256@) && (task.size == 0
                || task.size == s.size);
            &&& next is Started <==> unchanged
            &&& !unchanged ==> (next matches ReplayNext::Refused(e) && Some(e@) == source_change(task, s))
        }),
{
    if let ReplayNext::Started { task: t, job } = next {
        if let SourceInspection::Found(s) = source {
            a_started_job_runs_its_task(before, after, task, s.size, s.sha256@, job);
        }
    }
}

// ---------------------------------------------------------------------------
// After a restart
// ---------------------------------------------------------------------------
/// The walk over the claimed rows comes to the next row that is not running, and
/// passes over none that is not; it ends, with the count it has, when there is no
/// such row.
pub proof fn the_walk_passes_over_no_idle_row(
    registry: RegistryView,
    sweep: PendingSweep,
    next: PendingNext,
    k: int,
)
    requires
        sweep_advances(registry, sweep, next),
        sweep.at <= k < sweep.rows@.len(),
        !registry.tasks.contains_key(sweep.rows@[k]@.id),
    ensures
        next matches PendingNext::InspectSource(s) && s.sweep.at <= k + 1 && sweep.at < s.sweep.at
            && s.task@ == sweep.rows@[s.sweep.at - 1]@ && !registry.tasks.contains_key(s.task@.id)
            && s.sweep.rows == sweep.rows && s.sweep.recovered == sweep.recovered,
{
}

/// A walk in which every row that is left is running ends with the count it has.
pub proof fn the_walk_ends_with_its_count(
    registry: RegistryView,
    sweep: PendingSweep,
    next: PendingNext,
)
    requires
        sweep_advances(registry, sweep, next),
        forall|k: int|
            sweep.at <= k < sweep.rows@.len() ==> registry.tasks.contains_key(
                (#[trigger] sweep.rows@[k])@.id,
            ),
    ensures
        next == PendingNext::Done(sweep.recovered),
{
}

/// A claimed row whose source is unchanged is run and counted; any other is
/// recorded as failed for its own reason and not counted; and the walk goes on
/// after it in either case.
pub proof fn a_claimed_row_is_run_or_recorded_as_failed(
    before: RegistryView,
    after: RegistryView,
    state: PendingSource,
    source: SourceInspection,
    now: Seq<char>,
    next: PendingNext,
)
    requires
        pending_inspected(before, after, state, source, now, next),
    ensures
        next matches PendingNext::Started { job, sweep } ==> (source matches SourceInspection::Found(f)
            && runs(before, after, state.task@, f.size, f.sha256@, job)) && sweep.rows
            == state.sweep.rows && sweep.at == state.sweep.at && sweep.recovered
            == state.sweep.recovered + 1,
        next matches PendingNext::RecordFailed { row, sweep } ==> after == before && sweep
            == state.sweep,
        source is Missing ==> (next matches PendingNext::RecordFailed { row, sweep } && given_up_as(
            row@,
            state.task@,
            TransferFailureStage::Source,
            "source_missing"@,
            "启动恢复时源文件不存在"@,
            now,
        )),
        source matches SourceInspection::Failed(e) ==> (next matches PendingNext::RecordFailed { row, sweep }
            && given_up_as(
            row@,
            state.task@,
            TransferFailureStage::Source,
            "source_changed"@,
            e@.message(),
            now,
        )),
        source matches SourceInspection::Found(f) ==> ({
            let task = state.task@;
            let unchanged = (task.sha256.len() == 0 || task.sha256 == f.sha256@) && (task.size == 0
                || task.size == f.size);
            &&& unchanged ==> next is Started
            &&& !unchanged ==> (next matches PendingNext::RecordFailed { row, sweep } && (
            source_change(task, f) matches Some(why) && given_up_as(
                row@,
                task,
                TransferFailureStage::Source,
                "source_changed"@,
                why.message(),
                now,
            )))
        }),
{
    if let PendingNext::Started { job, sweep } = next {
        if let SourceInspection::Found(f) = source {
            a_started_job_runs_its_task(before, after, state.task@, f.size, f.sha256@, job);
        }
    }
}

/// A retry is asked for as a retry and a resume as a resume, each of the task and
/// under the operation that were named.
pub proof fn a_recovery_is_the_one_that_was_asked_for(
    registry: RegistryView,
    task_id: Seq<char>,
    client_operation_id: Seq<char>,
    retried: RecoveryNext,
    resumed: RecoveryNext,
)
    requires
        retries(registry, task_id, client_operation_id, retried),
        resumes(registry, task_id, client_operation_id, resumed),
    ensures
        retried matches RecoveryNext::LookupParent(s) ==> s.request.task_id@ == task_id
            && s.request.client_operation_id@ == client_operation_id && s.request.kind
            == TransferRecoveryKind::Retry,
        resumed matches RecoveryNext::LookupParent(s) ==> s.request.task_id@ == task_id
            && s.request.client_operation_id@ == client_operation_id && s.request.kind
            == TransferRecoveryKind::Resume,
        retried matches RecoveryNext::LookupActive(s) ==> s.parent@ == registry.tasks[task_id]
            && s.request.task_id@ == task_id && s.request.client_operation_id@ == client_operation_id
            && s.request.kind == TransferRecoveryKind::Retry,
        resumed matches RecoveryNext::LookupActive(s) ==> s.parent@ == registry.tasks[task_id]
            && s.request.task_id@ == task_id && s.request.client_operation_id@ == client_operation_id
            && s.request.kind == TransferRecoveryKind::Resume,
        !registry.tasks.contains_key(task_id) ==> retried is LookupParent && resumed is LookupParent,
{
}

/// A walk that has begun has every row before it: it comes to the first row that
/// is not running.
pub proof fn a_walk_begins_with_the_first_row(
    rows: Vec<TransferTask>,
    sweep: PendingSweep,
    registry: RegistryView,
    next: PendingNext,
)
    requires
        sweep_starts(rows, sweep),
        sweep_advances(registry, sweep, next),
        rows@.len() > 0,
        !registry.tasks.contains_key(rows@[0]@.id),
    ensures
        next matches PendingNext::InspectSource(s) && s.task@ == rows@[0]@ && s.sweep.at == 1
            && s.sweep.rows == rows && s.sweep.recovered == 0,
{
}

} // verus!

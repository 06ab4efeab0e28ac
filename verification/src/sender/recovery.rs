//! Taking up a failed transfer again, at most once per client operation and with
//! at most one attempt per logical transfer at a time.
use vstd::prelude::*;

use crate::error::{AppError, AppErrorView};
use crate::ident::{is_random_uuid, new_transfer_id};
use crate::peer::{supported, PeerProtocolInfo, CAPABILITY_TRANSFER_RESUME_V1};
use crate::receiver::resume::row_view;
use crate::receiver::validation::{opt_str, unit};
use crate::registry::{failed_task, lists_newest_first, RegistryView, TransferRegistry};
use crate::sender::send::{spawn_claimed_send, starts, wire_id, wire_id_of, SendJob};
use crate::task::{
    canonical_recovery_payload_hash, is_terminal_status, opt_task, opt_view, payload_fits,
    payload_hash, phase_of, recovery_payload_fits, status_name, status_str, terminal, FailureView,
    SourceFingerprint, TaskView, TransferDirection, TransferFailure, TransferFailureStage,
    TransferPhase, TransferRecoveryKind, TransferStatus, TransferTask,
};
use crate::text::{decimal, decimal_of, join2, join3, join4, join5, same, trim, trimmed};
use crate::CHUNK_SIZE;

verus! {

broadcast use vstd::string::group_string_axioms;

// ---------------------------------------------------------------------------
// What may be taken up again
// ---------------------------------------------------------------------------
/// Why `parent` may not be taken up again by `kind`, if it may not.
pub open spec fn recovery_refusal(parent: TaskView, kind: TransferRecoveryKind) -> Option<AppErrorView> {
    let phase = phase_of(parent);
    let active = AppErrorView::Conflict("transfer_active: 活跃阶段不允许 retry/resume，请先取消"@);
    let done = AppErrorView::Validation("已完成任务不能 retry/resume"@);
    if parent.direction != TransferDirection::Send {
        Some(AppErrorView::Validation("仅发送方向任务支持 retry/resume"@))
    } else if phase == TransferPhase::Completed {
        Some(done)
    } else if phase != TransferPhase::Failed && phase != TransferPhase::Cancelled {
        Some(active)
    } else if parent.status == TransferStatus::Completed {
        Some(done)
    } else if parent.status != TransferStatus::Failed && parent.status != TransferStatus::Cancelled {
        Some(active)
    } else if parent.failure is Some && !parent.failure->0.retryable {
        Some(
            AppErrorView::Validation(
                "non_retryable: 失败码 "@ + parent.failure->0.code + " 不可重试"@,
            ),
        )
    } else if kind == TransferRecoveryKind::Resume && parent.status == TransferStatus::Cancelled {
        Some(AppErrorView::Validation("cancelled 任务请使用 retry 重新传输"@))
    } else {
        None
    }
}

/// Checks that `parent` may be taken up again by `kind`.
pub fn validate_parent_for_recovery(parent: &TransferTask, kind: TransferRecoveryKind) -> (checked:
    Result<(), AppError>)
    ensures
        match checked {
            Ok(_) => recovery_refusal(parent@, kind) is None,
            Err(e) => recovery_refusal(parent@, kind) == Some(e@),
        },
{
    if parent.direction != TransferDirection::Send {
        return Err(AppError::validation("仅发送方向任务支持 retry/resume".to_string()));
    }
    match parent.effective_phase() {
        TransferPhase::Completed => {
            return Err(AppError::validation("已完成任务不能 retry/resume".to_string()));
        },
        TransferPhase::Failed => {},
        TransferPhase::Cancelled => {},
        _ => {
            return Err(
                AppError::conflict(
                    "transfer_active: 活跃阶段不允许 retry/resume，请先取消".to_string(),
                ),
            );
        },
    }
    match parent.status {
        TransferStatus::Completed => {
            return Err(AppError::validation("已完成任务不能 retry/resume".to_string()));
        },
        TransferStatus::Failed => {},
        TransferStatus::Cancelled => {},
        _ => {
            return Err(
                AppError::conflict(
                    "transfer_active: 活跃阶段不允许 retry/resume，请先取消".to_string(),
                ),
            );
        },
    }
    if let Some(failure) = &parent.failure {
        if !failure.retryable {
            return Err(
                AppError::validation(
                    join3("non_retryable: 失败码 ", failure.code.as_str(), " 不可重试"),
                ),
            );
        }
    }
    if kind == TransferRecoveryKind::Resume && parent.status == TransferStatus::Cancelled {
        return Err(AppError::validation("cancelled 任务请使用 retry 重新传输".to_string()));
    }
    Ok(())
}

/// Exactly the sending tasks that ended in failure or were cancelled, and whose
/// failure, if any, allows it, may be sent again; a cancelled one is sent again
/// from the start only.
pub proof fn only_ended_and_retryable_sends_are_recovered(
    parent: TaskView,
    kind: TransferRecoveryKind,
)
    ensures
        recovery_refusal(parent, kind) is None <==> {
            &&& parent.direction == TransferDirection::Send
            &&& phase_of(parent) == TransferPhase::Failed || phase_of(parent) == TransferPhase::Cancelled
            &&& parent.status == TransferStatus::Failed || parent.status == TransferStatus::Cancelled
            &&& parent.failure is Some ==> parent.failure->0.retryable
            &&& kind == TransferRecoveryKind::Resume ==> parent.status != TransferStatus::Cancelled
        },
        recovery_refusal(parent, TransferRecoveryKind::Resume) is None ==> recovery_refusal(
            parent,
            TransferRecoveryKind::Retry,
        ) is None,
{
}

/// The logical transfer that a task is an attempt at.
pub open spec fn logical_id_of(task: TaskView) -> Seq<char> {
    if trimmed(task.logical_transfer_id).len() == 0 {
        task.id
    } else {
        task.logical_transfer_id
    }
}

/// The logical transfer that `task` is an attempt at: its own id where none is
/// recorded.
pub fn resolve_logical_transfer_id(task: &TransferTask) -> (id: String)
    ensures
        id@ == logical_id_of(task@),
{
    if trim(task.logical_transfer_id.as_str()).as_str().is_empty() {
        task.id.clone()
    } else {
        task.logical_transfer_id.clone()
    }
}

/// Whether both name the same client operation.
pub open spec fn same_operation(left: Option<Seq<char>>, right: Option<Seq<char>>) -> bool {
    left is Some && right is Some && left == right
}

/// Whether both name the same client operation; none is the same as none.
pub fn is_same_client_operation(left: Option<&str>, right: Option<&str>) -> (yes: bool)
    ensures
        yes == same_operation(
            opt_str(left),
            opt_str(right),
        ),
{
    match (left, right) {
        (Some(a), Some(b)) => same(a, b),
        _ => false,
    }
}

fn borrow_opt(s: &Option<String>) -> (r: Option<&str>)
    ensures
        opt_str(r) == opt_view(*s),
{
    match s {
        Some(s) => Some(s.as_str()),
        None => None,
    }
}

// ---------------------------------------------------------------------------
// One attempt at a time
// ---------------------------------------------------------------------------
/// Whether `task` stands in the way of a recovery of `logical` by operation `op`:
/// another attempt at the same logical transfer that has not ended and belongs to
/// another operation.
pub open spec fn stands_in_the_way(
    task: TaskView,
    logical: Seq<char>,
    exclude: Seq<char>,
    op: Seq<char>,
) -> bool {
    &&& task.id != exclude
    &&& logical_id_of(task) == logical
    &&& !terminal(task.status)
    &&& !same_operation(task.client_operation_id, Some(op))
}

/// The refusal of a recovery that attempt `id` stands in the way of.
pub open spec fn already_active(logical: Seq<char>, id: Seq<char>) -> AppErrorView {
    AppErrorView::Conflict(
        "logical_transfer_active: logical_transfer_id="@ + logical + " 已有活跃 attempt "@ + id,
    )
}

fn refuse_active(logical: &str, id: &str) -> (e: AppError)
    ensures
        e@ == already_active(logical@, id@),
{
    AppError::conflict(
        join4(
            "logical_transfer_active: logical_transfer_id=",
            logical,
            " 已有活跃 attempt ",
            id,
        ),
    )
}

/// Looks for an attempt in progress that stands in the way.
pub fn find_active_logical_recovery(
    registry: &TransferRegistry,
    logical_transfer_id: &str,
    exclude_task_id: &str,
    client_operation_id: &str,
) -> (checked: Result<(), AppError>)
    ensures
        match checked {
            Ok(_) => forall|id: Seq<char>| #[trigger]
                registry@.tasks.contains_key(id) ==> !stands_in_the_way(
                    registry@.tasks[id],
                    logical_transfer_id@,
                    exclude_task_id@,
                    client_operation_id@,
                ),
            Err(e) => exists|id: Seq<char>| #[trigger]
                registry@.tasks.contains_key(id) && stands_in_the_way(
                    registry@.tasks[id],
                    logical_transfer_id@,
                    exclude_task_id@,
                    client_operation_id@,
                ) && e@ == already_active(logical_transfer_id@, registry@.tasks[id].id),
        },
{
    let tasks = registry.list();
    let mut i: usize = 0;
    while i < tasks.len()
        invariant
            i <= tasks@.len(),
            lists_newest_first(registry@.tasks, tasks@),
            forall|j: int| 0 <= j < i ==> !stands_in_the_way(
                (#[trigger] tasks@[j])@,
                logical_transfer_id@,
                exclude_task_id@,
                client_operation_id@,
            ),
        decreases tasks@.len() - i,
    {
        let active = &tasks[i];
        let logical = resolve_logical_transfer_id(active);
        if !same(active.id.as_str(), exclude_task_id) && same(logical.as_str(), logical_transfer_id)
            && !is_terminal_status(active.status) && !is_same_client_operation(
            borrow_opt(&active.client_operation_id),
            Some(client_operation_id),
        ) {
            assert(registry@.tasks.contains_key(tasks@[i as int]@.id));
            return Err(refuse_active(logical_transfer_id, active.id.as_str()));
        }
        i += 1;
    }
    proof {
        assert forall|id: Seq<char>| #[trigger]
            registry@.tasks.contains_key(id) implies !stands_in_the_way(
            registry@.tasks[id],
            logical_transfer_id@,
            exclude_task_id@,
            client_operation_id@,
        ) by {
            let k = choose|k: int| 0 <= k < tasks@.len() && (#[trigger] tasks@[k])@.id == id;
            assert(registry@.tasks[tasks@[k]@.id] == tasks@[k]@);
        }
    }
    Ok(())
}

/// Whether the attempt that history holds for the logical transfer stands in the
/// way: it is another attempt, of another operation.
pub open spec fn history_stands_in_the_way(
    row: Option<TaskView>,
    exclude: Seq<char>,
    op: Seq<char>,
) -> bool {
    row is Some && row->0.id != exclude && !same_operation(
        row->0.client_operation_id,
        Some(op),
    )
}

/// Checks the attempt that history holds as not ended for the logical transfer.
pub fn ensure_no_active_logical_recovery(
    row: &Option<TransferTask>,
    logical_transfer_id: &str,
    exclude_task_id: &str,
    client_operation_id: &str,
) -> (checked: Result<(), AppError>)
    ensures
        unit(checked) == (if history_stands_in_the_way(
            opt_task(*row),
            exclude_task_id@,
            client_operation_id@,
        ) {
            Err::<(), AppErrorView>(already_active(logical_transfer_id@, opt_task(*row)->0.id))
        } else {
            Ok(())
        }),
{
    if let Some(active) = row {
        if !same(active.id.as_str(), exclude_task_id) && !is_same_client_operation(
            borrow_opt(&active.client_operation_id),
            Some(client_operation_id),
        ) {
            return Err(refuse_active(logical_transfer_id, active.id.as_str()));
        }
    }
    Ok(())
}

/// An attempt of the same operation never stands in its own way: a request that
/// is repeated is not refused for its first attempt.
pub proof fn an_operation_is_not_in_its_own_way(
    task: TaskView,
    logical: Seq<char>,
    exclude: Seq<char>,
    op: Seq<char>,
)
    requires
        task.client_operation_id == Some(op),
    ensures
        !stands_in_the_way(task, logical, exclude, op),
        !history_stands_in_the_way(Some(task), exclude, op),
{
}

// ---------------------------------------------------------------------------
// The source file
// ---------------------------------------------------------------------------
/// What was found of a source file that a task was made for.
pub struct SourceState {
    pub size: u64,
    /// When it was last changed, in seconds and nanoseconds since 1970.
    pub modified: Option<(u64, u32)>,
    pub sha256: String,
}

/// Nanoseconds since 1970, where they fit.
pub open spec fn nanos(modified: Option<(u64, u32)>) -> Option<u64> {
    match modified {
        Some((secs, sub)) => if secs * 1_000_000_000 + sub <= u64::MAX {
            Some((secs * 1_000_000_000 + sub) as u64)
        } else {
            None
        },
        None => None,
    }
}

/// Why a source file is not the one that `task` was made for, if it is not.
pub open spec fn source_change(task: TaskView, source: SourceState) -> Option<AppErrorView> {
    if task.sha256.len() > 0 && task.sha256 != source.sha256@ {
        Some(
            AppErrorView::Conflict("source_changed: SHA 不匹配（期望 "@ + task.sha256 + "）"@),
        )
    } else if task.size > 0 && task.size != source.size {
        Some(
            AppErrorView::Conflict(
                "source_changed: 大小不匹配（期望 "@ + decimal(task.size as nat) + " 实际 "@ + decimal(
                    source.size as nat,
                ) + "）"@,
            ),
        )
    } else {
        None
    }
}

/// What comes of checking that a source file is still the one that `task` was made
/// for.
pub open spec fn source_checked(
    task: TaskView,
    source: SourceState,
    checked: Result<SourceFingerprint, AppError>,
) -> bool {
    match checked {
        Err(e) => source_change(task, source) == Some(e@),
        Ok(fp) => source_change(task, source) is None && fp.size == source.size && fp.mtime_ns == nanos(
            source.modified,
        ) && fp.sha256@ == source.sha256@,
    }
}

/// Checks that a source file is still the one that `task` was made for.
pub fn recheck_source_fingerprint(task: &TransferTask, source: SourceState) -> (checked: Result<
    SourceFingerprint,
    AppError,
>)
    ensures
        source_checked(task@, source, checked),
{
    let mtime_ns: Option<u64> = match source.modified {
        Some((secs, sub)) => match secs.checked_mul(1_000_000_000) {
            Some(ns) => ns.checked_add(sub as u64),
            None => None,
        },
        None => None,
    };
    if !task.sha256.as_str().is_empty() && !same(task.sha256.as_str(), source.sha256.as_str()) {
        return Err(
            AppError::conflict(
                join3("source_changed: SHA 不匹配（期望 ", task.sha256.as_str(), "）"),
            ),
        );
    }
    if task.size > 0 && task.size != source.size {
        let expected = decimal_of(task.size);
        let actual = decimal_of(source.size);
        return Err(
            AppError::conflict(
                join5(
                    "source_changed: 大小不匹配（期望 ",
                    expected.as_str(),
                    " 实际 ",
                    actual.as_str(),
                    "）",
                ),
            ),
        );
    }
    Ok(SourceFingerprint { size: source.size, mtime_ns, sha256: source.sha256 })
}

/// `task` failed at `now`, in a way that allows another attempt.
pub open spec fn failed_row(
    task: TaskView,
    stage: TransferFailureStage,
    code: Seq<char>,
    message: Seq<char>,
    now: Seq<char>,
) -> TaskView {
    failed_task(task, now, FailureView { stage, code, retryable: true, message })
}

fn fail_row(task: &TransferTask, stage: TransferFailureStage, code: &str, message: String, now: &str) -> (row:
    TransferTask)
    ensures
        row@ == failed_row(task@, stage, code@, message@, now@),
{
    let mut row = task.clone();
    row.status = TransferStatus::Failed;
    row.phase = Some(TransferPhase::Failed);
    row.failure = Some(
        TransferFailure { stage, code: code.to_string(), retryable: true, message },
    );
    row.completed_at = Some(now.to_string());
    row
}

// ---------------------------------------------------------------------------
// Starting a recovery
// ---------------------------------------------------------------------------
/// What comes next in starting a recovery.
pub enum RecoveryNext {
    /// Look the parent task up in history.
    LookupParent(RecoveryParent),
    /// Look for an attempt at the logical transfer that history holds as not
    /// ended.
    LookupActive(RecoveryActive),
    /// See whether the source file is there; if it is, measure and hash it.
    InspectSource(RecoverySource),
    /// Look the peer up among the devices and ask for its protocol.
    ProbePeer(RecoveryPeer),
    /// Claim the operation for the task.
    Claim(RecoveryClaim),
    /// The operation was claimed: look for another attempt once more.
    RecheckActive(RecoveryClaimed),
    /// No other attempt: measure and hash the source file once more.
    RecheckSource(RecoveryRecheck),
    /// Record the failed row.
    RecordFailed(RecoveryFailed),
    /// The operation was claimed before: see to its attempt.
    Replay(ReplayNext),
    /// The attempt is to be run.
    Started { task: TransferTask, job: SendJob },
    Refused(AppError),
}

/// A request to take up a task again.
pub struct RecoveryRequest {
    pub task_id: String,
    pub client_operation_id: String,
    pub kind: TransferRecoveryKind,
}

/// A request whose parent task is not in progress.
pub struct RecoveryParent {
    pub request: RecoveryRequest,
}

/// A request whose parent task may be taken up again.
pub struct RecoveryActive {
    pub request: RecoveryRequest,
    pub parent: TransferTask,
    pub logical_id: String,
}

/// A request that no other attempt stands in the way of.
pub struct RecoverySource {
    pub request: RecoveryRequest,
    pub parent: TransferTask,
    pub logical_id: String,
}

/// A request whose peer must be able to resume.
pub struct RecoveryPeer {
    pub request: RecoveryRequest,
    pub parent: TransferTask,
    pub logical_id: String,
    pub file_size: u64,
    pub sha256: String,
}

/// A task that is to claim the operation.
pub struct RecoveryClaim {
    pub client_operation_id: String,
    pub payload_hash: String,
    pub task: TransferTask,
}

/// A task that has claimed the operation.
pub struct RecoveryClaimed {
    pub client_operation_id: String,
    pub logical_id: String,
    pub task: TransferTask,
    pub file_size: u64,
    pub sha256: String,
}

/// A task that has claimed the operation with no other attempt in the way.
pub struct RecoveryRecheck {
    pub task: TransferTask,
    pub file_size: u64,
    pub sha256: String,
}

/// A claimed task that is given up, and why.
pub struct RecoveryFailed {
    pub row: TransferTask,
    pub error: AppError,
}

/// The recovery is refused.
pub open spec fn recovery_refused(next: RecoveryNext, e: AppErrorView) -> bool {
    next matches RecoveryNext::Refused(x) && x@ == e
}

/// The step once the parent is known.
pub open spec fn parent_known(
    registry: RegistryView,
    request: RecoveryRequest,
    parent: TaskView,
    next: RecoveryNext,
) -> bool {
    match recovery_refusal(parent, request.kind) {
        Some(e) => recovery_refused(next, e),
        None => {
            let logical = logical_id_of(parent);
            if exists|id: Seq<char>| #[trigger]
                registry.tasks.contains_key(id) && stands_in_the_way(
                    registry.tasks[id],
                    logical,
                    parent.id,
                    request.client_operation_id@,
                ) {
                exists|id: Seq<char>| #[trigger]
                    registry.tasks.contains_key(id) && stands_in_the_way(
                        registry.tasks[id],
                        logical,
                        parent.id,
                        request.client_operation_id@,
                    ) && recovery_refused(next, already_active(logical, registry.tasks[id].id))
            } else {
                next matches RecoveryNext::LookupActive(s) && s.request == request && s.parent@ == parent
                    && s.logical_id@ == logical
            }
        },
    }
}

fn with_parent(registry: &TransferRegistry, request: RecoveryRequest, parent: TransferTask) -> (next:
    RecoveryNext)
    ensures
        parent_known(registry@, request, parent@, next),
{
    match validate_parent_for_recovery(&parent, request.kind) {
        Ok(()) => {},
        Err(e) => {
            return RecoveryNext::Refused(e);
        },
    }
    let logical_id = resolve_logical_transfer_id(&parent);
    match find_active_logical_recovery(
        registry,
        logical_id.as_str(),
        parent.id.as_str(),
        request.client_operation_id.as_str(),
    ) {
        Ok(()) => {},
        Err(e) => {
            return RecoveryNext::Refused(e);
        },
    }
    RecoveryNext::LookupActive(RecoveryActive { request, parent, logical_id })
}

/// Starts to take up a task again: a parent in progress comes before one in
/// history.
pub fn start_recovery_operation(registry: &TransferRegistry, request: RecoveryRequest) -> (next:
    RecoveryNext)
    ensures
        recovery_starts(registry@, request, next),
{
    match registry.get(request.task_id.as_str()) {
        Some(parent) => with_parent(registry, request, parent),
        None => RecoveryNext::LookupParent(RecoveryParent { request }),
    }
}

/// Starts to send `task_id` again from the start, under a new protocol id.
pub fn retry_transfer(registry: &TransferRegistry, task_id: String, client_operation_id: String) -> (next:
    RecoveryNext)
    ensures
        retries(registry@, task_id@, client_operation_id@, next),
{
    let request = RecoveryRequest {
        task_id,
        client_operation_id,
        kind: TransferRecoveryKind::Retry,
    };
    let next = start_recovery_operation(registry, request);
    assert(recovery_starts(registry@, request, next));
    next
}

/// Starts to go on with `task_id` from where it stopped, under the protocol id
/// it had.
pub fn resume_transfer(registry: &TransferRegistry, task_id: String, client_operation_id: String) -> (next:
    RecoveryNext)
    ensures
        resumes(registry@, task_id@, client_operation_id@, next),
{
    let request = RecoveryRequest {
        task_id,
        client_operation_id,
        kind: TransferRecoveryKind::Resume,
    };
    let next = start_recovery_operation(registry, request);
    assert(recovery_starts(registry@, request, next));
    next
}

/// The first step of taking up task `task_id` again by `kind`, under the operation
/// `client_operation_id`.
pub open spec fn asks_for(
    registry: RegistryView,
    task_id: Seq<char>,
    client_operation_id: Seq<char>,
    kind: TransferRecoveryKind,
    next: RecoveryNext,
) -> bool {
    exists|request: RecoveryRequest|
        request.task_id@ == task_id && request.client_operation_id@ == client_operation_id
            && request.kind == kind && #[trigger] recovery_starts(registry, request, next)
}

/// The first step of sending task `task_id` again from the start.
pub open spec fn retries(
    registry: RegistryView,
    task_id: Seq<char>,
    client_operation_id: Seq<char>,
    next: RecoveryNext,
) -> bool {
    asks_for(registry, task_id, client_operation_id, TransferRecoveryKind::Retry, next)
}

/// The first step of going on with task `task_id` from where it stopped.
pub open spec fn resumes(
    registry: RegistryView,
    task_id: Seq<char>,
    client_operation_id: Seq<char>,
    next: RecoveryNext,
) -> bool {
    asks_for(registry, task_id, client_operation_id, TransferRecoveryKind::Resume, next)
}

/// The first step of taking up a task again.
pub open spec fn recovery_starts(
    registry: RegistryView,
    request: RecoveryRequest,
    next: RecoveryNext,
) -> bool {
    match registry.task(request.task_id@) {
        Some(parent) => parent_known(registry, request, parent, next),
        None => next matches RecoveryNext::LookupParent(s) && s.request == request,
    }
}

/// The step after the parent was looked up in history.
pub open spec fn parent_looked_up(
    registry: RegistryView,
    request: RecoveryRequest,
    row: Result<Option<TaskView>, AppErrorView>,
    next: RecoveryNext,
) -> bool {
    match row {
        Err(e) => recovery_refused(next, e),
        Ok(None) => recovery_refused(
            next,
            AppErrorView::NotFound("传输任务不存在: "@ + request.task_id@),
        ),
        Ok(Some(parent)) => parent_known(registry, request, parent, next),
    }
}

impl RecoveryParent {
    /// The parent has been looked up in history.
    pub fn looked_up(
        self,
        registry: &TransferRegistry,
        row: Result<Option<TransferTask>, AppError>,
    ) -> (next: RecoveryNext)
        ensures
            parent_looked_up(registry@, self.request, row_view(row), next),
    {
        match row {
            Err(e) => RecoveryNext::Refused(e),
            Ok(None) => RecoveryNext::Refused(
                AppError::not_found(join2("传输任务不存在: ", self.request.task_id.as_str())),
            ),
            Ok(Some(parent)) => with_parent(registry, self.request, parent),
        }
    }
}

/// The step once history has been searched for another attempt.
pub open spec fn activity_known(
    state: RecoveryActive,
    row: Result<Option<TaskView>, AppErrorView>,
    next: RecoveryNext,
) -> bool {
    match row {
        Err(e) => recovery_refused(next, e),
        Ok(active) => if history_stands_in_the_way(
            active,
            state.parent@.id,
            state.request.client_operation_id@,
        ) {
            recovery_refused(next, already_active(state.logical_id@, active->0.id))
        } else {
            next matches RecoveryNext::InspectSource(s) && s.request == state.request && s.parent
                == state.parent && s.logical_id == state.logical_id
        },
    }
}

impl RecoveryActive {
    /// History has been searched for another attempt.
    pub fn looked_up(self, row: Result<Option<TransferTask>, AppError>) -> (next: RecoveryNext)
        ensures
            activity_known(self, row_view(row), next),
    {
        match row {
            Err(e) => RecoveryNext::Refused(e),
            Ok(active) => match ensure_no_active_logical_recovery(
                &active,
                self.logical_id.as_str(),
                self.parent.id.as_str(),
                self.request.client_operation_id.as_str(),
            ) {
                Err(e) => RecoveryNext::Refused(e),
                Ok(()) => RecoveryNext::InspectSource(
                    RecoverySource {
                        request: self.request,
                        parent: self.parent,
                        logical_id: self.logical_id,
                    },
                ),
            },
        }
    }
}

/// What was found of a source file.
pub enum SourceInspection {
    Missing,
    /// It could not be measured or hashed.
    Failed(AppError),
    Found(SourceState),
}

/// The protocol id that goes into the payload: the one that is kept, or none for
/// an attempt from the start, whose own id is made up anew each time.
pub open spec fn payload_protocol(kind: TransferRecoveryKind, parent: TaskView) -> Seq<char> {
    match kind {
        TransferRecoveryKind::Retry => ""@,
        TransferRecoveryKind::Resume => wire_id_of(parent),
    }
}

/// The attempt number after `attempt`.
pub open spec fn next_attempt(attempt: u32) -> u32 {
    if attempt >= u32::MAX - 1 {
        u32::MAX
    } else if attempt < 1 {
        2
    } else {
        (attempt + 1) as u32
    }
}

/// The task that claims an operation.
pub open spec fn claim_task(
    request: RecoveryRequest,
    parent: TaskView,
    logical: Seq<char>,
    file_size: u64,
    sha256: Seq<char>,
    attempt_id: Seq<char>,
    now: Seq<char>,
) -> TaskView {
    TaskView {
        id: attempt_id,
        filename: parent.filename,
        file_path: parent.file_path,
        size: file_size,
        sha256,
        chunk_size: CHUNK_SIZE as u64,
        direction: TransferDirection::Send,
        peer_device_id: parent.peer_device_id,
        status: TransferStatus::Pending,
        transferred_bytes: 0,
        created_at: now,
        completed_at: None,
        phase: Some(TransferPhase::Queued),
        failure: None,
        attempt: next_attempt(parent.attempt),
        logical_transfer_id: logical,
        attempt_id,
        protocol_transfer_id: match request.kind {
            TransferRecoveryKind::Retry => attempt_id,
            TransferRecoveryKind::Resume => wire_id_of(parent),
        },
        client_operation_id: Some(request.client_operation_id@),
        operation_payload_hash: Some(
            payload_hash(
                request.kind,
                logical,
                parent.file_path,
                parent.peer_device_id,
                payload_protocol(request.kind, parent),
            ),
        ),
    }
}

/// The operation of `request` is to be claimed, by an attempt with a fresh id.
pub open spec fn claims(
    next: RecoveryNext,
    request: RecoveryRequest,
    parent: TaskView,
    logical: Seq<char>,
    file_size: u64,
    sha256: Seq<char>,
    now: Seq<char>,
) -> bool {
    next matches RecoveryNext::Claim(c) && c.client_operation_id@ == request.client_operation_id@
        && is_random_uuid(c.task@.id) && c.task@ == claim_task(
        request,
        parent,
        logical,
        file_size,
        sha256,
        c.task@.id,
        now,
    ) && Some(c.payload_hash@) == c.task@.operation_payload_hash
}

fn claim(
    request: RecoveryRequest,
    parent: TransferTask,
    logical_id: String,
    file_size: u64,
    sha256: String,
    now: String,
) -> (next: RecoveryNext)
    requires
        payload_fits(
            request.kind,
            logical_id@,
            parent@.file_path,
            parent@.peer_device_id,
            payload_protocol(request.kind, parent@),
        ),
    ensures
        claims(next, request, parent@, logical_id@, file_size, sha256@, now@),
{
    let attempt_id = new_transfer_id();
    let (hash_protocol, protocol_id) = match request.kind {
        TransferRecoveryKind::Retry => ("".to_string(), attempt_id.clone()),
        TransferRecoveryKind::Resume => (wire_id(&parent), wire_id(&parent)),
    };
    let payload_hash = canonical_recovery_payload_hash(
        request.kind,
        logical_id.as_str(),
        parent.file_path.as_str(),
        parent.peer_device_id.as_str(),
        hash_protocol.as_str(),
    );
    let saturated: u32 = parent.attempt.saturating_add(1);
    let attempt: u32 = if saturated < 2 {
        2
    } else {
        saturated
    };
    let task = TransferTask {
        id: attempt_id.clone(),
        filename: parent.filename.clone(),
        file_path: parent.file_path.clone(),
        size: file_size,
        sha256,
        chunk_size: CHUNK_SIZE as u64,
        direction: TransferDirection::Send,
        peer_device_id: parent.peer_device_id.clone(),
        status: TransferStatus::Pending,
        transferred_bytes: 0,
        created_at: now,
        completed_at: None,
        phase: Some(TransferPhase::Queued),
        failure: None,
        attempt,
        logical_transfer_id: logical_id,
        attempt_id,
        protocol_transfer_id: protocol_id,
        client_operation_id: Some(request.client_operation_id.clone()),
        operation_payload_hash: Some(payload_hash.clone()),
    };
    RecoveryNext::Claim(
        RecoveryClaim { client_operation_id: request.client_operation_id, payload_hash, task },
    )
}

/// The payload of the recovery of `parent` can be hashed.
pub open spec fn request_fits(request: RecoveryRequest, parent: TaskView, logical: Seq<char>) -> bool {
    payload_fits(
        request.kind,
        logical,
        parent.file_path,
        parent.peer_device_id,
        payload_protocol(request.kind, parent),
    )
}

/// Whether the payload of the recovery of `parent` can be hashed.
pub fn recovery_request_fits(request: &RecoveryRequest, parent: &TransferTask, logical_id: &str) -> (fits:
    bool)
    ensures
        fits == request_fits(*request, parent@, logical_id@),
{
    let protocol = match request.kind {
        TransferRecoveryKind::Retry => "".to_string(),
        TransferRecoveryKind::Resume => wire_id(parent),
    };
    recovery_payload_fits(
        request.kind,
        logical_id,
        parent.file_path.as_str(),
        parent.peer_device_id.as_str(),
        protocol.as_str(),
    )
}

/// The step once the source file has been inspected: it must still be the one that
/// the parent was made for, and an attempt that goes on needs a peer that can.
pub open spec fn source_known(
    state: RecoverySource,
    source: SourceInspection,
    now: Seq<char>,
    next: RecoveryNext,
) -> bool {
    match source {
        SourceInspection::Missing => recovery_refused(
            next,
            AppErrorView::NotFound("源文件不存在: "@ + state.parent@.file_path),
        ),
        SourceInspection::Failed(e) => recovery_refused(next, e@),
        SourceInspection::Found(found) => match source_change(state.parent@, found) {
            Some(e) => recovery_refused(next, e),
            None => match state.request.kind {
                TransferRecoveryKind::Retry => claims(
                    next,
                    state.request,
                    state.parent@,
                    state.logical_id@,
                    found.size,
                    found.sha256@,
                    now,
                ),
                TransferRecoveryKind::Resume => next matches RecoveryNext::ProbePeer(s) && s.request
                    == state.request && s.parent == state.parent && s.logical_id == state.logical_id
                    && s.file_size == found.size && s.sha256@ == found.sha256@,
            },
        },
    }
}

impl RecoverySource {
    /// The source file has been inspected.
    pub fn inspected(self, source: SourceInspection, now: String) -> (next: RecoveryNext)
        requires
            request_fits(self.request, self.parent@, self.logical_id@),
        ensures
            source_known(self, source, now@, next),
    {
        let state = match source {
            SourceInspection::Found(s) => s,
            SourceInspection::Missing => {
                return RecoveryNext::Refused(
                    AppError::not_found(
                        join2("源文件不存在: ", self.parent.file_path.as_str()),
                    ),
                );
            },
            SourceInspection::Failed(e) => {
                return RecoveryNext::Refused(e);
            },
        };
        match recheck_source_fingerprint(&self.parent, state) {
            Err(e) => RecoveryNext::Refused(e),
            Ok(fp) => match self.request.kind {
                TransferRecoveryKind::Retry => claim(
                    self.request,
                    self.parent,
                    self.logical_id,
                    fp.size,
                    fp.sha256,
                    now,
                ),
                TransferRecoveryKind::Resume => RecoveryNext::ProbePeer(
                    RecoveryPeer {
                        request: self.request,
                        parent: self.parent,
                        logical_id: self.logical_id,
                        file_size: fp.size,
                        sha256: fp.sha256,
                    },
                ),
            },
        }
    }
}

/// What was found of a peer.
pub enum PeerProbe {
    /// It is not among the devices.
    Offline,
    /// It did not name its protocol.
    Failed(String),
    Info(PeerProtocolInfo),
}

/// Why a peer cannot go on with a transfer, if it cannot.
pub open spec fn resume_obstacle(peer_device_id: Seq<char>, probe: PeerProbe) -> Option<AppErrorView> {
    match probe {
        PeerProbe::Offline => Some(
            AppErrorView::NotFound("对端设备不存在或离线: "@ + peer_device_id),
        ),
        PeerProbe::Failed(e) => Some(
            AppErrorView::Unavailable("无法探测对端 resume 能力: "@ + e@),
        ),
        PeerProbe::Info(info) => if supported(info, CAPABILITY_TRANSFER_RESUME_V1@) {
            None
        } else {
            Some(
                AppErrorView::Validation(
                    "unsupported: 对端不支持 transfer.resume.v1，请使用 retry"@,
                ),
            )
        },
    }
}

/// Checks that a peer can go on with a transfer.
pub fn ensure_peer_resume_capability(peer_device_id: &str, probe: PeerProbe) -> (checked: Result<
    (),
    AppError,
>)
    ensures
        match checked {
            Ok(_) => resume_obstacle(peer_device_id@, probe) is None,
            Err(e) => resume_obstacle(peer_device_id@, probe) == Some(e@),
        },
{
    match probe {
        PeerProbe::Offline => Err(
            AppError::not_found(join2("对端设备不存在或离线: ", peer_device_id)),
        ),
        PeerProbe::Failed(e) => Err(
            AppError::unavailable(join2("无法探测对端 resume 能力: ", e.as_str())),
        ),
        PeerProbe::Info(info) => if info.supports(CAPABILITY_TRANSFER_RESUME_V1) {
            Ok(())
        } else {
            Err(
                AppError::validation(
                    "unsupported: 对端不支持 transfer.resume.v1，请使用 retry".to_string(),
                ),
            )
        },
    }
}

/// The step once the peer has been asked what it can do.
pub open spec fn peer_known(
    state: RecoveryPeer,
    probe: PeerProbe,
    now: Seq<char>,
    next: RecoveryNext,
) -> bool {
    match resume_obstacle(state.parent@.peer_device_id, probe) {
        Some(e) => recovery_refused(next, e),
        None => claims(
            next,
            state.request,
            state.parent@,
            state.logical_id@,
            state.file_size,
            state.sha256@,
            now,
        ),
    }
}

impl RecoveryPeer {
    /// The peer has been asked what it can do.
    pub fn probed(self, probe: PeerProbe, now: String) -> (next: RecoveryNext)
        requires
            request_fits(self.request, self.parent@, self.logical_id@),
        ensures
            peer_known(self, probe, now@, next),
    {
        match ensure_peer_resume_capability(self.parent.peer_device_id.as_str(), probe) {
            Err(e) => RecoveryNext::Refused(e),
            Ok(()) => claim(
                self.request,
                self.parent,
                self.logical_id,
                self.file_size,
                self.sha256,
                now,
            ),
        }
    }
}

/// What became of a claim.
pub enum SenderClaimOutcome {
    /// The operation now belongs to the claiming task.
    Fresh(TransferTask),
    /// The operation was claimed before, with the same payload, by the given task.
    Replay(TransferTask),
    /// The operation was claimed before, with another payload.
    Conflict { existing: TransferTask },
}

/// The step once the operation has been claimed, or not.
pub open spec fn claim_settles(
    registry: RegistryView,
    claim: RecoveryClaim,
    outcome: Result<SenderClaimOutcome, AppError>,
    next: RecoveryNext,
) -> bool {
    match outcome {
        Err(e) => recovery_refused(next, e@),
        Ok(SenderClaimOutcome::Conflict { existing }) => recovery_refused(
            next,
            AppErrorView::Conflict("operationIdConflict: clientOperationId 已绑定不同 payload"@),
        ),
        Ok(SenderClaimOutcome::Replay(task)) => next matches RecoveryNext::Replay(r)
            && replay_opens(registry, task@, r),
        Ok(SenderClaimOutcome::Fresh(task)) => next matches RecoveryNext::RecheckActive(s)
            && s.client_operation_id@ == claim.client_operation_id@ && s.logical_id@
            == claim.task@.logical_transfer_id && s.task@ == task@ && s.file_size == claim.task@.size
            && s.sha256@ == claim.task@.sha256,
    }
}

impl RecoveryClaim {
    /// The operation has been claimed, or not.
    pub fn claimed(
        self,
        registry: &TransferRegistry,
        outcome: Result<SenderClaimOutcome, AppError>,
    ) -> (next: RecoveryNext)
        ensures
            claim_settles(registry@, self, outcome, next),
    {
        match outcome {
            Err(e) => RecoveryNext::Refused(e),
            Ok(SenderClaimOutcome::Conflict { .. }) => RecoveryNext::Refused(
                AppError::conflict(
                    "operationIdConflict: clientOperationId 已绑定不同 payload".to_string(),
                ),
            ),
            Ok(SenderClaimOutcome::Replay(task)) => RecoveryNext::Replay(
                ensure_replayed_attempt_running(registry, task),
            ),
            Ok(SenderClaimOutcome::Fresh(task)) => RecoveryNext::RecheckActive(
                RecoveryClaimed {
                    client_operation_id: self.client_operation_id,
                    logical_id: self.task.logical_transfer_id,
                    task,
                    file_size: self.task.size,
                    sha256: self.task.sha256,
                },
            ),
        }
    }
}

/// The claimed task is given up for `e`, and recorded as failed.
pub open spec fn gives_up(
    next: RecoveryNext,
    row: TaskView,
    e: AppErrorView,
) -> bool {
    next matches RecoveryNext::RecordFailed(s) && s.row@ == row && s.error@ == e
}

/// The row of a claimed task that another attempt got ahead of.
pub open spec fn overtaken_row(task: TaskView, now: Seq<char>) -> TaskView {
    failed_row(
        task,
        TransferFailureStage::Transfer,
        "logical_recovery_conflict"@,
        "同 logical_transfer_id 已有活跃 attempt，本次 claim 作废"@,
        now,
    )
}

/// The step after history was searched once more. Another attempt that got ahead,
/// in progress here or in history, makes this one give way; so does a search that
/// failed.
pub open spec fn claim_rechecked(
    registry: RegistryView,
    state: RecoveryClaimed,
    row: Result<Option<TaskView>, AppErrorView>,
    now: Seq<char>,
    next: RecoveryNext,
) -> bool {
    let overtaken = overtaken_row(state.task@, now);
    let op = state.client_operation_id@;
    if exists|id: Seq<char>| #[trigger]
        registry.tasks.contains_key(id) && stands_in_the_way(
            registry.tasks[id],
            state.logical_id@,
            state.task@.id,
            op,
        ) {
        exists|id: Seq<char>| #[trigger]
            registry.tasks.contains_key(id) && stands_in_the_way(
                registry.tasks[id],
                state.logical_id@,
                state.task@.id,
                op,
            ) && gives_up(
                next,
                overtaken,
                already_active(state.logical_id@, registry.tasks[id].id),
            )
    } else {
        match row {
            Err(e) => gives_up(next, overtaken, e),
            Ok(active) => if history_stands_in_the_way(active, state.task@.id, op) {
                gives_up(next, overtaken, already_active(state.logical_id@, active->0.id))
            } else {
                next matches RecoveryNext::RecheckSource(s) && s.task@ == state.task@ && s.file_size
                    == state.file_size && s.sha256@ == state.sha256@
            },
        }
    }
}

impl RecoveryClaimed {
    /// History has been searched once more.
    pub fn looked_up(
        self,
        registry: &TransferRegistry,
        row: Result<Option<TransferTask>, AppError>,
        now: &str,
    ) -> (next: RecoveryNext)
        ensures
            claim_rechecked(registry@, self, row_view(row), now@, next),
    {
        let in_progress = find_active_logical_recovery(
            registry,
            self.logical_id.as_str(),
            self.task.id.as_str(),
            self.client_operation_id.as_str(),
        );
        let checked = match in_progress {
            Err(e) => Err(e),
            Ok(()) => match row {
                Err(e) => Err(e),
                Ok(active) => ensure_no_active_logical_recovery(
                    &active,
                    self.logical_id.as_str(),
                    self.task.id.as_str(),
                    self.client_operation_id.as_str(),
                ),
            },
        };
        match checked {
            Err(error) => {
                let row = fail_row(
                    &self.task,
                    TransferFailureStage::Transfer,
                    "logical_recovery_conflict",
                    "同 logical_transfer_id 已有活跃 attempt，本次 claim 作废".to_string(),
                    now,
                );
                RecoveryNext::RecordFailed(RecoveryFailed { row, error })
            },
            Ok(()) => RecoveryNext::RecheckSource(
                RecoveryRecheck {
                    task: self.task,
                    file_size: self.file_size,
                    sha256: self.sha256,
                },
            ),
        }
    }
}

/// The step after the source file was inspected once more: a file that changed
/// since the operation was claimed is not sent.
pub open spec fn recheck_decides(
    pre: RegistryView,
    post: RegistryView,
    state: RecoveryRecheck,
    source: Result<SourceState, AppError>,
    now: Seq<char>,
    next: RecoveryNext,
) -> bool {
    match source {
        Err(e) => post == pre && recovery_refused(next, e@),
        Ok(s) => match source_change(state.task@, s) {
            Some(e) => post == pre && recovery_refused(next, e),
            None => if s.size != state.file_size || s.sha256@ != state.sha256@ {
                &&& post == pre
                &&& gives_up(
                    next,
                    failed_row(
                        state.task@,
                        TransferFailureStage::Source,
                        "source_changed"@,
                        "spawn 前源文件 fingerprint 已变化"@,
                        now,
                    ),
                    AppErrorView::Conflict("source_changed: 源文件已变化"@),
                )
            } else {
                next matches RecoveryNext::Started { task, job } && task@ == state.task@ && starts(
                    pre,
                    post,
                    state.task@,
                    s.size,
                    s.sha256@,
                    job,
                )
            },
        },
    }
}

impl RecoveryRecheck {
    /// The source file has been inspected once more.
    pub fn inspected(
        self,
        registry: &mut TransferRegistry,
        source: Result<SourceState, AppError>,
        now: &str,
    ) -> (next: RecoveryNext)
        ensures
            recheck_decides(old(registry)@, final(registry)@, self, source, now@, next),
    {
        let state = match source {
            Ok(s) => s,
            Err(e) => {
                return RecoveryNext::Refused(e);
            },
        };
        match recheck_source_fingerprint(&self.task, state) {
            Err(e) => RecoveryNext::Refused(e),
            Ok(fp) => {
                if fp.size != self.file_size || !same(fp.sha256.as_str(), self.sha256.as_str()) {
                    let row = fail_row(
                        &self.task,
                        TransferFailureStage::Source,
                        "source_changed",
                        "spawn 前源文件 fingerprint 已变化".to_string(),
                        now,
                    );
                    return RecoveryNext::RecordFailed(
                        RecoveryFailed {
                            row,
                            error: AppError::conflict("source_changed: 源文件已变化".to_string()),
                        },
                    );
                }
                let task = self.task.clone();
                let job = spawn_claimed_send(registry, self.task, fp.size, fp.sha256);
                RecoveryNext::Started { task, job }
            },
        }
    }
}

/// The end of a recovery that was given up: refused, for the reason it was given up,
/// or because the failed row could not be recorded.
pub open spec fn giving_up_recorded(
    state: RecoveryFailed,
    outcome: Result<(), AppErrorView>,
    next: RecoveryNext,
) -> bool {
    recovery_refused(
        next,
        match outcome {
            Err(e) => e,
            Ok(_) => state.error@,
        },
    )
}

impl RecoveryFailed {
    /// The failed row has been recorded, or not.
    pub fn recorded(self, outcome: Result<(), AppError>) -> (next: RecoveryNext)
        ensures
            giving_up_recorded(self, unit(outcome), next),
    {
        match outcome {
            Err(e) => RecoveryNext::Refused(e),
            Ok(()) => RecoveryNext::Refused(self.error),
        }
    }
}

// ---------------------------------------------------------------------------
// An operation that was claimed before
// ---------------------------------------------------------------------------
/// What comes next for an operation that was claimed before.
pub enum ReplayNext {
    /// Its attempt is not running: see to the source file.
    InspectSource(ReplaySource),
    /// The source file is gone: record the failed row.
    RecordFailed(ReplayFailed),
    /// Its attempt is running.
    Running(TransferTask),
    /// Its attempt is to be run.
    Started { task: TransferTask, job: SendJob },
    Refused(AppError),
}

/// An attempt that is not running.
pub struct ReplaySource {
    pub task: TransferTask,
}

/// An attempt whose source file is gone.
pub struct ReplayFailed {
    pub row: TransferTask,
    pub file_path: String,
}

/// The replay is refused.
pub open spec fn replay_refused(next: ReplayNext, e: AppErrorView) -> bool {
    next matches ReplayNext::Refused(x) && x@ == e
}

/// How an attempt that has ended is named.
pub open spec fn ended_code(task: TaskView) -> Seq<char> {
    match task.status {
        TransferStatus::Completed => "succeeded"@,
        TransferStatus::Failed => match task.failure {
            Some(f) => f.code,
            None => "failed"@,
        },
        _ => "cancelled"@,
    }
}

/// The first step for an operation that was claimed before. One that has ended
/// is not passed off as a new attempt.
pub open spec fn replay_opens(registry: RegistryView, task: TaskView, next: ReplayNext) -> bool {
    if terminal(task.status) {
        replay_refused(
            next,
            AppErrorView::Conflict(
                "operation_terminal: clientOperationId 已有终态 "@ + status_name(task.status) + " ("@
                    + ended_code(task) + ")，请使用新的 clientOperationId"@,
            ),
        )
    } else if registry.task(task.id) is Some {
        next matches ReplayNext::Running(t) && t@ == task
    } else {
        next matches ReplayNext::InspectSource(s) && s.task@ == task
    }
}

/// Sees to the attempt of an operation that was claimed before.
pub fn ensure_replayed_attempt_running(registry: &TransferRegistry, task: TransferTask) -> (next:
    ReplayNext)
    ensures
        replay_opens(registry@, task@, next),
{
    if is_terminal_status(task.status) {
        let code = match task.status {
            TransferStatus::Completed => "succeeded".to_string(),
            TransferStatus::Failed => match &task.failure {
                Some(f) => f.code.clone(),
                None => "failed".to_string(),
            },
            _ => "cancelled".to_string(),
        };
        let status = status_str(task.status);
        return ReplayNext::Refused(
            AppError::conflict(
                join5(
                    "operation_terminal: clientOperationId 已有终态 ",
                    status.as_str(),
                    " (",
                    code.as_str(),
                    ")，请使用新的 clientOperationId",
                ),
            ),
        );
    }
    if registry.get(task.id.as_str()).is_some() {
        return ReplayNext::Running(task);
    }
    ReplayNext::InspectSource(ReplaySource { task })
}

/// The step after the source file of an attempt that is not running was inspected:
/// the attempt is run if the file is there and unchanged.
pub open spec fn replay_inspected(
    pre: RegistryView,
    post: RegistryView,
    task: TaskView,
    source: SourceInspection,
    now: Seq<char>,
    next: ReplayNext,
) -> bool {
    match source {
        SourceInspection::Missing => post == pre && (next matches ReplayNext::RecordFailed(s)
            && s.file_path@ == task.file_path && s.row@ == failed_row(
            task,
            TransferFailureStage::Source,
            "source_missing"@,
            "Replay re-spawn 时源文件不存在"@,
            now,
        )),
        SourceInspection::Failed(e) => post == pre && replay_refused(next, e@),
        SourceInspection::Found(state) => match source_change(task, state) {
            Some(e) => post == pre && replay_refused(next, e),
            None => next matches ReplayNext::Started { task: t, job } && t@ == task && starts(
                pre,
                post,
                task,
                state.size,
                state.sha256@,
                job,
            ),
        },
    }
}

impl ReplaySource {
    /// The source file has been inspected.
    pub fn inspected(
        self,
        registry: &mut TransferRegistry,
        source: SourceInspection,
        now: &str,
    ) -> (next: ReplayNext)
        ensures
            replay_inspected(old(registry)@, final(registry)@, self.task@, source, now@, next),
    {
        let state = match source {
            SourceInspection::Found(s) => s,
            SourceInspection::Missing => {
                let row = fail_row(
                    &self.task,
                    TransferFailureStage::Source,
                    "source_missing",
                    "Replay re-spawn 时源文件不存在".to_string(),
                    now,
                );
                return ReplayNext::RecordFailed(
                    ReplayFailed { row, file_path: self.task.file_path },
                );
            },
            SourceInspection::Failed(e) => {
                return ReplayNext::Refused(e);
            },
        };
        match recheck_source_fingerprint(&self.task, state) {
            Err(e) => ReplayNext::Refused(e),
            Ok(fp) => {
                let task = self.task.clone();
                let job = spawn_claimed_send(registry, self.task, fp.size, fp.sha256);
                ReplayNext::Started { task, job }
            },
        }
    }
}

/// The end of a replay whose source file is gone.
pub open spec fn replay_given_up(
    state: ReplayFailed,
    outcome: Result<(), AppErrorView>,
    next: ReplayNext,
) -> bool {
    replay_refused(
        next,
        match outcome {
            Err(e) => e,
            Ok(_) => AppErrorView::NotFound("源文件不存在: "@ + state.file_path@),
        },
    )
}

impl ReplayFailed {
    /// The failed row has been recorded, or not.
    pub fn recorded(self, outcome: Result<(), AppError>) -> (next: ReplayNext)
        ensures
            replay_given_up(self, unit(outcome), next),
    {
        match outcome {
            Err(e) => ReplayNext::Refused(e),
            Ok(()) => ReplayNext::Refused(
                AppError::not_found(join2("源文件不存在: ", self.file_path.as_str())),
            ),
        }
    }
}

// ---------------------------------------------------------------------------
// Attempts that were claimed but never run
// ---------------------------------------------------------------------------
/// A walk over the rows that history holds as claimed and not yet run.
pub struct PendingSweep {
    pub rows: Vec<TransferTask>,
    /// The row that is looked at next.
    pub at: usize,
    /// How many attempts have been run so far.
    pub recovered: u32,
}

/// What comes next in the walk.
pub enum PendingNext {
    /// See to the source file of a row.
    InspectSource(PendingSource),
    /// Record the failed row, whether or not that succeeds, then go on.
    RecordFailed { row: TransferTask, sweep: PendingSweep },
    /// Run the attempt, then go on.
    Started { job: SendJob, sweep: PendingSweep },
    /// The walk has ended, with so many attempts run.
    Done(u32),
}

/// A row that is not running.
pub struct PendingSource {
    pub task: TransferTask,
    /// The walk from the following row on.
    pub sweep: PendingSweep,
}

/// A walk over all of `rows`, with nothing run yet.
pub open spec fn sweep_starts(rows: Vec<TransferTask>, sweep: PendingSweep) -> bool {
    &&& sweep.rows == rows
    &&& sweep.at == 0
    &&& sweep.recovered == 0
}

/// Starts the walk over the claimed rows.
pub fn recover_pending_claimed_operations(rows: Vec<TransferTask>) -> (sweep: PendingSweep)
    ensures
        sweep_starts(rows, sweep),
{
    PendingSweep { rows, at: 0, recovered: 0 }
}

/// Every row from `from` up to `to` is running.
pub open spec fn all_running(registry: RegistryView, rows: Seq<TransferTask>, from: int, to: int) -> bool {
    forall|j: int| from <= j < to ==> registry.task((#[trigger] rows[j])@.id) is Some
}

/// The next step of the walk: the first row that is not running, if there is one.
pub open spec fn sweep_advances(
    registry: RegistryView,
    sweep: PendingSweep,
    next: PendingNext,
) -> bool {
    match next {
        PendingNext::InspectSource(s) => {
            let k = s.sweep.at - 1;
            &&& sweep.at <= k < sweep.rows@.len()
            &&& s.sweep.rows == sweep.rows && s.sweep.recovered == sweep.recovered
            &&& all_running(registry, sweep.rows@, sweep.at as int, k)
            &&& s.task@ == sweep.rows@[k]@ && registry.task(s.task@.id) is None
        },
        PendingNext::Done(n) => n == sweep.recovered && all_running(
            registry,
            sweep.rows@,
            sweep.at as int,
            sweep.rows@.len() as int,
        ),
        _ => false,
    }
}

impl PendingSweep {
    /// Goes on to the next row that is not running.
    pub fn advance(self, registry: &TransferRegistry) -> (next: PendingNext)
        ensures
            sweep_advances(registry@, self, next),
    {
        let mut at: usize = self.at;
        while at < self.rows.len()
            invariant
                self.at <= at,
                self.at <= self.rows@.len() ==> at <= self.rows@.len(),
                all_running(registry@, self.rows@, self.at as int, at as int),
            decreases self.rows@.len() - at,
        {
            if registry.get(self.rows[at].id.as_str()).is_none() {
                let task = self.rows[at].clone();
                return PendingNext::InspectSource(
                    PendingSource {
                        task,
                        sweep: PendingSweep {
                            rows: self.rows,
                            at: at + 1,
                            recovered: self.recovered,
                        },
                    },
                );
            }
            at += 1;
        }
        PendingNext::Done(self.recovered)
    }
}

/// The walk goes on with the row failed.
pub open spec fn row_failed(
    state: PendingSource,
    code: Seq<char>,
    message: Seq<char>,
    now: Seq<char>,
    next: PendingNext,
) -> bool {
    next matches PendingNext::RecordFailed { row, sweep } && sweep == state.sweep && row@ == failed_row(
        state.task@,
        TransferFailureStage::Source,
        code,
        message,
        now,
    )
}

/// The step after the source file of a row was inspected: a file that is there
/// and unchanged is sent; any other fails the row in a way that allows another
/// attempt.
pub open spec fn pending_inspected(
    pre: RegistryView,
    post: RegistryView,
    state: PendingSource,
    source: SourceInspection,
    now: Seq<char>,
    next: PendingNext,
) -> bool {
    match source {
        SourceInspection::Missing => post == pre && row_failed(
            state,
            "source_missing"@,
            "启动恢复时源文件不存在"@,
            now,
            next,
        ),
        SourceInspection::Failed(e) => post == pre && row_failed(
            state,
            "source_changed"@,
            e@.message(),
            now,
            next,
        ),
        SourceInspection::Found(found) => match source_change(state.task@, found) {
            Some(e) => post == pre && row_failed(state, "source_changed"@, e.message(), now, next),
            None => next matches PendingNext::Started { job, sweep } && starts(
                pre,
                post,
                state.task@,
                found.size,
                found.sha256@,
                job,
            ) && sweep.rows == state.sweep.rows && sweep.at == state.sweep.at && sweep.recovered
                == state.sweep.recovered + 1,
        },
    }
}

impl PendingSource {
    /// The source file has been inspected.
    pub fn inspected(
        self,
        registry: &mut TransferRegistry,
        source: SourceInspection,
        now: &str,
    ) -> (next: PendingNext)
        requires
            self.sweep.recovered < u32::MAX,
        ensures
            pending_inspected(old(registry)@, final(registry)@, self, source, now@, next),
    {
        let checked = match source {
            SourceInspection::Found(state) => recheck_source_fingerprint(&self.task, state),
            SourceInspection::Missing => {
                let row = fail_row(
                    &self.task,
                    TransferFailureStage::Source,
                    "source_missing",
                    "启动恢复时源文件不存在".to_string(),
                    now,
                );
                return PendingNext::RecordFailed { row, sweep: self.sweep };
            },
            SourceInspection::Failed(e) => Err(e),
        };
        match checked {
            Err(e) => {
                let row = fail_row(
                    &self.task,
                    TransferFailureStage::Source,
                    "source_changed",
                    e.message(),
                    now,
                );
                PendingNext::RecordFailed { row, sweep: self.sweep }
            },
            Ok(fp) => {
                let job = spawn_claimed_send(registry, self.task, fp.size, fp.sha256);
                let sweep = PendingSweep {
                    rows: self.sweep.rows,
                    at: self.sweep.at,
                    recovered: self.sweep.recovered + 1,
                };
                PendingNext::Started { job, sweep }
            },
        }
    }
}

// ---------------------------------------------------------------------------
// Laws
// ---------------------------------------------------------------------------
/// Two requests to send the same transfer again from the start carry the same
/// payload hash, whatever ids their attempts were given: a repeated request is
/// recognised as the same operation.
pub proof fn repeated_retries_carry_one_hash(
    request: RecoveryRequest,
    again: RecoveryRequest,
    parent: TaskView,
    logical: Seq<char>,
    size: u64,
    sha: Seq<char>,
    size2: u64,
    sha2: Seq<char>,
    id: Seq<char>,
    id2: Seq<char>,
    now: Seq<char>,
    now2: Seq<char>,
)
    requires
        request.kind == again.kind,
    ensures
        claim_task(request, parent, logical, size, sha, id, now).operation_payload_hash
            == claim_task(again, parent, logical, size2, sha2, id2, now2).operation_payload_hash,
{
}

/// An attempt that goes on keeps the protocol id of its parent, and one from the
/// start takes its own id; either belongs to the parent's logical transfer, has a
/// higher number, and can be found under its operation.
pub proof fn an_attempt_follows_its_parent(
    request: RecoveryRequest,
    parent: TaskView,
    size: u64,
    sha: Seq<char>,
    id: Seq<char>,
    now: Seq<char>,
)
    ensures
        ({
            let task = claim_task(request, parent, logical_id_of(parent), size, sha, id, now);
            &&& request.kind == TransferRecoveryKind::Resume ==> task.protocol_transfer_id
                == wire_id_of(parent)
            &&& request.kind == TransferRecoveryKind::Retry ==> task.protocol_transfer_id == id
            &&& trimmed(logical_id_of(parent)).len() > 0 ==> logical_id_of(task) == logical_id_of(parent)
            &&& parent.attempt < u32::MAX ==> task.attempt > parent.attempt
            &&& task.attempt >= 2
            &&& same_operation(task.client_operation_id, Some(request.client_operation_id@))
            &&& task.direction == TransferDirection::Send && task.file_path == parent.file_path
        }),
{
}

/// A claimed operation that failed on its way leaves a row from which it can be
/// taken up again: ended, failed, and open to another attempt.
pub proof fn a_given_up_claim_can_be_retried(
    task: TaskView,
    stage: TransferFailureStage,
    code: Seq<char>,
    message: Seq<char>,
    now: Seq<char>,
    kind: TransferRecoveryKind,
)
    requires
        task.direction == TransferDirection::Send,
    ensures
        terminal(failed_row(task, stage, code, message, now).status),
        recovery_refusal(failed_row(task, stage, code, message, now), kind) is None,
{
}

/// An operation that has ended is never run again under the same operation id: a
/// repeated request is refused.
pub proof fn an_ended_operation_is_not_run_again(
    registry: RegistryView,
    task: TaskView,
    next: ReplayNext,
)
    requires
        replay_opens(registry, task, next),
    ensures
        terminal(task.status) <==> next is Refused,
        !(next is Started),
        next is Running ==> registry.task(task.id) is Some,
{
}

/// How a ledger answers a claim on an operation that it holds for `held`: the
/// operation is given to the first task that claims it, and a later claim with the
/// same payload is answered with that task.
pub open spec fn ledger_answers(
    held: Option<TaskView>,
    claim: RecoveryClaim,
    outcome: SenderClaimOutcome,
) -> bool {
    match held {
        None => outcome matches SenderClaimOutcome::Fresh(t) && t@ == claim.task@,
        Some(row) => if row.operation_payload_hash == Some(claim.payload_hash@) {
            outcome matches SenderClaimOutcome::Replay(t) && t@ == row
        } else {
            outcome matches SenderClaimOutcome::Conflict { existing } && existing@ == row
        },
    }
}

/// The same recovery asked for twice gives one attempt. The first request starts
/// an attempt; the second, made under the same operation while that attempt has
/// not ended and is in progress, is answered with that very attempt. Nothing is
/// claimed anew, nothing is put in progress and nothing is started.
pub proof fn a_recovery_asked_for_twice_is_one_attempt(
    request: RecoveryRequest,
    parent: TaskView,
    // The first request, from its claim on.
    size: u64,
    sha: Seq<char>,
    now: Seq<char>,
    claiming: RecoveryNext,
    claim: RecoveryClaim,
    fresh: SenderClaimOutcome,
    registry: RegistryView,
    after_claim: RecoveryNext,
    recheck: RecoveryRecheck,
    source: SourceState,
    started: RegistryView,
    after_recheck: RecoveryNext,
    // The attempt as it stands when the second request comes.
    held: TaskView,
    current: RegistryView,
    // The second request.
    again: RecoveryRequest,
    asked: RecoveryNext,
    active: Option<TaskView>,
    after_search: RecoveryNext,
    found: SourceState,
    now_again: Seq<char>,
    after_inspection: RecoveryNext,
    probe: PeerProbe,
    after_probe: RecoveryNext,
    claim_again: RecoveryClaim,
    outcome: SenderClaimOutcome,
    answer: RecoveryNext,
)
    requires
        claims(claiming, request, parent, logical_id_of(parent), size, sha, now),
        claiming == RecoveryNext::Claim(claim),
        ledger_answers(None, claim, fresh),
        claim_settles(registry, claim, Ok::<SenderClaimOutcome, AppError>(fresh), after_claim),
        after_claim matches RecoveryNext::RecheckActive(s) ==> recheck.task@ == s.task@
            && recheck.file_size == s.file_size && recheck.sha256@ == s.sha256@,
        source.size == size && source.sha256@ == sha,
        recheck_decides(
            registry,
            started,
            recheck,
            Ok::<SourceState, AppError>(source),
            now,
            after_recheck,
        ),
        held.id == claim.task@.id,
        held.client_operation_id == claim.task@.client_operation_id,
        held.operation_payload_hash == claim.task@.operation_payload_hash,
        !terminal(held.status),
        current.task(held.id) is Some,
        again.task_id@ == request.task_id@,
        again.client_operation_id@ == request.client_operation_id@,
        again.kind == request.kind,
        recovery_refusal(parent, request.kind) is None,
        forall|id: Seq<char>| #[trigger]
            current.tasks.contains_key(id) ==> !stands_in_the_way(
                current.tasks[id],
                logical_id_of(parent),
                parent.id,
                again.client_operation_id@,
            ),
        active matches Some(t) ==> t.client_operation_id == Some(again.client_operation_id@),
        parent_known(current, again, parent, asked),
        asked matches RecoveryNext::LookupActive(s) ==> activity_known(s, Ok(active), after_search),
        source_change(parent, found) is None,
        after_search matches RecoveryNext::InspectSource(s) ==> source_known(
            s,
            SourceInspection::Found(found),
            now_again,
            after_inspection,
        ),
        again.kind == TransferRecoveryKind::Resume ==> resume_obstacle(
            parent.peer_device_id,
            probe,
        ) is None,
        after_inspection matches RecoveryNext::ProbePeer(s) ==> peer_known(
            s,
            probe,
            now_again,
            after_probe,
        ),
        after_inspection matches RecoveryNext::Claim(c) ==> claim_again == c,
        after_inspection is ProbePeer ==> (after_probe matches RecoveryNext::Claim(c) ==> claim_again
            == c),
        ledger_answers(Some(held), claim_again, outcome),
        claim_settles(current, claim_again, Ok::<SenderClaimOutcome, AppError>(outcome), answer),
    ensures
        after_recheck matches RecoveryNext::Started { task, job } && task@ == claim.task@ && started.task(
            task@.id,
        ) == Some(task@) && job.transfer_id@ == task@.id,
        claim_again.payload_hash@ == claim.payload_hash@,
        answer matches RecoveryNext::Replay(ReplayNext::Running(t)) && t@ == held && t@.id
            == claim.task@.id,
{
    assert(source_change(recheck.task@, source) is None);
    assert(recheck.task@ == claim.task@);
}

} // verus!

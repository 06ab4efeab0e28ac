//! The end of a sending attempt: agree with the peer that the file is there, and
//! tell a failure from an outcome that is merely not known.
use vstd::prelude::*;

use crate::error::{AppError, AppErrorView};
use crate::event::{opt_event, EventView, TransferEvent};
use crate::peer::{
    complete_error_text, format_complete_error_ref, supported, PeerCallError, PeerProtocolInfo,
    CAPABILITY_TRANSFER_COMPLETE_V1,
};
use crate::receiver::validation::unit;
use crate::registry::{RegistryView, TransferRegistry};
use crate::task::{
    opt_task, FailureView, TaskView, TransferFailure, TransferFailureStage, TransferPhase,
    TransferStatus, TransferTask,
};
use crate::text::{join2, same};

verus! {

broadcast use vstd::string::group_string_axioms;

// ---------------------------------------------------------------------------
// Agreeing with the peer
// ---------------------------------------------------------------------------
/// How the agreement ended.
#[derive(Debug)]
pub enum FinalizeOutcome {
    /// The peer has the file.
    Succeeded,
    /// The peer does not have the file.
    DefinitiveFailure { message: String, code: String },
    /// It is not known whether the peer has the file.
    Uncertain { message: String },
}

/// What a [`FinalizeOutcome`] says.
pub enum FinalizeOutcomeView {
    Succeeded,
    DefinitiveFailure { message: Seq<char>, code: Seq<char> },
    Uncertain { message: Seq<char> },
}

impl View for FinalizeOutcome {
    type V = FinalizeOutcomeView;

    open spec fn view(&self) -> FinalizeOutcomeView {
        match self {
            FinalizeOutcome::Succeeded => FinalizeOutcomeView::Succeeded,
            FinalizeOutcome::DefinitiveFailure { message, code } => FinalizeOutcomeView::DefinitiveFailure {
                message: message@,
                code: code@,
            },
            FinalizeOutcome::Uncertain { message } => FinalizeOutcomeView::Uncertain {
                message: message@,
            },
        }
    }
}

/// Whether at least one chunk of the file was sent in this attempt.
pub open spec fn chunks_sent(file_size: u64, resume_offset: u64) -> bool {
    file_size > 0 && resume_offset < file_size
}

/// Whether at least one chunk of the file was sent in this attempt: only then can
/// a peer without an explicit completion have completed the file by itself.
pub fn legacy_chunks_sent(file_size: u64, resume_offset: u64) -> (sent: bool)
    ensures
        sent == chunks_sent(file_size, resume_offset),
{
    file_size > 0 && resume_offset < file_size
}

/// Whether an error in completing leaves the outcome open: a network failure, a
/// timeout, an error that may be repeated, or an answer that could not be
/// understood. The peer may have completed all the same.
pub open spec fn leaves_open(e: PeerCallError) -> bool {
    match e {
        PeerCallError::Network { .. } => true,
        PeerCallError::Remote { code, retryable, .. } => retryable || code@ == "timeout"@,
        PeerCallError::Unsupported { .. } => false,
        PeerCallError::InvalidResponse { .. } => true,
    }
}

/// What an error in completing means for the attempt.
pub open spec fn classified(e: PeerCallError) -> FinalizeOutcomeView {
    if leaves_open(e) {
        FinalizeOutcomeView::Uncertain { message: complete_error_text(e) }
    } else {
        FinalizeOutcomeView::DefinitiveFailure {
            message: complete_error_text(e),
            code: match e {
                PeerCallError::Remote { code, .. } => code@,
                _ => "complete_unsupported"@,
            },
        }
    }
}

/// Tells an outcome that is open from a failure.
pub fn classify_complete_error(error: PeerCallError) -> (outcome: FinalizeOutcome)
    ensures
        outcome@ == classified(error),
{
    let message = format_complete_error_ref(&error);
    match error {
        PeerCallError::Network { .. } => FinalizeOutcome::Uncertain { message },
        PeerCallError::Remote { code, retryable, .. } => {
            if retryable || same(code.as_str(), "timeout") {
                FinalizeOutcome::Uncertain { message }
            } else {
                FinalizeOutcome::DefinitiveFailure { message, code }
            }
        },
        PeerCallError::Unsupported { .. } => FinalizeOutcome::DefinitiveFailure {
            message,
            code: "complete_unsupported".to_string(),
        },
        PeerCallError::InvalidResponse { .. } => FinalizeOutcome::Uncertain { message },
    }
}

/// What comes next in agreeing with the peer.
pub enum AgreeNext {
    /// Ask the peer for its protocol.
    ProbeHealth(AgreeProbe),
    /// Ask the peer to complete.
    CallComplete(AgreeComplete),
    Done(FinalizeOutcome),
}

/// An agreement that depends on what the peer can do.
pub struct AgreeProbe {
    pub file_size: u64,
    pub resume_offset: u64,
}

/// An agreement that the peer takes part in.
pub struct AgreeComplete {
    pub file_size: u64,
    pub resume_offset: u64,
}

/// The agreement ends here.
pub open spec fn agreement_ends(next: AgreeNext, outcome: FinalizeOutcomeView) -> bool {
    next matches AgreeNext::Done(o) && o@ == outcome
}

/// What follows for a peer that takes no part in completing: it has the file if
/// it was sent the last chunk in this attempt, and otherwise it never will.
pub open spec fn legacy_outcome(file_size: u64, resume_offset: u64) -> FinalizeOutcomeView {
    if chunks_sent(file_size, resume_offset) {
        FinalizeOutcomeView::Succeeded
    } else {
        FinalizeOutcomeView::DefinitiveFailure {
            message: "对端不支持 transfer.complete.v1，无法完成空文件或 full-tmp 续传 finalize"@,
            code: "complete_unsupported"@,
        }
    }
}

/// Starts to agree with the peer on a file of `file_size` bytes, sent from
/// `resume_offset` on.
pub fn finalize_send_with_peer(file_size: u64, resume_offset: u64) -> (next: AgreeNext)
    ensures
        next matches AgreeNext::ProbeHealth(s) && s.file_size == file_size && s.resume_offset
            == resume_offset,
{
    AgreeNext::ProbeHealth(AgreeProbe { file_size, resume_offset })
}

/// The step after the peer named its protocol, or could not be asked. A file that
/// needs an explicit completion is then neither a success nor a failure.
pub open spec fn health_decides(
    state: AgreeProbe,
    health: Result<&PeerProtocolInfo, String>,
    next: AgreeNext,
) -> bool {
    match health {
        Ok(info) => if supported(*info, CAPABILITY_TRANSFER_COMPLETE_V1@) {
            next matches AgreeNext::CallComplete(s) && s.file_size == state.file_size && s.resume_offset
                == state.resume_offset
        } else {
            agreement_ends(next, legacy_outcome(state.file_size, state.resume_offset))
        },
        Err(e) => agreement_ends(
            next,
            if chunks_sent(state.file_size, state.resume_offset) {
                FinalizeOutcomeView::Succeeded
            } else {
                FinalizeOutcomeView::Uncertain {
                    message: "无法探测对端 transfer.complete.v1 能力且本次需要 complete 握手: "@ + e@,
                }
            },
        ),
    }
}

impl AgreeProbe {
    /// The peer has named its protocol, or could not be asked.
    pub fn probed(self, health: Result<&PeerProtocolInfo, String>) -> (next: AgreeNext)
        ensures
            health_decides(self, health, next),
    {
        match health {
            Ok(info) => {
                if info.supports(CAPABILITY_TRANSFER_COMPLETE_V1) {
                    return AgreeNext::CallComplete(
                        AgreeComplete {
                            file_size: self.file_size,
                            resume_offset: self.resume_offset,
                        },
                    );
                }
            },
            Err(e) => {
                if self.file_size == 0 || self.resume_offset >= self.file_size {
                    return AgreeNext::Done(
                        FinalizeOutcome::Uncertain {
                            message: join2(
                                "无法探测对端 transfer.complete.v1 能力且本次需要 complete 握手: ",
                                e.as_str(),
                            ),
                        },
                    );
                }
            },
        }
        if legacy_chunks_sent(self.file_size, self.resume_offset) {
            AgreeNext::Done(FinalizeOutcome::Succeeded)
        } else {
            AgreeNext::Done(
                FinalizeOutcome::DefinitiveFailure {
                    message: "对端不支持 transfer.complete.v1，无法完成空文件或 full-tmp 续传 finalize".to_string(),
                    code: "complete_unsupported".to_string(),
                },
            )
        }
    }
}

/// The end of the agreement once the peer answered the request to complete, or the
/// call failed.
pub open spec fn completion_decides(answer: Result<bool, PeerCallError>, next: AgreeNext) -> bool {
    agreement_ends(
        next,
        match answer {
            Ok(true) => FinalizeOutcomeView::Succeeded,
            Ok(false) => FinalizeOutcomeView::DefinitiveFailure {
                message: "对端 finalize 未成功（complete 握手返回 success=false）"@,
                code: "finalize_rejected"@,
            },
            Err(e) => classified(e),
        },
    )
}

impl AgreeComplete {
    /// The peer has answered the request to complete, or the call failed.
    pub fn answered(self, answer: Result<bool, PeerCallError>) -> (next: AgreeNext)
        ensures
            completion_decides(answer, next),
    {
        match answer {
            Ok(true) => AgreeNext::Done(FinalizeOutcome::Succeeded),
            Ok(false) => AgreeNext::Done(
                FinalizeOutcome::DefinitiveFailure {
                    message: "对端 finalize 未成功（complete 握手返回 success=false）".to_string(),
                    code: "finalize_rejected".to_string(),
                },
            ),
            Err(e) => AgreeNext::Done(classify_complete_error(e)),
        }
    }
}

// ---------------------------------------------------------------------------
// Recording the end
// ---------------------------------------------------------------------------
/// What is recorded for a sending task that completed: the task in progress, or
/// the given one where none is, with what only the given one knows.
pub open spec fn completed_snapshot(current: TaskView, given: TaskView, now: Seq<char>) -> TaskView {
    TaskView {
        status: TransferStatus::Completed,
        phase: Some(TransferPhase::Completed),
        failure: None,
        completed_at: Some(now),
        transferred_bytes: current.size,
        client_operation_id: match current.client_operation_id {
            Some(op) => Some(op),
            None => given.client_operation_id,
        },
        operation_payload_hash: match current.operation_payload_hash {
            Some(h) => Some(h),
            None => given.operation_payload_hash,
        },
        protocol_transfer_id: if current.protocol_transfer_id.len() == 0 {
            given.protocol_transfer_id
        } else {
            current.protocol_transfer_id
        },
        logical_transfer_id: if current.logical_transfer_id.len() == 0 {
            given.logical_transfer_id
        } else {
            current.logical_transfer_id
        },
        ..current
    }
}

/// A completed row that is about to be recorded.
pub struct CommitCompleted {
    /// The id under which the task is in progress.
    pub id: String,
    pub snapshot: TransferTask,
}

/// What the result of a recording says.
pub open spec fn task_view(r: Result<TransferTask, AppError>) -> Result<TaskView, AppErrorView> {
    match r {
        Ok(t) => Ok(t@),
        Err(e) => Err(e@),
    }
}

/// `task` was marked as completed, and its row is `commit`.
pub open spec fn completion_marked(
    pre: RegistryView,
    post: RegistryView,
    task: TaskView,
    now: Seq<char>,
    commit: CommitCompleted,
) -> bool {
    &&& post == pre.completed(task.id, now, None)
    &&& commit.id@ == task.id
    &&& commit.snapshot@ == completed_snapshot(
        match pre.task(task.id) {
            Some(current) => current,
            None => task,
        },
        task,
        now,
    )
}

/// Marks `task` as completed and prepares its row.
pub fn commit_sender_completed_outcome(
    registry: &mut TransferRegistry,
    task: &TransferTask,
    now: &str,
) -> (commit: CommitCompleted)
    ensures
        completion_marked(old(registry)@, final(registry)@, task@, now@, commit),
{
    if registry.get(task.id.as_str()).is_some() {
        registry.mark_completed(task.id.as_str(), now.to_string(), None);
    }
    let mut snapshot = match registry.get(task.id.as_str()) {
        Some(t) => t,
        None => task.clone(),
    };
    snapshot.status = TransferStatus::Completed;
    snapshot.phase = Some(TransferPhase::Completed);
    snapshot.failure = None;
    snapshot.completed_at = Some(now.to_string());
    snapshot.transferred_bytes = snapshot.size;
    if snapshot.client_operation_id.is_none() {
        snapshot.client_operation_id = copy_of(&task.client_operation_id);
    }
    if snapshot.operation_payload_hash.is_none() {
        snapshot.operation_payload_hash = copy_of(&task.operation_payload_hash);
    }
    if snapshot.protocol_transfer_id.as_str().is_empty() {
        snapshot.protocol_transfer_id = task.protocol_transfer_id.clone();
    }
    if snapshot.logical_transfer_id.as_str().is_empty() {
        snapshot.logical_transfer_id = task.logical_transfer_id.clone();
    }
    CommitCompleted { id: task.id.clone(), snapshot }
}

fn copy_of(s: &Option<String>) -> (copy: Option<String>)
    ensures
        copy == *s,
{
    match s {
        Some(s) => Some(s.clone()),
        None => None,
    }
}

/// What becomes of a completed row that was recorded, or not. Only a recorded
/// completion leaves the registry and is announced.
pub open spec fn completion_recorded(
    pre: RegistryView,
    post: RegistryView,
    state: CommitCompleted,
    outcome: Result<(), AppErrorView>,
    result: Result<TaskView, AppErrorView>,
    event: Option<EventView>,
) -> bool {
    match outcome {
        Err(e) => post == pre && result == Err::<TaskView, AppErrorView>(e) && event is None,
        Ok(_) => post == pre.without(state.id@) && result == Ok::<TaskView, AppErrorView>(
            state.snapshot@,
        ) && event == Some(EventView::Completed { id: state.snapshot@.id, file_path: None }),
    }
}

impl CommitCompleted {
    /// The row has been recorded, or not.
    pub fn recorded(self, registry: &mut TransferRegistry, outcome: Result<(), AppError>) -> (done: (
        Result<TransferTask, AppError>,
        Option<TransferEvent>,
    ))
        ensures
            completion_recorded(
                old(registry)@,
                final(registry)@,
                self,
                unit(outcome),
                task_view(done.0),
                opt_event(done.1),
            ),
    {
        match outcome {
            Err(e) => (Err(e), None),
            Ok(()) => {
                let _ = registry.remove(self.id.as_str());
                let event = TransferEvent::Completed {
                    id: self.snapshot.id.clone(),
                    file_path: None,
                };
                (Ok(self.snapshot), Some(event))
            },
        }
    }
}

/// A row that is about to be recorded, whether or not that succeeds, for a task
/// that then leaves the registry.
pub struct Leaving {
    pub id: String,
    pub row: Option<TransferTask>,
    /// What is announced when the task has left.
    pub event: TransferEvent,
}

/// The task under `id`, marked as in `marked`, is on its way out of the registry.
pub open spec fn leaves(
    post: RegistryView,
    id: Seq<char>,
    marked: RegistryView,
    event: EventView,
    leaving: Leaving,
) -> bool {
    &&& post == marked
    &&& leaving.id@ == id
    &&& opt_task(leaving.row) == marked.task(id)
    &&& leaving.event@ == event
}

/// Fails the sending task under `id` for a reason.
pub fn fail_transfer(
    registry: &mut TransferRegistry,
    id: &str,
    error_msg: String,
    stage: TransferFailureStage,
    code: &str,
    retryable: bool,
    now: &str,
) -> (leaving: Leaving)
    ensures
        leaves(
            final(registry)@,
            id@,
            old(registry)@.failed_with(
                id@,
                now@,
                FailureView { stage, code: code@, retryable, message: error_msg@ },
            ),
            EventView::Failed { id: id@, error_message: error_msg@ },
            leaving,
        ),
{
    registry.mark_failed_with(
        id,
        now.to_string(),
        TransferFailure {
            stage,
            code: code.to_string(),
            retryable,
            message: error_msg.clone(),
        },
    );
    let row = registry.get(id);
    Leaving {
        id: id.to_string(),
        row,
        event: TransferEvent::Failed { id: id.to_string(), error_message: error_msg },
    }
}

/// Marks the sending task under `id` as cancelled.
pub fn cancel_sending(registry: &mut TransferRegistry, id: &str, now: &str) -> (leaving: Leaving)
    ensures
        leaves(
            final(registry)@,
            id@,
            old(registry)@.cancelled(id@, now@),
            EventView::Cancelled { id: id@ },
            leaving,
        ),
{
    registry.mark_cancelled(id, now.to_string());
    let row = registry.get(id);
    Leaving { id: id.to_string(), row, event: TransferEvent::Cancelled { id: id.to_string() } }
}

/// A task on its way out has left: it is not in progress any more, and its end is
/// announced.
pub open spec fn has_left(
    pre: RegistryView,
    post: RegistryView,
    leaving: Leaving,
    event: TransferEvent,
) -> bool {
    &&& post == pre.without(leaving.id@)
    &&& event == leaving.event
}

impl Leaving {
    /// The row has been handed to history.
    pub fn recorded(self, registry: &mut TransferRegistry) -> (event: TransferEvent)
        ensures
            has_left(old(registry)@, final(registry)@, self, event),
    {
        let _ = registry.remove(self.id.as_str());
        self.event
    }
}

/// The registry with the task under `id` waiting for its outcome to become known:
/// not failed, still being transferred, in its last phase.
pub open spec fn parked(registry: RegistryView, id: Seq<char>) -> RegistryView {
    registry.with_task(
        id,
        TaskView {
            status: TransferStatus::Transferring,
            phase: Some(TransferPhase::Finalizing),
            ..registry.tasks[id]
        },
    )
}

/// Parks the sending task under `id`: its row, if it is in progress, is to be
/// recorded, whether or not that succeeds. The task stays in progress.
pub fn park_uncertain_finalize(registry: &mut TransferRegistry, id: &str) -> (row: Option<TransferTask>)
    ensures
        final(registry)@ == parked(old(registry)@, id@),
        opt_task(row) == final(registry)@.task(id@),
{
    registry.set_phase(id, TransferPhase::Finalizing);
    if let Some(t) = registry.get(id) {
        registry.update_progress(id, t.transferred_bytes, TransferStatus::Transferring);
        registry.set_phase(id, TransferPhase::Finalizing);
    }
    assert(registry@ =~= parked(old(registry)@, id@));
    registry.get(id)
}

// ---------------------------------------------------------------------------
// Laws
// ---------------------------------------------------------------------------
/// A peer without an explicit completion is believed to have the file only if at
/// least one chunk was sent to it.
pub proof fn a_legacy_peer_is_believed_only_after_chunks(file_size: u64, resume_offset: u64)
    ensures
        legacy_outcome(file_size, resume_offset) is Succeeded <==> chunks_sent(file_size, resume_offset),
        !chunks_sent(0, resume_offset),
        !chunks_sent(file_size, file_size),
{
}

/// An error that leaves the outcome open never fails the attempt.
pub proof fn an_open_outcome_is_never_a_failure(e: PeerCallError)
    ensures
        leaves_open(e) <==> classified(e) is Uncertain,
        !(classified(e) is Succeeded),
{
}

/// A parked task is in progress, not ended, and can be asked for.
pub proof fn a_parked_task_stays_in_progress(registry: RegistryView, id: Seq<char>)
    requires
        registry.task(id) is Some,
    ensures
        parked(registry, id).task(id) is Some,
        parked(registry, id).tasks[id].status == TransferStatus::Transferring,
        parked(registry, id).tasks[id].phase == Some(TransferPhase::Finalizing),
        parked(registry, id).tasks[id].client_operation_id == registry.tasks[id].client_operation_id,
        parked(registry, id).tasks[id].transferred_bytes == registry.tasks[id].transferred_bytes,
{
}

/// The row of a completed attempt keeps the operation under which it was asked
/// for, so that the operation can be answered for later.
pub proof fn a_completed_row_answers_for_its_operation(
    current: TaskView,
    given: TaskView,
    now: Seq<char>,
)
    requires
        current.client_operation_id is None || current.client_operation_id
            == given.client_operation_id,
    ensures
        completed_snapshot(current, given, now).client_operation_id == given.client_operation_id,
        completed_snapshot(current, given, now).status == TransferStatus::Completed,
        completed_snapshot(current, given, now).transferred_bytes == current.size,
        completed_snapshot(current, given, now).failure is None,
{
}

} // verus!

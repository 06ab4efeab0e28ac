//! What became of a client operation, and the settling of one whose last answer
//! was lost.
use vstd::prelude::*;

use crate::error::{AppError, AppErrorView};
use crate::event::{opt_event, EventView, TransferEvent};
use crate::peer::{peer_status_is_completed, url_of, PeerAddress, StatusReply};
use crate::receiver::resume::row_view;
use crate::receiver::validation::unit;
use crate::registry::{lists_newest_first, RegistryView, TransferRegistry};
use crate::sender::complete::{
    commit_sender_completed_outcome, completed_snapshot, CommitCompleted,
};
use crate::sender::send::{wire_id, wire_id_of};
use crate::task::{
    is_terminal_status, terminal, OperationView, TaskView, TransferDirection,
    TransferOperationStatus, TransferStatus, TransferTask,
};
use crate::text::{before, same, trim, trimmed};

verus! {

broadcast use vstd::string::group_string_axioms;

// ---------------------------------------------------------------------------
// The answer for a task
// ---------------------------------------------------------------------------
/// What a task says of its operation.
pub open spec fn answer_for(task: TaskView) -> OperationView {
    match task.status {
        TransferStatus::Completed => OperationView::Succeeded { task_id: task.id },
        TransferStatus::Failed => OperationView::Failed {
            code: match task.failure {
                Some(f) => f.code,
                None => "failed"@,
            },
        },
        TransferStatus::Cancelled => OperationView::Failed { code: "cancelled"@ },
        _ => OperationView::Pending,
    }
}

/// What `task` says of its operation.
pub fn map_task_to_operation_status(task: &TransferTask) -> (status: TransferOperationStatus)
    ensures
        status@ == answer_for(task@),
{
    match task.status {
        TransferStatus::Completed => TransferOperationStatus::Succeeded { task_id: task.id.clone() },
        TransferStatus::Failed => TransferOperationStatus::Failed {
            code: match &task.failure {
                Some(f) => f.code.clone(),
                None => "failed".to_string(),
            },
        },
        TransferStatus::Cancelled => TransferOperationStatus::Failed {
            code: "cancelled".to_string(),
        },
        TransferStatus::Pending => TransferOperationStatus::Pending,
        TransferStatus::Transferring => TransferOperationStatus::Pending,
    }
}

/// What a task, if there is one, says of its operation.
pub open spec fn answer_for_any(task: Option<TaskView>) -> OperationView {
    match task {
        Some(t) => answer_for(t),
        None => OperationView::NotFound,
    }
}

/// What `task`, if there is one, says of its operation.
pub fn operation_status_from_task(task: Option<&TransferTask>) -> (status: TransferOperationStatus)
    ensures
        status@ == answer_for_any(
            match task {
                Some(t) => Some(t@),
                None => None,
            },
        ),
{
    match task {
        None => TransferOperationStatus::NotFound,
        Some(t) => map_task_to_operation_status(t),
    }
}

// ---------------------------------------------------------------------------
// Settling an operation whose last answer was lost
// ---------------------------------------------------------------------------
/// What comes next in settling an operation.
pub enum ReconcileNext {
    /// Look the peer up among the devices.
    FindPeer(ReconcilePeer),
    /// Ask the peer for the status of the transfer.
    AskStatus(ReconcileAsk),
    /// Record the completed row.
    Commit(ReconcileCommit),
    /// Settled as completed, or, without a task, still open.
    Done { result: Result<Option<TransferTask>, AppError>, event: Option<TransferEvent> },
}

/// An operation whose peer is to be found.
pub struct ReconcilePeer {
    pub task: TransferTask,
}

/// An operation whose peer is to be asked.
pub struct ReconcileAsk {
    pub task: TransferTask,
    pub base_url: String,
    /// The id under which the peer knows the transfer.
    pub wire_id: String,
}

/// An operation that the peer says has succeeded.
pub struct ReconcileCommit {
    pub commit: CommitCompleted,
}

/// Settling ends here.
pub open spec fn settled(
    next: ReconcileNext,
    result: Result<Option<TaskView>, AppErrorView>,
    event: Option<EventView>,
) -> bool {
    next matches ReconcileNext::Done { result: r, event: e } && row_view(r) == result && opt_event(e)
        == event
}

/// The operation stays open, with nothing changed.
pub open spec fn stays_open(next: ReconcileNext) -> bool {
    settled(next, Ok(None), None)
}

fn open_still() -> (next: ReconcileNext)
    ensures
        stays_open(next),
{
    ReconcileNext::Done { result: Ok(None), event: None }
}

/// The first step of settling: only a sending task that has not ended is settled.
pub open spec fn reconcile_opens(task: TaskView, next: ReconcileNext) -> bool {
    if task.direction != TransferDirection::Send || terminal(task.status) {
        stays_open(next)
    } else {
        next matches ReconcileNext::FindPeer(s) && s.task@ == task
    }
}

/// Starts to settle the operation of `task`.
pub fn reconcile_lost_final_ack(task: &TransferTask) -> (next: ReconcileNext)
    ensures
        reconcile_opens(task@, next),
{
    if task.direction != TransferDirection::Send {
        return open_still();
    }
    if is_terminal_status(task.status) {
        return open_still();
    }
    ReconcileNext::FindPeer(ReconcilePeer { task: task.clone() })
}

/// The step after the peer was looked up. One that is gone leaves the operation
/// open; any other is asked for the transfer under the id that it knows.
pub open spec fn settling_peer_found(
    state: ReconcilePeer,
    address: Option<PeerAddress>,
    next: ReconcileNext,
) -> bool {
    match address {
        None => stays_open(next),
        Some(a) => next matches ReconcileNext::AskStatus(s) && s.task == state.task && s.base_url@
            == url_of(a) && s.wire_id@ == wire_id_of(state.task@),
    }
}

impl ReconcilePeer {
    /// The peer has been looked up.
    pub fn found(self, address: Option<PeerAddress>) -> (next: ReconcileNext)
        ensures
            settling_peer_found(self, address, next),
    {
        match address {
            None => open_still(),
            Some(a) => {
                let base_url = a.base_url();
                let wire = wire_id(&self.task);
                ReconcileNext::AskStatus(
                    ReconcileAsk { task: self.task, base_url, wire_id: wire },
                )
            },
        }
    }
}

/// The peer has said that it has the whole file.
pub open spec fn confirms(answer: Result<StatusReply, String>) -> bool {
    answer matches Ok(reply) && reply.status is Some && reply.status->0@ == "completed"@
}

/// The step after the peer was asked: only its own word completes the task.
pub open spec fn status_answered(
    pre: RegistryView,
    post: RegistryView,
    task: TaskView,
    answer: Result<StatusReply, String>,
    now: Seq<char>,
    next: ReconcileNext,
) -> bool {
    if confirms(answer) {
        &&& post == pre.completed(task.id, now, None)
        &&& next matches ReconcileNext::Commit(c) && c.commit.id@ == task.id && c.commit.snapshot@
            == completed_snapshot(
            match pre.task(task.id) {
                Some(current) => current,
                None => task,
            },
            task,
            now,
        )
    } else {
        post == pre && stays_open(next)
    }
}

impl ReconcileAsk {
    /// The peer has answered, or could not be reached.
    pub fn answered(
        self,
        registry: &mut TransferRegistry,
        answer: Result<StatusReply, String>,
        now: &str,
    ) -> (next: ReconcileNext)
        ensures
            status_answered(old(registry)@, final(registry)@, self.task@, answer, now@, next),
    {
        let reply = match answer {
            Ok(r) => r,
            Err(_) => {
                return open_still();
            },
        };
        if !peer_status_is_completed(&reply) {
            return open_still();
        }
        let commit = commit_sender_completed_outcome(registry, &self.task, now);
        ReconcileNext::Commit(ReconcileCommit { commit })
    }
}

/// The end of settling once the completed row was recorded, or not.
pub open spec fn settling_recorded(
    pre: RegistryView,
    post: RegistryView,
    commit: CommitCompleted,
    outcome: Result<(), AppErrorView>,
    next: ReconcileNext,
) -> bool {
    match outcome {
        Err(e) => post == pre && settled(next, Err(e), None),
        Ok(_) => post == pre.without(commit.id@) && settled(
            next,
            Ok(Some(commit.snapshot@)),
            Some(EventView::Completed { id: commit.snapshot@.id, file_path: None }),
        ),
    }
}

impl ReconcileCommit {
    /// The completed row has been recorded, or not.
    pub fn recorded(self, registry: &mut TransferRegistry, outcome: Result<(), AppError>) -> (next:
        ReconcileNext)
        ensures
            settling_recorded(old(registry)@, final(registry)@, self.commit, unit(outcome), next),
    {
        let (recorded, event) = self.commit.recorded(registry, outcome);
        let result = match recorded {
            Ok(task) => Ok(Some(task)),
            Err(e) => Err(e),
        };
        ReconcileNext::Done { result, event }
    }
}

// ---------------------------------------------------------------------------
// Asking for an operation
// ---------------------------------------------------------------------------
/// What comes next in answering for an operation.
pub enum OperationNext {
    /// No attempt is in progress: look the operation up in history.
    LookupHistory(OperationLookup),
    /// The attempt has not ended: settle it, then answer.
    Reconcile(ReconcileNext),
    Reply(Result<TransferOperationStatus, AppError>),
}

/// An operation that is to be looked up in history.
pub struct OperationLookup {
    pub client_operation_id: String,
}

/// What an answer, or the error in its place, says.
pub open spec fn operation_view(r: Result<TransferOperationStatus, AppError>) -> Result<
    OperationView,
    AppErrorView,
> {
    match r {
        Ok(s) => Ok(s@),
        Err(e) => Err(e@),
    }
}

/// The answer is given.
pub open spec fn replies(next: OperationNext, answer: Result<OperationView, AppErrorView>) -> bool {
    next matches OperationNext::Reply(r) && operation_view(r) == answer
}

/// `task` is a newest task in progress under operation `op`.
pub open spec fn newest_under(registry: RegistryView, op: Seq<char>, task: TaskView) -> bool {
    &&& registry.tasks.contains_key(task.id) && registry.tasks[task.id] == task
    &&& task.client_operation_id == Some(op)
    &&& forall|id: Seq<char>| #[trigger]
        registry.tasks.contains_key(id) && registry.tasks[id].client_operation_id == Some(op)
            ==> !before(task.created_at, registry.tasks[id].created_at)
}

/// No task is in progress under operation `op`.
pub open spec fn none_under(registry: RegistryView, op: Seq<char>) -> bool {
    forall|id: Seq<char>| #[trigger]
        registry.tasks.contains_key(id) ==> registry.tasks[id].client_operation_id != Some(op)
}

/// The newest task in progress under operation `client_operation_id`.
pub fn find_active_by_client_operation_id(
    registry: &TransferRegistry,
    client_operation_id: &str,
) -> (found: Option<TransferTask>)
    ensures
        match found {
            Some(t) => newest_under(registry@, client_operation_id@, t@),
            None => none_under(registry@, client_operation_id@),
        },
{
    let tasks = registry.list();
    let mut i: usize = 0;
    while i < tasks.len()
        invariant
            i <= tasks@.len(),
            lists_newest_first(registry@.tasks, tasks@),
            forall|j: int| 0 <= j < i ==> (#[trigger] tasks@[j])@.client_operation_id != Some(
                client_operation_id@,
            ),
        decreases tasks@.len() - i,
    {
        let hit = match &tasks[i].client_operation_id {
            Some(op) => same(op.as_str(), client_operation_id),
            None => false,
        };
        if hit {
            let found = tasks[i].clone();
            proof {
                assert forall|id: Seq<char>| #[trigger]
                    registry@.tasks.contains_key(id) && registry@.tasks[id].client_operation_id
                        == Some(client_operation_id@) implies !before(
                    found@.created_at,
                    registry@.tasks[id].created_at,
                ) by {
                    let k = choose|k: int| 0 <= k < tasks@.len() && (#[trigger] tasks@[k])@.id == id;
                    assert(registry@.tasks[tasks@[k]@.id] == tasks@[k]@);
                    assert(k >= i);
                    if k == i {
                        crate::text::before_is_a_strict_order(
                            found@.created_at,
                            found@.created_at,
                            found@.created_at,
                        );
                    } else {
                        assert(tasks@[i as int]@.id != tasks@[k]@.id);
                    }
                }
            }
            return Some(found);
        }
        i += 1;
    }
    proof {
        assert forall|id: Seq<char>| #[trigger]
            registry@.tasks.contains_key(id) implies registry@.tasks[id].client_operation_id != Some(
            client_operation_id@,
        ) by {
            let k = choose|k: int| 0 <= k < tasks@.len() && (#[trigger] tasks@[k])@.id == id;
            assert(registry@.tasks[tasks@[k]@.id] == tasks@[k]@);
        }
    }
    None
}

/// The step once the task of an operation is known.
pub open spec fn operation_known(task: TaskView, next: OperationNext) -> bool {
    if terminal(task.status) {
        replies(next, Ok(answer_for(task)))
    } else {
        next matches OperationNext::Reconcile(r) && reconcile_opens(task, r)
    }
}

fn with_task(task: TransferTask) -> (next: OperationNext)
    ensures
        operation_known(task@, next),
{
    if is_terminal_status(task.status) {
        return OperationNext::Reply(Ok(map_task_to_operation_status(&task)));
    }
    OperationNext::Reconcile(reconcile_lost_final_ack(&task))
}

/// The first step of answering for an operation: an attempt in progress comes
/// before history.
pub open spec fn operation_opens(
    registry: RegistryView,
    client_operation_id: Seq<char>,
    next: OperationNext,
) -> bool {
    let op = trimmed(client_operation_id);
    if op.len() == 0 {
        replies(next, Ok(OperationView::NotFound))
    } else if none_under(registry, op) {
        next matches OperationNext::LookupHistory(s) && s.client_operation_id@ == op
    } else {
        exists|task: TaskView| #[trigger]
            newest_under(registry, op, task) && operation_known(task, next)
    }
}

/// Starts to answer for an operation.
pub fn get_transfer_operation(registry: &TransferRegistry, client_operation_id: &str) -> (next:
    OperationNext)
    ensures
        operation_opens(registry@, client_operation_id@, next),
{
    let id = trim(client_operation_id);
    if id.as_str().is_empty() {
        return OperationNext::Reply(Ok(TransferOperationStatus::NotFound));
    }
    match find_active_by_client_operation_id(registry, id.as_str()) {
        Some(active) => {
            assert(newest_under(registry@, id@, active@));
            with_task(active)
        },
        None => OperationNext::LookupHistory(OperationLookup { client_operation_id: id }),
    }
}

/// The step after the operation was looked up in history.
pub open spec fn operation_looked_up(
    row: Result<Option<TaskView>, AppErrorView>,
    next: OperationNext,
) -> bool {
    match row {
        Err(e) => replies(next, Err(e)),
        Ok(None) => replies(next, Ok(OperationView::NotFound)),
        Ok(Some(task)) => operation_known(task, next),
    }
}

impl OperationLookup {
    /// The operation has been looked up in history.
    pub fn looked_up(self, row: Result<Option<TransferTask>, AppError>) -> (next: OperationNext)
        ensures
            operation_looked_up(row_view(row), next),
    {
        match row {
            Err(e) => OperationNext::Reply(Err(e)),
            Ok(None) => OperationNext::Reply(Ok(TransferOperationStatus::NotFound)),
            Ok(Some(task)) => with_task(task),
        }
    }
}

/// The answer after settling: what the settled task says, or that the operation
/// is still open.
pub open spec fn settled_answer(result: Result<Option<TaskView>, AppErrorView>) -> Result<
    OperationView,
    AppErrorView,
> {
    match result {
        Err(e) => Err(e),
        Ok(Some(task)) => Ok(answer_for(task)),
        Ok(None) => Ok(OperationView::Pending),
    }
}

/// The answer after settling ended with `result`.
pub fn operation_reconciled(result: Result<Option<TransferTask>, AppError>) -> (reply: Result<
    TransferOperationStatus,
    AppError,
>)
    ensures
        operation_view(reply) == settled_answer(row_view(result)),
{
    match result {
        Err(e) => Err(e),
        Ok(Some(task)) => Ok(map_task_to_operation_status(&task)),
        Ok(None) => Ok(TransferOperationStatus::Pending),
    }
}

// ---------------------------------------------------------------------------
// Laws
// ---------------------------------------------------------------------------
/// An operation is answered as pending exactly while its task has not ended, and
/// as succeeded exactly when its task completed.
pub proof fn an_answer_is_final_when_its_task_is(task: TaskView)
    ensures
        answer_for(task) is Pending <==> !terminal(task.status),
        answer_for(task) is Succeeded <==> task.status == TransferStatus::Completed,
        !(answer_for(task) is NotFound),
{
}

/// Without the peer's own word that it has the whole file, an operation stays
/// open and nothing changes: a lost answer never fails the task, and never
/// completes it.
pub proof fn only_the_peer_settles_an_operation(
    pre: RegistryView,
    post: RegistryView,
    task: TaskView,
    answer: Result<StatusReply, String>,
    now: Seq<char>,
    next: ReconcileNext,
)
    requires
        status_answered(pre, post, task, answer, now, next),
        !confirms(answer),
    ensures
        post == pre,
        stays_open(next),
        settled_answer(Ok(None)) == Ok::<OperationView, AppErrorView>(OperationView::Pending),
{
}

/// Once the peer has said so and the row is recorded, the operation is answered
/// as succeeded, from the settled task as from its row in history; the task is no
/// longer in progress.
pub proof fn a_settled_operation_has_succeeded(
    pre: RegistryView,
    mid: RegistryView,
    post: RegistryView,
    task: TaskView,
    answer: Result<StatusReply, String>,
    now: Seq<char>,
    asked: ReconcileNext,
    commit: ReconcileCommit,
    done: ReconcileNext,
)
    requires
        status_answered(pre, mid, task, answer, now, asked),
        confirms(answer),
        asked == ReconcileNext::Commit(commit),
        pre.task(task.id) is Some ==> pre.tasks[task.id].id == task.id,
        post == mid.without(commit.commit.id@),
        settled(
            done,
            Ok(Some(commit.commit.snapshot@)),
            Some(EventView::Completed { id: commit.commit.snapshot@.id, file_path: None }),
        ),
    ensures
        answer_for(commit.commit.snapshot@) == (OperationView::Succeeded { task_id: task.id }),
        settled_answer(Ok(Some(commit.commit.snapshot@))) == Ok::<OperationView, AppErrorView>(
            OperationView::Succeeded { task_id: task.id },
        ),
        post.task(task.id) is None,
{
}

} // verus!

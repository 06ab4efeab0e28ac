//! Serving `status`: how far a transfer has come, or how it ended.
use std::time::Instant;
use vstd::prelude::*;

use crate::error::{AppError, AppErrorView};
use crate::receiver::resume::{
    history_terminal_status_resp, replay_view, replayed_status, row_view,
};
use crate::receiver::{ChunkResp, StatusResp, StatusRespView};
use crate::registry::{
    RegistryView, TombstoneView, TransferOutcome, TransferRegistry, TransferTombstone,
};
use crate::task::{
    status_name, status_str, Progress, TaskView, TransferDirection, TransferStatus, TransferTask,
};

verus! {

broadcast use vstd::string::group_string_axioms;

/// The status of a task in progress. A received file that is in place but not
/// recorded is still being transferred, as far as the peer is concerned.
pub open spec fn status_of_task(id: Seq<char>, task: TaskView) -> StatusRespView {
    let unrecorded = task.direction == TransferDirection::Receive && task.status
        == TransferStatus::Completed;
    StatusRespView {
        transfer_id: id,
        status: if unrecorded {
            "transferring"@
        } else {
            status_name(task.status)
        },
        progress: Progress { done: task.transferred_bytes, total: task.size },
        transferred_bytes: if unrecorded {
            task.size
        } else {
            task.transferred_bytes
        },
        size: task.size,
        filename: task.filename,
    }
}

/// The status that a tombstone stands for.
pub open spec fn status_of_tomb(id: Seq<char>, tomb: TombstoneView) -> StatusRespView {
    let moved = if tomb.outcome is Completed {
        tomb.size
    } else {
        tomb.received_bytes
    };
    StatusRespView {
        transfer_id: id,
        status: if tomb.outcome is Completed {
            "completed"@
        } else {
            "failed"@
        },
        progress: Progress { done: moved, total: tomb.size },
        transferred_bytes: moved,
        size: tomb.size,
        filename: tomb.filename,
    }
}

/// The status of a transfer that nothing is known of.
pub open spec fn status_unknown(id: Seq<char>) -> StatusRespView {
    StatusRespView {
        transfer_id: id,
        status: "unknown"@,
        progress: Progress { done: 0, total: 0 },
        transferred_bytes: 0,
        size: 0,
        filename: Seq::empty(),
    }
}

fn read_tomb(id: &str, tomb: &TransferTombstone) -> (resp: StatusResp)
    ensures
        resp@ == status_of_tomb(id@, tomb@),
{
    let (status, moved) = match &tomb.outcome {
        TransferOutcome::Completed { .. } => ("completed".to_string(), tomb.size),
        TransferOutcome::Failed { .. } => ("failed".to_string(), tomb.received_bytes),
    };
    StatusResp {
        transfer_id: id.to_string(),
        status,
        progress: Progress { done: moved, total: tomb.size },
        transferred_bytes: moved,
        size: tomb.size,
        filename: tomb.filename.clone(),
    }
}

fn unknown(id: &str) -> (resp: StatusResp)
    ensures
        resp@ == status_unknown(id@),
{
    StatusResp {
        transfer_id: id.to_string(),
        status: "unknown".to_string(),
        progress: Progress { done: 0, total: 0 },
        transferred_bytes: 0,
        size: 0,
        filename: String::new(),
    }
}

/// What comes next in serving `status`.
pub enum StatusNext {
    /// Look the transfer up in history.
    LookupHistory(StatusHistory),
    /// Recover the transfer from its intent.
    Recover(StatusRecover),
    /// Look the recovered transfer up in history.
    LookupRecovered(StatusRecovered),
    Reply(StatusResp),
}

/// A transfer that this process does not know.
pub struct StatusHistory {
    pub id: String,
}

/// A transfer that history does not know to have ended.
pub struct StatusRecover {
    pub id: String,
}

/// A transfer that was recovered but left no tombstone.
pub struct StatusRecovered {
    pub id: String,
}

/// The first step of serving `status`: what is in progress comes before what is
/// remembered, and that before what history holds.
pub open spec fn status_opens(
    pre: RegistryView,
    post: RegistryView,
    id: Seq<char>,
    at: Instant,
    next: StatusNext,
) -> bool {
    match pre.task(id) {
        Some(task) => post == pre && (next matches StatusNext::Reply(r) && r@ == status_of_task(id, task)),
        None => {
            &&& post == pre.pruned(at)
            &&& match pre.standing(id, at) {
                Some(tomb) => next matches StatusNext::Reply(r) && r@ == status_of_tomb(id, tomb),
                None => next matches StatusNext::LookupHistory(s) && s.id@ == id,
            }
        },
    }
}

/// Starts serving `status`.
pub fn handle_status(registry: &mut TransferRegistry, transfer_id: &str, at: Instant) -> (next:
    StatusNext)
    ensures
        status_opens(old(registry)@, final(registry)@, transfer_id@, at, next),
{
    if let Some(t) = registry.get(transfer_id) {
        let progress = t.progress();
        let (status, transferred_bytes) = if t.direction == TransferDirection::Receive && t.status
            == TransferStatus::Completed {
            ("transferring".to_string(), t.size)
        } else {
            (status_str(t.status), t.transferred_bytes)
        };
        return StatusNext::Reply(
            StatusResp {
                transfer_id: transfer_id.to_string(),
                status,
                progress,
                transferred_bytes,
                size: t.size,
                filename: t.filename,
            },
        );
    }
    if let Some(tomb) = registry.tombstone_at(transfer_id, at) {
        return StatusNext::Reply(read_tomb(transfer_id, &tomb));
    }
    StatusNext::LookupHistory(StatusHistory { id: transfer_id.to_string() })
}

/// The step after the transfer was looked up in history. A lookup that failed
/// counts as one that found nothing.
pub open spec fn status_looks_up(
    id: Seq<char>,
    row: Result<Option<TaskView>, AppErrorView>,
    next: StatusNext,
) -> bool {
    match row {
        Ok(t) => match replayed_status(id, t) {
            Some(resp) => next matches StatusNext::Reply(r) && r@ == resp,
            None => next matches StatusNext::Recover(s) && s.id@ == id,
        },
        Err(_) => next matches StatusNext::Recover(s) && s.id@ == id,
    }
}

impl StatusHistory {
    /// The transfer has been looked up in history.
    pub fn looked_up(self, row: Result<Option<TransferTask>, AppError>) -> (next: StatusNext)
        ensures
            status_looks_up(self.id@, row_view(row), next),
    {
        if let Ok(t) = &row {
            if let Some(resp) = history_terminal_status_resp(self.id.as_str(), t) {
                return StatusNext::Reply(resp);
            }
        }
        StatusNext::Recover(StatusRecover { id: self.id })
    }
}

/// The step after the recovery. A transfer that was recovered has left a tombstone
/// or a row.
pub open spec fn status_recovers(
    pre: RegistryView,
    post: RegistryView,
    id: Seq<char>,
    outcome: Result<Option<ChunkResp>, AppErrorView>,
    at: Instant,
    next: StatusNext,
) -> bool {
    if outcome is Ok && outcome->Ok_0 is Some {
        &&& post == pre.pruned(at)
        &&& match pre.standing(id, at) {
            Some(tomb) => next matches StatusNext::Reply(r) && r@ == status_of_tomb(id, tomb),
            None => next matches StatusNext::LookupRecovered(s) && s.id@ == id,
        }
    } else {
        &&& post == pre
        &&& next matches StatusNext::Reply(r) && r@ == status_unknown(id)
    }
}

impl StatusRecover {
    /// The recovery has ended.
    pub fn recovered(
        self,
        registry: &mut TransferRegistry,
        outcome: Result<Option<ChunkResp>, AppError>,
        at: Instant,
    ) -> (next: StatusNext)
        ensures
            status_recovers(
                old(registry)@,
                final(registry)@,
                self.id@,
                replay_view(outcome),
                at,
                next,
            ),
    {
        match outcome {
            Ok(Some(_)) => {
                if let Some(tomb) = registry.tombstone_at(self.id.as_str(), at) {
                    return StatusNext::Reply(read_tomb(self.id.as_str(), &tomb));
                }
                StatusNext::LookupRecovered(StatusRecovered { id: self.id })
            },
            _ => StatusNext::Reply(unknown(self.id.as_str())),
        }
    }
}

/// The answer once the recovered transfer was looked up.
pub open spec fn status_looks_again(
    id: Seq<char>,
    row: Result<Option<TaskView>, AppErrorView>,
    next: StatusNext,
) -> bool {
    next matches StatusNext::Reply(r) && r@ == (match row {
        Ok(t) => match replayed_status(id, t) {
            Some(resp) => resp,
            None => status_unknown(id),
        },
        Err(_) => status_unknown(id),
    })
}

impl StatusRecovered {
    /// The recovered transfer has been looked up.
    pub fn looked_up(self, row: Result<Option<TransferTask>, AppError>) -> (next: StatusNext)
        ensures
            status_looks_again(self.id@, row_view(row), next),
    {
        if let Ok(t) = &row {
            if let Some(resp) = history_terminal_status_resp(self.id.as_str(), t) {
                return StatusNext::Reply(resp);
            }
        }
        StatusNext::Reply(unknown(self.id.as_str()))
    }
}

} // verus!

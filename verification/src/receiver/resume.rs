//! Transfers that ended before a restart, as history and the intent journal
//! remember them.
use vstd::prelude::*;

use crate::clock::Clock;
use crate::error::{AppError, AppErrorView};
use crate::platform::Platform;
use crate::receiver::finalize::{
    promote_completed_to_durable, promotion_opens, PromoteNext,
};
use crate::receiver::intent::{
    finalize_intent_path, intent_path, FinalizeIntent, IntentDirFacts, IntentView,
};
use crate::receiver::validation::{ensure_path_within_dir, opt_str, stays_within, unit};
use crate::receiver::{ChunkResp, StatusResp, StatusRespView};
use crate::registry::{RegistryView, TransferRegistry};
use crate::task::{
    first_attempt, is_terminal_status, opt_task, status_name, status_str, terminal, Progress,
    TaskView, TransferDirection, TransferStatus, TransferTask,
};
use crate::text::same;
use tokio_util::sync::CancellationToken;

verus! {

broadcast use vstd::string::group_string_axioms;

/// What a lookup in history says.
pub open spec fn row_view(row: Result<Option<TransferTask>, AppError>) -> Result<
    Option<TaskView>,
    AppErrorView,
> {
    match row {
        Ok(t) => Ok(opt_task(t)),
        Err(e) => Err(e@),
    }
}

/// What an optional chunk answer, or the error in its place, says.
pub open spec fn replay_view(r: Result<Option<ChunkResp>, AppError>) -> Result<
    Option<ChunkResp>,
    AppErrorView,
> {
    match r {
        Ok(x) => Ok(x),
        Err(e) => Err(e@),
    }
}

/// What a chunk answer, or the error in its place, says.
pub open spec fn reply_view(r: Result<ChunkResp, AppError>) -> Result<ChunkResp, AppErrorView> {
    match r {
        Ok(x) => Ok(x),
        Err(e) => Err(e@),
    }
}

/// A received transfer that history knows to have ended.
pub open spec fn ended_receive(row: TaskView) -> bool {
    row.direction == TransferDirection::Receive && terminal(row.status)
}

/// Whether `row` is a received transfer that has ended.
pub fn is_ended_receive(row: &TransferTask) -> (yes: bool)
    ensures
        yes == ended_receive(row@),
{
    row.direction == TransferDirection::Receive && is_terminal_status(row.status)
}

/// The chunk answer that a row of history stands for, if it stands for one.
pub open spec fn replayed_chunk(row: Option<TaskView>) -> Option<ChunkResp> {
    match row {
        Some(t) => if t.direction != TransferDirection::Receive {
            None
        } else if t.status == TransferStatus::Completed {
            Some(ChunkResp { success: true, received_bytes: t.size })
        } else if t.status == TransferStatus::Failed {
            Some(ChunkResp { success: false, received_bytes: t.transferred_bytes })
        } else {
            None
        },
        None => None,
    }
}

/// The answer to a repeated chunk, from the row that history holds: success with
/// the whole size for a received transfer that completed, failure with what had
/// arrived for one that failed, and nothing for any other row.
pub fn history_terminal_chunk_resp(row: &Option<TransferTask>) -> (resp: Option<ChunkResp>)
    ensures
        resp == replayed_chunk(opt_task(*row)),
{
    match row {
        None => None,
        Some(t) => if t.direction != TransferDirection::Receive {
            None
        } else {
            match t.status {
                TransferStatus::Completed => Some(
                    ChunkResp { success: true, received_bytes: t.size },
                ),
                TransferStatus::Failed => Some(
                    ChunkResp { success: false, received_bytes: t.transferred_bytes },
                ),
                TransferStatus::Cancelled => None,
                TransferStatus::Pending => None,
                TransferStatus::Transferring => None,
            }
        },
    }
}

/// The status answer that a row of history stands for, if it stands for one.
pub open spec fn replayed_status(id: Seq<char>, row: Option<TaskView>) -> Option<StatusRespView> {
    match row {
        Some(t) => if !ended_receive(t) {
            None
        } else {
            let moved = if t.status == TransferStatus::Completed {
                t.size
            } else {
                t.transferred_bytes
            };
            Some(
                StatusRespView {
                    transfer_id: id,
                    status: status_name(t.status),
                    progress: Progress { done: moved, total: t.size },
                    transferred_bytes: moved,
                    size: t.size,
                    filename: t.filename,
                },
            )
        },
        None => None,
    }
}

/// What an optional status answer says.
pub open spec fn opt_status(r: Option<StatusResp>) -> Option<StatusRespView> {
    match r {
        Some(r) => Some(r@),
        None => None,
    }
}

/// The answer to a status request, from the row that history holds.
pub fn history_terminal_status_resp(transfer_id: &str, row: &Option<TransferTask>) -> (resp: Option<
    StatusResp,
>)
    ensures
        opt_status(resp) == replayed_status(transfer_id@, opt_task(*row)),
{
    match row {
        None => None,
        Some(t) => if !is_ended_receive(t) {
            None
        } else {
            let moved: u64 = if t.status == TransferStatus::Completed {
                t.size
            } else {
                t.transferred_bytes
            };
            Some(
                StatusResp {
                    transfer_id: transfer_id.to_string(),
                    status: status_str(t.status),
                    progress: Progress { done: moved, total: t.size },
                    transferred_bytes: moved,
                    size: t.size,
                    filename: t.filename.clone(),
                },
            )
        },
    }
}

// ---------------------------------------------------------------------------
// Recovery from the intent journal
// ---------------------------------------------------------------------------
/// What was found where the intent should be.
pub enum IntentRead {
    Missing,
    Failed(AppError),
    /// It could not be understood.
    Malformed,
    Parsed(FinalizeIntent),
}

/// What was found where the final file should be, without following links.
pub enum FinalEntry {
    Missing,
    Failed,
    Found { is_symlink: bool, is_file: bool, len: u64 },
}

/// A plain file of `size` bytes.
pub open spec fn plain_file_of(entry: FinalEntry, size: u64) -> bool {
    entry matches FinalEntry::Found { is_symlink, is_file, len } && !is_symlink && is_file && len == size
}

/// What comes next in the recovery of a transfer from its intent.
pub enum RecoverNext {
    /// Read and parse the intent.
    ReadIntent(RecoverRead),
    /// Look the transfer up in history.
    LookupHistory(RecoverHistory),
    /// Clear the intent, whether or not that succeeds, and then look the
    /// transfer up again.
    ClearThenLookup(RecoverReplay),
    /// Clear the intent, whether or not that succeeds; there is nothing to
    /// recover.
    ClearAndGiveUp(RecoverGiveUp),
    /// Resolve the receive directory and the parent of the final path.
    Resolve(RecoverResolve),
    /// Look at the final file.
    Stat(RecoverStat),
    /// Hash the final file.
    Hash(RecoverHash),
    /// Promote the final file.
    Promote(RecoverPromote),
    Done(Result<Option<ChunkResp>, AppError>),
}

/// An intent that is to be read.
pub struct RecoverRead {
    pub id: String,
    pub receive_dir: String,
    pub path: String,
}

/// An intent whose transfer may have been recorded.
pub struct RecoverHistory {
    pub id: String,
    pub receive_dir: String,
    pub intent: FinalizeIntent,
}

/// A transfer that was recorded: its row is its answer.
pub struct RecoverReplay {
    pub id: String,
}

/// An intent that recovers nothing.
pub struct RecoverGiveUp;

/// An intent whose final path is to be resolved.
pub struct RecoverResolve {
    pub id: String,
    pub receive_dir: String,
    pub intent: FinalizeIntent,
}

/// An intent whose final file is to be looked at.
pub struct RecoverStat {
    pub id: String,
    pub intent: FinalizeIntent,
}

/// An intent whose final file is to be hashed.
pub struct RecoverHash {
    pub id: String,
    pub intent: FinalizeIntent,
}

/// An intent whose final file is being promoted.
pub struct RecoverPromote {
    pub promotion: PromoteNext,
    pub after: RecoverPromoted,
}

/// A promotion whose outcome is the outcome of the recovery.
pub struct RecoverPromoted {
    pub size: u64,
}

/// Recovery ends here with `result`.
pub open spec fn recovery_ends(
    next: RecoverNext,
    result: Result<Option<ChunkResp>, AppErrorView>,
) -> bool {
    next matches RecoverNext::Done(r) && replay_view(r) == result
}

/// The first step of recovering transfer `id`: an id that has no intent path has
/// nothing to recover.
pub open spec fn recovery_opens(
    platform: Platform,
    id: Seq<char>,
    receive_dir: Seq<char>,
    facts: IntentDirFacts,
    next: RecoverNext,
) -> bool {
    match intent_path(platform, receive_dir, id, facts) {
        Err(_) => recovery_ends(next, Ok(None)),
        Ok(path) => next matches RecoverNext::ReadIntent(s) && s.id@ == id && s.receive_dir@ == receive_dir
            && s.path@ == path,
    }
}

/// Starts to recover transfer `transfer_id`.
pub fn try_recover_finalize_intent(
    platform: Platform,
    transfer_id: &str,
    receive_dir: &str,
    facts: &IntentDirFacts,
) -> (next: RecoverNext)
    ensures
        recovery_opens(platform, transfer_id@, receive_dir@, *facts, next),
{
    match finalize_intent_path(platform, receive_dir, transfer_id, facts) {
        Err(_) => RecoverNext::Done(Ok(None)),
        Ok(path) => RecoverNext::ReadIntent(
            RecoverRead { id: transfer_id.to_string(), receive_dir: receive_dir.to_string(), path },
        ),
    }
}

/// The step after reading the intent: one that makes no sense, or is another
/// transfer's, is cleared away.
pub open spec fn reading_decides(state: RecoverRead, found: IntentRead, next: RecoverNext) -> bool {
    match found {
        IntentRead::Missing => recovery_ends(next, Ok(None)),
        IntentRead::Failed(e) => recovery_ends(next, Err(e@)),
        IntentRead::Malformed => next is ClearAndGiveUp,
        IntentRead::Parsed(intent) => if intent@.transfer_id != state.id@ {
            next is ClearAndGiveUp
        } else {
            next matches RecoverNext::LookupHistory(s) && s.id@ == state.id@ && s.receive_dir@
                == state.receive_dir@ && s.intent@ == intent@
        },
    }
}

impl RecoverRead {
    /// The intent has been read, or not.
    pub fn read(self, found: IntentRead) -> (next: RecoverNext)
        ensures
            reading_decides(self, found, next),
    {
        match found {
            IntentRead::Missing => RecoverNext::Done(Ok(None)),
            IntentRead::Failed(e) => RecoverNext::Done(Err(e)),
            IntentRead::Malformed => RecoverNext::ClearAndGiveUp(RecoverGiveUp),
            IntentRead::Parsed(intent) => if !same(intent.transfer_id.as_str(), self.id.as_str()) {
                RecoverNext::ClearAndGiveUp(RecoverGiveUp)
            } else {
                RecoverNext::LookupHistory(
                    RecoverHistory { id: self.id, receive_dir: self.receive_dir, intent },
                )
            },
        }
    }
}

/// The step after looking the transfer up: one that has ended needs no recovery.
pub open spec fn history_decides(
    state: RecoverHistory,
    row: Result<Option<TaskView>, AppErrorView>,
    next: RecoverNext,
) -> bool {
    match row {
        Err(e) => recovery_ends(next, Err(e)),
        Ok(t) => if t is Some && ended_receive(t->0) {
            next matches RecoverNext::ClearThenLookup(s) && s.id@ == state.id@
        } else {
            next matches RecoverNext::Resolve(s) && s.id@ == state.id@ && s.receive_dir@
                == state.receive_dir@ && s.intent@ == state.intent@
        },
    }
}

impl RecoverHistory {
    /// The transfer has been looked up.
    pub fn looked_up(self, row: Result<Option<TransferTask>, AppError>) -> (next: RecoverNext)
        ensures
            history_decides(self, row_view(row), next),
    {
        match row {
            Err(e) => RecoverNext::Done(Err(e)),
            Ok(t) => {
                if let Some(hist) = &t {
                    if is_ended_receive(hist) {
                        return RecoverNext::ClearThenLookup(RecoverReplay { id: self.id });
                    }
                }
                RecoverNext::Resolve(
                    RecoverResolve {
                        id: self.id,
                        receive_dir: self.receive_dir,
                        intent: self.intent,
                    },
                )
            },
        }
    }
}

/// The end of the recovery of a transfer that was recorded: its row is the answer.
pub open spec fn recovery_replays(row: Result<Option<TaskView>, AppErrorView>, next: RecoverNext) -> bool {
    match row {
        Err(e) => recovery_ends(next, Err(e)),
        Ok(t) => recovery_ends(next, Ok(replayed_chunk(t))),
    }
}

impl RecoverReplay {
    /// The row has been looked up again.
    pub fn looked_up(self, row: Result<Option<TransferTask>, AppError>) -> (next: RecoverNext)
        ensures
            recovery_replays(row_view(row), next),
    {
        match row {
            Err(e) => RecoverNext::Done(Err(e)),
            Ok(t) => RecoverNext::Done(Ok(history_terminal_chunk_resp(&t))),
        }
    }
}

/// The step after resolving the paths: a final path outside the receive
/// directory is not trusted.
pub open spec fn resolving_decides(
    platform: Platform,
    state: RecoverResolve,
    canonical_dir: Option<Seq<char>>,
    canonical_parent: Option<Seq<char>>,
    next: RecoverNext,
) -> bool {
    if stays_within(
        platform,
        state.receive_dir@,
        state.intent@.final_path,
        canonical_dir,
        canonical_parent,
    ) is Err {
        next is ClearAndGiveUp
    } else {
        next matches RecoverNext::Stat(s) && s.id@ == state.id@ && s.intent@ == state.intent@
    }
}

impl RecoverResolve {
    /// The paths have been resolved.
    pub fn resolved(
        self,
        platform: Platform,
        canonical_dir: Option<&str>,
        canonical_parent: Option<&str>,
    ) -> (next: RecoverNext)
        ensures
            resolving_decides(
                platform,
                self,
                opt_str(canonical_dir),
                opt_str(canonical_parent),
                next,
            ),
    {
        match ensure_path_within_dir(
            platform,
            self.receive_dir.as_str(),
            self.intent.final_path.as_str(),
            canonical_dir,
            canonical_parent,
        ) {
            Err(_) => RecoverNext::ClearAndGiveUp(RecoverGiveUp),
            Ok(()) => RecoverNext::Stat(RecoverStat { id: self.id, intent: self.intent }),
        }
    }
}

/// The step after looking at the final file: only a plain file of the right size
/// is worth hashing.
pub open spec fn looking_decides(state: RecoverStat, entry: FinalEntry, next: RecoverNext) -> bool {
    if plain_file_of(entry, state.intent@.size) {
        next matches RecoverNext::Hash(s) && s.id@ == state.id@ && s.intent@ == state.intent@
    } else {
        next is ClearAndGiveUp
    }
}

impl RecoverStat {
    /// The final file has been looked at.
    pub fn found(self, entry: FinalEntry) -> (next: RecoverNext)
        ensures
            looking_decides(self, entry, next),
    {
        match entry {
            FinalEntry::Missing => RecoverNext::ClearAndGiveUp(RecoverGiveUp),
            FinalEntry::Failed => RecoverNext::ClearAndGiveUp(RecoverGiveUp),
            FinalEntry::Found { is_symlink, is_file, len } => if is_symlink || !is_file || len
                != self.intent.size {
                RecoverNext::ClearAndGiveUp(RecoverGiveUp)
            } else {
                RecoverNext::Hash(RecoverHash { id: self.id, intent: self.intent })
            },
        }
    }
}

/// The completed task that an intent stands for.
pub open spec fn recovered_task(id: Seq<char>, intent: IntentView, now: Seq<char>) -> TaskView {
    TaskView {
        filename: intent.filename,
        file_path: intent.final_path,
        size: intent.size,
        sha256: intent.sha256,
        chunk_size: intent.chunk_size,
        direction: TransferDirection::Receive,
        status: TransferStatus::Completed,
        transferred_bytes: intent.size,
        created_at: intent.created_at,
        completed_at: Some(now),
        ..first_attempt(id)
    }
}

/// The step after hashing the final file: only the contents that were promised
/// are promoted. The task is put in progress, completed, so that a promotion
/// that fails can be repeated.
pub open spec fn recovery_promotes(
    pre: RegistryView,
    post: RegistryView,
    state: RecoverHash,
    sha: Result<String, AppError>,
    clock: Clock,
    next: RecoverNext,
) -> bool {
    let id = state.id@;
    let task = recovered_task(id, state.intent@, clock.iso@);
    if sha is Err || sha->Ok_0@ != state.intent@.sha256 {
        post == pre && next is ClearAndGiveUp
    } else {
        &&& if pre.task(id) is None {
            exists|token: CancellationToken| post == #[trigger] pre.added(task, token)
        } else {
            post == pre.completed(id, clock.iso@, Some(state.intent@.final_path))
        }
        &&& next matches RecoverNext::Promote(s) && s.after.size == state.intent@.size && promotion_opens(
            id,
            task,
            s.promotion,
        )
    }
}

impl RecoverHash {
    /// The final file has been hashed, or could not be.
    pub fn hashed(
        self,
        registry: &mut TransferRegistry,
        sha: Result<String, AppError>,
        clock: &Clock,
    ) -> (next: RecoverNext)
        ensures
            recovery_promotes(old(registry)@, final(registry)@, self, sha, *clock, next),
    {
        let actual = match sha {
            Ok(h) => h,
            Err(_) => {
                return RecoverNext::ClearAndGiveUp(RecoverGiveUp);
            },
        };
        if !same(actual.as_str(), self.intent.sha256.as_str()) {
            return RecoverNext::ClearAndGiveUp(RecoverGiveUp);
        }
        let id = self.id.as_str();
        let task = TransferTask {
            id: self.id.clone(),
            filename: self.intent.filename.clone(),
            file_path: self.intent.final_path.clone(),
            size: self.intent.size,
            sha256: self.intent.sha256.clone(),
            chunk_size: self.intent.chunk_size,
            direction: TransferDirection::Receive,
            peer_device_id: String::new(),
            status: TransferStatus::Completed,
            transferred_bytes: self.intent.size,
            created_at: self.intent.created_at.clone(),
            completed_at: Some(clock.iso.clone()),
            ..TransferTask::recovery_defaults(id)
        };
        assert(task@ == recovered_task(id@, self.intent@, clock.iso@));
        if registry.get(id).is_none() {
            registry.add(task.clone());
        } else {
            registry.mark_completed(
                id,
                clock.iso.clone(),
                Some(self.intent.final_path.clone()),
            );
        }
        let promotion = promote_completed_to_durable(id, &task);
        RecoverNext::Promote(RecoverPromote { promotion, after: RecoverPromoted { size: self.intent.size } })
    }
}

impl RecoverGiveUp {
    /// The intent has been cleared, as far as that was possible.
    pub fn cleared(self) -> (next: RecoverNext)
        ensures
            recovery_ends(next, Ok(None)),
    {
        RecoverNext::Done(Ok(None))
    }
}

/// The end of a recovery once the promotion has ended: a promoted transfer answers
/// success with its whole size.
pub open spec fn recovery_settles(
    state: RecoverPromoted,
    outcome: Result<(), AppErrorView>,
    next: RecoverNext,
) -> bool {
    recovery_ends(
        next,
        match outcome {
            Err(e) => Err(e),
            Ok(_) => Ok(Some(ChunkResp { success: true, received_bytes: state.size })),
        },
    )
}

impl RecoverPromoted {
    /// The promotion has ended.
    pub fn promoted(self, outcome: Result<(), AppError>) -> (next: RecoverNext)
        ensures
            recovery_settles(self, unit(outcome), next),
    {
        match outcome {
            Err(e) => RecoverNext::Done(Err(e)),
            Ok(()) => RecoverNext::Done(
                Ok(Some(ChunkResp { success: true, received_bytes: self.size })),
            ),
        }
    }
}

} // verus!

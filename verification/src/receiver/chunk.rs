//! Serving `chunk` and `complete`: take data in, and say once and for all how
//! the transfer ended.
//!
//! Both are served with the transfer's lock held, so that no other request for
//! the same id comes in between.
use std::time::Instant;
use vstd::prelude::*;

use crate::clock::Clock;
use crate::error::{AppError, AppErrorView};
use crate::event::{opt_event, EventView, TransferEvent};
use crate::receiver::finalize::{after_failure, starts_failing, Failing};
use crate::receiver::resume::{
    history_terminal_chunk_resp, replay_view, replayed_chunk, reply_view, row_view,
};
use crate::receiver::ChunkResp;
use crate::registry::{
    RegistryView, TombstoneView, TransferOutcome, TransferRegistry, TransferTombstone,
};
use crate::task::{TaskView, TransferDirection, TransferStatus, TransferTask};
use crate::text::{decimal, decimal_of, join2, join4, join5};
use crate::CHUNK_SIZE;

verus! {

broadcast use vstd::string::group_string_axioms;

/// The answer that a tombstone stands for.
pub open spec fn epitaph(tomb: TombstoneView) -> ChunkResp {
    ChunkResp {
        success: tomb.outcome is Completed,
        received_bytes: tomb.received_bytes,
    }
}

fn read_epitaph(tomb: &TransferTombstone) -> (resp: ChunkResp)
    ensures
        resp == epitaph(tomb@),
{
    let success = match &tomb.outcome {
        TransferOutcome::Completed { .. } => true,
        TransferOutcome::Failed { .. } => false,
    };
    ChunkResp { success, received_bytes: tomb.received_bytes }
}

/// A refusal that takes nothing in.
pub open spec fn nothing_taken() -> ChunkResp {
    ChunkResp { success: false, received_bytes: 0 }
}

/// The file is in place but not recorded: the request may be repeated.
pub open spec fn not_durable_yet(id: Seq<char>) -> AppErrorView {
    AppErrorView::Unavailable("transfer_history 尚未 durable，请重试 complete: "@ + id)
}

/// The same, with the reason.
pub open spec fn not_durable_because(id: Seq<char>, e: AppErrorView) -> AppErrorView {
    AppErrorView::Unavailable(
        "transfer_history 尚未 durable，请重试 complete: "@ + id + ": "@ + e.message(),
    )
}

fn unsettled(id: &str) -> (e: AppError)
    ensures
        e@ == not_durable_yet(id@),
{
    AppError::unavailable(join2("transfer_history 尚未 durable，请重试 complete: ", id))
}

fn unsettled_because(id: &str, e: &AppError) -> (r: AppError)
    ensures
        r@ == not_durable_because(id@, e@),
{
    let m = e.message();
    AppError::unavailable(
        join4("transfer_history 尚未 durable，请重试 complete: ", id, ": ", m.as_str()),
    )
}

/// The answer after a promotion was tried again for a file that is in place:
/// an error where it failed, and otherwise what the tombstone says.
pub open spec fn after_promotion(
    pre: RegistryView,
    post: RegistryView,
    id: Seq<char>,
    outcome: Result<(), AppError>,
    at: Instant,
    reply: Result<ChunkResp, AppErrorView>,
) -> bool {
    match outcome {
        Err(e) => post == pre && reply == Err::<ChunkResp, AppErrorView>(
            not_durable_because(id, e@),
        ),
        Ok(_) => {
            &&& post == pre.pruned(at)
            &&& reply == match pre.standing(id, at) {
                Some(tomb) => Ok::<ChunkResp, AppErrorView>(epitaph(tomb)),
                None => Err(
                    AppErrorView::Unavailable(
                        "transfer durable 晋升后无墓碑，请重试 complete: "@ + id,
                    ),
                ),
            }
        },
    }
}

fn settle_promotion(
    registry: &mut TransferRegistry,
    id: &str,
    outcome: Result<(), AppError>,
    at: Instant,
) -> (reply: Result<ChunkResp, AppError>)
    ensures
        after_promotion(
            old(registry)@,
            final(registry)@,
            id@,
            outcome,
            at,
            reply_view(reply),
        ),
{
    match outcome {
        Err(e) => Err(unsettled_because(id, &e)),
        Ok(()) => match registry.tombstone_at(id, at) {
            Some(tomb) => Ok(read_epitaph(&tomb)),
            None => Err(
                AppError::unavailable(
                    join2("transfer durable 晋升后无墓碑，请重试 complete: ", id),
                ),
            ),
        },
    }
}

// ---------------------------------------------------------------------------
// chunk
// ---------------------------------------------------------------------------
/// What comes next in serving a chunk.
pub enum ChunkNext {
    /// Look the transfer up in history.
    LookupHistory(ChunkHistory),
    /// Finalize the transfer: its file is in place already.
    Promote(ChunkPromote),
    /// Write the data to the temporary file at the offset, and flush it.
    Write(ChunkWrite),
    /// Finalize the transfer: all its data has arrived.
    Finalize(ChunkFinalize),
    Reply(Result<ChunkResp, AppError>),
}

/// A chunk for a transfer that is not in progress.
pub struct ChunkHistory {
    pub id: String,
}

/// A chunk for a transfer whose file is in place.
pub struct ChunkPromote {
    pub id: String,
}

/// A chunk that is to be written.
pub struct ChunkWrite {
    pub id: String,
    pub tmp_path: String,
    pub offset: u64,
    pub len: u64,
    /// The size of the whole file.
    pub size: u64,
}

/// A transfer whose data has all arrived.
pub struct ChunkFinalize {
    pub id: String,
    pub received: u64,
}

/// The chunk is answered with `reply`.
pub open spec fn chunk_replies(next: ChunkNext, reply: Result<ChunkResp, AppErrorView>) -> bool {
    next matches ChunkNext::Reply(r) && reply_view(r) == reply
}

/// The refusal of a chunk that is too large.
pub open spec fn too_large(len: nat) -> AppErrorView {
    AppErrorView::Validation(
        "chunk 大小 "@ + decimal(len) + " 超过上限 "@ + decimal(CHUNK_SIZE as nat) + " 字节"@,
    )
}

/// The first step of serving a chunk.
///
/// A chunk that is too large is refused before anything else. A transfer that
/// has ended is answered as it ended. A task that is not received takes nothing
/// in, and a file that is in place is not written to again.
pub open spec fn chunk_opens(
    pre: RegistryView,
    post: RegistryView,
    id: Seq<char>,
    offset: u64,
    len: usize,
    at: Instant,
    next: ChunkNext,
) -> bool {
    if len > CHUNK_SIZE {
        post == pre && chunk_replies(next, Err(too_large(len as nat)))
    } else {
        match pre.task(id) {
            None => {
                &&& post == pre.pruned(at)
                &&& match pre.standing(id, at) {
                    Some(tomb) => chunk_replies(next, Ok(epitaph(tomb))),
                    None => next matches ChunkNext::LookupHistory(s) && s.id@ == id,
                }
            },
            Some(task) => if task.direction != TransferDirection::Receive {
                post == pre && chunk_replies(next, Ok(nothing_taken()))
            } else if task.status == TransferStatus::Completed {
                post == pre && (next matches ChunkNext::Promote(s) && s.id@ == id)
            } else {
                &&& post == pre.in_status(id, TransferStatus::Transferring)
                &&& next matches ChunkNext::Write(s) && s.id@ == id && s.tmp_path@ == task.file_path
                    && s.offset == offset && s.len == len && s.size == task.size
            },
        }
    }
}

/// Starts serving a chunk of `len` bytes at `offset`.
pub fn handle_chunk(
    registry: &mut TransferRegistry,
    transfer_id: &str,
    offset: u64,
    len: usize,
    at: Instant,
) -> (next: ChunkNext)
    ensures
        chunk_opens(old(registry)@, final(registry)@, transfer_id@, offset, len, at, next),
{
    if len > CHUNK_SIZE {
        let got = decimal_of(len as u64);
        let max = decimal_of(CHUNK_SIZE as u64);
        return ChunkNext::Reply(
            Err(
                AppError::validation(
                    join5("chunk 大小 ", got.as_str(), " 超过上限 ", max.as_str(), " 字节"),
                ),
            ),
        );
    }
    let task = match registry.get(transfer_id) {
        Some(t) => t,
        None => {
            return match registry.tombstone_at(transfer_id, at) {
                Some(tomb) => ChunkNext::Reply(Ok(read_epitaph(&tomb))),
                None => ChunkNext::LookupHistory(ChunkHistory { id: transfer_id.to_string() }),
            };
        },
    };
    if task.direction != TransferDirection::Receive {
        return ChunkNext::Reply(Ok(ChunkResp { success: false, received_bytes: 0 }));
    }
    if task.status == TransferStatus::Completed {
        return ChunkNext::Promote(ChunkPromote { id: transfer_id.to_string() });
    }
    registry.set_status(transfer_id, TransferStatus::Transferring);
    ChunkNext::Write(
        ChunkWrite {
            id: transfer_id.to_string(),
            tmp_path: task.file_path,
            offset,
            len: len as u64,
            size: task.size,
        },
    )
}

/// The answer to a chunk whose transfer was looked up in history: one that ended is
/// answered as it ended, one that is unknown takes nothing in.
pub open spec fn chunk_looks_up(row: Result<Option<TaskView>, AppErrorView>, next: ChunkNext) -> bool {
    chunk_replies(
        next,
        match row {
            Err(e) => Err(e),
            Ok(t) => match replayed_chunk(t) {
                Some(resp) => Ok(resp),
                None => Ok(nothing_taken()),
            },
        },
    )
}

impl ChunkHistory {
    /// The transfer has been looked up in history.
    pub fn looked_up(self, row: Result<Option<TransferTask>, AppError>) -> (next: ChunkNext)
        ensures
            chunk_looks_up(row_view(row), next),
    {
        match row {
            Err(e) => ChunkNext::Reply(Err(e)),
            Ok(t) => match history_terminal_chunk_resp(&t) {
                Some(resp) => ChunkNext::Reply(Ok(resp)),
                None => ChunkNext::Reply(Ok(ChunkResp { success: false, received_bytes: 0 })),
            },
        }
    }
}

impl ChunkPromote {
    /// Finalizing has ended with `outcome`.
    pub fn promoted(
        self,
        registry: &mut TransferRegistry,
        outcome: Result<(), AppError>,
        at: Instant,
    ) -> (next: ChunkNext)
        ensures
            next matches ChunkNext::Reply(r) && after_promotion(
                old(registry)@,
                final(registry)@,
                self.id@,
                outcome,
                at,
                reply_view(r),
            ),
    {
        ChunkNext::Reply(settle_promotion(registry, self.id.as_str(), outcome, at))
    }
}

/// The answer once a chunk is in and nothing is left to do for it: what the
/// tombstone says where the transfer has ended, an error where its file is in
/// place but not recorded, and otherwise how far the transfer has come.
pub open spec fn chunk_settles(
    pre: RegistryView,
    post: RegistryView,
    id: Seq<char>,
    received: u64,
    at: Instant,
    next: ChunkNext,
) -> bool {
    let done = Ok::<ChunkResp, AppErrorView>(ChunkResp { success: true, received_bytes: received });
    match pre.task(id) {
        None => {
            &&& post == pre.pruned(at)
            &&& chunk_replies(
                next,
                match pre.standing(id, at) {
                    Some(tomb) => Ok(epitaph(tomb)),
                    None => done,
                },
            )
        },
        Some(task) => if task.status == TransferStatus::Completed {
            &&& post == pre.pruned(at)
            &&& chunk_replies(
                next,
                match pre.standing(id, at) {
                    Some(_) => done,
                    None => Err(not_durable_yet(id)),
                },
            )
        } else {
            post == pre && chunk_replies(next, done)
        },
    }
}

fn settle_chunk(registry: &mut TransferRegistry, id: &str, received: u64, at: Instant) -> (next: ChunkNext)
    ensures
        chunk_settles(old(registry)@, final(registry)@, id@, received, at, next),
{
    let done = ChunkResp { success: true, received_bytes: received };
    match registry.get(id) {
        None => match registry.tombstone_at(id, at) {
            Some(tomb) => ChunkNext::Reply(Ok(read_epitaph(&tomb))),
            None => ChunkNext::Reply(Ok(done)),
        },
        Some(t) => {
            if t.status == TransferStatus::Completed {
                if registry.tombstone_at(id, at).is_none() {
                    return ChunkNext::Reply(Err(unsettled(id)));
                }
            }
            ChunkNext::Reply(Ok(done))
        },
    }
}

/// The step after a chunk was written: its progress is recorded, and a transfer
/// whose data has all arrived is finalized.
pub open spec fn write_advances(
    pre: RegistryView,
    post: RegistryView,
    state: ChunkWrite,
    outcome: Result<(), AppError>,
    at: Instant,
    next: ChunkNext,
) -> bool {
    let received = (state.offset + state.len) as u64;
    let moved = pre.progressed(state.id@, received, TransferStatus::Transferring);
    match outcome {
        Err(e) => post == pre && chunk_replies(next, Err(e@)),
        Ok(_) => if state.offset + state.len >= state.size {
            &&& post == moved
            &&& next matches ChunkNext::Finalize(s) && s.id@ == state.id@ && s.received == received
        } else {
            chunk_settles(moved, post, state.id@, received, at, next)
        },
    }
}

impl ChunkWrite {
    /// The data has been written, or not. No file ends beyond the largest
    /// offset there is.
    pub fn written(
        self,
        registry: &mut TransferRegistry,
        outcome: Result<(), AppError>,
        at: Instant,
    ) -> (next: ChunkNext)
        requires
            outcome is Ok ==> self.offset + self.len <= u64::MAX,
        ensures
            write_advances(old(registry)@, final(registry)@, self, outcome, at, next),
    {
        match outcome {
            Err(e) => ChunkNext::Reply(Err(e)),
            Ok(()) => {
                let received: u64 = self.offset + self.len;
                registry.update_progress(self.id.as_str(), received, TransferStatus::Transferring);
                if received >= self.size {
                    return ChunkNext::Finalize(ChunkFinalize { id: self.id, received });
                }
                settle_chunk(registry, self.id.as_str(), received, at)
            },
        }
    }
}

/// The answer once finalizing has ended. Where it failed, a transfer that ended
/// is answered as it ended, a file in place but not recorded is an error, and
/// anything else is a failure.
pub open spec fn chunk_finalizes(
    pre: RegistryView,
    post: RegistryView,
    state: ChunkFinalize,
    outcome: Result<(), AppError>,
    at: Instant,
    next: ChunkNext,
) -> bool {
    let id = state.id@;
    match outcome {
        Ok(_) => chunk_settles(pre, post, id, state.received, at, next),
        Err(e) => {
            &&& post == pre.pruned(at)
            &&& chunk_replies(
                next,
                match pre.standing(id, at) {
                    Some(tomb) => Ok(epitaph(tomb)),
                    None => match pre.task(id) {
                        Some(t) => if t.status == TransferStatus::Completed {
                            Err(not_durable_because(id, e@))
                        } else {
                            Ok(
                                ChunkResp {
                                    success: false,
                                    received_bytes: t.transferred_bytes,
                                },
                            )
                        },
                        None => Ok(ChunkResp { success: false, received_bytes: state.received }),
                    },
                },
            )
        },
    }
}

impl ChunkFinalize {
    /// Finalizing has ended with `outcome`.
    pub fn finalized(
        self,
        registry: &mut TransferRegistry,
        outcome: Result<(), AppError>,
        at: Instant,
    ) -> (next: ChunkNext)
        ensures
            chunk_finalizes(old(registry)@, final(registry)@, self, outcome, at, next),
    {
        let e = match outcome {
            Ok(()) => {
                return settle_chunk(registry, self.id.as_str(), self.received, at);
            },
            Err(e) => e,
        };
        if let Some(tomb) = registry.tombstone_at(self.id.as_str(), at) {
            return ChunkNext::Reply(Ok(read_epitaph(&tomb)));
        }
        match registry.get(self.id.as_str()) {
            Some(t) => if t.status == TransferStatus::Completed {
                ChunkNext::Reply(Err(unsettled_because(self.id.as_str(), &e)))
            } else {
                ChunkNext::Reply(
                    Ok(ChunkResp { success: false, received_bytes: t.transferred_bytes }),
                )
            },
            None => ChunkNext::Reply(
                Ok(ChunkResp { success: false, received_bytes: self.received }),
            ),
        }
    }
}

// ---------------------------------------------------------------------------
// complete
// ---------------------------------------------------------------------------
/// What comes next in serving a request to complete.
pub enum CompleteNext {
    /// Look the transfer up in history.
    LookupHistory(CompleteHistory),
    /// Recover the transfer from its intent.
    Recover(CompleteRecover),
    /// Finalize the transfer: its file is in place already.
    Promote(CompletePromote),
    /// Measure the temporary file, without following links.
    MeasureTmp(CompleteMeasure),
    /// Create the temporary file of an empty transfer.
    CreateEmpty(CompleteCreate),
    /// Record the failed row.
    Fail(CompleteFailing),
    /// Finalize the transfer: all its data has arrived.
    Finalize(CompleteFinalize),
    Reply { reply: Result<ChunkResp, AppError>, event: Option<TransferEvent> },
}

/// A transfer that is not in progress.
pub struct CompleteHistory {
    pub id: String,
}

/// A transfer that history does not know to have ended.
pub struct CompleteRecover {
    pub id: String,
}

/// A transfer whose file is in place.
pub struct CompletePromote {
    pub id: String,
}

/// A transfer whose temporary file is to be measured.
pub struct CompleteMeasure {
    pub id: String,
    pub task: TransferTask,
}

/// An empty transfer without a temporary file.
pub struct CompleteCreate {
    pub id: String,
    pub tmp_path: String,
    pub len: u64,
}

/// A transfer that has failed and is about to be recorded.
pub struct CompleteFailing {
    pub failing: Failing,
}

/// A transfer whose data has all arrived.
pub struct CompleteFinalize {
    pub id: String,
    pub len: u64,
}

/// The request is answered with `reply`.
pub open spec fn complete_replies(
    next: CompleteNext,
    answer: Result<ChunkResp, AppErrorView>,
    announced: Option<EventView>,
) -> bool {
    next matches CompleteNext::Reply { reply, event } && reply_view(reply) == answer && opt_event(event)
        == announced
}

fn answer(reply: Result<ChunkResp, AppError>) -> (next: CompleteNext)
    ensures
        complete_replies(next, reply_view(reply), None),
{
    CompleteNext::Reply { reply, event: None }
}

/// The first step of serving a request to complete.
pub open spec fn complete_opens(
    pre: RegistryView,
    post: RegistryView,
    id: Seq<char>,
    at: Instant,
    next: CompleteNext,
) -> bool {
    match pre.task(id) {
        None => {
            &&& post == pre.pruned(at)
            &&& match pre.standing(id, at) {
                Some(tomb) => complete_replies(next, Ok(epitaph(tomb)), None),
                None => next matches CompleteNext::LookupHistory(s) && s.id@ == id,
            }
        },
        Some(task) => {
            &&& post == pre
            &&& if task.direction != TransferDirection::Receive {
                complete_replies(next, Ok(nothing_taken()), None)
            } else if task.status == TransferStatus::Completed {
                next matches CompleteNext::Promote(s) && s.id@ == id
            } else {
                next matches CompleteNext::MeasureTmp(s) && s.id@ == id && s.task@ == task
            }
        },
    }
}

/// Starts serving a request to complete `transfer_id`.
pub fn handle_complete(registry: &mut TransferRegistry, transfer_id: &str, at: Instant) -> (next:
    CompleteNext)
    ensures
        complete_opens(old(registry)@, final(registry)@, transfer_id@, at, next),
{
    let task = match registry.get(transfer_id) {
        Some(t) => t,
        None => {
            return match registry.tombstone_at(transfer_id, at) {
                Some(tomb) => answer(Ok(read_epitaph(&tomb))),
                None => CompleteNext::LookupHistory(
                    CompleteHistory { id: transfer_id.to_string() },
                ),
            };
        },
    };
    if task.direction != TransferDirection::Receive {
        return answer(Ok(ChunkResp { success: false, received_bytes: 0 }));
    }
    if task.status == TransferStatus::Completed {
        return CompleteNext::Promote(CompletePromote { id: transfer_id.to_string() });
    }
    CompleteNext::MeasureTmp(CompleteMeasure { id: transfer_id.to_string(), task })
}

/// The step after the transfer was looked up in history: one that is not known to
/// have ended may still be recovered.
pub open spec fn complete_looks_up(
    id: Seq<char>,
    row: Result<Option<TaskView>, AppErrorView>,
    next: CompleteNext,
) -> bool {
    match row {
        Err(e) => complete_replies(next, Err(e), None),
        Ok(t) => match replayed_chunk(t) {
            Some(resp) => complete_replies(next, Ok(resp), None),
            None => next matches CompleteNext::Recover(s) && s.id@ == id,
        },
    }
}

impl CompleteHistory {
    /// The transfer has been looked up in history.
    pub fn looked_up(self, row: Result<Option<TransferTask>, AppError>) -> (next: CompleteNext)
        ensures
            complete_looks_up(self.id@, row_view(row), next),
    {
        match row {
            Err(e) => answer(Err(e)),
            Ok(t) => match history_terminal_chunk_resp(&t) {
                Some(resp) => answer(Ok(resp)),
                None => CompleteNext::Recover(CompleteRecover { id: self.id }),
            },
        }
    }
}

/// The answer once the recovery has ended: a transfer that was not recovered is
/// unknown.
pub open spec fn complete_recovers(
    outcome: Result<Option<ChunkResp>, AppErrorView>,
    next: CompleteNext,
) -> bool {
    complete_replies(
        next,
        match outcome {
            Err(e) => Err(e),
            Ok(Some(resp)) => Ok(resp),
            Ok(None) => Ok(nothing_taken()),
        },
        None,
    )
}

impl CompleteRecover {
    /// The recovery has ended.
    pub fn recovered(self, outcome: Result<Option<ChunkResp>, AppError>) -> (next: CompleteNext)
        ensures
            complete_recovers(replay_view(outcome), next),
    {
        match outcome {
            Err(e) => answer(Err(e)),
            Ok(Some(resp)) => answer(Ok(resp)),
            Ok(None) => answer(Ok(ChunkResp { success: false, received_bytes: 0 })),
        }
    }
}

impl CompletePromote {
    /// Finalizing has ended with `outcome`.
    pub fn promoted(
        self,
        registry: &mut TransferRegistry,
        outcome: Result<(), AppError>,
        at: Instant,
    ) -> (next: CompleteNext)
        ensures
            next matches CompleteNext::Reply { reply, event } && event is None && after_promotion(
                old(registry)@,
                final(registry)@,
                self.id@,
                outcome,
                at,
                reply_view(reply),
            ),
    {
        answer(settle_promotion(registry, self.id.as_str(), outcome, at))
    }
}

/// The length that counts for a transfer: that of its temporary file, or what
/// is known to have arrived where there is no such file.
pub open spec fn arrived(task: TaskView, measured: Option<u64>) -> u64 {
    match measured {
        Some(len) => len,
        None => if task.size == 0 {
            0
        } else {
            task.transferred_bytes
        },
    }
}

/// Serving goes on by failing transfer `id` with `error`.
pub open spec fn complete_fails(
    pre: RegistryView,
    post: RegistryView,
    id: Seq<char>,
    error: Seq<char>,
    now: Seq<char>,
    next: CompleteNext,
) -> bool {
    next matches CompleteNext::Fail(s) && starts_failing(pre, post, id, error, now, s.failing)
}

/// The step after measuring: a file that cannot be measured fails the transfer,
/// one that is too short is not complete yet, and the rest is finalized.
pub open spec fn measure_decides(
    pre: RegistryView,
    post: RegistryView,
    state: CompleteMeasure,
    measured: Result<Option<u64>, AppError>,
    clock: Clock,
    next: CompleteNext,
) -> bool {
    let id = state.id@;
    match measured {
        Err(e) => complete_fails(
            pre,
            post,
            id,
            "读取临时文件失败: "@ + e@.message(),
            clock.iso@,
            next,
        ),
        Ok(m) => {
            let len = arrived(state.task@, m);
            &&& post == pre
            &&& if len < state.task@.size {
                complete_replies(next, Ok(ChunkResp { success: false, received_bytes: len }), None)
            } else if state.task@.size == 0 && len == 0 {
                next matches CompleteNext::CreateEmpty(s) && s.id@ == id && s.tmp_path@
                    == state.task@.file_path && s.len == len
            } else {
                next matches CompleteNext::Finalize(s) && s.id@ == id && s.len == len
            }
        },
    }
}

impl CompleteMeasure {
    /// The temporary file has been measured; `None` where there is none.
    pub fn measured(
        self,
        registry: &mut TransferRegistry,
        measured: Result<Option<u64>, AppError>,
        clock: &Clock,
    ) -> (next: CompleteNext)
        ensures
            measure_decides(
                old(registry)@,
                final(registry)@,
                self,
                measured,
                *clock,
                next,
            ),
    {
        let len: u64 = match measured {
            Ok(Some(len)) => len,
            Ok(None) => if self.task.size == 0 {
                0
            } else {
                self.task.transferred_bytes
            },
            Err(e) => {
                let m = e.message();
                let error = join2("读取临时文件失败: ", m.as_str());
                let failing = Failing::begin(registry, self.id.as_str(), error, clock.iso.clone());
                return CompleteNext::Fail(CompleteFailing { failing });
            },
        };
        if len < self.task.size {
            return answer(Ok(ChunkResp { success: false, received_bytes: len }));
        }
        if self.task.size == 0 && len == 0 {
            return CompleteNext::CreateEmpty(
                CompleteCreate { id: self.id, tmp_path: self.task.file_path, len },
            );
        }
        CompleteNext::Finalize(CompleteFinalize { id: self.id, len })
    }
}

/// The step after creating the file of an empty transfer.
pub open spec fn creating_decides(
    pre: RegistryView,
    post: RegistryView,
    state: CompleteCreate,
    outcome: Result<(), AppError>,
    clock: Clock,
    next: CompleteNext,
) -> bool {
    match outcome {
        Err(e) => complete_fails(
            pre,
            post,
            state.id@,
            "创建空临时文件失败: "@ + e@.message(),
            clock.iso@,
            next,
        ),
        Ok(_) => post == pre && (next matches CompleteNext::Finalize(s) && s.id@ == state.id@ && s.len
            == state.len),
    }
}

impl CompleteCreate {
    /// The empty file has been created, or not.
    pub fn created(
        self,
        registry: &mut TransferRegistry,
        outcome: Result<(), AppError>,
        clock: &Clock,
    ) -> (next: CompleteNext)
        ensures
            creating_decides(old(registry)@, final(registry)@, self, outcome, *clock, next),
    {
        match outcome {
            Err(e) => {
                let m = e.message();
                let error = join2("创建空临时文件失败: ", m.as_str());
                let failing = Failing::begin(registry, self.id.as_str(), error, clock.iso.clone());
                CompleteNext::Fail(CompleteFailing { failing })
            },
            Ok(()) => CompleteNext::Finalize(CompleteFinalize { id: self.id, len: self.len }),
        }
    }
}

/// The answer once the failed row was handed to history: the failure is announced
/// and answered, with what had arrived where a tombstone could be set.
pub open spec fn complete_failed(
    pre: RegistryView,
    post: RegistryView,
    failing: Failing,
    at: Instant,
    next: CompleteNext,
) -> bool {
    let settled = after_failure(pre, failing, at);
    &&& post == settled.pruned(at)
    &&& complete_replies(
        next,
        Ok(
            ChunkResp {
                success: false,
                received_bytes: match settled.standing(failing.id@, at) {
                    Some(tomb) => tomb.received_bytes,
                    None => 0,
                },
            },
        ),
        Some(EventView::Failed { id: failing.id@, error_message: failing.error@ }),
    )
}

impl CompleteFailing {
    /// The failed row has been handed to history.
    pub fn recorded(self, registry: &mut TransferRegistry, at: Instant) -> (next: CompleteNext)
        ensures
            complete_failed(old(registry)@, final(registry)@, self.failing, at, next),
    {
        let id = self.failing.id.clone();
        let event = self.failing.recorded(registry, at);
        let received: u64 = match registry.tombstone_at(id.as_str(), at) {
            Some(tomb) => tomb.received_bytes,
            None => 0,
        };
        CompleteNext::Reply {
            reply: Ok(ChunkResp { success: false, received_bytes: received }),
            event: Some(event),
        }
    }
}

/// The answer once finalizing has ended: an error where the file is in place but
/// not recorded, what the tombstone says where the transfer has ended, and a
/// failure otherwise.
pub open spec fn complete_finalizes(
    pre: RegistryView,
    post: RegistryView,
    state: CompleteFinalize,
    outcome: Result<(), AppError>,
    at: Instant,
    next: CompleteNext,
) -> bool {
    let id = state.id@;
    let in_place = pre.task(id) is Some && pre.task(id)->0.status == TransferStatus::Completed;
    if outcome is Err && in_place {
        post == pre && complete_replies(next, Err(not_durable_because(id, outcome->Err_0@)), None)
    } else {
        &&& post == pre.pruned(at)
        &&& complete_replies(
            next,
            match pre.standing(id, at) {
                Some(tomb) => Ok(epitaph(tomb)),
                None => match pre.task(id) {
                    Some(t) => if in_place {
                        Err(not_durable_yet(id))
                    } else {
                        Ok(ChunkResp { success: false, received_bytes: t.transferred_bytes })
                    },
                    None => Ok(ChunkResp { success: false, received_bytes: state.len }),
                },
            },
            None,
        )
    }
}

impl CompleteFinalize {
    /// Finalizing has ended with `outcome`.
    pub fn finalized(
        self,
        registry: &mut TransferRegistry,
        outcome: Result<(), AppError>,
        at: Instant,
    ) -> (next: CompleteNext)
        ensures
            complete_finalizes(old(registry)@, final(registry)@, self, outcome, at, next),
    {
        if let Err(e) = &outcome {
            if let Some(t) = registry.get(self.id.as_str()) {
                if t.status == TransferStatus::Completed {
                    return answer(Err(unsettled_because(self.id.as_str(), e)));
                }
            }
        }
        if let Some(tomb) = registry.tombstone_at(self.id.as_str(), at) {
            return answer(Ok(read_epitaph(&tomb)));
        }
        match registry.get(self.id.as_str()) {
            Some(t) => if t.status == TransferStatus::Completed {
                answer(Err(unsettled(self.id.as_str())))
            } else {
                answer(Ok(ChunkResp { success: false, received_bytes: t.transferred_bytes }))
            },
            None => answer(Ok(ChunkResp { success: false, received_bytes: self.len })),
        }
    }
}

} // verus!

//! From a received file to a finished transfer: check the contents, put the
//! file in place, prove it durable, record it, and only then say so.
use std::time::Instant;
use vstd::prelude::*;

use crate::clock::Clock;
use crate::error::{AppError, AppErrorView};
use crate::event::{opt_event, EventView, TransferEvent};
use crate::paths::{file_name_of, parts, LexPath};
use crate::platform::Platform;
use crate::receiver::validation::{safe_name, sanitize_receive_basename, sanitized, unit};
use crate::registry::{
    OutcomeView, RegistryView, TombstoneView, TransferOutcome, TransferRegistry, TransferTombstone,
};
use crate::task::{opt_task, TaskView, TransferDirection, TransferStatus, TransferTask};
use crate::text::{join2, join4, same};

verus! {

broadcast use vstd::string::group_string_axioms;

/// Joins a prefix, an id and an error's text.
fn explain(prefix: &str, id: &str, e: &AppError) -> (text: String)
    ensures
        text@ == prefix@ + id@ + ": "@ + e@.message(),
{
    let m = e.message();
    join4(prefix, id, ": ", m.as_str())
}

// ---------------------------------------------------------------------------
// Failing
// ---------------------------------------------------------------------------
/// The tombstone of a transfer that failed.
pub open spec fn failure_tombstone(
    task: TaskView,
    error: Seq<char>,
    completed_at: Seq<char>,
    at: Instant,
) -> TombstoneView {
    TombstoneView {
        outcome: OutcomeView::Failed { error },
        received_bytes: task.transferred_bytes,
        size: task.size,
        filename: task.filename,
        completed_at,
        created_at: at,
    }
}

/// A receiving task that has failed and is about to be recorded.
pub struct Failing {
    pub id: String,
    pub error: String,
    pub completed_at: String,
    /// The task as it was before it failed.
    pub snapshot: Option<TransferTask>,
    /// The row to record, if the task is still in progress. Whether recording
    /// it succeeds does not matter.
    pub row: Option<TransferTask>,
}

/// `failing` is what becomes of transfer `id` when it fails with `error`.
pub open spec fn starts_failing(
    pre: RegistryView,
    post: RegistryView,
    id: Seq<char>,
    error: Seq<char>,
    completed_at: Seq<char>,
    failing: Failing,
) -> bool {
    &&& post == pre.failed(id, completed_at)
    &&& failing.id@ == id
    &&& failing.error@ == error
    &&& failing.completed_at@ == completed_at
    &&& opt_task(failing.snapshot) == pre.task(id)
    &&& opt_task(failing.row) == post.task(id)
}

/// The registry after a failure has been recorded: the task is gone and its
/// tombstone is set.
pub open spec fn after_failure(pre: RegistryView, failing: Failing, at: Instant) -> RegistryView {
    match failing.snapshot {
        Some(t) => pre.without(failing.id@).buried(
            failing.id@,
            failure_tombstone(t@, failing.error@, failing.completed_at@, at),
            at,
        ),
        None => pre.without(failing.id@),
    }
}

impl Failing {
    /// Marks transfer `id` as failed with `error`.
    pub fn begin(registry: &mut TransferRegistry, id: &str, error: String, completed_at: String) -> (failing:
        Failing)
        ensures
            starts_failing(old(registry)@, final(registry)@, id@, error@, completed_at@, failing),
    {
        let snapshot = registry.get(id);
        registry.mark_failed(id, completed_at.clone());
        let row = registry.get(id);
        Failing { id: id.to_string(), error, completed_at, snapshot, row }
    }

    /// The row has been handed to history: the task leaves the registry, its
    /// tombstone is set, and the failure is announced.
    pub fn recorded(self, registry: &mut TransferRegistry, at: Instant) -> (event: TransferEvent)
        ensures
            final(registry)@ == after_failure(old(registry)@, self, at),
            event@ == (EventView::Failed { id: self.id@, error_message: self.error@ }),
    {
        let _ = registry.remove(self.id.as_str());
        if let Some(t) = &self.snapshot {
            registry.record_tombstone_at(
                self.id.as_str(),
                TransferTombstone {
                    outcome: TransferOutcome::Failed { error: self.error.clone() },
                    received_bytes: t.transferred_bytes,
                    size: t.size,
                    filename: t.filename.clone(),
                    completed_at: self.completed_at.clone(),
                    created_at: at,
                },
                at,
            );
        }
        TransferEvent::Failed { id: self.id, error_message: self.error }
    }
}

// ---------------------------------------------------------------------------
// Promotion: placed, then durable
// ---------------------------------------------------------------------------
/// What comes next in the promotion of a placed file.
pub enum PromoteNext {
    /// Prove the file durable.
    Certify(PromoteCertify),
    /// Record the completed row.
    Record(PromoteRecord),
    /// Clear the intent; whether that succeeds does not matter.
    ClearIntent(PromoteClear),
    Done { result: Result<(), AppError>, event: Option<TransferEvent> },
}

/// A placed file whose contents and durability are to be proved.
pub struct PromoteCertify {
    pub id: String,
    pub task: TransferTask,
}

/// A durable file whose row is to be recorded.
pub struct PromoteRecord {
    pub id: String,
    pub task: TransferTask,
}

/// A recorded transfer whose intent is to be cleared.
pub struct PromoteClear {
    pub id: String,
    pub file_path: String,
}

/// The promotion ends here with `result`.
pub open spec fn promotion_ends(
    next: PromoteNext,
    result: Result<(), AppErrorView>,
    event: Option<EventView>,
) -> bool {
    next matches PromoteNext::Done { result: r, event: e } && unit(r) == result && opt_event(e) == event
}

/// The first step of promoting `task` under `id`.
pub open spec fn promotion_opens(id: Seq<char>, task: TaskView, next: PromoteNext) -> bool {
    if task.direction != TransferDirection::Receive {
        promotion_ends(
            next,
            Err(AppErrorView::Validation("仅 Receive 任务可晋升 durable 终态: "@ + id)),
            None,
        )
    } else if task.status != TransferStatus::Completed {
        promotion_ends(
            next,
            Err(AppErrorView::Generic("任务尚未 Completed，不能晋升 durable: "@ + id)),
            None,
        )
    } else {
        next matches PromoteNext::Certify(s) && s.id@ == id && s.task@ == task
    }
}

/// Starts the promotion of a placed file.
pub fn promote_completed_to_durable(transfer_id: &str, task: &TransferTask) -> (next: PromoteNext)
    ensures
        promotion_opens(transfer_id@, task@, next),
{
    if task.direction != TransferDirection::Receive {
        return PromoteNext::Done {
            result: Err(
                AppError::validation(join2("仅 Receive 任务可晋升 durable 终态: ", transfer_id)),
            ),
            event: None,
        };
    }
    if task.status != TransferStatus::Completed {
        return PromoteNext::Done {
            result: Err(
                AppError::generic(join2("任务尚未 Completed，不能晋升 durable: ", transfer_id)),
            ),
            event: None,
        };
    }
    PromoteNext::Certify(PromoteCertify { id: transfer_id.to_string(), task: task.clone() })
}

/// The step after certifying: a file that was not certified stays where it is and
/// the request may be repeated.
pub open spec fn certifying_decides(
    state: PromoteCertify,
    outcome: Result<(), AppError>,
    next: PromoteNext,
) -> bool {
    match outcome {
        Err(e) => promotion_ends(
            next,
            Err(
                AppErrorView::Unavailable(
                    "最终文件已落地但 durability 未完成，请重试 complete: "@ + state.id@ + ": "@
                        + e@.message(),
                ),
            ),
            None,
        ),
        Ok(_) => next matches PromoteNext::Record(s) && s.id@ == state.id@ && s.task@ == state.task@,
    }
}

impl PromoteCertify {
    /// The file has been certified, or not.
    pub fn certified(self, outcome: Result<(), AppError>) -> (next: PromoteNext)
        ensures
            certifying_decides(self, outcome, next),
    {
        match outcome {
            Err(e) => PromoteNext::Done {
                result: Err(
                    AppError::unavailable(
                        explain(
                            "最终文件已落地但 durability 未完成，请重试 complete: ",
                            self.id.as_str(),
                            &e,
                        ),
                    ),
                ),
                event: None,
            },
            Ok(()) => PromoteNext::Record(PromoteRecord { id: self.id, task: self.task }),
        }
    }
}

/// The name that the final file ended up with.
pub open spec fn final_name(platform: Platform, task: TaskView) -> Seq<char> {
    match file_name_of(parts(platform, task.file_path)) {
        Some(n) => n,
        None => task.filename,
    }
}

/// The tombstone of a transfer that completed.
pub open spec fn completion_tombstone(
    platform: Platform,
    task: TaskView,
    now: Seq<char>,
    at: Instant,
) -> TombstoneView {
    TombstoneView {
        outcome: OutcomeView::Completed {
            final_filename: final_name(platform, task),
            file_path: task.file_path,
        },
        received_bytes: task.size,
        size: task.size,
        filename: task.filename,
        completed_at: match task.completed_at {
            Some(t) => t,
            None => now,
        },
        created_at: at,
    }
}

/// What recording the completed row does: nothing where it failed; otherwise
/// the task leaves the registry and its tombstone is set.
pub open spec fn promotion_records(
    platform: Platform,
    pre: RegistryView,
    post: RegistryView,
    state: PromoteRecord,
    outcome: Result<(), AppError>,
    clock: Clock,
    next: PromoteNext,
) -> bool {
    match outcome {
        Err(e) => post == pre && promotion_ends(next, Err(e@), None),
        Ok(_) => {
            &&& post == pre.without(state.id@).buried(
                state.id@,
                completion_tombstone(platform, state.task@, clock.iso@, clock.at),
                clock.at,
            )
            &&& next matches PromoteNext::ClearIntent(s) && s.id@ == state.id@ && s.file_path@
                == state.task@.file_path
        },
    }
}

impl PromoteRecord {
    /// The completed row has been recorded, or not. Where it was not, the task
    /// stays in progress and the request may be repeated.
    pub fn recorded(
        self,
        registry: &mut TransferRegistry,
        platform: Platform,
        outcome: Result<(), AppError>,
        clock: &Clock,
    ) -> (next: PromoteNext)
        ensures
            promotion_records(
                platform,
                old(registry)@,
                final(registry)@,
                self,
                outcome,
                *clock,
                next,
            ),
    {
        match outcome {
            Err(e) => PromoteNext::Done { result: Err(e), event: None },
            Ok(()) => {
                let path = LexPath::parse(platform, self.task.file_path.as_str());
                let final_filename = match path.file_name() {
                    Some(n) => n,
                    None => self.task.filename.clone(),
                };
                let completed_at = match &self.task.completed_at {
                    Some(t) => t.clone(),
                    None => clock.iso.clone(),
                };
                let _ = registry.remove(self.id.as_str());
                registry.record_tombstone_at(
                    self.id.as_str(),
                    TransferTombstone {
                        outcome: TransferOutcome::Completed {
                            final_filename,
                            file_path: self.task.file_path.clone(),
                        },
                        received_bytes: self.task.size,
                        size: self.task.size,
                        filename: self.task.filename.clone(),
                        completed_at,
                        created_at: clock.at,
                    },
                    clock.at,
                );
                PromoteNext::ClearIntent(PromoteClear { id: self.id, file_path: self.task.file_path })
            },
        }
    }
}

/// The end of a promotion: the completion is announced.
pub open spec fn promotion_announces(state: PromoteClear, next: PromoteNext) -> bool {
    promotion_ends(
        next,
        Ok(()),
        Some(EventView::Completed { id: state.id@, file_path: Some(state.file_path@) }),
    )
}

impl PromoteClear {
    /// The intent has been dealt with.
    pub fn cleared(self) -> (next: PromoteNext)
        ensures
            promotion_announces(self, next),
    {
        PromoteNext::Done {
            result: Ok(()),
            event: Some(TransferEvent::Completed { id: self.id, file_path: Some(self.file_path) }),
        }
    }
}

// ---------------------------------------------------------------------------
// Finalizing
// ---------------------------------------------------------------------------
/// A file that has taken its final name.
#[derive(Debug)]
pub struct PlacedFile {
    pub final_filename: String,
    pub final_path: String,
}

/// Why a file could not be put in place for good.
#[derive(Debug)]
pub enum PlaceFinalError {
    /// It is not in place.
    Unplaced(AppError),
    /// It is in place, but not yet known to survive a power failure.
    DurabilityPending { placed: PlacedFile, message: String },
}

/// A failed placement is reported as its own error; one that is only pending
/// may be repeated.
impl From<PlaceFinalError> for AppError {
    fn from(value: PlaceFinalError) -> (e: Self) {
        match value {
            PlaceFinalError::Unplaced(err) => err,
            PlaceFinalError::DurabilityPending { message, .. } => AppError::Unavailable(message),
        }
    }
}

impl vstd::std_specs::convert::FromSpecImpl<PlaceFinalError> for AppError {
    open spec fn obeys_from_spec() -> bool {
        true
    }

    open spec fn from_spec(value: PlaceFinalError) -> Self {
        match value {
            PlaceFinalError::Unplaced(err) => err,
            PlaceFinalError::DurabilityPending { message, .. } => AppError::Unavailable(message),
        }
    }
}

/// What comes next in finalizing a received file.
pub enum FinalizeNext {
    /// Hash the temporary file.
    HashTmp(FinalizeHash),
    /// Remove the temporary file; whether that succeeds does not matter.
    RemoveTmp(FinalizeDiscard),
    /// Record the failed row.
    Fail(FinalizeFailing),
    /// Put the file in place.
    Place(FinalizePlace),
    /// Go on with the promotion; its result is the result here.
    Promote(PromoteNext),
    Done { result: Result<(), AppError>, event: Option<TransferEvent> },
}

/// A complete temporary file whose contents are to be hashed.
pub struct FinalizeHash {
    pub id: String,
    pub task: TransferTask,
}

/// A temporary file with wrong contents.
pub struct FinalizeDiscard {
    pub id: String,
    pub tmp_path: String,
    pub error: String,
}

/// A transfer that has failed and is about to be recorded.
pub struct FinalizeFailing {
    pub failing: Failing,
}

/// A file with the right contents that is to be put in place.
pub struct FinalizePlace {
    pub id: String,
    pub receive_dir: String,
    pub safe_filename: String,
    pub tmp_path: String,
    pub task: TransferTask,
}

/// Finalizing ends here with `result`.
pub open spec fn finalizing_ends(
    next: FinalizeNext,
    result: Result<(), AppErrorView>,
    event: Option<EventView>,
) -> bool {
    next matches FinalizeNext::Done { result: r, event: e } && unit(r) == result && opt_event(e) == event
}

/// Finalizing goes on by failing transfer `id` with `error`.
pub open spec fn finalizing_fails(
    pre: RegistryView,
    post: RegistryView,
    id: Seq<char>,
    error: Seq<char>,
    now: Seq<char>,
    next: FinalizeNext,
) -> bool {
    next matches FinalizeNext::Fail(s) && starts_failing(pre, post, id, error, now, s.failing)
}

/// The first step of finalizing `id`. Nothing is done for a task that is not
/// received; a file that is in place already is only promoted.
pub open spec fn finalizing_opens(registry: RegistryView, id: Seq<char>, next: FinalizeNext) -> bool {
    match registry.task(id) {
        None => finalizing_ends(next, Ok(()), None),
        Some(task) => if task.direction != TransferDirection::Receive {
            finalizing_ends(next, Ok(()), None)
        } else if task.status == TransferStatus::Completed {
            next matches FinalizeNext::Promote(p) && promotion_opens(id, task, p)
        } else {
            next matches FinalizeNext::HashTmp(s) && s.id@ == id && s.task@ == task
        },
    }
}

/// Starts finalizing transfer `transfer_id`.
pub fn finalize_transfer(registry: &TransferRegistry, transfer_id: &str) -> (next: FinalizeNext)
    ensures
        finalizing_opens(registry@, transfer_id@, next),
{
    let task = match registry.get(transfer_id) {
        Some(t) => t,
        None => {
            return FinalizeNext::Done { result: Ok(()), event: None };
        },
    };
    if task.direction != TransferDirection::Receive {
        return FinalizeNext::Done { result: Ok(()), event: None };
    }
    if task.status == TransferStatus::Completed {
        return FinalizeNext::Promote(promote_completed_to_durable(transfer_id, &task));
    }
    FinalizeNext::HashTmp(FinalizeHash { id: transfer_id.to_string(), task })
}

/// The step after hashing: wrong contents are removed, an unreadable file or an
/// unsafe name fails the transfer, and the rest is put in place.
pub open spec fn hash_decides(
    platform: Platform,
    pre: RegistryView,
    post: RegistryView,
    state: FinalizeHash,
    sha: Result<String, AppError>,
    receive_dir: Seq<char>,
    clock: Clock,
    next: FinalizeNext,
) -> bool {
    match sha {
        Err(e) => finalizing_fails(
            pre,
            post,
            state.id@,
            "读取临时文件失败: "@ + e@.message(),
            clock.iso@,
            next,
        ),
        Ok(actual) => if actual@ != state.task@.sha256 {
            &&& post == pre
            &&& next matches FinalizeNext::RemoveTmp(s) && s.id@ == state.id@ && s.tmp_path@
                == state.task@.file_path && s.error@ == "SHA256 校验失败: 期望="@ + state.task@.sha256
                + ", 实际="@ + actual@
        } else {
            match sanitized(platform, state.task@.filename, "filename"@) {
                Err(e) => finalizing_fails(
                    pre,
                    post,
                    state.id@,
                    "非法文件名: "@ + e.message(),
                    clock.iso@,
                    next,
                ),
                Ok(name) => {
                    &&& post == pre
                    &&& next matches FinalizeNext::Place(s) && s.id@ == state.id@ && s.receive_dir@
                        == receive_dir && s.safe_filename@ == name && s.tmp_path@
                        == state.task@.file_path && s.task@ == state.task@ && safe_name(
                        platform,
                        name,
                    )
                },
            }
        },
    }
}

impl FinalizeHash {
    /// The temporary file has been hashed, or could not be.
    pub fn hashed(
        self,
        registry: &mut TransferRegistry,
        platform: Platform,
        sha: Result<String, AppError>,
        receive_dir: &str,
        clock: &Clock,
    ) -> (next: FinalizeNext)
        ensures
            hash_decides(
                platform,
                old(registry)@,
                final(registry)@,
                self,
                sha,
                receive_dir@,
                *clock,
                next,
            ),
    {
        let actual = match sha {
            Ok(h) => h,
            Err(e) => {
                let m = e.message();
                let error = join2("读取临时文件失败: ", m.as_str());
                let failing = Failing::begin(registry, self.id.as_str(), error, clock.iso.clone());
                return FinalizeNext::Fail(FinalizeFailing { failing });
            },
        };
        if !same(actual.as_str(), self.task.sha256.as_str()) {
            let error = join4(
                "SHA256 校验失败: 期望=",
                self.task.sha256.as_str(),
                ", 实际=",
                actual.as_str(),
            );
            return FinalizeNext::RemoveTmp(
                FinalizeDiscard { id: self.id, tmp_path: self.task.file_path, error },
            );
        }
        match sanitize_receive_basename(platform, self.task.filename.as_str(), "filename") {
            Err(e) => {
                let m = e.message();
                let error = join2("非法文件名: ", m.as_str());
                let failing = Failing::begin(registry, self.id.as_str(), error, clock.iso.clone());
                FinalizeNext::Fail(FinalizeFailing { failing })
            },
            Ok(safe_filename) => FinalizeNext::Place(
                FinalizePlace {
                    id: self.id,
                    receive_dir: receive_dir.to_string(),
                    safe_filename,
                    tmp_path: self.task.file_path.clone(),
                    task: self.task,
                },
            ),
        }
    }
}

impl FinalizeDiscard {
    /// The temporary file has been removed, as far as that was possible.
    pub fn discarded(self, registry: &mut TransferRegistry, clock: &Clock) -> (next: FinalizeNext)
        ensures
            finalizing_fails(
                old(registry)@,
                final(registry)@,
                self.id@,
                self.error@,
                clock.iso@,
                next,
            ),
    {
        let failing = Failing::begin(registry, self.id.as_str(), self.error, clock.iso.clone());
        FinalizeNext::Fail(FinalizeFailing { failing })
    }
}

/// The end of finalizing once the failed row was handed to history. A failed
/// transfer is settled: finalizing itself succeeds.
pub open spec fn finalizing_failed(
    pre: RegistryView,
    post: RegistryView,
    failing: Failing,
    at: Instant,
    next: FinalizeNext,
) -> bool {
    &&& post == after_failure(pre, failing, at)
    &&& finalizing_ends(
        next,
        Ok(()),
        Some(EventView::Failed { id: failing.id@, error_message: failing.error@ }),
    )
}

impl FinalizeFailing {
    /// The failed row has been handed to history.
    pub fn recorded(self, registry: &mut TransferRegistry, at: Instant) -> (next: FinalizeNext)
        ensures
            finalizing_failed(old(registry)@, final(registry)@, self.failing, at, next),
    {
        let event = self.failing.recorded(registry, at);
        FinalizeNext::Done { result: Ok(()), event: Some(event) }
    }
}

/// The step after placement. A file that is in place is never failed: the task
/// is marked completed, stays in progress, and is promoted now or on request.
pub open spec fn placement_decides(
    pre: RegistryView,
    post: RegistryView,
    state: FinalizePlace,
    outcome: Result<PlacedFile, PlaceFinalError>,
    clock: Clock,
    next: FinalizeNext,
) -> bool {
    let id = state.id@;
    match outcome {
        Err(PlaceFinalError::DurabilityPending { placed, message }) => {
            &&& post == pre.completed(id, clock.iso@, Some(placed.final_path@))
            &&& finalizing_ends(
                next,
                Err(
                    AppErrorView::Unavailable(
                        "最终文件已落地但 durability 未完成，请重试 complete: "@ + id + ": "@ + message@,
                    ),
                ),
                None,
            )
        },
        Err(PlaceFinalError::Unplaced(e)) => finalizing_fails(
            pre,
            post,
            id,
            "原子落盘失败: "@ + e@.message(),
            clock.iso@,
            next,
        ),
        Ok(placed) => {
            &&& post == pre.completed(id, clock.iso@, Some(placed.final_path@))
            &&& match post.task(id) {
                None => finalizing_ends(
                    next,
                    Err(
                        AppErrorView::Generic(
                            "落盘后丢失 active 任务，无法写入 transfer_history: "@ + id,
                        ),
                    ),
                    None,
                ),
                Some(task) => next matches FinalizeNext::Promote(p) && promotion_opens(id, task, p),
            }
        },
    }
}

impl FinalizePlace {
    /// The file has been put in place, or not.
    pub fn placed(
        self,
        registry: &mut TransferRegistry,
        outcome: Result<PlacedFile, PlaceFinalError>,
        clock: &Clock,
    ) -> (next: FinalizeNext)
        ensures
            placement_decides(old(registry)@, final(registry)@, self, outcome, *clock, next),
    {
        match outcome {
            Ok(placed) => {
                registry.mark_completed(
                    self.id.as_str(),
                    clock.iso.clone(),
                    Some(placed.final_path),
                );
                match registry.get(self.id.as_str()) {
                    Some(task) => FinalizeNext::Promote(
                        promote_completed_to_durable(self.id.as_str(), &task),
                    ),
                    None => FinalizeNext::Done {
                        result: Err(
                            AppError::generic(
                                join2(
                                    "落盘后丢失 active 任务，无法写入 transfer_history: ",
                                    self.id.as_str(),
                                ),
                            ),
                        ),
                        event: None,
                    },
                }
            },
            Err(PlaceFinalError::DurabilityPending { placed, message }) => {
                registry.mark_completed(
                    self.id.as_str(),
                    clock.iso.clone(),
                    Some(placed.final_path),
                );
                FinalizeNext::Done {
                    result: Err(
                        AppError::unavailable(
                            join4(
                                "最终文件已落地但 durability 未完成，请重试 complete: ",
                                self.id.as_str(),
                                ": ",
                                message.as_str(),
                            ),
                        ),
                    ),
                    event: None,
                }
            },
            Err(PlaceFinalError::Unplaced(e)) => {
                let m = e.message();
                let error = join2("原子落盘失败: ", m.as_str());
                let failing = Failing::begin(registry, self.id.as_str(), error, clock.iso.clone());
                FinalizeNext::Fail(FinalizeFailing { failing })
            },
        }
    }
}

} // verus!

//! Serving `init`: accept a file, or say why not, and where to go on from.
use std::time::Instant;
use tokio_util::sync::CancellationToken;
use vstd::prelude::*;

use crate::clock::Clock;
use crate::error::{AppError, AppErrorView};
use crate::ident::{is_random_uuid, new_transfer_id};
use crate::platform::Platform;
use crate::receiver::resume::{ended_receive, is_ended_receive, replay_view, row_view};
use crate::receiver::validation::{
    describes, init_metadata_matches, opt_str, receive_tmp_path, safe_name,
    sanitize_receive_basename, sanitized, tmp_path,
};
use crate::receiver::{ChunkResp, InitMeta, InitResp, InitRespView};
use crate::registry::{RegistryView, TransferRegistry};
use crate::task::{first_attempt, TaskView, TransferDirection, TransferStatus, TransferTask};
use crate::text::{decimal, decimal_of, join3, join5};

verus! {

broadcast use vstd::string::group_string_axioms;

/// What comes next in serving `init`.
pub enum InitNext {
    /// Take the size of the file of a task that is in progress, following links.
    ProbeLen(InitProbe),
    /// Look the transfer up in history.
    LookupHistory(InitHistory),
    /// Recover the transfer from its intent.
    Recover(InitRecover),
    /// Measure the temporary file, without following links.
    MeasureTmp(InitMeasure),
    /// Remove a temporary file that is too long, whether or not that succeeds.
    RemoveTmp(InitDiscard),
    Reply(Result<InitResp, AppError>),
}

/// A request with its names cleaned. The next step is made with the lock of
/// `transfer_id` held.
pub struct InitRequest {
    pub transfer_id: String,
    pub safe_filename: String,
    pub meta: InitMeta,
}

/// A request for a task that is already in progress.
pub struct InitProbe {
    pub transfer_id: String,
    pub file_path: String,
    pub transferred_bytes: u64,
}

/// A request for a transfer that this process does not know.
pub struct InitHistory {
    pub request: InitRequest,
}

/// A request for a transfer that history does not know to have ended.
pub struct InitRecover {
    pub request: InitRequest,
}

/// A request whose temporary file is to be measured.
pub struct InitMeasure {
    pub request: InitRequest,
    pub tmp_path: String,
}

/// A request whose temporary file is longer than the file itself.
pub struct InitDiscard {
    pub tmp_path: String,
    pub len: u64,
    pub size: u64,
}

/// What an answer to `init`, or the error in its place, says.
pub open spec fn init_view(r: Result<InitResp, AppError>) -> Result<InitRespView, AppErrorView> {
    match r {
        Ok(x) => Ok(x@),
        Err(e) => Err(e@),
    }
}

/// The request is answered with `reply`.
pub open spec fn init_replies(next: InitNext, reply: Result<InitRespView, AppErrorView>) -> bool {
    next matches InitNext::Reply(r) && init_view(r) == reply
}

/// A conflict over transfer `id`.
pub open spec fn conflict_over(id: Seq<char>, why: Seq<char>) -> AppErrorView {
    AppErrorView::Conflict("transfer_id `"@ + id + why)
}

fn refuse(id: &str, why: &str) -> (next: InitNext)
    ensures
        init_replies(next, Err(conflict_over(id@, why@))),
{
    InitNext::Reply(Err(AppError::conflict(join3("transfer_id `", id, why))))
}

/// The id that the request is served under: the one it names, cleaned, or a
/// fresh one.
pub open spec fn accepts_names(
    platform: Platform,
    meta: InitMeta,
    request: Result<InitRequest, AppError>,
) -> bool {
    match sanitized(platform, meta.filename@, "filename"@) {
        Err(e) => request matches Err(x) && x@ == e,
        Ok(filename) => match meta.transfer_id {
            Some(id) => match sanitized(platform, id@, "transfer_id"@) {
                Err(e) => request matches Err(x) && x@ == e,
                Ok(clean) => request matches Ok(r) && r.transfer_id@ == clean && r.safe_filename@
                    == filename && r.meta == meta && safe_name(platform, clean),
            },
            None => request matches Ok(r) && is_random_uuid(r.transfer_id@) && safe_name(
                platform,
                r.transfer_id@,
            ) && r.safe_filename@ == filename && r.meta == meta,
        },
    }
}

/// Starts serving `init`, the receive directory being there.
pub fn handle_init(platform: Platform, meta: InitMeta) -> (request: Result<InitRequest, AppError>)
    ensures
        accepts_names(platform, meta, request),
{
    let safe_filename = match sanitize_receive_basename(platform, meta.filename.as_str(), "filename") {
        Ok(name) => name,
        Err(e) => {
            return Err(e);
        },
    };
    let transfer_id = match &meta.transfer_id {
        Some(id) => match sanitize_receive_basename(platform, id.as_str(), "transfer_id") {
            Ok(id) => id,
            Err(e) => {
                return Err(e);
            },
        },
        None => new_transfer_id(),
    };
    Ok(InitRequest { transfer_id, safe_filename, meta })
}

/// The step made with the lock held. A task in progress is neither overwritten
/// nor taken over: only the same file, being received, is accepted again. A
/// transfer that has ended is not opened again.
pub open spec fn init_opens(
    pre: RegistryView,
    post: RegistryView,
    request: InitRequest,
    at: Instant,
    next: InitNext,
) -> bool {
    let id = request.transfer_id@;
    match pre.task(id) {
        Some(task) => {
            &&& post == pre
            &&& if task.direction != TransferDirection::Receive {
                init_replies(next, Err(conflict_over(id, "` 属于发送任务，拒绝作为接收 init 目标"@)))
            } else if describes(task, request.meta, request.safe_filename@) {
                next matches InitNext::ProbeLen(s) && s.transfer_id@ == id && s.file_path@
                    == task.file_path && s.transferred_bytes == task.transferred_bytes
            } else {
                init_replies(
                    next,
                    Err(conflict_over(id, "` 已存在且元数据不一致，拒绝覆盖活跃传输"@)),
                )
            }
        },
        None => {
            &&& post == pre.pruned(at)
            &&& match pre.standing(id, at) {
                Some(_) => init_replies(
                    next,
                    Err(conflict_over(id, "` 已终态完成，拒绝重新 init"@)),
                ),
                None => next matches InitNext::LookupHistory(s) && s.request == request,
            }
        },
    }
}

impl InitRequest {
    /// The lock of the transfer is held.
    pub fn locked(self, registry: &mut TransferRegistry, at: Instant) -> (next: InitNext)
        ensures
            init_opens(old(registry)@, final(registry)@, self, at, next),
    {
        if let Some(existing) = registry.get(self.transfer_id.as_str()) {
            if existing.direction != TransferDirection::Receive {
                return refuse(self.transfer_id.as_str(), "` 属于发送任务，拒绝作为接收 init 目标");
            }
            if init_metadata_matches(&existing, &self.meta, self.safe_filename.as_str()) {
                return InitNext::ProbeLen(
                    InitProbe {
                        transfer_id: self.transfer_id,
                        file_path: existing.file_path,
                        transferred_bytes: existing.transferred_bytes,
                    },
                );
            }
            return refuse(self.transfer_id.as_str(), "` 已存在且元数据不一致，拒绝覆盖活跃传输");
        }
        if registry.tombstone_at(self.transfer_id.as_str(), at).is_some() {
            return refuse(self.transfer_id.as_str(), "` 已终态完成，拒绝重新 init");
        }
        InitNext::LookupHistory(InitHistory { request: self })
    }
}

/// The answer for a task in progress whose file has been sized, or could not be:
/// the peer goes on from the larger of its length and what is known to have
/// arrived.
pub open spec fn probing_answers(state: InitProbe, len: Option<u64>, next: InitNext) -> bool {
    init_replies(
        next,
        Ok(
            InitRespView {
                transfer_id: state.transfer_id@,
                accepted: true,
                resume_offset: if len is Some && len->0 > state.transferred_bytes {
                    len->0
                } else {
                    state.transferred_bytes
                },
            },
        ),
    )
}

impl InitProbe {
    /// The file has been sized, or could not be.
    pub fn probed(self, len: Option<u64>) -> (next: InitNext)
        ensures
            probing_answers(self, len, next),
    {
        let resume_offset: u64 = match len {
            Some(n) => if n > self.transferred_bytes {
                n
            } else {
                self.transferred_bytes
            },
            None => self.transferred_bytes,
        };
        InitNext::Reply(
            Ok(InitResp { transfer_id: self.transfer_id, accepted: true, resume_offset }),
        )
    }
}

/// The step after the transfer was looked up in history: one that has ended is not
/// opened again.
pub open spec fn init_looks_up(
    state: InitHistory,
    row: Result<Option<TaskView>, AppErrorView>,
    next: InitNext,
) -> bool {
    match row {
        Err(e) => init_replies(next, Err(e)),
        Ok(t) => if t is Some && ended_receive(t->0) {
            init_replies(
                next,
                Err(
                    conflict_over(
                        state.request.transfer_id@,
                        "` 已在 transfer_history 终态，拒绝重新 init"@,
                    ),
                ),
            )
        } else {
            next matches InitNext::Recover(s) && s.request == state.request
        },
    }
}

impl InitHistory {
    /// The transfer has been looked up in history.
    pub fn looked_up(self, row: Result<Option<TransferTask>, AppError>) -> (next: InitNext)
        ensures
            init_looks_up(self, row_view(row), next),
    {
        match row {
            Err(e) => InitNext::Reply(Err(e)),
            Ok(t) => {
                if let Some(hist) = &t {
                    if is_ended_receive(hist) {
                        return refuse(
                            self.request.transfer_id.as_str(),
                            "` 已在 transfer_history 终态，拒绝重新 init",
                        );
                    }
                }
                InitNext::Recover(InitRecover { request: self.request })
            },
        }
    }
}

/// The step after the recovery: a transfer that was recovered is not opened
/// again; for another the temporary file is found.
pub open spec fn init_recovers(
    platform: Platform,
    request: InitRequest,
    outcome: Result<Option<ChunkResp>, AppError>,
    receive_dir: Seq<char>,
    canonical_dir: Option<Seq<char>>,
    canonical_parent: Option<Seq<char>>,
    next: InitNext,
) -> bool {
    match replay_view(outcome) {
        Err(e) => init_replies(next, Err(e)),
        Ok(Some(_)) => init_replies(
            next,
            Err(
                conflict_over(
                    request.transfer_id@,
                    "` 已从 finalize intent 恢复终态，拒绝重新 init"@,
                ),
            ),
        ),
        Ok(None) => match tmp_path(
            platform,
            receive_dir,
            request.transfer_id@,
            canonical_dir,
            canonical_parent,
        ) {
            Err(e) => init_replies(next, Err(e)),
            Ok(path) => next matches InitNext::MeasureTmp(s) && s.request == request && s.tmp_path@
                == path,
        },
    }
}

impl InitRecover {
    /// The recovery has ended with `outcome`; `canonical_dir` and
    /// `canonical_parent` are the receive directory, and the parent of the
    /// temporary file, as resolved.
    pub fn recovered(
        self,
        platform: Platform,
        outcome: Result<Option<ChunkResp>, AppError>,
        receive_dir: &str,
        canonical_dir: Option<&str>,
        canonical_parent: Option<&str>,
    ) -> (next: InitNext)
        ensures
            init_recovers(
                platform,
                self.request,
                outcome,
                receive_dir@,
                opt_str(canonical_dir),
                opt_str(canonical_parent),
                next,
            ),
    {
        match outcome {
            Err(e) => InitNext::Reply(Err(e)),
            Ok(Some(_)) => refuse(
                self.request.transfer_id.as_str(),
                "` 已从 finalize intent 恢复终态，拒绝重新 init",
            ),
            Ok(None) => match receive_tmp_path(
                platform,
                receive_dir,
                self.request.transfer_id.as_str(),
                canonical_dir,
                canonical_parent,
            ) {
                Err(e) => InitNext::Reply(Err(e)),
                Ok(tmp_path) => InitNext::MeasureTmp(
                    InitMeasure { request: self.request, tmp_path },
                ),
            },
        }
    }
}

/// The task that receives the file of `request`, `resume_offset` bytes of it
/// being there.
pub open spec fn accepted_task(
    request: InitRequest,
    tmp_path: Seq<char>,
    resume_offset: u64,
    now: Seq<char>,
) -> TaskView {
    TaskView {
        filename: request.safe_filename@,
        file_path: tmp_path,
        size: request.meta.size,
        sha256: request.meta.sha256@,
        chunk_size: request.meta.chunk_size,
        direction: TransferDirection::Receive,
        transferred_bytes: resume_offset,
        created_at: now,
        ..first_attempt(request.transfer_id@)
    }
}

/// Where a transfer goes on from: the end of its temporary file.
pub open spec fn resume_offset(measured: Option<u64>) -> u64 {
    match measured {
        Some(len) => len,
        None => 0,
    }
}

/// The step after measuring: a temporary file longer than the file is thrown
/// away; otherwise the transfer is put in progress from where it stopped.
pub open spec fn init_accepts(
    pre: RegistryView,
    post: RegistryView,
    state: InitMeasure,
    measured: Result<Option<u64>, AppError>,
    clock: Clock,
    next: InitNext,
) -> bool {
    let request = state.request;
    match measured {
        Err(e) => post == pre && init_replies(next, Err(e@)),
        Ok(m) => {
            let offset = resume_offset(m);
            if offset > request.meta.size {
                &&& post == pre
                &&& next matches InitNext::RemoveTmp(s) && s.tmp_path@ == state.tmp_path@ && s.len
                    == offset && s.size == request.meta.size
            } else {
                &&& exists|token: CancellationToken|
                    post == #[trigger] pre.added(
                        accepted_task(request, state.tmp_path@, offset, clock.iso@),
                        token,
                    )
                &&& init_replies(
                    next,
                    Ok(
                        InitRespView {
                            transfer_id: request.transfer_id@,
                            accepted: true,
                            resume_offset: offset,
                        },
                    ),
                )
            }
        },
    }
}

impl InitMeasure {
    /// The temporary file has been measured; `None` where there is none.
    pub fn measured(
        self,
        registry: &mut TransferRegistry,
        measured: Result<Option<u64>, AppError>,
        clock: &Clock,
    ) -> (next: InitNext)
        ensures
            init_accepts(old(registry)@, final(registry)@, self, measured, *clock, next),
    {
        let resume_offset: u64 = match measured {
            Err(e) => {
                return InitNext::Reply(Err(e));
            },
            Ok(Some(len)) => len,
            Ok(None) => 0,
        };
        if resume_offset > self.request.meta.size {
            return InitNext::RemoveTmp(
                InitDiscard {
                    tmp_path: self.tmp_path,
                    len: resume_offset,
                    size: self.request.meta.size,
                },
            );
        }
        let task = TransferTask {
            id: self.request.transfer_id.clone(),
            filename: self.request.safe_filename.clone(),
            file_path: self.tmp_path.clone(),
            size: self.request.meta.size,
            sha256: self.request.meta.sha256.clone(),
            chunk_size: self.request.meta.chunk_size,
            direction: TransferDirection::Receive,
            peer_device_id: String::new(),
            status: TransferStatus::Pending,
            transferred_bytes: resume_offset,
            created_at: clock.iso.clone(),
            completed_at: None,
            ..TransferTask::recovery_defaults(self.request.transfer_id.as_str())
        };
        assert(task@ == accepted_task(self.request, self.tmp_path@, resume_offset, clock.iso@));
        registry.add(task);
        InitNext::Reply(
            Ok(
                InitResp {
                    transfer_id: self.request.transfer_id,
                    accepted: true,
                    resume_offset,
                },
            ),
        )
    }
}

/// The answer once a temporary file that is too long was thrown away: the peer has
/// to start again.
pub open spec fn discarding_answers(state: InitDiscard, next: InitNext) -> bool {
    init_replies(
        next,
        Err(
            AppErrorView::Validation(
                "临时文件长度 "@ + decimal(state.len as nat) + " 超过声明 size "@ + decimal(
                    state.size as nat,
                ) + "，已删除损坏断点，请重新发起传输"@,
            ),
        ),
    )
}

impl InitDiscard {
    /// The temporary file has been removed, as far as that was possible.
    pub fn discarded(self) -> (next: InitNext)
        ensures
            discarding_answers(self, next),
    {
        let len = decimal_of(self.len);
        let size = decimal_of(self.size);
        InitNext::Reply(
            Err(
                AppError::validation(
                    join5(
                        "临时文件长度 ",
                        len.as_str(),
                        " 超过声明 size ",
                        size.as_str(),
                        "，已删除损坏断点，请重新发起传输",
                    ),
                ),
            ),
        )
    }
}

} // verus!

//! One sending attempt: find the peer, announce the file, send it chunk by
//! chunk, and agree on its end.
use tokio_util::sync::CancellationToken;
use vstd::prelude::*;

use crate::error::{AppError, AppErrorView};
use crate::event::{EventView, TransferEvent};
use crate::ident::{is_random_uuid, new_transfer_id};
use crate::paths::{file_name_of, parts, LexPath};
use crate::peer::{url_of, InitReply, PeerAddress};
use crate::platform::Platform;
use crate::receiver::InitMeta;
use crate::registry::{RegistryView, TransferRegistry};
use crate::sender::complete::{
    cancel_sending, commit_sender_completed_outcome, completed_snapshot, fail_transfer,
    finalize_send_with_peer, leaves, park_uncertain_finalize, parked, AgreeNext, CommitCompleted,
    FinalizeOutcome, FinalizeOutcomeView, Leaving,
};
use crate::task::{
    first_attempt, opt_task, FailureView, Progress, TaskView, TransferDirection, TransferFailureStage,
    TransferPhase, TransferStatus, TransferTask,
};
use crate::text::{decimal, decimal_of, join2, join4};
use crate::CHUNK_SIZE;

verus! {

broadcast use vstd::string::group_string_axioms;

// ---------------------------------------------------------------------------
// Starting an attempt
// ---------------------------------------------------------------------------
/// What an attempt needs to know.
pub struct SendJob {
    /// The id of the task on this device.
    pub transfer_id: String,
    /// The id under which the peer knows the transfer.
    pub wire_id: String,
    pub device_id: String,
    pub file_path: String,
    pub file_size: u64,
    pub sha256: String,
    pub cancel: CancellationToken,
}

/// The id under which the peer knows the transfer of `task`.
pub open spec fn wire_id_of(task: TaskView) -> Seq<char> {
    if task.protocol_transfer_id.len() == 0 {
        task.id
    } else {
        task.protocol_transfer_id
    }
}

/// The id under which the peer knows the transfer of `task`.
pub fn wire_id(task: &TransferTask) -> (id: String)
    ensures
        id@ == wire_id_of(task@),
{
    if task.protocol_transfer_id.as_str().is_empty() {
        task.id.clone()
    } else {
        task.protocol_transfer_id.clone()
    }
}

/// `job` sends the file of `task`, which has been put in progress.
pub open spec fn starts(
    pre: RegistryView,
    post: RegistryView,
    task: TaskView,
    file_size: u64,
    sha256: Seq<char>,
    job: SendJob,
) -> bool {
    &&& post == pre.added(task, job.cancel)
    &&& job.transfer_id@ == task.id
    &&& job.wire_id@ == wire_id_of(task)
    &&& job.device_id@ == task.peer_device_id
    &&& job.file_path@ == task.file_path
    &&& job.file_size == file_size
    &&& job.sha256@ == sha256
}

/// Puts `task` in progress and prepares to send it.
pub fn spawn_claimed_send(
    registry: &mut TransferRegistry,
    task: TransferTask,
    file_size: u64,
    sha256: String,
) -> (job: SendJob)
    ensures
        starts(old(registry)@, final(registry)@, task@, file_size, sha256@, job),
{
    let transfer_id = task.id.clone();
    let wire = wire_id(&task);
    let device_id = task.peer_device_id.clone();
    let file_path = task.file_path.clone();
    registry.add(task);
    let cancel = match registry.cancel_token(transfer_id.as_str()) {
        Some(token) => token,
        None => CancellationToken::new(),
    };
    SendJob { transfer_id, wire_id: wire, device_id, file_path, file_size, sha256, cancel }
}

/// What was found of a source file.
pub enum SourceFacts {
    Missing,
    /// It could not be measured or hashed.
    Failed(AppError),
    Found { size: u64, sha256: String },
}

/// The name under which a source file is offered.
pub open spec fn offered_name(
    platform: Platform,
    file_path: Seq<char>,
    fallback: Seq<char>,
) -> Seq<char> {
    match file_name_of(parts(platform, file_path)) {
        Some(n) => n,
        None => fallback,
    }
}

fn offered(platform: Platform, file_path: &str, fallback: &str) -> (name: String)
    ensures
        name@ == offered_name(platform, file_path@, fallback@),
{
    match LexPath::parse(platform, file_path).file_name() {
        Some(n) => n,
        None => fallback.to_string(),
    }
}

/// The task of a first attempt to send a file.
pub open spec fn first_send(
    platform: Platform,
    id: Seq<char>,
    device_id: Seq<char>,
    file_path: Seq<char>,
    size: u64,
    sha256: Seq<char>,
    now: Seq<char>,
) -> TaskView {
    TaskView {
        filename: offered_name(platform, file_path, "file"@),
        file_path,
        size,
        sha256,
        direction: TransferDirection::Send,
        peer_device_id: device_id,
        created_at: now,
        ..first_attempt(id)
    }
}

/// What comes of starting to send a file: a task under a fresh id is put in
/// progress, for a file that is there and can be read.
pub open spec fn sending_starts(
    pre: RegistryView,
    post: RegistryView,
    platform: Platform,
    device_id: Seq<char>,
    file_path: Seq<char>,
    source: SourceFacts,
    now: Seq<char>,
    job: Result<SendJob, AppError>,
) -> bool {
    match source {
        SourceFacts::Missing => post == pre && (job matches Err(e) && e@ == AppErrorView::NotFound(
            "文件不存在: "@ + file_path,
        )),
        SourceFacts::Failed(why) => post == pre && (job matches Err(e) && e@ == why@),
        SourceFacts::Found { size, sha256 } => job matches Ok(j) && is_random_uuid(j.transfer_id@)
            && starts(
            pre,
            post,
            first_send(platform, j.transfer_id@, device_id, file_path, size, sha256@, now),
            size,
            sha256@,
            j,
        ) && j.wire_id@ == j.transfer_id@,
    }
}

/// Starts to send a file.
pub fn start_sending(
    registry: &mut TransferRegistry,
    platform: Platform,
    device_id: String,
    file_path: String,
    source: SourceFacts,
    now: String,
) -> (job: Result<SendJob, AppError>)
    ensures
        sending_starts(
            old(registry)@,
            final(registry)@,
            platform,
            device_id@,
            file_path@,
            source,
            now@,
            job,
        ),
{
    match source {
        SourceFacts::Missing => Err(
            AppError::not_found(join2("文件不存在: ", file_path.as_str())),
        ),
        SourceFacts::Failed(e) => Err(e),
        SourceFacts::Found { size, sha256 } => {
            let transfer_id = new_transfer_id();
            let filename = offered(platform, file_path.as_str(), "file");
            let task = TransferTask {
                id: transfer_id.clone(),
                filename,
                file_path,
                size,
                sha256: sha256.clone(),
                chunk_size: CHUNK_SIZE as u64,
                direction: TransferDirection::Send,
                peer_device_id: device_id,
                status: TransferStatus::Pending,
                transferred_bytes: 0,
                created_at: now,
                completed_at: None,
                ..TransferTask::recovery_defaults(transfer_id.as_str())
            };
            Ok(spawn_claimed_send(registry, task, size, sha256))
        },
    }
}

// ---------------------------------------------------------------------------
// Sending chunks
// ---------------------------------------------------------------------------
/// How sending the chunks ended early.
#[derive(Debug)]
pub enum SendError {
    Cancelled,
    Failed(String),
}

/// What the end of sending the chunks says.
pub enum SendErrorView {
    Cancelled,
    Failed(Seq<char>),
}

/// What the end of sending the chunks says.
pub open spec fn sent_view(r: Result<(), SendError>) -> Result<(), SendErrorView> {
    match r {
        Ok(()) => Ok(()),
        Err(SendError::Cancelled) => Err(SendErrorView::Cancelled),
        Err(SendError::Failed(m)) => Err(SendErrorView::Failed(m@)),
    }
}

/// Where the sending of a file stands: everything before `offset` has been sent
/// or was there before.
pub struct ChunkCursor {
    pub transfer_id: String,
    pub file_size: u64,
    pub offset: u64,
}

/// What comes next in sending the chunks of a file.
pub enum ChunksNext {
    /// Open the source file.
    Open(ChunksOpen),
    /// Move to the offset in the source file.
    Seek(ChunksSeek),
    /// See whether the attempt has been cancelled, then go on.
    Check(ChunksCheck),
    /// Read up to `want` bytes.
    Read(ChunksRead),
    /// Send the bytes that were read to the peer.
    Send(ChunksSend),
    Done(Result<(), SendError>),
}

/// A source file that is to be opened.
pub struct ChunksOpen {
    pub cursor: ChunkCursor,
}

/// A source file that is not to be read from its start.
pub struct ChunksSeek {
    pub cursor: ChunkCursor,
}

/// A place between two chunks.
pub struct ChunksCheck {
    pub cursor: ChunkCursor,
}

/// A chunk that is to be read.
pub struct ChunksRead {
    pub cursor: ChunkCursor,
    pub want: u64,
}

/// A chunk that is to be sent.
pub struct ChunksSend {
    pub cursor: ChunkCursor,
    pub len: u64,
}

/// Sending the chunks ends here.
pub open spec fn sending_ends(next: ChunksNext, result: Result<(), SendErrorView>) -> bool {
    next matches ChunksNext::Done(r) && sent_view(r) == result
}

fn stop(prefix: &str, reason: &str) -> (next: ChunksNext)
    ensures
        sending_ends(next, Err(SendErrorView::Failed(prefix@ + reason@))),
{
    ChunksNext::Done(Err(SendError::Failed(join2(prefix, reason))))
}

/// The first step of sending a file from `resume_offset` on.
pub open spec fn chunks_start(
    transfer_id: Seq<char>,
    file_size: u64,
    resume_offset: u64,
    next: ChunksNext,
) -> bool {
    next matches ChunksNext::Open(s) && s.cursor.transfer_id@ == transfer_id && s.cursor.file_size
        == file_size && s.cursor.offset == resume_offset
}

/// Starts to send a file from `resume_offset` on.
pub fn send_file_chunks(transfer_id: &str, file_size: u64, resume_offset: u64) -> (next: ChunksNext)
    ensures
        chunks_start(transfer_id@, file_size, resume_offset, next),
{
    ChunksNext::Open(
        ChunksOpen {
            cursor: ChunkCursor {
                transfer_id: transfer_id.to_string(),
                file_size,
                offset: resume_offset,
            },
        },
    )
}

/// The step after the source file was opened, or could not be.
pub open spec fn source_opened(
    cursor: ChunkCursor,
    outcome: Result<(), String>,
    next: ChunksNext,
) -> bool {
    match outcome {
        Err(e) => sending_ends(next, Err(SendErrorView::Failed("打开文件失败: "@ + e@))),
        Ok(_) => if cursor.offset > 0 {
            next matches ChunksNext::Seek(s) && s.cursor == cursor
        } else {
            next matches ChunksNext::Check(s) && s.cursor == cursor
        },
    }
}

impl ChunksOpen {
    /// The source file has been opened, or could not be.
    pub fn opened(self, outcome: Result<(), String>) -> (next: ChunksNext)
        ensures
            source_opened(self.cursor, outcome, next),
    {
        match outcome {
            Err(e) => stop("打开文件失败: ", e.as_str()),
            Ok(()) => if self.cursor.offset > 0 {
                ChunksNext::Seek(ChunksSeek { cursor: self.cursor })
            } else {
                ChunksNext::Check(ChunksCheck { cursor: self.cursor })
            },
        }
    }
}

/// The step after the offset was moved to, or could not be.
pub open spec fn source_moved(
    cursor: ChunkCursor,
    outcome: Result<(), String>,
    next: ChunksNext,
) -> bool {
    match outcome {
        Err(e) => sending_ends(next, Err(SendErrorView::Failed("文件 seek 失败: "@ + e@))),
        Ok(_) => next matches ChunksNext::Check(s) && s.cursor == cursor,
    }
}

impl ChunksSeek {
    /// The offset has been moved to, or could not be.
    pub fn moved(self, outcome: Result<(), String>) -> (next: ChunksNext)
        ensures
            source_moved(self.cursor, outcome, next),
    {
        match outcome {
            Err(e) => stop("文件 seek 失败: ", e.as_str()),
            Ok(()) => ChunksNext::Check(ChunksCheck { cursor: self.cursor }),
        }
    }
}

/// How many bytes the next chunk should have: a full chunk, or what is left.
pub open spec fn wanted(cursor: ChunkCursor) -> u64 {
    if cursor.file_size - cursor.offset > CHUNK_SIZE {
        CHUNK_SIZE as u64
    } else {
        (cursor.file_size - cursor.offset) as u64
    }
}

/// The step between two chunks: at the end of the file the sending is done, and
/// an attempt that was cancelled goes no further.
pub open spec fn goes_on(cursor: ChunkCursor, cancelled: bool, next: ChunksNext) -> bool {
    if cursor.offset >= cursor.file_size {
        sending_ends(next, Ok(()))
    } else if cancelled {
        sending_ends(next, Err(SendErrorView::Cancelled))
    } else {
        next matches ChunksNext::Read(s) && s.cursor == cursor && s.want == wanted(cursor) && 0 < s.want
            <= CHUNK_SIZE
    }
}

impl ChunksCheck {
    /// The switch of the attempt has been read.
    pub fn checked(self, cancelled: bool) -> (next: ChunksNext)
        ensures
            goes_on(self.cursor, cancelled, next),
    {
        if self.cursor.offset >= self.cursor.file_size {
            return ChunksNext::Done(Ok(()));
        }
        if cancelled {
            return ChunksNext::Done(Err(SendError::Cancelled));
        }
        let remaining: u64 = self.cursor.file_size - self.cursor.offset;
        let want: u64 = if remaining > CHUNK_SIZE as u64 {
            CHUNK_SIZE as u64
        } else {
            remaining
        };
        ChunksNext::Read(ChunksRead { cursor: self.cursor, want })
    }

    /// Reads the switch of the attempt and goes on. The switch may be turned at
    /// any time: what is stated holds for either position.
    pub fn check(self, cancel: &CancellationToken) -> (next: ChunksNext)
        ensures
            exists|cancelled: bool| #[trigger] goes_on(self.cursor, cancelled, next),
    {
        let cancelled = cancel.is_cancelled();
        self.checked(cancelled)
    }
}

/// The step after some bytes were read, none at the end of the file, or reading
/// failed.
pub open spec fn source_read(
    cursor: ChunkCursor,
    outcome: Result<u64, String>,
    next: ChunksNext,
) -> bool {
    match outcome {
        Err(e) => sending_ends(next, Err(SendErrorView::Failed("读取文件失败: "@ + e@))),
        Ok(n) => if n == 0 {
            sending_ends(next, Ok(()))
        } else {
            next matches ChunksNext::Send(s) && s.cursor == cursor && s.len == n
        },
    }
}

impl ChunksRead {
    /// Some bytes have been read, none at the end of the file, or reading failed.
    /// A read never gives more than was asked for.
    pub fn read(self, outcome: Result<u64, String>) -> (next: ChunksNext)
        ensures
            source_read(self.cursor, outcome, next),
    {
        match outcome {
            Err(e) => stop("读取文件失败: ", e.as_str()),
            Ok(n) => if n == 0 {
                ChunksNext::Done(Ok(()))
            } else {
                ChunksNext::Send(ChunksSend { cursor: self.cursor, len: n })
            },
        }
    }
}

/// The step after a chunk was sent: only a chunk that the peer took advances the
/// cursor, by exactly its length, and its progress is recorded.
pub open spec fn chunk_taken(
    pre: RegistryView,
    post: RegistryView,
    state: ChunksSend,
    answer: Result<bool, String>,
    event: Option<EventView>,
    next: ChunksNext,
) -> bool {
    let cursor = state.cursor;
    let moved = (cursor.offset + state.len) as u64;
    match answer {
        Err(e) => post == pre && event is None && sending_ends(
            next,
            Err(SendErrorView::Failed("发送数据块失败: "@ + e@)),
        ),
        Ok(false) => post == pre && event is None && sending_ends(
            next,
            Err(SendErrorView::Failed("对端写入数据块失败"@)),
        ),
        Ok(true) => {
            &&& post == pre.progressed(cursor.transfer_id@, moved, TransferStatus::Transferring)
            &&& event == Some(progress_event(cursor.transfer_id@, moved, cursor.file_size))
            &&& next matches ChunksNext::Check(s) && s.cursor.transfer_id@ == cursor.transfer_id@
                && s.cursor.file_size == cursor.file_size && s.cursor.offset == moved
        },
    }
}

/// The announcement of progress.
pub open spec fn progress_event(id: Seq<char>, moved: u64, size: u64) -> EventView {
    EventView::Progress {
        id,
        transferred_bytes: moved,
        progress: Progress { done: moved, total: size },
    }
}

/// Announces progress.
pub fn emit_progress(id: &str, transferred: u64, size: u64) -> (event: TransferEvent)
    ensures
        event@ == progress_event(id@, transferred, size),
{
    TransferEvent::Progress {
        id: id.to_string(),
        transferred_bytes: transferred,
        progress: Progress { done: transferred, total: size },
    }
}

impl ChunksSend {
    /// The peer has answered, or the call failed.
    pub fn answered(self, registry: &mut TransferRegistry, answer: Result<bool, String>) -> (step: (
        ChunksNext,
        Option<TransferEvent>,
    ))
        requires
            self.cursor.offset + self.len <= u64::MAX,
        ensures
            chunk_taken(
                old(registry)@,
                final(registry)@,
                self,
                answer,
                crate::event::opt_event(step.1),
                step.0,
            ),
    {
        match answer {
            Err(e) => (stop("发送数据块失败: ", e.as_str()), None),
            Ok(false) => (
                ChunksNext::Done(Err(SendError::Failed("对端写入数据块失败".to_string()))),
                None,
            ),
            Ok(true) => {
                let cursor = self.cursor;
                let offset: u64 = cursor.offset + self.len;
                registry.update_progress(
                    cursor.transfer_id.as_str(),
                    offset,
                    TransferStatus::Transferring,
                );
                let event = emit_progress(cursor.transfer_id.as_str(), offset, cursor.file_size);
                let next = ChunkCursor {
                    transfer_id: cursor.transfer_id,
                    file_size: cursor.file_size,
                    offset,
                };
                (ChunksNext::Check(ChunksCheck { cursor: next }), Some(event))
            },
        }
    }
}

// ---------------------------------------------------------------------------
// The attempt
// ---------------------------------------------------------------------------
/// What comes next in an attempt.
pub enum SendNext {
    /// Look the peer up among the devices.
    FindPeer(SendPeer),
    /// Announce the file to the peer.
    CallInit(SendInit),
    /// Announce the progress, then send the chunks.
    SendChunks(SendChunks),
    /// Record the row, whether or not that succeeds, then agree with the peer.
    RecordFinalizing(SendFinalizing),
    /// Agree with the peer on the end.
    Agree(SendAgree),
    /// Record the completed row.
    Commit(CommitCompleted),
    /// Record the row, whether or not that succeeds; the task then leaves.
    Leave(Leaving),
    /// Record the row, if there is one, whether or not that succeeds.
    Park(Option<TransferTask>),
    Done,
}

/// An attempt whose peer is to be found.
pub struct SendPeer {
    pub job: SendJob,
}

/// An attempt whose file is to be announced.
pub struct SendInit {
    pub job: SendJob,
    pub base_url: String,
    pub meta: InitMeta,
}

/// An attempt whose chunks are to be sent.
pub struct SendChunks {
    pub job: SendJob,
    pub base_url: String,
    pub resume_offset: u64,
    pub progress: TransferEvent,
}

/// An attempt whose chunks have been sent.
pub struct SendFinalizing {
    pub job: SendJob,
    pub base_url: String,
    pub resume_offset: u64,
    pub row: Option<TransferTask>,
}

/// An attempt whose end is to be agreed on.
pub struct SendAgree {
    pub job: SendJob,
    pub base_url: String,
    pub agreement: AgreeNext,
}

/// The attempt ends by failing the task.
pub open spec fn attempt_fails(
    pre: RegistryView,
    post: RegistryView,
    id: Seq<char>,
    message: Seq<char>,
    stage: TransferFailureStage,
    code: Seq<char>,
    now: Seq<char>,
    next: SendNext,
) -> bool {
    next matches SendNext::Leave(l) && leaves(
        post,
        id,
        pre.failed_with(id, now, FailureView { stage, code, retryable: true, message }),
        EventView::Failed { id, error_message: message },
        l,
    )
}

/// The first step of an attempt.
pub open spec fn attempt_starts(
    pre: RegistryView,
    post: RegistryView,
    job: SendJob,
    next: SendNext,
) -> bool {
    &&& post == pre.in_phase(job.transfer_id@, TransferPhase::Connecting)
    &&& next matches SendNext::FindPeer(s) && s.job == job
}

/// Starts an attempt.
pub fn run_send_loop(registry: &mut TransferRegistry, job: SendJob) -> (next: SendNext)
    ensures
        attempt_starts(old(registry)@, final(registry)@, job, next),
{
    registry.set_phase(job.transfer_id.as_str(), TransferPhase::Connecting);
    SendNext::FindPeer(SendPeer { job })
}

/// What is announced of the file of `job`.
pub open spec fn announces(platform: Platform, job: SendJob, meta: InitMeta) -> bool {
    &&& meta.transfer_id is Some && meta.transfer_id->0@ == job.wire_id@
    &&& meta.filename@ == offered_name(platform, job.file_path@, ""@)
    &&& meta.size == job.file_size
    &&& meta.sha256@ == job.sha256@
    &&& meta.chunk_size == CHUNK_SIZE
}

/// The step after the peer was looked up: one that is gone fails the attempt, and
/// the file is announced to any other.
pub open spec fn peer_found(
    pre: RegistryView,
    post: RegistryView,
    platform: Platform,
    job: SendJob,
    address: Option<PeerAddress>,
    now: Seq<char>,
    next: SendNext,
) -> bool {
    match address {
        None => attempt_fails(
            pre,
            post,
            job.transfer_id@,
            "对端设备不存在或离线: "@ + job.device_id@,
            TransferFailureStage::Connect,
            "peer_offline"@,
            now,
            next,
        ),
        Some(a) => post == pre && (next matches SendNext::CallInit(s) && s.job == job && s.base_url@
            == url_of(a) && announces(platform, job, s.meta)),
    }
}

impl SendPeer {
    /// The peer has been looked up.
    pub fn found(
        self,
        registry: &mut TransferRegistry,
        platform: Platform,
        address: Option<PeerAddress>,
        now: &str,
    ) -> (next: SendNext)
        ensures
            peer_found(
                old(registry)@,
                final(registry)@,
                platform,
                self.job,
                address,
                now@,
                next,
            ),
    {
        match address {
            None => {
                let message = join2("对端设备不存在或离线: ", self.job.device_id.as_str());
                SendNext::Leave(
                    fail_transfer(
                        registry,
                        self.job.transfer_id.as_str(),
                        message,
                        TransferFailureStage::Connect,
                        "peer_offline",
                        true,
                        now,
                    ),
                )
            },
            Some(a) => {
                let base_url = a.base_url();
                let meta = InitMeta {
                    transfer_id: Some(self.job.wire_id.clone()),
                    filename: offered(platform, self.job.file_path.as_str(), ""),
                    size: self.job.file_size,
                    sha256: self.job.sha256.clone(),
                    chunk_size: CHUNK_SIZE as u64,
                };
                SendNext::CallInit(SendInit { job: self.job, base_url, meta })
            },
        }
    }
}

/// Where the peer wants the file from, if it says so.
pub open spec fn asked_offset(reply: InitReply) -> u64 {
    match reply.resume_offset {
        Some(n) => n,
        None => 0,
    }
}

/// The step after the announcement: a peer that cannot be reached, refuses, or
/// asks for an offset beyond the file fails the attempt; otherwise the chunks are
/// sent from that offset on.
pub open spec fn announcement_answered(
    pre: RegistryView,
    post: RegistryView,
    state: SendInit,
    answer: Result<InitReply, String>,
    now: Seq<char>,
    next: SendNext,
) -> bool {
    let job = state.job;
    let id = job.transfer_id@;
    match answer {
        Err(e) => attempt_fails(
            pre,
            post,
            id,
            "连接对端失败: "@ + e@,
            TransferFailureStage::Connect,
            "peer_unreachable"@,
            now,
            next,
        ),
        Ok(reply) => if reply.accepted != Some(true) {
            attempt_fails(
                pre,
                post,
                id,
                match reply.error {
                    Some(e) => e@,
                    None => "对端拒绝接收文件"@,
                },
                TransferFailureStage::Connect,
                "peer_rejected"@,
                now,
                next,
            )
        } else if asked_offset(reply) > job.file_size {
            attempt_fails(
                pre,
                post,
                id,
                "对端 resume_offset="@ + decimal(asked_offset(reply) as nat) + " 超过本机文件大小 "@
                    + decimal(job.file_size as nat),
                TransferFailureStage::Protocol,
                "invalid_resume_offset"@,
                now,
                next,
            )
        } else {
            let offset = asked_offset(reply);
            &&& post == pre.progressed(id, offset, TransferStatus::Transferring).in_phase(
                id,
                TransferPhase::Transferring,
            )
            &&& next matches SendNext::SendChunks(s) && s.job == job && s.base_url == state.base_url
                && s.resume_offset == offset && s.progress@ == progress_event(id, offset, job.file_size)
        },
    }
}

impl SendInit {
    /// The peer has answered the announcement, or could not be reached.
    pub fn answered(
        self,
        registry: &mut TransferRegistry,
        answer: Result<InitReply, String>,
        now: &str,
    ) -> (next: SendNext)
        ensures
            announcement_answered(old(registry)@, final(registry)@, self, answer, now@, next),
    {
        let id = self.job.transfer_id.clone();
        let reply = match answer {
            Ok(r) => r,
            Err(e) => {
                let message = join2("连接对端失败: ", e.as_str());
                return SendNext::Leave(
                    fail_transfer(
                        registry,
                        id.as_str(),
                        message,
                        TransferFailureStage::Connect,
                        "peer_unreachable",
                        true,
                        now,
                    ),
                );
            },
        };
        let accepted = match reply.accepted {
            Some(a) => a,
            None => false,
        };
        if !accepted {
            let message = match reply.error {
                Some(e) => e,
                None => "对端拒绝接收文件".to_string(),
            };
            return SendNext::Leave(
                fail_transfer(
                    registry,
                    id.as_str(),
                    message,
                    TransferFailureStage::Connect,
                    "peer_rejected",
                    true,
                    now,
                ),
            );
        }
        let resume_offset: u64 = match reply.resume_offset {
            Some(n) => n,
            None => 0,
        };
        if resume_offset > self.job.file_size {
            let asked = decimal_of(resume_offset);
            let size = decimal_of(self.job.file_size);
            let message = join4(
                "对端 resume_offset=",
                asked.as_str(),
                " 超过本机文件大小 ",
                size.as_str(),
            );
            return SendNext::Leave(
                fail_transfer(
                    registry,
                    id.as_str(),
                    message,
                    TransferFailureStage::Protocol,
                    "invalid_resume_offset",
                    true,
                    now,
                ),
            );
        }
        registry.update_progress(id.as_str(), resume_offset, TransferStatus::Transferring);
        registry.set_phase(id.as_str(), TransferPhase::Transferring);
        let progress = emit_progress(id.as_str(), resume_offset, self.job.file_size);
        SendNext::SendChunks(
            SendChunks { job: self.job, base_url: self.base_url, resume_offset, progress },
        )
    }
}

/// The step after the chunks: a failure fails the task, a cancelled attempt
/// cancels it, and otherwise the end is to be agreed on.
pub open spec fn chunks_done(
    pre: RegistryView,
    post: RegistryView,
    state: SendChunks,
    outcome: Result<(), SendError>,
    cancelled: bool,
    now: Seq<char>,
    next: SendNext,
) -> bool {
    let id = state.job.transfer_id@;
    if sent_view(outcome) == Err::<(), SendErrorView>(SendErrorView::Cancelled) || (outcome is Ok
        && cancelled) {
        next matches SendNext::Leave(l) && leaves(
            post,
            id,
            pre.cancelled(id, now),
            EventView::Cancelled { id },
            l,
        )
    } else {
        match sent_view(outcome) {
            Err(SendErrorView::Failed(message)) => attempt_fails(
                pre,
                post,
                id,
                message,
                TransferFailureStage::Transfer,
                "chunk_failed"@,
                now,
                next,
            ),
            _ => {
                &&& post == pre.in_phase(id, TransferPhase::Finalizing)
                &&& next matches SendNext::RecordFinalizing(s) && s.job == state.job && s.base_url
                    == state.base_url && s.resume_offset == state.resume_offset && opt_task(s.row)
                    == post.task(id)
            },
        }
    }
}

impl SendChunks {
    /// Sending the chunks has ended; `cancelled` is the position of the switch.
    pub fn sent_with(
        self,
        registry: &mut TransferRegistry,
        outcome: Result<(), SendError>,
        cancelled: bool,
        now: &str,
    ) -> (next: SendNext)
        ensures
            chunks_done(
                old(registry)@,
                final(registry)@,
                self,
                outcome,
                cancelled,
                now@,
                next,
            ),
    {
        let id = self.job.transfer_id.clone();
        match outcome {
            Err(SendError::Cancelled) => SendNext::Leave(
                cancel_sending(registry, id.as_str(), now),
            ),
            Err(SendError::Failed(message)) => SendNext::Leave(
                fail_transfer(
                    registry,
                    id.as_str(),
                    message,
                    TransferFailureStage::Transfer,
                    "chunk_failed",
                    true,
                    now,
                ),
            ),
            Ok(()) => {
                if cancelled {
                    return SendNext::Leave(cancel_sending(registry, id.as_str(), now));
                }
                registry.set_phase(id.as_str(), TransferPhase::Finalizing);
                let row = registry.get(id.as_str());
                SendNext::RecordFinalizing(
                    SendFinalizing {
                        job: self.job,
                        base_url: self.base_url,
                        resume_offset: self.resume_offset,
                        row,
                    },
                )
            },
        }
    }

    /// Sending the chunks has ended. The switch is read inside: what is stated
    /// holds for either position.
    pub fn sent(
        self,
        registry: &mut TransferRegistry,
        outcome: Result<(), SendError>,
        now: &str,
    ) -> (next: SendNext)
        ensures
            exists|cancelled: bool| #[trigger]
                chunks_done(
                    old(registry)@,
                    final(registry)@,
                    self,
                    outcome,
                    cancelled,
                    now@,
                    next,
                ),
    {
        let cancelled = self.job.cancel.is_cancelled();
        self.sent_with(registry, outcome, cancelled, now)
    }
}

/// The step after the row was handed to history: on to the agreement.
pub open spec fn agreement_starts(state: SendFinalizing, next: SendNext) -> bool {
    next matches SendNext::Agree(s) && s.job == state.job && s.base_url == state.base_url && (
    s.agreement matches AgreeNext::ProbeHealth(p) && p.file_size == state.job.file_size
        && p.resume_offset == state.resume_offset)
}

impl SendFinalizing {
    /// The row has been handed to history.
    pub fn recorded(self) -> (next: SendNext)
        ensures
            agreement_starts(self, next),
    {
        let agreement = finalize_send_with_peer(self.job.file_size, self.resume_offset);
        SendNext::Agree(SendAgree { job: self.job, base_url: self.base_url, agreement })
    }
}

/// The step after the agreement: success completes the task, a failure fails it,
/// and an outcome that is not known parks it.
pub open spec fn attempt_settles(
    pre: RegistryView,
    post: RegistryView,
    id: Seq<char>,
    outcome: FinalizeOutcomeView,
    now: Seq<char>,
    next: SendNext,
) -> bool {
    match outcome {
        FinalizeOutcomeView::Succeeded => match pre.task(id) {
            Some(task) => {
                &&& post == pre.completed(id, now, None)
                &&& next matches SendNext::Commit(c) && c.id@ == id && c.snapshot@ == completed_snapshot(
                    task,
                    task,
                    now,
                )
            },
            None => post == pre && next is Done,
        },
        FinalizeOutcomeView::DefinitiveFailure { message, code } => attempt_fails(
            pre,
            post,
            id,
            message,
            TransferFailureStage::Finalize,
            code,
            now,
            next,
        ),
        FinalizeOutcomeView::Uncertain { message } => {
            &&& post == parked(pre, id)
            &&& next matches SendNext::Park(row) && opt_task(row) == post.task(id)
        },
    }
}

/// The agreement on transfer `id` has ended with `outcome`.
pub fn agreed(registry: &mut TransferRegistry, id: &str, outcome: FinalizeOutcome, now: &str) -> (next:
    SendNext)
    ensures
        attempt_settles(old(registry)@, final(registry)@, id@, outcome@, now@, next),
{
    match outcome {
        FinalizeOutcome::Succeeded => match registry.get(id) {
            Some(t) => SendNext::Commit(commit_sender_completed_outcome(registry, &t, now)),
            None => SendNext::Done,
        },
        FinalizeOutcome::DefinitiveFailure { message, code } => SendNext::Leave(
            fail_transfer(
                registry,
                id,
                message,
                TransferFailureStage::Finalize,
                code.as_str(),
                true,
                now,
            ),
        ),
        FinalizeOutcome::Uncertain { .. } => SendNext::Park(park_uncertain_finalize(registry, id)),
    }
}

// ---------------------------------------------------------------------------
// Laws
// ---------------------------------------------------------------------------
/// The chunks of a file are sent without a gap and without an overlap, none is
/// empty or larger than allowed, and none reaches beyond the end: from a place
/// within the file, a chunk that was read and taken leads to a later place within
/// the file, exactly where the chunk ended.
pub proof fn chunks_tile_the_file(
    cursor: ChunkCursor,
    cancelled: bool,
    reading: ChunksNext,
    len: u64,
    pre: RegistryView,
    post: RegistryView,
    state: ChunksSend,
    event: Option<EventView>,
    next: ChunksNext,
)
    requires
        cursor.offset <= cursor.file_size,
        goes_on(cursor, cancelled, reading),
        reading matches ChunksNext::Read(r) && 0 < len <= r.want && state.cursor == r.cursor,
        state.len == len,
        chunk_taken(pre, post, state, Ok::<bool, String>(true), event, next),
    ensures
        len <= CHUNK_SIZE,
        next matches ChunksNext::Check(c) && c.cursor.offset == cursor.offset + len && c.cursor.offset
            <= c.cursor.file_size && c.cursor.file_size == cursor.file_size,
{
}

/// A task whose outcome is not known is never failed and never leaves: it stays
/// in progress and can be asked for.
pub proof fn an_unknown_outcome_keeps_the_task(
    pre: RegistryView,
    post: RegistryView,
    id: Seq<char>,
    message: Seq<char>,
    now: Seq<char>,
    next: SendNext,
)
    requires
        attempt_settles(pre, post, id, FinalizeOutcomeView::Uncertain { message }, now, next),
        pre.task(id) is Some,
    ensures
        next is Park,
        post.task(id) is Some,
        post.tasks[id].status == TransferStatus::Transferring,
        post.tasks[id].failure == pre.tasks[id].failure,
{
}

} // verus!

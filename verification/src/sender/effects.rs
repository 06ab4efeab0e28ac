//! What each step of a sending attempt does: to its task, to the others, and in
//! what it hands to the peer.
use vstd::prelude::*;

use crate::error::{AppError, AppErrorView};
use crate::event::{EventView, TransferEvent};
use crate::ident::is_random_uuid;
use crate::paths::{file_name_of, parts};
use crate::peer::{InitReply, PeerAddress, PeerCallError, PeerProtocolInfo, StatusReply};
use crate::platform::Platform;
use crate::registry::{
    an_end_is_recorded_as_told, only_records, others_kept, progress_is_recorded_as_told,
    registering_touches_one_id, same_attempt, RegistryView,
};
use crate::sender::complete::{
    completion_decides, completion_marked, completion_recorded, has_left, health_decides, parked,
    AgreeNext, AgreeProbe, CommitCompleted, FinalizeOutcomeView, Leaving,
};
use crate::sender::operation::{
    answer_for, answer_for_any, operation_known, operation_looked_up, operation_opens,
    reconcile_opens, settled_answer, settling_peer_found, settling_recorded, status_answered,
    OperationNext, ReconcileNext, ReconcilePeer,
};
use crate::sender::send::{
    agreement_starts, announcement_answered, attempt_fails, attempt_settles, attempt_starts,
    chunk_taken, chunks_done, chunks_start, goes_on, peer_found, sending_starts, source_moved,
    source_opened, source_read, starts, ChunkCursor, ChunksNext, ChunksSend, SendChunks, SendError,
    SendInit, SendJob, SendNext, SourceFacts,
};
use crate::task::{
    FailureView, OperationView, TaskView, TransferDirection, TransferFailureStage, TransferPhase,
    TransferStatus,
};
use crate::text::decimal;
use crate::CHUNK_SIZE;

verus! {

broadcast use vstd::string::group_string_axioms;

// ---------------------------------------------------------------------------
// Starting
// ---------------------------------------------------------------------------
/// `job` runs `task`, which was put in progress under a switch that `job` holds;
/// nothing else has changed.
pub open spec fn runs(
    before: RegistryView,
    after: RegistryView,
    task: TaskView,
    size: u64,
    sha256: Seq<char>,
    job: SendJob,
) -> bool {
    &&& others_kept(before, after, task.id)
    &&& after.tasks.contains_key(task.id) && after.tasks[task.id] == task
    &&& after.tokens.contains_key(task.id) && after.tokens[task.id] == job.cancel
    &&& job.transfer_id@ == task.id
    &&& task.protocol_transfer_id.len() > 0 ==> job.wire_id@ == task.protocol_transfer_id
    &&& task.protocol_transfer_id.len() == 0 ==> job.wire_id@ == task.id
    &&& job.device_id@ == task.peer_device_id
    &&& job.file_path@ == task.file_path
    &&& job.file_size == size
    &&& job.sha256@ == sha256
}

/// A job that is started runs its task: towards the task's peer, from the task's
/// file, under the id that the peer knows, with the size and hash that were found.
pub proof fn a_started_job_runs_its_task(
    before: RegistryView,
    after: RegistryView,
    task: TaskView,
    size: u64,
    sha256: Seq<char>,
    job: SendJob,
)
    requires
        starts(before, after, task, size, sha256, job),
    ensures
        runs(before, after, task, size, sha256, job),
{
    registering_touches_one_id(before, task, job.cancel, task.id);
}

/// A file that is there is sent as it was found, to the device that was named,
/// under a fresh id and the name it has; a file that is not there, or cannot be
/// read, is not, and nothing is put in progress.
pub proof fn a_file_is_sent_as_it_was_found(
    before: RegistryView,
    after: RegistryView,
    platform: Platform,
    device_id: Seq<char>,
    file_path: Seq<char>,
    source: SourceFacts,
    now: Seq<char>,
    job: Result<SendJob, AppError>,
)
    requires
        sending_starts(before, after, platform, device_id, file_path, source, now, job),
    ensures
        source is Missing ==> after == before && (job matches Err(e) && e@ == AppErrorView::NotFound(
            "文件不存在: "@ + file_path,
        )),
        source matches SourceFacts::Failed(why) ==> after == before && (job matches Err(e) && e@
            == why@),
        source matches SourceFacts::Found { size, sha256 } ==> (job matches Ok(j) && ({
            let id = j.transfer_id@;
            let task = after.tasks[id];
            &&& is_random_uuid(id) && j.wire_id@ == id
            &&& j.device_id@ == device_id && j.file_path@ == file_path
            &&& j.file_size == size && j.sha256@ == sha256@
            &&& others_kept(before, after, id)
            &&& after.tasks.contains_key(id) && after.tokens.contains_key(id) && after.tokens[id]
                == j.cancel
            &&& task.id == id && task.file_path == file_path && task.size == size && task.sha256
                == sha256@
            &&& file_name_of(parts(platform, file_path)) matches Some(n) ==> task.filename == n
            &&& file_name_of(parts(platform, file_path)) is None ==> task.filename == "file"@
            &&& task.chunk_size == CHUNK_SIZE && task.direction == TransferDirection::Send
            &&& task.peer_device_id == device_id && task.status == TransferStatus::Pending
            &&& task.transferred_bytes == 0 && task.created_at == now && task.completed_at is None
            &&& task.phase is None && task.failure is None && task.attempt == 1
            &&& task.logical_transfer_id == id && task.attempt_id == id && task.protocol_transfer_id
                == id
            &&& task.client_operation_id is None && task.operation_payload_hash is None
        })),
{
    if let SourceFacts::Found { size, sha256 } = source {
        let j = job->Ok_0;
        let id = j.transfer_id@;
        assert(after.tasks.remove(id) =~= before.tasks.remove(id));
        assert(after.tokens.remove(id) =~= before.tokens.remove(id));
    }
}

// ---------------------------------------------------------------------------
// Failing
// ---------------------------------------------------------------------------
/// The task under `id` has failed at `stage` with `code` and `message`, may be
/// taken up again, keeps what had moved, and is on its way out with that row and
/// the announcement of that failure; nothing else has changed.
pub open spec fn failed_as(
    before: RegistryView,
    after: RegistryView,
    id: Seq<char>,
    stage: TransferFailureStage,
    code: Seq<char>,
    message: Seq<char>,
    now: Seq<char>,
    next: SendNext,
) -> bool {
    next matches SendNext::Leave(l) && ({
        let was = before.tasks[id];
        let is = after.tasks[id];
        &&& l.id@ == id
        &&& l.event@ == (EventView::Failed { id, error_message: message })
        &&& before.tasks.contains_key(id) ==> {
            &&& only_records(before, after, id)
            &&& is.status == TransferStatus::Failed && is.phase == Some(TransferPhase::Failed)
            &&& is.failure == Some(FailureView { stage, code, retryable: true, message })
            &&& is.completed_at == Some(now)
            &&& is.transferred_bytes == was.transferred_bytes && is.file_path == was.file_path
            &&& same_attempt(is, was)
            &&& l.row matches Some(row) && row@ == is
        }
        &&& !before.tasks.contains_key(id) ==> after == before && l.row is None
    })
}

proof fn failing_records_the_failure(
    before: RegistryView,
    after: RegistryView,
    id: Seq<char>,
    message: Seq<char>,
    stage: TransferFailureStage,
    code: Seq<char>,
    now: Seq<char>,
    next: SendNext,
)
    requires
        attempt_fails(before, after, id, message, stage, code, now, next),
    ensures
        failed_as(before, after, id, stage, code, message, now, next),
{
    if before.tasks.contains_key(id) {
        an_end_is_recorded_as_told(
            before,
            id,
            now,
            now,
            FailureView { stage, code, retryable: true, message },
        );
    }
}

/// A task that has left is not in progress any more, and what was to be announced
/// of it is announced.
pub proof fn a_task_that_left_is_announced(
    before: RegistryView,
    after: RegistryView,
    leaving: Leaving,
    event: TransferEvent,
)
    requires
        has_left(before, after, leaving, event),
    ensures
        !after.tasks.contains_key(leaving.id@) && !after.tokens.contains_key(leaving.id@),
        others_kept(before, after, leaving.id@),
        event@ == leaving.event@,
{
    registering_touches_one_id(
        before,
        before.tasks[leaving.id@],
        before.tokens[leaving.id@],
        leaving.id@,
    );
}

// ---------------------------------------------------------------------------
// Announcing the file
// ---------------------------------------------------------------------------
/// An attempt starts with finding its peer, and only its phase is recorded.
pub proof fn an_attempt_starts_with_its_peer(
    before: RegistryView,
    after: RegistryView,
    job: SendJob,
    next: SendNext,
)
    requires
        attempt_starts(before, after, job, next),
    ensures
        next matches SendNext::FindPeer(s) && s.job == job,
        before.tasks.contains_key(job.transfer_id@) ==> ({
            let was = before.tasks[job.transfer_id@];
            let is = after.tasks[job.transfer_id@];
            &&& only_records(before, after, job.transfer_id@)
            &&& is.phase == Some(TransferPhase::Connecting)
            &&& is.status == was.status && is.transferred_bytes == was.transferred_bytes
            &&& is.file_path == was.file_path && same_attempt(is, was)
            &&& is.failure == was.failure && is.completed_at == was.completed_at
        }),
        !before.tasks.contains_key(job.transfer_id@) ==> after == before,
{
    if before.tasks.contains_key(job.transfer_id@) {
        progress_is_recorded_as_told(
            before,
            job.transfer_id@,
            0,
            TransferStatus::Pending,
            TransferPhase::Connecting,
        );
    }
}

/// The peer that is found is told of the file as it is, under the id that it knows
/// the transfer by, at its own address. A peer that is gone fails the attempt.
pub proof fn a_found_peer_is_told_of_the_file(
    before: RegistryView,
    after: RegistryView,
    platform: Platform,
    job: SendJob,
    address: Option<PeerAddress>,
    now: Seq<char>,
    next: SendNext,
)
    requires
        peer_found(before, after, platform, job, address, now, next),
    ensures
        address matches Some(a) ==> after == before && (next matches SendNext::CallInit(s) && s.job == job
            && s.base_url@ == "http://"@ + a.host@ + ":"@ + decimal(a.port as nat) && (
        s.meta.transfer_id matches Some(id) && id@ == job.wire_id@) && s.meta.size == job.file_size
            && s.meta.sha256@ == job.sha256@ && s.meta.chunk_size == CHUNK_SIZE && (file_name_of(
            parts(platform, job.file_path@),
        ) matches Some(n) ==> s.meta.filename@ == n) && (file_name_of(
            parts(platform, job.file_path@),
        ) is None ==> s.meta.filename@ == ""@)),
        address is None ==> failed_as(
            before,
            after,
            job.transfer_id@,
            TransferFailureStage::Connect,
            "peer_offline"@,
            "对端设备不存在或离线: "@ + job.device_id@,
            now,
            next,
        ),
{
    if address is None {
        failing_records_the_failure(
            before,
            after,
            job.transfer_id@,
            "对端设备不存在或离线: "@ + job.device_id@,
            TransferFailureStage::Connect,
            "peer_offline"@,
            now,
            next,
        );
    }
}

/// What is announced of a file that was just put in progress is what its task
/// says: the same name, size, hash and chunk size, under the task's own id.
pub proof fn what_is_announced_is_what_is_sent(
    before: RegistryView,
    started: RegistryView,
    platform: Platform,
    device_id: Seq<char>,
    file_path: Seq<char>,
    source: SourceFacts,
    now: Seq<char>,
    job: SendJob,
    address: PeerAddress,
    later: Seq<char>,
    after: RegistryView,
    next: SendNext,
)
    requires
        sending_starts(
            before,
            started,
            platform,
            device_id,
            file_path,
            source,
            now,
            Ok::<SendJob, AppError>(job),
        ),
        peer_found(started, after, platform, job, Some(address), later, next),
        file_name_of(parts(platform, file_path)) is Some,
    ensures
        next matches SendNext::CallInit(s) && ({
            let task = started.tasks[job.transfer_id@];
            &&& s.meta.transfer_id matches Some(id) && id@ == task.id
            &&& s.meta.filename@ == task.filename
            &&& s.meta.size == task.size
            &&& s.meta.sha256@ == task.sha256
            &&& s.meta.chunk_size == task.chunk_size
            &&& s.job.device_id@ == task.peer_device_id && s.job.file_path@ == task.file_path
        }),
{
}

/// An announcement that is accepted is followed from exactly where the peer says,
/// or from the start where it says nothing: so many bytes are recorded and
/// announced as moved, and sending goes on from there. A place beyond the end of
/// the file, a refusal, and a call that failed, each fail the attempt.
pub proof fn sending_goes_on_from_exactly_where_the_peer_says(
    before: RegistryView,
    after: RegistryView,
    state: SendInit,
    answer: Result<InitReply, String>,
    now: Seq<char>,
    next: SendNext,
)
    requires
        announcement_answered(before, after, state, answer, now, next),
    ensures
        next is SendChunks <==> (answer matches Ok(reply) && reply.accepted == Some(true) && (
        reply.resume_offset matches Some(n) ==> n <= state.job.file_size)),
        next matches SendNext::SendChunks(s) ==> (answer matches Ok(reply) && ({
            let id = state.job.transfer_id@;
            let was = before.tasks[id];
            let is = after.tasks[id];
            &&& s.job == state.job && s.base_url == state.base_url
            &&& reply.resume_offset matches Some(n) ==> s.resume_offset == n
            &&& reply.resume_offset is None ==> s.resume_offset == 0
            &&& s.progress@ matches EventView::Progress { id: told, transferred_bytes, progress }
                && told == id && transferred_bytes == s.resume_offset && progress.done
                == s.resume_offset && progress.total == state.job.file_size
            &&& before.tasks.contains_key(id) ==> {
                &&& only_records(before, after, id)
                &&& is.transferred_bytes == s.resume_offset
                &&& is.status == TransferStatus::Transferring
                &&& is.phase == Some(TransferPhase::Transferring)
                &&& is.file_path == was.file_path && same_attempt(is, was)
                &&& is.failure == was.failure && is.completed_at == was.completed_at
            }
            &&& !before.tasks.contains_key(id) ==> after == before
        })),
        answer matches Err(e) ==> failed_as(
            before,
            after,
            state.job.transfer_id@,
            TransferFailureStage::Connect,
            "peer_unreachable"@,
            "连接对端失败: "@ + e@,
            now,
            next,
        ),
        answer matches Ok(reply) ==> (reply.accepted != Some(true) ==> failed_as(
            before,
            after,
            state.job.transfer_id@,
            TransferFailureStage::Connect,
            "peer_rejected"@,
            match reply.error {
                Some(e) => e@,
                None => "对端拒绝接收文件"@,
            },
            now,
            next,
        )),
        answer matches Ok(reply) ==> (reply.accepted == Some(true) ==> (
        reply.resume_offset matches Some(n) ==> (n > state.job.file_size ==> failed_as(
            before,
            after,
            state.job.transfer_id@,
            TransferFailureStage::Protocol,
            "invalid_resume_offset"@,
            "对端 resume_offset="@ + decimal(n as nat) + " 超过本机文件大小 "@ + decimal(
                state.job.file_size as nat,
            ),
            now,
            next,
        )))),
{
    let id = state.job.transfer_id@;
    match answer {
        Err(e) => {
            failing_records_the_failure(
                before,
                after,
                id,
                "连接对端失败: "@ + e@,
                TransferFailureStage::Connect,
                "peer_unreachable"@,
                now,
                next,
            );
        },
        Ok(reply) => {
            if reply.accepted != Some(true) {
                failing_records_the_failure(
                    before,
                    after,
                    id,
                    match reply.error {
                        Some(e) => e@,
                        None => "对端拒绝接收文件"@,
                    },
                    TransferFailureStage::Connect,
                    "peer_rejected"@,
                    now,
                    next,
                );
            } else {
                let n = match reply.resume_offset {
                    Some(n) => n,
                    None => 0,
                };
                if n > state.job.file_size {
                    failing_records_the_failure(
                        before,
                        after,
                        id,
                        "对端 resume_offset="@ + decimal(n as nat) + " 超过本机文件大小 "@ + decimal(
                            state.job.file_size as nat,
                        ),
                        TransferFailureStage::Protocol,
                        "invalid_resume_offset"@,
                        now,
                        next,
                    );
                } else if before.tasks.contains_key(id) {
                    let moved = before.progressed(id, n, TransferStatus::Transferring);
                    progress_is_recorded_as_told(
                        before,
                        id,
                        n,
                        TransferStatus::Transferring,
                        TransferPhase::Transferring,
                    );
                    progress_is_recorded_as_told(
                        moved,
                        id,
                        n,
                        TransferStatus::Transferring,
                        TransferPhase::Transferring,
                    );
                }
            }
        },
    }
}

// ---------------------------------------------------------------------------
// Sending the chunks
// ---------------------------------------------------------------------------
/// Sending starts at the offset that it is given: the file is opened, and moved to
/// the offset where that is not its beginning. A file that cannot be opened or
/// moved in ends it.
pub proof fn chunks_start_where_they_are_told(
    transfer_id: Seq<char>,
    file_size: u64,
    resume_offset: u64,
    begun: ChunksNext,
    open_outcome: Result<(), String>,
    opened: ChunksNext,
    seek_outcome: Result<(), String>,
    moved: ChunksNext,
)
    requires
        chunks_start(transfer_id, file_size, resume_offset, begun),
        begun matches ChunksNext::Open(o) ==> source_opened(o.cursor, open_outcome, opened),
        opened matches ChunksNext::Seek(s) ==> source_moved(s.cursor, seek_outcome, moved),
    ensures
        begun is Open,
        open_outcome matches Err(e) ==> (opened matches ChunksNext::Done(Err(SendError::Failed(m))) && m@
            == "打开文件失败: "@ + e@),
        open_outcome is Ok && resume_offset == 0 ==> (opened matches ChunksNext::Check(c)
            && c.cursor.transfer_id@ == transfer_id && c.cursor.file_size == file_size && c.cursor.offset
            == 0),
        open_outcome is Ok && resume_offset > 0 ==> (opened matches ChunksNext::Seek(s)
            && s.cursor.transfer_id@ == transfer_id && s.cursor.file_size == file_size && s.cursor.offset
            == resume_offset),
        open_outcome is Ok && resume_offset > 0 && seek_outcome is Ok ==> (
        moved matches ChunksNext::Check(c) && c.cursor.transfer_id@ == transfer_id && c.cursor.file_size
            == file_size && c.cursor.offset == resume_offset),
        open_outcome is Ok && resume_offset > 0 ==> (seek_outcome matches Err(e) ==> (
        moved matches ChunksNext::Done(Err(SendError::Failed(m))) && m@ == "文件 seek 失败: "@ + e@)),
{
}

/// At every place within the file as much is read as is left, up to the size of a
/// chunk, unless the attempt was cancelled; at the end nothing more is read, and
/// sending has succeeded.
pub proof fn each_read_asks_for_what_is_left(
    cursor: ChunkCursor,
    cancelled: bool,
    next: ChunksNext,
)
    requires
        goes_on(cursor, cancelled, next),
    ensures
        cursor.offset >= cursor.file_size <==> (next matches ChunksNext::Done(Ok(_))),
        cursor.offset < cursor.file_size && cancelled <==> (next matches ChunksNext::Done(
            Err(SendError::Cancelled),
        )),
        cursor.offset < cursor.file_size && !cancelled ==> (next matches ChunksNext::Read(r) && r.cursor
            == cursor && r.want <= CHUNK_SIZE && r.want <= cursor.file_size - cursor.offset && (r.want
            == CHUNK_SIZE || r.want == cursor.file_size - cursor.offset)),
{
}

/// What was read is sent, all of it, from where it was read; nothing read is the
/// end; and an error ends the attempt with its text.
pub proof fn what_was_read_is_sent(
    cursor: ChunkCursor,
    outcome: Result<u64, String>,
    next: ChunksNext,
)
    requires
        source_read(cursor, outcome, next),
    ensures
        outcome matches Ok(n) ==> (n > 0 ==> (next matches ChunksNext::Send(s) && s.cursor == cursor
            && s.len == n)),
        outcome == Ok::<u64, String>(0) ==> (next matches ChunksNext::Done(Ok(_))),
        outcome matches Err(e) ==> (next matches ChunksNext::Done(Err(SendError::Failed(m))) && m@
            == "读取文件失败: "@ + e@),
{
}

/// A chunk that the peer took is counted to its end, recorded and announced, and
/// sending goes on from there. One that it did not take, or that could not be
/// sent, ends the attempt and records nothing.
pub proof fn a_taken_chunk_is_counted_to_its_end(
    before: RegistryView,
    after: RegistryView,
    state: ChunksSend,
    answer: Result<bool, String>,
    event: Option<EventView>,
    next: ChunksNext,
)
    requires
        chunk_taken(before, after, state, answer, event, next),
        state.cursor.offset + state.len <= u64::MAX,
    ensures
        answer == Ok::<bool, String>(true) ==> ({
            let id = state.cursor.transfer_id@;
            let was = before.tasks[id];
            let is = after.tasks[id];
            let end = state.cursor.offset + state.len;
            &&& next matches ChunksNext::Check(c) && c.cursor.transfer_id@ == id && c.cursor.file_size
                == state.cursor.file_size && c.cursor.offset == end
            &&& event matches Some(EventView::Progress { id: told, transferred_bytes, progress })
                && told == id && transferred_bytes == end && progress.done == end && progress.total
                == state.cursor.file_size
            &&& before.tasks.contains_key(id) ==> {
                &&& only_records(before, after, id)
                &&& is.transferred_bytes == end && is.status == TransferStatus::Transferring
                &&& is.file_path == was.file_path && same_attempt(is, was)
                &&& is.phase == was.phase && is.failure == was.failure && is.completed_at
                    == was.completed_at
            }
            &&& !before.tasks.contains_key(id) ==> after == before
        }),
        answer == Ok::<bool, String>(false) ==> after == before && event is None && (
        next matches ChunksNext::Done(Err(SendError::Failed(m))) && m@ == "对端写入数据块失败"@),
        answer matches Err(e) ==> after == before && event is None && (next matches ChunksNext::Done(
            Err(SendError::Failed(m)),
        ) && m@ == "发送数据块失败: "@ + e@),
{
    if before.tasks.contains_key(state.cursor.transfer_id@) {
        progress_is_recorded_as_told(
            before,
            state.cursor.transfer_id@,
            (state.cursor.offset + state.len) as u64,
            TransferStatus::Transferring,
            TransferPhase::Transferring,
        );
    }
}

/// One chunk, from the look at the switch to the peer's answer.
pub struct Round {
    pub cursor: ChunkCursor,
    pub cancelled: bool,
    pub reading: ChunksNext,
    pub read: u64,
    pub sending: ChunksNext,
    pub before: RegistryView,
    pub after: RegistryView,
    pub event: Option<EventView>,
    pub next: ChunksNext,
}

/// The chunk of a round was read, no more of it than was asked for, and taken.
pub open spec fn goes_round(r: Round) -> bool {
    &&& goes_on(r.cursor, r.cancelled, r.reading)
    &&& r.reading matches ChunksNext::Read(x) && r.read <= x.want && source_read(
        x.cursor,
        Ok::<u64, String>(r.read),
        r.sending,
    )
    &&& r.sending matches ChunksNext::Send(s) && chunk_taken(
        r.before,
        r.after,
        s,
        Ok::<bool, String>(true),
        r.event,
        r.next,
    )
}

/// The rounds of `run` follow each other from `first` to `last`.
pub open spec fn runs_through(first: ChunkCursor, run: Seq<Round>, last: ChunkCursor) -> bool
    decreases run.len(),
{
    if run.len() == 0 {
        first == last
    } else {
        &&& goes_round(run.last())
        &&& runs_through(first, run.drop_last(), run.last().cursor)
        &&& run.last().next matches ChunksNext::Check(c) && c.cursor == last
    }
}

/// The chunk that was sent in the round `r` holds the byte at `place`.
pub open spec fn holds_byte(r: Round, place: int) -> bool {
    r.sending matches ChunksNext::Send(s) && s.cursor.offset <= place < s.cursor.offset + s.len
}

proof fn lemma_runs_through(first: ChunkCursor, run: Seq<Round>, last: ChunkCursor, place: int)
    requires
        runs_through(first, run, last),
        first.offset <= first.file_size,
        first.offset <= place < last.offset,
    ensures
        last.file_size == first.file_size && last.offset <= last.file_size,
        exists|k: int| 0 <= k < run.len() && holds_byte(#[trigger] run[k], place),
    decreases run.len(),
{
    let r = run.last();
    lemma_stays_within(first, run.drop_last(), r.cursor);
    if place < r.cursor.offset {
        lemma_runs_through(first, run.drop_last(), r.cursor, place);
        let k = choose|k: int|
            0 <= k < run.drop_last().len() && holds_byte(#[trigger] run.drop_last()[k], place);
        assert(holds_byte(run[k], place));
    } else {
        assert(holds_byte(run[run.len() - 1], place));
    }
}

proof fn lemma_stays_within(first: ChunkCursor, run: Seq<Round>, last: ChunkCursor)
    requires
        runs_through(first, run, last),
        first.offset <= first.file_size,
    ensures
        last.file_size == first.file_size && first.offset <= last.offset <= last.file_size,
    decreases run.len(),
{
    if run.len() > 0 {
        lemma_stays_within(first, run.drop_last(), run.last().cursor);
    }
}

/// Once the peer has accepted the file and all its chunks have been taken, every
/// byte from the place that the peer named to the end of the file was in some
/// chunk that was sent.
pub proof fn every_byte_from_the_peers_offset_on_is_sent(
    before: RegistryView,
    after: RegistryView,
    state: SendInit,
    reply: InitReply,
    now: Seq<char>,
    announced: SendNext,
    begun: ChunksNext,
    opened: ChunksNext,
    moved: ChunksNext,
    first: ChunkCursor,
    run: Seq<Round>,
    last: ChunkCursor,
    cancelled: bool,
    done: ChunksNext,
    place: int,
)
    requires
        announcement_answered(
            before,
            after,
            state,
            Ok::<InitReply, String>(reply),
            now,
            announced,
        ),
        reply.accepted == Some(true),
        reply.resume_offset matches Some(n) && n <= place < state.job.file_size,
        announced matches SendNext::SendChunks(s) ==> chunks_start(
            s.job.transfer_id@,
            s.job.file_size,
            s.resume_offset,
            begun,
        ),
        begun matches ChunksNext::Open(o) ==> source_opened(o.cursor, Ok::<(), String>(()), opened),
        opened matches ChunksNext::Seek(s) ==> source_moved(s.cursor, Ok::<(), String>(()), moved),
        opened matches ChunksNext::Check(c) ==> c.cursor == first,
        opened is Seek ==> (moved matches ChunksNext::Check(c) ==> c.cursor == first),
        runs_through(first, run, last),
        goes_on(last, cancelled, done),
        done matches ChunksNext::Done(Ok(_)),
    ensures
        announced is SendChunks,
        exists|k: int| 0 <= k < run.len() && holds_byte(#[trigger] run[k], place),
{
    lemma_stays_within(first, run, last);
    lemma_runs_through(first, run, last, place);
}

/// When all chunks have been taken the attempt goes on to its end, from the same
/// offset, with only its phase recorded; a cancelled attempt leaves as cancelled,
/// and one whose chunks could not be sent leaves as failed.
pub proof fn sent_chunks_lead_to_the_end(
    before: RegistryView,
    after: RegistryView,
    state: SendChunks,
    outcome: Result<(), SendError>,
    cancelled: bool,
    now: Seq<char>,
    next: SendNext,
    settled: SendNext,
)
    requires
        chunks_done(before, after, state, outcome, cancelled, now, next),
        next matches SendNext::RecordFinalizing(s) ==> agreement_starts(s, settled),
    ensures
        ({
            let id = state.job.transfer_id@;
            let was = before.tasks[id];
            let is = after.tasks[id];
            let stopped = (outcome matches Err(SendError::Cancelled)) || (outcome is Ok && cancelled);
            &&& stopped ==> (next matches SendNext::Leave(l) && l.id@ == id && l.event@
                == (EventView::Cancelled { id }) && (before.tasks.contains_key(id) ==> only_records(
                before,
                after,
                id,
            ) && is.status == TransferStatus::Cancelled && is.completed_at == Some(now)
                && is.transferred_bytes == was.transferred_bytes && is.file_path == was.file_path
                && same_attempt(is, was) && is.phase == was.phase && is.failure == was.failure && (
            l.row matches Some(row) && row@ == is)) && (!before.tasks.contains_key(id) ==> after
                == before && l.row is None))
            &&& outcome is Ok && !cancelled ==> (next matches SendNext::RecordFinalizing(s) && s.job
                == state.job && s.base_url == state.base_url && s.resume_offset == state.resume_offset
                && (before.tasks.contains_key(id) ==> only_records(before, after, id) && is.phase
                == Some(TransferPhase::Finalizing) && is.status == was.status && is.transferred_bytes
                == was.transferred_bytes && is.file_path == was.file_path && same_attempt(is, was)
                && is.failure == was.failure && is.completed_at == was.completed_at && (
            s.row matches Some(row) && row@ == is)) && (!before.tasks.contains_key(id) ==> after
                == before && s.row is None) && (settled matches SendNext::Agree(g) && g.job == state.job
                && g.base_url == state.base_url && (g.agreement matches AgreeNext::ProbeHealth(p)
                && p.file_size == state.job.file_size && p.resume_offset == state.resume_offset)))
            &&& outcome matches Err(SendError::Failed(m)) ==> failed_as(
                before,
                after,
                id,
                TransferFailureStage::Transfer,
                "chunk_failed"@,
                m@,
                now,
                next,
            )
        }),
{
    let id = state.job.transfer_id@;
    if before.tasks.contains_key(id) {
        progress_is_recorded_as_told(
            before,
            id,
            0,
            TransferStatus::Pending,
            TransferPhase::Finalizing,
        );
        an_end_is_recorded_as_told(
            before,
            id,
            now,
            now,
            FailureView {
                stage: TransferFailureStage::Source,
                code: now,
                retryable: true,
                message: now,
            },
        );
    }
    if let Err(SendError::Failed(m)) = outcome {
        failing_records_the_failure(
            before,
            after,
            id,
            m@,
            TransferFailureStage::Transfer,
            "chunk_failed"@,
            now,
            next,
        );
    }
}

// ---------------------------------------------------------------------------
// Agreeing on the end
// ---------------------------------------------------------------------------
/// A peer that can complete explicitly is asked to. Of one that cannot, or cannot
/// be asked, the file is taken to have arrived exactly when some of it was sent
/// just now; otherwise it is a failure where the peer cannot, and open where it
/// is not known whether it can.
pub proof fn a_peer_that_can_complete_is_asked_to(
    state: AgreeProbe,
    health: Result<&PeerProtocolInfo, String>,
    next: AgreeNext,
)
    requires
        health_decides(state, health, next),
    ensures
        next is CallComplete <==> (health matches Ok(info) && info.protocol_version >= 1
            && exists|i: int|
            0 <= i < info.capabilities@.len() && (#[trigger] info.capabilities@[i])@
                == "transfer.complete.v1"@),
        next matches AgreeNext::CallComplete(s) ==> s.file_size == state.file_size && s.resume_offset
            == state.resume_offset,
        !(next is CallComplete) && state.resume_offset < state.file_size ==> (
        next matches AgreeNext::Done(o) && o@ is Succeeded),
        !(next is CallComplete) && state.resume_offset >= state.file_size && health is Ok ==> (
        next matches AgreeNext::Done(o) && (o@ matches FinalizeOutcomeView::DefinitiveFailure {
            code,
            ..
        } && code == "complete_unsupported"@)),
        state.resume_offset >= state.file_size ==> (health matches Err(e) ==> (
        next matches AgreeNext::Done(o) && (o@ matches FinalizeOutcomeView::Uncertain { message }
            && message == "无法探测对端 transfer.complete.v1 能力且本次需要 complete 握手: "@ + e@))),
{
    if let Ok(info) = health {
        let told = crate::paths::texts(info.capabilities@);
        let wanted = crate::peer::CAPABILITY_TRANSFER_COMPLETE_V1@;
        assert(wanted == "transfer.complete.v1"@);
        if told.contains(wanted) {
            let i = choose|i: int| 0 <= i < told.len() && told[i] == wanted;
            assert(info.capabilities@[i]@ == wanted);
        }
        assert forall|i: int|
            0 <= i < info.capabilities@.len() && (#[trigger] info.capabilities@[i])@
                == "transfer.complete.v1"@ implies told.contains(wanted) by {
            assert(told[i] == wanted);
        }
    }
}

/// The peer's word settles the agreement: its yes is success, its no is failure.
/// An error that the peer may get over, a timeout, a broken connection and an
/// answer that makes no sense leave it open; an error that the peer will not get
/// over is a failure with the peer's own code, and so is a missing capability.
pub proof fn the_peers_word_settles_the_agreement(
    answer: Result<bool, PeerCallError>,
    next: AgreeNext,
)
    requires
        completion_decides(answer, next),
    ensures
        next matches AgreeNext::Done(o) && ({
            &&& o@ is Succeeded <==> answer == Ok::<bool, PeerCallError>(true)
            &&& answer == Ok::<bool, PeerCallError>(false) ==> (
            o@ matches FinalizeOutcomeView::DefinitiveFailure { code, .. } && code
                == "finalize_rejected"@)
            &&& answer matches Err(PeerCallError::Network { source }) ==> (
            o@ matches FinalizeOutcomeView::Uncertain { message } && message
                == "对端 complete 握手网络失败: "@ + source@)
            &&& answer matches Err(PeerCallError::InvalidResponse { reason }) ==> (
            o@ matches FinalizeOutcomeView::Uncertain { message } && message
                == "对端 complete 响应无法解析: "@ + reason@)
            &&& answer matches Err(PeerCallError::Unsupported { capability }) ==> (
            o@ matches FinalizeOutcomeView::DefinitiveFailure { message, code } && code
                == "complete_unsupported"@ && message == "对端不支持能力 "@ + capability@)
            &&& answer matches Err(PeerCallError::Remote { status, code, retryable }) ==> if retryable
                || code@ == "timeout"@ {
                o@ matches FinalizeOutcomeView::Uncertain { message } && message
                    == "对端 complete 握手失败: HTTP "@ + decimal(status as nat) + " ["@ + code@ + "]"@
            } else {
                o@ matches FinalizeOutcomeView::DefinitiveFailure { message, code: told } && told
                    == code@ && message == "对端 complete 握手失败: HTTP "@ + decimal(status as nat)
                    + " ["@ + code@ + "]"@
            }
        }),
{
}

// ---------------------------------------------------------------------------
// Settling
// ---------------------------------------------------------------------------
/// `row` is the completed attempt of `task` at `now`: all its bytes moved, no
/// failure, nothing of what it was made for changed, and found under whatever
/// operation and ids `task`, or else `given`, has.
pub open spec fn completed_row(row: TaskView, task: TaskView, given: TaskView, now: Seq<char>) -> bool {
    &&& row.id == task.id && row.filename == task.filename && row.file_path == task.file_path
    &&& row.size == task.size && row.sha256 == task.sha256 && row.chunk_size == task.chunk_size
    &&& row.direction == task.direction && row.peer_device_id == task.peer_device_id
    &&& row.created_at == task.created_at && row.attempt == task.attempt && row.attempt_id
        == task.attempt_id
    &&& row.status == TransferStatus::Completed && row.phase == Some(TransferPhase::Completed)
    &&& row.failure is None && row.completed_at == Some(now) && row.transferred_bytes == task.size
    &&& task.client_operation_id is Some ==> row.client_operation_id == task.client_operation_id
    &&& task.client_operation_id is None ==> row.client_operation_id == given.client_operation_id
    &&& task.operation_payload_hash is Some ==> row.operation_payload_hash
        == task.operation_payload_hash
    &&& task.operation_payload_hash is None ==> row.operation_payload_hash
        == given.operation_payload_hash
    &&& task.protocol_transfer_id.len() > 0 ==> row.protocol_transfer_id == task.protocol_transfer_id
    &&& task.protocol_transfer_id.len() == 0 ==> row.protocol_transfer_id
        == given.protocol_transfer_id
    &&& task.logical_transfer_id.len() > 0 ==> row.logical_transfer_id == task.logical_transfer_id
    &&& task.logical_transfer_id.len() == 0 ==> row.logical_transfer_id == given.logical_transfer_id
}

/// An attempt that succeeded is recorded as completed, as it stands; one that
/// failed leaves as failed; and one whose outcome is open stays in progress on its
/// way to its end, with the row that says so.
pub proof fn an_attempt_ends_as_was_agreed(
    before: RegistryView,
    after: RegistryView,
    id: Seq<char>,
    outcome: FinalizeOutcomeView,
    now: Seq<char>,
    next: SendNext,
)
    requires
        attempt_settles(before, after, id, outcome, now, next),
    ensures
        outcome is Succeeded && before.tasks.contains_key(id) ==> ({
            let was = before.tasks[id];
            let is = after.tasks[id];
            &&& only_records(before, after, id)
            &&& is.status == TransferStatus::Completed && is.completed_at == Some(now)
            &&& is.transferred_bytes == was.size && is.file_path == was.file_path
            &&& same_attempt(is, was) && is.phase == was.phase && is.failure == was.failure
            &&& next matches SendNext::Commit(c) && c.id@ == id && completed_row(
                c.snapshot@,
                was,
                was,
                now,
            )
        }),
        outcome is Succeeded && !before.tasks.contains_key(id) ==> after == before && next is Done,
        outcome matches FinalizeOutcomeView::DefinitiveFailure { message, code } ==> failed_as(
            before,
            after,
            id,
            TransferFailureStage::Finalize,
            code,
            message,
            now,
            next,
        ),
        outcome is Uncertain && before.tasks.contains_key(id) ==> ({
            let was = before.tasks[id];
            let is = after.tasks[id];
            &&& only_records(before, after, id)
            &&& is.status == TransferStatus::Transferring && is.phase == Some(
                TransferPhase::Finalizing,
            )
            &&& is.transferred_bytes == was.transferred_bytes && is.file_path == was.file_path
            &&& same_attempt(is, was) && is.failure == was.failure && is.completed_at
                == was.completed_at
            &&& next matches SendNext::Park(Some(row)) && row@ == is
        }),
        outcome is Uncertain && !before.tasks.contains_key(id) ==> after == before && (
        next matches SendNext::Park(None)),
{
    match outcome {
        FinalizeOutcomeView::DefinitiveFailure { message, code } => {
            failing_records_the_failure(
                before,
                after,
                id,
                message,
                TransferFailureStage::Finalize,
                code,
                now,
                next,
            );
        },
        _ => {
            if before.tasks.contains_key(id) {
                an_end_is_recorded_as_told(
                    before,
                    id,
                    now,
                    now,
                    FailureView {
                        stage: TransferFailureStage::Source,
                        code: now,
                        retryable: true,
                        message: now,
                    },
                );
                assert(parked(before, id).tasks.remove(id) =~= before.tasks.remove(id));
            }
        },
    }
}

/// A completed attempt is recorded as it stands in progress, or as it was given
/// where it is not in progress, and its completion is announced, and the task
/// leaves, once the row is recorded, and only then.
pub proof fn a_completion_counts_once_it_is_recorded(
    before: RegistryView,
    marked: RegistryView,
    task: TaskView,
    now: Seq<char>,
    commit: CommitCompleted,
    outcome: Result<(), AppErrorView>,
    after: RegistryView,
    result: Result<TaskView, AppErrorView>,
    event: Option<EventView>,
)
    requires
        completion_marked(before, marked, task, now, commit),
        completion_recorded(marked, after, commit, outcome, result, event),
    ensures
        commit.id@ == task.id,
        before.tasks.contains_key(task.id) ==> completed_row(
            commit.snapshot@,
            before.tasks[task.id],
            task,
            now,
        ) && only_records(before, marked, task.id) && marked.tasks[task.id].status
            == TransferStatus::Completed && marked.tasks[task.id].transferred_bytes
            == before.tasks[task.id].size && marked.tasks[task.id].completed_at == Some(now),
        !before.tasks.contains_key(task.id) ==> completed_row(commit.snapshot@, task, task, now)
            && marked == before,
        outcome is Ok ==> others_kept(marked, after, task.id) && !after.tasks.contains_key(task.id)
            && !after.tokens.contains_key(task.id) && result == Ok::<TaskView, AppErrorView>(
            commit.snapshot@,
        ) && event == Some(EventView::Completed { id: commit.snapshot@.id, file_path: None }),
        outcome matches Err(e) ==> after == marked && result == Err::<TaskView, AppErrorView>(e)
            && event is None,
{
    if before.tasks.contains_key(task.id) {
        an_end_is_recorded_as_told(
            before,
            task.id,
            now,
            now,
            FailureView {
                stage: TransferFailureStage::Source,
                code: now,
                retryable: true,
                message: now,
            },
        );
    }
    registering_touches_one_id(marked, task, marked.tokens[task.id], task.id);
}

// ---------------------------------------------------------------------------
// Operations
// ---------------------------------------------------------------------------
/// An operation is answered by its task: with the task's id once it completed,
/// with the code of its failure once it failed, as cancelled once it was, and as
/// pending until then; and without a task it is not found.
pub proof fn an_operation_is_answered_by_its_task(task: TaskView)
    ensures
        answer_for_any(None) == OperationView::NotFound,
        answer_for_any(Some(task)) == answer_for(task),
        task.status == TransferStatus::Completed ==> answer_for(task) == (OperationView::Succeeded {
            task_id: task.id,
        }),
        task.status == TransferStatus::Failed && task.failure is Some ==> answer_for(task) == (
        OperationView::Failed { code: task.failure->0.code }),
        task.status == TransferStatus::Failed && task.failure is None ==> answer_for(task) == (
        OperationView::Failed { code: "failed"@ }),
        task.status == TransferStatus::Cancelled ==> answer_for(task) == (OperationView::Failed {
            code: "cancelled"@,
        }),
        task.status == TransferStatus::Pending || task.status == TransferStatus::Transferring
            ==> answer_for(task) == OperationView::Pending,
{
}

/// `task` has come to an end.
pub open spec fn has_ended(task: TaskView) -> bool {
    task.status == TransferStatus::Completed || task.status == TransferStatus::Failed || task.status
        == TransferStatus::Cancelled
}

/// A sent transfer that has not ended is settled by asking its own peer, at its
/// address, for the transfer under the id that the peer knows it by; any other
/// stays as it is, and so does one whose peer is gone.
pub proof fn an_open_operation_is_settled_with_its_peer(
    task: TaskView,
    opened: ReconcileNext,
    state: ReconcilePeer,
    address: Option<PeerAddress>,
    found: ReconcileNext,
)
    requires
        reconcile_opens(task, opened),
        settling_peer_found(state, address, found),
    ensures
        opened is FindPeer <==> task.direction == TransferDirection::Send && !has_ended(task),
        opened matches ReconcileNext::FindPeer(s) ==> s.task@ == task,
        !(opened is FindPeer) ==> (opened matches ReconcileNext::Done { result: Ok(None), event }
            && event is None),
        address is None ==> (found matches ReconcileNext::Done { result: Ok(None), event }
            && event is None),
        address matches Some(a) ==> (found matches ReconcileNext::AskStatus(s) && s.task == state.task
            && s.base_url@ == "http://"@ + a.host@ + ":"@ + decimal(a.port as nat) && (
        state.task@.protocol_transfer_id.len() > 0 ==> s.wire_id@ == state.task@.protocol_transfer_id)
            && (state.task@.protocol_transfer_id.len() == 0 ==> s.wire_id@ == state.task@.id)),
{
}

/// A peer that says that the transfer is completed completes the task, as it
/// stands in progress or as it was given, and once that is recorded it is answered
/// and announced. Any other answer, and none, leave everything as it is.
pub proof fn a_peers_completed_completes_the_task(
    before: RegistryView,
    asked: RegistryView,
    task: TaskView,
    answer: Result<StatusReply, String>,
    now: Seq<char>,
    next: ReconcileNext,
    outcome: Result<(), AppErrorView>,
    after: RegistryView,
    done: ReconcileNext,
)
    requires
        status_answered(before, asked, task, answer, now, next),
        next matches ReconcileNext::Commit(c) ==> settling_recorded(asked, after, c.commit, outcome, done),
    ensures
        next is Commit <==> (answer matches Ok(reply) && (reply.status matches Some(s) && s@
            == "completed"@)),
        !(next is Commit) ==> asked == before && (next matches ReconcileNext::Done {
            result: Ok(None),
            event,
        } && event is None),
        next matches ReconcileNext::Commit(c) ==> ({
            &&& c.commit.id@ == task.id
            &&& before.tasks.contains_key(task.id) ==> completed_row(
                c.commit.snapshot@,
                before.tasks[task.id],
                task,
                now,
            ) && only_records(before, asked, task.id) && asked.tasks[task.id].status
                == TransferStatus::Completed && asked.tasks[task.id].transferred_bytes
                == before.tasks[task.id].size
            &&& !before.tasks.contains_key(task.id) ==> completed_row(
                c.commit.snapshot@,
                task,
                task,
                now,
            ) && asked == before
            &&& outcome is Ok ==> others_kept(asked, after, task.id) && !after.tasks.contains_key(
                task.id,
            ) && (done matches ReconcileNext::Done { result: Ok(Some(t)), event } && t@
                == c.commit.snapshot@ && crate::event::opt_event(event) == Some(
                EventView::Completed { id: c.commit.snapshot@.id, file_path: None },
            ))
            &&& outcome matches Err(e) ==> after == asked && (done matches ReconcileNext::Done {
                result: Err(x),
                event,
            } && x@ == e && event is None)
        }),
{
    if next is Commit {
        if before.tasks.contains_key(task.id) {
            an_end_is_recorded_as_told(
                before,
                task.id,
                now,
                now,
                FailureView {
                    stage: TransferFailureStage::Source,
                    code: now,
                    retryable: true,
                    message: now,
                },
            );
        }
        registering_touches_one_id(asked, task, asked.tokens[task.id], task.id);
    }
}

/// `next` answers for `task`: with its end if it has ended, else by settling it.
pub open spec fn answers_for(task: TaskView, next: OperationNext) -> bool {
    &&& has_ended(task) ==> (next matches OperationNext::Reply(Ok(s)) && s@ == answer_for(task))
    &&& !has_ended(task) && task.direction == TransferDirection::Send ==> (
    next matches OperationNext::Reconcile(ReconcileNext::FindPeer(p)) && p.task@ == task)
    &&& !has_ended(task) && task.direction != TransferDirection::Send ==> (
    next matches OperationNext::Reconcile(ReconcileNext::Done { result: Ok(None), event })
        && event is None)
}

/// An operation is answered for by the newest task in progress under it, whatever
/// white space surrounds its name; where there is none, by what history holds of
/// it; and an empty name, and one that neither knows, are not found.
pub proof fn an_operation_is_answered_by_its_newest_task(
    registry: RegistryView,
    client_operation_id: Seq<char>,
    next: OperationNext,
    row: Result<Option<TaskView>, AppErrorView>,
    looked_up: OperationNext,
)
    requires
        operation_opens(registry, client_operation_id, next),
        operation_looked_up(row, looked_up),
    ensures
        ({
            let op = crate::text::trimmed(client_operation_id);
            &&& op.len() == 0 ==> (next matches OperationNext::Reply(Ok(s)) && s@
                == OperationView::NotFound)
            &&& op.len() > 0 && (forall|id: Seq<char>| #[trigger]
                registry.tasks.contains_key(id) ==> registry.tasks[id].client_operation_id != Some(op))
                ==> (next matches OperationNext::LookupHistory(s) && s.client_operation_id@ == op)
            &&& op.len() > 0 && (exists|id: Seq<char>| #[trigger]
                registry.tasks.contains_key(id) && registry.tasks[id].client_operation_id == Some(op))
                ==> exists|id: Seq<char>| #[trigger]
                registry.tasks.contains_key(id) && registry.tasks[id].client_operation_id == Some(op)
                    && answers_for(registry.tasks[id], next) && forall|other: Seq<char>| #[trigger]
                    registry.tasks.contains_key(other) && registry.tasks[other].client_operation_id
                        == Some(op) ==> !crate::text::before(
                        registry.tasks[id].created_at,
                        registry.tasks[other].created_at,
                    )
        }),
        row matches Err(e) ==> (looked_up matches OperationNext::Reply(Err(x)) && x@ == e),
        row matches Ok(None) ==> (looked_up matches OperationNext::Reply(Ok(s)) && s@
            == OperationView::NotFound),
        row matches Ok(Some(task)) ==> answers_for(task, looked_up),
{
    let op = crate::text::trimmed(client_operation_id);
    if op.len() > 0 && exists|id: Seq<char>| #[trigger]
        registry.tasks.contains_key(id) && registry.tasks[id].client_operation_id == Some(op) {
        let task = choose|task: TaskView| #[trigger]
            crate::sender::operation::newest_under(registry, op, task) && operation_known(task, next);
        assert(registry.tasks.contains_key(task.id));
        assert(answers_for(registry.tasks[task.id], next));
    }
}

/// Once settling has ended, the operation is answered by the settled task, or as
/// pending where it stayed open, or with the error.
pub proof fn a_settled_operation_is_answered_by_its_task(
    result: Result<Option<TaskView>, AppErrorView>,
)
    ensures
        result matches Err(e) ==> settled_answer(result) == Err::<OperationView, AppErrorView>(e),
        result matches Ok(Some(task)) ==> settled_answer(result) == Ok::<OperationView, AppErrorView>(
            answer_for(task),
        ),
        result matches Ok(None) ==> settled_answer(result) == Ok::<OperationView, AppErrorView>(
            OperationView::Pending,
        ),
{
}

} // verus!

//! Transfer tasks: one attempt to move one file in one direction.
use vstd::prelude::*;

use crate::digest::{content_sha, sha_of, HASH_LIMIT};
use crate::text::{chars_of, decimal, decimal_of, join3, join5};
use crate::text::{decimal_is_digits, decimal_is_injective};
use vstd::utf8::{encode_utf8, encode_utf8_decode_utf8};
use crate::CHUNK_SIZE;

verus! {

broadcast use vstd::string::group_string_axioms;

/// Which way the file moves.
#[derive(Clone, Copy, Debug, PartialEq, Eq, Structural)]
pub enum TransferDirection {
    Send,
    Receive,
}

/// The coarse state of a task.
#[derive(Clone, Copy, Debug, PartialEq, Eq, Structural)]
pub enum TransferStatus {
    Pending,
    Transferring,
    Completed,
    Failed,
    Cancelled,
}

/// The fine state of a sending task.
#[derive(Clone, Copy, Debug, PartialEq, Eq, Structural)]
pub enum TransferPhase {
    Queued,
    Connecting,
    Transferring,
    Finalizing,
    Completed,
    Failed,
    Cancelled,
}

/// Where a sending task failed.
#[derive(Clone, Copy, Debug, PartialEq, Eq, Structural)]
pub enum TransferFailureStage {
    Source,
    Connect,
    Protocol,
    Transfer,
    Finalize,
}

/// How a failed sending task is taken up again.
#[derive(Clone, Copy, Debug, PartialEq, Eq, Structural)]
pub enum TransferRecoveryKind {
    /// From the start, under a new protocol id.
    Retry,
    /// From where it stopped, under the protocol id it had.
    Resume,
}

/// `completed`, `failed` and `cancelled` are final.
pub open spec fn terminal(status: TransferStatus) -> bool {
    status == TransferStatus::Completed || status == TransferStatus::Failed || status
        == TransferStatus::Cancelled
}

/// Whether `status` is final.
pub fn is_terminal_status(status: TransferStatus) -> (yes: bool)
    ensures
        yes == terminal(status),
{
    match status {
        TransferStatus::Completed => true,
        TransferStatus::Failed => true,
        TransferStatus::Cancelled => true,
        TransferStatus::Pending => false,
        TransferStatus::Transferring => false,
    }
}

/// The name of a status on the wire and in history.
pub open spec fn status_name(status: TransferStatus) -> Seq<char> {
    match status {
        TransferStatus::Pending => "pending"@,
        TransferStatus::Transferring => "transferring"@,
        TransferStatus::Completed => "completed"@,
        TransferStatus::Failed => "failed"@,
        TransferStatus::Cancelled => "cancelled"@,
    }
}

/// The name of `s` on the wire and in history.
pub fn status_str(s: TransferStatus) -> (name: String)
    ensures
        name@ == status_name(s),
{
    match s {
        TransferStatus::Pending => "pending".to_string(),
        TransferStatus::Transferring => "transferring".to_string(),
        TransferStatus::Completed => "completed".to_string(),
        TransferStatus::Failed => "failed".to_string(),
        TransferStatus::Cancelled => "cancelled".to_string(),
    }
}

/// Different statuses have different names.
pub proof fn status_names_are_distinct(a: TransferStatus, b: TransferStatus)
    requires
        status_name(a) == status_name(b),
    ensures
        a == b,
{
    reveal_strlit("pending");
    reveal_strlit("transferring");
    reveal_strlit("completed");
    reveal_strlit("failed");
    reveal_strlit("cancelled");
    assert("completed"@[2] != "cancelled"@[2]);
    assert("pending"@.len() != "failed"@.len());
}

/// Why and where a sending task failed.
#[derive(Debug)]
pub struct TransferFailure {
    pub stage: TransferFailureStage,
    pub code: String,
    pub retryable: bool,
    pub message: String,
}

/// What a [`TransferFailure`] says.
pub struct FailureView {
    pub stage: TransferFailureStage,
    pub code: Seq<char>,
    pub retryable: bool,
    pub message: Seq<char>,
}

impl View for TransferFailure {
    type V = FailureView;

    open spec fn view(&self) -> FailureView {
        FailureView {
            stage: self.stage,
            code: self.code@,
            retryable: self.retryable,
            message: self.message@,
        }
    }
}

impl Clone for TransferFailure {
    fn clone(&self) -> (copy: Self)
        ensures
            copy == *self,
    {
        TransferFailure {
            stage: self.stage,
            code: self.code.clone(),
            retryable: self.retryable,
            message: self.message.clone(),
        }
    }
}

/// One attempt to move one file.
#[derive(Debug)]
pub struct TransferTask {
    pub id: String,
    pub filename: String,
    /// The source for a sending task; for a receiving one the temporary file,
    /// and the final file once it is in place.
    pub file_path: String,
    pub size: u64,
    pub sha256: String,
    pub chunk_size: u64,
    pub direction: TransferDirection,
    pub peer_device_id: String,
    pub status: TransferStatus,
    pub transferred_bytes: u64,
    pub created_at: String,
    pub completed_at: Option<String>,
    pub phase: Option<TransferPhase>,
    pub failure: Option<TransferFailure>,
    pub attempt: u32,
    /// Shared by all attempts at the same transfer.
    pub logical_transfer_id: String,
    pub attempt_id: String,
    /// The id under which the peer knows the transfer.
    pub protocol_transfer_id: String,
    pub client_operation_id: Option<String>,
    pub operation_payload_hash: Option<String>,
}

/// What a [`TransferTask`] says.
pub struct TaskView {
    pub id: Seq<char>,
    pub filename: Seq<char>,
    pub file_path: Seq<char>,
    pub size: u64,
    pub sha256: Seq<char>,
    pub chunk_size: u64,
    pub direction: TransferDirection,
    pub peer_device_id: Seq<char>,
    pub status: TransferStatus,
    pub transferred_bytes: u64,
    pub created_at: Seq<char>,
    pub completed_at: Option<Seq<char>>,
    pub phase: Option<TransferPhase>,
    pub failure: Option<FailureView>,
    pub attempt: u32,
    pub logical_transfer_id: Seq<char>,
    pub attempt_id: Seq<char>,
    pub protocol_transfer_id: Seq<char>,
    pub client_operation_id: Option<Seq<char>>,
    pub operation_payload_hash: Option<Seq<char>>,
}

/// The characters of an optional string.
pub open spec fn opt_view(s: Option<String>) -> Option<Seq<char>> {
    match s {
        Some(s) => Some(s@),
        None => None,
    }
}

/// What an optional failure says.
pub open spec fn opt_failure(f: Option<TransferFailure>) -> Option<FailureView> {
    match f {
        Some(f) => Some(f@),
        None => None,
    }
}

/// What an optional task says.
pub open spec fn opt_task(t: Option<TransferTask>) -> Option<TaskView> {
    match t {
        Some(t) => Some(t@),
        None => None,
    }
}

fn clone_opt(s: &Option<String>) -> (copy: Option<String>)
    ensures
        copy == *s,
{
    match s {
        Some(s) => Some(s.clone()),
        None => None,
    }
}

impl View for TransferTask {
    type V = TaskView;

    open spec fn view(&self) -> TaskView {
        TaskView {
            id: self.id@,
            filename: self.filename@,
            file_path: self.file_path@,
            size: self.size,
            sha256: self.sha256@,
            chunk_size: self.chunk_size,
            direction: self.direction,
            peer_device_id: self.peer_device_id@,
            status: self.status,
            transferred_bytes: self.transferred_bytes,
            created_at: self.created_at@,
            completed_at: opt_view(self.completed_at),
            phase: self.phase,
            failure: opt_failure(self.failure),
            attempt: self.attempt,
            logical_transfer_id: self.logical_transfer_id@,
            attempt_id: self.attempt_id@,
            protocol_transfer_id: self.protocol_transfer_id@,
            client_operation_id: opt_view(self.client_operation_id),
            operation_payload_hash: opt_view(self.operation_payload_hash),
        }
    }
}

impl Clone for TransferTask {
    fn clone(&self) -> (copy: Self)
        ensures
            copy == *self,
    {
        TransferTask {
            id: self.id.clone(),
            filename: self.filename.clone(),
            file_path: self.file_path.clone(),
            size: self.size,
            sha256: self.sha256.clone(),
            chunk_size: self.chunk_size,
            direction: self.direction,
            peer_device_id: self.peer_device_id.clone(),
            status: self.status,
            transferred_bytes: self.transferred_bytes,
            created_at: self.created_at.clone(),
            completed_at: clone_opt(&self.completed_at),
            phase: self.phase,
            failure: match &self.failure {
                Some(f) => Some(f.clone()),
                None => None,
            },
            attempt: self.attempt,
            logical_transfer_id: self.logical_transfer_id.clone(),
            attempt_id: self.attempt_id.clone(),
            protocol_transfer_id: self.protocol_transfer_id.clone(),
            client_operation_id: clone_opt(&self.client_operation_id),
            operation_payload_hash: clone_opt(&self.operation_payload_hash),
        }
    }
}

/// A first attempt under `id` about which nothing further is known.
pub open spec fn first_attempt(id: Seq<char>) -> TaskView {
    TaskView {
        id,
        filename: Seq::empty(),
        file_path: Seq::empty(),
        size: 0,
        sha256: Seq::empty(),
        chunk_size: CHUNK_SIZE as u64,
        direction: TransferDirection::Send,
        peer_device_id: Seq::empty(),
        status: TransferStatus::Pending,
        transferred_bytes: 0,
        created_at: Seq::empty(),
        completed_at: None,
        phase: None,
        failure: None,
        attempt: 1,
        logical_transfer_id: id,
        attempt_id: id,
        protocol_transfer_id: id,
        client_operation_id: None,
        operation_payload_hash: None,
    }
}

impl TransferTask {
    /// A first attempt under `id`: it is its own logical transfer, its own
    /// attempt and its own protocol id.
    pub fn recovery_defaults(id: &str) -> (task: Self)
        ensures
            task@ == first_attempt(id@),
    {
        TransferTask {
            id: id.to_string(),
            filename: String::new(),
            file_path: String::new(),
            size: 0,
            sha256: String::new(),
            chunk_size: CHUNK_SIZE as u64,
            direction: TransferDirection::Send,
            peer_device_id: String::new(),
            status: TransferStatus::Pending,
            transferred_bytes: 0,
            created_at: String::new(),
            completed_at: None,
            phase: None,
            failure: None,
            attempt: 1,
            logical_transfer_id: id.to_string(),
            attempt_id: id.to_string(),
            protocol_transfer_id: id.to_string(),
            client_operation_id: None,
            operation_payload_hash: None,
        }
    }

    /// The phase, taken from the status where none was recorded.
    pub fn effective_phase(&self) -> (phase: TransferPhase)
        ensures
            phase == phase_of(self@),
    {
        match self.phase {
            Some(phase) => phase,
            None => match self.status {
                TransferStatus::Pending => TransferPhase::Queued,
                TransferStatus::Transferring => TransferPhase::Transferring,
                TransferStatus::Completed => TransferPhase::Completed,
                TransferStatus::Failed => TransferPhase::Failed,
                TransferStatus::Cancelled => TransferPhase::Cancelled,
            },
        }
    }

    /// How much of the file has moved.
    pub fn progress(&self) -> (p: Progress)
        ensures
            p == progress_of(self@),
    {
        Progress { done: self.transferred_bytes, total: self.size }
    }
}

/// How much of the file of a task has moved.
pub open spec fn progress_of(task: TaskView) -> Progress {
    Progress { done: task.transferred_bytes, total: task.size }
}

/// The phase of a task, taken from its status where none was recorded.
pub open spec fn phase_of(task: TaskView) -> TransferPhase {
    match task.phase {
        Some(phase) => phase,
        None => match task.status {
            TransferStatus::Pending => TransferPhase::Queued,
            TransferStatus::Transferring => TransferPhase::Transferring,
            TransferStatus::Completed => TransferPhase::Completed,
            TransferStatus::Failed => TransferPhase::Failed,
            TransferStatus::Cancelled => TransferPhase::Cancelled,
        },
    }
}

/// The fraction `done / total`, and zero where `total` is zero.
#[derive(Clone, Copy, Debug, PartialEq, Eq, Structural)]
pub struct Progress {
    pub done: u64,
    pub total: u64,
}

/// The state of a source file when it was last looked at.
#[derive(Debug)]
pub struct SourceFingerprint {
    pub size: u64,
    pub mtime_ns: Option<u64>,
    pub sha256: String,
}

/// What became of a client operation.
#[derive(Debug)]
pub enum TransferOperationStatus {
    NotFound,
    Pending,
    Succeeded { task_id: String },
    Failed { code: String },
}

/// What a [`TransferOperationStatus`] says.
pub enum OperationView {
    NotFound,
    Pending,
    Succeeded { task_id: Seq<char> },
    Failed { code: Seq<char> },
}

impl View for TransferOperationStatus {
    type V = OperationView;

    open spec fn view(&self) -> OperationView {
        match self {
            TransferOperationStatus::NotFound => OperationView::NotFound,
            TransferOperationStatus::Pending => OperationView::Pending,
            TransferOperationStatus::Succeeded { task_id } => OperationView::Succeeded {
                task_id: task_id@,
            },
            TransferOperationStatus::Failed { code } => OperationView::Failed { code: code@ },
        }
    }
}

// ---------------------------------------------------------------------------
// The payload of a recovery
// ---------------------------------------------------------------------------
/// A field preceded by its length, so that no two lists of fields run
/// together to the same text.
#[verifier::opaque]
pub open spec fn framed(field: Seq<char>) -> Seq<char> {
    decimal(field.len()) + ":"@ + field
}

/// The name of a recovery kind in a payload.
pub open spec fn kind_name(kind: TransferRecoveryKind) -> Seq<char> {
    match kind {
        TransferRecoveryKind::Retry => "retry"@,
        TransferRecoveryKind::Resume => "resume"@,
    }
}

/// Everything that one recovery request is about.
pub open spec fn recovery_payload(
    kind: TransferRecoveryKind,
    logical_id: Seq<char>,
    file_path: Seq<char>,
    peer: Seq<char>,
    protocol_id: Seq<char>,
) -> Seq<char> {
    framed(kind_name(kind)) + framed(logical_id) + framed(file_path) + framed(peer) + framed(
        protocol_id,
    )
}

/// The bytes of [`recovery_payload`] are few enough to be hashed.
pub open spec fn payload_fits(
    kind: TransferRecoveryKind,
    logical_id: Seq<char>,
    file_path: Seq<char>,
    peer: Seq<char>,
    protocol_id: Seq<char>,
) -> bool {
    encode_utf8(recovery_payload(kind, logical_id, file_path, peer, protocol_id)).len() < HASH_LIMIT
}

fn frame(field: &str) -> (text: String)
    ensures
        text@ == framed(field@),
{
    let len: usize = chars_of(field).len();
    let count = decimal_of(len as u64);
    reveal(framed);
    join3(count.as_str(), ":", field)
}

fn render_payload(
    kind: TransferRecoveryKind,
    logical_id: &str,
    file_path: &str,
    peer: &str,
    protocol_id: &str,
) -> (text: String)
    ensures
        text@ == recovery_payload(kind, logical_id@, file_path@, peer@, protocol_id@),
{
    let name = match kind {
        TransferRecoveryKind::Retry => "retry",
        TransferRecoveryKind::Resume => "resume",
    };
    let a = frame(name);
    let b = frame(logical_id);
    let c = frame(file_path);
    let d = frame(peer);
    let e = frame(protocol_id);
    join5(a.as_str(), b.as_str(), c.as_str(), d.as_str(), e.as_str())
}

/// Whether the payload of a recovery is small enough to be hashed.
pub fn recovery_payload_fits(
    kind: TransferRecoveryKind,
    logical_id: &str,
    file_path: &str,
    peer: &str,
    protocol_id: &str,
) -> (fits: bool)
    ensures
        fits <==> payload_fits(kind, logical_id@, file_path@, peer@, protocol_id@),
{
    let text = render_payload(kind, logical_id, file_path, peer, protocol_id);
    let bytes = text.as_str().as_bytes();
    (bytes.len() as u64) < HASH_LIMIT
}

/// The hash by which two recovery requests are told to be about the same thing:
/// the SHA-256 of their payload in UTF-8.
pub fn canonical_recovery_payload_hash(
    kind: TransferRecoveryKind,
    logical_id: &str,
    file_path: &str,
    peer: &str,
    protocol_id: &str,
) -> (hash: String)
    requires
        payload_fits(kind, logical_id@, file_path@, peer@, protocol_id@),
    ensures
        hash@ == payload_hash(kind, logical_id@, file_path@, peer@, protocol_id@),
{
    let text = render_payload(kind, logical_id, file_path, peer, protocol_id);
    sha_of(text.as_str().as_bytes())
}

/// The SHA-256 of a recovery payload in UTF-8.
pub open spec fn payload_hash(
    kind: TransferRecoveryKind,
    logical_id: Seq<char>,
    file_path: Seq<char>,
    peer: Seq<char>,
    protocol_id: Seq<char>,
) -> Seq<char> {
    content_sha(encode_utf8(recovery_payload(kind, logical_id, file_path, peer, protocol_id)))
}

proof fn lemma_framed(a: Seq<char>, x: Seq<char>, b: Seq<char>, y: Seq<char>)
    requires
        framed(a) + x == framed(b) + y,
    ensures
        a == b,
        x == y,
{
    reveal_strlit(":");
    reveal(framed);
    let da = decimal(a.len());
    let db = decimal(b.len());
    let s = framed(a) + x;
    let t = framed(b) + y;
    decimal_is_digits(a.len());
    decimal_is_digits(b.len());
    assert(s[da.len() as int] == ':');
    assert(t[db.len() as int] == ':');
    if da.len() < db.len() {
        assert(t[da.len() as int] == db[da.len() as int]);
    }
    if db.len() < da.len() {
        assert(s[db.len() as int] == da[db.len() as int]);
    }
    assert(s.subrange(0, da.len() as int) =~= da);
    assert(t.subrange(0, db.len() as int) =~= db);
    decimal_is_injective(a.len(), b.len());
    let from: int = da.len() + 1int;
    assert(s.subrange(from, from + a.len()) =~= a);
    assert(t.subrange(from, from + b.len()) =~= b);
    assert(s.subrange(from + a.len(), s.len() as int) =~= x);
    assert(t.subrange(from + b.len(), t.len() as int) =~= y);
}

proof fn lemma_five_in_a_row(
    a: Seq<char>,
    b: Seq<char>,
    c: Seq<char>,
    d: Seq<char>,
    e: Seq<char>,
)
    ensures
        a + b + c + d + e == a + (b + (c + (d + (e + Seq::<char>::empty())))),
{
    assert(a + b + c + d + e =~= a + (b + (c + (d + (e + Seq::<char>::empty())))));
}

/// Two recovery requests have the same payload only if they agree in kind, in
/// logical transfer, in file, in peer and in protocol id.
pub proof fn recovery_payload_is_injective(
    kind: TransferRecoveryKind,
    logical_id: Seq<char>,
    file_path: Seq<char>,
    peer: Seq<char>,
    protocol_id: Seq<char>,
    kind2: TransferRecoveryKind,
    logical_id2: Seq<char>,
    file_path2: Seq<char>,
    peer2: Seq<char>,
    protocol_id2: Seq<char>,
)
    requires
        encode_utf8(recovery_payload(kind, logical_id, file_path, peer, protocol_id))
            == encode_utf8(
            recovery_payload(kind2, logical_id2, file_path2, peer2, protocol_id2),
        ),
    ensures
        kind == kind2,
        logical_id == logical_id2,
        file_path == file_path2,
        peer == peer2,
        protocol_id == protocol_id2,
{
    let p = recovery_payload(kind, logical_id, file_path, peer, protocol_id);
    let q = recovery_payload(kind2, logical_id2, file_path2, peer2, protocol_id2);
    encode_utf8_decode_utf8(p);
    encode_utf8_decode_utf8(q);
    let none = Seq::<char>::empty();
    let p3 = framed(peer) + (framed(protocol_id) + none);
    let q3 = framed(peer2) + (framed(protocol_id2) + none);
    lemma_five_in_a_row(
        framed(kind_name(kind)),
        framed(logical_id),
        framed(file_path),
        framed(peer),
        framed(protocol_id),
    );
    lemma_five_in_a_row(
        framed(kind_name(kind2)),
        framed(logical_id2),
        framed(file_path2),
        framed(peer2),
        framed(protocol_id2),
    );
    lemma_framed(
        kind_name(kind),
        framed(logical_id) + (framed(file_path) + p3),
        kind_name(kind2),
        framed(logical_id2) + (framed(file_path2) + q3),
    );
    lemma_framed(logical_id, framed(file_path) + p3, logical_id2, framed(file_path2) + q3);
    lemma_framed(file_path, p3, file_path2, q3);
    lemma_framed(peer, framed(protocol_id) + none, peer2, framed(protocol_id2) + none);
    lemma_framed(protocol_id, none, protocol_id2, none);
    reveal_strlit("retry");
    reveal_strlit("resume");
    assert("retry"@.len() != "resume"@.len());
}

/// A first attempt has nothing behind it: its ids are its own, nothing has moved,
/// nothing has ended or failed, and no operation asked for it.
pub proof fn a_first_attempt_has_nothing_behind_it(id: Seq<char>)
    ensures
        ({
            let task = first_attempt(id);
            &&& task.id == id && task.logical_transfer_id == id && task.attempt_id == id
                && task.protocol_transfer_id == id
            &&& task.attempt == 1 && task.status == TransferStatus::Pending
            &&& task.transferred_bytes == 0 && task.size == 0 && task.chunk_size == CHUNK_SIZE
            &&& task.filename.len() == 0 && task.file_path.len() == 0 && task.sha256.len() == 0
            &&& task.peer_device_id.len() == 0 && task.created_at.len() == 0
            &&& task.direction == TransferDirection::Send
            &&& task.completed_at is None && task.phase is None && task.failure is None
            &&& task.client_operation_id is None && task.operation_payload_hash is None
        }),
{
}

/// A phase that was recorded is the phase; without one a task is in the phase that
/// its status names, and a pending one is queued.
pub proof fn a_recorded_phase_is_the_phase(task: TaskView)
    ensures
        task.phase matches Some(phase) ==> phase_of(task) == phase,
        task.phase is None ==> {
            &&& phase_of(task) == TransferPhase::Queued <==> task.status == TransferStatus::Pending
            &&& phase_of(task) == TransferPhase::Transferring <==> task.status
                == TransferStatus::Transferring
            &&& phase_of(task) == TransferPhase::Completed <==> task.status
                == TransferStatus::Completed
            &&& phase_of(task) == TransferPhase::Failed <==> task.status == TransferStatus::Failed
            &&& phase_of(task) == TransferPhase::Cancelled <==> task.status
                == TransferStatus::Cancelled
        },
        progress_of(task).done == task.transferred_bytes,
        progress_of(task).total == task.size,
        terminal(task.status) <==> task.status != TransferStatus::Pending && task.status
            != TransferStatus::Transferring,
{
}

/// The payload of a recovery is its kind, its logical transfer, its file, its peer
/// and its protocol id, in this order, each after its own length.
pub proof fn a_payload_holds_its_fields_in_order(
    kind: TransferRecoveryKind,
    logical_id: Seq<char>,
    file_path: Seq<char>,
    peer: Seq<char>,
    protocol_id: Seq<char>,
)
    ensures
        recovery_payload(kind, logical_id, file_path, peer, protocol_id) == (match kind {
            TransferRecoveryKind::Retry => decimal(5) + ":"@ + "retry"@,
            TransferRecoveryKind::Resume => decimal(6) + ":"@ + "resume"@,
        }) + (decimal(logical_id.len()) + ":"@ + logical_id) + (decimal(file_path.len()) + ":"@
            + file_path) + (decimal(peer.len()) + ":"@ + peer) + (decimal(protocol_id.len()) + ":"@
            + protocol_id),
{
    reveal_strlit("retry");
    reveal_strlit("resume");
    reveal(framed);
    assert("retry"@.len() == 5 && "resume"@.len() == 6);
}

/// What is said of a task is what its fields hold, every one of them.
pub proof fn a_task_is_seen_as_it_is(task: TransferTask)
    ensures
        task@.id == task.id@ && task@.filename == task.filename@ && task@.file_path == task.file_path@,
        task@.size == task.size && task@.sha256 == task.sha256@ && task@.chunk_size == task.chunk_size,
        task@.direction == task.direction && task@.peer_device_id == task.peer_device_id@,
        task@.status == task.status && task@.transferred_bytes == task.transferred_bytes,
        task@.created_at == task.created_at@ && task@.phase == task.phase && task@.attempt
            == task.attempt,
        task@.completed_at is Some <==> task.completed_at is Some,
        task.completed_at matches Some(t) ==> task@.completed_at == Some(t@),
        task@.failure is Some <==> task.failure is Some,
        task.failure matches Some(f) ==> task@.failure == Some(
            FailureView {
                stage: f.stage,
                code: f.code@,
                retryable: f.retryable,
                message: f.message@,
            },
        ),
        task@.logical_transfer_id == task.logical_transfer_id@ && task@.attempt_id == task.attempt_id@,
        task@.protocol_transfer_id == task.protocol_transfer_id@,
        task@.client_operation_id is Some <==> task.client_operation_id is Some,
        task.client_operation_id matches Some(op) ==> task@.client_operation_id == Some(op@),
        task@.operation_payload_hash is Some <==> task.operation_payload_hash is Some,
        task.operation_payload_hash matches Some(h) ==> task@.operation_payload_hash == Some(h@),
{
}

} // verus!

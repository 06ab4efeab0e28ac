//! Sending, taking up failed transfers again, and answering for operations.
use lan_transfer::clock::Clock;
use lan_transfer::digest::sha_of;
use lan_transfer::error::AppError;
use lan_transfer::event::TransferEvent;
use lan_transfer::peer::{
    format_complete_error_ref, peer_status_is_completed, InitReply, PeerAddress, PeerCallError,
    PeerProtocolInfo, StatusReply, CAPABILITY_TRANSFER_COMPLETE_V1, CAPABILITY_TRANSFER_RESUME_V1,
    PROTOCOL_VERSION_V1,
};
use lan_transfer::platform::Platform;
use lan_transfer::registry::TransferRegistry;
use lan_transfer::sender::complete::{
    classify_complete_error, commit_sender_completed_outcome, finalize_send_with_peer,
    legacy_chunks_sent, AgreeNext, FinalizeOutcome,
};
use lan_transfer::sender::operation::{
    find_active_by_client_operation_id, get_transfer_operation, operation_reconciled,
    operation_status_from_task, reconcile_lost_final_ack, OperationNext, ReconcileNext,
};
use lan_transfer::sender::recovery::{
    ensure_no_active_logical_recovery, ensure_peer_resume_capability,
    ensure_replayed_attempt_running, find_active_logical_recovery, is_same_client_operation,
    recheck_source_fingerprint, recover_pending_claimed_operations, recovery_request_fits,
    resolve_logical_transfer_id, resume_transfer, retry_transfer, validate_parent_for_recovery,
    PeerProbe, PendingNext, RecoveryClaim, RecoveryNext, ReplayNext, SenderClaimOutcome,
    SourceInspection, SourceState,
};
use lan_transfer::sender::send::{
    agreed, run_send_loop, send_file_chunks, start_sending, wire_id, ChunksNext, SendError, SendJob,
    SendNext, SourceFacts,
};
use lan_transfer::task::{
    canonical_recovery_payload_hash, recovery_payload_fits, TransferDirection, TransferFailure,
    TransferFailureStage, TransferOperationStatus, TransferPhase, TransferRecoveryKind,
    TransferStatus, TransferTask,
};
use lan_transfer::CHUNK_SIZE;

fn failed_parent(id: &str, retryable: bool) -> TransferTask {
    TransferTask {
        filename: "f.bin".into(),
        file_path: "/tmp/f.bin".into(),
        size: 10,
        sha256: "deadbeef".into(),
        direction: TransferDirection::Send,
        peer_device_id: "peer-1".into(),
        status: TransferStatus::Failed,
        transferred_bytes: 4,
        created_at: "2026-07-14T00:00:00Z".into(),
        completed_at: Some("2026-07-14T00:01:00Z".into()),
        phase: Some(TransferPhase::Failed),
        failure: Some(TransferFailure {
            stage: TransferFailureStage::Transfer,
            code: if retryable { "chunk_failed".into() } else { "fatal".into() },
            retryable,
            message: "x".into(),
        }),
        attempt: 1,
        logical_transfer_id: id.into(),
        attempt_id: id.into(),
        protocol_transfer_id: id.into(),
        ..TransferTask::recovery_defaults(id)
    }
}

fn queued_child(id: &str, logical: &str, op: &str) -> TransferTask {
    TransferTask {
        filename: "f.bin".into(),
        file_path: "/tmp/f.bin".into(),
        size: 10,
        sha256: "deadbeef".into(),
        direction: TransferDirection::Send,
        peer_device_id: "peer-1".into(),
        status: TransferStatus::Pending,
        created_at: "2026-07-14T00:02:00Z".into(),
        phase: Some(TransferPhase::Queued),
        attempt: 2,
        logical_transfer_id: logical.into(),
        attempt_id: id.into(),
        protocol_transfer_id: "proto-child".into(),
        client_operation_id: Some(op.into()),
        operation_payload_hash: Some("hash-child".into()),
        ..TransferTask::recovery_defaults(id)
    }
}

fn modern() -> PeerProtocolInfo {
    PeerProtocolInfo {
        protocol_version: PROTOCOL_VERSION_V1,
        capabilities: vec![
            CAPABILITY_TRANSFER_COMPLETE_V1.to_string(),
            CAPABILITY_TRANSFER_RESUME_V1.to_string(),
        ],
    }
}

fn legacy() -> PeerProtocolInfo {
    PeerProtocolInfo { protocol_version: 0, capabilities: vec![] }
}

// -- capabilities and completion ------------------------------------------------

#[test]
fn transfer_complete_capability_token_is_stable() {
    assert_eq!(CAPABILITY_TRANSFER_COMPLETE_V1, "transfer.complete.v1");
    let with_cap = PeerProtocolInfo {
        protocol_version: PROTOCOL_VERSION_V1,
        capabilities: vec![CAPABILITY_TRANSFER_COMPLETE_V1.to_string()],
    };
    assert!(with_cap.supports(CAPABILITY_TRANSFER_COMPLETE_V1));
    let legacy = PeerProtocolInfo { protocol_version: 0, capabilities: vec![] };
    assert!(!legacy.supports(CAPABILITY_TRANSFER_COMPLETE_V1));
    let v1_without = PeerProtocolInfo {
        protocol_version: PROTOCOL_VERSION_V1,
        capabilities: vec!["errors.envelope.v1".to_string()],
    };
    assert!(!v1_without.supports(CAPABILITY_TRANSFER_COMPLETE_V1));
}

#[test]
fn legacy_finalize_allowed_only_when_chunks_were_sent() {
    assert!(legacy_chunks_sent(10, 0));
    assert!(!legacy_chunks_sent(0, 0));
    assert!(!legacy_chunks_sent(100, 100));
    assert!(legacy_chunks_sent(100, 50));
}

#[test]
fn resume_capability_token_and_old_peer() {
    assert_eq!(CAPABILITY_TRANSFER_RESUME_V1, "transfer.resume.v1");
    let legacy = PeerProtocolInfo {
        protocol_version: PROTOCOL_VERSION_V1,
        capabilities: vec![CAPABILITY_TRANSFER_COMPLETE_V1.to_string()],
    };
    assert!(!legacy.supports(CAPABILITY_TRANSFER_RESUME_V1));
    let modern = PeerProtocolInfo {
        protocol_version: PROTOCOL_VERSION_V1,
        capabilities: vec![
            CAPABILITY_TRANSFER_COMPLETE_V1.to_string(),
            CAPABILITY_TRANSFER_RESUME_V1.to_string(),
        ],
    };
    assert!(modern.supports(CAPABILITY_TRANSFER_RESUME_V1));
}

fn agree(size: u64, offset: u64, health: Result<&PeerProtocolInfo, String>) -> AgreeNext {
    match finalize_send_with_peer(size, offset) {
        AgreeNext::ProbeHealth(s) => s.probed(health),
        _ => panic!("probed first"),
    }
}

#[test]
fn a_peer_is_asked_to_complete_if_it_can() {
    let info = modern();
    let ask = |answer| match agree(0, 0, Ok(&info)) {
        AgreeNext::CallComplete(s) => match s.answered(answer) {
            AgreeNext::Done(o) => o,
            _ => panic!("ended"),
        },
        _ => panic!("asked"),
    };
    assert!(matches!(ask(Ok(true)), FinalizeOutcome::Succeeded));
    match ask(Ok(false)) {
        FinalizeOutcome::DefinitiveFailure { message, code } => {
            assert_eq!(code, "finalize_rejected");
            assert_eq!(message, "对端 finalize 未成功（complete 握手返回 success=false）");
        }
        other => panic!("unexpected {other:?}"),
    }
    let lost = PeerCallError::Network { source: "reset".to_string() };
    match ask(Err(lost)) {
        FinalizeOutcome::Uncertain { message } => {
            assert_eq!(message, "对端 complete 握手网络失败: reset")
        }
        other => panic!("unexpected {other:?}"),
    }
}

#[test]
fn a_legacy_peer_needs_chunks() {
    let info = legacy();
    assert!(matches!(agree(10, 0, Ok(&info)), AgreeNext::Done(FinalizeOutcome::Succeeded)));
    for (size, offset) in [(0, 0), (10, 10)] {
        match agree(size, offset, Ok(&info)) {
            AgreeNext::Done(FinalizeOutcome::DefinitiveFailure { code, .. }) => {
                assert_eq!(code, "complete_unsupported")
            }
            _ => panic!("failed"),
        }
        match agree(size, offset, Err("down".to_string())) {
            AgreeNext::Done(FinalizeOutcome::Uncertain { message }) => assert_eq!(
                message,
                "无法探测对端 transfer.complete.v1 能力且本次需要 complete 握手: down"
            ),
            _ => panic!("open"),
        }
    }
    assert!(matches!(
        agree(10, 5, Err("down".to_string())),
        AgreeNext::Done(FinalizeOutcome::Succeeded)
    ));
}

#[test]
fn errors_in_completing_are_told_apart() {
    let remote = |code: &str, retryable| PeerCallError::Remote {
        status: 503,
        code: code.to_string(),
        retryable,
    };
    for e in [
        remote("busy", true),
        remote("timeout", false),
        remote("unavailable", true),
        PeerCallError::InvalidResponse { reason: "not json".to_string() },
    ] {
        assert!(matches!(classify_complete_error(e), FinalizeOutcome::Uncertain { .. }));
    }
    match classify_complete_error(remote("unavailable", false)) {
        FinalizeOutcome::DefinitiveFailure { code, .. } => assert_eq!(code, "unavailable"),
        other => panic!("unexpected {other:?}"),
    }
    match classify_complete_error(remote("conflict", false)) {
        FinalizeOutcome::DefinitiveFailure { message, code } => {
            assert_eq!(code, "conflict");
            assert_eq!(message, "对端 complete 握手失败: HTTP 503 [conflict]");
        }
        other => panic!("unexpected {other:?}"),
    }
    let unsupported = PeerCallError::Unsupported { capability: "c".to_string() };
    assert_eq!(format_complete_error_ref(&unsupported), "对端不支持能力 c");
    match classify_complete_error(unsupported) {
        FinalizeOutcome::DefinitiveFailure { code, .. } => assert_eq!(code, "complete_unsupported"),
        other => panic!("unexpected {other:?}"),
    }
}

// -- an attempt -------------------------------------------------------------------

fn start(reg: &mut TransferRegistry, size: u64) -> SendJob {
    let source = SourceFacts::Found { size, sha256: "s".to_string() };
    start_sending(
        reg,
        Platform::Linux,
        "peer-1".to_string(),
        "/home/me/a.bin".to_string(),
        source,
        "now".to_string(),
    )
    .expect("started")
}

fn address() -> PeerAddress {
    PeerAddress { host: "10.0.0.2".to_string(), port: 62000 }
}

#[test]
fn sending_needs_a_source() {
    let mut reg = TransferRegistry::new();
    let missing = start_sending(
        &mut reg,
        Platform::Linux,
        "peer-1".to_string(),
        "/nowhere".to_string(),
        SourceFacts::Missing,
        "now".to_string(),
    );
    match missing {
        Err(AppError::NotFound(m)) => assert_eq!(m, "文件不存在: /nowhere"),
        _ => panic!("refused"),
    }
    assert!(reg.list().is_empty());
    let job = start(&mut reg, 10);
    assert_eq!(job.transfer_id.len(), 36);
    assert_eq!(job.wire_id, job.transfer_id);
    let task = reg.get(&job.transfer_id).expect("in progress");
    assert_eq!(task.filename, "a.bin");
    assert_eq!(task.size, 10);
    assert_eq!(task.direction, TransferDirection::Send);
    assert_eq!(task.status, TransferStatus::Pending);
    assert_eq!(task.chunk_size, CHUNK_SIZE as u64);
    assert_eq!(task.created_at, "now");
    assert!(reg.cancel(&job.transfer_id));
    assert!(job.cancel.is_cancelled());
}

#[test]
fn the_name_offered_is_the_last_of_the_path() {
    for (platform, path, name) in [
        (Platform::Linux, "/home/me/a.bin", "a.bin"),
        (Platform::Linux, "/home/me/b\\a.bin", "b\\a.bin"),
        (Platform::Windows, "C:\\me\\a.bin", "a.bin"),
        (Platform::Windows, "\\\\?\\C:\\me\\a.bin", "a.bin"),
        (Platform::Windows, "\\\\server\\share\\a.bin", "a.bin"),
        (Platform::Windows, "C:a.bin", "a.bin"),
        (Platform::Windows, "C:/me/a.bin", "a.bin"),
    ] {
        let mut reg = TransferRegistry::new();
        let source = SourceFacts::Found { size: 1, sha256: "s".to_string() };
        let job = start_sending(
            &mut reg,
            platform,
            "peer-1".to_string(),
            path.to_string(),
            source,
            "now".to_string(),
        )
        .expect("started");
        assert_eq!(reg.get(&job.transfer_id).expect("in progress").filename, name);
        let next = match run_send_loop(&mut reg, job) {
            SendNext::FindPeer(s) => s.found(&mut reg, platform, Some(address()), "later"),
            _ => panic!("found first"),
        };
        match next {
            SendNext::CallInit(s) => assert_eq!(s.meta.filename, name),
            _ => panic!("announced"),
        }
    }
}

#[test]
fn a_peer_that_is_gone_fails_the_attempt() {
    let mut reg = TransferRegistry::new();
    let job = start(&mut reg, 10);
    let id = job.transfer_id.clone();
    let peer = match run_send_loop(&mut reg, job) {
        SendNext::FindPeer(s) => s,
        _ => panic!("found first"),
    };
    assert_eq!(reg.get(&id).unwrap().phase, Some(TransferPhase::Connecting));
    let leaving = match peer.found(&mut reg, Platform::Linux, None, "later") {
        SendNext::Leave(l) => l,
        _ => panic!("failed"),
    };
    let row = leaving.row.clone().expect("a row");
    assert_eq!(row.status, TransferStatus::Failed);
    let failure = row.failure.expect("a reason");
    assert_eq!(failure.code, "peer_offline");
    assert_eq!(failure.stage, TransferFailureStage::Connect);
    assert!(failure.retryable);
    assert_eq!(failure.message, "对端设备不存在或离线: peer-1");
    match leaving.recorded(&mut reg) {
        TransferEvent::Failed { id: failed, .. } => assert_eq!(failed, id),
        other => panic!("unexpected {other:?}"),
    }
    assert!(reg.get(&id).is_none());
}

#[test]
fn the_announcement_decides_where_to_start() {
    let reply = |accepted, resume_offset| InitReply {
        accepted,
        error: None,
        resume_offset,
    };
    for (answer, code) in [
        (Err("refused".to_string()), "peer_unreachable"),
        (Ok(reply(None, None)), "peer_rejected"),
        (Ok(reply(Some(false), Some(0))), "peer_rejected"),
        (Ok(reply(Some(true), Some(11))), "invalid_resume_offset"),
    ] {
        let mut reg = TransferRegistry::new();
        let job = start(&mut reg, 10);
        let init = match run_send_loop(&mut reg, job) {
            SendNext::FindPeer(s) => match s.found(&mut reg, Platform::Linux, Some(address()), "later") {
                SendNext::CallInit(s) => s,
                _ => panic!("announced"),
            },
            _ => panic!("found first"),
        };
        assert_eq!(init.base_url, "http://10.0.0.2:62000");
        assert_eq!(init.meta.filename, "a.bin");
        assert_eq!(init.meta.transfer_id.as_deref(), Some(init.job.wire_id.as_str()));
        match init.answered(&mut reg, answer, "later") {
            SendNext::Leave(l) => assert_eq!(l.row.unwrap().failure.unwrap().code, code),
            _ => panic!("failed"),
        }
    }
    let mut reg = TransferRegistry::new();
    let job = start(&mut reg, 10);
    let id = job.transfer_id.clone();
    let next = match run_send_loop(&mut reg, job) {
        SendNext::FindPeer(s) => match s.found(&mut reg, Platform::Linux, Some(address()), "later") {
            SendNext::CallInit(s) => s.answered(&mut reg, Ok(reply(Some(true), Some(10))), "later"),
            _ => panic!("announced"),
        },
        _ => panic!("found first"),
    };
    match next {
        SendNext::SendChunks(s) => assert_eq!(s.resume_offset, 10),
        _ => panic!("sent"),
    }
    let task = reg.get(&id).unwrap();
    assert_eq!(task.transferred_bytes, 10);
    assert_eq!(task.phase, Some(TransferPhase::Transferring));
}

/// Sends a file of `size` bytes from `offset` on; the chunks that were sent.
fn chunks(reg: &mut TransferRegistry, id: &str, size: u64, offset: u64) -> Vec<(u64, u64)> {
    let mut sent = vec![];
    let mut next = send_file_chunks(id, size, offset);
    loop {
        next = match next {
            ChunksNext::Open(s) => s.opened(Ok(())),
            ChunksNext::Seek(s) => s.moved(Ok(())),
            ChunksNext::Check(s) => s.checked(false),
            ChunksNext::Read(s) => {
                let n = s.want;
                s.read(Ok(n))
            }
            ChunksNext::Send(s) => {
                sent.push((s.cursor.offset, s.len));
                let (next, event) = s.answered(reg, Ok(true));
                assert!(matches!(event, Some(TransferEvent::Progress { .. })));
                next
            }
            ChunksNext::Done(r) => {
                assert!(r.is_ok());
                return sent;
            }
        }
    }
}

#[test]
fn chunks_cover_the_file_once() {
    let mut reg = TransferRegistry::new();
    let full = CHUNK_SIZE as u64;
    let size = 2 * full + 5;
    let job = start(&mut reg, size);
    let id = job.transfer_id;
    assert_eq!(chunks(&mut reg, &id, size, 0), vec![(0, full), (full, full), (2 * full, 5)]);
    assert_eq!(reg.get(&id).unwrap().transferred_bytes, size);
    assert_eq!(chunks(&mut reg, &id, size, full + 1), vec![(full + 1, full), (2 * full + 1, 4)]);
    assert_eq!(chunks(&mut reg, &id, size, size), vec![]);
    assert_eq!(chunks(&mut reg, &id, 0, 0), vec![]);
}

#[test]
fn chunks_end_early_with_a_reason() {
    let mut reg = TransferRegistry::new();
    let open = |outcome| match send_file_chunks("t", 10, 4) {
        ChunksNext::Open(s) => s.opened(outcome),
        _ => panic!("opened first"),
    };
    let reason = |next| match next {
        ChunksNext::Done(Err(SendError::Failed(m))) => m,
        _ => panic!("failed"),
    };
    assert_eq!(reason(open(Err("gone".to_string()))), "打开文件失败: gone");
    let seek = match open(Ok(())) {
        ChunksNext::Seek(s) => s,
        _ => panic!("moved"),
    };
    let check = match seek.moved(Ok(())) {
        ChunksNext::Check(s) => s,
        _ => panic!("checked"),
    };
    let read = match check.checked(false) {
        ChunksNext::Read(s) => s,
        _ => panic!("read"),
    };
    assert_eq!(read.want, 6);
    let send = match read.read(Ok(6)) {
        ChunksNext::Send(s) => s,
        _ => panic!("sent"),
    };
    let (next, event) = send.answered(&mut reg, Ok(false));
    assert!(event.is_none());
    assert_eq!(reason(next), "对端写入数据块失败");
    let cancelled = match open(Ok(())) {
        ChunksNext::Seek(s) => match s.moved(Ok(())) {
            ChunksNext::Check(s) => s.checked(true),
            _ => panic!("checked"),
        },
        _ => panic!("moved"),
    };
    assert!(matches!(cancelled, ChunksNext::Done(Err(SendError::Cancelled))));
}

/// An attempt whose chunks are to be sent, from the start.
fn ready(reg: &mut TransferRegistry, size: u64) -> lan_transfer::sender::send::SendChunks {
    let job = start(reg, size);
    let accepted = InitReply { accepted: Some(true), error: None, resume_offset: None };
    match run_send_loop(reg, job) {
        SendNext::FindPeer(s) => match s.found(reg, Platform::Linux, Some(address()), "later") {
            SendNext::CallInit(s) => match s.answered(reg, Ok(accepted), "later") {
                SendNext::SendChunks(s) => s,
                _ => panic!("sent"),
            },
            _ => panic!("announced"),
        },
        _ => panic!("found first"),
    }
}

#[test]
fn an_attempt_runs_to_its_end() {
    let mut reg = TransferRegistry::new();
    let state = ready(&mut reg, 10);
    let id = state.job.transfer_id.clone();
    let finalizing = match state.sent(&mut reg, Ok(()), "later") {
        SendNext::RecordFinalizing(s) => s,
        _ => panic!("finalizing"),
    };
    assert_eq!(finalizing.row.as_ref().unwrap().phase, Some(TransferPhase::Finalizing));
    let agreement = match finalizing.recorded() {
        SendNext::Agree(s) => s.agreement,
        _ => panic!("agreed"),
    };
    let info = modern();
    let outcome = match agreement {
        AgreeNext::ProbeHealth(s) => match s.probed(Ok(&info)) {
            AgreeNext::CallComplete(s) => match s.answered(Ok(true)) {
                AgreeNext::Done(o) => o,
                _ => panic!("ended"),
            },
            _ => panic!("asked"),
        },
        _ => panic!("probed"),
    };
    let commit = match agreed(&mut reg, &id, outcome, "end") {
        SendNext::Commit(c) => c,
        _ => panic!("committed"),
    };
    assert_eq!(commit.snapshot.status, TransferStatus::Completed);
    assert_eq!(commit.snapshot.transferred_bytes, 10);
    assert_eq!(commit.snapshot.completed_at.as_deref(), Some("end"));
    let (result, event) = commit.recorded(&mut reg, Ok(()));
    assert_eq!(result.unwrap().id, id);
    assert!(matches!(event, Some(TransferEvent::Completed { file_path: None, .. })));
    assert!(reg.get(&id).is_none());
}

#[test]
fn an_unknown_outcome_parks_the_task() {
    let mut reg = TransferRegistry::new();
    let state = ready(&mut reg, 10);
    let id = state.job.transfer_id.clone();
    let _ = state.sent(&mut reg, Ok(()), "later");
    let open = FinalizeOutcome::Uncertain { message: "lost".to_string() };
    match agreed(&mut reg, &id, open, "end") {
        SendNext::Park(Some(row)) => {
            assert_eq!(row.status, TransferStatus::Transferring);
            assert_eq!(row.phase, Some(TransferPhase::Finalizing));
            assert!(row.failure.is_none());
        }
        _ => panic!("parked"),
    }
    assert!(reg.get(&id).is_some());
}

#[test]
fn a_cancelled_attempt_ends_as_cancelled() {
    let mut reg = TransferRegistry::new();
    let state = ready(&mut reg, 10);
    let id = state.job.transfer_id.clone();
    assert!(reg.cancel(&id));
    match state.sent(&mut reg, Ok(()), "later") {
        SendNext::Leave(l) => {
            assert_eq!(l.row.as_ref().unwrap().status, TransferStatus::Cancelled);
            assert!(matches!(l.recorded(&mut reg), TransferEvent::Cancelled { .. }));
        }
        _ => panic!("cancelled"),
    }
    let state = ready(&mut reg, 10);
    match state.sent(&mut reg, Err(SendError::Failed("broken".to_string())), "later") {
        SendNext::Leave(l) => {
            assert_eq!(l.row.unwrap().failure.unwrap().code, "chunk_failed")
        }
        _ => panic!("failed"),
    }
}

#[test]
fn a_completion_that_is_not_recorded_stays_in_progress() {
    let mut reg = TransferRegistry::new();
    let job = start(&mut reg, 10);
    let task = reg.get(&job.transfer_id).unwrap();
    let commit = commit_sender_completed_outcome(&mut reg, &task, "end");
    let (result, event) = commit.recorded(&mut reg, Err(AppError::generic("down".to_string())));
    assert!(result.is_err());
    assert!(event.is_none());
    assert!(reg.get(&job.transfer_id).is_some());
}

// -- what may be taken up again -----------------------------------------------------

#[test]
fn non_retryable_rejects() {
    let p = failed_parent("t1", false);
    let err = validate_parent_for_recovery(&p, TransferRecoveryKind::Retry).unwrap_err();
    assert!(
        err.message().contains("non_retryable")
            || format!("{err:?}").contains("non_retryable")
            || err.message().contains("不可重试")
    );
    assert_eq!(err.message(), "non_retryable: 失败码 fatal 不可重试");
}

#[test]
fn active_phase_rejects() {
    let mut p = failed_parent("t2", true);
    p.status = TransferStatus::Transferring;
    p.phase = Some(TransferPhase::Transferring);
    let err = validate_parent_for_recovery(&p, TransferRecoveryKind::Resume).unwrap_err();
    let s = err.message();
    assert!(s.contains("transfer_active") || s.contains("活跃"));
}

#[test]
fn logical_identity_and_same_op_helpers() {
    let mut p = failed_parent("parent-id", true);
    p.logical_transfer_id = String::new();
    assert_eq!(resolve_logical_transfer_id(&p), "parent-id");
    p.logical_transfer_id = "logical-z".into();
    assert_eq!(resolve_logical_transfer_id(&p), "logical-z");
    assert!(is_same_client_operation(Some("op-1"), Some("op-1")));
    assert!(!is_same_client_operation(Some("op-1"), Some("op-2")));
    assert!(!is_same_client_operation(Some("op-1"), None));
}

#[test]
fn cancelled_rejects_resume() {
    let mut p = failed_parent("t3", true);
    p.status = TransferStatus::Cancelled;
    p.phase = Some(TransferPhase::Cancelled);
    p.failure = None;
    let err = validate_parent_for_recovery(&p, TransferRecoveryKind::Resume).unwrap_err();
    assert!(err.message().contains("retry") || err.message().contains("cancelled"));
    assert!(validate_parent_for_recovery(&p, TransferRecoveryKind::Retry).is_ok());
}

#[test]
fn receives_and_completed_sends_are_not_taken_up() {
    let mut p = failed_parent("t", true);
    assert!(validate_parent_for_recovery(&p, TransferRecoveryKind::Resume).is_ok());
    p.direction = TransferDirection::Receive;
    let err = validate_parent_for_recovery(&p, TransferRecoveryKind::Retry).unwrap_err();
    assert_eq!(err.message(), "仅发送方向任务支持 retry/resume");
    let mut p = failed_parent("t", true);
    p.phase = Some(TransferPhase::Completed);
    let err = validate_parent_for_recovery(&p, TransferRecoveryKind::Retry).unwrap_err();
    assert!(matches!(err, AppError::Validation(_)));
    let mut p = failed_parent("t", true);
    p.status = TransferStatus::Pending;
    let err = validate_parent_for_recovery(&p, TransferRecoveryKind::Retry).unwrap_err();
    assert!(matches!(err, AppError::Conflict(_)));
}

#[test]
fn history_active_logical_blocks_new_recovery_lookup() {
    let active = Some(queued_child("child-1", "parent-logical", "op-child"));
    let row = active.as_ref().unwrap();
    assert_eq!(row.id, "child-1");
    assert!(is_same_client_operation(row.client_operation_id.as_deref(), Some("op-child")));
    assert!(!is_same_client_operation(row.client_operation_id.as_deref(), Some("op-other")));
    let check = |op| ensure_no_active_logical_recovery(&active, "parent-logical", "parent-logical", op);
    assert!(check("op-child").is_ok());
    let err = check("op-other").unwrap_err();
    assert_eq!(
        err.message(),
        "logical_transfer_active: logical_transfer_id=parent-logical 已有活跃 attempt child-1"
    );
    assert!(ensure_no_active_logical_recovery(&None, "l", "x", "op").is_ok());
    assert!(ensure_no_active_logical_recovery(&active, "l", "child-1", "op").is_ok());
}

#[test]
fn an_attempt_in_progress_blocks_other_operations() {
    let mut reg = TransferRegistry::new();
    reg.add(queued_child("child-1", "logical", "op-child"));
    assert!(find_active_logical_recovery(&reg, "logical", "p", "op-child").is_ok());
    assert!(find_active_logical_recovery(&reg, "other", "p", "op-other").is_ok());
    assert!(find_active_logical_recovery(&reg, "logical", "child-1", "op-other").is_ok());
    let err = find_active_logical_recovery(&reg, "logical", "p", "op-other").unwrap_err();
    assert!(matches!(err, AppError::Conflict(_)));
    reg.mark_failed("child-1", "now".to_string());
    assert!(find_active_logical_recovery(&reg, "logical", "p", "op-other").is_ok());
}

#[test]
fn source_changed_rejects_fingerprint() {
    let mut task = failed_parent("t4", true);
    task.size = 11;
    task.sha256 = "00".into();
    let source = || SourceState { size: 11, modified: None, sha256: sha_of(b"hello-world") };
    let err = recheck_source_fingerprint(&task, source()).unwrap_err();
    assert!(err.message().contains("source_changed") || format!("{err:?}").contains("source_changed"));
    assert_eq!(err.message(), "source_changed: SHA 不匹配（期望 00）");
    task.sha256 = sha_of(b"hello-world");
    task.size = 12;
    let err = recheck_source_fingerprint(&task, source()).unwrap_err();
    assert_eq!(err.message(), "source_changed: 大小不匹配（期望 12 实际 11）");
    task.size = 0;
    task.sha256 = String::new();
    let seen = SourceState { modified: Some((2, 5)), ..source() };
    let fp = recheck_source_fingerprint(&task, seen).unwrap();
    assert_eq!((fp.size, fp.mtime_ns), (11, Some(2_000_000_005)));
    let far = SourceState { modified: Some((u64::MAX, 0)), ..source() };
    assert_eq!(recheck_source_fingerprint(&task, far).unwrap().mtime_ns, None);
}

#[test]
fn a_peer_must_be_able_to_resume() {
    assert!(ensure_peer_resume_capability("p", PeerProbe::Info(modern())).is_ok());
    let err = ensure_peer_resume_capability("p", PeerProbe::Info(legacy())).unwrap_err();
    assert_eq!(err.message(), "unsupported: 对端不支持 transfer.resume.v1，请使用 retry");
    let err = ensure_peer_resume_capability("p", PeerProbe::Offline).unwrap_err();
    assert!(matches!(err, AppError::NotFound(_)));
    let err = ensure_peer_resume_capability("p", PeerProbe::Failed("down".to_string())).unwrap_err();
    assert!(matches!(err, AppError::Unavailable(_)));
}

#[test]
fn retry_payload_hash_ignores_random_protocol_placeholder() {
    let hash = |protocol: &str| {
        assert!(recovery_payload_fits(
            TransferRecoveryKind::Retry,
            "logical-1",
            "/tmp/a",
            "peer",
            protocol
        ));
        canonical_recovery_payload_hash(
            TransferRecoveryKind::Retry,
            "logical-1",
            "/tmp/a",
            "peer",
            protocol,
        )
    };
    let a = hash("");
    let b = hash("");
    assert_eq!(a, b);
    let polluted = hash("uuid-random-1");
    assert_ne!(a, polluted);
    assert_eq!(a, sha_of(b"5:retry9:logical-16:/tmp/a4:peer0:"));
}

#[test]
fn same_id_different_kind_payload_conflicts() {
    let retry = canonical_recovery_payload_hash(
        TransferRecoveryKind::Retry,
        "logical-1",
        "/tmp/a",
        "peer",
        "",
    );
    let resume = canonical_recovery_payload_hash(
        TransferRecoveryKind::Resume,
        "logical-1",
        "/tmp/a",
        "peer",
        "proto-stable",
    );
    assert_ne!(retry, resume);
    let mut reg = TransferRegistry::new();
    let claim = claim_of(retry_transfer(&reg, "parent".to_string(), "op-mixed".to_string()), &mut reg);
    let existing = queued_child("a1", "parent", "op-mixed");
    match claim.claimed(&reg, Ok(SenderClaimOutcome::Conflict { existing })) {
        RecoveryNext::Refused(AppError::Conflict(m)) => {
            assert_eq!(m, "operationIdConflict: clientOperationId 已绑定不同 payload")
        }
        _ => panic!("refused"),
    }
}

// -- starting a recovery ------------------------------------------------------------

fn unchanged() -> SourceState {
    SourceState { size: 10, modified: None, sha256: "deadbeef".to_string() }
}

/// Takes a recovery of `failed_parent("parent", true)` up to its claim.
fn claim_of(mut next: RecoveryNext, reg: &mut TransferRegistry) -> RecoveryClaim {
    loop {
        next = match next {
            RecoveryNext::LookupParent(s) => s.looked_up(reg, Ok(Some(failed_parent("parent", true)))),
            RecoveryNext::LookupActive(s) => s.looked_up(Ok(None)),
            RecoveryNext::InspectSource(s) => {
                assert!(recovery_request_fits(&s.request, &s.parent, &s.logical_id));
                s.inspected(SourceInspection::Found(unchanged()), "now".to_string())
            }
            RecoveryNext::ProbePeer(s) => s.probed(PeerProbe::Info(modern()), "now".to_string()),
            RecoveryNext::Claim(c) => return c,
            _ => panic!("claimed"),
        }
    }
}

#[test]
fn a_retry_starts_over_and_a_resume_goes_on() {
    let mut reg = TransferRegistry::new();
    let retry = claim_of(retry_transfer(&reg, "parent".to_string(), "op-1".to_string()), &mut reg);
    let task = &retry.task;
    assert_eq!(task.id.len(), 36);
    assert_eq!(task.protocol_transfer_id, task.id);
    assert_eq!(task.attempt_id, task.id);
    assert_eq!(task.attempt, 2);
    assert_eq!(task.logical_transfer_id, "parent");
    assert_eq!(task.status, TransferStatus::Pending);
    assert_eq!(task.phase, Some(TransferPhase::Queued));
    assert_eq!(task.client_operation_id.as_deref(), Some("op-1"));
    assert_eq!(task.operation_payload_hash.as_deref(), Some(retry.payload_hash.as_str()));
    let again = claim_of(retry_transfer(&reg, "parent".to_string(), "op-1".to_string()), &mut reg);
    assert_ne!(again.task.id, retry.task.id);
    assert_eq!(again.payload_hash, retry.payload_hash);
    let resume = claim_of(resume_transfer(&reg, "parent".to_string(), "op-2".to_string()), &mut reg);
    assert_eq!(resume.task.protocol_transfer_id, "parent");
    assert_eq!(wire_id(&resume.task), "parent");
    assert_ne!(resume.payload_hash, retry.payload_hash);
}

#[test]
fn a_recovery_is_refused_for_a_reason() {
    let mut reg = TransferRegistry::new();
    let unknown = match retry_transfer(&reg, "nobody".to_string(), "op".to_string()) {
        RecoveryNext::LookupParent(s) => s.looked_up(&reg, Ok(None)),
        _ => panic!("looked up"),
    };
    match unknown {
        RecoveryNext::Refused(AppError::NotFound(m)) => assert_eq!(m, "传输任务不存在: nobody"),
        _ => panic!("refused"),
    }
    let found = |reg: &TransferRegistry| match retry_transfer(reg, "p".to_string(), "op".to_string()) {
        RecoveryNext::LookupParent(s) => s.looked_up(reg, Ok(Some(failed_parent("p", true)))),
        _ => panic!("looked up"),
    };
    let active = match found(&reg) {
        RecoveryNext::LookupActive(s) => s.looked_up(Ok(Some(queued_child("c", "p", "op-other")))),
        _ => panic!("looked up"),
    };
    assert!(matches!(active, RecoveryNext::Refused(AppError::Conflict(_))));
    let gone = match found(&reg) {
        RecoveryNext::LookupActive(s) => match s.looked_up(Ok(None)) {
            RecoveryNext::InspectSource(s) => s.inspected(SourceInspection::Missing, "now".to_string()),
            _ => panic!("inspected"),
        },
        _ => panic!("looked up"),
    };
    match gone {
        RecoveryNext::Refused(AppError::NotFound(m)) => assert_eq!(m, "源文件不存在: /tmp/f.bin"),
        _ => panic!("refused"),
    }
    reg.add(queued_child("c", "p", "op-other"));
    assert!(matches!(found(&reg), RecoveryNext::Refused(AppError::Conflict(_))));
    reg.add(TransferTask { status: TransferStatus::Transferring, phase: None, ..failed_parent("q", true) });
    match retry_transfer(&reg, "q".to_string(), "op".to_string()) {
        RecoveryNext::Refused(AppError::Conflict(m)) => assert!(m.contains("transfer_active")),
        _ => panic!("refused"),
    }
}

#[test]
fn a_fresh_claim_is_checked_again_before_it_runs() {
    let mut reg = TransferRegistry::new();
    let claim = |reg: &mut TransferRegistry| {
        let c = claim_of(retry_transfer(reg, "parent".to_string(), "op-1".to_string()), reg);
        let task = c.task.clone();
        match c.claimed(reg, Ok(SenderClaimOutcome::Fresh(task))) {
            RecoveryNext::RecheckActive(s) => s,
            _ => panic!("checked"),
        }
    };
    let overtaken = claim(&mut reg).looked_up(
        &reg,
        Ok(Some(queued_child("c", "parent", "op-2"))),
        "later",
    );
    match overtaken {
        RecoveryNext::RecordFailed(s) => {
            assert_eq!(s.row.failure.as_ref().unwrap().code, "logical_recovery_conflict");
            assert!(matches!(s.recorded(Ok(())), RecoveryNext::Refused(AppError::Conflict(_))));
        }
        _ => panic!("given up"),
    }
    let recheck = |reg: &mut TransferRegistry| match claim(reg).looked_up(reg, Ok(None), "later") {
        RecoveryNext::RecheckSource(s) => s,
        _ => panic!("checked"),
    };
    let state = recheck(&mut reg);
    let changed = SourceState { sha256: "other".to_string(), ..unchanged() };
    match state.inspected(&mut reg, Ok(changed), "later") {
        RecoveryNext::Refused(AppError::Conflict(m)) => assert!(m.contains("source_changed")),
        _ => panic!("refused"),
    }
    let state = recheck(&mut reg);
    let id = state.task.id.clone();
    match state.inspected(&mut reg, Ok(unchanged()), "later") {
        RecoveryNext::Started { task, job } => {
            assert_eq!(task.id, id);
            assert_eq!(job.transfer_id, id);
            assert_eq!(job.wire_id, id);
            assert_eq!(job.file_size, 10);
        }
        _ => panic!("started"),
    }
    assert!(reg.get(&id).is_some());
}

#[test]
fn duplicate_resume_request_creates_one_attempt() {
    let mut reg = TransferRegistry::new();
    let first = claim_of(resume_transfer(&reg, "parent".to_string(), "op-1".to_string()), &mut reg);
    let hash = first.payload_hash.clone();
    let kept = first.task.clone();
    let started = match first.claimed(&reg, Ok(SenderClaimOutcome::Fresh(kept.clone()))) {
        RecoveryNext::RecheckActive(s) => match s.looked_up(&reg, Ok(None), "later") {
            RecoveryNext::RecheckSource(s) => s.inspected(&mut reg, Ok(unchanged()), "later"),
            _ => panic!("checked"),
        },
        _ => panic!("checked"),
    };
    assert!(matches!(started, RecoveryNext::Started { .. }));
    let second = claim_of(resume_transfer(&reg, "parent".to_string(), "op-1".to_string()), &mut reg);
    assert_eq!(second.payload_hash, hash);
    match second.claimed(&reg, Ok(SenderClaimOutcome::Replay(kept.clone()))) {
        RecoveryNext::Replay(ReplayNext::Running(t)) => assert_eq!(t.id, kept.id),
        _ => panic!("replayed"),
    }
    assert_eq!(reg.list().len(), 1);
}

#[test]
fn a_replayed_operation_is_run_only_if_it_has_not_ended() {
    let mut reg = TransferRegistry::new();
    match ensure_replayed_attempt_running(&reg, failed_parent("t", true)) {
        ReplayNext::Refused(AppError::Conflict(m)) => assert_eq!(
            m,
            "operation_terminal: clientOperationId 已有终态 failed (chunk_failed)，请使用新的 clientOperationId"
        ),
        _ => panic!("refused"),
    }
    let orphan = || queued_child("o", "l", "op");
    match ensure_replayed_attempt_running(&reg, orphan()) {
        ReplayNext::InspectSource(s) => match s.inspected(&mut reg, SourceInspection::Missing, "later") {
            ReplayNext::RecordFailed(s) => {
                assert_eq!(s.row.failure.as_ref().unwrap().code, "source_missing");
                match s.recorded(Ok(())) {
                    ReplayNext::Refused(AppError::NotFound(m)) => {
                        assert_eq!(m, "源文件不存在: /tmp/f.bin")
                    }
                    _ => panic!("refused"),
                }
            }
            _ => panic!("recorded"),
        },
        _ => panic!("inspected"),
    }
    match ensure_replayed_attempt_running(&reg, orphan()) {
        ReplayNext::InspectSource(s) => {
            match s.inspected(&mut reg, SourceInspection::Found(unchanged()), "later") {
                ReplayNext::Started { task, job } => {
                    assert_eq!(task.id, "o");
                    assert_eq!(job.wire_id, "proto-child");
                }
                _ => panic!("started"),
            }
        }
        _ => panic!("inspected"),
    }
    assert!(matches!(ensure_replayed_attempt_running(&reg, orphan()), ReplayNext::Running(_)));
}

#[test]
fn insert_before_spawn_rows_are_recoverable() {
    let mut reg = TransferRegistry::new();
    reg.add(queued_child("running", "l0", "op-0"));
    let rows = vec![
        queued_child("running", "l0", "op-0"),
        queued_child("A", "L", "op-rec"),
        queued_child("gone", "l2", "op-2"),
        queued_child("changed", "l3", "op-3"),
    ];
    let mut sweep = recover_pending_claimed_operations(rows);
    let mut failed = vec![];
    let mut started = vec![];
    let recovered = loop {
        match sweep.advance(&reg) {
            PendingNext::InspectSource(s) => {
                let source = match s.task.id.as_str() {
                    "A" => SourceInspection::Found(unchanged()),
                    "gone" => SourceInspection::Missing,
                    _ => SourceInspection::Failed(AppError::generic("unreadable".to_string())),
                };
                sweep = match s.inspected(&mut reg, source, "later") {
                    PendingNext::RecordFailed { row, sweep } => {
                        let failure = row.failure.unwrap();
                        failed.push((row.id, failure.code, failure.message));
                        sweep
                    }
                    PendingNext::Started { job, sweep } => {
                        started.push(job.transfer_id);
                        sweep
                    }
                    _ => panic!("dealt with"),
                };
            }
            PendingNext::Done(n) => break n,
            _ => panic!("inspected"),
        }
    };
    assert_eq!(recovered, 1);
    assert_eq!(started, vec!["A".to_string()]);
    assert_eq!(
        failed,
        vec![
            (
                "gone".to_string(),
                "source_missing".to_string(),
                "启动恢复时源文件不存在".to_string()
            ),
            ("changed".to_string(), "source_changed".to_string(), "unreadable".to_string()),
        ]
    );
    assert!(reg.get("A").is_some());
}

// -- answering for an operation ---------------------------------------------------

#[test]
fn a_task_answers_for_its_operation() {
    assert!(matches!(operation_status_from_task(None), TransferOperationStatus::NotFound));
    let mut t = queued_child("t", "l", "op");
    assert!(matches!(operation_status_from_task(Some(&t)), TransferOperationStatus::Pending));
    t.status = TransferStatus::Completed;
    match operation_status_from_task(Some(&t)) {
        TransferOperationStatus::Succeeded { task_id } => assert_eq!(task_id, "t"),
        other => panic!("unexpected {other:?}"),
    }
    let code = |t: &TransferTask| match operation_status_from_task(Some(t)) {
        TransferOperationStatus::Failed { code } => code,
        other => panic!("unexpected {other:?}"),
    };
    t.status = TransferStatus::Failed;
    assert_eq!(code(&t), "failed");
    assert_eq!(code(&failed_parent("f", true)), "chunk_failed");
    t.status = TransferStatus::Cancelled;
    assert_eq!(code(&t), "cancelled");
}

#[test]
fn the_newest_attempt_answers() {
    let mut reg = TransferRegistry::new();
    assert!(find_active_by_client_operation_id(&reg, "op").is_none());
    reg.add(queued_child("old", "l", "op"));
    reg.add(TransferTask {
        created_at: "2026-07-15T00:00:00Z".into(),
        ..queued_child("new", "l", "op")
    });
    assert_eq!(find_active_by_client_operation_id(&reg, "op").unwrap().id, "new");
    assert!(find_active_by_client_operation_id(&reg, "other").is_none());
}

#[test]
fn an_unknown_operation_is_not_found() {
    let reg = TransferRegistry::new();
    assert!(matches!(
        get_transfer_operation(&reg, "  "),
        OperationNext::Reply(Ok(TransferOperationStatus::NotFound))
    ));
    let lookup = |row| match get_transfer_operation(&reg, " op ") {
        OperationNext::LookupHistory(s) => {
            assert_eq!(s.client_operation_id, "op");
            s.looked_up(row)
        }
        _ => panic!("looked up"),
    };
    assert!(matches!(
        lookup(Ok(None)),
        OperationNext::Reply(Ok(TransferOperationStatus::NotFound))
    ));
    assert!(matches!(
        lookup(Ok(Some(failed_parent("t", true)))),
        OperationNext::Reply(Ok(TransferOperationStatus::Failed { .. }))
    ));
    assert!(matches!(
        lookup(Err(AppError::generic("down".to_string()))),
        OperationNext::Reply(Err(_))
    ));
    assert!(matches!(
        lookup(Ok(Some(queued_child("t", "l", "op")))),
        OperationNext::Reconcile(ReconcileNext::FindPeer(_))
    ));
}

#[test]
fn only_the_peer_settles_a_lost_answer() {
    let mut reg = TransferRegistry::new();
    reg.add(queued_child("t", "l", "op"));
    let ask = |reg: &TransferRegistry| match get_transfer_operation(reg, "op") {
        OperationNext::Reconcile(ReconcileNext::FindPeer(s)) => match s.found(Some(address())) {
            ReconcileNext::AskStatus(s) => {
                assert_eq!(s.wire_id, "proto-child");
                s
            }
            _ => panic!("asked"),
        },
        _ => panic!("settled"),
    };
    let says = |status: &str| Ok(StatusReply { status: Some(status.to_string()) });
    for answer in [Err("down".to_string()), says("transferring"), Ok(StatusReply { status: None })] {
        let state = ask(&reg);
        match state.answered(&mut reg, answer, "end") {
            ReconcileNext::Done { result: Ok(None), event: None } => {}
            _ => panic!("still open"),
        }
        assert_eq!(reg.get("t").unwrap().status, TransferStatus::Pending);
    }
    assert!(matches!(operation_reconciled(Ok(None)), Ok(TransferOperationStatus::Pending)));
    let state = ask(&reg);
    let commit = match state.answered(&mut reg, says("completed"), "end") {
        ReconcileNext::Commit(c) => c,
        _ => panic!("committed"),
    };
    match commit.recorded(&mut reg, Ok(())) {
        ReconcileNext::Done { result: Ok(Some(task)), event: Some(TransferEvent::Completed { .. }) } => {
            assert_eq!(task.client_operation_id.as_deref(), Some("op"));
            assert!(matches!(
                operation_reconciled(Ok(Some(task))),
                Ok(TransferOperationStatus::Succeeded { .. })
            ));
        }
        _ => panic!("settled"),
    }
    assert!(reg.get("t").is_none());
    let received = TransferTask { direction: TransferDirection::Receive, ..queued_child("r", "l", "op") };
    assert!(matches!(
        reconcile_lost_final_ack(&received),
        ReconcileNext::Done { result: Ok(None), event: None }
    ));
    match reconcile_lost_final_ack(&queued_child("s", "l", "op")) {
        ReconcileNext::FindPeer(s) => {
            assert!(matches!(s.found(None), ReconcileNext::Done { result: Ok(None), .. }))
        }
        _ => panic!("found"),
    }
}

#[test]
fn a_status_must_say_completed() {
    assert!(peer_status_is_completed(&StatusReply { status: Some("completed".to_string()) }));
    assert!(!peer_status_is_completed(&StatusReply { status: Some("Completed".to_string()) }));
    assert!(!peer_status_is_completed(&StatusReply { status: None }));
    assert!(Clock::read().iso.len() >= 25);
}

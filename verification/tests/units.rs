//! The parts of the library one by one.
use lan_transfer::clock::Clock;
use lan_transfer::digest::{calculate_sha256, hex_of, sha_of, ContentHasher};
use lan_transfer::error::{AppError, IoFailure, IoKind};
use lan_transfer::ident::new_transfer_id;
use lan_transfer::paths::{join_path, LexPath};
use lan_transfer::platform::{
    ensure_plain_directory, is_unix, ErrorNumbers, Platform, FILE_ATTRIBUTE_DIRECTORY,
    FILE_ATTRIBUTE_REPARSE_POINT,
};
use lan_transfer::receiver::certify::{
    dirent_identity_via_parent, file_identity_from_std, BoundFileIdentity, ChildFacts, DirentNext,
};
use lan_transfer::receiver::default_chunk_size;
use lan_transfer::receiver::files::{
    fsync_dir, open_refused, open_regular_file_nofollow, rename_no_replace, rename_refused,
    write_bytes_create_new_nofollow, HandleFacts, NewFileNext, NewFileStep,
};
use lan_transfer::receiver::finalize::{
    promote_completed_to_durable, Failing, PlaceFinalError, PlacedFile, PromoteNext,
};
use lan_transfer::receiver::intent::{
    clear_finalize_intent, cleared_by_path, ensure_regular_intent_dir, finalize_intent_path,
    write_finalize_intent, ClearNext, ClearStep, DirEntry, IntentDirFacts, IntentDirNext, WriteNext, WriteStep,
};
use lan_transfer::receiver::names::{resolve_filename, NameSearch};
use lan_transfer::receiver::placement::{
    commit_tmp_to_final_no_replace, place_final_file_with_intent, CommitFinalError, CommitNext,
    CommitStep, PlaceJob, PlaceNext, PLACE_ATTEMPTS,
};
use lan_transfer::receiver::resume::{history_terminal_chunk_resp, history_terminal_status_resp};
use lan_transfer::receiver::validation::{
    ensure_path_within_dir, init_metadata_matches, receive_tmp_path, sanitize_receive_basename,
};
use lan_transfer::receiver::{ChunkResp, InitMeta};
use lan_transfer::registry::{
    TransferOutcome, TransferRegistry, TransferTombstone, TOMBSTONE_TTL_SECS,
};
use lan_transfer::task::{
    status_str, Progress, TransferDirection, TransferFailure, TransferFailureStage, TransferPhase,
    TransferStatus, TransferTask,
};
use lan_transfer::text::{contains_text, decimal_of, is_before, trim};
use lan_transfer::wide::{encode_wide, name_to_wide, relative_name_bytes, to_wide};
use lan_transfer::{is_mobile_inbox_device_id, CHUNK_SIZE, MOBILE_INBOX_DEVICE_ID};
use std::collections::BTreeMap;
use std::sync::Arc;
use std::time::{Duration, Instant};

const NUMBERS: ErrorNumbers = ErrorNumbers {
    exists: 17,
    too_many_links: 40,
    not_permitted: 1,
    no_such_call: 38,
    invalid: 22,
    not_supported: 95,
};

fn io(kind: IoKind, code: Option<i32>, message: &str) -> IoFailure {
    IoFailure { kind, code, message: message.to_string() }
}

// -- names ------------------------------------------------------------------

#[test]
fn receiver_test_resolve_filename_no_conflict() {
    let got = resolve_filename(Platform::Linux, &vec![], "file.txt");
    assert_eq!(got, "file.txt");
}

#[test]
fn receiver_test_resolve_filename_conflict_1() {
    let got = resolve_filename(Platform::Linux, &vec!["file.txt".to_string()], "file.txt");
    assert_eq!(got, "file (1).txt");
}

#[test]
fn receiver_test_resolve_filename_conflict_2() {
    let got = resolve_filename(
        Platform::Linux,
        &vec!["file.txt".to_string(), "file (1).txt".to_string()],
        "file.txt",
    );
    assert_eq!(got, "file (2).txt");
}

#[test]
fn receiver_test_resolve_filename_no_ext() {
    let got = resolve_filename(Platform::Linux, &vec!["README".to_string()], "README");
    assert_eq!(got, "README (1)");
}

#[test]
fn candidates_keep_the_last_extension_only() {
    let search = NameSearch::new("archive.tar.gz").taken();
    assert_eq!(search.candidate(), "archive.tar (1).gz");
    let search = NameSearch::new(".profile").taken();
    assert_eq!(search.candidate(), ".profile (1)");
    let search = NameSearch::new("trailing.").taken().taken();
    assert_eq!(search.candidate(), "trailing (2).");
    assert!(search.can_go_on());
    assert_eq!(search.restarted().candidate(), "trailing.");
}

#[test]
fn receiver_sanitize_receive_basename_rejects_escape_patterns() {
    assert!(sanitize_receive_basename(Platform::Linux, "ok.txt", "filename").is_ok());
    assert!(sanitize_receive_basename(Platform::Linux, "/tmp/x", "filename").is_err());
    assert!(sanitize_receive_basename(Platform::Linux, "../x", "filename").is_err());
    assert!(sanitize_receive_basename(Platform::Linux, "a/b", "filename").is_err());
    assert!(sanitize_receive_basename(Platform::Linux, "a\\b", "filename").is_err());
    assert!(sanitize_receive_basename(Platform::Linux, "..", "filename").is_err());
    assert!(sanitize_receive_basename(Platform::Linux, ".", "filename").is_err());
    assert!(sanitize_receive_basename(Platform::Linux, "", "filename").is_err());
    assert!(sanitize_receive_basename(Platform::Linux, "  ", "filename").is_err());
}

#[test]
fn tests_sanitize_receive_basename_rejects_escape_patterns() {
    assert!(sanitize_receive_basename(Platform::Linux, "ok.txt", "filename").is_ok());
    assert!(sanitize_receive_basename(Platform::Linux, "/tmp/x", "filename").is_err());
    assert!(sanitize_receive_basename(Platform::Linux, "../x", "filename").is_err());
    assert!(sanitize_receive_basename(Platform::Linux, "a/b", "filename").is_err());
    assert!(sanitize_receive_basename(Platform::Linux, "a\\b", "filename").is_err());
    assert!(sanitize_receive_basename(Platform::Linux, "..", "filename").is_err());
    assert!(sanitize_receive_basename(Platform::Linux, ".", "filename").is_err());
    assert!(sanitize_receive_basename(Platform::Linux, "", "filename").is_err());
    assert!(sanitize_receive_basename(Platform::Linux, "  ", "filename").is_err());
}

#[test]
fn a_clean_name_is_trimmed() {
    assert_eq!(sanitize_receive_basename(Platform::Linux, "  ok.txt\n", "filename").unwrap(), "ok.txt");
    assert_eq!(sanitize_receive_basename(Platform::Linux, "报告 1.txt", "filename").unwrap(), "报告 1.txt");
    assert!(sanitize_receive_basename(Platform::Linux, "a\0b", "filename").is_err());
}

#[test]
fn receiver_place_final_error_maps_durability_pending_to_unavailable() {
    let err: AppError = PlaceFinalError::DurabilityPending {
        placed: PlacedFile {
            final_filename: "a.txt".into(),
            final_path: "/tmp/a.txt".into(),
        },
        message: "fsync failed".into(),
    }
    .into();
    let msg = err.message();
    assert!(
        msg.contains("fsync failed")
            || msg.contains("Unavailable")
            || msg.contains("不可用")
            || msg.to_lowercase().contains("unavailable"),
        "unexpected: {msg}"
    );
    let unplaced: AppError = PlaceFinalError::Unplaced(AppError::generic("boom".to_string())).into();
    assert!(unplaced.message().contains("boom"));
}

#[test]
fn tests_place_final_error_maps_durability_pending_to_unavailable() {
    let err: AppError = PlaceFinalError::DurabilityPending {
        placed: PlacedFile {
            final_filename: "a.txt".into(),
            final_path: "/tmp/a.txt".into(),
        },
        message: "fsync failed".into(),
    }
    .into();
    assert!(matches!(err, AppError::Unavailable(_)));
    let msg = err.message();
    assert!(
        msg.contains("fsync failed")
            || msg.contains("Unavailable")
            || msg.contains("不可用")
            || msg.to_lowercase().contains("unavailable"),
        "unexpected: {msg}"
    );
    let unplaced: AppError = PlaceFinalError::Unplaced(AppError::generic("boom".to_string())).into();
    assert!(unplaced.message().contains("boom"));
}

// -- constants and ids --------------------------------------------------------

#[test]
fn the_inbox_is_recognised() {
    assert_eq!(MOBILE_INBOX_DEVICE_ID, "cc-partner-mobile-inbox");
    assert!(is_mobile_inbox_device_id("cc-partner-mobile-inbox"));
    assert!(!is_mobile_inbox_device_id("cc-partner-mobile-inbox "));
    assert!(!is_mobile_inbox_device_id(""));
}

#[test]
fn a_chunk_is_960_kib() {
    assert_eq!(CHUNK_SIZE, 960 * 1024);
    assert_eq!(default_chunk_size(), 983040);
}

#[test]
fn fresh_ids_are_random_uuids() {
    let a = new_transfer_id();
    let b = new_transfer_id();
    assert_ne!(a, b);
    for id in [a, b] {
        assert_eq!(id.len(), 36);
        for (i, c) in id.chars().enumerate() {
            if [8, 13, 18, 23].contains(&i) {
                assert_eq!(c, '-');
            } else {
                assert!(c.is_ascii_digit() || ('a'..='f').contains(&c));
            }
        }
        assert_eq!(id.chars().nth(14), Some('4'));
        assert_eq!(sanitize_receive_basename(Platform::Linux, &id, "transfer_id").unwrap(), id);
    }
}

#[test]
fn the_clock_reads_utc() {
    let clock = Clock::read();
    assert!(clock.iso.ends_with("+00:00"));
    assert!(clock.iso.len() >= 25);
    assert_eq!(&clock.iso[4..5], "-");
    assert_eq!(&clock.iso[10..11], "T");
    assert!(clock.at.elapsed() < Duration::from_secs(60));
}

// -- digests ------------------------------------------------------------------

#[test]
fn known_digests() {
    assert_eq!(
        sha_of(b""),
        "e3b0c44298fc1c149afbf4c8996fb92427ae41e4649b934ca495991b7852b855"
    );
    assert_eq!(
        sha_of(b"abc"),
        "ba7816bf8f01cfea414140de5dae2223b00361a396177a9cb410ff61f20015ad"
    );
}

#[test]
fn blocks_hash_like_the_whole() {
    let mut hasher = ContentHasher::new();
    assert!(hasher.has_room(3));
    hasher = hasher.feed(b"a");
    hasher = hasher.feed(b"bc");
    assert_eq!(hasher.finish(), sha_of(b"abc"));
    let blocks = vec![b"ab".to_vec(), vec![], b"c".to_vec()];
    assert_eq!(calculate_sha256(&blocks), sha_of(b"abc"));
    assert_eq!(calculate_sha256(&vec![]), sha_of(b""));
}

#[test]
fn hex_is_lower_case() {
    assert_eq!(hex_of(&vec![0x00, 0x9f, 0xa0, 0xff]), "009fa0ff");
}

// -- text and paths -----------------------------------------------------------

#[test]
fn texts() {
    assert_eq!(decimal_of(0), "0");
    assert_eq!(decimal_of(u64::MAX), "18446744073709551615");
    assert_eq!(trim("\t a b \u{3000}"), "a b");
    assert_eq!(trim(" \n "), "");
    assert!(contains_text("os error 2", "error"));
    assert!(contains_text("x", ""));
    assert!(!contains_text("", "x"));
    assert!(is_before("2026-07-14T00:00:00Z", "2026-07-14T00:01:00Z"));
    assert!(is_before("a", "ab"));
    assert!(!is_before("b", "ab"));
    assert!(!is_before("a", "a"));
}

#[test]
fn lexical_paths() {
    let parse = |s: &str| LexPath::parse(Platform::Linux, s);
    assert_eq!(join_path(Platform::Linux, "/recv", "a.txt"), "/recv/a.txt");
    assert_eq!(join_path(Platform::Linux, "/recv/", "a.txt"), "/recv/a.txt");
    assert_eq!(join_path(Platform::Linux, "/recv", "/etc/x"), "/etc/x");
    let p = parse("/recv/./a//b.txt");
    assert_eq!(p.file_name().as_deref(), Some("b.txt"));
    assert_eq!(p.parent().unwrap().render(Platform::Linux), "/recv/a");
    assert_eq!(parse("/recv/x/../a").normalized().render(Platform::Linux), "/recv/a");
    assert!(parse("/recv/a").starts_with(&parse("/recv")));
    assert!(!parse("/received/a").starts_with(&parse("/recv")));
    assert_eq!(parse("/").file_name(), None);
    assert!(parse("/").parent().is_none());
    assert_eq!(parse("..").file_name(), None);
    assert_eq!(parse("/recv/C:\\a").file_name().as_deref(), Some("C:\\a"));
}

#[test]
fn lexical_paths_on_windows() {
    let parse = |s: &str| LexPath::parse(Platform::Windows, s);
    for (dir, name, joined) in [
        (r"C:\recv", "a.txt", r"C:\recv\a.txt"),
        (r"C:\recv\", "a.txt", r"C:\recv\a.txt"),
        ("C:/recv/", "a.txt", "C:/recv/a.txt"),
        (r"C:\recv", r"D:\x", r"D:\x"),
        (r"C:\recv", r"\x", r"C:\x"),
        (r"\\?\C:\recv", "a.txt", r"\\?\C:\recv\a.txt"),
        (r"\\server\share\recv", "a.txt", r"\\server\share\recv\a.txt"),
        ("C:", "a.txt", "C:a.txt"),
    ] {
        assert_eq!(join_path(Platform::Windows, dir, name), joined);
    }
    for (path, name, parent) in [
        (r"C:\recv\a.txt", Some("a.txt"), Some(r"C:\recv")),
        (r"C:/recv/a.txt", Some("a.txt"), Some(r"C:\recv")),
        (r"\\?\C:\recv\a.txt", Some("a.txt"), Some(r"\\?\C:\recv")),
        (r"\\server\share\a.txt", Some("a.txt"), Some(r"\\server\share\")),
        (r"C:\", None, None),
        (r"C:a.txt", Some("a.txt"), Some("C:")),
    ] {
        let p = parse(path);
        assert_eq!(p.file_name().as_deref(), name);
        assert_eq!(p.parent().map(|d| d.render(Platform::Windows)).as_deref(), parent);
    }
    assert!(parse(r"C:\recv\a").starts_with(&parse(r"c:\recv")));
    assert!(!parse(r"D:\recv\a").starts_with(&parse(r"C:\recv")));
    assert!(!parse(r"\\?\C:\recv\a").starts_with(&parse(r"C:\recv")));
    assert_eq!(parse(r"C:\recv\x\..\a").normalized().render(Platform::Windows), r"C:\recv\a");
    // Under a verbatim prefix only the backslash separates.
    assert_eq!(parse(r"\\?\C:\recv\a/b").file_name().as_deref(), Some("a/b"));
}

#[test]
fn paths_stay_within_their_directory() {
    assert!(ensure_path_within_dir(Platform::Linux, "/recv", "/recv/a", Some("/recv"), Some("/recv")).is_ok());
    assert!(ensure_path_within_dir(Platform::Linux, "/recv", "/etc/a", Some("/recv"), Some("/etc")).is_err());
    assert!(ensure_path_within_dir(Platform::Linux, "/recv", "/recv/../etc/a", Some("/recv"), Some("/etc")).is_err());
    // A parent that cannot be resolved is taken as it is written, less the way up.
    let unresolved = |path: &str| {
        ensure_path_within_dir(Platform::Linux, "/srv/recv", path, Some("/srv/recv"), None)
    };
    assert!(unresolved("/srv/recv/new/x").is_ok());
    assert!(matches!(unresolved("/srv/recv/../evil/x"), Err(AppError::Validation(_))));
    assert!(matches!(unresolved("/srv/recv/a/../../evil/x"), Err(AppError::Validation(_))));
    assert!(matches!(unresolved("/srv/evil/x"), Err(AppError::Validation(_))));
    // The directory may be a link; its parent leads to the same place.
    assert!(ensure_path_within_dir(Platform::Linux, "/link", "/link/a", Some("/recv"), Some("/recv")).is_ok());
    assert!(ensure_path_within_dir(Platform::Linux, "/link", "/link/a", Some("/recv"), Some("/other")).is_err());
}

#[test]
fn paths_stay_within_their_directory_on_windows() {
    let within = |path: &str, base: Option<&str>, parent: Option<&str>| {
        ensure_path_within_dir(Platform::Windows, r"C:\recv", path, base, parent)
    };
    let base = Some(r"\\?\C:\recv");
    assert!(within(r"C:\recv\a.txt", base, Some(r"\\?\C:\recv")).is_ok());
    assert!(within(r"C:\recv\a.txt", base, Some(r"\\?\C:\other")).is_err());
    assert!(within(r"C:\recv\a.txt", None, None).is_ok());
    assert!(within(r"C:\recv\..\evil\a.txt", base, None).is_err());
    assert!(within(r"C:\evil\a.txt", base, None).is_err());
    let tmp = receive_tmp_path(Platform::Windows, r"C:\recv", "id-1", base, base).unwrap();
    assert_eq!(tmp, r"C:\recv\.id-1.tmp");
}

#[test]
fn a_name_with_a_drive_is_refused_on_windows() {
    for name in ["C:x", "c:", "C:x.txt"] {
        assert!(sanitize_receive_basename(Platform::Windows, name, "filename").is_err());
        assert_eq!(sanitize_receive_basename(Platform::Linux, name, "filename").unwrap(), name);
    }
    assert_eq!(sanitize_receive_basename(Platform::Windows, "ab:x", "filename").unwrap(), "ab:x");
    assert_eq!(sanitize_receive_basename(Platform::Windows, "a.txt", "filename").unwrap(), "a.txt");
}

#[test]
fn a_temporary_file_is_hidden_in_its_directory() {
    let path = receive_tmp_path(Platform::Linux, "/recv", "id-1", Some("/recv"), Some("/recv")).unwrap();
    assert_eq!(path, "/recv/.id-1.tmp");
    assert!(receive_tmp_path(Platform::Linux, "/recv", "../id", Some("/recv"), Some("/recv")).is_err());
}

#[test]
fn names_for_windows() {
    assert_eq!(encode_wide("a\u{1F600}"), vec![0x61, 0xD83D, 0xDE00]);
    assert_eq!(to_wide("ab").unwrap(), vec![0x61, 0x62, 0]);
    assert!(to_wide("a\0b").is_err());
    assert!(name_to_wide("").is_err());
    let wide = name_to_wide("ab").unwrap();
    assert_eq!(wide, vec![0x61, 0x62, 0]);
    assert_eq!(relative_name_bytes(&wide).unwrap(), 4);
}

// -- tasks and the registry -----------------------------------------------------

#[test]
fn statuses_have_names() {
    assert_eq!(status_str(TransferStatus::Pending), "pending");
    assert_eq!(status_str(TransferStatus::Transferring), "transferring");
    assert_eq!(status_str(TransferStatus::Completed), "completed");
    assert_eq!(status_str(TransferStatus::Failed), "failed");
    assert_eq!(status_str(TransferStatus::Cancelled), "cancelled");
}

#[test]
fn a_phase_is_taken_from_the_status() {
    let mut t = TransferTask::recovery_defaults("t");
    assert_eq!(t.effective_phase(), TransferPhase::Queued);
    t.status = TransferStatus::Cancelled;
    assert_eq!(t.effective_phase(), TransferPhase::Cancelled);
    t.phase = Some(TransferPhase::Finalizing);
    assert_eq!(t.effective_phase(), TransferPhase::Finalizing);
    t.size = 8;
    t.transferred_bytes = 2;
    assert_eq!(t.progress(), Progress { done: 2, total: 8 });
}

fn tomb(outcome: TransferOutcome, created_at: Instant) -> TransferTombstone {
    TransferTombstone {
        outcome,
        received_bytes: 10,
        size: 10,
        filename: "file.txt".to_string(),
        completed_at: "2026-01-01T00:00:00Z".to_string(),
        created_at,
    }
}

#[test]
fn finalize_lock_returns_same_arc_for_same_id() {
    let mut reg = TransferRegistry::new();
    let a = reg.finalize_lock("t1");
    let b = reg.finalize_lock("t1");
    assert!(Arc::ptr_eq(&a, &b));
    let c = reg.finalize_lock("t2");
    assert!(!Arc::ptr_eq(&a, &c));
}

#[test]
fn finalize_lock_provides_mutual_exclusion() {
    let runtime = tokio::runtime::Builder::new_current_thread().enable_time().build().unwrap();
    let mut reg = TransferRegistry::new();
    let g1 = reg.finalize_lock("t1");
    let g2 = reg.finalize_lock("t1");
    let elapsed = runtime.block_on(async move {
        let first = tokio::spawn(async move {
            let _g = g1.lock().await;
            tokio::time::sleep(Duration::from_millis(50)).await;
        });
        tokio::time::sleep(Duration::from_millis(10)).await;
        let start = Instant::now();
        let _g2 = g2.lock().await;
        let elapsed = start.elapsed();
        first.await.unwrap();
        elapsed
    });
    assert!(elapsed >= Duration::from_millis(30), "waited only {elapsed:?}");
}

#[test]
fn the_directory_has_a_lock_of_its_own() {
    let mut reg = TransferRegistry::new();
    let d = reg.receive_dir_lock();
    assert!(Arc::ptr_eq(&d, &reg.receive_dir_lock()));
    assert!(!Arc::ptr_eq(&d, &reg.finalize_lock("t1")));
    let held = d.try_lock().expect("free");
    assert!(reg.receive_dir_lock().try_lock().is_err());
    drop(held);
}

#[test]
fn old_tombstones_are_forgotten_to_the_second() {
    let mut reg = TransferRegistry::new();
    let start = Instant::now();
    let failed = TransferOutcome::Failed { error: "x".to_string() };
    reg.record_tombstone_at("t", tomb(failed, start), start);
    let last = start + Duration::from_secs(TOMBSTONE_TTL_SECS - 1);
    assert!(reg.tombstone_at("t", last).is_some());
    let after = start + Duration::from_secs(TOMBSTONE_TTL_SECS);
    assert!(reg.tombstone_at("t", after).is_none());
    assert!(reg.tombstone_at("t", start).is_none());
}

#[test]
fn a_tombstone_outlasts_what_happens_beside_it() {
    let mut reg = TransferRegistry::new();
    let start = Instant::now();
    let at = |secs: u64| start + Duration::from_secs(secs);
    let failed = |e: &str| TransferOutcome::Failed { error: e.to_string() };
    reg.record_tombstone_at("t", tomb(failed("mine"), start), start);
    for k in 1..TOMBSTONE_TTL_SECS {
        let other = format!("other-{k}");
        reg.record_tombstone_at(&other, tomb(failed("theirs"), at(k)), at(k));
        reg.add(TransferTask::recovery_defaults(&other));
        reg.set_status(&other, TransferStatus::Transferring);
        let found = reg.tombstone_at("t", at(k)).expect("still there");
        assert!(matches!(found.outcome, TransferOutcome::Failed { error } if error == "mine"));
    }
    assert!(reg.tombstone_at("never", at(1)).is_none());
    let tasks = reg.list().len();
    assert!(reg.tombstone_at("t", at(TOMBSTONE_TTL_SECS)).is_none());
    assert!(reg.tombstone_at("other-2", at(TOMBSTONE_TTL_SECS)).is_some());
    assert_eq!(reg.list().len(), tasks);
}

#[test]
fn the_registry_keeps_what_it_is_given() {
    let mut reg = TransferRegistry::default();
    let first = TransferTask {
        created_at: "2026-01-01T00:00:00Z".to_string(),
        size: 9,
        file_path: "/recv/.a.tmp".to_string(),
        ..TransferTask::recovery_defaults("a")
    };
    let second = TransferTask {
        created_at: "2026-01-02T00:00:00Z".to_string(),
        ..TransferTask::recovery_defaults("b")
    };
    reg.add(first);
    reg.add(second);
    let ids: Vec<String> = reg.list().into_iter().map(|t| t.id).collect();
    assert_eq!(ids, vec!["b".to_string(), "a".to_string()]);
    reg.update_progress("a", 4, TransferStatus::Transferring);
    let a = reg.get("a").unwrap();
    assert_eq!((a.transferred_bytes, a.status), (4, TransferStatus::Transferring));
    assert_eq!(reg.get("b").unwrap().transferred_bytes, 0);
    reg.set_phase("b", TransferPhase::Connecting);
    assert_eq!(reg.get("b").unwrap().phase, Some(TransferPhase::Connecting));
    reg.set_status("b", TransferStatus::Transferring);
    assert_eq!(reg.get("b").unwrap().status, TransferStatus::Transferring);
    reg.mark_completed("a", "now".to_string(), Some("/recv/a".to_string()));
    let a = reg.get("a").unwrap();
    assert_eq!(a.status, TransferStatus::Completed);
    assert_eq!(a.transferred_bytes, 9);
    assert_eq!(a.file_path, "/recv/a");
    assert_eq!(a.completed_at.as_deref(), Some("now"));
    reg.mark_failed("b", "later".to_string());
    assert_eq!(reg.get("b").unwrap().status, TransferStatus::Failed);
    assert!(reg.remove("b").is_some());
    assert!(reg.remove("b").is_none());
    assert!(reg.get("b").is_none());
    assert_eq!(reg.list().len(), 1);
}

#[test]
fn failures_are_kept_with_their_reason() {
    let mut reg = TransferRegistry::new();
    reg.add(TransferTask::recovery_defaults("a"));
    reg.mark_failed_with(
        "a",
        "now".to_string(),
        TransferFailure {
            stage: TransferFailureStage::Connect,
            code: "peer_offline".to_string(),
            retryable: true,
            message: "gone".to_string(),
        },
    );
    let a = reg.get("a").unwrap();
    assert_eq!(a.status, TransferStatus::Failed);
    assert_eq!(a.phase, Some(TransferPhase::Failed));
    assert_eq!(a.failure.unwrap().code, "peer_offline");
}

#[test]
fn a_cancelled_task_turns_its_switch() {
    let mut reg = TransferRegistry::new();
    reg.add(TransferTask::recovery_defaults("a"));
    let token = reg.cancel_token("a").expect("a switch");
    assert!(!token.is_cancelled());
    assert!(reg.cancel("a"));
    assert!(token.is_cancelled());
    assert!(!reg.cancel("b"));
    assert!(reg.cancel_token("b").is_none());
    reg.mark_cancelled("a", "now".to_string());
    assert_eq!(reg.get("a").unwrap().status, TransferStatus::Cancelled);
}

#[test]
fn tombstone_round_trip_completed() {
    let mut reg = TransferRegistry::new();
    let task = TransferTask {
        filename: "t1.txt".to_string(),
        size: 100,
        ..TransferTask::recovery_defaults("t1")
    };
    reg.add(task.clone());
    reg.remove("t1");
    reg.record_tombstone(
        "t1",
        TransferTombstone {
            outcome: TransferOutcome::Completed {
                final_filename: "t1.txt".to_string(),
                file_path: "/tmp/t1.txt".to_string(),
            },
            received_bytes: task.size,
            size: task.size,
            filename: task.filename.clone(),
            completed_at: "2026-07-12T00:00:01Z".to_string(),
            created_at: Instant::now(),
        },
    );
    let tomb = reg.tombstone("t1").expect("remembered");
    match tomb.outcome {
        TransferOutcome::Completed { final_filename, .. } => assert_eq!(final_filename, "t1.txt"),
        other => panic!("completed, not {other:?}"),
    }
    assert_eq!(tomb.received_bytes, 100);
}

#[test]
fn tombstone_round_trip_failed() {
    let mut reg = TransferRegistry::new();
    reg.record_tombstone(
        "t1",
        TransferTombstone {
            outcome: TransferOutcome::Failed { error: "SHA256 校验失败".to_string() },
            received_bytes: 80,
            size: 100,
            filename: "t1.txt".to_string(),
            completed_at: "2026-07-12T00:00:01Z".to_string(),
            created_at: Instant::now(),
        },
    );
    let tomb = reg.tombstone("t1").expect("remembered");
    match &tomb.outcome {
        TransferOutcome::Failed { error } => assert_eq!(error, "SHA256 校验失败"),
        other => panic!("failed, not {other:?}"),
    }
    assert_eq!(tomb.received_bytes, 80);
}

#[test]
fn tombstone_returns_none_when_absent() {
    let mut reg = TransferRegistry::new();
    assert!(reg.tombstone("never-existed").is_none());
}

#[test]
fn tombstone_prunes_expired_entries() {
    let mut reg = TransferRegistry::new();
    reg.record_tombstone(
        "expired",
        TransferTombstone {
            outcome: TransferOutcome::Failed { error: "old".to_string() },
            received_bytes: 0,
            size: 0,
            filename: String::new(),
            completed_at: "2026-07-12T00:00:01Z".to_string(),
            created_at: Instant::now() - Duration::from_secs(TOMBSTONE_TTL_SECS + 60),
        },
    );
    assert!(reg.tombstone("expired").is_none());
}

// -- history ------------------------------------------------------------------

#[test]
fn only_ended_receives_answer_from_history() {
    let row = |direction, status| {
        Some(TransferTask {
            direction,
            status,
            size: 10,
            transferred_bytes: 4,
            filename: "f".to_string(),
            ..TransferTask::recovery_defaults("t")
        })
    };
    let receive = TransferDirection::Receive;
    assert_eq!(
        history_terminal_chunk_resp(&row(receive, TransferStatus::Completed)),
        Some(ChunkResp { success: true, received_bytes: 10 })
    );
    assert_eq!(
        history_terminal_chunk_resp(&row(receive, TransferStatus::Failed)),
        Some(ChunkResp { success: false, received_bytes: 4 })
    );
    assert_eq!(history_terminal_chunk_resp(&row(receive, TransferStatus::Cancelled)), None);
    assert_eq!(history_terminal_chunk_resp(&row(receive, TransferStatus::Transferring)), None);
    assert_eq!(
        history_terminal_chunk_resp(&row(TransferDirection::Send, TransferStatus::Completed)),
        None
    );
    assert_eq!(history_terminal_chunk_resp(&None), None);
    let status = history_terminal_status_resp("t", &row(receive, TransferStatus::Cancelled)).unwrap();
    assert_eq!(status.status, "cancelled");
    assert_eq!(status.progress, Progress { done: 4, total: 10 });
    assert!(history_terminal_status_resp("t", &row(receive, TransferStatus::Pending)).is_none());
}

#[test]
fn metadata_match_in_every_field() {
    let task = TransferTask {
        filename: "a".to_string(),
        size: 3,
        sha256: "s".to_string(),
        chunk_size: 2,
        direction: TransferDirection::Receive,
        ..TransferTask::recovery_defaults("t")
    };
    let meta = |size, sha: &str, chunk_size| InitMeta {
        transfer_id: None,
        filename: " a ".to_string(),
        size,
        sha256: sha.to_string(),
        chunk_size,
    };
    assert!(init_metadata_matches(&task, &meta(3, "s", 2), "a"));
    assert!(!init_metadata_matches(&task, &meta(4, "s", 2), "a"));
    assert!(!init_metadata_matches(&task, &meta(3, "t", 2), "a"));
    assert!(!init_metadata_matches(&task, &meta(3, "s", 1), "a"));
    assert!(!init_metadata_matches(&task, &meta(3, "s", 2), "b"));
}

#[test]
fn only_completed_receives_are_promoted() {
    let mut task = TransferTask::recovery_defaults("t");
    match promote_completed_to_durable("t", &task) {
        PromoteNext::Done { result: Err(AppError::Validation(m)), event: None } => {
            assert_eq!(m, "仅 Receive 任务可晋升 durable 终态: t")
        }
        _ => panic!("refused"),
    }
    task.direction = TransferDirection::Receive;
    match promote_completed_to_durable("t", &task) {
        PromoteNext::Done { result: Err(AppError::Generic(m)), event: None } => {
            assert_eq!(m, "任务尚未 Completed，不能晋升 durable: t")
        }
        _ => panic!("refused"),
    }
    task.status = TransferStatus::Completed;
    assert!(matches!(promote_completed_to_durable("t", &task), PromoteNext::Certify(_)));
}

#[test]
fn a_failure_without_a_task_leaves_no_tombstone() {
    let mut reg = TransferRegistry::new();
    let failing = Failing::begin(&mut reg, "gone", "why".to_string(), "now".to_string());
    assert!(failing.row.is_none());
    failing.recorded(&mut reg, Instant::now());
    assert!(reg.tombstone("gone").is_none());
}

// -- opening, renaming, syncing ---------------------------------------------------

#[test]
fn a_link_is_refused_by_its_error_number() {
    let f = || io(IoKind::Unclassified, Some(40), "loop");
    match open_refused(Platform::Linux, NUMBERS, "/a", f()) {
        AppError::Io(e) => {
            assert_eq!(e.kind, IoKind::InvalidInput);
            assert_eq!(e.message, "拒绝跟随符号链接打开: /a: loop");
        }
        other => panic!("unexpected {other:?}"),
    }
    match open_refused(Platform::Windows, NUMBERS, "/a", f()) {
        AppError::Io(e) => assert_eq!(e.message, "loop"),
        other => panic!("unexpected {other:?}"),
    }
    match open_refused(Platform::Linux, NUMBERS, "/a", io(IoKind::NotFound, Some(2), "none")) {
        AppError::Io(e) => assert_eq!(e.kind, IoKind::NotFound),
        other => panic!("unexpected {other:?}"),
    }
}

#[test]
fn only_plain_files_are_used() {
    let plain = HandleFacts { is_symlink: false, is_file: true, attributes: 0 };
    assert!(open_regular_file_nofollow(Platform::Linux, "/a", plain).is_ok());
    let directory = HandleFacts { is_file: false, ..plain };
    assert!(open_regular_file_nofollow(Platform::Linux, "/a", directory).is_err());
    let reparse = HandleFacts { attributes: FILE_ATTRIBUTE_REPARSE_POINT, ..plain };
    assert!(open_regular_file_nofollow(Platform::Linux, "/a", reparse).is_ok());
    assert!(open_regular_file_nofollow(Platform::Windows, "/a", reparse).is_err());
}

/// A directory of names for files, and the files.
struct Names {
    names: BTreeMap<String, usize>,
    files: Vec<Vec<u8>>,
}

const TMP: &str = "/j/t.tmp";

/// Writes a file anew at a path that may be taken; the steps that were made.
fn write_anew(dir: &mut Names, bytes: &[u8], fails_at: &str) -> (Vec<String>, Result<(), AppError>) {
    let mut steps = vec![];
    let mut open: Option<usize> = None;
    let mut next = write_bytes_create_new_nofollow();
    loop {
        let step = match next {
            NewFileNext::Step(s) => s,
            NewFileNext::Done(r) => return (steps, r),
        };
        let name = format!("{step:?}").chars().take_while(|c| c.is_alphabetic()).collect::<String>();
        let outcome = if name == fails_at {
            Err(io(IoKind::Other, Some(5), "io"))
        } else {
            match &step {
                NewFileStep::ClearOld | NewFileStep::Undo(_) => match dir.names.remove(TMP) {
                    Some(_) => Ok(()),
                    None => Err(io(IoKind::NotFound, Some(2), "none")),
                },
                NewFileStep::Create => {
                    if dir.names.contains_key(TMP) {
                        Err(io(IoKind::AlreadyExists, Some(17), "exists"))
                    } else {
                        dir.files.push(vec![]);
                        open = Some(dir.files.len() - 1);
                        dir.names.insert(TMP.to_string(), dir.files.len() - 1);
                        Ok(())
                    }
                }
                NewFileStep::Write => {
                    let file = open.expect("created before it is written");
                    dir.files[file].extend_from_slice(bytes);
                    Ok(())
                }
                _ => Ok(()),
            }
        };
        steps.push(name);
        next = step.done(TMP, outcome);
    }
}

#[test]
fn receiver_write_bytes_create_new_nofollow_does_not_overwrite_existing_hardlink_target() {
    // The path names the same file as one outside.
    let victim = "/outside/victim-hardlink-target.json".to_string();
    let linked = || Names {
        names: BTreeMap::from([(victim.clone(), 0), (TMP.to_string(), 0)]),
        files: vec![b"KEEP-HARD".to_vec()],
    };
    let mut dir = linked();
    let (steps, result) = write_anew(&mut dir, b"OVERWRITE", "");
    assert_eq!(steps, vec!["ClearOld", "Create", "Write", "Flush", "Sync"]);
    assert!(result.is_ok());
    assert_eq!(dir.files[dir.names[&victim]], b"KEEP-HARD");
    assert_eq!(dir.files[dir.names[TMP]], b"OVERWRITE");
    for fails_at in ["Write", "Flush", "Sync"] {
        let mut dir = linked();
        let (steps, result) = write_anew(&mut dir, b"OVERWRITE", fails_at);
        assert_eq!(steps.last().unwrap(), "Undo");
        assert_eq!(result.unwrap_err().message(), "io");
        assert!(!dir.names.contains_key(TMP));
        assert_eq!(dir.files[dir.names[&victim]], b"KEEP-HARD");
    }
    let mut dir = linked();
    let (_, result) = write_anew(&mut dir, b"OVERWRITE", "Create");
    assert_eq!(result.unwrap_err().message(), "创建 intent 临时文件失败 /j/t.tmp: io");
    assert!(!dir.names.contains_key(TMP));
    assert_eq!(dir.files[dir.names[&victim]], b"KEEP-HARD");
}

#[test]
fn renames_never_ask_to_replace() {
    assert_eq!(rename_no_replace(Platform::Linux, "a", "b").unwrap(), 1);
    assert_eq!(rename_no_replace(Platform::MacOs, "a", "b").unwrap(), 4);
    assert_eq!(rename_no_replace(Platform::Windows, "a", "b").unwrap(), 0);
    let err = rename_no_replace(Platform::OtherUnix, "a", "b").unwrap_err();
    assert_eq!(err.kind, IoKind::Unsupported);
    let err = rename_no_replace(Platform::Linux, "a\0", "b").unwrap_err();
    assert_eq!(err.message, "tmp 路径含内部 NUL");
    let err = rename_no_replace(Platform::Linux, "a", "b\0").unwrap_err();
    assert_eq!(err.message, "final 路径含内部 NUL");
    let err = rename_no_replace(Platform::Windows, "a", "b\0").unwrap_err();
    assert_eq!(err.message, "路径含内部 NUL");
}

#[test]
fn failed_renames_are_told_apart() {
    let f = |code| io(IoKind::Unclassified, code, "m");
    let on = |platform, code| rename_refused(platform, NUMBERS, f(code)).kind;
    assert_eq!(on(Platform::Linux, Some(17)), IoKind::AlreadyExists);
    assert_eq!(on(Platform::Linux, Some(38)), IoKind::Unsupported);
    assert_eq!(on(Platform::Linux, Some(22)), IoKind::Unsupported);
    assert_eq!(on(Platform::MacOs, Some(95)), IoKind::Unsupported);
    assert_eq!(on(Platform::MacOs, Some(22)), IoKind::Unclassified);
    assert_eq!(on(Platform::Windows, Some(183)), IoKind::AlreadyExists);
    assert_eq!(on(Platform::Windows, Some(80)), IoKind::AlreadyExists);
    assert_eq!(on(Platform::Windows, Some(17)), IoKind::Unclassified);
    assert_eq!(on(Platform::Linux, None), IoKind::Unclassified);
    let unable = rename_refused(Platform::Linux, NUMBERS, f(Some(38)));
    assert_eq!(unable.message, "文件系统不支持 RENAME_NOREPLACE: m");
}

#[test]
fn a_directory_that_cannot_be_synced_is_named() {
    match fsync_dir(Platform::Linux, "/recv", io(IoKind::NotFound, Some(2), "none")) {
        AppError::Io(e) => assert_eq!(e.message, "打开目录以 fsync 失败 /recv: none"),
        other => panic!("unexpected {other:?}"),
    }
    match fsync_dir(Platform::Windows, "/recv", io(IoKind::NotFound, Some(2), "none")) {
        AppError::Io(e) => assert_eq!(e.message, "打开目录以 FlushFileBuffers 失败 /recv: none"),
        other => panic!("unexpected {other:?}"),
    }
}

#[test]
fn plain_directories_are_told_by_their_attributes() {
    assert!(is_unix(Platform::OtherUnix));
    assert!(!is_unix(Platform::Windows));
    assert!(ensure_plain_directory(FILE_ATTRIBUTE_DIRECTORY, "no", "linked").is_ok());
    let err = ensure_plain_directory(0, "no", "linked").unwrap_err();
    assert_eq!(err.message(), "no");
    let both = FILE_ATTRIBUTE_DIRECTORY | FILE_ATTRIBUTE_REPARSE_POINT;
    assert_eq!(ensure_plain_directory(both, "no", "linked").unwrap_err().message(), "linked");
}

#[test]
fn identities_on_windows_have_two_halves() {
    assert_eq!(
        file_identity_from_std(7, 1, 2),
        BoundFileIdentity { volume: 7, index: 0x1_0000_0002 }
    );
}

#[test]
fn an_entry_is_identified_through_its_directory() {
    let opened = match dirent_identity_via_parent(Platform::Windows, r"C:\recv\a.txt") {
        DirentNext::OpenParent(s) => {
            assert_eq!((s.parent.as_str(), s.name.as_str()), (r"C:\recv", "a.txt"));
            s.opened(Ok(FILE_ATTRIBUTE_DIRECTORY))
        }
        _ => panic!("the directory first"),
    };
    match opened {
        DirentNext::OpenChild(s) => {
            let facts = ChildFacts {
                attributes: FILE_ATTRIBUTE_REPARSE_POINT,
                identity: Ok(BoundFileIdentity { volume: 1, index: 2 }),
            };
            match s.opened(Ok(facts)) {
                DirentNext::Done(Err(e)) => {
                    assert_eq!(e.message(), "最终目录项不是普通文件（reparse/目录）")
                }
                _ => panic!("refused"),
            }
        }
        _ => panic!("the entry next"),
    }
    match dirent_identity_via_parent(Platform::Windows, r"C:\recv\a.txt") {
        DirentNext::OpenParent(s) => {
            let both = FILE_ATTRIBUTE_DIRECTORY | FILE_ATTRIBUTE_REPARSE_POINT;
            assert!(matches!(s.opened(Ok(both)), DirentNext::Done(Err(_))));
        }
        _ => panic!("the directory first"),
    }
    for (platform, path, message) in [
        (Platform::Linux, "/", "最终路径无父目录，无法确认目录项身份: /"),
        (Platform::Linux, "/recv/..", "最终路径无文件名，无法确认目录项身份: /recv/.."),
        (Platform::Other, "/recv/a", "当前平台无法经父目录确认文件身份"),
        (Platform::Linux, "/r\0/a", "父目录路径含内部 NUL"),
        (Platform::Linux, "/r/a\0", "最终文件名含内部 NUL"),
        (Platform::Windows, "C:\\r\\a\0", "相对路径名非法"),
        (Platform::Windows, "C:\\", "最终路径无父目录，无法确认目录项身份: C:\\"),
        (Platform::Windows, "C:\\r\\..", "最终路径无文件名，无法确认目录项身份: C:\\r\\.."),
    ] {
        match dirent_identity_via_parent(platform, path) {
            DirentNext::Done(Err(e)) => assert_eq!(e.message(), message),
            _ => panic!("refused"),
        }
    }
}

// -- moving a file into place -----------------------------------------------------

#[test]
fn a_move_reports_where_the_file_is() {
    let fail = || Err(io(IoKind::Other, Some(5), "io"));
    assert!(matches!(commit_tmp_to_final_no_replace(), CommitNext::Step(CommitStep::SyncTmp)));
    match CommitStep::SyncTmp.done(true, fail()) {
        CommitNext::Done(Err(CommitFinalError::Failed(f))) => assert_eq!(f.message, "sync tmp 失败: io"),
        other => panic!("unexpected {other:?}"),
    }
    match CommitStep::HardLink.done(true, fail()) {
        CommitNext::Step(CommitStep::Rename(link)) => {
            match CommitStep::Rename(link).done(true, Err(io(IoKind::Unsupported, None, "no"))) {
                CommitNext::Done(Err(CommitFinalError::Failed(f))) => {
                    assert_eq!(f.kind, IoKind::Unsupported);
                    assert_eq!(f.message, "hard_link 失败 (io) 且 no-replace rename 失败 (no)");
                }
                other => panic!("unexpected {other:?}"),
            }
        }
        other => panic!("unexpected {other:?}"),
    }
    for step in [CommitStep::SyncFinal, CommitStep::SyncParent] {
        match step.done(true, fail()) {
            CommitNext::Done(Err(CommitFinalError::DurabilityPending(f))) => {
                assert_eq!(f.message, "fsync final/receive_dir 失败: io")
            }
            other => panic!("unexpected {other:?}"),
        }
    }
    assert!(matches!(CommitStep::RemoveTmp.done(true, fail()), CommitNext::Step(CommitStep::SyncFinal)));
    assert!(matches!(CommitStep::SyncFinal.done(false, Ok(())), CommitNext::Done(Ok(()))));
    assert!(matches!(
        CommitStep::SyncFinal.done(true, Ok(())),
        CommitNext::Step(CommitStep::SyncParent)
    ));
}

fn place_job() -> PlaceJob {
    PlaceJob {
        platform: Platform::Linux,
        receive_dir: "/recv".to_string(),
        safe_filename: "a.txt".to_string(),
        tmp_path: "/recv/.t.tmp".to_string(),
        id: "t".to_string(),
        task: TransferTask::recovery_defaults("t"),
    }
}

#[test]
fn a_name_that_is_always_lost_is_given_up() {
    let mut next = place_final_file_with_intent(place_job());
    let mut intents = 0u32;
    let err = loop {
        next = match next {
            PlaceNext::ProbeName(s) => {
                assert_eq!(s.path(), "/recv/a.txt");
                s.probed(false)
            }
            PlaceNext::Resolve(s) => s.resolved(Some("/recv"), Some("/recv"), "now".to_string()),
            PlaceNext::WriteIntent(s) => {
                intents += 1;
                s.journaled(Ok(()))
            }
            PlaceNext::Commit(s) => s.committed(Err(CommitFinalError::AlreadyExists)),
            PlaceNext::Done(r) => break r.unwrap_err(),
        }
    };
    assert_eq!(intents, PLACE_ATTEMPTS);
    assert_eq!(AppError::from(err).message(), "无法分配不冲突的最终文件名（重试耗尽）");
}

#[test]
fn a_file_is_not_moved_without_its_intent() {
    let resolve = match place_final_file_with_intent(place_job()) {
        PlaceNext::ProbeName(s) => match s.probed(false) {
            PlaceNext::Resolve(s) => s,
            _ => panic!("resolved next"),
        },
        _ => panic!("probed first"),
    };
    let journal = match resolve.resolved(Some("/recv"), Some("/recv"), "now".to_string()) {
        PlaceNext::WriteIntent(s) => s,
        _ => panic!("written next"),
    };
    assert_eq!(journal.intent.final_path, "/recv/a.txt");
    assert_eq!(journal.intent.created_at, "now");
    match journal.journaled(Err(AppError::generic("disk full".to_string()))) {
        PlaceNext::Done(Err(PlaceFinalError::Unplaced(e))) => assert_eq!(e.message(), "disk full"),
        _ => panic!("not placed"),
    }
}

// -- the intent journal -----------------------------------------------------------

fn facts(entry: DirEntry) -> IntentDirFacts {
    IntentDirFacts {
        entry,
        is_dir: matches!(entry, DirEntry::Directory),
        canonical_dir: Some("/recv".to_string()),
        canonical_intent_dir: Some("/recv/.cc-partner-transfer-intents".to_string()),
    }
}

#[test]
fn an_intent_has_its_place() {
    let dir = facts(DirEntry::Directory);
    let path = finalize_intent_path(Platform::Linux, "/recv", "t1", &dir).unwrap();
    assert_eq!(path, "/recv/.cc-partner-transfer-intents/t1.json");
    assert!(finalize_intent_path(Platform::Linux, "/recv", "../t1", &dir).is_err());
    let err = finalize_intent_path(Platform::Linux, "/recv", "t1", &facts(DirEntry::Symlink)).unwrap_err();
    assert_eq!(
        err.message(),
        "intent 目录是符号链接，拒绝写入: /recv/.cc-partner-transfer-intents"
    );
    let err = finalize_intent_path(Platform::Linux, "/recv", "t1", &facts(DirEntry::Other)).unwrap_err();
    assert_eq!(err.message(), "intent 路径不是目录: /recv/.cc-partner-transfer-intents");
    let elsewhere = IntentDirFacts {
        canonical_intent_dir: Some("/etc".to_string()),
        ..facts(DirEntry::Directory)
    };
    assert!(finalize_intent_path(Platform::Linux, "/recv", "t1", &elsewhere).is_err());
    let names = write_finalize_intent(Platform::Linux, "/recv", "t1", &dir).unwrap();
    assert_eq!(names.intent_name, "t1.json");
    assert_eq!(names.tmp_name, "t1.json.tmp");
    assert!(write_finalize_intent(Platform::Other, "/recv", "t1", &dir).is_err());
    assert_eq!(clear_finalize_intent(Platform::Linux, "/recv", "t1", &dir).unwrap(), "t1.json");
}

#[test]
fn an_intent_has_its_place_on_windows() {
    let dir = IntentDirFacts {
        entry: DirEntry::Directory,
        is_dir: true,
        canonical_dir: Some(r"\\?\C:\recv".to_string()),
        canonical_intent_dir: Some(r"\\?\C:\recv\.cc-partner-transfer-intents".to_string()),
    };
    let path = finalize_intent_path(Platform::Windows, r"C:\recv", "t1", &dir).unwrap();
    assert_eq!(path, r"C:\recv\.cc-partner-transfer-intents\t1.json");
    let names = write_finalize_intent(Platform::Windows, r"C:\recv", "t1", &dir).unwrap();
    assert_eq!(names.intent_name, "t1.json");
    assert_eq!(names.tmp_name, "t1.json.tmp");
    let name = clear_finalize_intent(Platform::Windows, r"C:\recv", "t1", &dir).unwrap();
    assert_eq!(name, "t1.json");
    let elsewhere =
        IntentDirFacts { canonical_intent_dir: Some(r"\\?\D:\other".to_string()), ..dir };
    assert!(finalize_intent_path(Platform::Windows, r"C:\recv", "t1", &elsewhere).is_err());
}

#[test]
fn a_file_has_its_place_on_windows() {
    let job = PlaceJob {
        platform: Platform::Windows,
        receive_dir: r"C:\recv".to_string(),
        tmp_path: r"C:\recv\.t.tmp".to_string(),
        ..place_job()
    };
    let base = Some(r"\\?\C:\recv");
    let mut next = place_final_file_with_intent(job);
    let placed = loop {
        next = match next {
            PlaceNext::ProbeName(s) => {
                let present = s.path() == r"C:\recv\a.txt";
                s.probed(present)
            }
            PlaceNext::Resolve(s) => s.resolved(base, base, "now".to_string()),
            PlaceNext::WriteIntent(s) => s.journaled(Ok(())),
            PlaceNext::Commit(s) => s.committed(Ok(())),
            PlaceNext::Done(r) => break r.expect("placed"),
        }
    };
    assert_eq!(placed.final_filename, "a (1).txt");
    assert_eq!(placed.final_path, r"C:\recv\a (1).txt");
    // The name that a tombstone keeps is the last of the path.
    let mut reg = TransferRegistry::new();
    let task = TransferTask {
        direction: TransferDirection::Receive,
        status: TransferStatus::Completed,
        file_path: placed.final_path.clone(),
        ..TransferTask::recovery_defaults("t")
    };
    reg.add(task.clone());
    let certify = match promote_completed_to_durable("t", &task) {
        PromoteNext::Certify(s) => s,
        _ => panic!("certified first"),
    };
    match certify.certified(Ok(())) {
        PromoteNext::Record(s) => {
            s.recorded(&mut reg, Platform::Windows, Ok(()), &Clock::read());
        }
        _ => panic!("then recorded"),
    }
    match reg.tombstone("t").expect("a tombstone").outcome {
        TransferOutcome::Completed { final_filename, file_path, .. } => {
            assert_eq!(final_filename, "a (1).txt");
            assert_eq!(file_path, placed.final_path);
        }
        _ => panic!("completed"),
    }
}

#[test]
fn an_intent_cleared_by_its_path_may_be_missing() {
    assert!(cleared_by_path(Ok(())).is_ok());
    assert!(cleared_by_path(Err(io(IoKind::NotFound, Some(2), "none"))).is_ok());
    match cleared_by_path(Err(io(IoKind::Other, Some(13), "Permission denied"))) {
        Err(AppError::Io(f)) => assert_eq!((f.code, f.message.as_str()), (Some(13), "Permission denied")),
        other => panic!("unexpected {other:?}"),
    }
}

fn write_order(platform: Platform) -> Vec<String> {
    let mut step = WriteStep::OpenReceiveDir;
    let mut order = vec![];
    loop {
        order.push(format!("{step:?}"));
        match step.done(platform, NUMBERS, Ok(FILE_ATTRIBUTE_DIRECTORY)) {
            WriteNext::Step(s) => step = s,
            WriteNext::Done(r) => {
                assert!(r.is_ok());
                return order;
            }
        }
    }
}

#[test]
fn an_intent_is_written_in_order() {
    assert_eq!(
        write_order(Platform::Linux),
        vec![
            "OpenReceiveDir",
            "MakeIntentDir",
            "OpenIntentDir",
            "ClearTmp",
            "CreateTmp",
            "WriteTmp",
            "FlushTmp",
            "SyncTmp",
            "ClearOld",
            "Rename",
            "SyncDir"
        ]
    );
    assert_eq!(write_order(Platform::Windows).len(), 10);
    assert!(!write_order(Platform::Windows).contains(&"MakeIntentDir".to_string()));
}

#[test]
fn a_failed_write_is_undone() {
    let fail = || AppError::Io(io(IoKind::Other, Some(28), "No space left"));
    for step in [WriteStep::WriteTmp, WriteStep::FlushTmp, WriteStep::SyncTmp, WriteStep::Rename] {
        let undo = match step.done(Platform::Linux, NUMBERS, Err(fail())) {
            WriteNext::Step(s) => s,
            other => panic!("unexpected {other:?}"),
        };
        assert!(matches!(undo, WriteStep::Undo(_)));
        match undo.done(Platform::Linux, NUMBERS, Ok(0)) {
            WriteNext::Done(Err(e)) => assert_eq!(e.message(), fail().message()),
            other => panic!("unexpected {other:?}"),
        }
    }
    // What was left over before does not matter.
    assert!(matches!(
        WriteStep::ClearTmp.done(Platform::Linux, NUMBERS, Err(fail())),
        WriteNext::Step(WriteStep::CreateTmp)
    ));
    assert!(matches!(
        WriteStep::MakeIntentDir.done(
            Platform::Linux,
            NUMBERS,
            Err(AppError::Io(io(IoKind::AlreadyExists, Some(17), "exists")))
        ),
        WriteNext::Step(WriteStep::OpenIntentDir)
    ));
    let junction = FILE_ATTRIBUTE_DIRECTORY | FILE_ATTRIBUTE_REPARSE_POINT;
    match WriteStep::OpenIntentDir.done(Platform::Windows, NUMBERS, Ok(junction)) {
        WriteNext::Done(Err(e)) => {
            assert_eq!(e.message(), "intent 目录是 reparse/junction，拒绝写入")
        }
        other => panic!("unexpected {other:?}"),
    }
}

#[test]
fn what_is_not_there_needs_no_clearing() {
    let gone = || Err(AppError::Io(io(IoKind::NotFound, Some(2), "none")));
    for step in [ClearStep::OpenReceiveDir, ClearStep::OpenIntentDir, ClearStep::Unlink] {
        assert!(matches!(step.done(Platform::Linux, NUMBERS, gone()), ClearNext::Done(Ok(()))));
    }
    let denied = || Err(AppError::Io(io(IoKind::Other, Some(13), "Permission denied")));
    assert!(matches!(
        ClearStep::Unlink.done(Platform::Linux, NUMBERS, denied()),
        ClearNext::Done(Err(_))
    ));
    let linked = Err(AppError::Io(io(IoKind::Unclassified, Some(40), "loop")));
    assert!(matches!(
        ClearStep::OpenIntentDir.done(Platform::Linux, NUMBERS, linked),
        ClearNext::Done(Ok(()))
    ));
    let text = Err(AppError::generic("failed (os error 2)".to_string()));
    assert!(matches!(
        ClearStep::Unlink.done(Platform::Windows, NUMBERS, text),
        ClearNext::Done(Ok(()))
    ));
}

#[test]
fn the_intent_directory_is_made_if_need_be() {
    let look = match ensure_regular_intent_dir(Platform::Linux, "/recv", Some("/recv"), Some("/recv")) {
        IntentDirNext::Look(s) => s,
        _ => panic!("looked at first"),
    };
    let make = match look.looked(Err(io(IoKind::NotFound, Some(2), "none"))) {
        IntentDirNext::Make(s) => s,
        _ => panic!("then made"),
    };
    let look = match make.made(Ok(())) {
        IntentDirNext::Look(s) => s,
        _ => panic!("then looked at again"),
    };
    match look.looked(Ok(DirEntry::Symlink)) {
        IntentDirNext::Done(Err(e)) => assert_eq!(
            e.message(),
            "intent 目录创建后不是普通目录: /recv/.cc-partner-transfer-intents"
        ),
        _ => panic!("refused"),
    }
    match ensure_regular_intent_dir(Platform::Linux, "/recv", Some("/recv"), Some("/recv")) {
        IntentDirNext::Look(s) => match s.looked(Ok(DirEntry::Directory)) {
            IntentDirNext::Done(Ok(dir)) => assert_eq!(dir, "/recv/.cc-partner-transfer-intents"),
            _ => panic!("accepted"),
        },
        _ => panic!("looked at first"),
    }
}

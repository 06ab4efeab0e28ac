//! Receiving end to end, on files that are kept in memory.
use lan_transfer::clock::Clock;
use lan_transfer::digest::sha_of;
use lan_transfer::digest::{ContentHasher, HashNext};
use lan_transfer::error::{AppError, IoFailure, IoKind};
use lan_transfer::event::TransferEvent;
use lan_transfer::platform::{ErrorNumbers, Platform};
use lan_transfer::receiver::certify::{
    certify_final_file_for_history, dirent_identity_via_parent, BoundFileIdentity, CertifyNext,
    ChildFacts, DirentNext, OpenedFile,
};
use lan_transfer::receiver::chunk::{handle_chunk, handle_complete, ChunkNext, CompleteNext};
use lan_transfer::receiver::files::{
    open_receive_tmp_rw, open_refused, open_regular_file_nofollow, receive_tmp_len_nofollow,
    rename_refused, HandleFacts, TmpEntry, TmpMeasure, TmpOpenNext,
};
use lan_transfer::receiver::finalize::{
    finalize_transfer, FinalizeNext, PlaceFinalError, PlacedFile, PromoteNext,
};
use lan_transfer::receiver::init::{handle_init, InitNext};
use lan_transfer::receiver::intent::{
    clear_finalize_intent, write_finalize_intent, ClearNext, ClearStep, DirEntry, FinalizeIntent,
    IntentDirFacts, WriteNext, WriteStep, FINALIZE_INTENT_DIR,
};
use lan_transfer::receiver::placement::{
    commit_tmp_to_final_no_replace, place_final_file_with_intent, CommitFinalError, CommitNext,
    CommitStep, PlaceJob, PlaceNext,
};
use lan_transfer::receiver::resume::{
    try_recover_finalize_intent, FinalEntry, IntentRead, RecoverNext,
};
use lan_transfer::receiver::status::{handle_status, StatusNext};
use lan_transfer::receiver::{ChunkResp, InitMeta, InitResp, StatusResp};
use lan_transfer::registry::{TransferOutcome, TransferRegistry};
use lan_transfer::task::{TransferDirection, TransferStatus, TransferTask};
use lan_transfer::CHUNK_SIZE;
use std::collections::BTreeMap;
use std::time::Instant;

const DIR: &str = "/recv";

const NUMBERS: ErrorNumbers = ErrorNumbers {
    exists: 17,
    too_many_links: 40,
    not_permitted: 1,
    no_such_call: 38,
    invalid: 22,
    not_supported: 95,
};

/// What stands at a path.
enum Node {
    File { bytes: Vec<u8>, inode: u64 },
    Link(String),
    Dir,
}

/// A receive directory, a history and a registry, all in memory.
struct World {
    registry: TransferRegistry,
    nodes: BTreeMap<String, Node>,
    intents: BTreeMap<String, FinalizeIntent>,
    draft: Option<FinalizeIntent>,
    history: Vec<TransferTask>,
    history_down: bool,
    links_fail: bool,
    sync_final_fails: bool,
    synced: Vec<String>,
    next_inode: u64,
    events: Vec<TransferEvent>,
}

fn at(name: &str) -> String {
    format!("{DIR}/{name}")
}

fn io(kind: IoKind, code: Option<i32>, message: &str) -> IoFailure {
    IoFailure { kind, code, message: message.to_string() }
}

fn missing() -> IoFailure {
    io(IoKind::NotFound, Some(2), "No such file or directory")
}

fn taken() -> IoFailure {
    io(IoKind::AlreadyExists, Some(17), "File exists")
}

fn copy_intent(i: &FinalizeIntent) -> FinalizeIntent {
    FinalizeIntent {
        transfer_id: i.transfer_id.clone(),
        filename: i.filename.clone(),
        size: i.size,
        sha256: i.sha256.clone(),
        chunk_size: i.chunk_size,
        final_filename: i.final_filename.clone(),
        final_path: i.final_path.clone(),
        created_at: i.created_at.clone(),
    }
}

impl World {
    fn new() -> World {
        World {
            registry: TransferRegistry::new(),
            nodes: BTreeMap::new(),
            intents: BTreeMap::new(),
            draft: None,
            history: vec![],
            history_down: false,
            links_fail: false,
            sync_final_fails: false,
            synced: vec![],
            next_inode: 1,
            events: vec![],
        }
    }

    fn write(&mut self, path: &str, bytes: &[u8]) {
        let inode = self.next_inode;
        self.next_inode += 1;
        self.nodes.insert(path.to_string(), Node::File { bytes: bytes.to_vec(), inode });
    }

    fn link(&mut self, path: &str, target: &str) {
        self.nodes.insert(path.to_string(), Node::Link(target.to_string()));
    }

    fn read(&self, path: &str) -> Vec<u8> {
        match self.nodes.get(path) {
            Some(Node::File { bytes, .. }) => bytes.clone(),
            _ => panic!("no file at {path}"),
        }
    }

    fn has(&self, path: &str) -> bool {
        match self.nodes.get(path) {
            Some(Node::Link(target)) => self.has(target),
            Some(_) => true,
            None => false,
        }
    }

    fn is_link(&self, path: &str) -> bool {
        matches!(self.nodes.get(path), Some(Node::Link(_)))
    }

    fn intent(&self, id: &str) -> Option<&FinalizeIntent> {
        self.intents.get(&format!("{id}.json"))
    }

    fn row(&self, id: &str) -> Option<TransferTask> {
        self.history.iter().find(|t| t.id == id).cloned()
    }

    fn look(&self, id: &str) -> Result<Option<TransferTask>, AppError> {
        if self.history_down {
            return Err(AppError::generic("no such table: transfer_history".to_string()));
        }
        Ok(self.row(id))
    }

    fn record(&mut self, task: &TransferTask) -> Result<(), AppError> {
        if self.history_down {
            return Err(AppError::generic("no such table: transfer_history".to_string()));
        }
        self.history.retain(|t| t.id != task.id);
        self.history.push(task.clone());
        Ok(())
    }

    /// Forgets what only the process knew.
    fn restart(&mut self) {
        self.registry = TransferRegistry::new();
    }

    fn facts(&self) -> IntentDirFacts {
        let path = at(FINALIZE_INTENT_DIR);
        let (entry, is_dir) = match self.nodes.get(&path) {
            None => (DirEntry::Unknown, false),
            Some(Node::Dir) => (DirEntry::Directory, true),
            Some(Node::Link(_)) => (DirEntry::Symlink, true),
            Some(Node::File { .. }) => (DirEntry::Other, false),
        };
        IntentDirFacts {
            entry,
            is_dir,
            canonical_dir: Some(DIR.to_string()),
            canonical_intent_dir: if is_dir { Some(path) } else { None },
        }
    }

    /// Checks the intent directory as a link would only be found when it is opened.
    fn write_intent(&mut self, intent: &FinalizeIntent, facts: &IntentDirFacts) -> Result<(), AppError> {
        let names = write_finalize_intent(Platform::Linux, DIR, &intent.transfer_id, facts)?;
        let dir = at(FINALIZE_INTENT_DIR);
        let tmp = format!("{dir}/{}", names.tmp_name);
        let mut step = WriteStep::OpenReceiveDir;
        loop {
            let outcome = match &step {
                WriteStep::MakeIntentDir => {
                    if self.nodes.contains_key(&dir) {
                        Err(AppError::Io(taken()))
                    } else {
                        self.nodes.insert(dir.clone(), Node::Dir);
                        Ok(0)
                    }
                }
                WriteStep::OpenIntentDir => match self.nodes.get(&dir) {
                    Some(Node::Dir) => Ok(0),
                    _ => Err(AppError::Io(io(IoKind::Unclassified, Some(40), "Too many levels"))),
                },
                WriteStep::ClearTmp | WriteStep::Undo(_) => {
                    self.nodes.remove(&tmp);
                    Ok(0)
                }
                WriteStep::CreateTmp => {
                    if self.nodes.contains_key(&tmp) {
                        Err(AppError::Io(taken()))
                    } else {
                        self.write(&tmp, b"");
                        Ok(0)
                    }
                }
                WriteStep::WriteTmp => {
                    self.draft = Some(copy_intent(intent));
                    Ok(0)
                }
                WriteStep::ClearOld => {
                    self.intents.remove(&names.intent_name);
                    Ok(0)
                }
                WriteStep::Rename => {
                    self.nodes.remove(&tmp);
                    let draft = self.draft.take().expect("written before it is renamed");
                    self.intents.insert(names.intent_name.clone(), draft);
                    Ok(0)
                }
                _ => Ok(0),
            };
            match step.done(Platform::Linux, NUMBERS, outcome) {
                WriteNext::Step(s) => step = s,
                WriteNext::Done(r) => return r,
            }
        }
    }

    fn clear_intent(&mut self, id: &str) -> Result<(), AppError> {
        let name = clear_finalize_intent(Platform::Linux, DIR, id, &self.facts())?;
        let mut step = ClearStep::OpenReceiveDir;
        loop {
            let outcome = match step {
                ClearStep::OpenReceiveDir => Ok(0),
                ClearStep::OpenIntentDir => match self.nodes.get(&at(FINALIZE_INTENT_DIR)) {
                    Some(Node::Dir) => Ok(0),
                    _ => Err(AppError::Io(missing())),
                },
                ClearStep::Unlink => match self.intents.remove(&name) {
                    Some(_) => Ok(0),
                    None => Err(AppError::Io(missing())),
                },
            };
            match step.done(Platform::Linux, NUMBERS, outcome) {
                ClearNext::Step(s) => step = s,
                ClearNext::Done(r) => return r,
            }
        }
    }

    fn hash(&self, path: &str) -> Result<String, AppError> {
        let bytes = match self.nodes.get(path) {
            Some(Node::File { bytes, .. }) => bytes,
            Some(Node::Link(_)) => {
                let f = io(IoKind::Unclassified, Some(40), "Too many levels");
                return Err(open_refused(Platform::Linux, NUMBERS, path, f));
            }
            _ => return Err(AppError::Io(missing())),
        };
        let mut hasher = ContentHasher::new();
        for block in bytes.chunks(5) {
            assert!(hasher.has_room(block.len()));
            hasher = match hasher.read(block) {
                HashNext::More(h) => h,
                HashNext::Done(_) => unreachable!(),
            };
        }
        match hasher.read(&[]) {
            HashNext::Done(sha) => Ok(sha),
            HashNext::More(_) => unreachable!(),
        }
    }

    fn identity(&self, path: &str) -> Result<BoundFileIdentity, AppError> {
        match self.nodes.get(path) {
            Some(Node::File { inode, .. }) => Ok(BoundFileIdentity { volume: 1, index: *inode }),
            _ => Err(AppError::Io(missing())),
        }
    }

    fn entry_identity(&self, path: &str) -> Result<BoundFileIdentity, AppError> {
        let mut next = dirent_identity_via_parent(Platform::Linux, path);
        loop {
            next = match next {
                DirentNext::OpenParent(s) => {
                    assert_eq!(s.parent, DIR);
                    s.opened(Ok(0))
                }
                DirentNext::OpenChild(s) => {
                    let child = at(&s.name);
                    if self.nodes.contains_key(&child) {
                        s.opened(Ok(ChildFacts { attributes: 0, identity: self.identity(&child) }))
                    } else {
                        s.opened(Err(missing()))
                    }
                }
                DirentNext::Done(r) => return r,
            }
        }
    }

    fn certify(&self, path: &str, size: u64, sha: &str) -> Result<(), AppError> {
        let mut next = certify_final_file_for_history(Platform::Linux, path, size, sha);
        let mut offset = 0usize;
        loop {
            next = match next {
                CertifyNext::Open(s) => match self.nodes.get(path) {
                    Some(Node::File { bytes, .. }) => s.opened(Ok(OpenedFile {
                        len: bytes.len() as u64,
                        identity: self.identity(path),
                    })),
                    _ => s.opened(Err(AppError::Io(missing()))),
                },
                CertifyNext::Read(s) => {
                    let bytes = self.read(path);
                    let end = bytes.len().min(offset + 7);
                    let next = s.read(Ok(&bytes[offset..end]));
                    offset = end;
                    next
                }
                CertifyNext::SyncFile(s) => s.synced(Ok(())),
                CertifyNext::SyncParent(s) => s.synced(Ok(())),
                CertifyNext::Identify(s) => {
                    let identity = self.entry_identity(path);
                    s.identified(identity)
                }
                CertifyNext::Done(r) => return r,
            }
        }
    }

    fn promote_step(&mut self, next: PromoteNext) -> PromoteNext {
        match next {
            PromoteNext::Certify(s) => {
                let outcome = self.certify(&s.task.file_path, s.task.size, &s.task.sha256);
                s.certified(outcome)
            }
            PromoteNext::Record(s) => {
                let outcome = self.record(&s.task);
                s.recorded(&mut self.registry, Platform::Linux, outcome, &Clock::read())
            }
            PromoteNext::ClearIntent(s) => {
                let _ = self.clear_intent(&s.id);
                s.cleared()
            }
            done => done,
        }
    }

    fn promote(&mut self, mut next: PromoteNext) -> Result<(), AppError> {
        loop {
            next = match next {
                PromoteNext::Done { result, event } => {
                    self.events.extend(event);
                    return result;
                }
                next => self.promote_step(next),
            }
        }
    }

    fn recover(&mut self, id: &str) -> Result<Option<ChunkResp>, AppError> {
        let mut next = try_recover_finalize_intent(Platform::Linux, id, DIR, &self.facts());
        loop {
            next = match next {
                RecoverNext::ReadIntent(s) => {
                    assert_eq!(s.path, format!("{DIR}/{FINALIZE_INTENT_DIR}/{id}.json"));
                    match self.intent(id) {
                        Some(i) => s.read(IntentRead::Parsed(copy_intent(i))),
                        None => s.read(IntentRead::Missing),
                    }
                }
                RecoverNext::LookupHistory(s) => s.looked_up(self.look(id)),
                RecoverNext::ClearThenLookup(s) => {
                    let _ = self.clear_intent(id);
                    s.looked_up(self.look(id))
                }
                RecoverNext::ClearAndGiveUp(s) => {
                    let _ = self.clear_intent(id);
                    s.cleared()
                }
                RecoverNext::Resolve(s) => s.resolved(Platform::Linux, Some(DIR), Some(DIR)),
                RecoverNext::Stat(s) => {
                    let entry = match self.nodes.get(&s.intent.final_path) {
                        None => FinalEntry::Missing,
                        Some(Node::File { bytes, .. }) => FinalEntry::Found {
                            is_symlink: false,
                            is_file: true,
                            len: bytes.len() as u64,
                        },
                        Some(Node::Link(_)) => {
                            FinalEntry::Found { is_symlink: true, is_file: false, len: 9 }
                        }
                        Some(Node::Dir) => {
                            FinalEntry::Found { is_symlink: false, is_file: false, len: 0 }
                        }
                    };
                    s.found(entry)
                }
                RecoverNext::Hash(s) => {
                    let sha = self.hash(&s.intent.final_path);
                    s.hashed(&mut self.registry, sha, &Clock::read())
                }
                RecoverNext::Promote(s) => {
                    let outcome = self.promote(s.promotion);
                    s.after.promoted(outcome)
                }
                RecoverNext::Done(r) => return r,
            }
        }
    }

    fn sync_file(&mut self, path: &str) -> Result<(), IoFailure> {
        match self.nodes.get(path) {
            Some(Node::File { .. }) => {
                self.synced.push(path.to_string());
                Ok(())
            }
            _ => Err(missing()),
        }
    }

    fn commit_step(&mut self, step: &CommitStep, tmp: &str, to: &str) -> Result<(), IoFailure> {
        match step {
            CommitStep::SyncTmp => self.sync_file(tmp),
            CommitStep::HardLink => {
                if self.links_fail {
                    Err(io(IoKind::Unsupported, Some(95), "Operation not supported"))
                } else if self.nodes.contains_key(to) {
                    Err(taken())
                } else {
                    let bytes = self.read(tmp);
                    let inode = self.identity(tmp).expect("an identity").index;
                    self.nodes.insert(to.to_string(), Node::File { bytes, inode });
                    Ok(())
                }
            }
            CommitStep::RemoveTmp => {
                self.nodes.remove(tmp);
                Ok(())
            }
            CommitStep::Rename(_) => {
                if self.nodes.contains_key(to) {
                    let f = io(IoKind::Unclassified, Some(17), "File exists");
                    Err(rename_refused(Platform::Linux, NUMBERS, f))
                } else {
                    let node = self.nodes.remove(tmp).expect("a file to rename");
                    self.nodes.insert(to.to_string(), node);
                    Ok(())
                }
            }
            CommitStep::SyncFinal => {
                if self.sync_final_fails {
                    Err(io(IoKind::Other, Some(5), "Input/output error"))
                } else {
                    self.sync_file(to)
                }
            }
            CommitStep::SyncParent => {
                self.synced.push(DIR.to_string());
                Ok(())
            }
        }
    }

    /// Moves a file into place from the given step on.
    fn commit_from(&mut self, mut next: CommitNext, tmp: &str, to: &str) -> Result<(), CommitFinalError> {
        loop {
            let step = match next {
                CommitNext::Step(s) => s,
                CommitNext::Done(r) => return r,
            };
            let outcome = self.commit_step(&step, tmp, to);
            next = step.done(true, outcome);
        }
    }

    fn commit(&mut self, tmp: &str, to: &str) -> Result<(), CommitFinalError> {
        self.commit_from(commit_tmp_to_final_no_replace(), tmp, to)
    }

    fn place_step(&mut self, next: PlaceNext) -> PlaceNext {
        match next {
            PlaceNext::ProbeName(s) => {
                let present = self.has(&s.path());
                s.probed(present)
            }
            PlaceNext::Resolve(s) => s.resolved(Some(DIR), Some(DIR), Clock::read().iso),
            PlaceNext::WriteIntent(s) => {
                let facts = self.facts();
                let outcome = self.write_intent(&s.intent, &facts);
                s.journaled(outcome)
            }
            PlaceNext::Commit(s) => {
                let outcome = self.commit(&s.job.tmp_path, &s.intent.final_path);
                s.committed(outcome)
            }
            PlaceNext::Done(r) => PlaceNext::Done(r),
        }
    }

    fn place(&mut self, job: PlaceJob) -> Result<PlacedFile, PlaceFinalError> {
        let mut next = place_final_file_with_intent(job);
        loop {
            next = match next {
                PlaceNext::Done(r) => return r,
                next => self.place_step(next),
            }
        }
    }

    fn finalize(&mut self, id: &str) -> Result<(), AppError> {
        let mut next = finalize_transfer(&self.registry, id);
        loop {
            next = match next {
                FinalizeNext::HashTmp(s) => {
                    let sha = self.hash(&s.task.file_path);
                    s.hashed(&mut self.registry, Platform::Linux, sha, DIR, &Clock::read())
                }
                FinalizeNext::RemoveTmp(s) => {
                    self.nodes.remove(&s.tmp_path);
                    s.discarded(&mut self.registry, &Clock::read())
                }
                FinalizeNext::Fail(s) => {
                    if let Some(row) = &s.failing.row {
                        let _ = self.record(&row.clone());
                    }
                    s.recorded(&mut self.registry, Instant::now())
                }
                FinalizeNext::Place(s) => {
                    let outcome = self.place(PlaceJob {
                        platform: Platform::Linux,
                        receive_dir: s.receive_dir.clone(),
                        safe_filename: s.safe_filename.clone(),
                        tmp_path: s.tmp_path.clone(),
                        id: s.id.clone(),
                        task: s.task.clone(),
                    });
                    s.placed(&mut self.registry, outcome, &Clock::read())
                }
                FinalizeNext::Promote(p) => return self.promote(p),
                FinalizeNext::Done { result, event } => {
                    self.events.extend(event);
                    return result;
                }
            }
        }
    }

    fn measure(&mut self, path: &str) -> Result<Option<u64>, AppError> {
        let entry = match self.nodes.get(path) {
            None => TmpEntry::Failed(missing()),
            Some(Node::File { bytes, .. }) => {
                TmpEntry::Found { is_symlink: false, is_file: true, len: bytes.len() as u64 }
            }
            Some(Node::Link(_)) => TmpEntry::Found { is_symlink: true, is_file: false, len: 9 },
            Some(Node::Dir) => TmpEntry::Found { is_symlink: false, is_file: false, len: 0 },
        };
        match receive_tmp_len_nofollow(path, entry) {
            TmpMeasure::Len(l) => Ok(l),
            TmpMeasure::RemoveLink(e) => {
                self.nodes.remove(path);
                Err(e)
            }
            TmpMeasure::Refuse(e) => Err(e),
        }
    }

    fn open_tmp(&mut self, path: &str) -> Result<(), AppError> {
        let created = if self.nodes.contains_key(path) { Err(taken()) } else { Ok(()) };
        match open_receive_tmp_rw(created) {
            TmpOpenNext::Use => {
                self.write(path, b"");
                Ok(())
            }
            TmpOpenNext::OpenExisting => match self.nodes.get(path) {
                Some(Node::Link(_)) => {
                    let f = io(IoKind::Unclassified, Some(40), "Too many levels");
                    Err(open_refused(Platform::Linux, NUMBERS, path, f))
                }
                node => {
                    let is_file = matches!(node, Some(Node::File { .. }));
                    let facts = HandleFacts { is_symlink: false, is_file, attributes: 0 };
                    open_regular_file_nofollow(Platform::Linux, path, facts)
                }
            },
            TmpOpenNext::Refuse(e) => Err(e),
        }
    }

    fn write_at(&mut self, path: &str, offset: u64, data: &[u8]) -> Result<(), AppError> {
        self.open_tmp(path)?;
        let (mut bytes, inode) = match self.nodes.get(path) {
            Some(Node::File { bytes, inode }) => (bytes.clone(), *inode),
            _ => panic!("not a file"),
        };
        let end = offset as usize + data.len();
        if bytes.len() < end {
            bytes.resize(end, 0);
        }
        bytes[offset as usize..end].copy_from_slice(data);
        self.nodes.insert(path.to_string(), Node::File { bytes, inode });
        Ok(())
    }

    fn init(&mut self, meta: InitMeta) -> Result<InitResp, AppError> {
        let request = handle_init(Platform::Linux, meta)?;
        let id = request.transfer_id.clone();
        let mut next = request.locked(&mut self.registry, Instant::now());
        loop {
            next = match next {
                InitNext::ProbeLen(s) => {
                    let len = match self.nodes.get(&s.file_path) {
                        Some(Node::File { bytes, .. }) => Some(bytes.len() as u64),
                        _ => None,
                    };
                    s.probed(len)
                }
                InitNext::LookupHistory(s) => s.looked_up(self.look(&id)),
                InitNext::Recover(s) => {
                    let outcome = self.recover(&id);
                    s.recovered(Platform::Linux, outcome, DIR, Some(DIR), Some(DIR))
                }
                InitNext::MeasureTmp(s) => {
                    let measured = self.measure(&s.tmp_path);
                    s.measured(&mut self.registry, measured, &Clock::read())
                }
                InitNext::RemoveTmp(s) => {
                    self.nodes.remove(&s.tmp_path);
                    s.discarded()
                }
                InitNext::Reply(r) => return r,
            }
        }
    }

    fn chunk(&mut self, id: &str, offset: u64, data: &[u8]) -> Result<ChunkResp, AppError> {
        let mut next = handle_chunk(&mut self.registry, id, offset, data.len(), Instant::now());
        loop {
            next = match next {
                ChunkNext::LookupHistory(s) => s.looked_up(self.look(id)),
                ChunkNext::Promote(s) => {
                    let outcome = self.finalize(id);
                    s.promoted(&mut self.registry, outcome, Instant::now())
                }
                ChunkNext::Write(s) => {
                    let outcome = self.write_at(&s.tmp_path, s.offset, data);
                    s.written(&mut self.registry, outcome, Instant::now())
                }
                ChunkNext::Finalize(s) => {
                    let outcome = self.finalize(id);
                    s.finalized(&mut self.registry, outcome, Instant::now())
                }
                ChunkNext::Reply(r) => return r,
            }
        }
    }

    fn complete(&mut self, id: &str) -> Result<ChunkResp, AppError> {
        let mut next = handle_complete(&mut self.registry, id, Instant::now());
        loop {
            next = match next {
                CompleteNext::LookupHistory(s) => s.looked_up(self.look(id)),
                CompleteNext::Recover(s) => {
                    let outcome = self.recover(id);
                    s.recovered(outcome)
                }
                CompleteNext::Promote(s) => {
                    let outcome = self.finalize(id);
                    s.promoted(&mut self.registry, outcome, Instant::now())
                }
                CompleteNext::MeasureTmp(s) => {
                    let measured = self.measure(&s.task.file_path);
                    s.measured(&mut self.registry, measured, &Clock::read())
                }
                CompleteNext::CreateEmpty(s) => {
                    let outcome = self.open_tmp(&s.tmp_path);
                    s.created(&mut self.registry, outcome, &Clock::read())
                }
                CompleteNext::Fail(s) => {
                    if let Some(row) = &s.failing.row {
                        let _ = self.record(&row.clone());
                    }
                    s.recorded(&mut self.registry, Instant::now())
                }
                CompleteNext::Finalize(s) => {
                    let outcome = self.finalize(id);
                    s.finalized(&mut self.registry, outcome, Instant::now())
                }
                CompleteNext::Reply { reply, event } => {
                    self.events.extend(event);
                    return reply;
                }
            }
        }
    }

    fn status(&mut self, id: &str) -> StatusResp {
        let mut next = handle_status(&mut self.registry, id, Instant::now());
        loop {
            next = match next {
                StatusNext::LookupHistory(s) => s.looked_up(self.look(id)),
                StatusNext::Recover(s) => {
                    let outcome = self.recover(id);
                    s.recovered(&mut self.registry, outcome, Instant::now())
                }
                StatusNext::LookupRecovered(s) => s.looked_up(self.look(id)),
                StatusNext::Reply(r) => return r,
            }
        }
    }
}

fn meta(id: &str, filename: &str, size: u64, sha: &str, chunk_size: u64) -> InitMeta {
    InitMeta {
        transfer_id: Some(id.to_string()),
        filename: filename.to_string(),
        size,
        sha256: sha.to_string(),
        chunk_size,
    }
}

fn receiving(id: &str, filename: &str, path: &str, size: u64, sha: &str) -> TransferTask {
    TransferTask {
        filename: filename.to_string(),
        file_path: path.to_string(),
        size,
        sha256: sha.to_string(),
        chunk_size: 1,
        direction: TransferDirection::Receive,
        created_at: Clock::read().iso,
        ..TransferTask::recovery_defaults(id)
    }
}

fn sending(id: &str, filename: &str, path: &str, size: u64, sha: &str) -> TransferTask {
    TransferTask {
        direction: TransferDirection::Send,
        peer_device_id: "peer".to_string(),
        ..receiving(id, filename, path, size, sha)
    }
}

fn tmp_of(id: &str) -> String {
    at(&format!(".{id}.tmp"))
}

#[test]
fn receiver_concurrent_final_chunks_cannot_corrupt_verified_file() {
    let mut w = World::new();
    let id = "concurrent-final-chunk";
    let tmp = tmp_of(id);
    w.registry.add(receiving(id, "payload.bin", &tmp, 1, &sha_of(b"A")));
    let c1 = w.chunk(id, 0, b"A").expect("chunk A");
    let c2 = w.chunk(id, 0, b"A").expect("chunk B");
    assert!(c1.success && c2.success);
    assert_eq!(w.read(&at("payload.bin")), b"A");
    let late = w.chunk(id, 0, b"B").expect("late chunk");
    assert!(late.success);
    assert_eq!(w.read(&at("payload.bin")), b"A");
    assert!(!w.has(&tmp));
}

#[test]
fn receiver_handle_init_is_idempotent_for_same_metadata() {
    let mut w = World::new();
    let payload = b"hello-world";
    let sha = sha_of(payload);
    let id = "init-idempotent";
    let first = w.init(meta(id, "hello.txt", 11, &sha, 4)).expect("first init");
    assert!(first.accepted);
    assert_eq!(first.resume_offset, 0);
    let partial = w.chunk(id, 0, &payload[..5]).expect("partial chunk");
    assert!(partial.success);
    assert_eq!(partial.received_bytes, 5);
    let second = w.init(meta(id, "hello.txt", 11, &sha, 4)).expect("second init");
    assert!(second.accepted);
    assert!(second.resume_offset >= 5);
    assert_eq!(second.resume_offset, 5);
    assert_eq!(w.registry.list().len(), 1);
}

#[test]
fn receiver_handle_init_rejects_metadata_conflict_on_active_task() {
    let mut w = World::new();
    let sha = sha_of(b"A");
    w.init(meta("init-conflict", "a.bin", 1, &sha, 1)).expect("first init");
    let err = w.init(meta("init-conflict", "b.bin", 1, &sha, 1)).unwrap_err();
    assert!(matches!(err, AppError::Conflict(_)));
}

#[test]
fn receiver_handle_init_rejects_reopen_after_finalize_tombstone() {
    let mut w = World::new();
    let sha = sha_of(b"Z");
    let id = "init-after-finalize";
    w.init(meta(id, "z.bin", 1, &sha, 1)).expect("init");
    let chunk = w.chunk(id, 0, b"Z").expect("chunk");
    assert!(chunk.success);
    assert!(w.registry.get(id).is_none());
    assert!(w.registry.tombstone(id).is_some());
    let err = w.init(meta(id, "z.bin", 1, &sha, 1)).unwrap_err();
    assert!(matches!(err, AppError::Conflict(_)));
    assert!(w.registry.get(id).is_none());
}

#[test]
fn receiver_handle_chunk_rejects_oversized_payload_before_disk_mutation() {
    let mut w = World::new();
    let id = "chunk-too-large";
    w.init(meta(id, "big.bin", (CHUNK_SIZE as u64) * 2, "deadbeef", CHUNK_SIZE as u64))
        .expect("init");
    let tmp = tmp_of(id);
    assert!(!w.has(&tmp));
    let oversized = vec![0u8; CHUNK_SIZE + 1];
    let err = w.chunk(id, 0, &oversized).unwrap_err();
    assert!(matches!(err, AppError::Validation(_)));
    assert!(err.message().contains("上限") || err.message().contains(&CHUNK_SIZE.to_string()));
    assert!(!w.has(&tmp));
    let exact = vec![1u8; CHUNK_SIZE];
    let resp = w.chunk(id, 0, &exact).expect("a full chunk");
    assert!(resp.success);
    assert_eq!(resp.received_bytes, CHUNK_SIZE as u64);
    assert!(w.has(&tmp));
    assert_eq!(w.read(&tmp).len(), CHUNK_SIZE);
}

#[test]
fn receiver_handle_chunk_rejects_outbound_send_task_without_touching_source() {
    let mut w = World::new();
    let source = at("outbound-source.bin");
    let original = b"KEEP-SOURCE-BYTES";
    w.write(&source, original);
    let id = "outbound-send-id";
    w.registry.add(TransferTask {
        status: TransferStatus::Transferring,
        ..sending(id, "outbound-source.bin", &source, original.len() as u64, "deadbeef")
    });
    let resp = w.chunk(id, 0, b"XXXX").expect("an answer");
    assert!(!resp.success);
    assert_eq!(resp.received_bytes, 0);
    assert_eq!(w.read(&source), original);
    let task = w.registry.get(id).expect("the task stays");
    assert_eq!(task.direction, TransferDirection::Send);
}

#[test]
fn receiver_handle_init_rejects_send_entry_on_idempotent_path() {
    let mut w = World::new();
    let source = at("send-source.txt");
    let original = b"send-source-content";
    w.write(&source, original);
    let id = "send-init-id";
    w.registry.add(sending(id, "send-source.txt", &source, original.len() as u64, "abc"));
    let err = w
        .init(meta(id, "send-source.txt", original.len() as u64, "abc", 4))
        .unwrap_err();
    assert!(matches!(err, AppError::Conflict(_)));
    assert_eq!(w.read(&source), original);
    assert_eq!(w.registry.get(id).unwrap().direction, TransferDirection::Send);
}

#[test]
fn receiver_handle_init_rejects_absolute_filename() {
    let mut w = World::new();
    let err = w.init(meta("abs-name", "/tmp/escape-abs-1", 1, "x", 1)).unwrap_err();
    assert!(matches!(err, AppError::Validation(_)));
    assert!(!w.has("/tmp/escape-abs-1"));
    assert!(w.registry.list().is_empty());
}

#[test]
fn receiver_handle_init_rejects_parent_dir_filename() {
    let mut w = World::new();
    let err = w.init(meta("parent-escape", "../evil.bin", 1, "x", 1)).unwrap_err();
    assert!(matches!(err, AppError::Validation(_)));
    assert!(w.registry.list().is_empty());
}

#[test]
fn receiver_concurrent_same_name_different_transfer_ids_do_not_overwrite() {
    let mut w = World::new();
    let payload_a = b"CONTENT-A".to_vec();
    let payload_b = b"CONTENT-B-DIFFERENT".to_vec();
    for (id, payload) in [("same-name-a", &payload_a), ("same-name-b", &payload_b)] {
        let tmp = tmp_of(id);
        w.write(&tmp, payload);
        w.registry.add(TransferTask {
            status: TransferStatus::Transferring,
            transferred_bytes: payload.len() as u64,
            ..receiving(id, "report.txt", &tmp, payload.len() as u64, &sha_of(payload))
        });
    }
    w.finalize("same-name-a").expect("finalize A");
    w.finalize("same-name-b").expect("finalize B");
    assert!(w.has(&at("report.txt")));
    assert!(w.has(&at("report (1).txt")));
    let mut contents = vec![w.read(&at("report.txt")), w.read(&at("report (1).txt"))];
    contents.sort();
    let mut expected = vec![payload_a, payload_b];
    expected.sort();
    assert_eq!(contents, expected);
    assert!(!w.has(&tmp_of("same-name-a")) && !w.has(&tmp_of("same-name-b")));
}

#[test]
fn two_placements_step_by_step_end_in_two_files() {
    let mut w = World::new();
    let (a, b) = (b"CONTENT-A", b"CONTENT-B-DIFFERENT");
    w.write(&tmp_of("step-a"), a);
    w.write(&tmp_of("step-b"), b);
    // Both find the name free before either has moved its file.
    let mut first = place_final_file_with_intent(job("step-a", "report.txt", &tmp_of("step-a"), a));
    let mut second = place_final_file_with_intent(job("step-b", "report.txt", &tmp_of("step-b"), b));
    let mut clashes = 0;
    while !matches!((&first, &second), (PlaceNext::Done(_), PlaceNext::Done(_))) {
        first = w.place_step(first);
        if matches!(&second, PlaceNext::Commit(s) if w.has(&s.intent.final_path)) {
            clashes += 1;
        }
        second = w.place_step(second);
    }
    assert_eq!(clashes, 1);
    match (first, second) {
        (PlaceNext::Done(Ok(x)), PlaceNext::Done(Ok(y))) => {
            assert_eq!(x.final_path, at("report.txt"));
            assert_eq!(y.final_path, at("report (1).txt"));
        }
        _ => panic!("both are placed"),
    }
    assert_eq!(w.read(&at("report.txt")), a);
    assert_eq!(w.read(&at("report (1).txt")), b);
    assert_eq!(w.intent("step-a").expect("an intent").final_path, at("report.txt"));
    assert_eq!(w.intent("step-b").expect("an intent").final_path, at("report (1).txt"));
    assert!(!w.has(&tmp_of("step-a")) && !w.has(&tmp_of("step-b")));
}

#[test]
fn two_transfers_step_by_step_do_not_disturb_each_other() {
    let mut w = World::new();
    let payloads: [(&str, &[u8]); 2] = [("turn-a", b"CONTENT-A"), ("turn-b", b"CONTENT-B")];
    for (id, payload) in payloads {
        let size = payload.len() as u64;
        w.init(meta(id, "report.txt", size, &sha_of(payload), size)).expect("init");
    }
    // The last chunk of each is written before either is finalized.
    let mut finalizing = vec![];
    for (id, payload) in payloads {
        let next = handle_chunk(&mut w.registry, id, 0, payload.len(), Instant::now());
        let written = match next {
            ChunkNext::Write(s) => {
                let outcome = w.write_at(&s.tmp_path, s.offset, payload);
                s.written(&mut w.registry, outcome, Instant::now())
            }
            _ => panic!("written"),
        };
        match written {
            ChunkNext::Finalize(s) => finalizing.push(s),
            _ => panic!("finalized"),
        }
    }
    let mut hashed = vec![];
    for (id, _) in payloads {
        match finalize_transfer(&w.registry, id) {
            FinalizeNext::HashTmp(s) => {
                let sha = w.hash(&s.task.file_path);
                hashed.push(s.hashed(&mut w.registry, Platform::Linux, sha, DIR, &Clock::read()));
            }
            _ => panic!("hashed"),
        }
    }
    let mut promoting = vec![];
    for next in hashed {
        match next {
            FinalizeNext::Place(s) => {
                let outcome = w.place(job(&s.id, &s.safe_filename, &s.tmp_path, &w.read(&s.tmp_path)));
                match s.placed(&mut w.registry, outcome, &Clock::read()) {
                    FinalizeNext::Promote(p) => promoting.push(p),
                    _ => panic!("promoted"),
                }
            }
            _ => panic!("placed"),
        }
    }
    // In place, and not yet reported as completed.
    for (id, _) in payloads {
        assert_eq!(w.status(id).status, "transferring");
    }
    while promoting.iter().any(|p| !matches!(p, PromoteNext::Done { .. })) {
        promoting = promoting.into_iter().map(|p| w.promote_step(p)).collect();
    }
    for (p, s) in promoting.into_iter().zip(finalizing) {
        let outcome = w.promote(p);
        match s.finalized(&mut w.registry, outcome, Instant::now()) {
            ChunkNext::Reply(Ok(resp)) => assert!(resp.success),
            _ => panic!("answered"),
        }
    }
    assert_eq!(w.read(&at("report.txt")), b"CONTENT-A");
    assert_eq!(w.read(&at("report (1).txt")), b"CONTENT-B");
    for (id, _) in payloads {
        assert_eq!(w.row(id).expect("a row").status, TransferStatus::Completed);
        assert!(w.registry.get(id).is_none() && w.intent(id).is_none());
    }
}

#[test]
fn a_second_last_chunk_waits_at_the_lock() {
    let mut w = World::new();
    let id = "same-transfer";
    w.init(meta(id, "p.bin", 1, &sha_of(b"A"), 1)).expect("init");
    let first = w.registry.finalize_lock(id);
    let second = w.registry.finalize_lock(id);
    let held = first.try_lock().expect("free");
    // Between any two steps of the first request the second stays outside.
    let written = match handle_chunk(&mut w.registry, id, 0, 1, Instant::now()) {
        ChunkNext::Write(s) => {
            assert!(second.try_lock().is_err());
            let outcome = w.write_at(&s.tmp_path, s.offset, b"A");
            s.written(&mut w.registry, outcome, Instant::now())
        }
        _ => panic!("written"),
    };
    assert!(second.try_lock().is_err());
    match written {
        ChunkNext::Finalize(s) => {
            let outcome = w.finalize(id);
            assert!(second.try_lock().is_err());
            assert!(matches!(
                s.finalized(&mut w.registry, outcome, Instant::now()),
                ChunkNext::Reply(Ok(ChunkResp { success: true, received_bytes: 1 }))
            ));
        }
        _ => panic!("finalized"),
    }
    drop(held);
    let _held = second.try_lock().expect("free again");
    // What the second carries is not written: the transfer has ended.
    assert!(w.chunk(id, 0, b"B").expect("an answer").success);
    assert_eq!(w.read(&at("p.bin")), b"A");
    assert!(!w.has(&tmp_of(id)));
}

fn job(id: &str, name: &str, tmp: &str, payload: &[u8]) -> PlaceJob {
    PlaceJob {
        platform: Platform::Linux,
        receive_dir: DIR.to_string(),
        safe_filename: name.to_string(),
        tmp_path: tmp.to_string(),
        id: id.to_string(),
        task: receiving(id, name, tmp, payload.len() as u64, &sha_of(payload)),
    }
}

#[test]
fn receiver_place_final_file_hard_link_commits_content_and_removes_tmp() {
    let mut w = World::new();
    let tmp = at(".place-hl.tmp");
    let payload = b"hard-link-payload";
    w.write(&tmp, payload);
    let placed = w.place(job("place-hl", "hl.txt", &tmp, payload)).expect("placed");
    assert_eq!(placed.final_filename, "hl.txt");
    assert_eq!(w.read(&placed.final_path), payload);
    assert!(!w.has(&tmp));
    assert_eq!(w.read(&placed.final_path).len(), payload.len());
}

#[test]
fn receiver_place_final_file_does_not_overwrite_or_delete_competitor() {
    let mut w = World::new();
    let competitor = at("report.txt");
    w.write(&competitor, b"EXTERNAL-COMPETITOR");
    let tmp = at(".place-comp.tmp");
    let payload = b"incoming-transfer";
    w.write(&tmp, payload);
    let placed = w.place(job("place-comp", "report.txt", &tmp, payload)).expect("placed");
    assert_ne!(placed.final_path, competitor);
    assert_eq!(w.read(&competitor), b"EXTERNAL-COMPETITOR");
    assert_eq!(w.read(&placed.final_path), payload);
    assert!(!w.has(&tmp));
}

#[test]
fn receiver_commit_no_replace_failure_preserves_existing_final() {
    let mut w = World::new();
    let keep = at("keep-me.bin");
    w.write(&keep, b"do-not-delete");
    let tmp = at(".commit-fail.tmp");
    w.write(&tmp, b"new-bytes");
    let err = w.commit(&tmp, &keep).unwrap_err();
    assert!(matches!(err, CommitFinalError::AlreadyExists));
    assert_eq!(w.read(&keep), b"do-not-delete");
    assert!(w.has(&tmp));
}

#[test]
fn receiver_rename_no_replace_blocking_preserves_existing_target() {
    let mut w = World::new();
    w.links_fail = true;
    let keep = at("existing.dat");
    w.write(&keep, b"competitor-bytes");
    let tmp = at("incoming.tmp");
    w.write(&tmp, b"incoming-bytes");
    let err = w.commit(&tmp, &keep).unwrap_err();
    assert!(matches!(err, CommitFinalError::AlreadyExists));
    assert_eq!(w.read(&keep), b"competitor-bytes");
    assert!(w.has(&tmp));
    assert_eq!(w.read(&tmp), b"incoming-bytes");
}

#[test]
fn receiver_handle_complete_and_status_survive_restart_via_history() {
    let mut w = World::new();
    let id = "restart-history-complete";
    w.init(meta(id, "restart.txt", 0, &sha_of(b""), 1)).expect("init");
    let first = w.complete(id).expect("first complete");
    assert!(first.success);
    assert!(w.has(&at("restart.txt")));
    w.restart();
    assert!(w.registry.tombstone(id).is_none());
    assert!(w.registry.get(id).is_none());
    let after = w.complete(id).expect("complete after restart");
    assert!(after.success);
    let status = w.status(id);
    assert_eq!(status.status, "completed");
    assert_eq!(status.filename, "restart.txt");
}

#[test]
fn receiver_handle_complete_finalizes_empty_file() {
    let mut w = World::new();
    let id = "empty-complete";
    let init = w.init(meta(id, "empty.txt", 0, &sha_of(b""), 1)).expect("init empty");
    assert_eq!(init.resume_offset, 0);
    let resp = w.complete(id).expect("complete empty");
    assert!(resp.success);
    assert_eq!(resp.received_bytes, 0);
    assert!(w.has(&at("empty.txt")));
    assert_eq!(w.read(&at("empty.txt")), b"");
    assert!(w.registry.get(id).is_none());
    assert!(matches!(
        w.registry.tombstone(id).map(|t| t.outcome),
        Some(TransferOutcome::Completed { .. })
    ));
    let replay = w.complete(id).expect("replay complete");
    assert!(replay.success);
}

#[test]
fn receiver_handle_complete_finalizes_full_tmp_after_restart() {
    let mut w = World::new();
    let payload = b"full-tmp-payload";
    let id = "full-tmp-restart";
    w.write(&tmp_of(id), payload);
    let size = payload.len() as u64;
    let init = w.init(meta(id, "resume.bin", size, &sha_of(payload), 4)).expect("init");
    assert_eq!(init.resume_offset, size);
    let resp = w.complete(id).expect("complete full tmp");
    assert!(resp.success);
    assert_eq!(w.read(&at("resume.bin")), payload);
    assert!(!w.has(&tmp_of(id)));
}

#[test]
fn receiver_handle_init_rejects_tmp_larger_than_declared_size() {
    let mut w = World::new();
    let id = "oversized-tmp";
    w.write(&tmp_of(id), b"too-large-for-declared-size");
    let err = w.init(meta(id, "x.bin", 4, "dead", 1)).unwrap_err();
    assert!(matches!(err, AppError::Validation(_)));
    assert_eq!(
        err.message(),
        "临时文件长度 27 超过声明 size 4，已删除损坏断点，请重新发起传输"
    );
    assert!(!w.has(&tmp_of(id)));
    assert!(w.registry.list().is_empty());
}

#[test]
fn receiver_history_record_failure_keeps_recoverable_state_without_claiming_completed() {
    let mut w = World::new();
    let id = "history-record-fail";
    w.init(meta(id, "durable.txt", 0, &sha_of(b""), 1)).expect("init");
    w.history_down = true;
    let err = w.complete(id).unwrap_err();
    assert!(matches!(err, AppError::Unavailable(_)));
    assert!(w.has(&at("durable.txt")));
    assert!(w.intent(id).is_some());
    let active = w.registry.get(id).expect("the task stays");
    assert_eq!(active.status, TransferStatus::Completed);
    assert!(w.registry.tombstone(id).is_none());
    let status = w.status(id);
    assert_ne!(status.status, "completed");
    assert!(status.status == "transferring" || status.status == "pending");
    w.history_down = false;
    let retry = w.complete(id).expect("retry complete");
    assert!(retry.success);
    assert!(w.registry.get(id).is_none());
    assert!(matches!(
        w.registry.tombstone(id).map(|t| t.outcome),
        Some(TransferOutcome::Completed { .. })
    ));
    assert!(w.intent(id).is_none());
    assert_eq!(w.row(id).expect("a row").status, TransferStatus::Completed);
    assert_eq!(w.status(id).status, "completed");
}

#[test]
fn receiver_place_before_history_crash_recovers_via_intent_without_suffix_duplicate() {
    let mut w = World::new();
    let payload = b"intent-crash-payload";
    let size = payload.len() as u64;
    let sha = sha_of(payload);
    let id = "intent-crash";
    w.init(meta(id, "crash.bin", size, &sha, 8)).expect("init");
    w.write(&tmp_of(id), payload);
    w.history_down = true;
    let err = w.complete(id).unwrap_err();
    assert!(matches!(err, AppError::Unavailable(_)));
    assert!(w.has(&at("crash.bin")));
    assert!(w.intent(id).is_some());
    w.restart();
    assert!(w.registry.get(id).is_none());
    assert!(w.registry.tombstone(id).is_none());
    w.history_down = false;
    let init_err = w.init(meta(id, "crash.bin", size, &sha, 8)).unwrap_err();
    assert!(matches!(init_err, AppError::Conflict(_)));
    let recovered = w.complete(id).expect("recovered");
    assert!(recovered.success);
    assert_eq!(w.read(&at("crash.bin")), payload);
    assert!(!w.has(&at("crash (1).bin")));
    assert!(w.intent(id).is_none());
    assert_eq!(w.row(id).expect("a row").status, TransferStatus::Completed);
}

#[test]
fn receiver_suffix_place_before_history_crash_recovers_via_intent_without_second_suffix() {
    let mut w = World::new();
    let payload = b"suffix-intent-crash-payload";
    let size = payload.len() as u64;
    let sha = sha_of(payload);
    let id = "suffix-intent-crash";
    w.write(&at("report.bin"), b"preexisting-preferred");
    w.init(meta(id, "report.bin", size, &sha, 8)).expect("init");
    w.write(&tmp_of(id), payload);
    w.history_down = true;
    let err = w.complete(id).unwrap_err();
    assert!(matches!(err, AppError::Unavailable(_)));
    assert_eq!(w.read(&at("report.bin")), b"preexisting-preferred");
    assert_eq!(w.read(&at("report (1).bin")), payload);
    assert!(!w.has(&at("report (2).bin")));
    let intent = w.intent(id).expect("an intent");
    assert_eq!(intent.final_filename, "report (1).bin");
    assert_eq!(intent.final_path, "/recv/report (1).bin");
    w.restart();
    assert!(w.registry.get(id).is_none());
    assert!(w.registry.tombstone(id).is_none());
    w.history_down = false;
    let init_err = w.init(meta(id, "report.bin", size, &sha, 8)).unwrap_err();
    assert!(matches!(init_err, AppError::Conflict(_)));
    let recovered = w.complete(id).expect("recovered");
    assert!(recovered.success);
    assert_eq!(w.read(&at("report (1).bin")), payload);
    assert_eq!(w.read(&at("report.bin")), b"preexisting-preferred");
    assert!(!w.has(&at("report (2).bin")));
    assert!(w.intent(id).is_none());
    let row = w.row(id).expect("a row");
    assert_eq!(row.status, TransferStatus::Completed);
    assert!(row.file_path.ends_with("report (1).bin"));
}

#[test]
fn receiver_collision_same_size_different_hash_intent_must_not_promote_on_recovery() {
    let mut w = World::new();
    let payload = b"AAAA-payload-bytes!";
    let collision = b"BBBB-collision-byte";
    assert_eq!(payload.len(), collision.len());
    let size = payload.len() as u64;
    let sha = sha_of(payload);
    assert_ne!(sha, sha_of(collision));
    let id = "collision-same-size";
    w.init(meta(id, "doc.bin", size, &sha, 8)).expect("init");
    w.write(&tmp_of(id), payload);
    w.write(&at("doc.bin"), collision);
    let intent = FinalizeIntent {
        transfer_id: id.to_string(),
        filename: "doc.bin".to_string(),
        size,
        sha256: sha.clone(),
        chunk_size: 8,
        final_filename: "doc.bin".to_string(),
        final_path: at("doc.bin"),
        created_at: Clock::read().iso,
    };
    let facts = w.facts();
    w.write_intent(&intent, &facts).expect("written");
    w.restart();
    assert!(w.registry.get(id).is_none());
    assert!(w.has(&tmp_of(id)));
    let recovered = w.recover(id).expect("recover ok");
    assert!(recovered.is_none());
    assert!(w.row(id).is_none());
    assert_eq!(w.read(&at("doc.bin")), collision);
    assert!(w.has(&tmp_of(id)));
    assert!(w.intent(id).is_none());
    assert!(w.registry.tombstone(id).is_none());
    w.init(meta(id, "doc.bin", size, &sha, 8)).expect("opened again");
    assert_eq!(w.read(&tmp_of(id)), payload);
    let completed = w.complete(id).expect("complete");
    assert!(completed.success);
    assert_eq!(w.read(&at("doc.bin")), collision);
    assert_eq!(w.read(&at("doc (1).bin")), payload);
    let row = w.row(id).expect("a row");
    assert_eq!(row.status, TransferStatus::Completed);
    assert_eq!(row.sha256, sha);
    assert!(row.file_path.ends_with("doc (1).bin"));
}

#[test]
fn receiver_symlink_matching_content_must_not_promote_on_recovery() {
    let mut w = World::new();
    let payload = b"symlink-target-payload!!";
    let size = payload.len() as u64;
    let sha = sha_of(payload);
    let id = "symlink-bypass";
    w.init(meta(id, "via-link.bin", size, &sha, 8)).expect("init");
    w.write(&tmp_of(id), payload);
    w.write(&at("real-target.bin"), payload);
    w.link(&at("via-link.bin"), &at("real-target.bin"));
    let intent = FinalizeIntent {
        transfer_id: id.to_string(),
        filename: "via-link.bin".to_string(),
        size,
        sha256: sha.clone(),
        chunk_size: 8,
        final_filename: "via-link.bin".to_string(),
        final_path: at("via-link.bin"),
        created_at: Clock::read().iso,
    };
    let facts = w.facts();
    w.write_intent(&intent, &facts).expect("written");
    w.restart();
    let recovered = w.recover(id).expect("recover ok");
    assert!(recovered.is_none());
    assert!(w.row(id).is_none());
    assert!(w.has(&tmp_of(id)));
    assert!(w.is_link(&at("via-link.bin")));
    assert_eq!(w.read(&at("real-target.bin")), payload);
    assert!(w.intent(id).is_none());
    assert!(w.registry.tombstone(id).is_none());
}

#[test]
fn receiver_chunk_refuses_to_follow_tmp_symlink_outside_receive_dir() {
    let mut w = World::new();
    let victim = "/outside/victim.bin";
    w.write(victim, b"ORIGINAL-OUTSIDE");
    let id = "tmp-symlink-escape";
    w.link(&tmp_of(id), victim);
    let init_err = w.init(meta(id, "escape.bin", 8, "deadbeef", 8)).unwrap_err();
    assert!(matches!(init_err, AppError::Validation(_)));
    assert_eq!(w.read(victim), b"ORIGINAL-OUTSIDE");
    assert!(!w.nodes.contains_key(&tmp_of(id)));
    w.link(&tmp_of(id), victim);
    w.registry.add(receiving(id, "escape.bin", &tmp_of(id), 8, "deadbeef"));
    let chunk_err = w.chunk(id, 0, b"ATTACK!!!").unwrap_err();
    assert!(chunk_err.message().contains("拒绝跟随符号链接打开"));
    assert_eq!(w.read(victim), b"ORIGINAL-OUTSIDE");
    assert!(w.is_link(&tmp_of(id)));
}

fn small_intent(id: &str) -> FinalizeIntent {
    FinalizeIntent {
        transfer_id: id.to_string(),
        filename: "a.bin".to_string(),
        size: 1,
        sha256: "aa".to_string(),
        chunk_size: 1,
        final_filename: "a.bin".to_string(),
        final_path: at("a.bin"),
        created_at: Clock::read().iso,
    }
}

#[test]
fn receiver_write_finalize_intent_refuses_symlink_intent_dir() {
    let mut w = World::new();
    w.link(&at(FINALIZE_INTENT_DIR), "/outside");
    let intent = small_intent("escape-intent-dir");
    let facts = w.facts();
    let err = w.write_intent(&intent, &facts).unwrap_err();
    assert!(err.message().contains("符号链接"));
    // A link put there after the directory was looked at is found when it is opened.
    let unseen = IntentDirFacts {
        entry: DirEntry::Unknown,
        is_dir: false,
        canonical_dir: Some(DIR.to_string()),
        canonical_intent_dir: None,
    };
    let err = w.write_intent(&intent, &unseen).unwrap_err();
    assert!(matches!(err, AppError::Validation(_)));
    assert!(err.message().contains("intent 目录是符号链接或不可绑定的普通目录"));
    assert!(w.intents.is_empty());
}

#[test]
fn receiver_write_finalize_intent_refuses_to_follow_tmp_symlink() {
    let mut w = World::new();
    let victim = "/outside/victim.json";
    w.write(victim, b"KEEP-ME");
    w.nodes.insert(at(FINALIZE_INTENT_DIR), Node::Dir);
    let planted = format!("{DIR}/{FINALIZE_INTENT_DIR}/escape-intent-tmp.json.tmp");
    w.link(&planted, victim);
    let facts = w.facts();
    w.write_intent(&small_intent("escape-intent-tmp"), &facts).expect("written");
    assert_eq!(w.read(victim), b"KEEP-ME");
    assert!(!w.nodes.contains_key(&planted));
    assert!(w.intent("escape-intent-tmp").is_some());
}

#[test]
fn receiver_last_chunk_history_failure_returns_unavailable_then_recovers() {
    let mut w = World::new();
    let payload = b"last-chunk-durable!";
    let size = payload.len() as u64;
    let id = "last-chunk-hist-fail";
    w.init(meta(id, "last.bin", size, &sha_of(payload), size)).expect("init");
    w.history_down = true;
    let err = w.chunk(id, 0, payload).unwrap_err();
    assert!(matches!(err, AppError::Unavailable(_)));
    assert!(w.has(&at("last.bin")));
    assert_eq!(w.read(&at("last.bin")), payload);
    let active = w.registry.get(id).expect("the task stays");
    assert_eq!(active.status, TransferStatus::Completed);
    assert!(w.registry.tombstone(id).is_none());
    assert_eq!(w.status(id).status, "transferring");
    w.history_down = false;
    let retry = w.chunk(id, 0, payload).expect("repeated chunk");
    assert!(retry.success);
    assert_eq!(retry.received_bytes, size);
    assert_eq!(w.row(id).expect("a row").status, TransferStatus::Completed);
    assert!(w.registry.tombstone(id).is_some());
    assert!(w.intent(id).is_none());
}

#[test]
fn receiver_certify_final_file_rejects_ordinary_file_replacement() {
    let mut w = World::new();
    let path = at("payload.bin");
    let original = b"original-transfer-bytes-v1";
    w.write(&path, original);
    let sha = sha_of(original);
    let size = original.len() as u64;
    w.certify(&path, size, &sha).expect("the original passes");
    let mut replacement = b"REPLACED-BY-RACE-CONTENT".to_vec();
    while replacement.len() < original.len() {
        replacement.push(b'X');
    }
    replacement.truncate(original.len());
    assert_ne!(&replacement[..], &original[..]);
    w.write(&path, &replacement);
    let err = w.certify(&path, size, &sha).unwrap_err();
    assert!(err.message().contains("SHA256"));
}

#[test]
fn receiver_ensure_final_file_durable_syncs_existing_regular_file() {
    let mut w = World::new();
    let path = at("final.bin");
    w.write(&path, b"payload");
    let synced = w.commit_from(CommitNext::Step(CommitStep::SyncFinal), "", &path);
    assert!(synced.is_ok());
    assert_eq!(w.synced, vec![path, DIR.to_string()]);
    // A file that is not there cannot be made durable.
    let lost = w.commit_from(CommitNext::Step(CommitStep::SyncFinal), "", &at("lost.bin"));
    assert!(matches!(lost, Err(CommitFinalError::DurabilityPending(_))));
}

#[test]
fn an_entry_that_changed_hands_is_not_certified() {
    let next = certify_final_file_for_history(Platform::Linux, "/recv/a.bin", 1, &sha_of(b"A"));
    let bound = BoundFileIdentity { volume: 1, index: 5 };
    let next = match next {
        CertifyNext::Open(s) => s.opened(Ok(OpenedFile { len: 1, identity: Ok(bound) })),
        _ => panic!("opened first"),
    };
    let next = match next {
        CertifyNext::Read(s) => s.read(Ok(b"A")),
        _ => panic!("then read"),
    };
    let next = match next {
        CertifyNext::Read(s) => s.read(Ok(b"")),
        _ => panic!("to the end"),
    };
    let next = match next {
        CertifyNext::SyncFile(s) => s.synced(Ok(())),
        _ => panic!("then synced"),
    };
    let next = match next {
        CertifyNext::SyncParent(s) => s.synced(Ok(())),
        _ => panic!("with its directory"),
    };
    let other = BoundFileIdentity { volume: 1, index: 6 };
    match next {
        CertifyNext::Identify(s) => match s.identified(Ok(other)) {
            CertifyNext::Done(Err(e)) => assert_eq!(
                e.message(),
                "最终文件目录项身份已变化（可能被原子替换），拒绝写 Completed history: /recv/a.bin"
            ),
            _ => panic!("refused"),
        },
        _ => panic!("then identified"),
    }
}

#[test]
fn a_file_of_the_wrong_length_is_not_certified() {
    let mut w = World::new();
    w.write(&at("a.bin"), b"AB");
    let err = w.certify(&at("a.bin"), 1, &sha_of(b"A")).unwrap_err();
    assert_eq!(err.message(), "最终文件长度与任务不一致: path=/recv/a.bin, len=2, expected=1");
}

#[test]
fn wrong_contents_fail_the_transfer_for_good() {
    let mut w = World::new();
    let id = "wrong-contents";
    w.init(meta(id, "w.bin", 1, &sha_of(b"A"), 1)).expect("init");
    let resp = w.chunk(id, 0, b"B").expect("an answer");
    assert_eq!(resp, ChunkResp { success: false, received_bytes: 1 });
    assert!(!w.has(&tmp_of(id)));
    assert!(!w.has(&at("w.bin")));
    let row = w.row(id).expect("a row");
    assert_eq!(row.status, TransferStatus::Failed);
    assert_eq!(w.status(id).status, "failed");
    match &w.events[..] {
        [TransferEvent::Failed { id: failed, error_message }] => {
            assert_eq!(failed, id);
            assert_eq!(
                error_message,
                &format!("SHA256 校验失败: 期望={}, 实际={}", sha_of(b"A"), sha_of(b"B"))
            );
        }
        other => panic!("unexpected {other:?}"),
    }
    // The answer is the same from memory and from history.
    let replay = w.chunk(id, 0, b"B").expect("an answer");
    assert_eq!(replay, resp);
    w.restart();
    let replay = w.complete(id).expect("an answer");
    assert_eq!(replay, resp);
}

#[test]
fn a_completion_is_announced_with_its_path() {
    let mut w = World::new();
    let id = "announced";
    w.init(meta(id, "n.bin", 1, &sha_of(b"A"), 1)).expect("init");
    assert!(w.chunk(id, 0, b"A").expect("chunk").success);
    match &w.events[..] {
        [TransferEvent::Completed { id: done, file_path }] => {
            assert_eq!(done, id);
            assert_eq!(file_path.as_deref(), Some("/recv/n.bin"));
        }
        other => panic!("unexpected {other:?}"),
    }
}

#[test]
fn a_file_in_place_whose_sync_failed_is_completed_later() {
    let mut w = World::new();
    let id = "sync-pending";
    w.init(meta(id, "s.bin", 1, &sha_of(b"A"), 1)).expect("init");
    w.sync_final_fails = true;
    let err = w.chunk(id, 0, b"A").unwrap_err();
    assert!(matches!(err, AppError::Unavailable(_)));
    assert!(w.has(&at("s.bin")));
    assert_eq!(w.registry.get(id).expect("kept").status, TransferStatus::Completed);
    assert!(w.row(id).is_none());
    w.sync_final_fails = false;
    assert!(w.complete(id).expect("complete").success);
    assert!(!w.has(&at("s (1).bin")));
}

#[test]
fn a_rename_takes_over_where_links_cannot_be_made() {
    let mut w = World::new();
    w.links_fail = true;
    let id = "no-links";
    w.init(meta(id, "l.bin", 1, &sha_of(b"A"), 1)).expect("init");
    assert!(w.chunk(id, 0, b"A").expect("chunk").success);
    assert_eq!(w.read(&at("l.bin")), b"A");
    assert!(!w.has(&tmp_of(id)));
}

#[test]
fn an_incomplete_transfer_is_not_completed() {
    let mut w = World::new();
    let id = "too-early";
    w.init(meta(id, "t.bin", 4, &sha_of(b"ABCD"), 2)).expect("init");
    assert!(w.chunk(id, 0, b"AB").expect("chunk").success);
    let resp = w.complete(id).expect("an answer");
    assert_eq!(resp, ChunkResp { success: false, received_bytes: 2 });
    assert_eq!(w.status(id).status, "transferring");
    assert_eq!(w.status(id).progress.done, 2);
    assert_eq!(w.status(id).progress.total, 4);
    assert!(w.chunk(id, 2, b"CD").expect("chunk").success);
    assert_eq!(w.read(&at("t.bin")), b"ABCD");
}

#[test]
fn a_transfer_nobody_knows_takes_nothing_in() {
    let mut w = World::new();
    let nothing = ChunkResp { success: false, received_bytes: 0 };
    assert_eq!(w.chunk("nobody", 0, b"A").expect("an answer"), nothing);
    assert_eq!(w.complete("nobody").expect("an answer"), nothing);
    assert_eq!(w.status("nobody").status, "unknown");
    w.history_down = true;
    assert!(matches!(w.chunk("nobody", 0, b"A"), Err(AppError::Generic(_))));
    assert!(matches!(w.complete("nobody"), Err(AppError::Generic(_))));
    assert_eq!(w.status("nobody").status, "unknown");
}

#[test]
fn a_transfer_in_history_is_not_opened_again() {
    let mut w = World::new();
    let id = "kept-in-history";
    let sha = sha_of(b"A");
    w.init(meta(id, "h.bin", 1, &sha, 1)).expect("init");
    assert!(w.chunk(id, 0, b"A").expect("chunk").success);
    w.restart();
    let err = w.init(meta(id, "h.bin", 1, &sha, 1)).unwrap_err();
    assert_eq!(
        err.message(),
        "transfer_id `kept-in-history` 已在 transfer_history 终态，拒绝重新 init"
    );
}

#[test]
fn a_request_without_an_id_gets_one() {
    let mut w = World::new();
    let unnamed = InitMeta {
        transfer_id: None,
        filename: "f.bin".to_string(),
        size: 1,
        sha256: sha_of(b"A"),
        chunk_size: 1,
    };
    let resp = w.init(unnamed).expect("init");
    assert_eq!(resp.transfer_id.len(), 36);
    assert_eq!(resp.transfer_id.chars().nth(14), Some('4'));
    assert!(w.registry.get(&resp.transfer_id).is_some());
    assert!(w.chunk(&resp.transfer_id, 0, b"A").expect("chunk").success);
}

#[test]
fn an_intent_of_another_transfer_is_cleared_away() {
    let mut w = World::new();
    let mut strange = small_intent("mine");
    strange.transfer_id = "theirs".to_string();
    w.nodes.insert(at(FINALIZE_INTENT_DIR), Node::Dir);
    w.intents.insert("mine.json".to_string(), strange);
    assert!(w.recover("mine").expect("recover ok").is_none());
    assert!(w.intents.is_empty());
}

#[test]
fn an_intent_out_of_the_directory_is_cleared_away() {
    let mut w = World::new();
    let mut escaping = small_intent("out");
    escaping.final_path = "/etc/passwd".to_string();
    w.write("/etc/passwd", b"A");
    w.nodes.insert(at(FINALIZE_INTENT_DIR), Node::Dir);
    w.intents.insert("out.json".to_string(), escaping);
    let next = try_recover_finalize_intent(Platform::Linux, "out", DIR, &w.facts());
    let read = match next {
        RecoverNext::ReadIntent(s) => s.read(IntentRead::Parsed(copy_intent(w.intent("out").unwrap()))),
        _ => panic!("read first"),
    };
    let resolved = match read {
        RecoverNext::LookupHistory(s) => match s.looked_up(Ok(None)) {
            RecoverNext::Resolve(s) => s.resolved(Platform::Linux, Some(DIR), Some("/etc")),
            _ => panic!("resolved next"),
        },
        _ => panic!("looked up next"),
    };
    assert!(matches!(resolved, RecoverNext::ClearAndGiveUp(_)));
}

#[test]
fn a_complete_whose_row_is_refused_succeeds_when_repeated() {
    let mut w = World::new();
    let payload = b"complete-twice";
    let size = payload.len() as u64;
    let id = "complete-twice";
    w.write(&tmp_of(id), payload);
    w.init(meta(id, "twice.bin", size, &sha_of(payload), size)).expect("init");
    w.history_down = true;
    assert!(matches!(w.complete(id), Err(AppError::Unavailable(_))));
    assert_eq!(w.read(&at("twice.bin")), payload);
    assert!(w.intent(id).is_some());
    assert_eq!(w.registry.get(id).expect("kept").status, TransferStatus::Completed);
    assert!(w.registry.tombstone(id).is_none());
    assert_ne!(w.status(id).status, "completed");
    w.history_down = false;
    let again = w.complete(id).expect("repeated");
    assert_eq!(again, ChunkResp { success: true, received_bytes: size });
    assert!(w.registry.get(id).is_none());
    assert!(matches!(
        w.registry.tombstone(id).map(|t| t.outcome),
        Some(TransferOutcome::Completed { .. })
    ));
    assert!(w.intent(id).is_none());
    assert_eq!(w.row(id).expect("a row").status, TransferStatus::Completed);
    assert_eq!(w.status(id).status, "completed");
}

#[test]
fn an_intent_is_cleared_twice() {
    let mut w = World::new();
    // Neither a missing directory nor a missing intent is an error.
    assert!(w.clear_intent("twice").is_ok());
    let facts = w.facts();
    w.write_intent(&small_intent("twice"), &facts).expect("written");
    w.write_intent(&small_intent("other"), &facts).expect("written");
    w.write(&at("a.bin"), b"A");
    for _ in 0..2 {
        assert!(w.clear_intent("twice").is_ok());
        assert!(w.intent("twice").is_none());
        assert!(w.intent("other").is_some());
        assert_eq!(w.read(&at("a.bin")), b"A");
    }
}

#[test]
fn a_cancelled_row_takes_nothing_in() {
    let mut w = World::new();
    let id = "cancelled-row";
    w.history.push(TransferTask {
        status: TransferStatus::Cancelled,
        transferred_bytes: 3,
        ..receiving(id, "c.bin", &tmp_of(id), 5, "s")
    });
    let nothing = ChunkResp { success: false, received_bytes: 0 };
    assert_eq!(w.chunk(id, 0, b"A").expect("an answer"), nothing);
    assert_eq!(w.status(id).status, "cancelled");
}

//! The transfers in progress, with what is remembered of those that ended.
use std::sync::Arc;
use std::time::Instant;
use tokio::sync::Mutex;
use tokio_util::sync::CancellationToken;
use vstd::prelude::*;

use crate::clock::age_secs;
use crate::table::Table;
use crate::task::{opt_task, opt_view};
use crate::task::{
    FailureView, TaskView, TransferFailure, TransferPhase, TransferStatus, TransferTask,
};
use crate::text::{before, before_is_a_strict_order, is_before};

verus! {

broadcast use vstd::string::group_string_axioms;

/// `tokio_util::sync::CancellationToken`, the switch that stops a transfer.
#[verifier::external_type_specification]
#[verifier::external_body]
pub struct ExCancellationToken(CancellationToken);

/// `CancellationToken::new` makes a token of its own; nothing is claimed of it.
pub assume_specification[ CancellationToken::new ]() -> (token: CancellationToken)
;

/// A clone of a token is the same token: the two are cancelled together.
pub assume_specification[ <CancellationToken as Clone>::clone ](token: &CancellationToken) -> (copy:
    CancellationToken)
    ensures
        copy == *token,
;

/// `CancellationToken::cancel` turns the switch; the switch is shared, so its
/// position is no part of a value here and nothing is claimed of it.
pub assume_specification[ CancellationToken::cancel ](token: &CancellationToken)
;

/// `CancellationToken::is_cancelled` reads the switch, which others may turn at
/// any time; nothing is claimed of the reading.
pub assume_specification[ CancellationToken::is_cancelled ](token: &CancellationToken) -> (cancelled: bool)
;

/// `tokio::sync::Mutex`, held across the steps of one request.
#[verifier::external_type_specification]
#[verifier::external_body]
#[verifier::reject_recursive_types(T)]
pub struct ExMutex<T: ?Sized>(Mutex<T>);

/// `tokio::sync::Mutex::new` makes a lock of its own; nothing is claimed of it.
#[verifier::external_body]
fn new_lock() -> (lock: Mutex<()>) {
    Mutex::new(())
}

/// How a transfer ended.
#[derive(Debug)]
pub enum TransferOutcome {
    /// The file is in place under `final_filename` at `file_path`.
    Completed { final_filename: String, file_path: String },
    Failed { error: String },
}

/// What a [`TransferOutcome`] says.
pub enum OutcomeView {
    Completed { final_filename: Seq<char>, file_path: Seq<char> },
    Failed { error: Seq<char> },
}

impl View for TransferOutcome {
    type V = OutcomeView;

    open spec fn view(&self) -> OutcomeView {
        match self {
            TransferOutcome::Completed { final_filename, file_path } => OutcomeView::Completed {
                final_filename: final_filename@,
                file_path: file_path@,
            },
            TransferOutcome::Failed { error } => OutcomeView::Failed { error: error@ },
        }
    }
}

impl Clone for TransferOutcome {
    fn clone(&self) -> (copy: Self)
        ensures
            copy == *self,
    {
        match self {
            TransferOutcome::Completed { final_filename, file_path } => TransferOutcome::Completed {
                final_filename: final_filename.clone(),
                file_path: file_path.clone(),
            },
            TransferOutcome::Failed { error } => TransferOutcome::Failed { error: error.clone() },
        }
    }
}

/// What is remembered of a transfer that ended, so that a repeated request is
/// answered as the first one was.
#[derive(Debug)]
pub struct TransferTombstone {
    pub outcome: TransferOutcome,
    pub received_bytes: u64,
    pub size: u64,
    pub filename: String,
    pub completed_at: String,
    /// When the tombstone was set, for its age.
    pub created_at: Instant,
}

/// What a [`TransferTombstone`] says.
pub struct TombstoneView {
    pub outcome: OutcomeView,
    pub received_bytes: u64,
    pub size: u64,
    pub filename: Seq<char>,
    pub completed_at: Seq<char>,
    pub created_at: Instant,
}

impl View for TransferTombstone {
    type V = TombstoneView;

    open spec fn view(&self) -> TombstoneView {
        TombstoneView {
            outcome: self.outcome@,
            received_bytes: self.received_bytes,
            size: self.size,
            filename: self.filename@,
            completed_at: self.completed_at@,
            created_at: self.created_at,
        }
    }
}

impl Clone for TransferTombstone {
    fn clone(&self) -> (copy: Self)
        ensures
            copy == *self,
    {
        TransferTombstone {
            outcome: self.outcome.clone(),
            received_bytes: self.received_bytes,
            size: self.size,
            filename: self.filename.clone(),
            completed_at: self.completed_at.clone(),
            created_at: self.created_at,
        }
    }
}

/// A tombstone is forgotten when it is this many seconds old.
pub const TOMBSTONE_TTL_SECS: u64 = 300;

/// Whether a tombstone still stands at `now`.
pub open spec fn stands(tomb: TombstoneView, now: Instant) -> bool {
    age_secs(now, tomb.created_at) < TOMBSTONE_TTL_SECS
}

/// What an optional tombstone says.
pub open spec fn opt_tomb(t: Option<TransferTombstone>) -> Option<TombstoneView> {
    match t {
        Some(t) => Some(t@),
        None => None,
    }
}

/// A task in progress with the switch that stops it.
struct Entry {
    task: TransferTask,
    cancel: CancellationToken,
}

/// The transfers in progress and the tombstones of those that ended.
pub struct TransferRegistry {
    inner: Table<Entry>,
    finalize_locks: Table<Arc<Mutex<()>>>,
    tombstones: Table<TransferTombstone>,
    receive_dir_lock: Arc<Mutex<()>>,
}

/// What a [`TransferRegistry`] holds, by transfer id.
#[verifier::ext_equal]
pub struct RegistryView {
    pub tasks: Map<Seq<char>, TaskView>,
    pub tokens: Map<Seq<char>, CancellationToken>,
    pub locks: Map<Seq<char>, Arc<Mutex<()>>>,
    pub tombstones: Map<Seq<char>, TombstoneView>,
    pub dir_lock: Arc<Mutex<()>>,
}

impl RegistryView {
    /// The task in progress under `id`.
    pub open spec fn task(self, id: Seq<char>) -> Option<TaskView> {
        if self.tasks.contains_key(id) {
            Some(self.tasks[id])
        } else {
            None
        }
    }

    /// The tombstone under `id`, of whatever age.
    pub open spec fn tomb(self, id: Seq<char>) -> Option<TombstoneView> {
        if self.tombstones.contains_key(id) {
            Some(self.tombstones[id])
        } else {
            None
        }
    }

    /// The tombstone under `id` that still stands at `now`.
    pub open spec fn standing(self, id: Seq<char>, now: Instant) -> Option<TombstoneView> {
        if self.tombstones.contains_key(id) && stands(self.tombstones[id], now) {
            Some(self.tombstones[id])
        } else {
            None
        }
    }

    /// Without the tombstones that no longer stand at `now`.
    pub open spec fn pruned(self, now: Instant) -> Self {
        RegistryView {
            tombstones: self.tombstones.restrict(
                Set::new(|id: Seq<char>| self.standing(id, now) is Some),
            ),
            ..self
        }
    }

    /// With `tomb` set under `id` at `now`.
    pub open spec fn buried(self, id: Seq<char>, tomb: TombstoneView, now: Instant) -> Self {
        RegistryView { tombstones: self.pruned(now).tombstones.insert(id, tomb), ..self }
    }

    /// With `task` in progress under its id, stopped by `token`.
    pub open spec fn added(self, task: TaskView, token: CancellationToken) -> Self {
        RegistryView {
            tasks: self.tasks.insert(task.id, task),
            tokens: self.tokens.insert(task.id, token),
            ..self
        }
    }

    /// Without a task in progress under `id`.
    pub open spec fn without(self, id: Seq<char>) -> Self {
        RegistryView { tasks: self.tasks.remove(id), tokens: self.tokens.remove(id), ..self }
    }

    /// With `task` in place of the task in progress under `id`, if there is one.
    pub open spec fn with_task(self, id: Seq<char>, task: TaskView) -> Self {
        if self.tasks.contains_key(id) {
            RegistryView { tasks: self.tasks.insert(id, task), ..self }
        } else {
            self
        }
    }

    /// With `bytes` moved and the status `status` recorded under `id`.
    pub open spec fn progressed(self, id: Seq<char>, bytes: u64, status: TransferStatus) -> Self {
        self.with_task(id, TaskView { transferred_bytes: bytes, status, ..self.tasks[id] })
    }

    /// With the status `status` recorded under `id`.
    pub open spec fn in_status(self, id: Seq<char>, status: TransferStatus) -> Self {
        self.with_task(id, TaskView { status, ..self.tasks[id] })
    }

    /// With the phase `phase` recorded under `id`.
    pub open spec fn in_phase(self, id: Seq<char>, phase: TransferPhase) -> Self {
        self.with_task(id, TaskView { phase: Some(phase), ..self.tasks[id] })
    }

    /// With the task under `id` completed at `at`, all its bytes moved, and its
    /// file at `path` where one is given.
    pub open spec fn completed(self, id: Seq<char>, at: Seq<char>, path: Option<Seq<char>>) -> Self {
        self.with_task(id, completed_task(self.tasks[id], at, path))
    }

    /// With the task under `id` failed at `at`.
    pub open spec fn failed(self, id: Seq<char>, at: Seq<char>) -> Self {
        self.with_task(
            id,
            TaskView { status: TransferStatus::Failed, completed_at: Some(at), ..self.tasks[id] },
        )
    }

    /// With the task under `id` failed at `at` for the reason `why`.
    pub open spec fn failed_with(self, id: Seq<char>, at: Seq<char>, why: FailureView) -> Self {
        self.with_task(id, failed_task(self.tasks[id], at, why))
    }

    /// With the task under `id` cancelled at `at`.
    pub open spec fn cancelled(self, id: Seq<char>, at: Seq<char>) -> Self {
        self.with_task(
            id,
            TaskView { status: TransferStatus::Cancelled, completed_at: Some(at), ..self.tasks[id] },
        )
    }
}

/// `task` completed at `at`.
pub open spec fn completed_task(task: TaskView, at: Seq<char>, path: Option<Seq<char>>) -> TaskView {
    TaskView {
        status: TransferStatus::Completed,
        completed_at: Some(at),
        file_path: match path {
            Some(p) => p,
            None => task.file_path,
        },
        transferred_bytes: task.size,
        ..task
    }
}

/// `task` failed at `at` for the reason `why`.
pub open spec fn failed_task(task: TaskView, at: Seq<char>, why: FailureView) -> TaskView {
    TaskView {
        status: TransferStatus::Failed,
        phase: Some(TransferPhase::Failed),
        failure: Some(why),
        completed_at: Some(at),
        ..task
    }
}

impl View for TransferRegistry {
    type V = RegistryView;

    closed spec fn view(&self) -> RegistryView {
        RegistryView {
            tasks: self.inner@.map_values(|e: Entry| e.task@),
            tokens: self.inner@.map_values(|e: Entry| e.cancel),
            locks: self.finalize_locks@,
            tombstones: self.tombstones@.map_values(|t: TransferTombstone| t@),
            dir_lock: self.receive_dir_lock,
        }
    }
}

/// `lock` is handed out for `id`: the one that it has, or a new one that it has
/// from then on.
pub open spec fn hands_out(
    pre: RegistryView,
    post: RegistryView,
    id: Seq<char>,
    lock: Arc<Mutex<()>>,
) -> bool {
    &&& post.locks.contains_key(id) && post.locks[id] == lock
    &&& pre.locks.contains_key(id) ==> post == pre
    &&& post == (RegistryView { locks: pre.locks.insert(id, lock), ..pre })
}

/// `listed` holds the tasks of `tasks`, each once, the newest first.
pub open spec fn lists_newest_first(
    tasks: Map<Seq<char>, TaskView>,
    listed: Seq<TransferTask>,
) -> bool {
    &&& listed.len() == tasks.len()
    &&& forall|i: int|
        0 <= i < listed.len() ==> tasks.contains_key((#[trigger] listed[i])@.id) && tasks[listed[i]@.id]
            == listed[i]@
    &&& forall|i: int, j: int|
        0 <= i < j < listed.len() ==> (#[trigger] listed[i])@.id != (#[trigger] listed[j])@.id
            && !before(listed[i]@.created_at, listed[j]@.created_at)
    &&& forall|id: Seq<char>| #[trigger]
        tasks.contains_key(id) ==> exists|i: int|
            0 <= i < listed.len() && (#[trigger] listed[i])@.id == id
}

impl TransferRegistry {
    #[verifier::type_invariant]
    spec fn keyed_by_task_id(self) -> bool {
        forall|id: Seq<char>| #[trigger]
            self.inner@.contains_key(id) ==> self.inner@[id].task.id@ == id
    }

    /// A registry with nothing in progress and nothing remembered.
    pub fn new() -> (registry: Self)
        ensures
            registry@.tasks == Map::<Seq<char>, TaskView>::empty(),
            registry@.tokens == Map::<Seq<char>, CancellationToken>::empty(),
            registry@.locks == Map::<Seq<char>, Arc<Mutex<()>>>::empty(),
            registry@.tombstones == Map::<Seq<char>, TombstoneView>::empty(),
    {
        let registry = TransferRegistry {
            inner: Table::new(),
            finalize_locks: Table::new(),
            tombstones: Table::new(),
            receive_dir_lock: Arc::new(new_lock()),
        };
        assert(registry@.tasks =~= Map::<Seq<char>, TaskView>::empty());
        assert(registry@.tokens =~= Map::<Seq<char>, CancellationToken>::empty());
        assert(registry@.tombstones =~= Map::<Seq<char>, TombstoneView>::empty());
        registry
    }

    /// The lock under which the requests for `id` take turns. The same id has
    /// the same lock for as long as the registry lives.
    pub fn finalize_lock(&mut self, id: &str) -> (lock: Arc<Mutex<()>>)
        ensures
            hands_out(old(self)@, final(self)@, id@, lock),
    {
        match self.finalize_locks.get(id) {
            Some(lock) => {
                let lock = lock.clone();
                assert(self@.locks =~= self@.locks.insert(id@, lock));
                return lock;
            },
            None => {},
        }
        let lock = Arc::new(new_lock());
        proof {
            use_type_invariant(&*self);
        }
        let mut locks: Table<Arc<Mutex<()>>> = Table::new();
        std::mem::swap(&mut locks, &mut self.finalize_locks);
        locks.insert(id.to_string(), lock.clone());
        self.finalize_locks = locks;
        lock
    }

    /// The lock under which final file names are picked and taken.
    pub fn receive_dir_lock(&self) -> (lock: Arc<Mutex<()>>)
        ensures
            lock == self@.dir_lock,
    {
        self.receive_dir_lock.clone()
    }

    /// Forgets the tombstones that no longer stand at `now`.
    fn prune(&mut self, now: Instant)
        ensures
            final(self)@ == old(self)@.pruned(now),
    {
        proof {
            use_type_invariant(&*self);
        }
        let ghost before = self.tombstones@;
        let mut tombs: Table<TransferTombstone> = Table::new();
        std::mem::swap(&mut tombs, &mut self.tombstones);
        tombs.reveal_names();
        let mut gone: Vec<String> = Vec::new();
        let count: usize = tombs.len();
        let mut i: usize = 0;
        while i < count
            invariant
                i <= count == tombs.names().len(),
                tombs@ == before,
                forall|k: int| 0 <= k < gone@.len() ==> before.contains_key((#[trigger] gone@[k])@) && !stands(
                    before[gone@[k]@]@,
                    now,
                ),
                forall|j: int|
                    0 <= j < i && !stands(before[#[trigger] tombs.names()[j]]@, now) ==> exists|k: int|
                        0 <= k < gone@.len() && (#[trigger] gone@[k])@ == tombs.names()[j],
            decreases count - i,
        {
            let ghost had = gone@;
            let (name, tomb) = tombs.row(i);
            if now.duration_since(tomb.created_at).as_secs() >= TOMBSTONE_TTL_SECS {
                gone.push(name.clone());
                assert(gone@[had.len() as int]@ == tombs.names()[i as int]);
            }
            proof {
                assert forall|j: int|
                    0 <= j < i + 1 && !stands(before[#[trigger] tombs.names()[j]]@, now) implies exists|k: int|
                    0 <= k < gone@.len() && (#[trigger] gone@[k])@ == tombs.names()[j] by {
                    if j < i {
                        let k = choose|k: int|
                            0 <= k < had.len() && (#[trigger] had[k])@ == tombs.names()[j];
                        assert(gone@[k] == had[k]);
                    }
                }
            }
            i += 1;
        }
        proof {
            assert forall|id: Seq<char>| before.contains_key(id) && !stands(before[id]@, now) implies exists|k: int|
                0 <= k < gone@.len() && (#[trigger] gone@[k])@ == id by {
                assert(tombs.names().contains(id));
                let j = choose|j: int| 0 <= j < tombs.names().len() && tombs.names()[j] == id;
                assert(!stands(before[tombs.names()[j]]@, now));
            }
        }
        let mut k: usize = 0;
        while k < gone.len()
            invariant
                k <= gone@.len(),
                forall|m: int| 0 <= m < gone@.len() ==> before.contains_key((#[trigger] gone@[m])@) && !stands(
                    before[gone@[m]@]@,
                    now,
                ),
                forall|id: Seq<char>| #[trigger]
                    tombs@.contains_key(id) <==> before.contains_key(id) && forall|m: int|
                        0 <= m < k ==> (#[trigger] gone@[m])@ != id,
                forall|id: Seq<char>| #[trigger] tombs@.contains_key(id) ==> tombs@[id] == before[id],
            decreases gone@.len() - k,
        {
            let _ = tombs.remove(gone[k].as_str());
            k += 1;
        }
        self.tombstones = tombs;
        assert(self@.tombstones =~= old(self)@.pruned(now).tombstones) by {
            assert forall|id: Seq<char>| #[trigger]
                self@.tombstones.contains_key(id) <==> old(self)@.pruned(now).tombstones.contains_key(id) by {
                if before.contains_key(id) && stands(before[id]@, now) {
                    assert(forall|m: int| 0 <= m < gone@.len() ==> (#[trigger] gone@[m])@ != id);
                    assert(tombs@.contains_key(id));
                }
                if tombs@.contains_key(id) {
                    if !stands(before[id]@, now) {
                        let m = choose|m: int| 0 <= m < gone@.len() && (#[trigger] gone@[m])@ == id;
                        assert(gone@[m]@ != id);
                    }
                }
            }
        }
        assert(self@ =~= old(self)@.pruned(now));
    }

    /// Sets a tombstone under `id` at `now`, and forgets those that no longer
    /// stand.
    pub fn record_tombstone_at(&mut self, id: &str, tomb: TransferTombstone, now: Instant)
        ensures
            final(self)@ == old(self)@.buried(id@, tomb@, now),
    {
        self.prune(now);
        proof {
            use_type_invariant(&*self);
        }
        let ghost tv = tomb@;
        let mut tombs: Table<TransferTombstone> = Table::new();
        std::mem::swap(&mut tombs, &mut self.tombstones);
        tombs.insert(id.to_string(), tomb);
        self.tombstones = tombs;
        assert(self@.tombstones =~= old(self)@.pruned(now).tombstones.insert(id@, tv));
        assert(self@ =~= old(self)@.buried(id@, tv, now));
    }

    /// Sets a tombstone under `id`. The time at which others are found to have
    /// lapsed is read inside.
    pub fn record_tombstone(&mut self, id: &str, tomb: TransferTombstone)
        ensures
            exists|now: Instant| final(self)@ == #[trigger] old(self)@.buried(id@, tomb@, now),
    {
        let now = Instant::now();
        self.record_tombstone_at(id, tomb, now);
    }

    /// The tombstone under `id` that stands at `now`; those that do not stand
    /// are forgotten.
    pub fn tombstone_at(&mut self, id: &str, now: Instant) -> (tomb: Option<TransferTombstone>)
        ensures
            final(self)@ == old(self)@.pruned(now),
            opt_tomb(tomb) == old(self)@.standing(id@, now),
    {
        self.prune(now);
        assert(self@.tomb(id@) == old(self)@.standing(id@, now));
        match self.tombstones.get(id) {
            Some(tomb) => {
                assert(self@.tombstones.contains_key(id@));
                Some(tomb.clone())
            },
            None => {
                assert(!self@.tombstones.contains_key(id@));
                None
            },
        }
    }

    /// The tombstone under `id`, if it still stands. The time is read inside.
    pub fn tombstone(&mut self, id: &str) -> (tomb: Option<TransferTombstone>)
        ensures
            exists|now: Instant|
                final(self)@ == #[trigger] old(self)@.pruned(now) && opt_tomb(tomb)
                    == old(self)@.standing(id@, now),
    {
        let now = Instant::now();
        self.tombstone_at(id, now)
    }

    /// Takes the entry under `id` out.
    fn take(&mut self, id: &str) -> (entry: Option<Entry>)
        ensures
            final(self)@ == old(self)@.without(id@),
            match entry {
                Some(e) => old(self)@.tasks.contains_key(id@) && e.task@ == old(self)@.tasks[id@]
                    && e.cancel == old(self)@.tokens[id@] && e.task@.id == id@,
                None => !old(self)@.tasks.contains_key(id@),
            },
    {
        proof {
            use_type_invariant(&*self);
        }
        let ghost had = self.inner@;
        let mut inner: Table<Entry> = Table::new();
        std::mem::swap(&mut inner, &mut self.inner);
        let entry = inner.remove(id);
        self.inner = inner;
        assert(self@ =~= old(self)@.without(id@));
        entry
    }

    /// Puts `entry` in under its task's id.
    fn put(&mut self, entry: Entry)
        ensures
            final(self)@ == old(self)@.added(entry.task@, entry.cancel),
    {
        proof {
            use_type_invariant(&*self);
        }
        let ghost (task, token) = (entry.task@, entry.cancel);
        let mut inner: Table<Entry> = Table::new();
        std::mem::swap(&mut inner, &mut self.inner);
        inner.insert(entry.task.id.clone(), entry);
        self.inner = inner;
        assert(self@ =~= old(self)@.added(task, token));
    }

    /// Registers `task` as in progress, with a switch of its own.
    pub fn add(&mut self, task: TransferTask)
        ensures
            exists|token: CancellationToken|
                final(self)@ == #[trigger] old(self)@.added(task@, token),
    {
        self.put(Entry { task, cancel: CancellationToken::new() });
    }

    /// The task in progress under `id`.
    pub fn get(&self, id: &str) -> (task: Option<TransferTask>)
        ensures
            opt_task(task) == self@.task(id@),
            task matches Some(t) ==> t@.id == id@,
    {
        proof {
            use_type_invariant(self);
        }
        match self.inner.get(id) {
            Some(entry) => {
                assert(self@.tasks.contains_key(id@));
                Some(entry.task.clone())
            },
            None => {
                assert(!self@.tasks.contains_key(id@));
                None
            },
        }
    }

    /// The switch that stops the task in progress under `id`.
    pub fn cancel_token(&self, id: &str) -> (token: Option<CancellationToken>)
        ensures
            match token {
                Some(t) => self@.tokens.contains_key(id@) && t == self@.tokens[id@],
                None => !self@.tokens.contains_key(id@),
            },
    {
        match self.inner.get(id) {
            Some(entry) => {
                assert(self@.tokens.contains_key(id@));
                Some(entry.cancel.clone())
            },
            None => {
                assert(!self@.tokens.contains_key(id@));
                None
            },
        }
    }

    /// Records how much has moved, and the status.
    pub fn update_progress(&mut self, id: &str, transferred_bytes: u64, status: TransferStatus)
        ensures
            final(self)@ == old(self)@.progressed(id@, transferred_bytes, status),
    {
        if let Some(entry) = self.take(id) {
            let mut entry = entry;
            entry.task.transferred_bytes = transferred_bytes;
            entry.task.status = status;
            self.put(entry);
            assert(self@ =~= old(self)@.progressed(id@, transferred_bytes, status));
        } else {
            assert(self@ =~= old(self)@);
        }
    }

    /// Records the status.
    pub fn set_status(&mut self, id: &str, status: TransferStatus)
        ensures
            final(self)@ == old(self)@.in_status(id@, status),
    {
        if let Some(entry) = self.take(id) {
            let mut entry = entry;
            entry.task.status = status;
            self.put(entry);
            assert(self@ =~= old(self)@.in_status(id@, status));
        } else {
            assert(self@ =~= old(self)@);
        }
    }

    /// Records the phase.
    pub fn set_phase(&mut self, id: &str, phase: TransferPhase)
        ensures
            final(self)@ == old(self)@.in_phase(id@, phase),
    {
        if let Some(entry) = self.take(id) {
            let mut entry = entry;
            entry.task.phase = Some(phase);
            self.put(entry);
            assert(self@ =~= old(self)@.in_phase(id@, phase));
        } else {
            assert(self@ =~= old(self)@);
        }
    }

    /// Records completion: every byte has moved, and the file is at
    /// `final_path` where one is given.
    pub fn mark_completed(&mut self, id: &str, completed_at: String, final_path: Option<String>)
        ensures
            final(self)@ == old(self)@.completed(id@, completed_at@, opt_view(final_path)),
    {
        let ghost (at, path) = (completed_at@, opt_view(final_path));
        if let Some(entry) = self.take(id) {
            let mut entry = entry;
            entry.task.status = TransferStatus::Completed;
            entry.task.completed_at = Some(completed_at);
            if let Some(p) = final_path {
                entry.task.file_path = p;
            }
            entry.task.transferred_bytes = entry.task.size;
            self.put(entry);
            assert(self@ =~= old(self)@.completed(id@, at, path));
        } else {
            assert(self@ =~= old(self)@);
        }
    }

    /// Records failure.
    pub fn mark_failed(&mut self, id: &str, completed_at: String)
        ensures
            final(self)@ == old(self)@.failed(id@, completed_at@),
    {
        let ghost at = completed_at@;
        if let Some(entry) = self.take(id) {
            let mut entry = entry;
            entry.task.status = TransferStatus::Failed;
            entry.task.completed_at = Some(completed_at);
            self.put(entry);
            assert(self@ =~= old(self)@.failed(id@, at));
        } else {
            assert(self@ =~= old(self)@);
        }
    }

    /// Records failure with its reason.
    pub fn mark_failed_with(&mut self, id: &str, completed_at: String, failure: TransferFailure)
        ensures
            final(self)@ == old(self)@.failed_with(id@, completed_at@, failure@),
    {
        let ghost (at, why) = (completed_at@, failure@);
        if let Some(entry) = self.take(id) {
            let mut entry = entry;
            entry.task.status = TransferStatus::Failed;
            entry.task.phase = Some(TransferPhase::Failed);
            entry.task.failure = Some(failure);
            entry.task.completed_at = Some(completed_at);
            self.put(entry);
            assert(self@ =~= old(self)@.failed_with(id@, at, why));
        } else {
            assert(self@ =~= old(self)@);
        }
    }

    /// Records cancellation.
    pub fn mark_cancelled(&mut self, id: &str, completed_at: String)
        ensures
            final(self)@ == old(self)@.cancelled(id@, completed_at@),
    {
        let ghost at = completed_at@;
        if let Some(entry) = self.take(id) {
            let mut entry = entry;
            entry.task.status = TransferStatus::Cancelled;
            entry.task.completed_at = Some(completed_at);
            self.put(entry);
            assert(self@ =~= old(self)@.cancelled(id@, at));
        } else {
            assert(self@ =~= old(self)@);
        }
    }

    /// Turns the switch of the task in progress under `id`, and says whether
    /// there was one. The position of the switch is shared state and is not
    /// part of this statement.
    pub fn cancel(&self, id: &str) -> (found: bool)
        ensures
            found == self@.tasks.contains_key(id@),
    {
        match self.inner.get(id) {
            Some(entry) => {
                assert(self@.tasks.contains_key(id@));
                entry.cancel.cancel();
                true
            },
            None => {
                assert(!self@.tasks.contains_key(id@));
                false
            },
        }
    }

    /// Takes the task under `id` out of progress.
    pub fn remove(&mut self, id: &str) -> (task: Option<TransferTask>)
        ensures
            final(self)@ == old(self)@.without(id@),
            opt_task(task) == old(self)@.task(id@),
    {
        match self.take(id) {
            Some(entry) => Some(entry.task),
            None => None,
        }
    }

    /// The tasks in progress, the newest first.
    pub fn list(&self) -> (tasks: Vec<TransferTask>)
        ensures
            lists_newest_first(self@.tasks, tasks@),
    {
        proof {
            use_type_invariant(self);
        }
        self.inner.reveal_names();
        let ghost names = self.inner.names();
        let mut tasks: Vec<TransferTask> = Vec::new();
        let count: usize = self.inner.len();
        let mut i: usize = 0;
        while i < count
            invariant
                i <= count == names.len(),
                names == self.inner.names(),
                names.no_duplicates(),
                self.keyed_by_task_id(),
                tasks@.len() == i,
                forall|k: int| 0 <= k < i ==> self@.tasks.contains_key((#[trigger] tasks@[k])@.id)
                    && self@.tasks[tasks@[k]@.id] == tasks@[k]@,
                forall|k: int, j: int| 0 <= k < i && i <= j < names.len() ==> (#[trigger] tasks@[k])@.id
                    != #[trigger] names[j],
                forall|j: int, k: int|
                    0 <= j < k < i ==> (#[trigger] tasks@[j])@.id != (#[trigger] tasks@[k])@.id && !before(
                        tasks@[j]@.created_at,
                        tasks@[k]@.created_at,
                    ),
                forall|j: int| 0 <= j < i ==> exists|k: int|
                    0 <= k < i && (#[trigger] tasks@[k])@.id == #[trigger] names[j],
            decreases count - i,
        {
            let (name, entry) = self.inner.row(i);
            let task = entry.task.clone();
            assert(self@.tasks.contains_key(task@.id) && self@.tasks[task@.id] == task@);
            let ghost had = tasks@;
            let mut at: usize = 0;
            while at < tasks.len() && !is_before(tasks[at].created_at.as_str(), task.created_at.as_str())
                invariant
                    at <= tasks@.len(),
                    forall|k: int| 0 <= k < at ==> !before(
                        (#[trigger] tasks@[k])@.created_at,
                        task@.created_at,
                    ),
                decreases tasks@.len() - at,
            {
                at += 1;
            }
            proof {
                assert(task@.id == names[i as int]);
                assert forall|k: int| at <= k < had.len() implies !before(
                    task@.created_at,
                    (#[trigger] had[k])@.created_at,
                ) by {
                    before_is_a_strict_order(
                        had[at as int]@.created_at,
                        task@.created_at,
                        had[k]@.created_at,
                    );
                    before_is_a_strict_order(
                        task@.created_at,
                        had[k]@.created_at,
                        had[at as int]@.created_at,
                    );
                    if at < k {
                        assert(!before(had[at as int]@.created_at, had[k]@.created_at));
                    }
                    if before(task@.created_at, had[k]@.created_at) {
                        before_is_a_strict_order(
                            had[at as int]@.created_at,
                            task@.created_at,
                            had[k]@.created_at,
                        );
                    }
                }
            }
            tasks.insert(at, task);
            proof {
                let now = tasks@;
                assert(now =~= had.insert(at as int, task));
                assert forall|k: int| 0 <= k < now.len() implies #[trigger] now[k] == (if k < at {
                    had[k]
                } else if k == at {
                    task
                } else {
                    had[k - 1]
                }) by {}
                assert forall|j: int, k: int| 0 <= j < k < now.len() implies (#[trigger] now[j])@.id
                    != (#[trigger] now[k])@.id && !before(now[j]@.created_at, now[k]@.created_at) by {
                    let hj = if j < at { j } else { j - 1 };
                    let hk = if k < at { k } else { k - 1 };
                    if j != at && k != at {
                        assert(had[hj]@.id != had[hk]@.id);
                    } else if j == at {
                        assert(had[hk]@.id != names[i as int]);
                    } else {
                        assert(had[hj]@.id != names[i as int]);
                    }
                }
                assert forall|k: int, j: int| 0 <= k < i + 1 && i + 1 <= j < names.len() implies (
                #[trigger] now[k])@.id != #[trigger] names[j] by {
                    if k != at {
                        let hk = if k < at { k } else { k - 1 };
                        assert(had[hk]@.id != names[j]);
                    }
                }
                assert forall|j: int| 0 <= j < i + 1 implies exists|k: int|
                    0 <= k < i + 1 && (#[trigger] now[k])@.id == #[trigger] names[j] by {
                    if j < i {
                        let k = choose|k: int| 0 <= k < i && (#[trigger] had[k])@.id == names[j];
                        let nk = if k < at { k } else { k + 1 };
                        assert(now[nk]@.id == names[j]);
                    } else {
                        assert(now[at as int]@.id == names[j]);
                    }
                }
                assert forall|k: int| 0 <= k < i + 1 implies self@.tasks.contains_key((#[trigger] now[k])@.id)
                    && self@.tasks[now[k]@.id] == now[k]@ by {
                    if k != at {
                        let hk = if k < at { k } else { k - 1 };
                        assert(self@.tasks.contains_key(had[hk]@.id));
                    }
                }
            }
            i += 1;
        }
        proof {
            assert forall|id: Seq<char>| #[trigger] self@.tasks.contains_key(id) implies exists|k: int|
                0 <= k < tasks@.len() && (#[trigger] tasks@[k])@.id == id by {
                assert(self.inner@.contains_key(id));
                assert(names.contains(id));
                let j = choose|j: int| 0 <= j < names.len() && names[j] == id;
                let k = choose|k: int| 0 <= k < tasks@.len() && (#[trigger] tasks@[k])@.id == names[j];
                assert(tasks@[k]@.id == id);
            }
            assert(self@.tasks.dom() =~= self.inner@.dom());
        }
        tasks
    }
}

impl Default for TransferRegistry {
    fn default() -> (registry: Self)
        ensures
            registry@.tasks == Map::<Seq<char>, TaskView>::empty(),
            registry@.tokens == Map::<Seq<char>, CancellationToken>::empty(),
            registry@.locks == Map::<Seq<char>, Arc<Mutex<()>>>::empty(),
            registry@.tombstones == Map::<Seq<char>, TombstoneView>::empty(),
    {
        TransferRegistry::new()
    }
}

// ---------------------------------------------------------------------------
// Laws
// ---------------------------------------------------------------------------
/// A task that was registered is found under its id until it is taken out; no
/// other task is affected by either.
pub proof fn a_registered_task_is_found(
    registry: RegistryView,
    task: TaskView,
    token: CancellationToken,
    other: Seq<char>,
)
    ensures
        registry.added(task, token).task(task.id) == Some(task),
        registry.added(task, token).without(task.id).task(task.id) is None,
        other != task.id ==> registry.added(task, token).task(other) == registry.task(other),
        other != task.id ==> registry.without(task.id).task(other) == registry.task(other),
        registry.added(task, token).tombstones == registry.tombstones,
        registry.without(task.id).tombstones == registry.tombstones,
{
}

/// What is recorded of a task changes no other task and no tombstone, and
/// registers nothing that was not registered.
pub proof fn a_record_touches_only_its_task(
    registry: RegistryView,
    id: Seq<char>,
    task: TaskView,
    other: Seq<char>,
)
    ensures
        other != id ==> registry.with_task(id, task).task(other) == registry.task(other),
        registry.with_task(id, task).task(id) is Some <==> registry.task(id) is Some,
        registry.with_task(id, task).tombstones == registry.tombstones,
        registry.with_task(id, task).tokens == registry.tokens,
{
}

/// A tombstone that was set is found for as long as it stands, and not after;
/// other tombstones that stand are found as before.
pub proof fn a_tombstone_is_found_while_it_stands(
    registry: RegistryView,
    id: Seq<char>,
    tomb: TombstoneView,
    now: Instant,
    at: Instant,
    other: Seq<char>,
)
    ensures
        registry.buried(id, tomb, now).standing(id, at) == (if stands(tomb, at) {
            Some(tomb)
        } else {
            None
        }),
        other != id && registry.standing(other, now) is Some ==> registry.buried(id, tomb, now).standing(
            other,
            at,
        ) == registry.standing(other, at),
        registry.buried(id, tomb, now).tasks == registry.tasks,
{
}

/// Forgetting what no longer stands changes nothing that can still be asked for
/// at that time, and forgetting twice is forgetting once.
pub proof fn forgetting_loses_nothing_that_stands(
    registry: RegistryView,
    now: Instant,
    id: Seq<char>,
)
    ensures
        registry.pruned(now).standing(id, now) == registry.standing(id, now),
        registry.pruned(now).tomb(id) == registry.standing(id, now),
        registry.pruned(now).pruned(now) == registry.pruned(now),
        registry.pruned(now).tasks == registry.tasks,
{
    assert(registry.pruned(now).pruned(now) =~= registry.pruned(now));
}

/// One step in the life of a registry, as far as its tombstones go.
pub enum Change {
    /// Tasks were registered, recorded, stopped or taken out, or locks handed out.
    Tasks,
    /// A tombstone was asked for at this time.
    Asked(Instant),
    /// A tombstone was set under this id at this time.
    Buried(Seq<char>, TombstoneView, Instant),
}

/// Whether a registry went from `before` to `after` by `change`.
pub open spec fn changed(before: RegistryView, after: RegistryView, change: Change) -> bool {
    match change {
        Change::Tasks => after.tombstones == before.tombstones,
        Change::Asked(now) => after == before.pruned(now),
        Change::Buried(id, tomb, now) => after == before.buried(id, tomb, now),
    }
}

/// The time at which a step looked for what no longer stands.
pub open spec fn looked_at(change: Change) -> Option<Instant> {
    match change {
        Change::Tasks => None,
        Change::Asked(now) => Some(now),
        Change::Buried(id, tomb, now) => Some(now),
    }
}

/// `run` is the life of a registry, step by step, in which no tombstone is set
/// under `id`.
pub open spec fn lives_on(run: Seq<RegistryView>, changes: Seq<Change>, id: Seq<char>) -> bool {
    &&& run.len() == changes.len() + 1
    &&& forall|k: int| 0 <= k < changes.len() ==> changed(run[k], run[k + 1], #[trigger] changes[k])
    &&& forall|k: int|
        0 <= k < changes.len() ==> !((#[trigger] changes[k]) matches Change::Buried(other, _, _)
            && other == id)
}

/// The last tombstone that was set under an id is found, with all that it says,
/// until it is too old, and not after, whatever was registered, recorded, asked
/// for or set under other ids in between. The clock does not run backwards: no
/// step in between saw the tombstone older than it is at the end.
pub proof fn a_tombstone_is_found_until_it_lapses(
    before: RegistryView,
    id: Seq<char>,
    tomb: TombstoneView,
    set_at: Instant,
    run: Seq<RegistryView>,
    changes: Seq<Change>,
    at: Instant,
)
    requires
        lives_on(run, changes, id),
        run[0] == before.buried(id, tomb, set_at),
        forall|k: int|
            0 <= k < changes.len() && looked_at(#[trigger] changes[k]) is Some ==> age_secs(
                looked_at(changes[k])->0,
                tomb.created_at,
            ) <= age_secs(at, tomb.created_at),
    ensures
        run.last().standing(id, at) == (if age_secs(at, tomb.created_at) < TOMBSTONE_TTL_SECS {
            Some(tomb)
        } else {
            None
        }),
{
    lemma_kept_while_it_stands(id, tomb, run, changes, at);
}

proof fn lemma_kept_while_it_stands(
    id: Seq<char>,
    tomb: TombstoneView,
    run: Seq<RegistryView>,
    changes: Seq<Change>,
    at: Instant,
)
    requires
        lives_on(run, changes, id),
        run[0].tomb(id) == Some(tomb),
        forall|k: int|
            0 <= k < changes.len() && looked_at(#[trigger] changes[k]) is Some ==> age_secs(
                looked_at(changes[k])->0,
                tomb.created_at,
            ) <= age_secs(at, tomb.created_at),
    ensures
        run.last().tomb(id) == Some(tomb) || (run.last().tomb(id) is None && !stands(tomb, at)),
    decreases changes.len(),
{
    if changes.len() > 0 {
        let n = changes.len() as int;
        let earlier = run.drop_last();
        let fewer = changes.drop_last();
        assert forall|k: int| 0 <= k < fewer.len() implies changed(
            earlier[k],
            earlier[k + 1],
            #[trigger] fewer[k],
        ) && !(fewer[k] matches Change::Buried(other, _, _) && other == id) && (looked_at(
            fewer[k],
        ) is Some ==> age_secs(looked_at(fewer[k])->0, tomb.created_at) <= age_secs(
            at,
            tomb.created_at,
        )) by {
            assert(fewer[k] == changes[k]);
            assert(changed(run[k], run[k + 1], changes[k]));
        }
        lemma_kept_while_it_stands(id, tomb, earlier, fewer, at);
        assert(changed(run[n - 1], run[n], changes[n - 1]));
        assert(earlier.last() == run[n - 1]);
        let change = changes[n - 1];
        assert(looked_at(change) is Some ==> age_secs(looked_at(change)->0, tomb.created_at)
            <= age_secs(at, tomb.created_at));
    }
}

/// Setting a tombstone, or asking for one, changes no task in progress.
pub proof fn a_tombstone_disturbs_no_task(before: RegistryView, after: RegistryView, change: Change)
    requires
        changed(before, after, change),
        !(change is Tasks),
    ensures
        after.tasks == before.tasks,
        after.tokens == before.tokens,
        after.locks == before.locks,
{
}

/// An id under which no tombstone was ever set has none.
pub proof fn an_id_without_a_tombstone_stays_without(
    id: Seq<char>,
    run: Seq<RegistryView>,
    changes: Seq<Change>,
)
    requires
        lives_on(run, changes, id),
        run[0].tomb(id) is None,
    ensures
        run.last().tomb(id) is None,
    decreases changes.len(),
{
    if changes.len() > 0 {
        let n = changes.len() as int;
        let earlier = run.drop_last();
        let fewer = changes.drop_last();
        assert forall|k: int| 0 <= k < fewer.len() implies changed(
            earlier[k],
            earlier[k + 1],
            #[trigger] fewer[k],
        ) && !(fewer[k] matches Change::Buried(other, _, _) && other == id) by {
            assert(fewer[k] == changes[k]);
            assert(changed(run[k], run[k + 1], changes[k]));
        }
        an_id_without_a_tombstone_stays_without(id, earlier, fewer);
        assert(changed(run[n - 1], run[n], changes[n - 1]));
        assert(earlier.last() == run[n - 1]);
    }
}

/// `post` is `pre` but for what is in progress under `id`.
pub open spec fn others_kept(pre: RegistryView, post: RegistryView, id: Seq<char>) -> bool {
    &&& post.tasks.remove(id) == pre.tasks.remove(id)
    &&& post.tokens.remove(id) == pre.tokens.remove(id)
    &&& post.locks == pre.locks
    &&& post.tombstones == pre.tombstones
    &&& post.dir_lock == pre.dir_lock
}

/// `post` is `pre` but for what is recorded of the task in progress under `id`,
/// which stays in progress under the same switch.
pub open spec fn only_records(pre: RegistryView, post: RegistryView, id: Seq<char>) -> bool {
    &&& others_kept(pre, post, id)
    &&& post.tasks.contains_key(id) <==> pre.tasks.contains_key(id)
    &&& post.tokens == pre.tokens
}

/// `post` is `pre` without the tombstones that are too old at `at`.
pub open spec fn only_forgets(pre: RegistryView, post: RegistryView, at: Instant) -> bool {
    &&& post.tasks == pre.tasks
    &&& post.tokens == pre.tokens
    &&& post.locks == pre.locks
    &&& post.dir_lock == pre.dir_lock
    &&& forall|id: Seq<char>| #[trigger]
        post.tombstones.contains_key(id) <==> pre.tombstones.contains_key(id) && age_secs(
            at,
            pre.tombstones[id].created_at,
        ) < TOMBSTONE_TTL_SECS
    &&& forall|id: Seq<char>| #[trigger]
        post.tombstones.contains_key(id) ==> post.tombstones[id] == pre.tombstones[id]
}

/// `a` and `b` are one attempt at moving one file, whatever has come of it and
/// wherever the file lies.
pub open spec fn same_attempt(a: TaskView, b: TaskView) -> bool {
    &&& a.id == b.id
    &&& a.filename == b.filename
    &&& a.size == b.size
    &&& a.sha256 == b.sha256
    &&& a.chunk_size == b.chunk_size
    &&& a.direction == b.direction
    &&& a.peer_device_id == b.peer_device_id
    &&& a.created_at == b.created_at
    &&& a.attempt == b.attempt
    &&& a.logical_transfer_id == b.logical_transfer_id
    &&& a.attempt_id == b.attempt_id
    &&& a.protocol_transfer_id == b.protocol_transfer_id
    &&& a.client_operation_id == b.client_operation_id
    &&& a.operation_payload_hash == b.operation_payload_hash
}

/// Progress, a status and a phase are recorded as they were told, of the task
/// that they were told of, and nothing else is: not its end, not its file, not
/// any other task.
pub proof fn progress_is_recorded_as_told(
    registry: RegistryView,
    id: Seq<char>,
    bytes: u64,
    status: TransferStatus,
    phase: TransferPhase,
)
    requires
        registry.tasks.contains_key(id),
    ensures
        ({
            let was = registry.tasks[id];
            let moved = registry.progressed(id, bytes, status);
            let now = moved.tasks[id];
            &&& only_records(registry, moved, id)
            &&& now.transferred_bytes == bytes && now.status == status
            &&& same_attempt(now, was) && now.file_path == was.file_path
            &&& now.phase == was.phase && now.failure == was.failure && now.completed_at
                == was.completed_at
        }),
        ({
            let was = registry.tasks[id];
            let marked = registry.in_status(id, status);
            let now = marked.tasks[id];
            &&& only_records(registry, marked, id)
            &&& now.status == status && now.transferred_bytes == was.transferred_bytes
            &&& same_attempt(now, was) && now.file_path == was.file_path
            &&& now.phase == was.phase && now.failure == was.failure && now.completed_at
                == was.completed_at
        }),
        ({
            let was = registry.tasks[id];
            let marked = registry.in_phase(id, phase);
            let now = marked.tasks[id];
            &&& only_records(registry, marked, id)
            &&& now.phase == Some(phase) && now.status == was.status && now.transferred_bytes
                == was.transferred_bytes
            &&& same_attempt(now, was) && now.file_path == was.file_path
            &&& now.failure == was.failure && now.completed_at == was.completed_at
        }),
{
    assert(registry.progressed(id, bytes, status).tasks.remove(id) =~= registry.tasks.remove(id));
    assert(registry.in_status(id, status).tasks.remove(id) =~= registry.tasks.remove(id));
    assert(registry.in_phase(id, phase).tasks.remove(id) =~= registry.tasks.remove(id));
}

/// The end of a task is recorded as it was told: a completed one has all its
/// bytes and lies where it was said to lie, or where it lay; a failed and a
/// cancelled one keep what had arrived and where it lies; each ended when it was
/// said to have ended, and none becomes another transfer.
pub proof fn an_end_is_recorded_as_told(
    registry: RegistryView,
    id: Seq<char>,
    at: Seq<char>,
    path: Seq<char>,
    why: FailureView,
)
    requires
        registry.tasks.contains_key(id),
    ensures
        ({
            let was = registry.tasks[id];
            let ended = registry.completed(id, at, Some(path));
            let now = ended.tasks[id];
            &&& only_records(registry, ended, id)
            &&& now.status == TransferStatus::Completed && now.completed_at == Some(at)
            &&& now.transferred_bytes == was.size && now.file_path == path
            &&& same_attempt(now, was) && now.phase == was.phase && now.failure == was.failure
        }),
        ({
            let was = registry.tasks[id];
            let ended = registry.completed(id, at, None);
            let now = ended.tasks[id];
            &&& only_records(registry, ended, id)
            &&& now.status == TransferStatus::Completed && now.completed_at == Some(at)
            &&& now.transferred_bytes == was.size && now.file_path == was.file_path
            &&& same_attempt(now, was) && now.phase == was.phase && now.failure == was.failure
        }),
        ({
            let was = registry.tasks[id];
            let ended = registry.failed(id, at);
            let now = ended.tasks[id];
            &&& only_records(registry, ended, id)
            &&& now.status == TransferStatus::Failed && now.completed_at == Some(at)
            &&& now.transferred_bytes == was.transferred_bytes && now.file_path == was.file_path
            &&& same_attempt(now, was) && now.phase == was.phase && now.failure == was.failure
        }),
        ({
            let was = registry.tasks[id];
            let ended = registry.failed_with(id, at, why);
            let now = ended.tasks[id];
            &&& only_records(registry, ended, id)
            &&& now.status == TransferStatus::Failed && now.completed_at == Some(at)
            &&& now.phase == Some(TransferPhase::Failed) && now.failure == Some(why)
            &&& now.transferred_bytes == was.transferred_bytes && now.file_path == was.file_path
            &&& same_attempt(now, was)
        }),
        ({
            let was = registry.tasks[id];
            let ended = registry.cancelled(id, at);
            let now = ended.tasks[id];
            &&& only_records(registry, ended, id)
            &&& now.status == TransferStatus::Cancelled && now.completed_at == Some(at)
            &&& now.transferred_bytes == was.transferred_bytes && now.file_path == was.file_path
            &&& same_attempt(now, was) && now.phase == was.phase && now.failure == was.failure
        }),
{
    assert(registry.completed(id, at, Some(path)).tasks.remove(id) =~= registry.tasks.remove(id));
    assert(registry.completed(id, at, None).tasks.remove(id) =~= registry.tasks.remove(id));
    assert(registry.failed(id, at).tasks.remove(id) =~= registry.tasks.remove(id));
    assert(registry.failed_with(id, at, why).tasks.remove(id) =~= registry.tasks.remove(id));
    assert(registry.cancelled(id, at).tasks.remove(id) =~= registry.tasks.remove(id));
}

/// Nothing is recorded of a task that is not in progress.
pub proof fn nothing_is_recorded_of_an_unknown_task(
    registry: RegistryView,
    id: Seq<char>,
    bytes: u64,
    status: TransferStatus,
    phase: TransferPhase,
    at: Seq<char>,
    path: Option<Seq<char>>,
    why: FailureView,
)
    requires
        !registry.tasks.contains_key(id),
    ensures
        registry.progressed(id, bytes, status) == registry,
        registry.in_status(id, status) == registry,
        registry.in_phase(id, phase) == registry,
        registry.completed(id, at, path) == registry,
        registry.failed(id, at) == registry,
        registry.failed_with(id, at, why) == registry,
        registry.cancelled(id, at) == registry,
{
}

/// A registered task and its switch stand under the task's own id, and taking
/// them out takes out both; tombstones, locks and all that is in progress under
/// other ids stay.
pub proof fn registering_touches_one_id(
    registry: RegistryView,
    task: TaskView,
    token: CancellationToken,
    id: Seq<char>,
)
    ensures
        others_kept(registry, registry.added(task, token), task.id),
        registry.added(task, token).tasks.contains_key(task.id),
        registry.added(task, token).tasks[task.id] == task,
        registry.added(task, token).tokens.contains_key(task.id),
        registry.added(task, token).tokens[task.id] == token,
        others_kept(registry, registry.without(id), id),
        !registry.without(id).tasks.contains_key(id),
        !registry.without(id).tokens.contains_key(id),
{
    assert(registry.added(task, token).tasks.remove(task.id) =~= registry.tasks.remove(task.id));
    assert(registry.added(task, token).tokens.remove(task.id) =~= registry.tokens.remove(task.id));
    assert(registry.without(id).tasks.remove(id) =~= registry.tasks.remove(id));
    assert(registry.without(id).tokens.remove(id) =~= registry.tokens.remove(id));
}

/// Forgetting drops the tombstones that are too old and nothing else; a tombstone
/// is asked for with success exactly while it is not too old; and one that is set
/// stands as it was set beside all that are not too old.
pub proof fn tombstones_are_forgotten_by_age_alone(
    registry: RegistryView,
    id: Seq<char>,
    tomb: TombstoneView,
    at: Instant,
)
    ensures
        only_forgets(registry, registry.pruned(at), at),
        registry.standing(id, at) is Some <==> registry.tombstones.contains_key(id) && age_secs(
            at,
            registry.tombstones[id].created_at,
        ) < TOMBSTONE_TTL_SECS,
        registry.standing(id, at) is Some ==> registry.standing(id, at) == Some(
            registry.tombstones[id],
        ),
        registry.buried(id, tomb, at).tombstones.contains_key(id),
        registry.buried(id, tomb, at).tombstones[id] == tomb,
        registry.buried(id, tomb, at).tombstones.remove(id) == registry.pruned(at).tombstones.remove(
            id,
        ),
        registry.buried(id, tomb, at).tasks == registry.tasks,
        registry.buried(id, tomb, at).tokens == registry.tokens,
        registry.buried(id, tomb, at).locks == registry.locks,
        registry.buried(id, tomb, at).dir_lock == registry.dir_lock,
{
    assert(registry.buried(id, tomb, at).tombstones.remove(id) =~= registry.pruned(at).tombstones.remove(
        id,
    ));
}

/// The first task of a listing is not older than any task in progress, the last
/// is not newer than any, and each task in progress stands at one place of the
/// listing, as it is.
pub proof fn a_listing_runs_from_the_newest_to_the_oldest(
    tasks: Map<Seq<char>, TaskView>,
    listed: Seq<TransferTask>,
    id: Seq<char>,
)
    requires
        lists_newest_first(tasks, listed),
        tasks.contains_key(id),
    ensures
        listed.len() == tasks.len(),
        !before(listed[0]@.created_at, tasks[id].created_at),
        !before(tasks[id].created_at, listed.last()@.created_at),
        exists|i: int|
            0 <= i < listed.len() && (#[trigger] listed[i])@ == tasks[id] && forall|j: int|
                0 <= j < listed.len() && j != i ==> (#[trigger] listed[j])@.id != id,
{
    let i = choose|i: int| 0 <= i < listed.len() && (#[trigger] listed[i])@.id == id;
    assert(listed[i]@ == tasks[id]);
    before_is_a_strict_order(tasks[id].created_at, tasks[id].created_at, tasks[id].created_at);
    assert forall|j: int| 0 <= j < listed.len() && j != i implies (#[trigger] listed[j])@.id != id by {
        if j < i {
            assert(listed[j]@.id != listed[i]@.id);
        } else {
            assert(listed[i]@.id != listed[j]@.id);
        }
    }
    if i > 0 {
        assert(!before(listed[0]@.created_at, listed[i]@.created_at));
    }
    if i < listed.len() - 1 {
        assert(!before(listed[i]@.created_at, listed[listed.len() - 1]@.created_at));
    }
}

/// All who ask for the lock of one transfer are handed the same one, whoever asks
/// for another in between, and asking touches nothing else.
pub proof fn one_transfer_has_one_lock(
    before: RegistryView,
    first: RegistryView,
    between: RegistryView,
    second: RegistryView,
    id: Seq<char>,
    other: Seq<char>,
    lock: Arc<Mutex<()>>,
    others: Arc<Mutex<()>>,
    again: Arc<Mutex<()>>,
)
    requires
        hands_out(before, first, id, lock),
        hands_out(first, between, other, others),
        hands_out(between, second, id, again),
    ensures
        again == lock,
        before.locks.contains_key(id) ==> lock == before.locks[id],
        second == between,
        first.tasks == before.tasks && first.tokens == before.tokens && first.tombstones
            == before.tombstones && first.dir_lock == before.dir_lock,
        first.locks.remove(id) == before.locks.remove(id),
{
    assert(first.locks.remove(id) =~= before.locks.remove(id));
}

} // verus!

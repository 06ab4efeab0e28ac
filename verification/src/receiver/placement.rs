//! Putting a received file in place: pick a free name, write down where the file
//! is going, then move it there without replacing anything.
use vstd::prelude::*;

use crate::error::{io_failure, AppError, AppErrorView, IoFailure, IoFailureView, IoKind};
use crate::paths::{join_path, joined};
use crate::platform::Platform;
use crate::receiver::finalize::{PlaceFinalError, PlacedFile};
use crate::receiver::intent::{FinalizeIntent, IntentView};
use crate::receiver::names::{
    a_candidate_of_a_safe_name_is_safe, candidate, NameSearch,
};
use crate::receiver::validation::{
    ensure_path_within_dir, opt_str, safe_name, sanitize_receive_basename, sanitized, stays_within,
    unit,
};
use crate::task::TransferTask;
use crate::text::{join2, join5};

verus! {

broadcast use vstd::string::group_string_axioms;

/// How often a name that was free is allowed to be taken by someone else before
/// the file is put in place.
pub const PLACE_ATTEMPTS: u32 = 10000;

/// A file that is to be put in place.
pub struct PlaceJob {
    pub platform: Platform,
    pub receive_dir: String,
    pub safe_filename: String,
    pub tmp_path: String,
    pub id: String,
    pub task: TransferTask,
}

/// What comes next in putting a file in place.
pub enum PlaceNext {
    /// See whether the candidate's path exists.
    ProbeName(PlaceProbe),
    /// Resolve the receive directory and the parent of the final path.
    Resolve(PlaceResolve),
    /// Write the intent.
    WriteIntent(PlaceJournal),
    /// Move the temporary file to the final path of the intent, without
    /// replacing anything.
    Commit(PlaceCommit),
    Done(Result<PlacedFile, PlaceFinalError>),
}

/// A candidate whose path may be taken.
pub struct PlaceProbe {
    pub job: PlaceJob,
    /// How many attempts came before.
    pub attempts: u32,
    pub search: NameSearch,
}

/// A free name whose path is to be resolved.
pub struct PlaceResolve {
    pub job: PlaceJob,
    pub attempts: u32,
    pub search: NameSearch,
    pub final_filename: String,
    pub final_path: String,
}

/// An intent that is to be written.
pub struct PlaceJournal {
    pub job: PlaceJob,
    pub attempts: u32,
    pub search: NameSearch,
    pub intent: FinalizeIntent,
}

/// An intent that has been written and is to be carried out.
pub struct PlaceCommit {
    pub job: PlaceJob,
    pub attempts: u32,
    pub search: NameSearch,
    pub intent: FinalizeIntent,
}

/// Why a file could not be moved to its final path.
#[derive(Debug)]
pub enum CommitFinalError {
    /// The path is taken.
    AlreadyExists,
    Failed(IoFailure),
    /// The file is there, but not known to survive a power failure.
    DurabilityPending(IoFailure),
}

/// What a failed placement says.
pub enum PlaceErrorView {
    Unplaced(AppErrorView),
    DurabilityPending { final_filename: Seq<char>, final_path: Seq<char>, message: Seq<char> },
}

/// What the result of a placement says.
pub open spec fn placed_view(r: Result<PlacedFile, PlaceFinalError>) -> Result<
    (Seq<char>, Seq<char>),
    PlaceErrorView,
> {
    match r {
        Ok(p) => Ok((p.final_filename@, p.final_path@)),
        Err(PlaceFinalError::Unplaced(e)) => Err(PlaceErrorView::Unplaced(e@)),
        Err(PlaceFinalError::DurabilityPending { placed, message }) => Err(
            PlaceErrorView::DurabilityPending {
                final_filename: placed.final_filename@,
                final_path: placed.final_path@,
                message: message@,
            },
        ),
    }
}

/// The placement ends here with `result`.
pub open spec fn placement_ends(
    next: PlaceNext,
    result: Result<(Seq<char>, Seq<char>), PlaceErrorView>,
) -> bool {
    next matches PlaceNext::Done(r) && placed_view(r) == result
}

/// The placement goes on with the `n`-th candidate for the name `asked`.
pub open spec fn probes(next: PlaceNext, job: PlaceJob, attempts: u32, asked: Seq<char>, n: nat) -> bool {
    next matches PlaceNext::ProbeName(s) && s.job == job && s.attempts == attempts && s.search.asked()
        == asked && s.search.tried() == n
}

fn unplaced(e: AppError) -> (next: PlaceNext)
    ensures
        placement_ends(next, Err(PlaceErrorView::Unplaced(e@))),
{
    PlaceNext::Done(Err(PlaceFinalError::Unplaced(e)))
}

/// The first step of a placement: the name that was asked for is probed.
pub open spec fn placement_opens(job: PlaceJob, next: PlaceNext) -> bool {
    probes(next, job, 0, job.safe_filename@, 0)
}

/// Starts putting a file in place, the lock on the receive directory being held:
/// the first candidate is the name that was asked for.
pub fn place_final_file_with_intent(job: PlaceJob) -> (next: PlaceNext)
    ensures
        placement_opens(job, next),
{
    let search = NameSearch::new(job.safe_filename.as_str());
    PlaceNext::ProbeName(PlaceProbe { job, attempts: 0, search })
}

/// The step after the candidate's path was looked at: a path that is taken leads to
/// the next candidate, one that is free is resolved.
pub open spec fn probing_decides(state: PlaceProbe, present: bool, next: PlaceNext) -> bool {
    let name = candidate(state.search.asked(), state.search.tried());
    if present {
        probes(next, state.job, state.attempts, state.search.asked(), state.search.tried() + 1)
    } else {
        match sanitized(state.job.platform, name, "final_filename"@) {
            Err(e) => placement_ends(
                next,
                Err(
                    PlaceErrorView::Unplaced(
                        AppErrorView::Validation("非法最终文件名: "@ + e.message()),
                    ),
                ),
            ),
            Ok(_) => next matches PlaceNext::Resolve(s) && s.job == state.job && s.attempts
                == state.attempts && s.search == state.search && s.final_filename@ == name && s.final_path@
                == joined(state.job.platform, state.job.receive_dir@, name),
        }
    }
}

/// The path that is probed: the candidate's, in the receive directory.
pub open spec fn probed_path(state: PlaceProbe) -> Seq<char> {
    joined(
        state.job.platform,
        state.job.receive_dir@,
        candidate(state.search.asked(), state.search.tried()),
    )
}

impl PlaceProbe {
    /// The path to look at.
    pub fn path(&self) -> (path: String)
        ensures
            path@ == probed_path(*self),
    {
        let name = self.search.candidate();
        join_path(self.job.platform, self.job.receive_dir.as_str(), name.as_str())
    }

    /// The path exists, or it does not.
    pub fn probed(self, exists: bool) -> (next: PlaceNext)
        requires
            exists ==> self.search.tried() < u64::MAX,
        ensures
            probing_decides(self, exists, next),
            !exists && safe_name(self.job.platform, self.search.asked()) ==> next is Resolve,
    {
        if exists {
            return PlaceNext::ProbeName(
                PlaceProbe {
                    job: self.job,
                    attempts: self.attempts,
                    search: self.search.taken(),
                },
            );
        }
        proof {
            if safe_name(self.job.platform, self.search.asked()) {
                a_candidate_of_a_safe_name_is_safe(
                    self.job.platform,
                    self.search.asked(),
                    self.search.tried(),
                );
            }
        }
        let final_filename = self.search.candidate();
        match sanitize_receive_basename(
            self.job.platform,
            final_filename.as_str(),
            "final_filename",
        ) {
            Err(e) => {
                let m = e.message();
                unplaced(AppError::validation(join2("非法最终文件名: ", m.as_str())))
            },
            Ok(_) => {
                let final_path = join_path(
                    self.job.platform,
                    self.job.receive_dir.as_str(),
                    final_filename.as_str(),
                );
                PlaceNext::Resolve(
                    PlaceResolve {
                        job: self.job,
                        attempts: self.attempts,
                        search: self.search,
                        final_filename,
                        final_path,
                    },
                )
            },
        }
    }
}

/// The intent to put the file of `job` at `final_path`.
pub open spec fn intent_for(
    job: PlaceJob,
    final_filename: Seq<char>,
    final_path: Seq<char>,
    now: Seq<char>,
) -> IntentView {
    IntentView {
        transfer_id: job.id@,
        filename: job.task@.filename,
        size: job.task@.size,
        sha256: job.task@.sha256,
        chunk_size: job.task@.chunk_size,
        final_filename,
        final_path,
        created_at: now,
    }
}

/// The step after the paths were resolved: a final path outside the receive
/// directory is refused, any other becomes an intent.
pub open spec fn placing_decides(
    state: PlaceResolve,
    canonical_dir: Option<Seq<char>>,
    canonical_parent: Option<Seq<char>>,
    now: Seq<char>,
    next: PlaceNext,
) -> bool {
    match stays_within(
        state.job.platform,
        state.job.receive_dir@,
        state.final_path@,
        canonical_dir,
        canonical_parent,
    ) {
        Err(e) => placement_ends(next, Err(PlaceErrorView::Unplaced(e))),
        Ok(_) => next matches PlaceNext::WriteIntent(s) && s.job == state.job && s.attempts
            == state.attempts && s.search == state.search && s.intent@ == intent_for(
            state.job,
            state.final_filename@,
            state.final_path@,
            now,
        ),
    }
}

impl PlaceResolve {
    /// The paths have been resolved.
    pub fn resolved(
        self,
        canonical_dir: Option<&str>,
        canonical_parent: Option<&str>,
        now: String,
    ) -> (next: PlaceNext)
        ensures
            placing_decides(self, opt_str(canonical_dir), opt_str(canonical_parent), now@, next),
    {
        match ensure_path_within_dir(
            self.job.platform,
            self.job.receive_dir.as_str(),
            self.final_path.as_str(),
            canonical_dir,
            canonical_parent,
        ) {
            Err(e) => unplaced(e),
            Ok(()) => {
                let intent = FinalizeIntent {
                    transfer_id: self.job.id.clone(),
                    filename: self.job.task.filename.clone(),
                    size: self.job.task.size,
                    sha256: self.job.task.sha256.clone(),
                    chunk_size: self.job.task.chunk_size,
                    final_filename: self.final_filename,
                    final_path: self.final_path,
                    created_at: now,
                };
                PlaceNext::WriteIntent(
                    PlaceJournal {
                        job: self.job,
                        attempts: self.attempts,
                        search: self.search,
                        intent,
                    },
                )
            },
        }
    }
}

/// The step after the intent was written, or not. Only an intent that was written
/// is carried out, and it is carried out as it was written.
pub open spec fn journaling_decides(
    state: PlaceJournal,
    outcome: Result<(), AppErrorView>,
    next: PlaceNext,
) -> bool {
    match outcome {
        Err(e) => placement_ends(next, Err(PlaceErrorView::Unplaced(e))),
        Ok(_) => next matches PlaceNext::Commit(s) && s.job == state.job && s.attempts == state.attempts
            && s.search == state.search && s.intent == state.intent,
    }
}

impl PlaceJournal {
    /// The intent has been written, or not.
    pub fn journaled(self, outcome: Result<(), AppError>) -> (next: PlaceNext)
        ensures
            journaling_decides(self, unit(outcome), next),
    {
        match outcome {
            Err(e) => unplaced(e),
            Ok(()) => PlaceNext::Commit(
                PlaceCommit {
                    job: self.job,
                    attempts: self.attempts,
                    search: self.search,
                    intent: self.intent,
                },
            ),
        }
    }
}

/// The step after the file was moved, or not. A path that was taken in the meantime
/// starts another attempt, with another intent; a file that is there is never
/// reported as not there.
pub open spec fn committing_decides(
    state: PlaceCommit,
    outcome: Result<(), CommitFinalError>,
    next: PlaceNext,
) -> bool {
    match outcome {
        Ok(_) => placement_ends(
            next,
            Ok((state.intent@.final_filename, state.intent@.final_path)),
        ),
        Err(CommitFinalError::AlreadyExists) => if state.attempts + 1 < PLACE_ATTEMPTS {
            probes(next, state.job, (state.attempts + 1) as u32, state.search.asked(), 0)
        } else {
            placement_ends(
                next,
                Err(
                    PlaceErrorView::Unplaced(
                        AppErrorView::Generic("无法分配不冲突的最终文件名（重试耗尽）"@),
                    ),
                ),
            )
        },
        Err(CommitFinalError::DurabilityPending(e)) => placement_ends(
            next,
            Err(
                PlaceErrorView::DurabilityPending {
                    final_filename: state.intent@.final_filename,
                    final_path: state.intent@.final_path,
                    message: "最终文件已落地但 durability 同步失败: "@ + e@.message,
                },
            ),
        ),
        Err(CommitFinalError::Failed(e)) => placement_ends(
            next,
            Err(
                PlaceErrorView::Unplaced(
                    AppErrorView::Generic("提交最终文件失败: "@ + e@.message),
                ),
            ),
        ),
    }
}

impl PlaceCommit {
    /// The file has been moved, or not.
    pub fn committed(self, outcome: Result<(), CommitFinalError>) -> (next: PlaceNext)
        ensures
            committing_decides(self, outcome, next),
    {
        match outcome {
            Ok(()) => PlaceNext::Done(
                Ok(
                    PlacedFile {
                        final_filename: self.intent.final_filename,
                        final_path: self.intent.final_path,
                    },
                ),
            ),
            Err(CommitFinalError::AlreadyExists) => {
                if self.attempts < PLACE_ATTEMPTS - 1 {
                    PlaceNext::ProbeName(
                        PlaceProbe {
                            job: self.job,
                            attempts: self.attempts + 1,
                            search: self.search.restarted(),
                        },
                    )
                } else {
                    unplaced(
                        AppError::generic("无法分配不冲突的最终文件名（重试耗尽）".to_string()),
                    )
                }
            },
            Err(CommitFinalError::DurabilityPending(e)) => PlaceNext::Done(
                Err(
                    PlaceFinalError::DurabilityPending {
                        placed: PlacedFile {
                            final_filename: self.intent.final_filename,
                            final_path: self.intent.final_path,
                        },
                        message: join2(
                            "最终文件已落地但 durability 同步失败: ",
                            e.message.as_str(),
                        ),
                    },
                ),
            ),
            Err(CommitFinalError::Failed(e)) => unplaced(
                AppError::generic(join2("提交最终文件失败: ", e.message.as_str())),
            ),
        }
    }
}

// ---------------------------------------------------------------------------
// Moving without replacing
// ---------------------------------------------------------------------------
/// The actions of moving the temporary file to its final path, in order.
#[derive(Debug)]
pub enum CommitStep {
    /// Sync the temporary file.
    SyncTmp,
    /// Link the final path to the temporary file.
    HardLink,
    /// Remove the temporary file; the outcome does not matter.
    RemoveTmp,
    /// The link failed: rename the temporary file, without replacing.
    Rename(IoFailure),
    /// Sync the final file.
    SyncFinal,
    /// Sync the directory of the final file.
    SyncParent,
}

/// What a [`CommitStep`] says.
pub enum CommitStepView {
    SyncTmp,
    HardLink,
    RemoveTmp,
    Rename(IoFailureView),
    SyncFinal,
    SyncParent,
}

impl View for CommitStep {
    type V = CommitStepView;

    open spec fn view(&self) -> CommitStepView {
        match self {
            CommitStep::SyncTmp => CommitStepView::SyncTmp,
            CommitStep::HardLink => CommitStepView::HardLink,
            CommitStep::RemoveTmp => CommitStepView::RemoveTmp,
            CommitStep::Rename(e) => CommitStepView::Rename(e@),
            CommitStep::SyncFinal => CommitStepView::SyncFinal,
            CommitStep::SyncParent => CommitStepView::SyncParent,
        }
    }
}

/// What comes next in moving the file.
#[derive(Debug)]
pub enum CommitNext {
    Step(CommitStep),
    Done(Result<(), CommitFinalError>),
}

/// What a failed move says.
pub enum CommitErrorView {
    AlreadyExists,
    Failed(IoFailureView),
    DurabilityPending(IoFailureView),
}

/// What a [`CommitNext`] says.
pub enum CommitNextView {
    Step(CommitStepView),
    Done(Result<(), CommitErrorView>),
}

impl View for CommitNext {
    type V = CommitNextView;

    open spec fn view(&self) -> CommitNextView {
        match self {
            CommitNext::Step(s) => CommitNextView::Step(s@),
            CommitNext::Done(Ok(_)) => CommitNextView::Done(Ok(())),
            CommitNext::Done(Err(e)) => CommitNextView::Done(
                Err(
                    match e {
                        CommitFinalError::AlreadyExists => CommitErrorView::AlreadyExists,
                        CommitFinalError::Failed(f) => CommitErrorView::Failed(f@),
                        CommitFinalError::DurabilityPending(f) => CommitErrorView::DurabilityPending(
                            f@,
                        ),
                    },
                ),
            ),
        }
    }
}

/// What an action says that reports the system's failures.
pub open spec fn io_view(r: Result<(), IoFailure>) -> Result<(), IoFailureView> {
    match r {
        Ok(()) => Ok(()),
        Err(f) => Err(f@),
    }
}

/// The file is there, but syncing it failed.
pub open spec fn pending(e: IoFailureView) -> CommitNextView {
    CommitNextView::Done(
        Err(
            CommitErrorView::DurabilityPending(
                io_failure(IoKind::Other, "fsync final/receive_dir 失败: "@ + e.message),
            ),
        ),
    )
}

/// The whole table of steps: what follows `step` when its action had `outcome`.
pub open spec fn commit_follows(
    step: CommitStepView,
    has_parent: bool,
    outcome: Result<(), IoFailureView>,
) -> CommitNextView {
    match step {
        CommitStepView::SyncTmp => match outcome {
            Ok(_) => CommitNextView::Step(CommitStepView::HardLink),
            Err(e) => CommitNextView::Done(
                Err(
                    CommitErrorView::Failed(
                        io_failure(IoKind::Other, "sync tmp 失败: "@ + e.message),
                    ),
                ),
            ),
        },
        CommitStepView::HardLink => match outcome {
            Ok(_) => CommitNextView::Step(CommitStepView::RemoveTmp),
            Err(e) => if e.kind == IoKind::AlreadyExists {
                CommitNextView::Done(Err(CommitErrorView::AlreadyExists))
            } else {
                CommitNextView::Step(CommitStepView::Rename(e))
            },
        },
        CommitStepView::RemoveTmp => CommitNextView::Step(CommitStepView::SyncFinal),
        CommitStepView::Rename(link) => match outcome {
            Ok(_) => CommitNextView::Step(CommitStepView::SyncFinal),
            Err(e) => CommitNextView::Done(
                Err(
                    if e.kind == IoKind::AlreadyExists {
                        CommitErrorView::AlreadyExists
                    } else {
                        CommitErrorView::Failed(
                            io_failure(
                                e.kind,
                                "hard_link 失败 ("@ + link.message + ") 且 no-replace rename 失败 ("@
                                    + e.message + ")"@,
                            ),
                        )
                    },
                ),
            ),
        },
        CommitStepView::SyncFinal => match outcome {
            Ok(_) => if has_parent {
                CommitNextView::Step(CommitStepView::SyncParent)
            } else {
                CommitNextView::Done(Ok(()))
            },
            Err(e) => pending(e),
        },
        CommitStepView::SyncParent => match outcome {
            Ok(_) => CommitNextView::Done(Ok(())),
            Err(e) => pending(e),
        },
    }
}

fn not_durable(e: &IoFailure) -> (next: CommitNext)
    ensures
        next@ == pending(e@),
{
    CommitNext::Done(
        Err(
            CommitFinalError::DurabilityPending(
                IoFailure::new(
                    IoKind::Other,
                    join2("fsync final/receive_dir 失败: ", e.message.as_str()),
                ),
            ),
        ),
    )
}

fn is_taken(e: &IoFailure) -> (yes: bool)
    ensures
        yes <==> e@.kind == IoKind::AlreadyExists,
{
    match e.kind {
        IoKind::AlreadyExists => true,
        _ => false,
    }
}

/// Starts moving the temporary file to its final path.
pub fn commit_tmp_to_final_no_replace() -> (next: CommitNext)
    ensures
        next@ == CommitNextView::Step(CommitStepView::SyncTmp),
{
    CommitNext::Step(CommitStep::SyncTmp)
}

impl CommitStep {
    /// The action of this step had `outcome`; `has_parent` says whether the final
    /// path has a directory to sync.
    pub fn done(self, has_parent: bool, outcome: Result<(), IoFailure>) -> (next: CommitNext)
        ensures
            next@ == commit_follows(self@, has_parent, io_view(outcome)),
    {
        match self {
            CommitStep::SyncTmp => match outcome {
                Ok(()) => CommitNext::Step(CommitStep::HardLink),
                Err(e) => CommitNext::Done(
                    Err(
                        CommitFinalError::Failed(
                            IoFailure::new(
                                IoKind::Other,
                                join2("sync tmp 失败: ", e.message.as_str()),
                            ),
                        ),
                    ),
                ),
            },
            CommitStep::HardLink => match outcome {
                Ok(()) => CommitNext::Step(CommitStep::RemoveTmp),
                Err(e) => if is_taken(&e) {
                    CommitNext::Done(Err(CommitFinalError::AlreadyExists))
                } else {
                    CommitNext::Step(CommitStep::Rename(e))
                },
            },
            CommitStep::RemoveTmp => CommitNext::Step(CommitStep::SyncFinal),
            CommitStep::Rename(link) => match outcome {
                Ok(()) => CommitNext::Step(CommitStep::SyncFinal),
                Err(e) => if is_taken(&e) {
                    CommitNext::Done(Err(CommitFinalError::AlreadyExists))
                } else {
                    let message = join5(
                        "hard_link 失败 (",
                        link.message.as_str(),
                        ") 且 no-replace rename 失败 (",
                        e.message.as_str(),
                        ")",
                    );
                    CommitNext::Done(Err(CommitFinalError::Failed(IoFailure::new(e.kind, message))))
                },
            },
            CommitStep::SyncFinal => match outcome {
                Ok(()) => if has_parent {
                    CommitNext::Step(CommitStep::SyncParent)
                } else {
                    CommitNext::Done(Ok(()))
                },
                Err(e) => not_durable(&e),
            },
            CommitStep::SyncParent => match outcome {
                Ok(()) => CommitNext::Done(Ok(())),
                Err(e) => not_durable(&e),
            },
        }
    }
}

/// Whether the file has reached its final path, as far as `next` tells.
pub open spec fn in_place(next: CommitNextView) -> bool {
    match next {
        CommitNextView::Step(s) => s is RemoveTmp || s is SyncFinal || s is SyncParent,
        CommitNextView::Done(Ok(_)) => true,
        CommitNextView::Done(Err(e)) => e is DurabilityPending,
    }
}

/// What is said of the file's whereabouts is true: it becomes "in place" exactly
/// by a link or a rename that succeeded, and then stays so. In particular a move
/// that is reported as failed, or as refused because the path is taken, has put
/// nothing in place; and one whose syncing failed is not reported as failed.
pub proof fn whereabouts_are_reported_truly(
    step: CommitStepView,
    has_parent: bool,
    outcome: Result<(), IoFailureView>,
)
    ensures
        in_place(commit_follows(step, has_parent, outcome)) <==> in_place(CommitNextView::Step(step)) || ((
        step is HardLink || step is Rename) && outcome is Ok),
{
}

/// `next` probes the `n`-th candidate for the name that `job` asks for.
pub open spec fn probing(next: PlaceNext, job: PlaceJob, attempts: int, n: nat) -> bool {
    next matches PlaceNext::ProbeName(s) && s.job == job && s.attempts == attempts && s.search.asked()
        == job.safe_filename@ && s.search.tried() == n
}

/// A placement tries the name that was asked for first, then its numbered
/// variants, each at its own path in the receive directory, and goes on with the
/// first that is free, under that very name and path.
pub proof fn the_first_free_name_is_taken(
    job: PlaceJob,
    opened: PlaceNext,
    state: PlaceProbe,
    present: bool,
    next: PlaceNext,
)
    requires
        placement_opens(job, opened),
        state.search.asked() == state.job.safe_filename@,
        probing_decides(state, present, next),
    ensures
        probing(opened, job, 0, 0),
        opened matches PlaceNext::ProbeName(s) ==> probed_path(s) == joined(
            job.platform,
            job.receive_dir@,
            job.safe_filename@,
        ),
        state.search.tried() > 0 ==> probed_path(state) == joined(
            state.job.platform,
            state.job.receive_dir@,
            crate::receiver::names::stem(state.job.safe_filename@) + " ("@ + crate::text::decimal(
                state.search.tried(),
            ) + ")"@ + crate::receiver::names::suffix(state.job.safe_filename@),
        ),
        present ==> probing(next, state.job, state.attempts as int, state.search.tried() + 1),
        !present ==> next is Resolve || next is Done,
        next matches PlaceNext::Resolve(s) ==> !present && s.job == state.job && s.attempts
            == state.attempts && s.search == state.search && s.final_path@ == probed_path(state)
            && s.final_filename@ == candidate(state.job.safe_filename@, state.search.tried()),
        next matches PlaceNext::Done(r) ==> (r matches Err(PlaceFinalError::Unplaced(e))
            && e@ is Validation),
{
}

/// The intent of a placement says of the file what its task says, and where it is
/// about to be put; it is written before anything is moved, and only for a place
/// below the receive directory.
pub proof fn an_intent_says_what_is_about_to_happen(
    state: PlaceResolve,
    canonical_dir: Option<Seq<char>>,
    canonical_parent: Option<Seq<char>>,
    now: Seq<char>,
    next: PlaceNext,
    outcome: Result<(), AppErrorView>,
    journaled: PlaceNext,
)
    requires
        placing_decides(state, canonical_dir, canonical_parent, now, next),
        next matches PlaceNext::WriteIntent(j) ==> journaling_decides(j, outcome, journaled),
    ensures
        next matches PlaceNext::WriteIntent(j) ==> ({
            let said = j.intent@;
            &&& j.job == state.job && j.attempts == state.attempts && j.search == state.search
            &&& said.transfer_id == state.job.id@
            &&& said.filename == state.job.task@.filename
            &&& said.size == state.job.task@.size
            &&& said.sha256 == state.job.task@.sha256
            &&& said.chunk_size == state.job.task@.chunk_size
            &&& said.final_filename == state.final_filename@
            &&& said.final_path == state.final_path@
            &&& said.created_at == now
            &&& outcome is Ok ==> (journaled matches PlaceNext::Commit(c) && c.job == state.job
                && c.attempts == state.attempts && c.search == state.search && c.intent == j.intent)
            &&& outcome matches Err(e) ==> (journaled matches PlaceNext::Done(
                Err(PlaceFinalError::Unplaced(x)),
            ) && x@ == e)
        }),
        !(next is WriteIntent) ==> (next matches PlaceNext::Done(Err(PlaceFinalError::Unplaced(e)))
            && e@ is Validation),
        next is WriteIntent <==> stays_within(
            state.job.platform,
            state.job.receive_dir@,
            state.final_path@,
            canonical_dir,
            canonical_parent,
        ) is Ok,
{
}

/// A file that was moved is reported at the name and path of its intent, durable
/// or not; a name that was taken in between starts the search again, as long as
/// attempts are left; and any other failure leaves the file unplaced.
pub proof fn a_moved_file_is_where_its_intent_says(
    state: PlaceCommit,
    outcome: Result<(), CommitFinalError>,
    next: PlaceNext,
)
    requires
        committing_decides(state, outcome, next),
    ensures
        outcome is Ok ==> (next matches PlaceNext::Done(Ok(p)) && p.final_filename@
            == state.intent@.final_filename && p.final_path@ == state.intent@.final_path),
        outcome matches Err(CommitFinalError::DurabilityPending(e)) ==> (next matches PlaceNext::Done(
            Err(PlaceFinalError::DurabilityPending { placed, message }),
        ) && placed.final_filename@ == state.intent@.final_filename && placed.final_path@
            == state.intent@.final_path && message@ == "最终文件已落地但 durability 同步失败: "@
            + e@.message),
        outcome matches Err(CommitFinalError::Failed(e)) ==> (next matches PlaceNext::Done(
            Err(PlaceFinalError::Unplaced(x)),
        ) && x@ == AppErrorView::Generic("提交最终文件失败: "@ + e@.message)),
        outcome matches Err(CommitFinalError::AlreadyExists) ==> if state.attempts < 9999 {
            next matches PlaceNext::ProbeName(s) && s.job == state.job && s.attempts == state.attempts
                + 1 && s.search.asked() == state.search.asked() && s.search.tried() == 0
        } else {
            next matches PlaceNext::Done(Err(PlaceFinalError::Unplaced(x))) && x@ is Generic
        },
{
}

/// A file is moved by a link, or by a rename where links do not work, after its
/// data was synced, and the move is done once the file and its directory are
/// synced too. A name that is taken is reported as such by either; a failure after
/// the move is one of durability alone, and a failure before it is none of it.
pub proof fn a_move_is_done_once_it_is_durable(
    step: CommitStepView,
    has_parent: bool,
    outcome: Result<(), IoFailureView>,
)
    ensures
        ({
            let next = commit_follows(step, has_parent, outcome);
            &&& step is SyncTmp && outcome is Ok ==> next == CommitNextView::Step(
                CommitStepView::HardLink,
            )
            &&& step is HardLink && outcome is Ok ==> next == CommitNextView::Step(
                CommitStepView::RemoveTmp,
            )
            &&& step is RemoveTmp ==> next == CommitNextView::Step(CommitStepView::SyncFinal)
            &&& step is Rename && outcome is Ok ==> next == CommitNextView::Step(
                CommitStepView::SyncFinal,
            )
            &&& step is SyncFinal && outcome is Ok && has_parent ==> next == CommitNextView::Step(
                CommitStepView::SyncParent,
            )
            &&& next == CommitNextView::Done(Ok(())) <==> outcome is Ok && (step is SyncParent || (
            step is SyncFinal && !has_parent))
            &&& outcome matches Err(e) ==> {
                &&& (step is HardLink || step is Rename) && e.kind == IoKind::AlreadyExists ==> next
                    == CommitNextView::Done(Err(CommitErrorView::AlreadyExists))
                &&& step is HardLink && e.kind != IoKind::AlreadyExists ==> next
                    == CommitNextView::Step(CommitStepView::Rename(e))
                &&& step is SyncTmp ==> (next matches CommitNextView::Done(
                    Err(CommitErrorView::Failed(f)),
                ) && f.kind == IoKind::Other && f.message == "sync tmp 失败: "@ + e.message)
                &&& step is SyncFinal || step is SyncParent ==> (next matches CommitNextView::Done(
                    Err(CommitErrorView::DurabilityPending(f)),
                ) && f.message == "fsync final/receive_dir 失败: "@ + e.message)
                &&& step matches CommitStepView::Rename(link) ==> (e.kind != IoKind::AlreadyExists ==> (
                next matches CommitNextView::Done(Err(CommitErrorView::Failed(f))) && f.kind == e.kind
                    && f.message == "hard_link 失败 ("@ + link.message
                    + ") 且 no-replace rename 失败 ("@ + e.message + ")"@))
            }
        }),
{
}

} // verus!

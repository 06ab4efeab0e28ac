//! The intent journal: before a file takes its final name, where it is going is
//! written down next to it, so that a crash in between can be recovered from.
use vstd::prelude::*;

use crate::error::{AppError, AppErrorView, IoFailure, IoKind};
use crate::paths::{
    join_path, joined, joined_name_is_below, one_name, parts, takes_names, Part,
};
use crate::platform::{
    ensure_plain_directory, is_unix, says_directory, says_reparse, unix, ErrorNumbers, Platform,
};
use crate::receiver::validation::{
    ensure_path_within_dir, named, opt_str, safe_name, sanitize_receive_basename, sanitized,
    stays_within, unit,
};
use crate::task::opt_view;
use crate::text::{contains_char, contains_text, join2, occurs_in, trimmed};

verus! {

broadcast use vstd::string::group_string_axioms;

/// The directory below the receive directory that holds the intents.
pub const FINALIZE_INTENT_DIR: &'static str = ".cc-partner-transfer-intents";

/// Where a received file is going.
#[derive(Debug)]
pub struct FinalizeIntent {
    pub transfer_id: String,
    pub filename: String,
    pub size: u64,
    pub sha256: String,
    pub chunk_size: u64,
    pub final_filename: String,
    pub final_path: String,
    pub created_at: String,
}

/// What a [`FinalizeIntent`] says.
pub struct IntentView {
    pub transfer_id: Seq<char>,
    pub filename: Seq<char>,
    pub size: u64,
    pub sha256: Seq<char>,
    pub chunk_size: u64,
    pub final_filename: Seq<char>,
    pub final_path: Seq<char>,
    pub created_at: Seq<char>,
}

impl View for FinalizeIntent {
    type V = IntentView;

    open spec fn view(&self) -> IntentView {
        IntentView {
            transfer_id: self.transfer_id@,
            filename: self.filename@,
            size: self.size,
            sha256: self.sha256@,
            chunk_size: self.chunk_size,
            final_filename: self.final_filename@,
            final_path: self.final_path@,
            created_at: self.created_at@,
        }
    }
}

// ---------------------------------------------------------------------------
// Where an intent is kept
// ---------------------------------------------------------------------------
/// What stands at the path of the intent directory, without following links.
#[derive(Clone, Copy, Debug, PartialEq, Eq, Structural)]
pub enum DirEntry {
    /// Nothing, or nothing that could be looked at.
    Unknown,
    Symlink,
    Directory,
    /// Neither a link nor a directory.
    Other,
}

/// What the file system says of the intent directory.
pub struct IntentDirFacts {
    pub entry: DirEntry,
    /// Whether the path leads to a directory.
    pub is_dir: bool,
    /// The receive directory as resolved.
    pub canonical_dir: Option<String>,
    /// The intent directory as resolved.
    pub canonical_intent_dir: Option<String>,
}

/// The path of the intent directory.
pub open spec fn intent_dir(platform: Platform, receive_dir: Seq<char>) -> Seq<char> {
    joined(platform, receive_dir, FINALIZE_INTENT_DIR@)
}

/// The name of the intent of transfer `id`.
pub open spec fn intent_name(id: Seq<char>) -> Seq<char> {
    id + ".json"@
}

/// The path of the intent of `transfer_id`, or why there is none.
pub open spec fn intent_path(
    platform: Platform,
    receive_dir: Seq<char>,
    transfer_id: Seq<char>,
    facts: IntentDirFacts,
) -> Result<Seq<char>, AppErrorView> {
    match sanitized(platform, transfer_id, "transfer_id"@) {
        Err(e) => Err(e),
        Ok(id) => {
            let dir = intent_dir(platform, receive_dir);
            let path = joined(platform, dir, intent_name(id));
            if facts.entry == DirEntry::Symlink {
                Err(AppErrorView::Validation("intent 目录是符号链接，拒绝写入: "@ + dir))
            } else if facts.entry == DirEntry::Other {
                Err(AppErrorView::Validation("intent 路径不是目录: "@ + dir))
            } else if facts.is_dir {
                match stays_within(
                    platform,
                    receive_dir,
                    path,
                    opt_view(facts.canonical_dir),
                    opt_view(facts.canonical_intent_dir),
                ) {
                    Err(e) => Err(e),
                    Ok(_) => Ok(path),
                }
            } else {
                Ok(path)
            }
        },
    }
}

/// The path of the intent of `transfer_id`. A link in place of the intent
/// directory, or anything else that is no directory, is refused.
pub fn finalize_intent_path(
    platform: Platform,
    receive_dir: &str,
    transfer_id: &str,
    facts: &IntentDirFacts,
) -> (path: Result<String, AppError>)
    ensures
        named(path) == intent_path(platform, receive_dir@, transfer_id@, *facts),
{
    let safe_id = match sanitize_receive_basename(platform, transfer_id, "transfer_id") {
        Ok(id) => id,
        Err(e) => {
            return Err(e);
        },
    };
    let dir = join_path(platform, receive_dir, FINALIZE_INTENT_DIR);
    match facts.entry {
        DirEntry::Symlink => {
            return Err(
                AppError::validation(join2("intent 目录是符号链接，拒绝写入: ", dir.as_str())),
            );
        },
        DirEntry::Other => {
            return Err(AppError::validation(join2("intent 路径不是目录: ", dir.as_str())));
        },
        DirEntry::Unknown => {},
        DirEntry::Directory => {},
    }
    let name = join2(safe_id.as_str(), ".json");
    let path = join_path(platform, dir.as_str(), name.as_str());
    if facts.is_dir {
        let canonical_dir = match &facts.canonical_dir {
            Some(p) => Some(p.as_str()),
            None => None,
        };
        let canonical_parent = match &facts.canonical_intent_dir {
            Some(p) => Some(p.as_str()),
            None => None,
        };
        match ensure_path_within_dir(
            platform,
            receive_dir,
            path.as_str(),
            canonical_dir,
            canonical_parent,
        ) {
            Ok(()) => {},
            Err(e) => {
                return Err(e);
            },
        }
    }
    Ok(path)
}

proof fn lemma_names_of_the_journal(platform: Platform, id: Seq<char>)
    requires
        safe_name(platform, id),
    ensures
        one_name(platform, FINALIZE_INTENT_DIR@),
        one_name(platform, intent_name(id)),
{
    reveal_strlit(".cc-partner-transfer-intents");
    reveal_strlit(".json");
    reveal_strlit(".");
    reveal_strlit("..");
    let n = intent_name(id);
    assert(n.last() == 'n');
    assert forall|c: char| c == '/' || c == '\\' implies !(#[trigger] n.contains(c)) by {
        if n.contains(c) {
            let i = choose|i: int| 0 <= i < n.len() && n[i] == c;
            if i < id.len() {
                assert(id[i] == c);
                assert(id.contains(c));
            } else {
                assert(n[i] == ".json"@[i - id.len()]);
            }
        }
    }
    assert(n[0] == id[0]);
    if id.len() > 1 {
        assert(n[1] == id[1]);
    } else {
        assert(n[1] == ".json"@[0]);
    }
}

/// An intent is kept in the intent directory, which is a child of the receive
/// directory: no transfer id leads elsewhere.
pub proof fn an_intent_stays_in_the_journal(
    platform: Platform,
    receive_dir: Seq<char>,
    transfer_id: Seq<char>,
    facts: IntentDirFacts,
)
    requires
        intent_path(platform, receive_dir, transfer_id, facts) is Ok,
        takes_names(platform, receive_dir),
        takes_names(platform, intent_dir(platform, receive_dir)),
    ensures
        exists|name: Seq<char>| #[trigger]
            parts(platform, intent_path(platform, receive_dir, transfer_id, facts)->Ok_0) == parts(
                platform,
                receive_dir,
            ).push(Part::Name(FINALIZE_INTENT_DIR@)).push(Part::Name(name)),
{
    let id = sanitized(platform, transfer_id, "transfer_id"@)->Ok_0;
    let n = intent_name(id);
    lemma_names_of_the_journal(platform, id);
    joined_name_is_below(platform, receive_dir, FINALIZE_INTENT_DIR@);
    joined_name_is_below(platform, intent_dir(platform, receive_dir), n);
    assert(parts(platform, intent_path(platform, receive_dir, transfer_id, facts)->Ok_0) == parts(
        platform,
        receive_dir,
    ).push(Part::Name(FINALIZE_INTENT_DIR@)).push(Part::Name(n)));
}

// ---------------------------------------------------------------------------
// The intent directory by its path
// ---------------------------------------------------------------------------
/// What comes next in making sure of the intent directory by its path.
pub enum IntentDirNext {
    /// Look at the path, without following links.
    Look(IntentDirLook),
    /// Make the directory.
    Make(IntentDirMake),
    Done(Result<String, AppError>),
}

/// A path that is to be looked at, for the first time or once it was made.
pub struct IntentDirLook {
    pub dir: String,
    pub made: bool,
}

/// A directory that is to be made.
pub struct IntentDirMake {
    pub dir: String,
}

/// The check of the intent directory ends here.
pub open spec fn intent_dir_ends(next: IntentDirNext, result: Result<Seq<char>, AppErrorView>) -> bool {
    next matches IntentDirNext::Done(r) && named(r) == result
}

/// The first step of making sure of the intent directory below `receive_dir`.
pub open spec fn intent_dir_sought(
    platform: Platform,
    receive_dir: Seq<char>,
    canonical_dir: Option<Seq<char>>,
    canonical_parent: Option<Seq<char>>,
    next: IntentDirNext,
) -> bool {
    let dir = intent_dir(platform, receive_dir);
    match stays_within(platform, receive_dir, dir, canonical_dir, canonical_parent) {
        Err(e) => intent_dir_ends(next, Err(e)),
        Ok(_) => next matches IntentDirNext::Look(s) && s.dir@ == dir && !s.made,
    }
}

/// Starts to make sure of the intent directory below `receive_dir`.
pub fn ensure_regular_intent_dir(
    platform: Platform,
    receive_dir: &str,
    canonical_dir: Option<&str>,
    canonical_parent: Option<&str>,
) -> (next: IntentDirNext)
    ensures
        intent_dir_sought(
            platform,
            receive_dir@,
            opt_str(canonical_dir),
            opt_str(canonical_parent),
            next,
        ),
{
    let dir = join_path(platform, receive_dir, FINALIZE_INTENT_DIR);
    match ensure_path_within_dir(
        platform,
        receive_dir,
        dir.as_str(),
        canonical_dir,
        canonical_parent,
    ) {
        Err(e) => IntentDirNext::Done(Err(e)),
        Ok(()) => IntentDirNext::Look(IntentDirLook { dir, made: false }),
    }
}

/// The step after the path of the intent directory was looked at. Only a directory
/// itself will do; one that is not there yet is made.
pub open spec fn intent_dir_looked_at(
    state: IntentDirLook,
    entry: Result<DirEntry, IoFailure>,
    next: IntentDirNext,
) -> bool {
    match entry {
        Ok(DirEntry::Directory) => intent_dir_ends(next, Ok(state.dir@)),
        Ok(found) => intent_dir_ends(
            next,
            Err(
                AppErrorView::Validation(
                    (if state.made {
                        "intent 目录创建后不是普通目录: "@
                    } else if found == DirEntry::Symlink {
                        "intent 目录是符号链接，拒绝写入: "@
                    } else {
                        "intent 路径不是目录: "@
                    }) + state.dir@,
                ),
            ),
        ),
        Err(f) => if !state.made && f@.kind == IoKind::NotFound {
            next matches IntentDirNext::Make(s) && s.dir@ == state.dir@
        } else {
            intent_dir_ends(next, Err(AppErrorView::Io(f@)))
        },
    }
}

impl IntentDirLook {
    /// The path has been looked at.
    pub fn looked(self, entry: Result<DirEntry, IoFailure>) -> (next: IntentDirNext)
        ensures
            intent_dir_looked_at(self, entry, next),
    {
        match entry {
            Ok(DirEntry::Directory) => IntentDirNext::Done(Ok(self.dir)),
            Ok(found) => {
                let linked = match found {
                    DirEntry::Symlink => true,
                    _ => false,
                };
                let prefix = if self.made {
                    "intent 目录创建后不是普通目录: "
                } else if linked {
                    "intent 目录是符号链接，拒绝写入: "
                } else {
                    "intent 路径不是目录: "
                };
                IntentDirNext::Done(Err(AppError::validation(join2(prefix, self.dir.as_str()))))
            },
            Err(f) => {
                let missing = match f.kind {
                    IoKind::NotFound => true,
                    _ => false,
                };
                if !self.made && missing {
                    IntentDirNext::Make(IntentDirMake { dir: self.dir })
                } else {
                    IntentDirNext::Done(Err(AppError::Io(f)))
                }
            },
        }
    }
}

/// The step after the intent directory was made, or not; one that someone else made
/// first is looked at like any other.
pub open spec fn intent_dir_made(
    state: IntentDirMake,
    outcome: Result<(), IoFailure>,
    next: IntentDirNext,
) -> bool {
    match outcome {
        Ok(_) => next matches IntentDirNext::Look(s) && s.dir@ == state.dir@ && s.made,
        Err(f) => if f@.kind == IoKind::AlreadyExists {
            next matches IntentDirNext::Look(s) && s.dir@ == state.dir@ && !s.made
        } else {
            intent_dir_ends(next, Err(AppErrorView::Io(f@)))
        },
    }
}

impl IntentDirMake {
    /// The directory has been made, or not.
    pub fn made(self, outcome: Result<(), IoFailure>) -> (next: IntentDirNext)
        ensures
            intent_dir_made(self, outcome, next),
    {
        match outcome {
            Ok(()) => IntentDirNext::Look(IntentDirLook { dir: self.dir, made: true }),
            Err(f) => match f.kind {
                IoKind::AlreadyExists => IntentDirNext::Look(
                    IntentDirLook { dir: self.dir, made: false },
                ),
                _ => IntentDirNext::Done(Err(AppError::Io(f))),
            },
        }
    }
}

// ---------------------------------------------------------------------------
// Writing an intent
// ---------------------------------------------------------------------------
/// The actions of writing an intent, in order. All but the first are made
/// relative to a directory that is already open, never by path.
#[derive(Debug)]
pub enum WriteStep {
    /// Open the receive directory.
    OpenReceiveDir,
    /// Make the intent directory (Unix; elsewhere opening makes it).
    MakeIntentDir,
    /// Open the intent directory itself, not what it may link to.
    OpenIntentDir,
    /// Unlink a temporary file left over; the outcome does not matter.
    ClearTmp,
    /// Create the temporary file anew.
    CreateTmp,
    WriteTmp,
    FlushTmp,
    SyncTmp,
    /// Unlink an intent left over; the outcome does not matter.
    ClearOld,
    /// Rename the temporary file to the intent.
    Rename,
    /// Sync the intent directory.
    SyncDir,
    /// Unlink the temporary file, then report the error; the outcome does not
    /// matter.
    Undo(AppError),
}

/// What a [`WriteStep`] says.
pub enum WriteStepView {
    OpenReceiveDir,
    MakeIntentDir,
    OpenIntentDir,
    ClearTmp,
    CreateTmp,
    WriteTmp,
    FlushTmp,
    SyncTmp,
    ClearOld,
    Rename,
    SyncDir,
    Undo(AppErrorView),
}

impl View for WriteStep {
    type V = WriteStepView;

    open spec fn view(&self) -> WriteStepView {
        match self {
            WriteStep::OpenReceiveDir => WriteStepView::OpenReceiveDir,
            WriteStep::MakeIntentDir => WriteStepView::MakeIntentDir,
            WriteStep::OpenIntentDir => WriteStepView::OpenIntentDir,
            WriteStep::ClearTmp => WriteStepView::ClearTmp,
            WriteStep::CreateTmp => WriteStepView::CreateTmp,
            WriteStep::WriteTmp => WriteStepView::WriteTmp,
            WriteStep::FlushTmp => WriteStepView::FlushTmp,
            WriteStep::SyncTmp => WriteStepView::SyncTmp,
            WriteStep::ClearOld => WriteStepView::ClearOld,
            WriteStep::Rename => WriteStepView::Rename,
            WriteStep::SyncDir => WriteStepView::SyncDir,
            WriteStep::Undo(e) => WriteStepView::Undo(e@),
        }
    }
}

/// What comes next in writing an intent.
#[derive(Debug)]
pub enum WriteNext {
    Step(WriteStep),
    Done(Result<(), AppError>),
}

/// What a [`WriteNext`] says.
pub enum WriteNextView {
    Step(WriteStepView),
    Done(Result<(), AppErrorView>),
}

impl View for WriteNext {
    type V = WriteNextView;

    open spec fn view(&self) -> WriteNextView {
        match self {
            WriteNext::Step(s) => WriteNextView::Step(s@),
            WriteNext::Done(r) => WriteNextView::Done(unit(*r)),
        }
    }
}

/// What an action that yields the attributes of what it opened says.
pub open spec fn outcome_view(o: Result<u32, AppError>) -> Result<u32, AppErrorView> {
    match o {
        Ok(a) => Ok(a),
        Err(e) => Err(e@),
    }
}

/// The raw error number of an error, if it has one.
pub open spec fn error_code(e: AppErrorView) -> Option<i32> {
    match e {
        AppErrorView::Io(f) => f.code,
        _ => None,
    }
}

/// Whether an error says that something does not exist.
pub open spec fn says_missing(e: AppErrorView) -> bool {
    match e {
        AppErrorView::Io(f) => f.kind == IoKind::NotFound,
        _ => false,
    }
}

fn code_of(e: &AppError) -> (code: Option<i32>)
    ensures
        code == error_code(e@),
{
    match e {
        AppError::Io(f) => f.code,
        _ => None,
    }
}

fn is_missing(e: &AppError) -> (yes: bool)
    ensures
        yes == says_missing(e@),
{
    match e {
        AppError::Io(f) => match f.kind {
            IoKind::NotFound => true,
            _ => false,
        },
        _ => false,
    }
}

/// The step from `step` with `outcome`, where a failure leaves a temporary file
/// to unlink.
pub open spec fn go_on_or_undo(
    outcome: Result<u32, AppErrorView>,
    next: WriteStepView,
) -> WriteNextView {
    match outcome {
        Ok(_) => WriteNextView::Step(next),
        Err(e) => WriteNextView::Step(WriteStepView::Undo(e)),
    }
}

/// The step after a directory was opened: on Windows it must be a directory
/// itself.
pub open spec fn go_on_if_plain(platform: Platform, attributes: u32, next: WriteStepView) -> WriteNextView {
    if unix(platform) || (says_directory(attributes) && !says_reparse(attributes)) {
        WriteNextView::Step(next)
    } else if !says_directory(attributes) {
        WriteNextView::Done(Err(AppErrorView::Validation("intent 路径不是目录（句柄绑定失败）"@)))
    } else {
        WriteNextView::Done(
            Err(AppErrorView::Validation("intent 目录是 reparse/junction，拒绝写入"@)),
        )
    }
}

/// The whole table of steps: what follows `step` when its action had `outcome`.
pub open spec fn write_follows(
    platform: Platform,
    numbers: ErrorNumbers,
    step: WriteStepView,
    outcome: Result<u32, AppErrorView>,
) -> WriteNextView {
    match step {
        WriteStepView::OpenReceiveDir => match outcome {
            Err(e) => WriteNextView::Done(Err(e)),
            Ok(attributes) => go_on_if_plain(
                platform,
                attributes,
                if unix(platform) {
                    WriteStepView::MakeIntentDir
                } else {
                    WriteStepView::OpenIntentDir
                },
            ),
        },
        WriteStepView::MakeIntentDir => match outcome {
            Ok(_) => WriteNextView::Step(WriteStepView::OpenIntentDir),
            Err(e) => if error_code(e) == Some(numbers.exists) {
                WriteNextView::Step(WriteStepView::OpenIntentDir)
            } else {
                WriteNextView::Done(Err(e))
            },
        },
        WriteStepView::OpenIntentDir => match outcome {
            Ok(attributes) => go_on_if_plain(platform, attributes, WriteStepView::ClearTmp),
            Err(e) => WriteNextView::Done(
                Err(
                    AppErrorView::Validation(
                        (if unix(platform) {
                            "intent 目录是符号链接或不可绑定的普通目录: "@
                        } else {
                            "无法绑定 intent 目录 HANDLE: "@
                        }) + e.message(),
                    ),
                ),
            ),
        },
        WriteStepView::ClearTmp => WriteNextView::Step(WriteStepView::CreateTmp),
        WriteStepView::CreateTmp => match outcome {
            Ok(_) => WriteNextView::Step(WriteStepView::WriteTmp),
            Err(e) => WriteNextView::Done(
                Err(
                    if unix(platform) {
                        e
                    } else {
                        AppErrorView::Io(
                            crate::error::io_failure(
                                IoKind::Other,
                                "创建 intent 临时文件失败: "@ + e.message(),
                            ),
                        )
                    },
                ),
            ),
        },
        WriteStepView::WriteTmp => go_on_or_undo(outcome, WriteStepView::FlushTmp),
        WriteStepView::FlushTmp => go_on_or_undo(outcome, WriteStepView::SyncTmp),
        WriteStepView::SyncTmp => go_on_or_undo(outcome, WriteStepView::ClearOld),
        WriteStepView::ClearOld => WriteNextView::Step(WriteStepView::Rename),
        WriteStepView::Rename => go_on_or_undo(outcome, WriteStepView::SyncDir),
        WriteStepView::SyncDir => WriteNextView::Done(
            match outcome {
                Ok(_) => Ok(()),
                Err(e) => Err(e),
            },
        ),
        WriteStepView::Undo(e) => WriteNextView::Done(Err(e)),
    }
}

fn after_directory(platform: Platform, attributes: u32, next: WriteStep) -> (r: WriteNext)
    ensures
        r@ == go_on_if_plain(platform, attributes, next@),
{
    if is_unix(platform) {
        return WriteNext::Step(next);
    }
    match ensure_plain_directory(
        attributes,
        "intent 路径不是目录（句柄绑定失败）",
        "intent 目录是 reparse/junction，拒绝写入",
    ) {
        Ok(()) => WriteNext::Step(next),
        Err(e) => WriteNext::Done(Err(e)),
    }
}

fn or_undo(outcome: Result<u32, AppError>, next: WriteStep) -> (r: WriteNext)
    ensures
        r@ == go_on_or_undo(outcome_view(outcome), next@),
{
    match outcome {
        Ok(_) => WriteNext::Step(next),
        Err(e) => WriteNext::Step(WriteStep::Undo(e)),
    }
}

impl WriteStep {
    /// The action of this step had `outcome`: what comes next. A step that opens
    /// something yields its attributes; for the others the number is ignored.
    pub fn done(self, platform: Platform, numbers: ErrorNumbers, outcome: Result<u32, AppError>) -> (next:
        WriteNext)
        ensures
            next@ == write_follows(platform, numbers, self@, outcome_view(outcome)),
    {
        match self {
            WriteStep::OpenReceiveDir => match outcome {
                Err(e) => WriteNext::Done(Err(e)),
                Ok(attributes) => {
                    let next = if is_unix(platform) {
                        WriteStep::MakeIntentDir
                    } else {
                        WriteStep::OpenIntentDir
                    };
                    after_directory(platform, attributes, next)
                },
            },
            WriteStep::MakeIntentDir => match outcome {
                Ok(_) => WriteNext::Step(WriteStep::OpenIntentDir),
                Err(e) => {
                    let known = match code_of(&e) {
                        Some(code) => code == numbers.exists,
                        None => false,
                    };
                    if known {
                        WriteNext::Step(WriteStep::OpenIntentDir)
                    } else {
                        WriteNext::Done(Err(e))
                    }
                },
            },
            WriteStep::OpenIntentDir => match outcome {
                Ok(attributes) => after_directory(platform, attributes, WriteStep::ClearTmp),
                Err(e) => {
                    let m = e.message();
                    let prefix = if is_unix(platform) {
                        "intent 目录是符号链接或不可绑定的普通目录: "
                    } else {
                        "无法绑定 intent 目录 HANDLE: "
                    };
                    WriteNext::Done(Err(AppError::validation(join2(prefix, m.as_str()))))
                },
            },
            WriteStep::ClearTmp => WriteNext::Step(WriteStep::CreateTmp),
            WriteStep::CreateTmp => match outcome {
                Ok(_) => WriteNext::Step(WriteStep::WriteTmp),
                Err(e) => {
                    if is_unix(platform) {
                        WriteNext::Done(Err(e))
                    } else {
                        let m = e.message();
                        WriteNext::Done(
                            Err(
                                AppError::Io(
                                    IoFailure::new(
                                        IoKind::Other,
                                        join2("创建 intent 临时文件失败: ", m.as_str()),
                                    ),
                                ),
                            ),
                        )
                    }
                },
            },
            WriteStep::WriteTmp => or_undo(outcome, WriteStep::FlushTmp),
            WriteStep::FlushTmp => or_undo(outcome, WriteStep::SyncTmp),
            WriteStep::SyncTmp => or_undo(outcome, WriteStep::ClearOld),
            WriteStep::ClearOld => WriteNext::Step(WriteStep::Rename),
            WriteStep::Rename => or_undo(outcome, WriteStep::SyncDir),
            WriteStep::SyncDir => match outcome {
                Ok(_) => WriteNext::Done(Ok(())),
                Err(e) => WriteNext::Done(Err(e)),
            },
            WriteStep::Undo(e) => WriteNext::Done(Err(e)),
        }
    }
}

/// The names that writing an intent uses.
#[derive(Debug)]
pub struct IntentNames {
    pub intent_name: String,
    pub tmp_name: String,
}

/// Prepares to write the intent of `transfer_id`: the names to use, or why it
/// cannot be written.
pub open spec fn write_plan(
    platform: Platform,
    receive_dir: Seq<char>,
    transfer_id: Seq<char>,
    facts: IntentDirFacts,
) -> Result<Seq<char>, AppErrorView> {
    match intent_path(platform, receive_dir, transfer_id, facts) {
        Err(e) => Err(e),
        Ok(_) => if platform == Platform::Other {
            Err(AppErrorView::Generic("当前平台无法以目录句柄相对路径写 finalize intent"@))
        } else if receive_dir.contains('\0') {
            Err(
                AppErrorView::Validation(
                    if unix(platform) {
                        "receive_dir 含内部 NUL"@
                    } else {
                        "路径含内部 NUL"@
                    },
                ),
            )
        } else {
            sanitized(platform, transfer_id, "transfer_id"@)
        },
    }
}

/// The names under which the intent of `transfer_id` is written, or why it cannot
/// be.
pub open spec fn plans_to_write(
    platform: Platform,
    receive_dir: Seq<char>,
    transfer_id: Seq<char>,
    facts: IntentDirFacts,
    plan: Result<IntentNames, AppError>,
) -> bool {
    match plan {
        Err(e) => write_plan(platform, receive_dir, transfer_id, facts) == Err::<
            Seq<char>,
            AppErrorView,
        >(e@),
        Ok(names) => write_plan(platform, receive_dir, transfer_id, facts) is Ok && names.intent_name@
            == intent_name(write_plan(platform, receive_dir, transfer_id, facts)->Ok_0)
            && names.tmp_name@ == names.intent_name@ + ".tmp"@,
    }
}

/// Starts writing the intent of `transfer_id`; the first step is to open the
/// receive directory.
pub fn write_finalize_intent(
    platform: Platform,
    receive_dir: &str,
    transfer_id: &str,
    facts: &IntentDirFacts,
) -> (plan: Result<IntentNames, AppError>)
    ensures
        plans_to_write(platform, receive_dir@, transfer_id@, *facts, plan),
{
    match finalize_intent_path(platform, receive_dir, transfer_id, facts) {
        Ok(_) => {},
        Err(e) => {
            return Err(e);
        },
    }
    match platform {
        Platform::Other => {
            return Err(
                AppError::generic("当前平台无法以目录句柄相对路径写 finalize intent".to_string()),
            );
        },
        _ => {},
    }
    if contains_char(receive_dir, '\0') {
        let reason = if is_unix(platform) {
            "receive_dir 含内部 NUL"
        } else {
            "路径含内部 NUL"
        };
        return Err(AppError::validation(reason.to_string()));
    }
    match sanitize_receive_basename(platform, transfer_id, "transfer_id") {
        Err(e) => Err(e),
        Ok(id) => {
            let intent_name = join2(id.as_str(), ".json");
            let tmp_name = join2(intent_name.as_str(), ".tmp");
            Ok(IntentNames { intent_name, tmp_name })
        },
    }
}

// ---------------------------------------------------------------------------
// What a run of the writing guarantees
// ---------------------------------------------------------------------------
/// Where the writing stands after the first `k` outcomes.
pub open spec fn written(
    platform: Platform,
    numbers: ErrorNumbers,
    outcomes: Seq<Result<u32, AppErrorView>>,
    k: nat,
) -> WriteNextView
    decreases k,
{
    if k == 0 {
        WriteNextView::Step(WriteStepView::OpenReceiveDir)
    } else {
        match written(platform, numbers, outcomes, (k - 1) as nat) {
            WriteNextView::Step(s) => write_follows(platform, numbers, s, outcomes[k - 1]),
            done => done,
        }
    }
}

/// The place of a step in the order of writing; the steps of the undoing stand
/// outside it.
pub open spec fn place(platform: Platform, step: WriteStepView) -> int {
    let skipped: int = if unix(platform) {
        0
    } else {
        1
    };
    match step {
        WriteStepView::OpenReceiveDir => 0,
        WriteStepView::MakeIntentDir => 1,
        WriteStepView::OpenIntentDir => 2 - skipped,
        WriteStepView::ClearTmp => 3 - skipped,
        WriteStepView::CreateTmp => 4 - skipped,
        WriteStepView::WriteTmp => 5 - skipped,
        WriteStepView::FlushTmp => 6 - skipped,
        WriteStepView::SyncTmp => 7 - skipped,
        WriteStepView::ClearOld => 8 - skipped,
        WriteStepView::Rename => 9 - skipped,
        WriteStepView::SyncDir => 10 - skipped,
        WriteStepView::Undo(_) => -1,
    }
}

/// The steps come in their order, and the temporary file is renamed only when
/// creating, writing, flushing and syncing it have all succeeded.
pub proof fn an_intent_is_renamed_only_when_it_is_on_disk(
    platform: Platform,
    numbers: ErrorNumbers,
    outcomes: Seq<Result<u32, AppErrorView>>,
    k: nat,
)
    ensures
        written(platform, numbers, outcomes, k) matches WriteNextView::Step(s) ==> {
            &&& !(s is Undo) ==> k == place(platform, s)
            &&& s is Undo ==> k <= 10
            &&& !(s is Undo) ==> forall|i: int|
                place(platform, WriteStepView::CreateTmp) <= i < k && i != place(
                    platform,
                    WriteStepView::ClearOld,
                ) ==> (#[trigger] outcomes[i]) is Ok
            &&& s is MakeIntentDir ==> unix(platform)
        },
    decreases k,
{
    if k > 0 {
        an_intent_is_renamed_only_when_it_is_on_disk(platform, numbers, outcomes, (k - 1) as nat);
    }
}

/// Writing succeeds exactly when every step did whose outcome counts; the
/// intent then stands under its name, contents and name both synced.
pub proof fn a_written_intent_is_durable(
    platform: Platform,
    numbers: ErrorNumbers,
    outcomes: Seq<Result<u32, AppErrorView>>,
    k: nat,
)
    requires
        written(platform, numbers, outcomes, k) == WriteNextView::Done(Ok(())),
    ensures
        k > place(platform, WriteStepView::SyncDir),
        forall|i: int|
            place(platform, WriteStepView::CreateTmp) <= i <= place(platform, WriteStepView::SyncDir)
                && i != place(platform, WriteStepView::ClearOld) ==> (#[trigger] outcomes[i]) is Ok,
    decreases k,
{
    if k > 0 {
        an_intent_is_renamed_only_when_it_is_on_disk(platform, numbers, outcomes, (k - 1) as nat);
        if written(platform, numbers, outcomes, (k - 1) as nat) is Done {
            a_written_intent_is_durable(platform, numbers, outcomes, (k - 1) as nat);
        }
    }
}

/// Writing always ends, after at most twelve actions.
pub proof fn writing_an_intent_ends(
    platform: Platform,
    numbers: ErrorNumbers,
    outcomes: Seq<Result<u32, AppErrorView>>,
)
    ensures
        written(platform, numbers, outcomes, 12) is Done,
{
    an_intent_is_renamed_only_when_it_is_on_disk(platform, numbers, outcomes, 11);
    an_intent_is_renamed_only_when_it_is_on_disk(platform, numbers, outcomes, 12);
}

// ---------------------------------------------------------------------------
// Clearing an intent
// ---------------------------------------------------------------------------
/// The actions of clearing an intent, in order.
#[derive(Clone, Copy, Debug, PartialEq, Eq, Structural)]
pub enum ClearStep {
    OpenReceiveDir,
    OpenIntentDir,
    /// Unlink the intent.
    Unlink,
}

/// What comes next in clearing an intent.
#[derive(Debug)]
pub enum ClearNext {
    Step(ClearStep),
    Done(Result<(), AppError>),
}

/// What a [`ClearNext`] says.
pub enum ClearNextView {
    Step(ClearStep),
    Done(Result<(), AppErrorView>),
}

impl View for ClearNext {
    type V = ClearNextView;

    open spec fn view(&self) -> ClearNextView {
        match self {
            ClearNext::Step(s) => ClearNextView::Step(*s),
            ClearNext::Done(r) => ClearNextView::Done(unit(*r)),
        }
    }
}

/// Whether the text of a Windows error says that something does not exist.
pub open spec fn text_says_missing(text: Seq<char>) -> bool {
    occurs_in(text, "NotFound"@) || occurs_in(text, "os error 2"@) || occurs_in(text, "os error 3"@)
}

fn is_text_missing(text: &str) -> (yes: bool)
    ensures
        yes == text_says_missing(text@),
{
    contains_text(text, "NotFound") || contains_text(text, "os error 2") || contains_text(
        text,
        "os error 3",
    )
}

/// Whether `e` means that there is no intent to clear.
pub open spec fn nothing_to_clear(
    platform: Platform,
    numbers: ErrorNumbers,
    step: ClearStep,
    e: AppErrorView,
) -> bool {
    match step {
        ClearStep::OpenReceiveDir => says_missing(e),
        ClearStep::OpenIntentDir => if unix(platform) {
            says_missing(e) || error_code(e) == Some(numbers.too_many_links) || error_code(e) == Some(
                numbers.not_permitted,
            )
        } else {
            text_says_missing(e.message())
        },
        ClearStep::Unlink => if unix(platform) {
            says_missing(e)
        } else {
            text_says_missing(e.message())
        },
    }
}

/// The whole table of steps: what follows `step` when its action had `outcome`.
/// What is not there, or is no plain directory, holds nothing to clear; but a
/// receive directory that is itself a redirection is an error.
pub open spec fn clear_follows(
    platform: Platform,
    numbers: ErrorNumbers,
    step: ClearStep,
    outcome: Result<u32, AppErrorView>,
) -> ClearNextView {
    match outcome {
        Err(e) => if nothing_to_clear(platform, numbers, step, e) {
            ClearNextView::Done(Ok(()))
        } else {
            ClearNextView::Done(Err(e))
        },
        Ok(attributes) => {
            let plain = unix(platform) || (says_directory(attributes) && !says_reparse(attributes));
            match step {
                ClearStep::OpenReceiveDir => if plain {
                    ClearNextView::Step(ClearStep::OpenIntentDir)
                } else if !says_directory(attributes) {
                    ClearNextView::Done(Err(AppErrorView::Validation("intent 路径不是目录"@)))
                } else {
                    ClearNextView::Done(
                        Err(AppErrorView::Validation("intent 目录是 reparse/junction，拒绝删除"@)),
                    )
                },
                ClearStep::OpenIntentDir => if plain {
                    ClearNextView::Step(ClearStep::Unlink)
                } else {
                    ClearNextView::Done(Ok(()))
                },
                ClearStep::Unlink => ClearNextView::Done(Ok(())),
            }
        },
    }
}

impl ClearStep {
    fn is_nothing_to_clear(&self, platform: Platform, numbers: ErrorNumbers, e: &AppError) -> (yes: bool)
        ensures
            yes == nothing_to_clear(platform, numbers, *self, e@),
    {
        match self {
            ClearStep::OpenReceiveDir => is_missing(e),
            ClearStep::OpenIntentDir => if is_unix(platform) {
                let linked = match code_of(e) {
                    Some(code) => code == numbers.too_many_links || code == numbers.not_permitted,
                    None => false,
                };
                is_missing(e) || linked
            } else {
                let m = e.message();
                is_text_missing(m.as_str())
            },
            ClearStep::Unlink => if is_unix(platform) {
                is_missing(e)
            } else {
                let m = e.message();
                is_text_missing(m.as_str())
            },
        }
    }

    /// The action of this step had `outcome`: what comes next.
    pub fn done(self, platform: Platform, numbers: ErrorNumbers, outcome: Result<u32, AppError>) -> (next:
        ClearNext)
        ensures
            next@ == clear_follows(platform, numbers, self, outcome_view(outcome)),
    {
        let attributes: u32 = match outcome {
            Ok(a) => a,
            Err(e) => {
                if self.is_nothing_to_clear(platform, numbers, &e) {
                    return ClearNext::Done(Ok(()));
                }
                return ClearNext::Done(Err(e));
            },
        };
        let checked = if is_unix(platform) {
            Ok(())
        } else {
            ensure_plain_directory(
                attributes,
                "intent 路径不是目录",
                "intent 目录是 reparse/junction，拒绝删除",
            )
        };
        match self {
            ClearStep::OpenReceiveDir => match checked {
                Ok(()) => ClearNext::Step(ClearStep::OpenIntentDir),
                Err(e) => ClearNext::Done(Err(e)),
            },
            ClearStep::OpenIntentDir => match checked {
                Ok(()) => ClearNext::Step(ClearStep::Unlink),
                Err(_) => ClearNext::Done(Ok(())),
            },
            ClearStep::Unlink => ClearNext::Done(Ok(())),
        }
    }
}

/// The name of the intent of `transfer_id` that is to be unlinked, or why it cannot
/// be cleared.
pub open spec fn clear_plan(
    platform: Platform,
    receive_dir: Seq<char>,
    transfer_id: Seq<char>,
    facts: IntentDirFacts,
) -> Result<Seq<char>, AppErrorView> {
    match intent_path(platform, receive_dir, transfer_id, facts) {
        Err(e) => Err(e),
        Ok(_) => if platform != Platform::Other && receive_dir.contains('\0') {
            Err(
                AppErrorView::Validation(
                    if unix(platform) {
                        "receive_dir 含内部 NUL"@
                    } else {
                        "路径含内部 NUL"@
                    },
                ),
            )
        } else {
            Ok(intent_name(sanitized(platform, transfer_id, "transfer_id"@)->Ok_0))
        },
    }
}

/// Starts clearing the intent of `transfer_id`. The first step is to open the
/// receive directory.
pub fn clear_finalize_intent(
    platform: Platform,
    receive_dir: &str,
    transfer_id: &str,
    facts: &IntentDirFacts,
) -> (plan: Result<String, AppError>)
    ensures
        named(plan) == clear_plan(platform, receive_dir@, transfer_id@, *facts),
{
    match finalize_intent_path(platform, receive_dir, transfer_id, facts) {
        Ok(_) => {},
        Err(e) => {
            return Err(e);
        },
    }
    let by_path = match platform {
        Platform::Other => true,
        _ => false,
    };
    if !by_path && contains_char(receive_dir, '\0') {
        let reason = if is_unix(platform) {
            "receive_dir 含内部 NUL"
        } else {
            "路径含内部 NUL"
        };
        return Err(AppError::validation(reason.to_string()));
    }
    match sanitize_receive_basename(platform, transfer_id, "transfer_id") {
        Err(e) => Err(e),
        Ok(id) => Ok(join2(id.as_str(), ".json")),
    }
}

/// What comes of unlinking an intent by its path: one that is not there is no error.
pub open spec fn path_cleared(outcome: Result<(), IoFailure>) -> Result<(), AppErrorView> {
    match outcome {
        Ok(_) => Ok(()),
        Err(f) => if f@.kind == IoKind::NotFound {
            Ok(())
        } else {
            Err(AppErrorView::Io(f@))
        },
    }
}

/// The end of clearing an intent by its path, where directories cannot be opened.
pub fn cleared_by_path(outcome: Result<(), IoFailure>) -> (result: Result<(), AppError>)
    ensures
        unit(result) == path_cleared(outcome),
{
    match outcome {
        Ok(()) => Ok(()),
        Err(f) => match f.kind {
            IoKind::NotFound => Ok(()),
            _ => Err(AppError::Io(f)),
        },
    }
}

// ---------------------------------------------------------------------------
// What a run of the clearing guarantees
// ---------------------------------------------------------------------------
/// Where the clearing stands after the first `k` outcomes.
pub open spec fn clearing(
    platform: Platform,
    numbers: ErrorNumbers,
    outcomes: Seq<Result<u32, AppErrorView>>,
    k: nat,
) -> ClearNextView
    decreases k,
{
    if k == 0 {
        ClearNextView::Step(ClearStep::OpenReceiveDir)
    } else {
        match clearing(platform, numbers, outcomes, (k - 1) as nat) {
            ClearNextView::Step(s) => clear_follows(platform, numbers, s, outcomes[k - 1]),
            done => done,
        }
    }
}

/// What is reported of opening a directory that is there and is no redirection.
pub open spec fn opens_plainly(platform: Platform, outcome: Result<u32, AppErrorView>) -> bool {
    outcome matches Ok(attributes) && (unix(platform) || (says_directory(attributes) && !says_reparse(
        attributes,
    )))
}

/// What is reported of unlinking `name` in a directory that holds `names`.
pub open spec fn unlink_reports(
    platform: Platform,
    numbers: ErrorNumbers,
    names: Set<Seq<char>>,
    name: Seq<char>,
    outcome: Result<u32, AppErrorView>,
) -> bool {
    if names.contains(name) {
        outcome is Ok
    } else {
        outcome matches Err(e) && nothing_to_clear(platform, numbers, ClearStep::Unlink, e)
    }
}

/// Clearing an intent twice succeeds twice. The first run takes the intent out of
/// the intent directory, if it was there, and nothing else; the second finds it
/// gone, which is no error.
pub proof fn clearing_twice_succeeds_twice(
    platform: Platform,
    numbers: ErrorNumbers,
    names: Set<Seq<char>>,
    name: Seq<char>,
    first: Seq<Result<u32, AppErrorView>>,
    second: Seq<Result<u32, AppErrorView>>,
)
    requires
        opens_plainly(platform, first[0]),
        opens_plainly(platform, first[1]),
        unlink_reports(platform, numbers, names, name, first[2]),
        opens_plainly(platform, second[0]),
        opens_plainly(platform, second[1]),
        unlink_reports(platform, numbers, names.remove(name), name, second[2]),
    ensures
        clearing(platform, numbers, first, 2) == ClearNextView::Step(ClearStep::Unlink),
        clearing(platform, numbers, first, 3) == ClearNextView::Done(Ok(())),
        clearing(platform, numbers, second, 3) == ClearNextView::Done(Ok(())),
        !names.remove(name).contains(name),
        forall|other: Seq<char>| #[trigger]
            names.remove(name).contains(other) <==> other != name && names.contains(other),
{
    reveal_with_fuel(clearing, 4);
}

/// There is nothing to clear, and no error, where the receive directory or the
/// intent directory is missing; and where the intent directory is a redirection
/// nothing behind it is unlinked.
pub proof fn nothing_is_cleared_where_there_is_no_journal(
    platform: Platform,
    numbers: ErrorNumbers,
    outcomes: Seq<Result<u32, AppErrorView>>,
)
    ensures
        outcomes[0] matches Err(e) && says_missing(e) ==> clearing(platform, numbers, outcomes, 1)
            == ClearNextView::Done(Ok(())),
        opens_plainly(platform, outcomes[0]) && (outcomes[1] matches Err(e) && nothing_to_clear(
            platform,
            numbers,
            ClearStep::OpenIntentDir,
            e,
        )) ==> clearing(platform, numbers, outcomes, 2) == ClearNextView::Done(Ok(())),
        opens_plainly(platform, outcomes[0]) && outcomes[1] is Ok && !opens_plainly(
            platform,
            outcomes[1],
        ) ==> clearing(platform, numbers, outcomes, 2) == ClearNextView::Done(Ok(())),
{
    reveal_with_fuel(clearing, 3);
}

/// Writing, reading and clearing the intent of a transfer name one file: the
/// transfer's id with its ending, in the journal of the receive directory; and the
/// temporary file of a write stands beside it.
pub proof fn an_intent_has_one_name(
    platform: Platform,
    receive_dir: Seq<char>,
    transfer_id: Seq<char>,
    facts: IntentDirFacts,
    plan: Result<IntentNames, AppError>,
)
    requires
        plans_to_write(platform, receive_dir, transfer_id, facts, plan),
    ensures
        plan matches Ok(names) ==> ({
            let name = trimmed(transfer_id) + ".json"@;
            &&& names.intent_name@ == name && names.tmp_name@ == name + ".tmp"@
            &&& clear_plan(platform, receive_dir, transfer_id, facts) == Ok::<Seq<char>, AppErrorView>(
                name,
            )
            &&& intent_path(platform, receive_dir, transfer_id, facts) == Ok::<Seq<char>, AppErrorView>(
                joined(
                    platform,
                    joined(platform, receive_dir, ".cc-partner-transfer-intents"@),
                    name,
                ),
            )
        }),
        plan matches Err(e) ==> (intent_path(platform, receive_dir, transfer_id, facts) matches Err(x)
            ==> e@ == x),
        plan is Err ==> platform == Platform::Other || receive_dir.contains('\0') || intent_path(
            platform,
            receive_dir,
            transfer_id,
            facts,
        ) is Err,
        platform == Platform::Other ==> plan is Err,
        receive_dir.contains('\0') ==> plan is Err,
        clear_plan(platform, receive_dir, transfer_id, facts) matches Ok(name) ==> name == trimmed(
            transfer_id,
        ) + ".json"@,
        clear_plan(platform, receive_dir, transfer_id, facts) is Ok <==> intent_path(
            platform,
            receive_dir,
            transfer_id,
            facts,
        ) is Ok && (platform == Platform::Other || !receive_dir.contains('\0')),
{
}

/// Two transfers do not share an intent.
pub proof fn two_transfers_share_no_intent(a: Seq<char>, b: Seq<char>)
    requires
        intent_name(a) == intent_name(b),
    ensures
        a == b,
{
    assert((a + ".json"@).subrange(0, a.len() as int) =~= a);
    assert((b + ".json"@).subrange(0, b.len() as int) =~= b);
}

/// An intent is looked for only in a journal that is a directory, or is not there
/// yet, and, where it is there, only below the receive directory.
pub proof fn an_intent_is_sought_only_in_the_journal(
    platform: Platform,
    receive_dir: Seq<char>,
    transfer_id: Seq<char>,
    facts: IntentDirFacts,
)
    ensures
        intent_path(platform, receive_dir, transfer_id, facts) is Ok ==> facts.entry
            != DirEntry::Symlink && facts.entry != DirEntry::Other,
        facts.entry == DirEntry::Symlink || facts.entry == DirEntry::Other ==> (intent_path(
            platform,
            receive_dir,
            transfer_id,
            facts,
        ) matches Err(e) && e is Validation),
        intent_path(platform, receive_dir, transfer_id, facts) matches Ok(path) ==> (facts.is_dir
            ==> stays_within(
            platform,
            receive_dir,
            path,
            opt_view(facts.canonical_dir),
            opt_view(facts.canonical_intent_dir),
        ) is Ok),
        intent_path(platform, receive_dir, transfer_id, facts) matches Err(e) ==> e is Validation,
{
}

/// The journal is the directory of that name in the receive directory: it is used
/// if it is a directory, made and looked at again if there is nothing, and refused
/// with its path otherwise; a failure to look or to make is passed on.
pub proof fn the_journal_is_a_directory_or_is_made(
    platform: Platform,
    receive_dir: Seq<char>,
    canonical_dir: Option<Seq<char>>,
    canonical_parent: Option<Seq<char>>,
    sought: IntentDirNext,
    look: IntentDirLook,
    entry: Result<DirEntry, IoFailure>,
    looked: IntentDirNext,
    make: IntentDirMake,
    outcome: Result<(), IoFailure>,
    made: IntentDirNext,
)
    requires
        intent_dir_sought(platform, receive_dir, canonical_dir, canonical_parent, sought),
        intent_dir_looked_at(look, entry, looked),
        intent_dir_made(make, outcome, made),
    ensures
        sought matches IntentDirNext::Look(s) ==> !s.made && s.dir@ == joined(
            platform,
            receive_dir,
            ".cc-partner-transfer-intents"@,
        ),
        !(sought is Look) ==> (sought matches IntentDirNext::Done(Err(e)) && e@ is Validation),
        entry == Ok::<DirEntry, IoFailure>(DirEntry::Directory) ==> (looked matches IntentDirNext::Done(
            Ok(dir),
        ) && dir@ == look.dir@),
        looked matches IntentDirNext::Done(Ok(_)) ==> entry == Ok::<DirEntry, IoFailure>(
            DirEntry::Directory,
        ),
        entry matches Ok(found) ==> (found != DirEntry::Directory ==> (looked matches IntentDirNext::Done(
            Err(e),
        ) && e@ is Validation)),
        entry matches Ok(found) ==> (found == DirEntry::Symlink && !look.made ==> (
        looked matches IntentDirNext::Done(Err(e)) && e@ == AppErrorView::Validation(
            "intent 目录是符号链接，拒绝写入: "@ + look.dir@,
        ))),
        entry matches Err(f) ==> {
            &&& !look.made && f.kind == IoKind::NotFound ==> (looked matches IntentDirNext::Make(s)
                && s.dir@ == look.dir@)
            &&& look.made || f.kind != IoKind::NotFound ==> (looked matches IntentDirNext::Done(Err(e))
                && e@ == AppErrorView::Io(f@))
        },
        outcome is Ok ==> (made matches IntentDirNext::Look(s) && s.dir@ == make.dir@ && s.made),
        outcome matches Err(f) ==> {
            &&& f.kind == IoKind::AlreadyExists ==> (made matches IntentDirNext::Look(s) && s.dir@
                == make.dir@ && !s.made)
            &&& f.kind != IoKind::AlreadyExists ==> (made matches IntentDirNext::Done(Err(e)) && e@
                == AppErrorView::Io(f@))
        },
{
}

/// Writing an intent takes its steps in order. A failure once the temporary file
/// is there is undone and then reported as it was; one before that is reported;
/// and clearing what is left over never stops it.
pub proof fn a_failed_write_is_undone_and_reported(
    platform: Platform,
    numbers: ErrorNumbers,
    step: WriteStepView,
    outcome: Result<u32, AppErrorView>,
)
    ensures
        ({
            let next = write_follows(platform, numbers, step, outcome);
            let on_unix = platform != Platform::Windows && platform != Platform::Other;
            let plain = outcome matches Ok(a) && (on_unix || ((a / 16) % 2 == 1 && (a / 1024) % 2 == 0));
            &&& step is OpenReceiveDir && plain ==> next == WriteNextView::Step(
                if on_unix {
                    WriteStepView::MakeIntentDir
                } else {
                    WriteStepView::OpenIntentDir
                },
            )
            &&& step is OpenIntentDir && plain ==> next == WriteNextView::Step(WriteStepView::ClearTmp)
            &&& (step is OpenReceiveDir || step is OpenIntentDir) && outcome is Ok && !plain ==> (
            next matches WriteNextView::Done(Err(e)) && e is Validation)
            &&& step is MakeIntentDir && outcome is Ok ==> next == WriteNextView::Step(
                WriteStepView::OpenIntentDir,
            )
            &&& step is ClearTmp ==> next == WriteNextView::Step(WriteStepView::CreateTmp)
            &&& step is CreateTmp && outcome is Ok ==> next == WriteNextView::Step(
                WriteStepView::WriteTmp,
            )
            &&& step is WriteTmp && outcome is Ok ==> next == WriteNextView::Step(
                WriteStepView::FlushTmp,
            )
            &&& step is FlushTmp && outcome is Ok ==> next == WriteNextView::Step(
                WriteStepView::SyncTmp,
            )
            &&& step is SyncTmp && outcome is Ok ==> next == WriteNextView::Step(
                WriteStepView::ClearOld,
            )
            &&& step is ClearOld ==> next == WriteNextView::Step(WriteStepView::Rename)
            &&& step is Rename && outcome is Ok ==> next == WriteNextView::Step(WriteStepView::SyncDir)
            &&& next == WriteNextView::Done(Ok(())) <==> step is SyncDir && outcome is Ok
            &&& outcome matches Err(e) ==> {
                &&& step is WriteTmp || step is FlushTmp || step is SyncTmp || step is Rename ==> next
                    == WriteNextView::Step(WriteStepView::Undo(e))
                &&& step is OpenReceiveDir || step is SyncDir ==> next == WriteNextView::Done(Err(e))
                &&& step is MakeIntentDir ==> next == (if e matches AppErrorView::Io(f) && f.code == Some(
                    numbers.exists,
                ) {
                    WriteNextView::Step(WriteStepView::OpenIntentDir)
                } else {
                    WriteNextView::Done(Err(e))
                })
                &&& step is OpenIntentDir ==> (next matches WriteNextView::Done(Err(x))
                    && x is Validation)
                &&& step is CreateTmp && on_unix ==> next == WriteNextView::Done(Err(e))
                &&& step is CreateTmp && !on_unix ==> (next matches WriteNextView::Done(
                    Err(AppErrorView::Io(f)),
                ) && f.message == "创建 intent 临时文件失败: "@ + e.message())
            }
            &&& step matches WriteStepView::Undo(e) ==> next == WriteNextView::Done(Err(e))
        }),
{
    if let Ok(a) = outcome {
        assert(a & 0x10 != 0 <==> (a / 16) % 2 == 1) by (bit_vector);
        assert(a & 0x400 != 0 <==> (a / 1024) % 2 == 1) by (bit_vector);
    }
}

/// Clearing an intent opens the two directories and unlinks it, and is done once it
/// is unlinked, or where there was nothing to clear; any other failure is reported
/// as it is.
pub proof fn an_intent_is_cleared_or_was_not_there(
    platform: Platform,
    numbers: ErrorNumbers,
    step: ClearStep,
    outcome: Result<u32, AppErrorView>,
    by_path: Result<(), IoFailure>,
)
    ensures
        ({
            let next = clear_follows(platform, numbers, step, outcome);
            let on_unix = platform != Platform::Windows && platform != Platform::Other;
            let plain = outcome matches Ok(a) && (on_unix || ((a / 16) % 2 == 1 && (a / 1024) % 2 == 0));
            &&& step == ClearStep::OpenReceiveDir && plain <==> next == ClearNextView::Step(
                ClearStep::OpenIntentDir,
            )
            &&& step == ClearStep::OpenIntentDir && plain <==> next == ClearNextView::Step(
                ClearStep::Unlink,
            )
            &&& step == ClearStep::Unlink && outcome is Ok ==> next == ClearNextView::Done(Ok(()))
            &&& step == ClearStep::OpenIntentDir && outcome is Ok && !plain ==> next
                == ClearNextView::Done(Ok(()))
            &&& step == ClearStep::OpenReceiveDir && outcome is Ok && !plain ==> (
            next matches ClearNextView::Done(Err(e)) && e is Validation)
            &&& outcome matches Err(e) ==> {
                let missing = e matches AppErrorView::Io(f) && f.kind == IoKind::NotFound;
                let said = text_says_missing(e.message());
                &&& next == ClearNextView::Done(Ok(())) || next == ClearNextView::Done(Err(e))
                &&& (step == ClearStep::OpenReceiveDir || on_unix) && missing ==> next
                    == ClearNextView::Done(Ok(()))
                &&& step == ClearStep::OpenReceiveDir && !missing ==> next == ClearNextView::Done(
                    Err(e),
                )
                &&& step == ClearStep::Unlink && on_unix && !missing ==> next == ClearNextView::Done(
                    Err(e),
                )
                &&& step != ClearStep::OpenReceiveDir && !on_unix ==> next == ClearNextView::Done(
                    if said {
                        Ok(())
                    } else {
                        Err(e)
                    },
                )
                &&& step == ClearStep::OpenIntentDir && on_unix && !missing ==> next
                    == ClearNextView::Done(
                    if e matches AppErrorView::Io(f) && (f.code == Some(numbers.too_many_links) || f.code
                        == Some(numbers.not_permitted)) {
                        Ok(())
                    } else {
                        Err(e)
                    },
                )
            }
        }),
        by_path is Ok ==> path_cleared(by_path) is Ok,
        by_path matches Err(f) ==> path_cleared(by_path) == (if f.kind == IoKind::NotFound {
            Ok::<(), AppErrorView>(())
        } else {
            Err(AppErrorView::Io(f@))
        }),
{
    if let Ok(a) = outcome {
        assert(a & 0x10 != 0 <==> (a / 16) % 2 == 1) by (bit_vector);
        assert(a & 0x400 != 0 <==> (a / 1024) % 2 == 1) by (bit_vector);
    }
}

/// What is said of an intent is what its fields hold, every one of them.
pub proof fn an_intent_is_seen_as_it_is(intent: FinalizeIntent)
    ensures
        intent@.transfer_id == intent.transfer_id@ && intent@.filename == intent.filename@,
        intent@.size == intent.size && intent@.sha256 == intent.sha256@,
        intent@.chunk_size == intent.chunk_size && intent@.final_filename == intent.final_filename@,
        intent@.final_path == intent.final_path@ && intent@.created_at == intent.created_at@,
{
}

} // verus!

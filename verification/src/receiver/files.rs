//! Opening, measuring and renaming files of a transfer: what each outcome of the
//! system means. No link is ever followed to the contents of a transfer.
use vstd::prelude::*;

use crate::error::{io_failure, AppError, AppErrorView, IoFailure, IoFailureView, IoKind};
use crate::platform::{is_unix, says_reparse, unix, ErrorNumbers, Platform, FILE_ATTRIBUTE_REPARSE_POINT};
use crate::receiver::validation::unit;
use crate::text::{contains_char, join2, join4};

verus! {

broadcast use vstd::string::group_string_axioms;

// ---------------------------------------------------------------------------
// Opening a plain file
// ---------------------------------------------------------------------------
/// Whether a failure to open means that the path is a link.
pub open spec fn says_link(numbers: ErrorNumbers, f: IoFailureView) -> bool {
    f.kind == IoKind::Other || f.code == Some(numbers.too_many_links) || f.code == Some(
        numbers.not_permitted,
    )
}

/// The error for a plain file that could not be opened.
pub open spec fn open_error(
    platform: Platform,
    numbers: ErrorNumbers,
    path: Seq<char>,
    f: IoFailureView,
) -> AppErrorView {
    if unix(platform) && says_link(numbers, f) {
        AppErrorView::Io(
            io_failure(
                IoKind::InvalidInput,
                "拒绝跟随符号链接打开: "@ + path + ": "@ + f.message,
            ),
        )
    } else {
        AppErrorView::Io(f)
    }
}

/// A plain file could not be opened without following links.
pub fn open_refused(platform: Platform, numbers: ErrorNumbers, path: &str, f: IoFailure) -> (e: AppError)
    ensures
        e@ == open_error(platform, numbers, path@, f@),
{
    let linked = match f.code {
        Some(code) => code == numbers.too_many_links || code == numbers.not_permitted,
        None => false,
    };
    let other = match f.kind {
        IoKind::Other => true,
        _ => false,
    };
    if is_unix(platform) && (other || linked) {
        AppError::Io(
            IoFailure::new(
                IoKind::InvalidInput,
                join4("拒绝跟随符号链接打开: ", path, ": ", f.message.as_str()),
            ),
        )
    } else {
        AppError::Io(f)
    }
}

/// What an open handle turned out to be.
#[derive(Clone, Copy, Debug, PartialEq, Eq, Structural)]
pub struct HandleFacts {
    pub is_symlink: bool,
    pub is_file: bool,
    /// The attributes of the handle, on Windows.
    pub attributes: u32,
}

/// A plain file, and no redirection to one.
pub open spec fn plain_file(platform: Platform, facts: HandleFacts) -> bool {
    !facts.is_symlink && facts.is_file && (platform == Platform::Windows ==> !says_reparse(
        facts.attributes,
    ))
}

/// What comes of checking that an open handle is a plain file itself.
pub open spec fn handle_checked(platform: Platform, path: Seq<char>, facts: HandleFacts) -> Result<
    (),
    AppErrorView,
> {
    if plain_file(platform, facts) {
        Ok(())
    } else {
        Err(AppErrorView::Io(io_failure(IoKind::InvalidInput, "目标不是普通文件: "@ + path)))
    }
}

/// Checks that an open handle is a plain file itself.
pub fn open_regular_file_nofollow(platform: Platform, path: &str, facts: HandleFacts) -> (checked:
    Result<(), AppError>)
    ensures
        unit(checked) == handle_checked(platform, path@, facts),
{
    let redirected = match platform {
        Platform::Windows => facts.attributes & FILE_ATTRIBUTE_REPARSE_POINT != 0,
        _ => false,
    };
    if facts.is_symlink || !facts.is_file || redirected {
        return Err(
            AppError::Io(
                IoFailure::new(IoKind::InvalidInput, join2("目标不是普通文件: ", path)),
            ),
        );
    }
    Ok(())
}

/// What comes next in opening the temporary file of a transfer for writing.
pub enum TmpOpenNext {
    /// The file was created anew and is open.
    Use,
    /// It was there already: open it without following links.
    OpenExisting,
    Refuse(AppError),
}

/// The step after creating the temporary file anew, and only anew.
pub open spec fn tmp_created(outcome: Result<(), IoFailure>, next: TmpOpenNext) -> bool {
    match outcome {
        Ok(_) => next is Use,
        Err(f) => if f@.kind == IoKind::AlreadyExists {
            next is OpenExisting
        } else {
            next matches TmpOpenNext::Refuse(e) && e@ == AppErrorView::Io(f@)
        },
    }
}

/// Creating the temporary file anew, and only anew, had `outcome`.
pub fn open_receive_tmp_rw(outcome: Result<(), IoFailure>) -> (next: TmpOpenNext)
    ensures
        tmp_created(outcome, next),
{
    match outcome {
        Ok(()) => TmpOpenNext::Use,
        Err(f) => match f.kind {
            IoKind::AlreadyExists => TmpOpenNext::OpenExisting,
            _ => TmpOpenNext::Refuse(AppError::Io(f)),
        },
    }
}

// ---------------------------------------------------------------------------
// Measuring the temporary file
// ---------------------------------------------------------------------------
/// What stands at the path of the temporary file, without following links.
pub enum TmpEntry {
    Found { is_symlink: bool, is_file: bool, len: u64 },
    Failed(IoFailure),
}

/// What comes of measuring the temporary file.
pub enum TmpMeasure {
    /// Its length, or `None` where there is no such file.
    Len(Option<u64>),
    /// It is a link: remove it, whether or not that succeeds, then report.
    RemoveLink(AppError),
    Refuse(AppError),
}

/// What comes of measuring the temporary file at `path`: only a plain file has a
/// length; a link in its place is dangerous.
pub open spec fn tmp_measured(path: Seq<char>, entry: TmpEntry, measure: TmpMeasure) -> bool {
    match entry {
        TmpEntry::Found { is_symlink, is_file, len } => if is_symlink {
            measure matches TmpMeasure::RemoveLink(e) && e@ == AppErrorView::Validation(
                "临时文件是符号链接，已删除危险路径: "@ + path,
            )
        } else if !is_file {
            measure matches TmpMeasure::Refuse(e) && e@ == AppErrorView::Validation(
                "临时路径不是普通文件: "@ + path,
            )
        } else {
            measure matches TmpMeasure::Len(l) && l == Some(len)
        },
        TmpEntry::Failed(f) => if f@.kind == IoKind::NotFound {
            measure matches TmpMeasure::Len(l) && l is None
        } else {
            measure matches TmpMeasure::Refuse(e) && e@ == AppErrorView::Io(f@)
        },
    }
}

/// Measures the temporary file at `path`.
pub fn receive_tmp_len_nofollow(path: &str, entry: TmpEntry) -> (measure: TmpMeasure)
    ensures
        tmp_measured(path@, entry, measure),
{
    match entry {
        TmpEntry::Found { is_symlink, is_file, len } => {
            if is_symlink {
                return TmpMeasure::RemoveLink(
                    AppError::validation(
                        join2("临时文件是符号链接，已删除危险路径: ", path),
                    ),
                );
            }
            if !is_file {
                return TmpMeasure::Refuse(
                    AppError::validation(join2("临时路径不是普通文件: ", path)),
                );
            }
            TmpMeasure::Len(Some(len))
        },
        TmpEntry::Failed(f) => match f.kind {
            IoKind::NotFound => TmpMeasure::Len(None),
            _ => TmpMeasure::Refuse(AppError::Io(f)),
        },
    }
}

// ---------------------------------------------------------------------------
// Writing a new file
// ---------------------------------------------------------------------------
/// The actions of writing a file anew by its path, in order.
#[derive(Debug)]
pub enum NewFileStep {
    /// Remove a file left over; the outcome does not matter.
    ClearOld,
    /// Create the file, and only anew.
    Create,
    Write,
    Flush,
    Sync,
    /// Remove the file, then report the error; the outcome does not matter.
    Undo(AppError),
}

/// What comes next in writing a file anew.
#[derive(Debug)]
pub enum NewFileNext {
    Step(NewFileStep),
    Done(Result<(), AppError>),
}

/// A failed write leaves a file to remove.
pub open spec fn undoes(next: NewFileNext, f: IoFailureView) -> bool {
    next matches NewFileNext::Step(NewFileStep::Undo(e)) && e@ == AppErrorView::Io(f)
}

/// The whole table of steps: `next` follows `step` when its action on `path` had
/// `outcome`. What stood there before is never written to, and what was not
/// written to the end does not stay.
pub open spec fn new_file_follows(
    path: Seq<char>,
    step: NewFileStep,
    outcome: Result<(), IoFailure>,
    next: NewFileNext,
) -> bool {
    match step {
        NewFileStep::ClearOld => next matches NewFileNext::Step(NewFileStep::Create),
        NewFileStep::Create => match outcome {
            Ok(_) => next matches NewFileNext::Step(NewFileStep::Write),
            Err(f) => next matches NewFileNext::Done(Err(e)) && e@ == AppErrorView::Io(
                io_failure(
                    f@.kind,
                    "创建 intent 临时文件失败 "@ + path + ": "@ + f@.message,
                ),
            ),
        },
        NewFileStep::Write => match outcome {
            Ok(_) => next matches NewFileNext::Step(NewFileStep::Flush),
            Err(f) => undoes(next, f@),
        },
        NewFileStep::Flush => match outcome {
            Ok(_) => next matches NewFileNext::Step(NewFileStep::Sync),
            Err(f) => undoes(next, f@),
        },
        NewFileStep::Sync => match outcome {
            Ok(_) => next matches NewFileNext::Done(Ok(_)),
            Err(f) => undoes(next, f@),
        },
        NewFileStep::Undo(why) => next matches NewFileNext::Done(Err(e)) && e@ == why@,
    }
}

/// Starts writing a file anew.
pub fn write_bytes_create_new_nofollow() -> (next: NewFileNext)
    ensures
        next matches NewFileNext::Step(NewFileStep::ClearOld),
{
    NewFileNext::Step(NewFileStep::ClearOld)
}

fn undo(f: IoFailure) -> (next: NewFileNext)
    ensures
        undoes(next, f@),
{
    NewFileNext::Step(NewFileStep::Undo(AppError::Io(f)))
}

impl NewFileStep {
    /// The action of this step on `path` had `outcome`: what comes next.
    pub fn done(self, path: &str, outcome: Result<(), IoFailure>) -> (next: NewFileNext)
        ensures
            new_file_follows(path@, self, outcome, next),
    {
        match self {
            NewFileStep::ClearOld => NewFileNext::Step(NewFileStep::Create),
            NewFileStep::Create => match outcome {
                Ok(()) => NewFileNext::Step(NewFileStep::Write),
                Err(f) => {
                    let message = join4("创建 intent 临时文件失败 ", path, ": ", f.message.as_str());
                    NewFileNext::Done(Err(AppError::Io(IoFailure::new(f.kind, message))))
                },
            },
            NewFileStep::Write => match outcome {
                Ok(()) => NewFileNext::Step(NewFileStep::Flush),
                Err(f) => undo(f),
            },
            NewFileStep::Flush => match outcome {
                Ok(()) => NewFileNext::Step(NewFileStep::Sync),
                Err(f) => undo(f),
            },
            NewFileStep::Sync => match outcome {
                Ok(()) => NewFileNext::Done(Ok(())),
                Err(f) => undo(f),
            },
            NewFileStep::Undo(e) => NewFileNext::Done(Err(e)),
        }
    }
}

// ---------------------------------------------------------------------------
// Renaming without replacing
// ---------------------------------------------------------------------------
/// The flags that make a rename refuse to replace: `RENAME_NOREPLACE` on Linux,
/// `RENAME_EXCL` on macOS; on Windows a move without flags refuses by itself.
pub open spec fn no_replace_flags(platform: Platform) -> u32 {
    match platform {
        Platform::Linux => 1,
        Platform::MacOs => 4,
        _ => 0,
    }
}

/// Whether the platform can rename without replacing, in one action.
pub open spec fn can_rename_exclusively(platform: Platform) -> bool {
    platform == Platform::Linux || platform == Platform::MacOs || platform == Platform::Windows
}

/// What stands in the way of a rename before it is tried.
pub open spec fn rename_obstacle(
    platform: Platform,
    from: Seq<char>,
    to: Seq<char>,
) -> Option<IoFailureView> {
    if !can_rename_exclusively(platform) {
        Some(
            io_failure(
                IoKind::Unsupported,
                "当前平台无法提供原子 no-replace rename；禁止占位回退"@,
            ),
        )
    } else if from.contains('\0') {
        Some(
            io_failure(
                IoKind::InvalidInput,
                if platform == Platform::Windows {
                    "路径含内部 NUL"@
                } else {
                    "tmp 路径含内部 NUL"@
                },
            ),
        )
    } else if to.contains('\0') {
        Some(
            io_failure(
                IoKind::InvalidInput,
                if platform == Platform::Windows {
                    "路径含内部 NUL"@
                } else {
                    "final 路径含内部 NUL"@
                },
            ),
        )
    } else {
        None
    }
}

/// What comes of planning to rename `from` to `to` without replacing anything: the
/// flags to do it with, or what stands in the way.
pub open spec fn rename_planned(
    platform: Platform,
    from: Seq<char>,
    to: Seq<char>,
    flags: Result<u32, IoFailure>,
) -> bool {
    match flags {
        Ok(n) => rename_obstacle(platform, from, to) is None && n == no_replace_flags(platform),
        Err(f) => rename_obstacle(platform, from, to) == Some(f@),
    }
}

/// Prepares to rename without replacing: the flags to pass.
pub fn rename_no_replace(platform: Platform, from: &str, to: &str) -> (flags: Result<u32, IoFailure>)
    ensures
        rename_planned(platform, from@, to@, flags),
{
    let (flags, windows): (u32, bool) = match platform {
        Platform::Linux => (1, false),
        Platform::MacOs => (4, false),
        Platform::Windows => (0, true),
        _ => {
            return Err(
                IoFailure::new(
                    IoKind::Unsupported,
                    "当前平台无法提供原子 no-replace rename；禁止占位回退".to_string(),
                ),
            );
        },
    };
    if contains_char(from, '\0') {
        let reason = if windows {
            "路径含内部 NUL"
        } else {
            "tmp 路径含内部 NUL"
        };
        return Err(IoFailure::new(IoKind::InvalidInput, reason.to_string()));
    }
    if contains_char(to, '\0') {
        let reason = if windows {
            "路径含内部 NUL"
        } else {
            "final 路径含内部 NUL"
        };
        return Err(IoFailure::new(IoKind::InvalidInput, reason.to_string()));
    }
    Ok(flags)
}

/// Windows `ERROR_ALREADY_EXISTS`.
pub const ERROR_ALREADY_EXISTS: i32 = 183;

/// Windows `ERROR_FILE_EXISTS`.
pub const ERROR_FILE_EXISTS: i32 = 80;

/// Whether a failed rename means that the file system cannot do it.
pub open spec fn says_unable(platform: Platform, numbers: ErrorNumbers, code: Option<i32>) -> bool {
    match platform {
        Platform::Linux => code == Some(numbers.no_such_call) || code == Some(numbers.invalid),
        Platform::MacOs => code == Some(numbers.not_supported) || code == Some(numbers.no_such_call),
        _ => false,
    }
}

/// Whether a failed rename means that the target is taken.
pub open spec fn says_taken(platform: Platform, numbers: ErrorNumbers, code: Option<i32>) -> bool {
    match platform {
        Platform::Windows => code == Some(ERROR_ALREADY_EXISTS) || code == Some(ERROR_FILE_EXISTS),
        _ => code == Some(numbers.exists),
    }
}

/// What a failed rename is reported as: a file system that cannot rename without
/// replacing is never worked around, and a target that is taken is told apart.
pub open spec fn rename_error(
    platform: Platform,
    numbers: ErrorNumbers,
    f: IoFailureView,
) -> IoFailureView {
    if says_unable(platform, numbers, f.code) {
        io_failure(
            IoKind::Unsupported,
            (if platform == Platform::Linux {
                "文件系统不支持 RENAME_NOREPLACE: "@
            } else {
                "文件系统不支持 RENAME_EXCL: "@
            }) + f.message,
        )
    } else if says_taken(platform, numbers, f.code) {
        io_failure(IoKind::AlreadyExists, f.message)
    } else {
        f
    }
}

/// A rename without replacing has failed with `f`.
pub fn rename_refused(platform: Platform, numbers: ErrorNumbers, f: IoFailure) -> (e: IoFailure)
    ensures
        e@ == rename_error(platform, numbers, f@),
{
    let code: i32 = match f.code {
        Some(code) => code,
        None => {
            return f;
        },
    };
    match platform {
        Platform::Linux => {
            if code == numbers.no_such_call || code == numbers.invalid {
                return IoFailure::new(
                    IoKind::Unsupported,
                    join2("文件系统不支持 RENAME_NOREPLACE: ", f.message.as_str()),
                );
            }
        },
        Platform::MacOs => {
            if code == numbers.not_supported || code == numbers.no_such_call {
                return IoFailure::new(
                    IoKind::Unsupported,
                    join2("文件系统不支持 RENAME_EXCL: ", f.message.as_str()),
                );
            }
        },
        Platform::Windows => {
            if code == ERROR_ALREADY_EXISTS || code == ERROR_FILE_EXISTS {
                return IoFailure::new(IoKind::AlreadyExists, f.message);
            }
            return f;
        },
        _ => {},
    }
    if code == numbers.exists {
        return IoFailure::new(IoKind::AlreadyExists, f.message);
    }
    f
}

/// A rename that failed is reported as "taken" only if the system said so, and
/// one the file system cannot do is never reported as done or as taken.
pub proof fn renames_are_reported_truly(
    platform: Platform,
    numbers: ErrorNumbers,
    f: IoFailureView,
)
    ensures
        rename_error(platform, numbers, f).kind == IoKind::AlreadyExists ==> says_taken(
            platform,
            numbers,
            f.code,
        ) || f.kind == IoKind::AlreadyExists,
        says_unable(platform, numbers, f.code) ==> rename_error(platform, numbers, f).kind
            == IoKind::Unsupported,
{
}

/// The error for a directory that could not be opened to be synced.
pub open spec fn sync_error(platform: Platform, dir: Seq<char>, f: IoFailureView) -> AppErrorView {
    AppErrorView::Io(
        io_failure(
            f.kind,
            (if platform == Platform::Windows {
                "打开目录以 FlushFileBuffers 失败 "@
            } else {
                "打开目录以 fsync 失败 "@
            }) + dir + ": "@ + f.message,
        ),
    )
}

// ---------------------------------------------------------------------------
// Syncing a directory
// ---------------------------------------------------------------------------
/// The error for a directory that could not be opened to be synced.
pub fn fsync_dir(platform: Platform, dir: &str, f: IoFailure) -> (e: AppError)
    ensures
        e@ == sync_error(platform, dir@, f@),
{
    let prefix = match platform {
        Platform::Windows => "打开目录以 FlushFileBuffers 失败 ",
        _ => "打开目录以 fsync 失败 ",
    };
    AppError::Io(IoFailure::new(f.kind, join4(prefix, dir, ": ", f.message.as_str())))
}

/// A path that could not be opened is reported as a link, with its name, on the
/// systems and for the errors that mean one; any other failure is passed on as it
/// is.
pub proof fn a_failure_to_open_says_whether_it_was_a_link(
    platform: Platform,
    numbers: ErrorNumbers,
    path: Seq<char>,
    f: IoFailureView,
)
    ensures
        ({
            let is_link = platform != Platform::Windows && platform != Platform::Other && (f.kind
                == IoKind::Other || f.code == Some(numbers.too_many_links) || f.code == Some(
                numbers.not_permitted,
            ));
            &&& !is_link ==> open_error(platform, numbers, path, f) == AppErrorView::Io(f)
            &&& is_link ==> (open_error(platform, numbers, path, f) matches AppErrorView::Io(g) && g.kind
                == IoKind::InvalidInput && g.code is None && g.message == "拒绝跟随符号链接打开: "@ + path
                + ": "@ + f.message)
        }),
{
}

/// A handle is used exactly when it is one on a plain file; any other is refused
/// with the name of the path.
pub proof fn only_a_plain_file_is_used(platform: Platform, path: Seq<char>, facts: HandleFacts)
    ensures
        handle_checked(platform, path, facts) is Ok <==> !facts.is_symlink && facts.is_file && (platform
            == Platform::Windows ==> (facts.attributes / 1024) % 2 == 0),
        handle_checked(platform, path, facts) matches Err(e) ==> (e matches AppErrorView::Io(g) && g.kind
            == IoKind::InvalidInput && g.message == "目标不是普通文件: "@ + path),
{
    let attributes = facts.attributes;
    assert(attributes & 0x400 != 0 <==> (attributes / 1024) % 2 == 1) by (bit_vector);
}

/// A temporary file is used as it was made, or, where it was there already, as it
/// is; one that could not be made is refused for that reason. Its length is that
/// of the plain file itself, and none where there is none; a link is removed and
/// refused, and anything else is refused.
pub proof fn a_temporary_file_is_taken_as_it_is(
    outcome: Result<(), IoFailure>,
    next: TmpOpenNext,
    path: Seq<char>,
    entry: TmpEntry,
    measure: TmpMeasure,
)
    requires
        tmp_created(outcome, next),
        tmp_measured(path, entry, measure),
    ensures
        outcome is Ok ==> next is Use,
        outcome matches Err(f) ==> (f.kind == IoKind::AlreadyExists ==> next is OpenExisting),
        outcome matches Err(f) ==> (f.kind != IoKind::AlreadyExists ==> (
        next matches TmpOpenNext::Refuse(e) && e@ == AppErrorView::Io(f@))),
        entry matches TmpEntry::Found { is_symlink, is_file, len } ==> {
            &&& is_symlink ==> (measure matches TmpMeasure::RemoveLink(e) && e@
                == AppErrorView::Validation("临时文件是符号链接，已删除危险路径: "@ + path))
            &&& !is_symlink && !is_file ==> (measure matches TmpMeasure::Refuse(e) && e@
                == AppErrorView::Validation("临时路径不是普通文件: "@ + path))
            &&& !is_symlink && is_file ==> (measure matches TmpMeasure::Len(l) && l == Some(len))
        },
        entry matches TmpEntry::Failed(f) ==> {
            &&& f.kind == IoKind::NotFound ==> (measure matches TmpMeasure::Len(l) && l is None)
            &&& f.kind != IoKind::NotFound ==> (measure matches TmpMeasure::Refuse(e) && e@
                == AppErrorView::Io(f@))
        },
{
}

/// A new file is done once it was created, written, flushed and synced, in this
/// order. A file that could not be created is an error that names it; one that
/// could not be written, flushed or synced is removed, and the error is passed on.
pub proof fn a_new_file_is_done_once_it_is_synced(
    path: Seq<char>,
    step: NewFileStep,
    outcome: Result<(), IoFailure>,
    next: NewFileNext,
)
    requires
        new_file_follows(path, step, outcome, next),
    ensures
        next matches NewFileNext::Done(Ok(_)) <==> step is Sync && outcome is Ok,
        step is ClearOld <==> (next matches NewFileNext::Step(NewFileStep::Create)),
        step is Create && outcome is Ok <==> (next matches NewFileNext::Step(NewFileStep::Write)),
        step is Write && outcome is Ok <==> (next matches NewFileNext::Step(NewFileStep::Flush)),
        step is Flush && outcome is Ok <==> (next matches NewFileNext::Step(NewFileStep::Sync)),
        step is Write || step is Flush || step is Sync ==> (outcome matches Err(f) ==> (
        next matches NewFileNext::Step(NewFileStep::Undo(e)) && e@ == AppErrorView::Io(f@))),
        step is Create ==> (outcome matches Err(f) ==> (next matches NewFileNext::Done(Err(e)) && (
        e@ matches AppErrorView::Io(g) && g.kind == f.kind && g.message == "创建 intent 临时文件失败 "@
            + path + ": "@ + f.message@))),
        step matches NewFileStep::Undo(why) ==> (next matches NewFileNext::Done(Err(e)) && e@ == why@),
{
}

/// A rename without replacing is planned where the system has one and neither path
/// holds a zero, with the flag of that system; anything else is refused for its
/// own reason. A failed rename is told apart as one that the file system cannot
/// do, one whose name is taken, and any other, which is passed on as it is.
pub proof fn a_rename_never_replaces(
    platform: Platform,
    numbers: ErrorNumbers,
    from: Seq<char>,
    to: Seq<char>,
    flags: Result<u32, IoFailure>,
    f: IoFailureView,
)
    requires
        rename_planned(platform, from, to, flags),
    ensures
        flags is Ok <==> platform != Platform::OtherUnix && platform != Platform::Other
            && !from.contains('\0') && !to.contains('\0'),
        flags matches Ok(n) ==> (platform == Platform::Linux ==> n == 1) && (platform == Platform::MacOs
            ==> n == 4) && (platform == Platform::Windows ==> n == 0),
        flags matches Err(e) ==> (e.kind == IoKind::Unsupported <==> platform == Platform::OtherUnix
            || platform == Platform::Other) && (e.kind == IoKind::Unsupported || e.kind
            == IoKind::InvalidInput),
        ({
            let e = rename_error(platform, numbers, f);
            let unable = (platform == Platform::Linux && (f.code == Some(numbers.no_such_call) || f.code
                == Some(numbers.invalid))) || (platform == Platform::MacOs && (f.code == Some(
                numbers.not_supported,
            ) || f.code == Some(numbers.no_such_call)));
            let taken = if platform == Platform::Windows {
                f.code == Some(183i32) || f.code == Some(80i32)
            } else {
                f.code == Some(numbers.exists)
            };
            &&& unable && platform == Platform::Linux ==> e.kind == IoKind::Unsupported && e.message
                == "文件系统不支持 RENAME_NOREPLACE: "@ + f.message
            &&& unable && platform == Platform::MacOs ==> e.kind == IoKind::Unsupported && e.message
                == "文件系统不支持 RENAME_EXCL: "@ + f.message
            &&& !unable && taken ==> e.kind == IoKind::AlreadyExists && e.message == f.message
            &&& !unable && !taken ==> e == f
        }),
{
}

/// A directory that could not be opened to be synced is reported with its name and
/// the failure.
pub proof fn an_unsynced_directory_is_named(platform: Platform, dir: Seq<char>, f: IoFailureView)
    ensures
        sync_error(platform, dir, f) matches AppErrorView::Io(g) && g.kind == f.kind && (platform
            == Platform::Windows ==> g.message == "打开目录以 FlushFileBuffers 失败 "@ + dir + ": "@
            + f.message) && (platform != Platform::Windows ==> g.message == "打开目录以 fsync 失败 "@
            + dir + ": "@ + f.message),
{
}

} // verus!

//! Before a transfer is recorded as completed, its final file is certified: the
//! right length, the right contents, synced, and still the entry of its
//! directory that was opened.
use vstd::prelude::*;

use crate::digest::{content_sha, strung_together, ContentHasher, HashNext, HASH_LIMIT};
use crate::error::{io_failure, AppError, AppErrorView, IoFailure, IoKind};
use crate::paths::{file_name_of, parent_of, parts, rendered, LexPath};
use crate::platform::{
    is_unix, says_directory, says_reparse, unix, Platform, FILE_ATTRIBUTE_DIRECTORY,
    FILE_ATTRIBUTE_REPARSE_POINT,
};
use crate::receiver::validation::unit;
use crate::text::{contains_char, decimal, decimal_of, join2, join4, join5, same};
use crate::wide::{name_to_wide, relative_name_bytes, to_wide, utf16};

verus! {

broadcast use vstd::string::group_string_axioms;

/// What tells one file from another: device and inode, or volume and file index.
#[derive(Clone, Copy, Debug, PartialEq, Eq, Structural)]
pub struct BoundFileIdentity {
    pub volume: u64,
    pub index: u64,
}

/// `identity` is the volume with the given serial and the index with the given
/// halves.
pub open spec fn identifies(
    identity: BoundFileIdentity,
    volume_serial: u32,
    index_high: u32,
    index_low: u32,
) -> bool {
    identity.volume == volume_serial && identity.index == index_high * 0x1_0000_0000 + index_low
}

/// The identity of a file on Windows, whose index comes in two halves.
pub fn file_identity_from_std(volume_serial: u32, index_high: u32, index_low: u32) -> (identity:
    BoundFileIdentity)
    ensures
        identifies(identity, volume_serial, index_high, index_low),
{
    let index: u64 = ((index_high as u64) << 32) | (index_low as u64);
    assert(((index_high as u64) << 32) | (index_low as u64) == (index_high as u64) * 0x1_0000_0000 + (
    index_low as u64)) by (bit_vector);
    BoundFileIdentity { volume: volume_serial as u64, index }
}

// ---------------------------------------------------------------------------
// The entry of the directory
// ---------------------------------------------------------------------------
/// What comes next in finding out which file a directory entry stands for.
pub enum DirentNext {
    /// Open the directory itself.
    OpenParent(DirentParent),
    /// Open the entry relative to the open directory, without following links.
    OpenChild(DirentChild),
    Done(Result<BoundFileIdentity, AppError>),
}

/// A directory that is to be opened.
pub struct DirentParent {
    pub platform: Platform,
    pub path: String,
    pub parent: String,
    pub name: String,
}

/// An entry that is to be opened.
pub struct DirentChild {
    pub platform: Platform,
    pub path: String,
    pub name: String,
}

/// An entry that was opened.
pub struct ChildFacts {
    /// Its attributes, on Windows.
    pub attributes: u32,
    pub identity: Result<BoundFileIdentity, AppError>,
}

/// What the identity of a file, or the error in its place, says.
pub open spec fn identity_view(r: Result<BoundFileIdentity, AppError>) -> Result<
    BoundFileIdentity,
    AppErrorView,
> {
    match r {
        Ok(x) => Ok(x),
        Err(e) => Err(e@),
    }
}

/// The search for the identity ends here.
pub open spec fn identity_ends(
    next: DirentNext,
    result: Result<BoundFileIdentity, AppErrorView>,
) -> bool {
    next matches DirentNext::Done(r) && identity_view(r) == result
}

/// A name that cannot be handed to Windows.
pub open spec fn unfit_for_windows(name: Seq<char>) -> bool {
    name.len() == 0 || name.contains('\0')
}

/// Why a path has no directory entry to look at.
pub open spec fn dirent_obstacle(platform: Platform, path: Seq<char>) -> Option<AppErrorView> {
    match parent_of(parts(platform, path)) {
        None => Some(
            AppErrorView::Validation("最终路径无父目录，无法确认目录项身份: "@ + path),
        ),
        Some(parent) => match file_name_of(parts(platform, path)) {
            None => Some(
                AppErrorView::Validation("最终路径无文件名，无法确认目录项身份: "@ + path),
            ),
            Some(name) => if platform == Platform::Other {
                Some(
                    AppErrorView::Io(
                        io_failure(
                            IoKind::Unsupported,
                            "当前平台无法经父目录确认文件身份"@,
                        ),
                    ),
                )
            } else if rendered(platform, parent).contains('\0') {
                Some(
                    AppErrorView::Validation(
                        if unix(platform) {
                            "父目录路径含内部 NUL"@
                        } else {
                            "路径含内部 NUL"@
                        },
                    ),
                )
            } else if unix(platform) && name.contains('\0') {
                Some(AppErrorView::Validation("最终文件名含内部 NUL"@))
            } else if !unix(platform) && unfit_for_windows(name) {
                Some(AppErrorView::Validation("相对路径名非法"@))
            } else {
                None
            },
        },
    }
}

fn no_identity(e: AppError) -> (next: DirentNext)
    ensures
        identity_ends(next, Err(e@)),
{
    DirentNext::Done(Err(e))
}

/// The first step of finding out which file the entry at `path` stands for.
pub open spec fn entry_sought(platform: Platform, path: Seq<char>, next: DirentNext) -> bool {
    match dirent_obstacle(platform, path) {
        Some(e) => identity_ends(next, Err(e)),
        None => next matches DirentNext::OpenParent(s) && s.platform == platform && s.path@ == path
            && s.parent@ == rendered(platform, parent_of(parts(platform, path))->0) && Some(s.name@)
            == file_name_of(parts(platform, path)),
    }
}

/// Starts to find out which file the entry at `final_path` stands for.
pub fn dirent_identity_via_parent(platform: Platform, final_path: &str) -> (next: DirentNext)
    ensures
        entry_sought(platform, final_path@, next),
{
    let path = LexPath::parse(platform, final_path);
    let parent = match path.parent() {
        Some(p) => p,
        None => {
            return no_identity(
                AppError::validation(
                    join2("最终路径无父目录，无法确认目录项身份: ", final_path),
                ),
            );
        },
    };
    let name = match path.file_name() {
        Some(n) => n,
        None => {
            return no_identity(
                AppError::validation(
                    join2("最终路径无文件名，无法确认目录项身份: ", final_path),
                ),
            );
        },
    };
    match platform {
        Platform::Other => {
            return no_identity(
                AppError::Io(
                    IoFailure::new(
                        IoKind::Unsupported,
                        "当前平台无法经父目录确认文件身份".to_string(),
                    ),
                ),
            );
        },
        _ => {},
    }
    let parent = parent.render(platform);
    if is_unix(platform) {
        if contains_char(parent.as_str(), '\0') {
            return no_identity(AppError::validation("父目录路径含内部 NUL".to_string()));
        }
        if contains_char(name.as_str(), '\0') {
            return no_identity(AppError::validation("最终文件名含内部 NUL".to_string()));
        }
    } else {
        match to_wide(parent.as_str()) {
            Ok(_) => {},
            Err(e) => {
                return no_identity(e);
            },
        }
        match name_to_wide(name.as_str()) {
            Ok(_) => {},
            Err(e) => {
                return no_identity(e);
            },
        }
    }
    DirentNext::OpenParent(
        DirentParent { platform, path: final_path.to_string(), parent, name },
    )
}

/// The step after the directory was opened, with the attributes of what was opened,
/// or could not be. On Windows it must be a directory itself.
pub open spec fn directory_opened(
    state: DirentParent,
    outcome: Result<u32, AppError>,
    next: DirentNext,
) -> bool {
    match outcome {
        Err(e) => identity_ends(next, Err(e@)),
        Ok(attributes) => if !unix(state.platform) && (!says_directory(attributes) || says_reparse(
            attributes,
        )) {
            identity_ends(
                next,
                Err(
                    AppErrorView::Validation(
                        "父目录不是普通目录（reparse/非目录），拒绝确认身份"@,
                    ),
                ),
            )
        } else if !unix(state.platform) && unfit_for_windows(state.name@) {
            identity_ends(next, Err(AppErrorView::Validation("相对路径名非法"@)))
        } else if !unix(state.platform) && 2 * utf16(state.name@).len() > u16::MAX {
            identity_ends(next, Err(AppErrorView::Validation("相对路径名过长"@)))
        } else {
            next matches DirentNext::OpenChild(s) && s.platform == state.platform && s.path@ == state.path@
                && s.name@ == state.name@
        },
    }
}

impl DirentParent {
    /// The directory has been opened, or could not be.
    pub fn opened(self, outcome: Result<u32, AppError>) -> (next: DirentNext)
        ensures
            directory_opened(self, outcome, next),
    {
        let attributes: u32 = match outcome {
            Ok(a) => a,
            Err(e) => {
                return no_identity(e);
            },
        };
        if !is_unix(self.platform) {
            if attributes & FILE_ATTRIBUTE_DIRECTORY == 0 || attributes & FILE_ATTRIBUTE_REPARSE_POINT
                != 0 {
                return no_identity(
                    AppError::validation(
                        "父目录不是普通目录（reparse/非目录），拒绝确认身份".to_string(),
                    ),
                );
            }
            match name_to_wide(self.name.as_str()) {
                Err(e) => {
                    return no_identity(e);
                },
                Ok(wide) => match relative_name_bytes(&wide) {
                    Ok(_) => {},
                    Err(e) => {
                        return no_identity(e);
                    },
                },
            }
        }
        DirentNext::OpenChild(
            DirentChild { platform: self.platform, path: self.path, name: self.name },
        )
    }
}

/// The end of the search once the entry was opened, or could not be. On Windows it
/// must be a plain file.
pub open spec fn entry_opened(
    state: DirentChild,
    outcome: Result<ChildFacts, IoFailure>,
    next: DirentNext,
) -> bool {
    match outcome {
        Err(f) => identity_ends(
            next,
            Err(
                if unix(state.platform) {
                    AppErrorView::Io(
                        io_failure(
                            f@.kind,
                            "经父目录确认最终文件身份失败 "@ + state.path@ + ": "@ + f@.message,
                        ),
                    )
                } else {
                    AppErrorView::Io(f@)
                },
            ),
        ),
        Ok(facts) => if !unix(state.platform) && (says_directory(facts.attributes) || says_reparse(
            facts.attributes,
        )) {
            identity_ends(
                next,
                Err(AppErrorView::Validation("最终目录项不是普通文件（reparse/目录）"@)),
            )
        } else {
            identity_ends(next, identity_view(facts.identity))
        },
    }
}

impl DirentChild {
    /// The entry has been opened, or could not be.
    pub fn opened(self, outcome: Result<ChildFacts, IoFailure>) -> (next: DirentNext)
        ensures
            entry_opened(self, outcome, next),
    {
        match outcome {
            Err(f) => if is_unix(self.platform) {
                no_identity(
                    AppError::Io(
                        IoFailure::new(
                            f.kind,
                            join4(
                                "经父目录确认最终文件身份失败 ",
                                self.path.as_str(),
                                ": ",
                                f.message.as_str(),
                            ),
                        ),
                    ),
                )
            } else {
                no_identity(AppError::Io(f))
            },
            Ok(facts) => {
                if !is_unix(self.platform) && (facts.attributes & FILE_ATTRIBUTE_DIRECTORY != 0
                    || facts.attributes & FILE_ATTRIBUTE_REPARSE_POINT != 0) {
                    return no_identity(
                        AppError::validation(
                            "最终目录项不是普通文件（reparse/目录）".to_string(),
                        ),
                    );
                }
                DirentNext::Done(facts.identity)
            },
        }
    }
}

// ---------------------------------------------------------------------------
// Certifying
// ---------------------------------------------------------------------------
/// What comes next in certifying a final file.
pub enum CertifyNext {
    /// Open the file for reading and writing, without following links, and take
    /// its length and identity.
    Open(CertifyOpen),
    /// Read the next block of the open file.
    Read(CertifyRead),
    /// Sync the open file.
    SyncFile(CertifySync),
    /// Sync the directory of the file.
    SyncParent(CertifyParent),
    /// Find out which file the directory entry stands for.
    Identify(CertifyIdentify),
    Done(Result<(), AppError>),
}

/// What is expected of a file.
pub struct Expected {
    pub platform: Platform,
    pub path: String,
    pub size: u64,
    pub sha256: String,
}

/// A file that is to be opened.
pub struct CertifyOpen {
    pub expected: Expected,
}

/// A file whose contents are being read.
pub struct CertifyRead {
    pub expected: Expected,
    pub bound: BoundFileIdentity,
    pub hasher: ContentHasher,
}

/// A file with the right contents, to be synced.
pub struct CertifySync {
    pub expected: Expected,
    pub bound: BoundFileIdentity,
}

/// A synced file whose directory is to be synced.
pub struct CertifyParent {
    pub expected: Expected,
    pub bound: BoundFileIdentity,
}

/// A synced file whose directory entry is to be looked at.
pub struct CertifyIdentify {
    pub expected: Expected,
    pub bound: BoundFileIdentity,
}

/// An open file.
pub struct OpenedFile {
    pub len: u64,
    pub identity: Result<BoundFileIdentity, AppError>,
}

/// Certifying ends here.
pub open spec fn certifying_ends(next: CertifyNext, result: Result<(), AppErrorView>) -> bool {
    next matches CertifyNext::Done(r) && unit(r) == result
}

/// The first step of certifying: what is expected of the file at `path`.
pub open spec fn certifying_opens(
    platform: Platform,
    path: Seq<char>,
    size: u64,
    sha256: Seq<char>,
    next: CertifyNext,
) -> bool {
    next matches CertifyNext::Open(s) && s.expected.platform == platform && s.expected.path@ == path
        && s.expected.size == size && s.expected.sha256@ == sha256
}

/// Starts to certify the final file of a transfer.
pub fn certify_final_file_for_history(
    platform: Platform,
    final_path: &str,
    expected_size: u64,
    expected_sha256: &str,
) -> (next: CertifyNext)
    ensures
        certifying_opens(platform, final_path@, expected_size, expected_sha256@, next),
{
    CertifyNext::Open(
        CertifyOpen {
            expected: Expected {
                platform,
                path: final_path.to_string(),
                size: expected_size,
                sha256: expected_sha256.to_string(),
            },
        },
    )
}

/// The step after the file was opened, or could not be. Reading starts only for a
/// file of the expected length.
pub open spec fn file_opened(
    state: CertifyOpen,
    outcome: Result<OpenedFile, AppError>,
    next: CertifyNext,
) -> bool {
    match outcome {
        Err(e) => certifying_ends(next, Err(e@)),
        Ok(file) => if file.len != state.expected.size {
            certifying_ends(
                next,
                Err(
                    AppErrorView::Validation(
                        "最终文件长度与任务不一致: path="@ + state.expected.path@ + ", len="@ + decimal(
                            file.len as nat,
                        ) + (", expected="@ + decimal(state.expected.size as nat)),
                    ),
                ),
            )
        } else {
            match file.identity {
                Err(e) => certifying_ends(next, Err(e@)),
                Ok(bound) => next matches CertifyNext::Read(s) && s.expected == state.expected
                    && s.bound == bound && s.hasher@ == Seq::<u8>::empty(),
            }
        },
    }
}

impl CertifyOpen {
    /// The file has been opened, or could not be.
    pub fn opened(self, outcome: Result<OpenedFile, AppError>) -> (next: CertifyNext)
        ensures
            file_opened(self, outcome, next),
    {
        let file = match outcome {
            Ok(f) => f,
            Err(e) => {
                return CertifyNext::Done(Err(e));
            },
        };
        if file.len != self.expected.size {
            let len = decimal_of(file.len);
            let size = decimal_of(self.expected.size);
            let tail = join2(", expected=", size.as_str());
            return CertifyNext::Done(
                Err(
                    AppError::validation(
                        join5(
                            "最终文件长度与任务不一致: path=",
                            self.expected.path.as_str(),
                            ", len=",
                            len.as_str(),
                            tail.as_str(),
                        ),
                    ),
                ),
            );
        }
        match file.identity {
            Err(e) => CertifyNext::Done(Err(e)),
            Ok(bound) => CertifyNext::Read(
                CertifyRead { expected: self.expected, bound, hasher: ContentHasher::new() },
            ),
        }
    }
}

/// The step after a block was read, an empty one at the end of the file. Only
/// contents with the expected hash are synced.
pub open spec fn block_read(
    state: CertifyRead,
    block: Result<Seq<u8>, AppErrorView>,
    next: CertifyNext,
) -> bool {
    match block {
        Err(e) => certifying_ends(next, Err(e)),
        Ok(b) => if b.len() > 0 {
            next matches CertifyNext::Read(s) && s.expected == state.expected && s.bound == state.bound
                && s.hasher@ == state.hasher@ + b
        } else if content_sha(state.hasher@) != state.expected.sha256@ {
            certifying_ends(
                next,
                Err(
                    AppErrorView::Validation(
                        "最终文件 SHA256 与任务不一致（可能被替换）: path="@ + state.expected.path@
                            + ", actual="@ + content_sha(state.hasher@) + (", expected="@
                            + state.expected.sha256@),
                    ),
                ),
            )
        } else {
            next matches CertifyNext::SyncFile(s) && s.expected == state.expected && s.bound
                == state.bound
        },
    }
}

/// What a block that was read, or the error in its place, says.
pub open spec fn block_view(block: Result<&[u8], AppError>) -> Result<Seq<u8>, AppErrorView> {
    match block {
        Ok(b) => Ok(b@),
        Err(e) => Err(e@),
    }
}

impl CertifyRead {
    /// A block has been read, an empty one at the end of the file.
    pub fn read(self, block: Result<&[u8], AppError>) -> (next: CertifyNext)
        requires
            block matches Ok(b) ==> self.hasher@.len() + b@.len() < HASH_LIMIT,
        ensures
            block_read(self, block_view(block), next),
    {
        let bytes = match block {
            Ok(b) => b,
            Err(e) => {
                return CertifyNext::Done(Err(e));
            },
        };
        let actual = match self.hasher.read(bytes) {
            HashNext::More(hasher) => {
                return CertifyNext::Read(
                    CertifyRead { expected: self.expected, bound: self.bound, hasher },
                );
            },
            HashNext::Done(sha) => sha,
        };
        if !same(actual.as_str(), self.expected.sha256.as_str()) {
            let tail = join2(", expected=", self.expected.sha256.as_str());
            return CertifyNext::Done(
                Err(
                    AppError::validation(
                        join5(
                            "最终文件 SHA256 与任务不一致（可能被替换）: path=",
                            self.expected.path.as_str(),
                            ", actual=",
                            actual.as_str(),
                            tail.as_str(),
                        ),
                    ),
                ),
            );
        }
        CertifyNext::SyncFile(CertifySync { expected: self.expected, bound: self.bound })
    }
}

/// The step after the open file was synced, or not.
pub open spec fn file_synced(
    state: CertifySync,
    outcome: Result<(), AppErrorView>,
    next: CertifyNext,
) -> bool {
    match outcome {
        Err(e) => certifying_ends(next, Err(e)),
        Ok(_) => if parent_of(parts(state.expected.platform, state.expected.path@)) is Some {
            next matches CertifyNext::SyncParent(s) && s.expected == state.expected && s.bound
                == state.bound
        } else {
            next matches CertifyNext::Identify(s) && s.expected == state.expected && s.bound
                == state.bound
        },
    }
}

impl CertifySync {
    /// The open file has been synced, or not.
    pub fn synced(self, outcome: Result<(), AppError>) -> (next: CertifyNext)
        ensures
            file_synced(self, unit(outcome), next),
    {
        match outcome {
            Err(e) => CertifyNext::Done(Err(e)),
            Ok(()) => if LexPath::parse(self.expected.platform, self.expected.path.as_str()).parent().is_some() {
                CertifyNext::SyncParent(
                    CertifyParent { expected: self.expected, bound: self.bound },
                )
            } else {
                CertifyNext::Identify(
                    CertifyIdentify { expected: self.expected, bound: self.bound },
                )
            },
        }
    }
}

/// The step after the directory was synced, or not.
pub open spec fn directory_synced(
    state: CertifyParent,
    outcome: Result<(), AppErrorView>,
    next: CertifyNext,
) -> bool {
    match outcome {
        Err(e) => certifying_ends(next, Err(e)),
        Ok(_) => next matches CertifyNext::Identify(s) && s.expected == state.expected && s.bound
            == state.bound,
    }
}

impl CertifyParent {
    /// The directory has been synced, or not.
    pub fn synced(self, outcome: Result<(), AppError>) -> (next: CertifyNext)
        ensures
            directory_synced(self, unit(outcome), next),
    {
        match outcome {
            Err(e) => CertifyNext::Done(Err(e)),
            Ok(()) => CertifyNext::Identify(
                CertifyIdentify { expected: self.expected, bound: self.bound },
            ),
        }
    }
}

/// The end of certifying once the directory entry was looked at: it must still
/// stand for the file that was read and synced.
pub open spec fn entry_identified(
    state: CertifyIdentify,
    outcome: Result<BoundFileIdentity, AppErrorView>,
    next: CertifyNext,
) -> bool {
    certifying_ends(
        next,
        match outcome {
            Err(e) => Err(e),
            Ok(id) => if id != state.bound {
                Err(
                    AppErrorView::Validation(
                        "最终文件目录项身份已变化（可能被原子替换），拒绝写 Completed history: "@
                            + state.expected.path@,
                    ),
                )
            } else {
                Ok(())
            },
        },
    )
}

impl CertifyIdentify {
    /// The directory entry has been looked at.
    pub fn identified(self, outcome: Result<BoundFileIdentity, AppError>) -> (next: CertifyNext)
        ensures
            entry_identified(self, identity_view(outcome), next),
    {
        match outcome {
            Err(e) => CertifyNext::Done(Err(e)),
            Ok(id) => if id != self.bound {
                CertifyNext::Done(
                    Err(
                        AppError::validation(
                            join2(
                                "最终文件目录项身份已变化（可能被原子替换），拒绝写 Completed history: ",
                                self.expected.path.as_str(),
                            ),
                        ),
                    ),
                )
            } else {
                CertifyNext::Done(Ok(()))
            },
        }
    }
}

// ---------------------------------------------------------------------------
// Laws
// ---------------------------------------------------------------------------
/// Two files with one identity are one file: the same volume, and both halves of
/// the index alike.
pub proof fn an_identity_tells_files_apart(
    a: BoundFileIdentity,
    b: BoundFileIdentity,
    volume_a: u32,
    high_a: u32,
    low_a: u32,
    volume_b: u32,
    high_b: u32,
    low_b: u32,
)
    requires
        identifies(a, volume_a, high_a, low_a),
        identifies(b, volume_b, high_b, low_b),
    ensures
        a == b <==> volume_a == volume_b && high_a == high_b && low_a == low_b,
        a.index / 0x1_0000_0000 == high_a,
        a.index % 0x1_0000_0000 == low_a,
{
}

/// The blocks that were read lead from `first` to `last`.
pub open spec fn reads_through(
    first: CertifyRead,
    blocks: Seq<Seq<u8>>,
    last: CertifyRead,
) -> bool
    decreases blocks.len(),
{
    if blocks.len() == 0 {
        first == last
    } else {
        exists|before: CertifyRead|
            blocks.last().len() > 0 && #[trigger] block_read(
                before,
                Ok(blocks.last()),
                CertifyNext::Read(last),
            ) && reads_through(first, blocks.drop_last(), before)
    }
}

proof fn lemma_reads_through(first: CertifyRead, blocks: Seq<Seq<u8>>, last: CertifyRead)
    requires
        reads_through(first, blocks, last),
    ensures
        last.expected == first.expected,
        last.bound == first.bound,
        last.hasher@ == first.hasher@ + strung_together(blocks),
    decreases blocks.len(),
{
    if blocks.len() > 0 {
        let before = choose|before: CertifyRead|
            blocks.last().len() > 0 && #[trigger] block_read(
                before,
                Ok(blocks.last()),
                CertifyNext::Read(last),
            ) && reads_through(first, blocks.drop_last(), before);
        lemma_reads_through(first, blocks.drop_last(), before);
        assert(last.hasher@ =~= first.hasher@ + strung_together(blocks));
    } else {
        assert(last.hasher@ =~= first.hasher@ + strung_together(blocks));
    }
}

/// A file is certified only if, from its opening to its end, it was the promised
/// one: of the promised length, with the promised contents, synced with its
/// directory, and still the one that its directory entry stands for.
pub proof fn only_the_promised_file_is_certified(
    platform: Platform,
    path: Seq<char>,
    size: u64,
    sha256: Seq<char>,
    begun: CertifyNext,
    file: Result<OpenedFile, AppError>,
    opened: CertifyNext,
    blocks: Seq<Seq<u8>>,
    last: CertifyRead,
    read: CertifyNext,
    sync: Result<(), AppErrorView>,
    synced: CertifyNext,
    parent_sync: Result<(), AppErrorView>,
    parent_synced: CertifyNext,
    entry: Result<BoundFileIdentity, AppErrorView>,
    identify: CertifyIdentify,
    done: CertifyNext,
)
    requires
        certifying_opens(platform, path, size, sha256, begun),
        begun matches CertifyNext::Open(o) ==> file_opened(o, file, opened),
        opened matches CertifyNext::Read(first) ==> reads_through(first, blocks, last),
        opened is Read ==> block_read(last, Ok(Seq::<u8>::empty()), read),
        read matches CertifyNext::SyncFile(s) ==> file_synced(s, sync, synced),
        synced matches CertifyNext::SyncParent(s) ==> directory_synced(s, parent_sync, parent_synced),
        synced matches CertifyNext::Identify(s) ==> identify == s,
        synced is SyncParent ==> (parent_synced matches CertifyNext::Identify(s) ==> identify == s),
        entry_identified(identify, entry, done),
        opened is Read,
        read is SyncFile,
        synced is Identify || (synced is SyncParent && parent_synced is Identify),
    ensures
        file matches Ok(f) && f.len == size && (f.identity matches Ok(bound) && (
        done matches CertifyNext::Done(Ok(_)) <==> entry == Ok::<BoundFileIdentity, AppErrorView>(
            bound,
        ))),
        content_sha(strung_together(blocks)) == sha256,
        sync is Ok,
        parent_of(parts(platform, path)) is Some ==> synced is SyncParent && parent_sync is Ok,
{
    if let CertifyNext::Read(first) = opened {
        lemma_reads_through(first, blocks, last);
        assert(last.hasher@ =~= strung_together(blocks));
    }
}

/// Whatever is wrong with a file is reported: a failure as it is, a wrong length
/// with both, wrong contents with both hashes, and another file under the entry
/// with the path.
pub proof fn what_is_wrong_with_a_file_is_reported(
    open: CertifyOpen,
    file: Result<OpenedFile, AppError>,
    opened: CertifyNext,
    reading: CertifyRead,
    block: Result<Seq<u8>, AppErrorView>,
    read: CertifyNext,
    sync: CertifySync,
    parent: CertifyParent,
    outcome: Result<(), AppErrorView>,
    synced: CertifyNext,
    parent_synced: CertifyNext,
    identify: CertifyIdentify,
    entry: Result<BoundFileIdentity, AppErrorView>,
    done: CertifyNext,
)
    requires
        file_opened(open, file, opened),
        block_read(reading, block, read),
        file_synced(sync, outcome, synced),
        directory_synced(parent, outcome, parent_synced),
        entry_identified(identify, entry, done),
    ensures
        file matches Err(e) ==> (opened matches CertifyNext::Done(Err(x)) && x@ == e@),
        file matches Ok(f) ==> {
            &&& f.len != open.expected.size ==> (opened matches CertifyNext::Done(Err(x)) && x@
                == AppErrorView::Validation(
                "最终文件长度与任务不一致: path="@ + open.expected.path@ + ", len="@ + decimal(
                    f.len as nat,
                ) + (", expected="@ + decimal(open.expected.size as nat)),
            ))
            &&& f.len == open.expected.size ==> (f.identity matches Err(e) ==> (
            opened matches CertifyNext::Done(Err(x)) && x@ == e@))
            &&& f.len == open.expected.size ==> (f.identity matches Ok(bound) ==> (
            opened matches CertifyNext::Read(r) && r.bound == bound && r.expected == open.expected
                && r.hasher@.len() == 0))
        },
        block matches Err(e) ==> (read matches CertifyNext::Done(Err(x)) && x@ == e),
        block matches Ok(b) ==> {
            &&& b.len() > 0 ==> (read matches CertifyNext::Read(r) && r.hasher@ == reading.hasher@ + b
                && r.expected == reading.expected && r.bound == reading.bound)
            &&& b.len() == 0 && content_sha(reading.hasher@) == reading.expected.sha256@ ==> (
            read matches CertifyNext::SyncFile(s) && s.expected == reading.expected && s.bound
                == reading.bound)
            &&& b.len() == 0 && content_sha(reading.hasher@) != reading.expected.sha256@ ==> (
            read matches CertifyNext::Done(Err(x)) && x@ == AppErrorView::Validation(
                "最终文件 SHA256 与任务不一致（可能被替换）: path="@ + reading.expected.path@ + ", actual="@
                    + content_sha(reading.hasher@) + (", expected="@ + reading.expected.sha256@),
            ))
        },
        outcome matches Err(e) ==> (synced matches CertifyNext::Done(Err(x)) && x@ == e) && (
        parent_synced matches CertifyNext::Done(Err(y)) && y@ == e),
        outcome is Ok ==> (parent_synced matches CertifyNext::Identify(s) && s.expected == parent.expected
            && s.bound == parent.bound),
        entry matches Err(e) ==> (done matches CertifyNext::Done(Err(x)) && x@ == e),
        entry matches Ok(id) ==> (id == identify.bound <==> (done matches CertifyNext::Done(Ok(_)))),
        entry matches Ok(id) ==> (id != identify.bound ==> (done matches CertifyNext::Done(Err(x)) && x@
            == AppErrorView::Validation(
            "最终文件目录项身份已变化（可能被原子替换），拒绝写 Completed history: "@
                + identify.expected.path@,
        ))),
{
}

/// Which file an entry stands for is found through its own directory, by its own
/// name; a path without either, or with a zero in it, is refused, and so is a
/// directory or an entry that leads elsewhere. The identity that is reported is
/// that of the entry.
pub proof fn an_entry_is_identified_through_its_directory(
    platform: Platform,
    path: Seq<char>,
    sought: DirentNext,
    parent: DirentParent,
    opened: Result<u32, AppError>,
    after_parent: DirentNext,
    child: DirentChild,
    outcome: Result<ChildFacts, IoFailure>,
    done: DirentNext,
)
    requires
        entry_sought(platform, path, sought),
        directory_opened(parent, opened, after_parent),
        entry_opened(child, outcome, done),
    ensures
        sought matches DirentNext::OpenParent(s) ==> s.platform == platform && s.path@ == path && Some(
            s.name@,
        ) == file_name_of(parts(platform, path)) && (parent_of(parts(platform, path)) matches Some(p)
            && s.parent@ == rendered(platform, p)) && platform != Platform::Other
            && !s.parent@.contains('\0') && !s.name@.contains('\0'),
        !(sought is OpenParent) ==> (sought matches DirentNext::Done(Err(_))),
        parent_of(parts(platform, path)) is None || file_name_of(parts(platform, path)) is None
            || platform == Platform::Other ==> (sought matches DirentNext::Done(Err(_))),
        opened matches Err(e) ==> (after_parent matches DirentNext::Done(Err(x)) && x@ == e@),
        after_parent matches DirentNext::OpenChild(s) ==> s.platform == parent.platform && s.path@
            == parent.path@ && s.name@ == parent.name@,
        opened is Ok && (parent.platform == Platform::Linux || parent.platform == Platform::MacOs
            || parent.platform == Platform::OtherUnix) ==> after_parent is OpenChild,
        opened matches Ok(attributes) ==> (parent.platform == Platform::Windows && ((attributes / 16) % 2
            == 0 || (attributes / 1024) % 2 == 1) ==> (after_parent matches DirentNext::Done(Err(_)))),
        !(after_parent is OpenChild) ==> (after_parent matches DirentNext::Done(Err(_))),
        outcome matches Ok(facts) ==> (child.platform == Platform::Windows && ((facts.attributes / 16) % 2
            == 1 || (facts.attributes / 1024) % 2 == 1) ==> (done matches DirentNext::Done(Err(_)))),
        outcome matches Ok(facts) ==> (child.platform == Platform::Linux || child.platform
            == Platform::MacOs || child.platform == Platform::OtherUnix || ((facts.attributes / 16) % 2
            == 0 && (facts.attributes / 1024) % 2 == 0) ==> (done matches DirentNext::Done(r)
            && identity_view(r) == identity_view(facts.identity))),
        outcome matches Err(f) ==> (done matches DirentNext::Done(Err(AppError::Io(g))) && g@.kind
            == f@.kind),
{
    if let Ok(attributes) = opened {
        assert(attributes & 0x10 != 0 <==> (attributes / 16) % 2 == 1) by (bit_vector);
        assert(attributes & 0x400 != 0 <==> (attributes / 1024) % 2 == 1) by (bit_vector);
    }
    if let Ok(facts) = outcome {
        let attributes = facts.attributes;
        assert(attributes & 0x10 != 0 <==> (attributes / 16) % 2 == 1) by (bit_vector);
        assert(attributes & 0x400 != 0 <==> (attributes / 1024) % 2 == 1) by (bit_vector);
    }
}

} // verus!

//! Names that come from a peer, and the directory that received files must
//! stay in.
use vstd::prelude::*;

use crate::error::{AppError, AppErrorView};
use crate::paths::{
    alike, begins_with, file_name_of, has_drive, join_path, joined, joined_name_is_below, normal,
    normal_has_no_dots, one_name, parent_of, parts, same_parts, same_prefix, starts_with_drive,
    takes_names, LexPath, Part, PathPart,
};
use crate::platform::Platform;
use crate::receiver::InitMeta;
use crate::task::{TaskView, TransferTask};
use crate::text::{
    contains_char, is_white, join2, join3, same, trim, trimmed, trimmed_has_no_white_ends,
    trimming_takes_only_white_off,
};

verus! {

broadcast use vstd::string::group_string_axioms;

/// Whether `meta`, with its cleaned file name, describes the file that `task`
/// receives.
pub open spec fn describes(task: TaskView, meta: InitMeta, safe_filename: Seq<char>) -> bool {
    &&& task.filename == safe_filename
    &&& task.size == meta.size
    &&& task.sha256 == meta.sha256@
    &&& task.chunk_size == meta.chunk_size
}

/// Whether `meta` describes the file that `task` receives.
pub fn init_metadata_matches(task: &TransferTask, meta: &InitMeta, safe_filename: &str) -> (matches:
    bool)
    ensures
        matches == describes(task@, *meta, safe_filename@),
{
    same(task.filename.as_str(), safe_filename) && task.size == meta.size && same(
        task.sha256.as_str(),
        meta.sha256.as_str(),
    ) && task.chunk_size == meta.chunk_size
}

// ---------------------------------------------------------------------------
// Base names
// ---------------------------------------------------------------------------
/// A name that may stand for a received file: one path component, with no
/// separator of any platform, no NUL, and no white space at its ends. On Windows
/// it does not start with a drive.
pub open spec fn safe_name(platform: Platform, n: Seq<char>) -> bool {
    &&& n.len() > 0
    &&& !n.contains('/')
    &&& !n.contains('\\')
    &&& !n.contains('\0')
    &&& n != "."@
    &&& n != ".."@
    &&& trimmed(n) == n
    &&& platform == Platform::Windows ==> !has_drive(n)
}

/// Why the name `n` is refused for the field `field`.
pub open spec fn refusal(n: Seq<char>, field: Seq<char>) -> AppErrorView {
    if n.len() == 0 {
        AppErrorView::Validation(field + " 不能为空"@)
    } else if n.contains('/') || n.contains('\\') || n.contains('\0') {
        AppErrorView::Validation(field + " 只能是单个文件名组件，禁止路径分隔符"@)
    } else {
        AppErrorView::Validation(field + " 只能是单个普通文件名组件，禁止绝对路径、父目录或前缀"@)
    }
}

/// The cleaned form of a name given by a peer, or why it is refused.
pub open spec fn sanitized(platform: Platform, raw: Seq<char>, field: Seq<char>) -> Result<
    Seq<char>,
    AppErrorView,
> {
    if safe_name(platform, trimmed(raw)) {
        Ok(trimmed(raw))
    } else {
        Err(refusal(trimmed(raw), field))
    }
}

/// What a `Result` of a string says.
pub open spec fn named(r: Result<String, AppError>) -> Result<Seq<char>, AppErrorView> {
    match r {
        Ok(s) => Ok(s@),
        Err(e) => Err(e@),
    }
}

/// What a `Result` without a value says.
pub open spec fn unit(r: Result<(), AppError>) -> Result<(), AppErrorView> {
    match r {
        Ok(()) => Ok(()),
        Err(e) => Err(e@),
    }
}

/// Cleans a name given by a peer, or refuses it in the name of `field`.
pub fn sanitize_receive_basename(platform: Platform, raw: &str, field: &str) -> (name: Result<
    String,
    AppError,
>)
    ensures
        named(name) == sanitized(platform, raw@, field@),
{
    let name = trim(raw);
    proof {
        trimmed_has_no_white_ends(raw@);
    }
    if name.as_str().is_empty() {
        return Err(AppError::validation(join2(field, " 不能为空")));
    }
    if contains_char(name.as_str(), '/') || contains_char(name.as_str(), '\\') || contains_char(
        name.as_str(),
        '\0',
    ) {
        return Err(AppError::validation(join2(field, " 只能是单个文件名组件，禁止路径分隔符")));
    }
    let drive = match platform {
        Platform::Windows => starts_with_drive(name.as_str()),
        _ => false,
    };
    if same(name.as_str(), ".") || same(name.as_str(), "..") || drive {
        return Err(
            AppError::validation(
                join2(field, " 只能是单个普通文件名组件，禁止绝对路径、父目录或前缀"),
            ),
        );
    }
    Ok(name)
}

/// A cleaned name is exactly one part of a path, stays itself when cleaned
/// again, and below a directory it is that directory's own child.
pub proof fn a_sanitized_name_stays_in_its_directory(
    platform: Platform,
    raw: Seq<char>,
    field: Seq<char>,
    dir: Seq<char>,
)
    requires
        sanitized(platform, raw, field) is Ok,
        takes_names(platform, dir),
    ensures
        ({
            let n = sanitized(platform, raw, field)->Ok_0;
            &&& one_name(platform, n)
            &&& sanitized(platform, n, field) == sanitized(platform, raw, field)
            &&& parts(platform, joined(platform, dir, n)) == parts(platform, dir).push(Part::Name(n))
        }),
{
    let n = sanitized(platform, raw, field)->Ok_0;
    trimmed_has_no_white_ends(raw);
    joined_name_is_below(platform, dir, n);
}

// ---------------------------------------------------------------------------
// Staying below a directory
// ---------------------------------------------------------------------------
/// The directory as the file system resolved it, or as it is written where it
/// could not be resolved.
pub open spec fn resolved_dir(
    platform: Platform,
    dir: Seq<char>,
    canonical_dir: Option<Seq<char>>,
) -> Seq<Part> {
    match canonical_dir {
        Some(p) => parts(platform, p),
        None => normal(parts(platform, dir)),
    }
}

/// What follows the directory in the path of a parent: what is written after the
/// directory, or after the directory as resolved; or else the whole parent.
pub open spec fn below(parent: Seq<Part>, dir: Seq<Part>, base: Seq<Part>) -> Seq<Part> {
    if begins_with(parent, dir) {
        parent.skip(dir.len() as int)
    } else if begins_with(parent, base) {
        parent.skip(base.len() as int)
    } else {
        parent
    }
}

/// The parent of `candidate` as the file system resolved it; where it could not
/// be resolved, its writing seen from the resolved directory, with every `..`
/// taken back.
pub open spec fn resolved_parent(
    platform: Platform,
    dir: Seq<char>,
    candidate: Seq<char>,
    canonical_dir: Option<Seq<char>>,
    canonical_parent: Option<Seq<char>>,
) -> Seq<Part> {
    let base = resolved_dir(platform, dir, canonical_dir);
    let parent = match parent_of(parts(platform, candidate)) {
        Some(p) => p,
        None => parts(platform, dir),
    };
    match canonical_parent {
        Some(p) => parts(platform, p),
        None => if same_parts(parent, parts(platform, dir)) {
            base
        } else {
            normal(base + below(parent, parts(platform, dir), base))
        },
    }
}

/// Whether `candidate` stays below `dir`, or why it is refused.
pub open spec fn stays_within(
    platform: Platform,
    dir: Seq<char>,
    candidate: Seq<char>,
    canonical_dir: Option<Seq<char>>,
    canonical_parent: Option<Seq<char>>,
) -> Result<(), AppErrorView> {
    if !begins_with(
        resolved_parent(platform, dir, candidate, canonical_dir, canonical_parent),
        resolved_dir(platform, dir, canonical_dir),
    ) {
        Err(AppErrorView::Validation("目标路径逃逸 receive_dir，拒绝写入"@))
    } else if file_name_of(parts(platform, candidate)) is None {
        Err(AppErrorView::Validation("目标路径缺少文件名"@))
    } else {
        Ok(())
    }
}

/// The characters of an optional string slice.
pub open spec fn opt_str(s: Option<&str>) -> Option<Seq<char>> {
    match s {
        Some(s) => Some(s@),
        None => None,
    }
}

/// Checks that `candidate` stays below `dir`.
///
/// `canonical_dir` is `dir` as the file system resolved it, `canonical_parent`
/// likewise the parent of `candidate` (or `dir`, where `candidate` has none);
/// `None` where it could not be resolved.
pub fn ensure_path_within_dir(
    platform: Platform,
    dir: &str,
    candidate: &str,
    canonical_dir: Option<&str>,
    canonical_parent: Option<&str>,
) -> (checked: Result<(), AppError>)
    ensures
        unit(checked) == stays_within(
            platform,
            dir@,
            candidate@,
            opt_str(canonical_dir),
            opt_str(canonical_parent),
        ),
{
    let dir_path = LexPath::parse(platform, dir);
    let candidate_path = LexPath::parse(platform, candidate);
    let base = match canonical_dir {
        Some(p) => LexPath::parse(platform, p),
        None => dir_path.normalized(),
    };
    let parent = match candidate_path.parent() {
        Some(p) => p,
        None => dir_path.clone(),
    };
    let resolved = match canonical_parent {
        Some(p) => LexPath::parse(platform, p),
        None => if parent.equals(&dir_path) {
            base.clone()
        } else {
            let from: usize = if parent.starts_with(&dir_path) {
                dir_path.parts.len()
            } else if parent.starts_with(&base) {
                base.parts.len()
            } else {
                0
            };
            proof {
                assert(parent@.skip(0) =~= parent@);
            }
            base.extended(&parent.parts, from).normalized()
        },
    };
    if !resolved.starts_with(&base) {
        return Err(AppError::validation("目标路径逃逸 receive_dir，拒绝写入".to_string()));
    }
    let file_name = match candidate_path.file_name() {
        Some(name) => name,
        None => {
            return Err(AppError::validation("目标路径缺少文件名".to_string()));
        },
    };
    let mut last: Vec<PathPart> = Vec::new();
    last.push(PathPart::Name(file_name));
    let final_path = resolved.extended(&last, 0);
    proof {
        assert(forall|i: int| 0 <= i < resolved@.len() ==> final_path@[i] == resolved@[i]);
    }
    if !final_path.starts_with(&base) {
        return Err(AppError::validation("目标路径逃逸 receive_dir，拒绝写入".to_string()));
    }
    Ok(())
}

proof fn lemma_alike_itself(p: Seq<Part>)
    ensures
        same_parts(p, p),
{
    assert forall|i: int| 0 <= i < p.len() implies #[trigger] alike(p[i], p[i]) by {
        if let Part::Prefix(t) = p[i] {
            assert(same_prefix(t, t));
        }
    }
}

/// A single name below a directory passes the check whenever the directory and
/// the parent were resolved alike, or neither could be resolved.
pub proof fn a_name_below_its_directory_is_accepted(
    platform: Platform,
    dir: Seq<char>,
    name: Seq<char>,
    canonical: Option<Seq<char>>,
)
    requires
        one_name(platform, name),
        takes_names(platform, dir),
    ensures
        stays_within(platform, dir, joined(platform, dir, name), canonical, canonical) is Ok,
{
    joined_name_is_below(platform, dir, name);
    lemma_alike_itself(parts(platform, dir));
    lemma_alike_itself(resolved_dir(platform, dir, canonical));
}

/// A path without `.` and without `..`, as a file system resolves one.
pub open spec fn without_dots(p: Seq<Part>) -> bool {
    forall|i: int| 0 <= i < p.len() ==> !((#[trigger] p[i]) is Up) && !(p[i] is Cur)
}

/// A candidate that was accepted lies below the directory as resolved, and no
/// `..` leads out of it: the place that was checked is the directory and then
/// neither `..` nor `.`, whether or not the parent could be resolved.
pub proof fn an_accepted_candidate_lies_below(
    platform: Platform,
    dir: Seq<char>,
    candidate: Seq<char>,
    canonical_dir: Option<Seq<char>>,
    canonical_parent: Option<Seq<char>>,
)
    requires
        stays_within(platform, dir, candidate, canonical_dir, canonical_parent) is Ok,
        canonical_parent matches Some(p) ==> without_dots(parts(platform, p)),
    ensures
        ({
            let base = resolved_dir(platform, dir, canonical_dir);
            let name = file_name_of(parts(platform, candidate))->0;
            let place = resolved_parent(
                platform,
                dir,
                candidate,
                canonical_dir,
                canonical_parent,
            ).push(Part::Name(name));
            &&& file_name_of(parts(platform, candidate)) is Some
            &&& begins_with(place, base)
            &&& place.len() > base.len()
            &&& without_dots(place.skip(base.len() as int))
        }),
{
    let base = resolved_dir(platform, dir, canonical_dir);
    let rp = resolved_parent(platform, dir, candidate, canonical_dir, canonical_parent);
    let name = file_name_of(parts(platform, candidate))->0;
    let place = rp.push(Part::Name(name));
    assert forall|i: int| 0 <= i < base.len() implies #[trigger] alike(place[i], base[i]) by {
        assert(alike(rp[i], base[i]));
    }
    let parent = match parent_of(parts(platform, candidate)) {
        Some(p) => p,
        None => parts(platform, dir),
    };
    if canonical_parent is None {
        normal_has_no_dots(base + below(parent, parts(platform, dir), base));
    }
    assert forall|i: int| 0 <= i < place.skip(base.len() as int).len() implies !((
    #[trigger] place.skip(base.len() as int)[i]) is Up) && !(place.skip(base.len() as int)[i] is Cur) by {
        let j = base.len() + i;
        assert(place.skip(base.len() as int)[i] == place[j]);
        if j < rp.len() {
            assert(place[j] == rp[j]);
        }
    }
}

/// A candidate whose parent could not be resolved, and which is written with more
/// `..` than there are names to take back, is refused: a path of the form
/// `dir/../other/name` leaves `dir` unless it is the directory itself.
pub proof fn a_way_up_is_refused(
    platform: Platform,
    dir: Seq<char>,
    candidate: Seq<char>,
    canonical_dir: Seq<char>,
    other: Seq<char>,
    name: Seq<char>,
)
    requires
        parts(platform, candidate) == parts(platform, dir) + seq![
            Part::Up,
            Part::Name(other),
            Part::Name(name),
        ],
        file_name_of(parts(platform, canonical_dir)) is Some,
        file_name_of(parts(platform, canonical_dir)) != Some(other),
        normal(parts(platform, canonical_dir)) == parts(platform, canonical_dir),
    ensures
        stays_within(platform, dir, candidate, Some(canonical_dir), None) is Err,
{
    let d = parts(platform, dir);
    let base = parts(platform, canonical_dir);
    let parent = d + seq![Part::Up, Part::Name(other)];
    assert(parts(platform, candidate).drop_last() =~= parent);
    lemma_alike_itself(d);
    assert forall|i: int| 0 <= i < d.len() implies #[trigger] alike(parent[i], d[i]) by {
        assert(alike(d[i], d[i]));
    }
    let rel = parent.skip(d.len() as int);
    assert(rel =~= seq![Part::Up, Part::Name(other)]);
    let whole = base + rel;
    assert(whole.drop_last() =~= base.push(Part::Up));
    assert(base.push(Part::Up).drop_last() =~= base);
    assert(normal(whole.drop_last()) == base.drop_last());
    let place = normal(whole);
    assert(place =~= base.drop_last().push(Part::Name(other)));
    let last = base.len() - 1;
    assert(place[last] == Part::Name(other));
    assert(!alike(place[last], base[last]));
}

// ---------------------------------------------------------------------------
// The temporary file
// ---------------------------------------------------------------------------
/// The name of the temporary file of a transfer.
pub open spec fn tmp_name(transfer_id: Seq<char>) -> Seq<char> {
    "."@ + transfer_id + ".tmp"@
}

/// The path of the temporary file of a transfer, or why there is none.
pub open spec fn tmp_path(
    platform: Platform,
    dir: Seq<char>,
    transfer_id: Seq<char>,
    canonical_dir: Option<Seq<char>>,
    canonical_parent: Option<Seq<char>>,
) -> Result<Seq<char>, AppErrorView> {
    let name = tmp_name(transfer_id);
    let path = joined(platform, dir, name);
    match sanitized(platform, name, "transfer_id_tmp"@) {
        Err(e) => Err(e),
        Ok(_) => match stays_within(platform, dir, path, canonical_dir, canonical_parent) {
            Err(e) => Err(e),
            Ok(_) => Ok(path),
        },
    }
}

/// The path of the temporary file of `transfer_id` below `receive_dir`.
pub fn receive_tmp_path(
    platform: Platform,
    receive_dir: &str,
    transfer_id: &str,
    canonical_dir: Option<&str>,
    canonical_parent: Option<&str>,
) -> (path: Result<String, AppError>)
    ensures
        named(path) == tmp_path(
            platform,
            receive_dir@,
            transfer_id@,
            opt_str(canonical_dir),
            opt_str(canonical_parent),
        ),
{
    let name = join3(".", transfer_id, ".tmp");
    match sanitize_receive_basename(platform, name.as_str(), "transfer_id_tmp") {
        Ok(_) => {},
        Err(e) => {
            return Err(e);
        },
    }
    let path = join_path(platform, receive_dir, name.as_str());
    match ensure_path_within_dir(
        platform,
        receive_dir,
        path.as_str(),
        canonical_dir,
        canonical_parent,
    ) {
        Ok(()) => Ok(path),
        Err(e) => Err(e),
    }
}

/// A transfer with a clean id has a temporary file, in the receive directory
/// itself, whenever the directory resolves to one place.
pub proof fn a_clean_id_has_a_temporary_file(
    platform: Platform,
    dir: Seq<char>,
    id: Seq<char>,
    canonical: Option<Seq<char>>,
)
    requires
        safe_name(platform, id),
        takes_names(platform, dir),
    ensures
        tmp_path(platform, dir, id, canonical, canonical) == Ok::<Seq<char>, AppErrorView>(
            joined(platform, dir, tmp_name(id)),
        ),
        parts(platform, joined(platform, dir, tmp_name(id))) == parts(platform, dir).push(
            Part::Name(tmp_name(id)),
        ),
{
    reveal_strlit(".");
    reveal_strlit("..");
    reveal_strlit(".tmp");
    let n = tmp_name(id);
    assert(n.len() == id.len() + 5);
    assert(n[0] == '.');
    assert(n.last() == 'p');
    assert(n != ".."@ && n != "."@);
    assert forall|c: char| c == '/' || c == '\\' || c == '\0' implies !(#[trigger] n.contains(c)) by {
        if n.contains(c) {
            let i = choose|i: int| 0 <= i < n.len() && n[i] == c;
            if 1 <= i <= id.len() {
                assert(id[i - 1] == c);
                assert(id.contains(c));
            }
        }
    }
    assert(trimmed(n) == n);
    assert(safe_name(platform, n));
    a_name_below_its_directory_is_accepted(platform, dir, n, canonical);
    joined_name_is_below(platform, dir, n);
}

/// A name is kept as it is exactly when it is one clean name: not empty, without
/// white space at its ends, without separators and zeros, neither of the two dot
/// names, and on Windows without a drive. What is refused is invalid, and what is
/// accepted is the name without the white space around it.
pub proof fn a_clean_name_is_kept(platform: Platform, raw: Seq<char>, field: Seq<char>)
    ensures
        ({
            let clean = raw.len() > 0 && !is_white(raw[0]) && !is_white(raw.last()) && !raw.contains('/')
                && !raw.contains('\\') && !raw.contains('\0') && raw != "."@ && raw != ".."@ && (platform
                == Platform::Windows ==> !(raw.len() >= 2 && raw[1] == ':' && ('a' <= raw[0] <= 'z' || 'A'
                <= raw[0] <= 'Z')));
            clean <==> sanitized(platform, raw, field) == Ok::<Seq<char>, AppErrorView>(raw)
        }),
        sanitized(platform, raw, field) matches Ok(name) ==> name == trimmed(raw) && name.len() > 0
            && !name.contains('/') && !name.contains('\\') && !name.contains('\0') && name != "."@ && name
            != ".."@,
        sanitized(platform, raw, field) == sanitized(platform, trimmed(raw), field),
        sanitized(platform, raw, field) matches Err(e) ==> (e matches AppErrorView::Validation(m) && (
        trimmed(raw).len() == 0 ==> m == field + " 不能为空"@) && (trimmed(raw).len() > 0 && (trimmed(
            raw,
        ).contains('/') || trimmed(raw).contains('\\') || trimmed(raw).contains('\0')) ==> m == field
            + " 只能是单个文件名组件，禁止路径分隔符"@)),
{
    trimmed_has_no_white_ends(raw);
    trimming_takes_only_white_off(raw);
}

/// A task is described by a request exactly when the two agree on the name, the
/// size, the hash and the chunk size.
pub proof fn a_request_describes_its_own_file(
    task: TaskView,
    meta: InitMeta,
    safe_filename: Seq<char>,
)
    ensures
        describes(task, meta, safe_filename) <==> task.filename == safe_filename && task.size
            == meta.size && task.sha256 == meta.sha256@ && task.chunk_size == meta.chunk_size,
{
}

/// Two transfers do not share a temporary file.
pub proof fn two_transfers_share_no_temporary_file(
    platform: Platform,
    dir: Seq<char>,
    a: Seq<char>,
    b: Seq<char>,
    canonical: Option<Seq<char>>,
)
    requires
        safe_name(platform, a),
        safe_name(platform, b),
        takes_names(platform, dir),
        tmp_path(platform, dir, a, canonical, canonical) == tmp_path(
            platform,
            dir,
            b,
            canonical,
            canonical,
        ),
    ensures
        a == b,
{
    reveal_strlit(".");
    reveal_strlit(".tmp");
    a_clean_id_has_a_temporary_file(platform, dir, a, canonical);
    a_clean_id_has_a_temporary_file(platform, dir, b, canonical);
    let p = parts(platform, dir);
    assert(p.push(Part::Name(tmp_name(a))).last() == p.push(Part::Name(tmp_name(b))).last());
    assert(tmp_name(a).subrange(1, 1 + a.len() as int) =~= a);
    assert(tmp_name(b).subrange(1, 1 + b.len() as int) =~= b);
    assert(tmp_name(a).len() == tmp_name(b).len());
}

/// A path is refused exactly when it leaves the directory as resolved, or names no
/// file; and either is invalid.
pub proof fn a_path_is_refused_when_it_leaves(
    platform: Platform,
    dir: Seq<char>,
    candidate: Seq<char>,
    canonical_dir: Option<Seq<char>>,
    canonical_parent: Option<Seq<char>>,
)
    ensures
        ({
            let checked = stays_within(platform, dir, candidate, canonical_dir, canonical_parent);
            let base = match canonical_dir {
                Some(d) => parts(platform, d),
                None => normal(parts(platform, dir)),
            };
            &&& checked matches Err(e) ==> e is Validation
            &&& file_name_of(parts(platform, candidate)) is None ==> checked is Err
            &&& canonical_parent matches Some(p) ==> (checked is Ok <==> begins_with(
                parts(platform, p),
                base,
            ) && file_name_of(parts(platform, candidate)) is Some)
        }),
{
}

} // verus!

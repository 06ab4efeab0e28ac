//! Paths as they are written: their parts, and the operations that only look at
//! the writing. What separates parts, and what may stand before them, is a matter
//! of the platform.
use vstd::prelude::*;

use crate::platform::Platform;
use crate::text::{chars_of, same, string_of};

verus! {

broadcast use vstd::string::group_string_axioms;

/// One part of a path.
pub enum Part {
    /// A drive, a share or a device, as Windows has them before a path.
    Prefix(Seq<char>),
    /// The leading separator of a path.
    Root,
    /// A leading `.` of a relative path.
    Cur,
    /// `..`.
    Up,
    Name(Seq<char>),
}

/// One part of a path, in memory.
pub enum PathPart {
    Prefix(String),
    Root,
    Cur,
    Up,
    Name(String),
}

impl View for PathPart {
    type V = Part;

    open spec fn view(&self) -> Part {
        match self {
            PathPart::Prefix(t) => Part::Prefix(t@),
            PathPart::Root => Part::Root,
            PathPart::Cur => Part::Cur,
            PathPart::Up => Part::Up,
            PathPart::Name(n) => Part::Name(n@),
        }
    }
}

impl Clone for PathPart {
    fn clone(&self) -> (copy: Self)
        ensures
            copy == *self,
    {
        match self {
            PathPart::Prefix(t) => PathPart::Prefix(t.clone()),
            PathPart::Root => PathPart::Root,
            PathPart::Cur => PathPart::Cur,
            PathPart::Up => PathPart::Up,
            PathPart::Name(n) => PathPart::Name(n.clone()),
        }
    }
}

// ---------------------------------------------------------------------------
// Separators and prefixes
// ---------------------------------------------------------------------------
/// Whether `c` separates the parts of a path. On Windows both slashes do, but
/// only the backslash in a path that is to be taken verbatim.
pub open spec fn is_sep(platform: Platform, verbatim: bool, c: char) -> bool {
    if platform == Platform::Windows {
        c == '\\' || (c == '/' && !verbatim)
    } else {
        c == '/'
    }
}

fn separates(platform: Platform, verbatim: bool, c: char) -> (yes: bool)
    ensures
        yes == is_sep(platform, verbatim, c),
{
    match platform {
        Platform::Windows => c == '\\' || (c == '/' && !verbatim),
        _ => c == '/',
    }
}

/// Whether the path written `s` is to be taken verbatim: it starts with `\\?\`.
pub open spec fn is_verbatim(platform: Platform, s: Seq<char>) -> bool {
    platform == Platform::Windows && s.len() >= 4 && s[0] == '\\' && s[1] == '\\' && s[2] == '?'
        && s[3] == '\\'
}

fn verbatim(platform: Platform, x: &Vec<char>) -> (yes: bool)
    ensures
        yes == is_verbatim(platform, x@),
{
    match platform {
        Platform::Windows => x.len() >= 4 && x[0] == '\\' && x[1] == '\\' && x[2] == '?' && x[3]
            == '\\',
        _ => false,
    }
}

/// Whether a verbatim path names a share: it starts with `\\?\UNC\`.
pub open spec fn is_verbatim_share(s: Seq<char>) -> bool {
    s.len() >= 8 && s[4] == 'U' && s[5] == 'N' && s[6] == 'C' && s[7] == '\\'
}

/// A letter that can name a drive.
pub open spec fn is_drive_letter(c: char) -> bool {
    'a' <= c <= 'z' || 'A' <= c <= 'Z'
}

/// Whether `s` starts with a drive, such as `C:`.
pub open spec fn has_drive(s: Seq<char>) -> bool {
    s.len() >= 2 && is_drive_letter(s[0]) && s[1] == ':'
}

/// Whether `s` starts with two separators.
pub open spec fn has_two_seps(s: Seq<char>) -> bool {
    s.len() >= 2 && is_sep(Platform::Windows, false, s[0]) && is_sep(Platform::Windows, false, s[1])
}

/// Where the first separator at or after `from` stands in a Windows path; its
/// end where there is none.
pub open spec fn sep_from(verbatim: bool, s: Seq<char>, from: int) -> int
    decreases s.len() - from,
{
    if from >= s.len() {
        s.len() as int
    } else if is_sep(Platform::Windows, verbatim, s[from]) {
        from
    } else {
        sep_from(verbatim, s, from + 1)
    }
}

fn find_sep(verbatim: bool, x: &Vec<char>, from: usize) -> (at: usize)
    requires
        from <= x@.len(),
    ensures
        at == sep_from(verbatim, x@, from as int),
        from <= at <= x@.len(),
{
    let mut at: usize = from;
    while at < x.len() && !separates(Platform::Windows, verbatim, x[at])
        invariant
            from <= at <= x@.len(),
            sep_from(verbatim, x@, from as int) == sep_from(verbatim, x@, at as int),
        decreases x@.len() - at,
    {
        at += 1;
    }
    at
}

/// Where the prefix of the path written `s` ends; 0 where it has none, as on
/// every platform but Windows.
///
/// The prefixes are `\\?\UNC\server\share`, `\\?\C:`, `\\?\name`, `\\.\device`,
/// `\\server\share` and `C:`.
pub open spec fn prefix_end(platform: Platform, s: Seq<char>) -> int {
    if platform != Platform::Windows {
        0
    } else if is_verbatim(platform, s) {
        if is_verbatim_share(s) {
            let server = sep_from(true, s, 8);
            if server < s.len() && sep_from(true, s, server + 1) > server + 1 {
                sep_from(true, s, server + 1)
            } else {
                server
            }
        } else if has_drive(s.skip(4)) && (s.len() == 6 || s[6] == '\\') {
            6
        } else {
            sep_from(true, s, 4)
        }
    } else if has_two_seps(s) {
        if s.len() >= 4 && s[2] == '.' && is_sep(platform, false, s[3]) {
            sep_from(false, s, 4)
        } else {
            let server = sep_from(false, s, 2);
            if 2 < server < s.len() && sep_from(false, s, server + 1) > server + 1 {
                sep_from(false, s, server + 1)
            } else {
                0
            }
        }
    } else if has_drive(s) {
        2
    } else {
        0
    }
}

fn letter(c: char) -> (yes: bool)
    ensures
        yes == is_drive_letter(c),
{
    ('a' <= c && c <= 'z') || ('A' <= c && c <= 'Z')
}

/// Whether `s` starts with a drive.
pub fn starts_with_drive(s: &str) -> (yes: bool)
    ensures
        yes == has_drive(s@),
{
    let x = chars_of(s);
    x.len() >= 2 && letter(x[0]) && x[1] == ':'
}

fn end_of_prefix(platform: Platform, x: &Vec<char>) -> (end: usize)
    ensures
        end == prefix_end(platform, x@),
        end <= x@.len(),
{
    match platform {
        Platform::Windows => {},
        _ => {
            return 0;
        },
    }
    let n: usize = x.len();
    if verbatim(platform, x) {
        if n >= 8 && x[4] == 'U' && x[5] == 'N' && x[6] == 'C' && x[7] == '\\' {
            let server: usize = find_sep(true, x, 8);
            if server < n {
                let share: usize = find_sep(true, x, server + 1);
                if share > server + 1 {
                    return share;
                }
            }
            return server;
        }
        if n >= 6 && letter(x[4]) && x[5] == ':' && (n == 6 || x[6] == '\\') {
            return 6;
        }
        return find_sep(true, x, 4);
    }
    if n >= 2 && separates(platform, false, x[0]) && separates(platform, false, x[1]) {
        if n >= 4 && x[2] == '.' && separates(platform, false, x[3]) {
            return find_sep(false, x, 4);
        }
        let server: usize = find_sep(false, x, 2);
        if 2 < server && server < n {
            let share: usize = find_sep(false, x, server + 1);
            if share > server + 1 {
                return share;
            }
        }
        return 0;
    }
    if n >= 2 && letter(x[0]) && x[1] == ':' {
        2
    } else {
        0
    }
}

/// Where the letter of a drive stands in a prefix, or -1.
pub open spec fn drive_at(t: Seq<char>) -> int {
    if t.len() == 2 {
        0
    } else if t.len() == 6 && is_verbatim(Platform::Windows, t) && t[5] == ':' {
        4
    } else {
        -1
    }
}

/// Whether two characters at place `i` of two prefixes mean the same: drives have
/// no case, and outside verbatim prefixes the two slashes are one.
pub open spec fn same_meaning(a: Seq<char>, b: Seq<char>, i: int) -> bool {
    ||| a[i] == b[i]
    ||| i == drive_at(a) && i == drive_at(b) && is_drive_letter(a[i]) && is_drive_letter(b[i]) && (
    a[i] as int - b[i] as int == 32 || b[i] as int - a[i] as int == 32)
    ||| !is_verbatim(Platform::Windows, a) && !is_verbatim(Platform::Windows, b) && is_sep(
        Platform::Windows,
        false,
        a[i],
    ) && is_sep(Platform::Windows, false, b[i])
}

/// Whether two prefixes are the same prefix.
pub open spec fn same_prefix(a: Seq<char>, b: Seq<char>) -> bool {
    a.len() == b.len() && forall|i: int| 0 <= i < a.len() ==> #[trigger] same_meaning(a, b, i)
}

/// Whether two parts are the same part of a path.
pub open spec fn alike(a: Part, b: Part) -> bool {
    match (a, b) {
        (Part::Prefix(x), Part::Prefix(y)) => same_prefix(x, y),
        _ => a == b,
    }
}

fn find_drive(x: &Vec<char>) -> (at: Option<usize>)
    ensures
        match at {
            Some(i) => i == drive_at(x@),
            None => drive_at(x@) == -1,
        },
{
    if x.len() == 2 {
        Some(0)
    } else if x.len() == 6 && verbatim(Platform::Windows, x) && x[5] == ':' {
        Some(4)
    } else {
        None
    }
}

fn are_same_prefix(a: &str, b: &str) -> (same: bool)
    ensures
        same == same_prefix(a@, b@),
{
    let x = chars_of(a);
    let y = chars_of(b);
    if x.len() != y.len() {
        return false;
    }
    let apart = verbatim(Platform::Windows, &x) || verbatim(Platform::Windows, &y);
    let dx = find_drive(&x);
    let dy = find_drive(&y);
    let mut i: usize = 0;
    while i < x.len()
        invariant
            i <= x@.len() == y@.len(),
            x@ == a@,
            y@ == b@,
            apart == (is_verbatim(Platform::Windows, x@) || is_verbatim(Platform::Windows, y@)),
            match dx {
                Some(d) => d == drive_at(x@),
                None => drive_at(x@) == -1,
            },
            match dy {
                Some(d) => d == drive_at(y@),
                None => drive_at(y@) == -1,
            },
            forall|j: int| 0 <= j < i ==> #[trigger] same_meaning(x@, y@, j),
        decreases x@.len() - i,
    {
        let (c, d) = (x[i], y[i]);
        let drives = dx == Some(i) && dy == Some(i) && letter(c) && letter(d);
        let (m, n): (u32, u32) = (c as u32, d as u32);
        let cased = drives && ((m > n && m - n == 32) || (n > m && n - m == 32));
        let slashed = !apart && separates(Platform::Windows, false, c) && separates(
            Platform::Windows,
            false,
            d,
        );
        if c != d && !cased && !slashed {
            assert(!same_meaning(x@, y@, i as int));
            return false;
        }
        i += 1;
    }
    true
}

fn same_part(a: &PathPart, b: &PathPart) -> (equal: bool)
    ensures
        equal <==> alike(a@, b@),
{
    match (a, b) {
        (PathPart::Prefix(x), PathPart::Prefix(y)) => are_same_prefix(x.as_str(), y.as_str()),
        (PathPart::Root, PathPart::Root) => true,
        (PathPart::Cur, PathPart::Cur) => true,
        (PathPart::Up, PathPart::Up) => true,
        (PathPart::Name(x), PathPart::Name(y)) => same(x.as_str(), y.as_str()),
        _ => false,
    }
}

// ---------------------------------------------------------------------------
// From text to parts
// ---------------------------------------------------------------------------
/// `s` cut at its separators.
pub open spec fn pieces(platform: Platform, verbatim: bool, s: Seq<char>) -> Seq<Seq<char>>
    decreases s.len(),
{
    if s.len() == 0 {
        seq![s]
    } else {
        let done = pieces(platform, verbatim, s.drop_last());
        if is_sep(platform, verbatim, s.last()) {
            done.push(Seq::empty())
        } else {
            done.drop_last().push(done.last().push(s.last()))
        }
    }
}

/// The part that a piece stands for: none for an empty piece, and none for a
/// `.` that is neither the first piece nor to be taken verbatim.
pub open spec fn part_of(piece: Seq<char>, first: bool, verbatim: bool) -> Option<Part> {
    if piece.len() == 0 {
        None
    } else if piece == "."@ {
        if first || verbatim {
            Some(Part::Cur)
        } else {
            None
        }
    } else if piece == ".."@ {
        Some(Part::Up)
    } else {
        Some(Part::Name(piece))
    }
}

/// The parts that the pieces stand for, in order.
pub open spec fn parts_of_pieces(verbatim: bool, ps: Seq<Seq<char>>) -> Seq<Part>
    decreases ps.len(),
{
    if ps.len() == 0 {
        Seq::empty()
    } else {
        let init = parts_of_pieces(verbatim, ps.drop_last());
        match part_of(ps.last(), ps.len() == 1, verbatim) {
            Some(part) => init.push(part),
            None => init,
        }
    }
}

/// Whether `s` starts with a separator.
pub open spec fn rooted(platform: Platform, verbatim: bool, s: Seq<char>) -> bool {
    s.len() > 0 && is_sep(platform, verbatim, s[0])
}

/// What stands before the names of the path written `s`: its prefix, and its
/// root. Every prefix but a drive has a root, unless it is to be taken verbatim.
pub open spec fn beginning(platform: Platform, s: Seq<char>) -> Seq<Part> {
    let end = prefix_end(platform, s);
    let verbatim = is_verbatim(platform, s);
    (if end > 0 {
        seq![Part::Prefix(s.take(end))]
    } else {
        Seq::empty()
    }) + (if rooted(platform, verbatim, s.skip(end)) || (end > 2 && !verbatim) {
        seq![Part::Root]
    } else {
        Seq::empty()
    })
}

/// The parts of the path written `s`.
pub open spec fn parts(platform: Platform, s: Seq<char>) -> Seq<Part> {
    let verbatim = is_verbatim(platform, s);
    beginning(platform, s) + parts_of_pieces(
        verbatim,
        pieces(platform, verbatim, s.skip(prefix_end(platform, s))),
    )
}

proof fn lemma_pieces_nonempty(platform: Platform, verbatim: bool, s: Seq<char>)
    ensures
        pieces(platform, verbatim, s).len() > 0,
    decreases s.len(),
{
    if s.len() > 0 {
        lemma_pieces_nonempty(platform, verbatim, s.drop_last());
    }
}

/// A path taken apart.
pub struct LexPath {
    pub parts: Vec<PathPart>,
}

/// The parts of a sequence of path parts.
pub open spec fn views(ps: Seq<PathPart>) -> Seq<Part> {
    ps.map_values(|p: PathPart| p@)
}

impl View for LexPath {
    type V = Seq<Part>;

    open spec fn view(&self) -> Seq<Part> {
        views(self.parts@)
    }
}

/// The characters of each string in a sequence.
pub open spec fn texts(ps: Seq<String>) -> Seq<Seq<char>> {
    ps.map_values(|p: String| p@)
}

/// Cuts `x[from..]` at its separators.
fn cut(platform: Platform, verbatim: bool, x: &Vec<char>, from: usize) -> (ps: Vec<String>)
    requires
        from <= x@.len(),
    ensures
        texts(ps@) == pieces(platform, verbatim, x@.skip(from as int)),
{
    let mut done: Vec<String> = Vec::new();
    let mut current = String::new();
    let mut i: usize = from;
    assert(x@.subrange(from as int, from as int) =~= Seq::<char>::empty());
    assert(texts(done@).push(current@) =~= pieces(platform, verbatim, Seq::<char>::empty()));
    while i < x.len()
        invariant
            from <= i <= x@.len(),
            texts(done@).push(current@) == pieces(
                platform,
                verbatim,
                x@.subrange(from as int, i as int),
            ),
        decreases x@.len() - i,
    {
        let c = x[i];
        let ghost had = texts(done@).push(current@);
        assert(x@.subrange(from as int, i + 1).drop_last() =~= x@.subrange(from as int, i as int));
        assert(x@.subrange(from as int, i + 1).last() == c);
        if separates(platform, verbatim, c) {
            done.push(current);
            current = String::new();
            assert(texts(done@) =~= had);
            assert(texts(done@).push(current@) =~= had.push(Seq::<char>::empty()));
        } else {
            current.push(c);
            assert(texts(done@).push(current@) =~= had.drop_last().push(had.last().push(c)));
        }
        i += 1;
    }
    assert(x@.subrange(from as int, i as int) =~= x@.skip(from as int));
    done.push(current);
    assert(texts(done@) =~= pieces(platform, verbatim, x@.skip(from as int)));
    done
}

impl Clone for LexPath {
    fn clone(&self) -> (copy: Self)
        ensures
            copy@ == self@,
    {
        let none = LexPath { parts: Vec::new() };
        let copy = none.extended(&self.parts, 0);
        assert(copy@ =~= self@);
        copy
    }
}

impl LexPath {
    /// Takes the path written `s` apart.
    pub fn parse(platform: Platform, s: &str) -> (path: Self)
        ensures
            path@ == parts(platform, s@),
    {
        let x = chars_of(s);
        let end: usize = end_of_prefix(platform, &x);
        let verbatim = self::verbatim(platform, &x);
        let ps = cut(platform, verbatim, &x, end);
        let mut out: Vec<PathPart> = Vec::new();
        if end > 0 {
            let prefix = string_of(&x, 0, end);
            assert(prefix@ =~= s@.take(end as int));
            out.push(PathPart::Prefix(prefix));
        }
        if (end < x.len() && separates(platform, verbatim, x[end])) || (end > 2 && !verbatim) {
            out.push(PathPart::Root);
        }
        let ghost root = views(out@);
        assert(root =~= beginning(platform, s@));
        let mut i: usize = 0;
        assert(root + parts_of_pieces(verbatim, texts(ps@).take(0)) =~= root);
        while i < ps.len()
            invariant
                i <= ps@.len(),
                views(out@) == root + parts_of_pieces(verbatim, texts(ps@).take(i as int)),
            decreases ps@.len() - i,
        {
            let ghost had = views(out@);
            let ghost seen = texts(ps@).take(i + 1);
            assert(seen.drop_last() =~= texts(ps@).take(i as int));
            assert(seen.last() == ps@[i as int]@);
            let piece = ps[i].as_str();
            if piece.is_empty() {
            } else if same(piece, ".") {
                if i == 0 || verbatim {
                    out.push(PathPart::Cur);
                    assert(views(out@) =~= had.push(Part::Cur));
                }
            } else if same(piece, "..") {
                out.push(PathPart::Up);
                assert(views(out@) =~= had.push(Part::Up));
            } else {
                out.push(PathPart::Name(ps[i].clone()));
                assert(views(out@) =~= had.push(Part::Name(piece@)));
            }
            assert(views(out@) =~= root + parts_of_pieces(verbatim, seen));
            i += 1;
        }
        assert(texts(ps@).take(i as int) =~= texts(ps@));
        LexPath { parts: out }
    }

    /// This path followed by `more[from..]`.
    pub fn extended(&self, more: &Vec<PathPart>, from: usize) -> (path: Self)
        requires
            from <= more@.len(),
        ensures
            path@ == self@ + views(more@).skip(from as int),
    {
        let mut out: Vec<PathPart> = Vec::new();
        let mut i: usize = 0;
        while i < self.parts.len()
            invariant
                i <= self.parts@.len(),
                out@ == self.parts@.take(i as int),
            decreases self.parts@.len() - i,
        {
            out.push(self.parts[i].clone());
            i += 1;
            assert(out@ =~= self.parts@.take(i as int));
        }
        let mut k: usize = from;
        assert(out@ =~= self.parts@ + more@.subrange(from as int, k as int));
        while k < more.len()
            invariant
                from <= k <= more@.len(),
                out@ == self.parts@ + more@.subrange(from as int, k as int),
            decreases more@.len() - k,
        {
            out.push(more[k].clone());
            k += 1;
            assert(out@ =~= self.parts@ + more@.subrange(from as int, k as int));
        }
        let path = LexPath { parts: out };
        assert(path@ =~= self@ + views(more@).skip(from as int));
        path
    }

    /// The path without its last part, for a path that has one besides its
    /// beginning.
    pub fn parent(&self) -> (parent: Option<LexPath>)
        ensures
            match parent {
                Some(p) => parent_of(self@) == Some(p@),
                None => parent_of(self@) is None,
            },
    {
        let n: usize = self.parts.len();
        if n == 0 {
            return None;
        }
        assert(self@.last() == self.parts@[n - 1]@);
        match &self.parts[n - 1] {
            PathPart::Prefix(_) => None,
            PathPart::Root => None,
            _ => {
                let mut out = self.clone();
                let _ = out.parts.pop();
                assert(out@ =~= self@.drop_last());
                Some(out)
            },
        }
    }

    /// The name that the path ends in, if it ends in one.
    pub fn file_name(&self) -> (name: Option<String>)
        ensures
            match name {
                Some(n) => file_name_of(self@) == Some(n@),
                None => file_name_of(self@) is None,
            },
    {
        let n: usize = self.parts.len();
        if n == 0 {
            return None;
        }
        assert(self@.last() == self.parts@[n - 1]@);
        match &self.parts[n - 1] {
            PathPart::Name(name) => Some(name.clone()),
            _ => None,
        }
    }

    /// Whether the parts of `base` are the first parts of this path.
    pub fn starts_with(&self, base: &LexPath) -> (yes: bool)
        ensures
            yes == begins_with(self@, base@),
    {
        if base.parts.len() > self.parts.len() {
            return false;
        }
        let mut i: usize = 0;
        while i < base.parts.len()
            invariant
                i <= base.parts@.len() <= self.parts@.len(),
                forall|j: int| 0 <= j < i ==> #[trigger] alike(self@[j], base@[j]),
            decreases base.parts@.len() - i,
        {
            assert(self@[i as int] == self.parts@[i as int]@);
            assert(base@[i as int] == base.parts@[i as int]@);
            if !same_part(&self.parts[i], &base.parts[i]) {
                assert(!alike(self@[i as int], base@[i as int]));
                return false;
            }
            i += 1;
        }
        true
    }

    /// Whether the two paths have the same parts.
    pub fn equals(&self, other: &LexPath) -> (yes: bool)
        ensures
            yes <==> same_parts(self@, other@),
    {
        self.parts.len() == other.parts.len() && self.starts_with(other)
    }

    /// The root that the path belongs to.
    fn at_root(&self) -> (path: LexPath)
        ensures
            path@ == root_of(self@),
    {
        let mut out: Vec<PathPart> = Vec::new();
        if self.parts.len() > 0 {
            assert(self@[0] == self.parts@[0]@);
            match &self.parts[0] {
                PathPart::Prefix(text) => {
                    out.push(PathPart::Prefix(text.clone()));
                },
                _ => {},
            }
        }
        out.push(PathPart::Root);
        let path = LexPath { parts: out };
        assert(path@ =~= root_of(self@));
        path
    }

    /// The path with `.` dropped and `..` taken back, by its writing alone.
    pub fn normalized(&self) -> (path: LexPath)
        ensures
            path@ == normal(self@),
    {
        let mut out = LexPath { parts: Vec::new() };
        let mut i: usize = 0;
        assert(self@.take(0) =~= Seq::<Part>::empty());
        assert(out@ =~= normal(self@.take(0)));
        while i < self.parts.len()
            invariant
                i <= self.parts@.len(),
                out@ == normal(self@.take(i as int)),
            decreases self.parts@.len() - i,
        {
            let ghost had = out@;
            assert(self@.take(i + 1).drop_last() =~= self@.take(i as int));
            assert(self@.take(i + 1).last() == self.parts@[i as int]@);
            match &self.parts[i] {
                PathPart::Prefix(text) => {
                    out = LexPath { parts: Vec::new() };
                    out.parts.push(PathPart::Prefix(text.clone()));
                    assert(out@ =~= seq![Part::Prefix(text@)]);
                },
                PathPart::Root => {
                    out = out.at_root();
                },
                PathPart::Cur => {},
                PathPart::Up => {
                    if let Some(parent) = out.parent() {
                        out = parent;
                    }
                },
                PathPart::Name(name) => {
                    out.parts.push(PathPart::Name(name.clone()));
                    assert(out@ =~= had.push(Part::Name(name@)));
                },
            }
            i += 1;
        }
        assert(self@.take(i as int) =~= self@);
        out
    }
}

/// The path without its last part, for a path that has one besides its beginning.
pub open spec fn parent_of(p: Seq<Part>) -> Option<Seq<Part>> {
    if p.len() == 0 || p.last() is Root || p.last() is Prefix {
        None
    } else {
        Some(p.drop_last())
    }
}

/// The name that the path ends in, if it ends in one.
pub open spec fn file_name_of(p: Seq<Part>) -> Option<Seq<char>> {
    if p.len() == 0 {
        None
    } else {
        match p.last() {
            Part::Name(n) => Some(n),
            _ => None,
        }
    }
}

/// Whether the parts of `base` are the first parts of `p`.
pub open spec fn begins_with(p: Seq<Part>, base: Seq<Part>) -> bool {
    base.len() <= p.len() && forall|i: int| 0 <= i < base.len() ==> #[trigger] alike(p[i], base[i])
}

/// Whether two paths have the same parts.
pub open spec fn same_parts(p: Seq<Part>, q: Seq<Part>) -> bool {
    p.len() == q.len() && begins_with(p, q)
}

/// The root that `p` belongs to: that of its prefix, where it has one.
pub open spec fn root_of(p: Seq<Part>) -> Seq<Part> {
    if p.len() > 0 && p[0] is Prefix {
        seq![p[0], Part::Root]
    } else {
        seq![Part::Root]
    }
}

/// The path with `.` dropped and `..` taken back.
pub open spec fn normal(p: Seq<Part>) -> Seq<Part>
    decreases p.len(),
{
    if p.len() == 0 {
        p
    } else {
        let done = normal(p.drop_last());
        match p.last() {
            Part::Prefix(t) => seq![Part::Prefix(t)],
            Part::Root => root_of(done),
            Part::Cur => done,
            Part::Up => match parent_of(done) {
                Some(parent) => parent,
                None => done,
            },
            Part::Name(n) => done.push(Part::Name(n)),
        }
    }
}

/// A normal path has no `.` and no `..`.
pub proof fn normal_has_no_dots(p: Seq<Part>)
    ensures
        forall|i: int| 0 <= i < normal(p).len() ==> !((#[trigger] normal(p)[i]) is Cur) && !(normal(p)[i] is Up),
    decreases p.len(),
{
    if p.len() > 0 {
        normal_has_no_dots(p.drop_last());
    }
}

// ---------------------------------------------------------------------------
// From parts to text
// ---------------------------------------------------------------------------
/// The separator that is written.
pub open spec fn separator(platform: Platform) -> Seq<char> {
    if platform == Platform::Windows {
        "\\"@
    } else {
        "/"@
    }
}

fn main_separator(platform: Platform) -> (sep: &'static str)
    ensures
        sep@ == separator(platform),
{
    match platform {
        Platform::Windows => "\\",
        _ => "/",
    }
}

/// One part as it is written.
pub open spec fn written(platform: Platform, part: Part) -> Seq<char> {
    match part {
        Part::Prefix(t) => t,
        Part::Root => separator(platform),
        Part::Cur => "."@,
        Part::Up => ".."@,
        Part::Name(n) => n,
    }
}

/// Whether a separator is written between `before` and `after`: not around the
/// root, and not after a drive.
pub open spec fn set_apart(before: Part, after: Part) -> bool {
    &&& !(after is Root)
    &&& match before {
        Part::Prefix(t) => t.len() != 2,
        Part::Root => false,
        _ => true,
    }
}

/// A path as it is written.
pub open spec fn rendered(platform: Platform, p: Seq<Part>) -> Seq<char>
    decreases p.len(),
{
    if p.len() == 0 {
        Seq::empty()
    } else {
        rendered(platform, p.drop_last()) + (if p.len() > 1 && set_apart(p[p.len() - 2], p.last()) {
            separator(platform)
        } else {
            Seq::empty()
        }) + written(platform, p.last())
    }
}

fn is_set_apart(before: &PathPart, after: &PathPart) -> (yes: bool)
    ensures
        yes == set_apart(before@, after@),
{
    match after {
        PathPart::Root => {
            return false;
        },
        _ => {},
    }
    match before {
        PathPart::Prefix(t) => chars_of(t.as_str()).len() != 2,
        PathPart::Root => false,
        _ => true,
    }
}

impl LexPath {
    /// Writes the path.
    pub fn render(&self, platform: Platform) -> (text: String)
        ensures
            text@ == rendered(platform, self@),
    {
        let n: usize = self.parts.len();
        let sep = main_separator(platform);
        let mut text = String::new();
        let mut i: usize = 0;
        assert(self@.take(0) =~= Seq::<Part>::empty());
        assert(text@ =~= rendered(platform, self@.take(0)));
        while i < n
            invariant
                i <= n == self.parts@.len(),
                sep@ == separator(platform),
                text@ == rendered(platform, self@.take(i as int)),
            decreases n - i,
        {
            let ghost had = text@;
            let ghost seen = self@.take(i + 1);
            assert(seen.drop_last() =~= self@.take(i as int));
            assert(seen.last() == self.parts@[i as int]@);
            if i > 0 {
                assert(seen[seen.len() - 2] == self.parts@[i - 1]@);
                if is_set_apart(&self.parts[i - 1], &self.parts[i]) {
                    text.append(sep);
                }
            }
            let piece = match &self.parts[i] {
                PathPart::Prefix(t) => t.as_str(),
                PathPart::Root => sep,
                PathPart::Cur => ".",
                PathPart::Up => "..",
                PathPart::Name(name) => name.as_str(),
            };
            text.append(piece);
            assert(text@ =~= rendered(platform, seen));
            i += 1;
        }
        assert(self@.take(i as int) =~= self@);
        text
    }
}

// ---------------------------------------------------------------------------
// Names below a directory
// ---------------------------------------------------------------------------
/// `b` seen from the verbatim path `a`: `.` and `..` are taken out of `b`, and no
/// `..` leads above the root.
pub open spec fn followed(a: Seq<Part>, b: Seq<Part>) -> Seq<Part>
    decreases b.len(),
{
    if b.len() == 0 {
        a
    } else {
        let done = followed(a, b.drop_last());
        match b.last() {
            Part::Root => root_of(done),
            Part::Cur => done,
            Part::Up => if done.len() > 0 && done.last() is Name {
                done.drop_last()
            } else {
                done
            },
            part => done.push(part),
        }
    }
}

impl LexPath {
    /// `other` seen from this verbatim path.
    fn follow(&self, other: &LexPath) -> (path: LexPath)
        ensures
            path@ == followed(self@, other@),
    {
        let mut out = self.clone();
        let mut i: usize = 0;
        assert(other@.take(0) =~= Seq::<Part>::empty());
        while i < other.parts.len()
            invariant
                i <= other.parts@.len(),
                out@ == followed(self@, other@.take(i as int)),
            decreases other.parts@.len() - i,
        {
            let ghost had = out@;
            assert(other@.take(i + 1).drop_last() =~= other@.take(i as int));
            assert(other@.take(i + 1).last() == other.parts@[i as int]@);
            match &other.parts[i] {
                PathPart::Root => {
                    out = out.at_root();
                },
                PathPart::Cur => {},
                PathPart::Up => {
                    if out.file_name().is_some() {
                        let _ = out.parts.pop();
                        assert(out@ =~= had.drop_last());
                    }
                },
                part => {
                    out.parts.push(part.clone());
                    assert(out@ =~= had.push(part@));
                },
            }
            i += 1;
        }
        assert(other@.take(i as int) =~= other@);
        out
    }
}

/// The path written for `name` seen from `dir`.
///
/// A name with a prefix, or with a root where there are no prefixes, replaces
/// `dir`; any other name with a root keeps its prefix. A path that is to be taken
/// verbatim is written anew, and nothing is put between a drive and its name.
pub open spec fn joined(platform: Platform, dir: Seq<char>, name: Seq<char>) -> Seq<char> {
    if prefix_end(platform, name) > 0 || dir.len() == 0 {
        name
    } else if is_verbatim(platform, dir) && name.len() > 0 {
        rendered(platform, followed(parts(platform, dir), parts(platform, name)))
    } else if rooted(platform, false, name) {
        dir.take(prefix_end(platform, dir)) + name
    } else if is_sep(platform, false, dir.last()) || (dir.len() == 2 && prefix_end(platform, dir) == 2) {
        dir + name
    } else {
        dir + separator(platform) + name
    }
}

/// Writes the path for `name` seen from `dir`.
pub fn join_path(platform: Platform, dir: &str, name: &str) -> (path: String)
    ensures
        path@ == joined(platform, dir@, name@),
{
    let d = chars_of(dir);
    let n = chars_of(name);
    if end_of_prefix(platform, &n) > 0 || d.len() == 0 {
        return name.to_string();
    }
    if verbatim(platform, &d) && n.len() > 0 {
        let base = LexPath::parse(platform, dir);
        let tail = LexPath::parse(platform, name);
        return base.follow(&tail).render(platform);
    }
    let end: usize = end_of_prefix(platform, &d);
    if n.len() > 0 && separates(platform, false, n[0]) {
        let prefix = string_of(&d, 0, end);
        assert(prefix@ =~= dir@.take(end as int));
        return crate::text::join2(prefix.as_str(), name);
    }
    if separates(platform, false, d[d.len() - 1]) || (d.len() == 2 && end == 2) {
        crate::text::join2(dir, name)
    } else {
        crate::text::join3(dir, main_separator(platform), name)
    }
}

/// A text that stands for exactly one name.
pub open spec fn one_name(platform: Platform, n: Seq<char>) -> bool {
    &&& n.len() > 0
    &&& !n.contains('/')
    &&& n != "."@
    &&& n != ".."@
    &&& platform == Platform::Windows ==> !n.contains('\\') && !has_drive(n)
}

/// Whether `dir` ends where a name can follow: a name that follows is not taken
/// for the rest of a prefix such as `\\server`, `\\.\` or `\\?\UNC\server`, and
/// what is to be taken verbatim has a root. Every path will do but on Windows.
pub open spec fn takes_names(platform: Platform, dir: Seq<char>) -> bool {
    if platform != Platform::Windows {
        true
    } else if is_verbatim(platform, dir) {
        prefix_end(platform, dir) < dir.len() && (is_verbatim_share(dir) ==> sep_from(true, dir, 8)
            < prefix_end(platform, dir))
    } else if has_two_seps(dir) {
        if prefix_end(platform, dir) > 0 {
            dir.len() > 4
        } else {
            sep_from(false, dir, 2) == 2 || sep_from(false, dir, 2) + 1 < dir.len()
        }
    } else {
        true
    }
}

/// A piece without separators.
spec fn unbroken(platform: Platform, verbatim: bool, n: Seq<char>) -> bool {
    forall|i: int| 0 <= i < n.len() ==> !is_sep(platform, verbatim, #[trigger] n[i])
}

proof fn lemma_one_name_is_unbroken(platform: Platform, verbatim: bool, n: Seq<char>)
    requires
        one_name(platform, n),
    ensures
        unbroken(platform, verbatim, n),
        prefix_end(platform, n) == 0,
        !is_verbatim(platform, n),
{
    assert forall|i: int| 0 <= i < n.len() implies !is_sep(platform, verbatim, #[trigger] n[i]) && !is_sep(
        platform,
        false,
        n[i],
    ) by {
        assert(n.contains(n[i]));
    }
    assert(!is_sep(platform, false, n[0]));
}

proof fn lemma_pieces_append(platform: Platform, verbatim: bool, s: Seq<char>, n: Seq<char>)
    requires
        unbroken(platform, verbatim, n),
    ensures
        pieces(platform, verbatim, s + n) == pieces(platform, verbatim, s).drop_last().push(
            pieces(platform, verbatim, s).last() + n,
        ),
    decreases n.len(),
{
    let ps = pieces(platform, verbatim, s);
    lemma_pieces_nonempty(platform, verbatim, s);
    if n.len() == 0 {
        assert(s + n =~= s);
        assert(ps.last() + n =~= ps.last());
        assert(ps =~= ps.drop_last().push(ps.last() + n));
    } else {
        let m = n.drop_last();
        assert(unbroken(platform, verbatim, m)) by {
            assert forall|i: int| 0 <= i < m.len() implies !is_sep(
                platform,
                verbatim,
                #[trigger] m[i],
            ) by {
                assert(m[i] == n[i]);
            }
        }
        assert(!is_sep(platform, verbatim, n[n.len() - 1]));
        lemma_pieces_append(platform, verbatim, s, m);
        assert((s + n).drop_last() =~= s + m);
        assert((s + n).last() == n.last());
        assert((ps.last() + m).push(n.last()) =~= ps.last() + n);
        assert(pieces(platform, verbatim, s + m).drop_last() =~= ps.drop_last());
    }
}

/// One more piece after a separator is one more piece.
proof fn lemma_pieces_extend(platform: Platform, verbatim: bool, s: Seq<char>, c: char, n: Seq<char>)
    requires
        is_sep(platform, verbatim, c),
        unbroken(platform, verbatim, n),
    ensures
        pieces(platform, verbatim, s.push(c) + n) == pieces(platform, verbatim, s).push(n),
{
    let empty = Seq::<char>::empty();
    assert(s.push(c).drop_last() =~= s);
    assert(pieces(platform, verbatim, s.push(c)) == pieces(platform, verbatim, s).push(empty));
    lemma_pieces_append(platform, verbatim, s.push(c), n);
    assert(pieces(platform, verbatim, s).push(empty).drop_last() =~= pieces(platform, verbatim, s));
    assert(empty + n =~= n);
}

/// The parts of a text with one more name after a separator, or after nothing.
proof fn lemma_one_more(platform: Platform, verbatim: bool, s: Seq<char>, c: char, n: Seq<char>)
    requires
        is_sep(platform, verbatim, c),
        unbroken(platform, verbatim, n),
        n.len() > 0,
        n != "."@,
        n != ".."@,
    ensures
        parts_of_pieces(verbatim, pieces(platform, verbatim, s.push(c) + n)) == parts_of_pieces(
            verbatim,
            pieces(platform, verbatim, s),
        ).push(Part::Name(n)),
        parts_of_pieces(verbatim, pieces(platform, verbatim, s.push(c))) == parts_of_pieces(
            verbatim,
            pieces(platform, verbatim, s),
        ),
        parts_of_pieces(verbatim, pieces(platform, verbatim, n)) == seq![Part::Name(n)],
        parts_of_pieces(verbatim, pieces(platform, verbatim, Seq::<char>::empty())) == Seq::<
            Part,
        >::empty(),
{
    let empty = Seq::<char>::empty();
    let ps = pieces(platform, verbatim, s);
    lemma_pieces_nonempty(platform, verbatim, s);
    lemma_pieces_extend(platform, verbatim, s, c, n);
    assert(ps.push(n).drop_last() =~= ps);
    assert(s.push(c).drop_last() =~= s);
    assert(ps.push(empty).drop_last() =~= ps);
    assert(pieces(platform, verbatim, s.push(c)) == ps.push(empty));
    lemma_pieces_append(platform, verbatim, empty, n);
    assert(pieces(platform, verbatim, empty) =~= seq![empty]);
    assert(empty + n =~= n);
    assert(pieces(platform, verbatim, n) =~= seq![n]);
    let none = Seq::<Seq<char>>::empty();
    assert(seq![n].drop_last() =~= none);
    assert(seq![empty].drop_last() =~= none);
    assert(parts_of_pieces(verbatim, none) =~= Seq::<Part>::empty());
    assert(parts_of_pieces(verbatim, seq![n]) =~= seq![Part::Name(n)]);
}

proof fn lemma_sep_from(verbatim: bool, s: Seq<char>, from: int)
    requires
        0 <= from <= s.len(),
    ensures
        from <= sep_from(verbatim, s, from) <= s.len(),
        sep_from(verbatim, s, from) < s.len() ==> is_sep(
            Platform::Windows,
            verbatim,
            s[sep_from(verbatim, s, from)],
        ),
    decreases s.len() - from,
{
    if from < s.len() && !is_sep(Platform::Windows, verbatim, s[from]) {
        lemma_sep_from(verbatim, s, from + 1);
    }
}

/// What follows does not move a separator that was found; where none was found it
/// stands where the first one follows.
proof fn lemma_sep_stays(verbatim: bool, s: Seq<char>, t: Seq<char>, from: int)
    requires
        0 <= from <= s.len(),
    ensures
        sep_from(verbatim, s, from) < s.len() ==> sep_from(verbatim, s + t, from) == sep_from(
            verbatim,
            s,
            from,
        ),
        sep_from(verbatim, s, from) == s.len() && t.len() > 0 && is_sep(
            Platform::Windows,
            verbatim,
            t[0],
        ) ==> sep_from(verbatim, s + t, from) == s.len(),
        sep_from(verbatim, s, from) == s.len() && unbroken(Platform::Windows, verbatim, t) ==> sep_from(
            verbatim,
            s + t,
            from,
        ) == s.len() + t.len(),
    decreases s.len() - from,
{
    if from < s.len() {
        assert((s + t)[from] == s[from]);
        if !is_sep(Platform::Windows, verbatim, s[from]) {
            lemma_sep_stays(verbatim, s, t, from + 1);
        }
    } else {
        if t.len() > 0 {
            assert((s + t)[from] == t[0]);
        }
        if unbroken(Platform::Windows, verbatim, t) {
            lemma_no_sep(verbatim, s, t, 0);
        }
    }
}

proof fn lemma_none_found(verbatim: bool, s: Seq<char>, from: int)
    requires
        0 <= from < s.len(),
        sep_from(verbatim, s, from) == s.len(),
    ensures
        !is_sep(Platform::Windows, verbatim, s.last()),
    decreases s.len() - from,
{
    if from + 1 < s.len() {
        lemma_none_found(verbatim, s, from + 1);
    }
}

proof fn lemma_no_sep(verbatim: bool, s: Seq<char>, t: Seq<char>, k: int)
    requires
        0 <= k <= t.len(),
        unbroken(Platform::Windows, verbatim, t),
    ensures
        sep_from(verbatim, s + t, s.len() + k) == s.len() + t.len(),
    decreases t.len() - k,
{
    if k < t.len() {
        assert((s + t)[s.len() + k] == t[k]);
        lemma_no_sep(verbatim, s, t, k + 1);
    }
}

/// The prefix of a directory is not changed by a name that follows it.
proof fn lemma_prefix_stays(dir: Seq<char>, tail: Seq<char>, name: Seq<char>)
    requires
        one_name(Platform::Windows, name),
        takes_names(Platform::Windows, dir),
        dir.len() > 0,
        !is_verbatim(Platform::Windows, dir),
        tail == (if is_sep(Platform::Windows, false, dir.last()) || (dir.len() == 2 && prefix_end(
            Platform::Windows,
            dir,
        ) == 2) {
            name
        } else {
            seq!['\\'] + name
        }),
    ensures
        prefix_end(Platform::Windows, dir + tail) == prefix_end(Platform::Windows, dir),
        !is_verbatim(Platform::Windows, dir + tail),
        prefix_end(Platform::Windows, dir) <= dir.len(),
{
    let w = Platform::Windows;
    let whole = dir + tail;
    lemma_one_name_is_unbroken(w, false, name);
    assert(!is_sep(w, false, name[0]));
    assert(forall|i: int| 0 <= i < dir.len() ==> whole[i] == dir[i]);
    assert(whole[dir.len() as int] == tail[0]);
    if dir.len() + 1 < whole.len() {
        assert(whole[dir.len() as int + 1] == tail[1]);
    }
    if has_two_seps(dir) {
        lemma_sep_from(false, dir, 2);
        lemma_sep_stays(false, dir, tail, 2);
        let server = sep_from(false, dir, 2);
        if dir.len() >= 4 {
            lemma_sep_from(false, dir, 4);
            lemma_sep_stays(false, dir, tail, 4);
        }
        if server < dir.len() {
            lemma_sep_from(false, dir, server + 1);
            lemma_sep_stays(false, dir, tail, server + 1);
        }
        assert(has_two_seps(whole));
        if dir.len() == 2 {
            assert(server == 2);
            assert(prefix_end(w, dir) == 0);
            if tail == name {
                assert(sep_from(false, whole, 2) == whole.len());
            } else {
                assert(whole[2] == '\\');
                assert(sep_from(false, whole, 2) == 2);
            }
            assert(prefix_end(w, whole) == 0);
        } else if dir.len() == 3 {
            assert(server == 2);
            assert(sep_from(false, whole, 2) == 2);
            assert(whole[2] == dir[2]);
            assert(prefix_end(w, whole) == 0);
        } else if dir[2] == '.' && is_sep(w, false, dir[3]) {
            assert(prefix_end(w, dir) == sep_from(false, dir, 4));
            assert(prefix_end(w, whole) == sep_from(false, whole, 4));
            if sep_from(false, dir, 4) == dir.len() {
                assert(!is_sep(w, false, dir.last())) by {
                    lemma_none_found(false, dir, 4);
                }
            }
        } else {
            assert(whole[2] == dir[2] && whole[3] == dir[3]);
            if server < dir.len() {
                let share = sep_from(false, dir, server + 1);
                if share == dir.len() && share > server + 1 {
                    lemma_none_found(false, dir, server + 1);
                }
            }
            assert(prefix_end(w, whole) == prefix_end(w, dir));
        }
    } else if dir.len() == 1 {
        if tail == name {
            assert(!has_two_seps(whole));
        }
    } else {
        assert(!has_two_seps(whole));
    }
}

/// One name below a directory is the directory's parts and then that name.
pub proof fn joined_name_is_below(platform: Platform, dir: Seq<char>, name: Seq<char>)
    requires
        one_name(platform, name),
        takes_names(platform, dir),
    ensures
        parts(platform, joined(platform, dir, name)) == parts(platform, dir).push(Part::Name(name)),
        parent_of(parts(platform, joined(platform, dir, name))) == Some(parts(platform, dir)),
        file_name_of(parts(platform, joined(platform, dir, name))) == Some(name),
{
    lemma_one_name_is_unbroken(platform, false, name);
    let below = parts(platform, dir).push(Part::Name(name));
    assert(parts(platform, joined(platform, dir, name)) == below) by {
        if is_verbatim(platform, dir) {
            lemma_below_verbatim(dir, name);
        } else {
            lemma_below_plain(platform, dir, name);
        }
    }
    assert(below.drop_last() =~= parts(platform, dir));
}

proof fn lemma_below_plain(platform: Platform, dir: Seq<char>, name: Seq<char>)
    requires
        one_name(platform, name),
        takes_names(platform, dir),
        !is_verbatim(platform, dir),
    ensures
        parts(platform, joined(platform, dir, name)) == parts(platform, dir).push(Part::Name(name)),
{
    reveal_strlit("/");
    reveal_strlit("\\");
    let empty = Seq::<char>::empty();
    let sep = separator(platform)[0];
    assert(separator(platform) =~= seq![sep]);
    lemma_one_name_is_unbroken(platform, false, name);
    assert(!rooted(platform, false, name));
    let whole = joined(platform, dir, name);
    let end = prefix_end(platform, dir);
    if dir.len() == 0 {
        assert(dir =~= empty);
        assert(whole == name);
        assert(name.skip(0) =~= name);
        assert(empty.skip(0) =~= empty);
        lemma_one_more(platform, false, empty, sep, name);
        assert(parts(platform, whole) =~= parts(platform, dir).push(Part::Name(name)));
    } else {
        let direct = is_sep(platform, false, dir.last()) || (dir.len() == 2 && end == 2);
        let tail = if direct {
            name
        } else {
            seq![sep] + name
        };
        assert(whole =~= dir + tail);
        if platform == Platform::Windows {
            lemma_prefix_stays(dir, tail, name);
        }
        assert(0 <= end <= dir.len()) by {
            if has_two_seps(dir) {
                lemma_sep_from(false, dir, 2);
                if dir.len() >= 4 {
                    lemma_sep_from(false, dir, 4);
                }
                if sep_from(false, dir, 2) < dir.len() {
                    lemma_sep_from(false, dir, sep_from(false, dir, 2) + 1);
                }
            }
        }
        let rest = dir.skip(end);
        assert(whole.take(end) =~= dir.take(end));
        assert(whole.skip(end) =~= rest + tail);
        if direct && rest.len() == 0 {
            assert(rest =~= empty);
            assert(rest + tail =~= name);
            lemma_one_more(platform, false, empty, sep, name);
        } else if direct {
            let inner = rest.drop_last();
            let c = rest.last();
            if !is_sep(platform, false, dir.last()) {
                assert(false);
            }
            assert(inner.push(c) =~= rest);
            assert(rest + tail == inner.push(c) + name);
            lemma_one_more(platform, false, inner, c, name);
        } else {
            assert(rest + tail =~= rest.push(sep) + name);
            lemma_one_more(platform, false, rest, sep, name);
        }
        assert(beginning(platform, whole) =~= beginning(platform, dir));
        assert(parts(platform, whole) =~= parts(platform, dir).push(Part::Name(name)));
    }
}

/// A part that can be written into a verbatim path and read back.
spec fn writable(part: Part) -> bool {
    match part {
        Part::Cur => true,
        Part::Up => true,
        Part::Name(n) => n.len() > 0 && unbroken(Platform::Windows, true, n) && n != "."@ && n != ".."@,
        _ => false,
    }
}

proof fn lemma_pieces_are_unbroken(s: Seq<char>)
    ensures
        forall|i: int|
            0 <= i < pieces(Platform::Windows, true, s).len() ==> unbroken(
                Platform::Windows,
                true,
                #[trigger] pieces(Platform::Windows, true, s)[i],
            ),
    decreases s.len(),
{
    lemma_pieces_nonempty(Platform::Windows, true, s);
    if s.len() > 0 {
        lemma_pieces_nonempty(Platform::Windows, true, s.drop_last());
        lemma_pieces_are_unbroken(s.drop_last());
    }
}

proof fn lemma_parts_are_writable(ps: Seq<Seq<char>>)
    requires
        forall|i: int| 0 <= i < ps.len() ==> unbroken(Platform::Windows, true, #[trigger] ps[i]),
    ensures
        forall|i: int|
            0 <= i < parts_of_pieces(true, ps).len() ==> writable(
                #[trigger] parts_of_pieces(true, ps)[i],
            ),
    decreases ps.len(),
{
    if ps.len() > 0 {
        assert forall|i: int| 0 <= i < ps.drop_last().len() implies unbroken(
            Platform::Windows,
            true,
            #[trigger] ps.drop_last()[i],
        ) by {
            assert(ps.drop_last()[i] == ps[i]);
        }
        lemma_parts_are_writable(ps.drop_last());
        assert(unbroken(Platform::Windows, true, ps[ps.len() - 1]));
        let init = parts_of_pieces(true, ps.drop_last());
        let all = parts_of_pieces(true, ps);
        assert forall|i: int| 0 <= i < all.len() implies writable(#[trigger] all[i]) by {
            if i < init.len() {
                assert(all[i] == init[i]);
            }
        }
    }
}

/// What was written below a verbatim root is read back as it was.
proof fn lemma_written_below(prefix: Seq<char>, q: Seq<Part>) -> (rest: Seq<char>)
    requires
        prefix.len() > 2,
        forall|i: int| 0 <= i < q.len() ==> writable(#[trigger] q[i]),
    ensures
        rendered(Platform::Windows, seq![Part::Prefix(prefix), Part::Root] + q) == prefix + rest,
        rest.len() > 0 && rest[0] == '\\',
        pieces(Platform::Windows, true, rest).len() > 1,
        parts_of_pieces(true, pieces(Platform::Windows, true, rest)) == q,
        q.len() == 0 ==> rest == seq!['\\'],
    decreases q.len(),
{
    let w = Platform::Windows;
    let start = seq![Part::Prefix(prefix), Part::Root];
    let empty = Seq::<char>::empty();
    reveal_strlit("\\");
    reveal_strlit(".");
    reveal_strlit("..");
    assert(separator(w) =~= seq!['\\']);
    if q.len() == 0 {
        let rest = seq!['\\'];
        assert(start + q =~= start);
        assert(start.drop_last() =~= seq![Part::Prefix(prefix)]);
        assert(seq![Part::Prefix(prefix)].drop_last() =~= Seq::<Part>::empty());
        assert(rendered(w, Seq::<Part>::empty()) =~= empty);
        assert(rendered(w, seq![Part::Prefix(prefix)]) =~= prefix);
        assert(rendered(w, start) =~= prefix + rest);
        assert(rest =~= empty.push('\\'));
        assert(rest.drop_last() =~= empty);
        assert(pieces(w, true, empty) =~= seq![empty]);
        assert(pieces(w, true, rest) =~= seq![empty, empty]);
        assert(seq![empty, empty].drop_last() =~= seq![empty]);
        assert(seq![empty].drop_last() =~= Seq::<Seq<char>>::empty());
        assert(parts_of_pieces(true, seq![empty].drop_last()) =~= Seq::<Part>::empty());
        assert(parts_of_pieces(true, seq![empty]) =~= Seq::<Part>::empty());
        assert(parts_of_pieces(true, seq![empty, empty]) =~= q);
        rest
    } else {
        let before = q.drop_last();
        assert forall|i: int| 0 <= i < before.len() implies writable(#[trigger] before[i]) by {
            assert(before[i] == q[i]);
        }
        let had = lemma_written_below(prefix, before);
        let part = q.last();
        assert(writable(q[q.len() - 1]));
        let text = written(w, part);
        assert(unbroken(w, true, text));
        assert(part_of(text, false, true) == Some(part));
        assert((start + q).drop_last() =~= start + before);
        assert((start + q).last() == part);
        let rest = if before.len() == 0 {
            had + text
        } else {
            had.push('\\') + text
        };
        let ps = pieces(w, true, had);
        if before.len() == 0 {
            assert((start + q)[1] is Root);
            assert(had =~= empty.push('\\'));
            lemma_pieces_extend(w, true, empty, '\\', text);
            assert(pieces(w, true, empty) =~= seq![empty]);
            assert(pieces(w, true, rest) == seq![empty].push(text));
            assert(seq![empty].push(text).drop_last() =~= seq![empty]);
            assert(seq![empty].drop_last() =~= Seq::<Seq<char>>::empty());
            assert(parts_of_pieces(true, seq![empty].drop_last()) =~= Seq::<Part>::empty());
            assert(parts_of_pieces(true, seq![empty]) =~= Seq::<Part>::empty());
            assert(parts_of_pieces(true, pieces(w, true, rest)) =~= q);
        } else {
            assert((start + q)[(start + q).len() - 2] == before.last());
            assert(writable(before[before.len() - 1]));
            lemma_pieces_extend(w, true, had, '\\', text);
            assert(ps.push(text).drop_last() =~= ps);
            assert(parts_of_pieces(true, pieces(w, true, rest)) =~= q);
        }
        assert(rendered(w, start + q) =~= prefix + rest);
        rest
    }
}

proof fn lemma_below_verbatim(dir: Seq<char>, name: Seq<char>)
    requires
        one_name(Platform::Windows, name),
        takes_names(Platform::Windows, dir),
        is_verbatim(Platform::Windows, dir),
    ensures
        parts(Platform::Windows, joined(Platform::Windows, dir, name)) == parts(
            Platform::Windows,
            dir,
        ).push(Part::Name(name)),
{
    let w = Platform::Windows;
    let empty = Seq::<char>::empty();
    lemma_one_name_is_unbroken(w, true, name);
    lemma_one_name_is_unbroken(w, false, name);
    let end = prefix_end(w, dir);
    let prefix = dir.take(end);
    let old = dir.skip(end);
    if is_verbatim_share(dir) {
        lemma_sep_from(true, dir, 8);
        let server = sep_from(true, dir, 8);
        lemma_sep_from(true, dir, server + 1);
    } else {
        lemma_sep_from(true, dir, 4);
    }
    assert(dir[end] == '\\');
    assert(old[0] == dir[end]);
    let q = parts_of_pieces(true, pieces(w, true, old));
    lemma_pieces_are_unbroken(old);
    lemma_parts_are_writable(pieces(w, true, old));
    let start = seq![Part::Prefix(prefix), Part::Root];
    assert(beginning(w, dir) =~= start);
    assert(parts(w, dir) == start + q);
    let more = q.push(Part::Name(name));
    assert forall|i: int| 0 <= i < more.len() implies writable(#[trigger] more[i]) by {
        if i < q.len() {
            assert(more[i] == q[i]);
        }
    }
    // The name by itself is one part.
    assert(name.skip(0) =~= name);
    lemma_one_more(w, false, empty, '\\', name);
    assert(beginning(w, name) =~= Seq::<Part>::empty());
    assert(parts(w, name) =~= seq![Part::Name(name)]);
    let one = seq![Part::Name(name)];
    assert(one.drop_last() =~= Seq::<Part>::empty());
    assert(followed(start + q, one.drop_last()) == start + q);
    assert(followed(start + q, one) =~= start + more);
    let rest = lemma_written_below(prefix, more);
    let whole = joined(w, dir, name);
    assert(whole == prefix + rest);
    // The prefix is read back: it ends at the same separator.
    assert(forall|i: int| 0 <= i < end ==> whole[i] == dir[i]);
    assert(whole[end] == '\\');
    assert(is_verbatim(w, whole));
    let cut_short = dir.take(end);
    lemma_cut_at(dir, end);
    lemma_sep_stays(true, cut_short, rest, 4);
    if is_verbatim_share(dir) {
        lemma_sep_stays(true, cut_short, rest, 8);
        let server = sep_from(true, dir, 8);
        lemma_sep_stays(true, cut_short, rest, server + 1);
        assert(is_verbatim_share(whole));
        assert(prefix_end(w, whole) == end);
    } else {
        assert(!is_verbatim_share(whole)) by {
            if is_verbatim_share(whole) {
                if end >= 8 {
                    assert(is_verbatim_share(dir));
                } else if end == 7 {
                    assert(dir[7] == '\\');
                } else {
                    assert(whole[end] != '\\');
                }
            }
        }
        assert(prefix_end(w, whole) == end);
    }
    assert(whole.take(end) =~= prefix);
    assert(whole.skip(end) =~= rest);
    assert(beginning(w, whole) =~= start);
    assert(parts(w, whole) =~= (start + q).push(Part::Name(name)));
}

/// Up to its first separator, a text is cut short without a change of where
/// separators are found before.
proof fn lemma_cut_at(s: Seq<char>, end: int)
    requires
        0 <= end <= s.len(),
    ensures
        forall|from: int|
            0 <= from <= end ==> (#[trigger] sep_from(true, s.take(end), from)) == (if sep_from(
                true,
                s,
                from,
            ) < end {
                sep_from(true, s, from)
            } else {
                end
            }),
{
    assert forall|from: int| 0 <= from <= end implies (#[trigger] sep_from(true, s.take(end), from)) == (
    if sep_from(true, s, from) < end {
        sep_from(true, s, from)
    } else {
        end
    }) by {
        lemma_cut_from(s, end, from);
    }
}

proof fn lemma_cut_from(s: Seq<char>, end: int, from: int)
    requires
        0 <= from <= end <= s.len(),
    ensures
        sep_from(true, s.take(end), from) == (if sep_from(true, s, from) < end {
            sep_from(true, s, from)
        } else {
            end
        }),
    decreases end - from,
{
    lemma_sep_from(true, s, from);
    if from < end {
        assert(s.take(end)[from] == s[from]);
        if !is_sep(Platform::Windows, true, s[from]) {
            lemma_cut_from(s, end, from + 1);
        }
    }
}

// ---------------------------------------------------------------------------
// Laws of parts
// ---------------------------------------------------------------------------
/// A path that names a file is its parent and then that name; the root, and an
/// empty path, have neither.
pub proof fn a_path_is_its_parent_and_its_name(p: Seq<Part>, n: Seq<char>)
    ensures
        file_name_of(p) matches Some(name) ==> (parent_of(p) matches Some(parent) && p == parent.push(
            Part::Name(name),
        )),
        file_name_of(p.push(Part::Name(n))) == Some(n),
        parent_of(p.push(Part::Name(n))) == Some(p),
        parent_of(p.push(Part::Root)) is None && file_name_of(p.push(Part::Root)) is None,
        file_name_of(p.push(Part::Up)) is None && file_name_of(p.push(Part::Cur)) is None,
        parent_of(Seq::<Part>::empty()) is None && file_name_of(Seq::<Part>::empty()) is None,
{
    if file_name_of(p) is Some {
        assert(p =~= p.drop_last().push(p.last()));
    }
    assert(p.push(Part::Name(n)).drop_last() =~= p);
}

/// A path begins with itself and with what it goes on from, and with nothing
/// longer or different in a name.
pub proof fn a_path_begins_with_what_it_goes_on_from(p: Seq<Part>, more: Seq<Part>, i: int, q: Seq<Part>)
    requires
        forall|k: int| 0 <= k < p.len() ==> !((#[trigger] p[k]) is Prefix),
    ensures
        begins_with(p + more, p),
        same_parts(p, p),
        q.len() > p.len() ==> !begins_with(p, q),
        0 <= i < p.len() && i < q.len() && p[i] != q[i] ==> !begins_with(p, q),
        same_parts(p, q) ==> p == q,
{
    assert forall|k: int| 0 <= k < p.len() implies #[trigger] alike((p + more)[k], p[k]) by {
        assert((p + more)[k] == p[k]);
    }
    assert forall|k: int| 0 <= k < p.len() implies #[trigger] alike(p[k], p[k]) by {
        assert(!(p[k] is Prefix));
    }
    if 0 <= i < p.len() && i < q.len() && p[i] != q[i] {
        assert(!(p[i] is Prefix));
        assert(!alike(p[i], q[i]));
    }
    if same_parts(p, q) {
        assert forall|k: int| 0 <= k < p.len() implies p[k] == q[k] by {
            assert(!(p[k] is Prefix));
            assert(alike(p[k], q[k]));
        }
        assert(p =~= q);
    }
}

/// In a normal path a `..` takes back the name before it, a `.` takes back nothing,
/// and names stand as they are; what is normal stays as it is.
pub proof fn a_way_up_takes_back_one_name(p: Seq<Part>, n: Seq<char>)
    ensures
        normal(p.push(Part::Name(n))) == normal(p).push(Part::Name(n)),
        normal(p.push(Part::Cur)) == normal(p),
        normal(p.push(Part::Name(n)).push(Part::Up)) == normal(p),
        normal(seq![Part::Root, Part::Up]) == seq![Part::Root],
        normal(normal(p)) == normal(p),
    decreases p.len(),
{
    reveal_with_fuel(normal, 4);
    assert(p.push(Part::Name(n)).drop_last() =~= p);
    assert(p.push(Part::Cur).drop_last() =~= p);
    let q = p.push(Part::Name(n));
    assert(q.push(Part::Up).drop_last() =~= q);
    assert(normal(q).drop_last() =~= normal(p));
    assert(seq![Part::Root, Part::Up].drop_last() =~= seq![Part::Root]);
    assert(seq![Part::Root].drop_last() =~= Seq::<Part>::empty());
    lemma_normal_is_normal(p);
}

/// A prefix and a root, if any, and then names only.
spec fn in_order(p: Seq<Part>) -> bool {
    forall|i: int|
        0 <= i < p.len() ==> match #[trigger] p[i] {
            Part::Prefix(_) => i == 0,
            Part::Root => i == 0 || (i == 1 && p[0] is Prefix),
            Part::Name(_) => true,
            _ => false,
        }
}

proof fn lemma_normal_is_in_order(p: Seq<Part>)
    ensures
        in_order(normal(p)),
    decreases p.len(),
{
    if p.len() > 0 {
        lemma_normal_is_in_order(p.drop_last());
    }
}

proof fn lemma_in_order_is_normal(p: Seq<Part>)
    requires
        in_order(p),
    ensures
        normal(p) == p,
    decreases p.len(),
{
    if p.len() > 0 {
        let init = p.drop_last();
        assert forall|i: int| 0 <= i < init.len() implies match #[trigger] init[i] {
            Part::Prefix(_) => i == 0,
            Part::Root => i == 0 || (i == 1 && init[0] is Prefix),
            Part::Name(_) => true,
            _ => false,
        } by {
            assert(init[i] == p[i]);
        }
        lemma_in_order_is_normal(init);
        assert(p =~= init.push(p.last()));
        assert(p[p.len() - 1] == p.last());
        match p.last() {
            Part::Prefix(t) => {
                assert(p =~= seq![Part::Prefix(t)]);
            },
            Part::Root => {
                if p.len() == 1 {
                    assert(p =~= seq![Part::Root]);
                } else {
                    assert(p =~= seq![p[0], Part::Root]);
                }
            },
            _ => {},
        }
    }
}

proof fn lemma_normal_is_normal(p: Seq<Part>)
    ensures
        normal(normal(p)) == normal(p),
{
    lemma_normal_is_in_order(p);
    lemma_in_order_is_normal(normal(p));
}

/// On all systems but Windows a path has no prefix, is rooted exactly when it
/// starts with a slash, and a name is put below a directory after one slash.
pub proof fn a_name_is_put_after_one_slash(platform: Platform, dir: Seq<char>, name: Seq<char>)
    requires
        platform != Platform::Windows,
        name.len() > 0,
        name[0] != '/',
    ensures
        prefix_end(platform, dir) == 0,
        dir.len() > 0 && dir.last() != '/' ==> joined(platform, dir, name) == dir + "/"@ + name,
        dir.len() > 0 && dir.last() == '/' ==> joined(platform, dir, name) == dir + name,
        dir.len() == 0 ==> joined(platform, dir, name) == name,
        beginning(platform, dir) == (if dir.len() > 0 && dir[0] == '/' {
            seq![Part::Root]
        } else {
            Seq::<Part>::empty()
        }),
{
    assert(dir.skip(0) =~= dir);
    assert(beginning(platform, dir) =~= (if dir.len() > 0 && dir[0] == '/' {
        seq![Part::Root]
    } else {
        Seq::<Part>::empty()
    }));
}

/// Two pieces of text with a separator between them have the pieces of the one and
/// then those of the other.
pub proof fn pieces_lie_between_separators(
    platform: Platform,
    verbatim: bool,
    a: Seq<char>,
    sep: char,
    b: Seq<char>,
)
    requires
        is_sep(platform, verbatim, sep),
    ensures
        pieces(platform, verbatim, a.push(sep) + b) == pieces(platform, verbatim, a) + pieces(
            platform,
            verbatim,
            b,
        ),
        (forall|i: int| 0 <= i < b.len() ==> !is_sep(platform, verbatim, #[trigger] b[i])) ==> pieces(
            platform,
            verbatim,
            b,
        ) == seq![b],
        pieces(platform, verbatim, b).len() > 0,
    decreases b.len(),
{
    let whole = a.push(sep) + b;
    if b.len() == 0 {
        assert(whole =~= a.push(sep));
        assert(whole.drop_last() =~= a);
        assert(whole.last() == sep);
        assert(b =~= Seq::<char>::empty());
        assert(pieces(platform, verbatim, a).push(Seq::<char>::empty()) =~= pieces(
            platform,
            verbatim,
            a,
        ) + seq![b]);
    } else {
        let init = b.drop_last();
        pieces_lie_between_separators(platform, verbatim, a, sep, init);
        assert(whole.drop_last() =~= a.push(sep) + init);
        assert(whole.last() == b.last());
        let pa = pieces(platform, verbatim, a);
        let pi = pieces(platform, verbatim, init);
        if is_sep(platform, verbatim, b.last()) {
            assert((pa + pi).push(Seq::<char>::empty()) =~= pa + pi.push(Seq::<char>::empty()));
        } else {
            assert((pa + pi).drop_last().push((pa + pi).last().push(b.last())) =~= pa + pi.drop_last().push(
                pi.last().push(b.last()),
            ));
            if forall|i: int| 0 <= i < b.len() ==> !is_sep(platform, verbatim, #[trigger] b[i]) {
                assert forall|i: int| 0 <= i < init.len() implies !is_sep(
                    platform,
                    verbatim,
                    #[trigger] init[i],
                ) by {
                    assert(init[i] == b[i]);
                }
                assert(pi == seq![init]);
                assert(init.push(b.last()) =~= b);
                assert(seq![init].drop_last().push(init.push(b.last())) =~= seq![b]);
            }
        }
        if is_sep(platform, verbatim, b.last()) {
            assert(is_sep(platform, verbatim, b[b.len() - 1]));
        }
    }
}

/// An empty piece is no part, a `..` is a way up, a `.` counts only at the front or
/// where nothing is taken back, and any other piece is a name.
pub proof fn a_piece_is_a_name_unless_it_is_dots(piece: Seq<char>, first: bool, verbatim: bool)
    ensures
        piece.len() == 0 ==> part_of(piece, first, verbatim) is None,
        piece == "."@ ==> part_of(piece, first, verbatim) == (if first || verbatim {
            Some(Part::Cur)
        } else {
            None
        }),
        piece == ".."@ ==> part_of(piece, first, verbatim) == Some(Part::Up),
        piece.len() > 0 && piece != "."@ && piece != ".."@ ==> part_of(piece, first, verbatim) == Some(
            Part::Name(piece),
        ),
{
    reveal_strlit(".");
    reveal_strlit("..");
    assert("."@.len() == 1 && ".."@.len() == 2);
}

/// The parts of a row of pieces are those of the pieces, in order.
pub proof fn parts_follow_the_pieces(verbatim: bool, ps: Seq<Seq<char>>, piece: Seq<char>)
    ensures
        parts_of_pieces(verbatim, ps.push(piece)) == (match part_of(piece, ps.len() == 0, verbatim) {
            Some(part) => parts_of_pieces(verbatim, ps).push(part),
            None => parts_of_pieces(verbatim, ps),
        }),
        parts_of_pieces(verbatim, Seq::<Seq<char>>::empty()) == Seq::<Part>::empty(),
{
    assert(ps.push(piece).drop_last() =~= ps);
}

/// A separator is a slash, and on Windows also a backslash, which alone separates
/// where nothing is taken back.
pub proof fn separators_are_slashes(platform: Platform, c: char)
    ensures
        platform != Platform::Windows ==> (is_sep(platform, false, c) <==> c == '/'),
        is_sep(Platform::Windows, false, c) <==> c == '/' || c == '\\',
        is_sep(Platform::Windows, true, c) <==> c == '\\',
        is_drive_letter(c) <==> 'a' <= c <= 'z' || 'A' <= c <= 'Z',
{
}

/// On Windows a path with a drive starts with it, and two drives are alike whatever
/// the case of their letter.
pub proof fn drives_are_alike_in_either_case(rest: Seq<char>, a: char, b: char)
    requires
        'a' <= a <= 'z',
        b as int == a as int - 32,
    ensures
        prefix_end(Platform::Windows, seq![a, ':'] + rest) == 2,
        prefix_end(Platform::Windows, seq![b, ':'] + rest) == 2,
        alike(Part::Prefix(seq![a, ':']), Part::Prefix(seq![b, ':'])),
        alike(Part::Prefix(seq![b, ':']), Part::Prefix(seq![a, ':'])),
{
    let x = seq![a, ':'] + rest;
    let y = seq![b, ':'] + rest;
    assert(x[0] == a && x[1] == ':');
    assert(y[0] == b && y[1] == ':');
    let p = seq![a, ':'];
    let q = seq![b, ':'];
    assert forall|i: int| 0 <= i < p.len() implies #[trigger] same_meaning(p, q, i) by {
        if i == 0 {
            assert(p[0] == a && q[0] == b);
        } else {
            assert(p[1] == q[1]);
        }
    }
    assert forall|i: int| 0 <= i < p.len() implies #[trigger] same_meaning(q, p, i) by {
        if i == 0 {
            assert(p[0] == a && q[0] == b);
        } else {
            assert(p[1] == q[1]);
        }
    }
}

/// A path is written as its parts, with a separator between two names.
pub proof fn names_are_written_with_separators_between(
    platform: Platform,
    p: Seq<Part>,
    n: Seq<char>,
)
    ensures
        rendered(platform, Seq::<Part>::empty()) == Seq::<char>::empty(),
        rendered(platform, seq![Part::Name(n)]) == n,
        p.len() > 0 && p.last() is Name ==> rendered(platform, p.push(Part::Name(n))) == rendered(
            platform,
            p,
        ) + separator(platform) + n,
        p.len() > 0 && p.last() is Root ==> rendered(platform, p.push(Part::Name(n))) == rendered(
            platform,
            p,
        ) + n,
        separator(platform) == (if platform == Platform::Windows {
            "\\"@
        } else {
            "/"@
        }),
{
    reveal_with_fuel(rendered, 2);
    assert(p.push(Part::Name(n)).drop_last() =~= p);
    assert(seq![Part::Name(n)].drop_last() =~= Seq::<Part>::empty());
    assert(rendered(platform, seq![Part::Name(n)]) =~= n);
    if p.len() > 0 {
        let q = p.push(Part::Name(n));
        assert(q[q.len() - 2] == p.last());
        if p.last() is Root {
            assert(rendered(platform, q) =~= rendered(platform, p) + n);
        }
    }
}

proof fn lemma_first_sep(verbatim: bool, s: Seq<char>, from: int, at: int)
    requires
        0 <= from <= at <= s.len(),
        forall|i: int| from <= i < at ==> !is_sep(Platform::Windows, verbatim, #[trigger] s[i]),
        at == s.len() || is_sep(Platform::Windows, verbatim, s[at]),
    ensures
        sep_from(verbatim, s, from) == at,
    decreases at - from,
{
    if from < at {
        lemma_first_sep(verbatim, s, from + 1, at);
    }
}

/// On Windows the prefix of a path on a share is the two separators, the server,
/// a separator and the share, up to the next separator or the end.
pub proof fn a_share_is_its_server_and_its_name(s: Seq<char>, server_end: int, share_end: int)
    requires
        2 < server_end < share_end - 1,
        share_end <= s.len(),
        has_two_seps(s),
        !(s[2] == '.' && server_end == 3),
        !(s[2] == '?' && server_end == 3),
        forall|i: int| 2 <= i < server_end ==> !is_sep(Platform::Windows, false, #[trigger] s[i]),
        is_sep(Platform::Windows, false, s[server_end]),
        forall|i: int|
            server_end < i < share_end ==> !is_sep(Platform::Windows, false, #[trigger] s[i]),
        share_end == s.len() || is_sep(Platform::Windows, false, s[share_end]),
    ensures
        prefix_end(Platform::Windows, s) == share_end,
        beginning(Platform::Windows, s) == seq![Part::Prefix(s.take(share_end)), Part::Root],
{
    assert(!is_sep(Platform::Windows, false, s[2]));
    if server_end > 3 {
        assert(!is_sep(Platform::Windows, false, s[3]));
    }
    lemma_first_sep(false, s, 2, server_end);
    lemma_first_sep(false, s, server_end + 1, share_end);
    assert(beginning(Platform::Windows, s) =~= seq![Part::Prefix(s.take(share_end)), Part::Root]);
}

/// A path that is to be taken as it is has its drive, with what announces it, as
/// its prefix, and is told by its first four characters.
pub proof fn a_verbatim_drive_is_a_prefix(s: Seq<char>)
    requires
        s.len() >= 7,
        s[0] == '\\' && s[1] == '\\' && s[2] == '?' && s[3] == '\\',
        is_drive_letter(s[4]) && s[5] == ':' && s[6] == '\\',
    ensures
        is_verbatim(Platform::Windows, s),
        !is_verbatim(Platform::Linux, s) && !is_verbatim(Platform::MacOs, s),
        prefix_end(Platform::Windows, s) == 6,
        beginning(Platform::Windows, s) == seq![Part::Prefix(s.take(6)), Part::Root],
{
    assert(s.skip(4)[0] == s[4] && s.skip(4)[1] == s[5]);
    assert(s.skip(6)[0] == s[6]);
    assert(beginning(Platform::Windows, s) =~= seq![Part::Prefix(s.take(6)), Part::Root]);
}

/// A device has its name, up to the next separator or the end, as its prefix.
pub proof fn a_device_is_a_prefix(s: Seq<char>, end: int)
    requires
        4 <= end <= s.len(),
        has_two_seps(s),
        s[2] == '.',
        is_sep(Platform::Windows, false, s[3]),
        forall|i: int| 4 <= i < end ==> !is_sep(Platform::Windows, false, #[trigger] s[i]),
        end == s.len() || is_sep(Platform::Windows, false, s[end]),
    ensures
        prefix_end(Platform::Windows, s) == end,
{
    lemma_first_sep(false, s, 4, end);
}

/// A path behind a drive starts at the root of the drive exactly when a separator
/// follows the drive.
pub proof fn a_drive_alone_is_no_root(letter: char, rest: Seq<char>)
    requires
        is_drive_letter(letter),
    ensures
        beginning(Platform::Windows, seq![letter, ':'] + rest) == (if rest.len() > 0 && (rest[0] == '/'
            || rest[0] == '\\') {
            seq![Part::Prefix(seq![letter, ':']), Part::Root]
        } else {
            seq![Part::Prefix(seq![letter, ':'])]
        }),
{
    let s = seq![letter, ':'] + rest;
    assert(s[0] == letter && s[1] == ':');
    assert(prefix_end(Platform::Windows, s) == 2);
    assert(s.take(2) =~= seq![letter, ':']);
    assert(s.skip(2) =~= rest);
    let told = if rest.len() > 0 && (rest[0] == '/' || rest[0] == '\\') {
        seq![Part::Prefix(seq![letter, ':']), Part::Root]
    } else {
        seq![Part::Prefix(seq![letter, ':'])]
    };
    assert(beginning(Platform::Windows, s) =~= told);
}

/// Two drives that are to be taken as they are are alike whatever the case of
/// their letter, too; nothing else in such a prefix may differ.
pub proof fn verbatim_drives_are_alike_in_either_case(p: Seq<char>, q: Seq<char>)
    requires
        p.len() == 6 && q.len() == 6,
        is_verbatim(Platform::Windows, p) && is_verbatim(Platform::Windows, q),
        p[5] == ':' && q[5] == ':',
        'a' <= p[4] <= 'z',
    ensures
        alike(Part::Prefix(p), Part::Prefix(q)) <==> q[4] == p[4] || q[4] as int == p[4] as int - 32,
{
    if q[4] == p[4] || q[4] as int == p[4] as int - 32 {
        assert forall|i: int| 0 <= i < p.len() implies #[trigger] same_meaning(p, q, i) by {
            if i != 4 {
                assert(p[i] == q[i]);
            }
        }
    } else {
        assert(!same_meaning(p, q, 4));
    }
}

} // verus!

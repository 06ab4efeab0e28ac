//! Final names for received files: the name that was asked for, or the first
//! numbered variant of it that is not taken.
use vstd::prelude::*;

use crate::paths::{has_drive, one_name, texts};
use crate::platform::Platform;
use crate::receiver::validation::safe_name;
use crate::text::{is_white, trim_end, trim_start, trimmed_has_no_white_ends};
use crate::text::{
    chars_of, decimal, decimal_is_digits, decimal_is_injective, decimal_of, join5, same, string_of,
};

verus! {

broadcast use vstd::string::group_string_axioms;

/// Position of the last `.` in `s`, or -1.
pub open spec fn last_dot(s: Seq<char>) -> int
    decreases s.len(),
{
    if s.len() == 0 {
        -1
    } else if s.last() == '.' {
        s.len() - 1
    } else {
        last_dot(s.drop_last())
    }
}

/// Where the extension of `s` begins: at its last `.`, unless that is its first
/// character; at its end where there is no extension.
pub open spec fn split_at(s: Seq<char>) -> int {
    if last_dot(s) > 0 {
        last_dot(s)
    } else {
        s.len() as int
    }
}

/// The name without its extension.
pub open spec fn stem(s: Seq<char>) -> Seq<char> {
    s.take(split_at(s))
}

/// The extension with its `.`, empty where there is none.
pub open spec fn suffix(s: Seq<char>) -> Seq<char> {
    s.skip(split_at(s))
}

/// The `n`-th name tried for `filename`: itself, then numbered variants.
pub open spec fn candidate(filename: Seq<char>, n: nat) -> Seq<char> {
    if n == 0 {
        filename
    } else {
        stem(filename) + " ("@ + decimal(n) + ")"@ + suffix(filename)
    }
}

proof fn lemma_split(s: Seq<char>)
    ensures
        -1 <= last_dot(s) < s.len(),
        0 <= split_at(s) <= s.len(),
        stem(s) + suffix(s) == s,
    decreases s.len(),
{
    if s.len() > 0 {
        lemma_split(s.drop_last());
    }
    assert(stem(s) + suffix(s) =~= s);
}

/// No two candidates for one name are the same.
pub proof fn candidates_are_distinct(filename: Seq<char>, a: nat, b: nat)
    requires
        candidate(filename, a) == candidate(filename, b),
    ensures
        a == b,
{
    reveal_strlit(" (");
    reveal_strlit(")");
    lemma_split(filename);
    decimal_is_digits(a);
    decimal_is_digits(b);
    let st = stem(filename);
    let su = suffix(filename);
    assert(filename.len() == st.len() + su.len()) by {
        assert((st + su).len() == filename.len());
    }
    if a > 0 && b > 0 {
        let x = candidate(filename, a);
        let y = candidate(filename, b);
        assert(x.len() == st.len() + 2 + decimal(a).len() + 1 + su.len());
        assert(y.len() == st.len() + 2 + decimal(b).len() + 1 + su.len());
        let from = (st.len() + 2) as int;
        assert(x.subrange(from, from + decimal(a).len()) =~= decimal(a));
        assert(y.subrange(from, from + decimal(b).len()) =~= decimal(b));
        decimal_is_injective(a, b);
    }
}

/// A search for a final name: the next candidate to try.
pub struct NameSearch {
    filename: String,
    stem: String,
    suffix: String,
    n: u64,
}

impl NameSearch {
    /// The name asked for.
    pub closed spec fn asked(&self) -> Seq<char> {
        self.filename@
    }

    /// How many candidates were found taken.
    pub closed spec fn tried(&self) -> nat {
        self.n as nat
    }

    #[verifier::type_invariant]
    spec fn splits_its_name(self) -> bool {
        self.stem@ == stem(self.filename@) && self.suffix@ == suffix(self.filename@)
    }

    /// A search that has tried nothing.
    pub fn new(filename: &str) -> (search: Self)
        ensures
            search.asked() == filename@,
            search.tried() == 0,
    {
        proof {
            lemma_split(filename@);
        }
        let x = chars_of(filename);
        let mut i: usize = x.len();
        assert(x@.take(x@.len() as int) =~= x@);
        while i > 0 && x[i - 1] != '.'
            invariant
                i <= x@.len(),
                last_dot(x@) == last_dot(x@.take(i as int)),
            decreases i,
        {
            assert(x@.take(i as int).drop_last() =~= x@.take(i - 1));
            i -= 1;
        }
        let at: usize = if i > 1 {
            i - 1
        } else {
            x.len()
        };
        proof {
            if i > 0 {
                assert(x@.take(i as int).last() == '.');
            } else {
                assert(x@.take(0).len() == 0);
            }
            assert(at == split_at(x@));
        }
        let stem = string_of(&x, 0, at);
        let suffix = string_of(&x, at, x.len());
        assert(stem@ =~= self::stem(filename@));
        assert(suffix@ =~= self::suffix(filename@));
        NameSearch { filename: filename.to_string(), stem, suffix, n: 0 }
    }

    /// The candidate to try next.
    pub fn candidate(&self) -> (name: String)
        ensures
            name@ == candidate(self.asked(), self.tried()),
    {
        proof {
            use_type_invariant(self);
        }
        if self.n == 0 {
            self.filename.clone()
        } else {
            let count = decimal_of(self.n);
            join5(self.stem.as_str(), " (", count.as_str(), ")", self.suffix.as_str())
        }
    }

    /// The candidate turned out to be taken: on to the next.
    pub fn taken(self) -> (search: Self)
        requires
            self.tried() < u64::MAX,
        ensures
            search.asked() == self.asked(),
            search.tried() == self.tried() + 1,
    {
        proof {
            use_type_invariant(&self);
        }
        NameSearch { filename: self.filename, stem: self.stem, suffix: self.suffix, n: self.n + 1 }
    }

    /// The search from its beginning.
    pub fn restarted(self) -> (search: Self)
        ensures
            search.asked() == self.asked(),
            search.tried() == 0,
    {
        proof {
            use_type_invariant(&self);
        }
        NameSearch { filename: self.filename, stem: self.stem, suffix: self.suffix, n: 0 }
    }

    /// Whether a further candidate can be numbered.
    pub fn can_go_on(&self) -> (yes: bool)
        ensures
            yes <==> self.tried() < u64::MAX,
    {
        self.n < u64::MAX
    }
}

/// `name` is the first candidate for `filename` that is not in `taken`.
pub open spec fn is_first_free(
    taken: Seq<Seq<char>>,
    filename: Seq<char>,
    name: Seq<char>,
) -> bool {
    exists|n: nat| #[trigger]
        candidate(filename, n) == name && !taken.contains(name) && forall|m: nat|
            m < n ==> taken.contains(#[trigger] candidate(filename, m))
}

proof fn lemma_tried_at_most_taken(taken: Seq<Seq<char>>, filename: Seq<char>, n: nat)
    requires
        forall|m: nat| m < n ==> taken.contains(#[trigger] candidate(filename, m)),
    ensures
        n <= taken.len(),
{
    let tried = Seq::new(n, |m: int| candidate(filename, m as nat));
    assert(tried.no_duplicates()) by {
        assert forall|i: int, j: int| 0 <= i < n && 0 <= j < n && i != j implies tried[i] != tried[j] by {
            if tried[i] == tried[j] {
                candidates_are_distinct(filename, i as nat, j as nat);
            }
        }
    }
    tried.unique_seq_to_set();
    taken.lemma_cardinality_of_set();
    assert forall|x: Seq<char>| tried.to_set().contains(x) implies taken.to_set().contains(x) by {
        let i = choose|i: int| 0 <= i < tried.len() && tried[i] == x;
        assert(taken.contains(candidate(filename, i as nat)));
    }
    vstd::set_lib::lemma_len_subset(tried.to_set(), taken.to_set());
}

fn is_among(names: &Vec<String>, name: &str) -> (found: bool)
    ensures
        found <==> texts(names@).contains(name@),
{
    let mut i: usize = 0;
    while i < names.len()
        invariant
            i <= names@.len(),
            forall|j: int| 0 <= j < i ==> (#[trigger] names@[j])@ != name@,
        decreases names@.len() - i,
    {
        if same(names[i].as_str(), name) {
            assert(texts(names@)[i as int] == name@);
            return true;
        }
        i += 1;
    }
    assert forall|j: int| 0 <= j < texts(names@).len() implies texts(names@)[j] != name@ by {
        assert(names@[j]@ != name@);
    }
    false
}

/// The final name for `filename` in a directory whose entries are `taken`: the
/// first candidate that is not among them. There always is one.
pub fn resolve_filename(platform: Platform, taken: &Vec<String>, filename: &str) -> (name: String)
    requires
        one_name(platform, filename@),
    ensures
        one_name(platform, name@),
        is_first_free(texts(taken@), filename@, name@),
        !texts(taken@).contains(name@),
        !texts(taken@).contains(filename@) ==> name@ == filename@,
{
    let room: usize = taken.len();
    let mut search = NameSearch::new(filename);
    let mut name = search.candidate();
    while is_among(taken, name.as_str())
        invariant
            search.asked() == filename@,
            one_name(platform, filename@),
            search.tried() <= taken@.len(),
            taken@.len() == room,
            name@ == candidate(filename@, search.tried()),
            forall|m: nat|
                m < search.tried() ==> texts(taken@).contains(#[trigger] candidate(filename@, m)),
        decreases taken@.len() - search.tried(),
    {
        proof {
            assert forall|m: nat| m < search.tried() + 1 implies texts(taken@).contains(
                #[trigger] candidate(filename@, m),
            ) by {
                if m == search.tried() {
                    assert(candidate(filename@, m) == name@);
                }
            }
            lemma_tried_at_most_taken(texts(taken@), filename@, search.tried() + 1);
        }
        search = search.taken();
        name = search.candidate();
    }
    proof {
        a_candidate_is_one_name(platform, filename@, search.tried());
        assert(candidate(filename@, 0) == filename@);
    }
    name
}

/// A variant of a one-component name is again one component.
pub proof fn a_candidate_is_one_name(platform: Platform, filename: Seq<char>, n: nat)
    requires
        one_name(platform, filename),
    ensures
        one_name(platform, candidate(filename, n)),
{
    reveal_strlit(" (");
    reveal_strlit(")");
    reveal_strlit(".");
    reveal_strlit("..");
    lemma_split(filename);
    decimal_is_digits(n);
    if n > 0 {
        let st = stem(filename);
        let su = suffix(filename);
        assert forall|c: char| (c == '/' || c == '\\') && !filename.contains(c) implies !(
        #[trigger] candidate(filename, n).contains(c)) by {
            lemma_absent_from_candidate(filename, n, c);
        }
        lemma_begins_alike(filename, n);
        assert(candidate(filename, n).len() > 2);
    }
}

/// A variant of a safe name is again a safe name.
pub proof fn a_candidate_of_a_safe_name_is_safe(platform: Platform, filename: Seq<char>, n: nat)
    requires
        safe_name(platform, filename),
    ensures
        safe_name(platform, candidate(filename, n)),
{
    reveal_strlit(" (");
    reveal_strlit(")");
    lemma_split(filename);
    decimal_is_digits(n);
    a_candidate_is_one_name(platform, filename, n);
    if n > 0 {
        lemma_begins_alike(filename, n);
        let su = suffix(filename);
        let x = candidate(filename, n);
        assert forall|c: char| c == '\\' || c == '\0' implies !(#[trigger] x.contains(c)) by {
            lemma_absent_from_candidate(filename, n, c);
        }
        trimmed_has_no_white_ends(filename);
        assert(split_at(filename) > 0);
        assert(x[0] == filename[0]);
        if su.len() > 0 {
            assert(x.last() == su.last());
            assert(su.last() == filename.last());
        } else {
            assert(x.last() == ")"@[0]);
        }
        assert(!is_white(x[0]) && !is_white(x.last()));
        assert(trim_start(x) == x);
        assert(trim_end(x) == x);
    }
}

/// A character other than those of the numbering is in a variant only if it was
/// in the name.
proof fn lemma_absent_from_candidate(filename: Seq<char>, n: nat, c: char)
    requires
        c == '/' || c == '\\' || c == '\0',
        !filename.contains(c),
    ensures
        !candidate(filename, n).contains(c),
{
    reveal_strlit(" (");
    reveal_strlit(")");
    lemma_split(filename);
    decimal_is_digits(n);
    let st = stem(filename);
    let su = suffix(filename);
    assert forall|i: int| 0 <= i < st.len() implies st[i] != c by {
        assert(st[i] == filename[i]);
    }
    assert forall|i: int| 0 <= i < su.len() implies su[i] != c by {
        assert(su[i] == filename[split_at(filename) + i]);
    }
    lemma_absent_from_both(st, " ("@, c);
    lemma_absent_from_both(st + " ("@, decimal(n), c);
    lemma_absent_from_both(st + " ("@ + decimal(n), ")"@, c);
    lemma_absent_from_both(st + " ("@ + decimal(n) + ")"@, su, c);
}

/// A numbered variant starts with a drive only if the name did.
proof fn lemma_begins_alike(filename: Seq<char>, n: nat)
    requires
        n > 0,
        filename.len() > 0,
    ensures
        has_drive(candidate(filename, n)) ==> has_drive(filename),
{
    reveal_strlit(" (");
    lemma_split(filename);
    let x = candidate(filename, n);
    let st = stem(filename);
    assert(st.len() > 0);
    assert(x[0] == filename[0]);
    if st.len() > 1 {
        assert(x[1] == filename[1]);
    } else {
        assert(x[1] == " ("@[0]);
    }
}

proof fn lemma_absent_from_both(a: Seq<char>, b: Seq<char>, c: char)
    requires
        !a.contains(c),
        !b.contains(c),
    ensures
        !(a + b).contains(c),
{
    if (a + b).contains(c) {
        let i = choose|i: int| 0 <= i < (a + b).len() && (a + b)[i] == c;
        if i < a.len() {
            assert(a[i] == c);
        } else {
            assert(b[i - a.len()] == c);
        }
    }
}

/// A name is cut before its last dot, unless that is its first character or there
/// is none: the two halves make up the name, the first is never empty where the
/// name is not, and the second, where there is one, is the last dot and what
/// follows it.
pub proof fn a_name_is_cut_before_its_last_dot(s: Seq<char>)
    ensures
        stem(s) + suffix(s) == s,
        s.len() > 0 ==> stem(s).len() > 0,
        suffix(s).len() > 0 ==> suffix(s)[0] == '.' && forall|i: int|
            1 <= i < suffix(s).len() ==> #[trigger] suffix(s)[i] != '.',
        suffix(s).len() == 0 ==> forall|i: int| 1 <= i < s.len() ==> #[trigger] s[i] != '.',
{
    lemma_split(s);
    lemma_last_dot(s);
}

proof fn lemma_last_dot(s: Seq<char>)
    ensures
        last_dot(s) >= 0 ==> s[last_dot(s)] == '.',
        forall|i: int| last_dot(s) < i < s.len() ==> #[trigger] s[i] != '.',
    decreases s.len(),
{
    lemma_split(s);
    if s.len() > 0 && s.last() != '.' {
        let init = s.drop_last();
        lemma_split(init);
        lemma_last_dot(init);
        if last_dot(init) >= 0 {
            assert(init[last_dot(init)] == s[last_dot(init)]);
        }
        assert forall|i: int| last_dot(s) < i < s.len() implies #[trigger] s[i] != '.' by {
            if i < s.len() - 1 {
                assert(init[i] == s[i]);
            }
        }
    }
}

/// The first candidate for a name is the name itself; each further one has its
/// number, in brackets after a blank, before the extension, which it keeps.
pub proof fn a_candidate_carries_its_number(filename: Seq<char>, n: nat)
    ensures
        candidate(filename, 0) == filename,
        n > 0 ==> candidate(filename, n) == stem(filename) + " ("@ + decimal(n) + ")"@ + suffix(
            filename,
        ),
        n > 0 ==> candidate(filename, n).len() == filename.len() + 3 + decimal(n).len(),
{
    reveal_strlit(" (");
    reveal_strlit(")");
    lemma_split(filename);
    assert((stem(filename) + suffix(filename)).len() == filename.len());
}

/// There is one first free name: it is free, it is the name itself where that is
/// free, and otherwise the name itself is taken.
pub proof fn there_is_one_first_free_name(
    taken: Seq<Seq<char>>,
    filename: Seq<char>,
    a: Seq<char>,
    b: Seq<char>,
)
    requires
        is_first_free(taken, filename, a),
        is_first_free(taken, filename, b),
    ensures
        a == b,
        !taken.contains(a),
        a == filename <==> !taken.contains(filename),
{
    let m = choose|n: nat| #[trigger]
        candidate(filename, n) == a && !taken.contains(a) && forall|k: nat|
            k < n ==> taken.contains(#[trigger] candidate(filename, k));
    let n = choose|n: nat| #[trigger]
        candidate(filename, n) == b && !taken.contains(b) && forall|k: nat|
            k < n ==> taken.contains(#[trigger] candidate(filename, k));
    assert(candidate(filename, 0) == filename);
    if m < n {
        assert(taken.contains(candidate(filename, m)));
    } else if n < m {
        assert(taken.contains(candidate(filename, n)));
    }
    if m > 0 {
        assert(taken.contains(candidate(filename, 0)));
    }
}

} // verus!

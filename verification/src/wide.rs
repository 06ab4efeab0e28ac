//! Text as Windows takes it: UTF-16 units with a terminating zero.
use vstd::prelude::*;

use crate::error::{AppError, AppErrorView};
use crate::text::chars_of;

verus! {

broadcast use vstd::string::group_string_axioms;

/// The UTF-16 units of one character.
pub open spec fn units(c: char) -> Seq<u16> {
    let v = c as u32;
    if v < 0x10000 {
        seq![v as u16]
    } else {
        seq![
            (0xD800 + (v - 0x10000) / 0x400) as u16,
            (0xDC00 + (v - 0x10000) % 0x400) as u16,
        ]
    }
}

/// The UTF-16 units of a text.
pub open spec fn utf16(s: Seq<char>) -> Seq<u16>
    decreases s.len(),
{
    if s.len() == 0 {
        Seq::empty()
    } else {
        utf16(s.drop_last()) + units(s.last())
    }
}

/// The UTF-16 units of a text.
pub fn encode_wide(s: &str) -> (wide: Vec<u16>)
    ensures
        wide@ == utf16(s@),
{
    let x = chars_of(s);
    let mut wide: Vec<u16> = Vec::new();
    let mut i: usize = 0;
    assert(x@.take(0) =~= Seq::<char>::empty());
    while i < x.len()
        invariant
            i <= x@.len(),
            wide@ == utf16(x@.take(i as int)),
        decreases x@.len() - i,
    {
        let ghost had = wide@;
        let v: u32 = x[i] as u32;
        if v < 0x10000 {
            wide.push(v as u16);
        } else {
            wide.push((0xD800 + (v - 0x10000) / 0x400) as u16);
            wide.push((0xDC00 + (v - 0x10000) % 0x400) as u16);
        }
        assert(wide@ =~= had + units(x@[i as int]));
        assert(x@.take(i + 1).drop_last() =~= x@.take(i as int));
        i += 1;
    }
    assert(x@.take(i as int) =~= x@);
    wide
}

proof fn lemma_units(c: char)
    ensures
        units(c).contains(0u16) <==> c == '\0',
{
    let v = c as u32;
    if v < 0x10000 {
        assert((v as u16) as u32 == v) by (bit_vector)
            requires
                v < 0x10000,
        ;
        assert(units(c)[0] == v as u16);
    } else {
        assert(0xD800 + (v - 0x10000) / 0x400 < 0xE000);
        assert(0xDC00 + (v - 0x10000) % 0x400 < 0xE000);
        assert(units(c)[0] != 0u16 && units(c)[1] != 0u16);
    }
}

/// A unit is zero only for the character NUL.
proof fn lemma_zero_units(s: Seq<char>)
    ensures
        utf16(s).contains(0u16) <==> s.contains('\0'),
    decreases s.len(),
{
    if s.len() > 0 {
        let init = s.drop_last();
        lemma_zero_units(init);
        lemma_units(s.last());
        let w = utf16(s);
        if w.contains(0u16) {
            let i = choose|i: int| 0 <= i < w.len() && w[i] == 0u16;
            if i < utf16(init).len() {
                assert(utf16(init)[i] == 0u16);
                let j = choose|j: int| 0 <= j < init.len() && init[j] == '\0';
                assert(s[j] == '\0');
            } else {
                assert(units(s.last())[i - utf16(init).len()] == 0u16);
                assert(s[s.len() - 1] == '\0');
            }
        }
        if s.contains('\0') {
            let j = choose|j: int| 0 <= j < s.len() && s[j] == '\0';
            if j < init.len() {
                assert(init[j] == '\0');
                let i = choose|i: int| 0 <= i < utf16(init).len() && utf16(init)[i] == 0u16;
                assert(w[i] == 0u16);
            } else {
                let k = choose|k: int|
                    0 <= k < units(s.last()).len() && units(s.last())[k] == 0u16;
                assert(w[utf16(init).len() + k] == 0u16);
            }
        }
    }
}

fn has_zero(wide: &Vec<u16>) -> (yes: bool)
    ensures
        yes <==> wide@.contains(0u16),
{
    let mut i: usize = 0;
    while i < wide.len()
        invariant
            i <= wide@.len(),
            forall|j: int| 0 <= j < i ==> wide@[j] != 0u16,
        decreases wide@.len() - i,
    {
        if wide[i] == 0 {
            assert(wide@[i as int] == 0u16);
            return true;
        }
        i += 1;
    }
    false
}

/// What a wide text, or the error in its place, says.
pub open spec fn widened(wide: Result<Vec<u16>, AppError>) -> Result<Seq<u16>, AppErrorView> {
    match wide {
        Ok(w) => Ok(w@),
        Err(e) => Err(e@),
    }
}

/// `path` as a call takes it: in UTF-16, with a zero at its end and none before.
pub open spec fn wide_path(path: Seq<char>) -> Result<Seq<u16>, AppErrorView> {
    if path.contains('\0') {
        Err(AppErrorView::Validation("路径含内部 NUL"@))
    } else {
        Ok(utf16(path).push(0u16))
    }
}

/// `name` as a call takes it: as a path is taken, but not empty.
pub open spec fn wide_name(name: Seq<char>) -> Result<Seq<u16>, AppErrorView> {
    if name.len() == 0 || name.contains('\0') {
        Err(AppErrorView::Validation("相对路径名非法"@))
    } else {
        Ok(utf16(name).push(0u16))
    }
}

/// A path as Windows takes it: its units and a zero. A path with a NUL in it is
/// refused.
pub fn to_wide(path: &str) -> (wide: Result<Vec<u16>, AppError>)
    ensures
        widened(wide) == wide_path(path@),
{
    let mut wide = encode_wide(path);
    proof {
        lemma_zero_units(path@);
    }
    if has_zero(&wide) {
        return Err(AppError::validation("路径含内部 NUL".to_string()));
    }
    wide.push(0);
    Ok(wide)
}

/// A name relative to an open directory, as Windows takes it. An empty name, or
/// one with a NUL in it, is refused.
pub fn name_to_wide(name: &str) -> (wide: Result<Vec<u16>, AppError>)
    ensures
        widened(wide) == wide_name(name@),
{
    let mut wide = encode_wide(name);
    proof {
        lemma_zero_units(name@);
    }
    if name.is_empty() || has_zero(&wide) {
        return Err(AppError::validation("相对路径名非法".to_string()));
    }
    wide.push(0);
    Ok(wide)
}

/// How many bytes the name in `wide` takes without its zero, where that many can
/// be said.
pub open spec fn name_measured(wide: Seq<u16>, bytes: Result<u16, AppError>) -> bool {
    match bytes {
        Ok(n) => n == 2 * (wide.len() - 1),
        Err(e) => 2 * (wide.len() - 1) > u16::MAX && e@ == AppErrorView::Validation(
            "相对路径名过长"@,
        ),
    }
}

/// The length in bytes of a name with its terminating zero, without that zero;
/// a name that is too long for the system is refused.
pub fn relative_name_bytes(wide: &Vec<u16>) -> (bytes: Result<u16, AppError>)
    requires
        wide@.len() > 0,
    ensures
        name_measured(wide@, bytes),
{
    let name_units: usize = wide.len() - 1;
    if name_units > 32767 {
        return Err(AppError::validation("相对路径名过长".to_string()));
    }
    Ok((name_units * 2) as u16)
}

/// The character that one unit, or a pair of them, stands for.
pub open spec fn meant(u: Seq<u16>) -> int {
    if u.len() == 1 {
        u[0] as int
    } else {
        0x10000 + (u[0] - 0xD800) * 0x400 + (u[1] - 0xDC00)
    }
}

/// A character is one unit of its own value, or a pair, high before low, that
/// stands for it; only the zero character has a unit that is zero.
pub proof fn units_stand_for_their_character(c: char)
    ensures
        meant(units(c)) == c as int,
        c as int <= 0xFFFF <==> units(c).len() == 1,
        units(c).len() == 1 || units(c).len() == 2,
        units(c).len() == 2 ==> 0xD800 <= units(c)[0] <= 0xDBFF && 0xDC00 <= units(c)[1] <= 0xDFFF,
        units(c).contains(0u16) ==> c == '\0',
{
    let v = c as u32;
    if units(c).contains(0u16) {
        let i = choose|i: int| 0 <= i < units(c).len() && units(c)[i] == 0u16;
        assert(units(c)[i] == 0u16);
    }
}

/// A text is the units of its characters in a row.
pub proof fn a_wide_text_is_its_characters_in_a_row(a: Seq<char>, b: Seq<char>, c: char)
    ensures
        utf16(Seq::<char>::empty()) == Seq::<u16>::empty(),
        utf16(seq![c]) == units(c),
        utf16(a + b) == utf16(a) + utf16(b),
    decreases b.len(),
{
    reveal_with_fuel(utf16, 2);
    assert(seq![c].drop_last() =~= Seq::<char>::empty());
    assert(utf16(seq![c]) =~= units(c));
    if b.len() == 0 {
        assert(a + b =~= a);
        assert(utf16(a) + utf16(b) =~= utf16(a));
    } else {
        a_wide_text_is_its_characters_in_a_row(a, b.drop_last(), c);
        assert((a + b).drop_last() =~= a + b.drop_last());
        assert((a + b).last() == b.last());
        assert(utf16(a + b) =~= utf16(a) + utf16(b));
    }
}

/// What is handed to a call ends with its only zero, and a name that is handed
/// over is not empty; the length that is said of a name is that of its units, in
/// bytes, without the zero.
pub proof fn what_is_handed_over_ends_with_its_zero(
    text: Seq<char>,
    wide: Seq<u16>,
    bytes: Result<u16, AppError>,
)
    requires
        wide.len() > 0,
        name_measured(wide, bytes),
    ensures
        wide_path(text) is Ok <==> !text.contains('\0'),
        wide_name(text) is Ok <==> !text.contains('\0') && text.len() > 0,
        wide_path(text) matches Ok(w) ==> w.last() == 0 && w.drop_last() == utf16(text),
        wide_name(text) matches Ok(w) ==> w.last() == 0 && w.drop_last() == utf16(text),
        bytes is Ok <==> 2 * (wide.len() - 1) <= u16::MAX,
        bytes matches Ok(n) ==> n == wide.drop_last().len() + wide.drop_last().len(),
{
    assert(utf16(text).push(0u16).drop_last() =~= utf16(text));
}

} // verus!

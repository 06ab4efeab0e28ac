//! Fresh transfer ids.
use vstd::prelude::*;

use crate::platform::Platform;
use crate::receiver::validation::safe_name;
use crate::text::{is_white, trim_end, trim_start};

verus! {

broadcast use vstd::string::group_string_axioms;

/// A digit of lower-case hex.
pub open spec fn is_lower_hex(c: char) -> bool {
    '0' <= c <= '9' || 'a' <= c <= 'f'
}

/// Where the hyphens of a UUID stand.
pub open spec fn is_hyphen_place(i: int) -> bool {
    i == 8 || i == 13 || i == 18 || i == 23
}

/// The written form of a random UUID: five groups of lower-case hex digits with
/// hyphens in between, the third group starting with the version, 4.
pub open spec fn is_random_uuid(s: Seq<char>) -> bool {
    &&& s.len() == 36
    &&& forall|i: int|
        #![trigger s[i]]
        0 <= i < 36 ==> if is_hyphen_place(i) {
            s[i] == '-'
        } else {
            is_lower_hex(s[i])
        }
    &&& s[14] == '4'
}

/// A fresh random UUID, from `uuid::Uuid::new_v4().to_string()`.
///
/// Claimed of every outcome: its written form. That two calls give different
/// ids is a matter of chance and is not claimed.
#[verifier::external_body]
fn random_uuid() -> (id: String)
    ensures
        is_random_uuid(id@),
{
    uuid::Uuid::new_v4().to_string()
}

/// A fresh transfer id.
pub fn new_transfer_id() -> (id: String)
    ensures
        is_random_uuid(id@),
        forall|platform: Platform| #[trigger] safe_name(platform, id@),
{
    let id = random_uuid();
    proof {
        assert forall|platform: Platform| #[trigger] safe_name(platform, id@) by {
            a_fresh_id_is_a_safe_name(platform, id@);
        }
    }
    id
}

/// A fresh id can stand in a file name as it is.
pub proof fn a_fresh_id_is_a_safe_name(platform: Platform, id: Seq<char>)
    requires
        is_random_uuid(id),
    ensures
        safe_name(platform, id),
{
    reveal_strlit(".");
    reveal_strlit("..");
    assert forall|c: char| c == '/' || c == '\\' || c == '\0' implies !(#[trigger] id.contains(c)) by {
        if id.contains(c) {
            let i = choose|i: int| 0 <= i < id.len() && id[i] == c;
            assert(is_lower_hex(id[i]) || id[i] == '-');
        }
    }
    assert(id[1] != ':') by {
        assert(is_lower_hex(id[1]));
    }
    assert(!is_white(id[0])) by {
        assert(is_lower_hex(id[0]));
    }
    assert(!is_white(id.last())) by {
        assert(is_lower_hex(id[35]));
    }
    assert(trim_start(id) == id);
    assert(trim_end(id) == id);
}

} // verus!

//! Reading the caller's token out of an `Authorization` header.

use vstd::prelude::*;

use crate::text::{char_range, chars_of};

verus! {

/// The scheme that stands in front of the token.
pub const BEARER: &'static str = "Bearer ";

/// The number of characters of the scheme.
pub const BEARER_LEN: usize = 7;

/// `s` without every copy of `scheme` that it begins with.
pub open spec fn without_leading(s: Seq<char>, scheme: Seq<char>) -> Seq<char>
    decreases s.len(),
{
    if scheme.len() > 0 && scheme.is_prefix_of(s) {
        without_leading(s.skip(scheme.len() as int), scheme)
    } else {
        s
    }
}

/// Whether the scheme stands in `v` at position `i`.
fn scheme_at(v: &Vec<char>, i: usize) -> (r: bool)
    requires
        i <= v.len(),
    ensures
        r == BEARER@.is_prefix_of(v@.skip(i as int)),
{
    proof {
        reveal_strlit("Bearer ");
    }
    let ghost rest = v@.skip(i as int);
    if v.len() - i < BEARER_LEN {
        return false;
    }
    let r = v[i] == 'B' && v[i + 1] == 'e' && v[i + 2] == 'a' && v[i + 3] == 'r' && v[i + 4] == 'e'
        && v[i + 5] == 'r' && v[i + 6] == ' ';
    proof {
        let head = rest.subrange(0, BEARER_LEN as int);
        if r {
            assert(BEARER@ =~= head);
        } else {
            assert(head[0] == v@[i as int]);
            assert(head[1] == v@[i + 1]);
            assert(head[2] == v@[i + 2]);
            assert(head[3] == v@[i + 3]);
            assert(head[4] == v@[i + 4]);
            assert(head[5] == v@[i + 5]);
            assert(head[6] == v@[i + 6]);
        }
    }
    r
}

/// The token of an `Authorization` header: the header without the scheme in
/// front of it, however often the scheme is repeated there.
pub fn bearer_token(header: &str) -> (r: String)
    ensures
        r@ == without_leading(header@, BEARER@),
{
    proof {
        reveal_strlit("Bearer ");
    }
    let v = chars_of(header);
    let mut i: usize = 0;
    assert(v@.skip(0) =~= v@);
    while scheme_at(&v, i)
        invariant
            i <= v.len(),
            BEARER@.len() == BEARER_LEN,
            without_leading(v@, BEARER@) == without_leading(v@.skip(i as int), BEARER@),
        decreases v.len() - i,
    {
        assert(v@.skip(i as int).skip(BEARER_LEN as int) =~= v@.skip(i + BEARER_LEN));
        i += BEARER_LEN;
    }
    char_range(header, i, v.len())
}

} // verus!

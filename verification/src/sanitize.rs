//! Cleaning a transformation reply: the service is asked to put a separator
//! before its answer, and whatever it echoes up to the last separator is noise.

use vstd::prelude::*;

use crate::text::{
    char_range, chars_of, lemma_trimmed_is_a_stretch, lemma_trimmed_twice, trim_bounds, trimmed,
};

verus! {

/// The number of characters of the separator `===`.
pub const MARKER_LEN: usize = 3;

/// Whether the separator `===` stands in `s` at position `i`.
pub open spec fn marker_at(s: Seq<char>, i: int) -> bool {
    &&& 0 <= i
    &&& i + MARKER_LEN <= s.len()
    &&& s[i] == '='
    &&& s[i + 1] == '='
    &&& s[i + 2] == '='
}

/// Whether `s` holds the separator anywhere.
pub open spec fn has_marker(s: Seq<char>) -> bool {
    exists|i: int| marker_at(s, i)
}

/// Whether the separator stands at `i` and nowhere after `i`.
pub open spec fn is_last_marker(s: Seq<char>, i: int) -> bool {
    marker_at(s, i) && forall|j: int| i < j ==> !marker_at(s, j)
}

/// The position of the last separator of `s`, where it has one.
pub open spec fn last_marker(s: Seq<char>) -> int {
    choose|i: int| is_last_marker(s, i)
}

/// What is left of a reply: what follows its last separator where it has one,
/// else all of it; without white space around it either way.
pub open spec fn sanitized(s: Seq<char>) -> Seq<char> {
    if has_marker(s) {
        trimmed(s.skip(last_marker(s) + MARKER_LEN))
    } else {
        trimmed(s)
    }
}

/// A text has at most one last separator, so finding one settles what is kept.
pub proof fn lemma_sanitized_after(s: Seq<char>, i: int)
    requires
        is_last_marker(s, i),
    ensures
        has_marker(s),
        last_marker(s) == i,
        sanitized(s) == trimmed(s.skip(i + MARKER_LEN)),
{
    let c = last_marker(s);
    assert(is_last_marker(s, c));
    if c < i {
        assert(!marker_at(s, i));
    }
    if i < c {
        assert(!marker_at(s, c));
    }
}

/// A text without a separator is only trimmed.
pub proof fn lemma_sanitized_plain(s: Seq<char>)
    requires
        forall|i: int| !marker_at(s, i),
    ensures
        !has_marker(s),
        sanitized(s) == trimmed(s),
{
}

/// The separator, as a text.
pub open spec fn marker() -> Seq<char> {
    seq!['=', '=', '=']
}

/// Whatever stands before the separator is dropped: of a reply made of any
/// preamble, the separator and an answer, the trimmed answer is left, given
/// that the answer holds no separator itself and does not begin with `=`.
pub proof fn lemma_answer_behind_separator(preamble: Seq<char>, answer: Seq<char>)
    requires
        forall|i: int| !marker_at(answer, i),
        answer.len() > 0 ==> answer[0] != '=',
    ensures
        sanitized(preamble + marker() + answer) == trimmed(answer),
{
    let reply = preamble + marker() + answer;
    let at = preamble.len() as int;
    assert(reply[at] == marker()[0]);
    assert(reply[at + 1] == marker()[1]);
    assert(reply[at + 2] == marker()[2]);
    assert(marker_at(reply, at));
    assert forall|j: int| at < j implies !marker_at(reply, j) by {
        if marker_at(reply, j) {
            if j == at + 1 {
                assert(reply[j + 2] == answer[0]);
            } else if j == at + 2 {
                assert(reply[j + 1] == answer[0]);
            } else {
                let q = j - at - MARKER_LEN;
                assert(reply[j] == answer[q]);
                assert(reply[j + 1] == answer[q + 1]);
                assert(reply[j + 2] == answer[q + 2]);
                assert(marker_at(answer, q));
            }
        }
    }
    lemma_sanitized_after(reply, at);
    assert(reply.skip(at + MARKER_LEN) =~= answer);
}

/// What is left of a reply holds no separator and no white space around it:
/// cleaning it once more changes nothing.
pub proof fn lemma_sanitized_twice(s: Seq<char>)
    ensures
        !has_marker(sanitized(s)),
        sanitized(sanitized(s)) == sanitized(s),
{
    let kept = if has_marker(s) {
        s.skip(last_marker(s) + MARKER_LEN)
    } else {
        s
    };
    let offset: int = if has_marker(s) {
        last_marker(s) + MARKER_LEN
    } else {
        0
    };
    if has_marker(s) {
        let witness = choose|i: int| marker_at(s, i);
        lemma_last_marker_exists(s, witness, s.len() as int);
        assert(is_last_marker(s, last_marker(s)));
    } else {
        assert(kept.skip(0) =~= kept);
    }
    assert forall|q: int| !marker_at(kept, q) by {
        if marker_at(kept, q) {
            assert(kept[q] == s[offset + q]);
            assert(kept[q + 1] == s[offset + q + 1]);
            assert(kept[q + 2] == s[offset + q + 2]);
            assert(marker_at(s, offset + q));
        }
    }
    let (i, j) = lemma_trimmed_is_a_stretch(kept);
    let t = trimmed(kept);
    assert(t == sanitized(s));
    assert forall|q: int| !marker_at(t, q) by {
        if marker_at(t, q) {
            assert(t[q] == kept[i + q]);
            assert(t[q + 1] == kept[i + q + 1]);
            assert(t[q + 2] == kept[i + q + 2]);
            assert(marker_at(kept, i + q));
        }
    }
    lemma_sanitized_plain(t);
    lemma_trimmed_twice(kept);
}

/// A text that holds a separator at `i` below `bound` holds a last one.
proof fn lemma_last_marker_exists(s: Seq<char>, i: int, bound: int)
    requires
        marker_at(s, i),
        i < bound,
        forall|j: int| bound <= j ==> !marker_at(s, j),
    ensures
        exists|p: int| is_last_marker(s, p),
    decreases bound - i,
{
    if marker_at(s, bound - 1) {
        assert(is_last_marker(s, bound - 1));
    } else {
        assert(i < bound - 1);
        lemma_last_marker_exists(s, i, bound - 1);
    }
}

/// Cleans a reply of the transformation service: keeps what follows the last
/// `===`, or everything where there is none, and trims it.
pub fn process_output(input: String) -> (r: String)
    ensures
        r@ == sanitized(input@),
{
    let v = chars_of(input.as_str());
    let n = v.len();
    let mut start: usize = 0;
    let mut found = false;
    let mut k: usize = n;
    while k >= MARKER_LEN && !found
        invariant
            k <= n,
            n == v.len(),
            !found ==> start == 0,
            !found ==> forall|j: int| k - MARKER_LEN < j ==> !marker_at(v@, j),
            found ==> MARKER_LEN <= start <= n && is_last_marker(v@, start - MARKER_LEN),
        decreases k + (if found { 0int } else { 1int }),
    {
        if v[k - 3] == '=' && v[k - 2] == '=' && v[k - 1] == '=' {
            found = true;
            start = k;
        } else {
            k -= 1;
        }
    }
    proof {
        if found {
            lemma_sanitized_after(v@, start - MARKER_LEN);
        } else {
            assert forall|j: int| !marker_at(v@, j) by {
                if 0 <= j {
                    assert(k - MARKER_LEN < j);
                }
            }
            lemma_sanitized_plain(v@);
            assert(v@.skip(0) =~= v@);
        }
    }
    let (i, j) = trim_bounds(&v, start);
    char_range(input.as_str(), i, j)
}

} // verus!

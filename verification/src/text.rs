//! Character-level text operations: every position and length in this crate
//! counts Unicode scalar values, never bytes.

use vstd::prelude::*;
use vstd::string::StrSliceExecFns;

verus! {

/// Whether `c` is white space: the Unicode scalar values that carry the
/// `White_Space` property.
pub open spec fn is_whitespace(c: char) -> bool {
    let u = c as u32;
    ||| 0x09 <= u <= 0x0D
    ||| u == 0x20
    ||| u == 0x85
    ||| u == 0xA0
    ||| u == 0x1680
    ||| 0x2000 <= u <= 0x200A
    ||| u == 0x2028
    ||| u == 0x2029
    ||| u == 0x202F
    ||| u == 0x205F
    ||| u == 0x3000
}

/// `s` without its leading white space.
pub open spec fn trim_start(s: Seq<char>) -> Seq<char>
    decreases s.len(),
{
    if s.len() > 0 && is_whitespace(s.first()) {
        trim_start(s.drop_first())
    } else {
        s
    }
}

/// `s` without its trailing white space.
pub open spec fn trim_end(s: Seq<char>) -> Seq<char>
    decreases s.len(),
{
    if s.len() > 0 && is_whitespace(s.last()) {
        trim_end(s.drop_last())
    } else {
        s
    }
}

/// `s` without its leading and trailing white space.
pub open spec fn trimmed(s: Seq<char>) -> Seq<char> {
    trim_end(trim_start(s))
}

/// Whether `s` holds nothing but white space; the empty text is blank.
pub open spec fn is_blank(s: Seq<char>) -> bool {
    forall|i: int| 0 <= i < s.len() ==> is_whitespace(#[trigger] s[i])
}

/// If the first `i` characters of `s` are white space and the next one (if any)
/// is not, then trimming the start removes exactly those `i` characters.
pub proof fn lemma_trim_start_at(s: Seq<char>, i: int)
    requires
        0 <= i <= s.len(),
        forall|k: int| 0 <= k < i ==> is_whitespace(#[trigger] s[k]),
        i < s.len() ==> !is_whitespace(s[i]),
    ensures
        trim_start(s) == s.skip(i),
    decreases i,
{
    if i == 0 {
        assert(s.skip(0) =~= s);
    } else {
        let t = s.drop_first();
        assert forall|k: int| 0 <= k < i - 1 implies is_whitespace(#[trigger] t[k]) by {
            assert(t[k] == s[k + 1]);
        }
        lemma_trim_start_at(t, i - 1);
        assert(t.skip(i - 1) =~= s.skip(i));
    }
}

/// If the characters of `s` from `j` on are white space and the one before `j`
/// (if any) is not, then trimming the end keeps exactly the first `j` characters.
pub proof fn lemma_trim_end_at(s: Seq<char>, j: int)
    requires
        0 <= j <= s.len(),
        forall|k: int| j <= k < s.len() ==> is_whitespace(#[trigger] s[k]),
        j > 0 ==> !is_whitespace(s[j - 1]),
    ensures
        trim_end(s) == s.take(j),
    decreases s.len() - j,
{
    if j == s.len() {
        assert(s.take(j) =~= s);
    } else {
        let t = s.drop_last();
        assert forall|k: int| j <= k < t.len() implies is_whitespace(#[trigger] t[k]) by {
            assert(t[k] == s[k]);
        }
        lemma_trim_end_at(t, j);
        assert(t.take(j) =~= s.take(j));
    }
}

/// What trimming leaves of a text is a stretch of it, from `i` to `j`: only
/// white space stands before and behind the stretch, and the stretch neither
/// begins nor ends with white space.
pub proof fn lemma_trimmed_is_a_stretch(s: Seq<char>) -> (bounds: (int, int))
    ensures
        0 <= bounds.0 <= bounds.1 <= s.len(),
        trimmed(s) == s.subrange(bounds.0, bounds.1),
        forall|k: int| 0 <= k < bounds.0 ==> is_whitespace(#[trigger] s[k]),
        forall|k: int| bounds.1 <= k < s.len() ==> is_whitespace(#[trigger] s[k]),
        bounds.0 < bounds.1 ==> !is_whitespace(s[bounds.0]) && !is_whitespace(s[bounds.1 - 1]),
{
    let i = first_kept(s, 0);
    lemma_first_kept(s, 0);
    lemma_trim_start_at(s, i);
    let j = last_kept(s, i, s.len() as int);
    lemma_last_kept(s, i, s.len() as int);
    let mid = s.skip(i);
    assert forall|k: int| j - i <= k < mid.len() implies is_whitespace(#[trigger] mid[k]) by {
        assert(mid[k] == s[k + i]);
    }
    if j - i > 0 {
        assert(mid[j - i - 1] == s[j - 1]);
    }
    lemma_trim_end_at(mid, j - i);
    assert(mid.take(j - i) =~= s.subrange(i, j));
    (i, j)
}

/// The first position from `from` on that holds no white space; the length of
/// `s` where there is none.
spec fn first_kept(s: Seq<char>, from: int) -> int
    decreases s.len() - from,
{
    if 0 <= from < s.len() && is_whitespace(s[from]) {
        first_kept(s, from + 1)
    } else {
        from
    }
}

/// `first_kept` finds what its name says: white space alone lies between
/// `from` and it, and none at it.
proof fn lemma_first_kept(s: Seq<char>, from: int)
    requires
        0 <= from <= s.len(),
    ensures
        from <= first_kept(s, from) <= s.len(),
        forall|k: int| from <= k < first_kept(s, from) ==> is_whitespace(#[trigger] s[k]),
        first_kept(s, from) < s.len() ==> !is_whitespace(s[first_kept(s, from)]),
    decreases s.len() - from,
{
    if from < s.len() && is_whitespace(s[from]) {
        lemma_first_kept(s, from + 1);
    }
}

/// The end of the last stretch before `to` that holds no white space, and
/// `low` where there is none past `low`.
spec fn last_kept(s: Seq<char>, low: int, to: int) -> int
    decreases to - low,
{
    if low < to <= s.len() && 0 <= low && is_whitespace(s[to - 1]) {
        last_kept(s, low, to - 1)
    } else {
        to
    }
}

/// `last_kept` finds what its name says: white space alone lies between it
/// and `to`, and none just before it.
proof fn lemma_last_kept(s: Seq<char>, low: int, to: int)
    requires
        0 <= low <= to <= s.len(),
    ensures
        low <= last_kept(s, low, to) <= to,
        forall|k: int| last_kept(s, low, to) <= k < to ==> is_whitespace(#[trigger] s[k]),
        last_kept(s, low, to) > low ==> !is_whitespace(s[last_kept(s, low, to) - 1]),
    decreases to - low,
{
    if low < to && is_whitespace(s[to - 1]) {
        lemma_last_kept(s, low, to - 1);
    }
}

/// Trimming a trimmed text changes nothing.
pub proof fn lemma_trimmed_twice(s: Seq<char>)
    ensures
        trimmed(trimmed(s)) == trimmed(s),
{
    let (i, j) = lemma_trimmed_is_a_stretch(s);
    let t = trimmed(s);
    if t.len() > 0 {
        assert(t[0] == s[i]);
        assert(t[t.len() - 1] == s[j - 1]);
    }
    lemma_trim_start_at(t, 0);
    assert(t.skip(0) =~= t);
    lemma_trim_end_at(t, t.len() as int);
    assert(t.take(t.len() as int) =~= t);
}

/// A text is blank exactly when trimming leaves nothing of it.
pub proof fn lemma_blank_iff_trimmed_empty(s: Seq<char>)
    ensures
        is_blank(s) <==> trimmed(s).len() == 0,
    decreases s.len(),
{
    if s.len() > 0 && is_whitespace(s.first()) {
        let t = s.drop_first();
        lemma_blank_iff_trimmed_empty(t);
        if is_blank(s) {
            assert forall|i: int| 0 <= i < t.len() implies is_whitespace(#[trigger] t[i]) by {
                assert(t[i] == s[i + 1]);
            }
        }
        if is_blank(t) {
            assert forall|i: int| 0 <= i < s.len() implies is_whitespace(#[trigger] s[i]) by {
                if i > 0 {
                    assert(s[i] == t[i - 1]);
                }
            }
        }
    } else if s.len() > 0 {
        lemma_trim_end_keeps_first(s);
    }
}

/// Trimming the end of a text that starts with a character other than white
/// space leaves that character in place.
proof fn lemma_trim_end_keeps_first(s: Seq<char>)
    requires
        s.len() > 0,
        !is_whitespace(s.first()),
    ensures
        trim_end(s).len() > 0,
    decreases s.len(),
{
    if is_whitespace(s.last()) {
        assert(s.len() > 1);
        lemma_trim_end_keeps_first(s.drop_last());
    }
}

/// The first `k` characters of `s`; all of `s` where it has fewer.
pub open spec fn first_chars(s: Seq<char>, k: nat) -> Seq<char> {
    if k <= s.len() {
        s.take(k as int)
    } else {
        s
    }
}

/// What follows the first `k` characters of `s`; nothing where it has fewer.
pub open spec fn chars_after(s: Seq<char>, k: nat) -> Seq<char> {
    if k <= s.len() {
        s.skip(k as int)
    } else {
        Seq::empty()
    }
}

/// The two parts that a position cuts a text into make up the text again.
pub proof fn lemma_split_joins(s: Seq<char>, k: nat)
    ensures
        first_chars(s, k) + chars_after(s, k) == s,
        first_chars(s, k).len() + chars_after(s, k).len() == s.len(),
        first_chars(s, k).len() == if k <= s.len() { k } else { s.len() },
{
    assert(first_chars(s, k) + chars_after(s, k) =~= s);
}

/// Whether `c` is white space.
pub fn char_is_whitespace(c: char) -> (b: bool)
    ensures
        b == is_whitespace(c),
{
    let u: u32 = c as u32;
    (0x09 <= u && u <= 0x0D) || u == 0x20 || u == 0x85 || u == 0xA0 || u == 0x1680 || (0x2000 <= u
        && u <= 0x200A) || u == 0x2028 || u == 0x2029 || u == 0x202F || u == 0x205F || u == 0x3000
}

/// The scalar values of `s`, in order, for constant-time indexing.
pub fn chars_of(s: &str) -> (v: Vec<char>)
    ensures
        v@ == s@,
{
    let mut v: Vec<char> = Vec::new();
    for c in it: s.chars()
        invariant
            it.seq() == s@,
            v@ == s@.take(it.index() as int),
    {
        v.push(c);
        assert(s@.take(it.index() + 1) =~= s@.take(it.index() as int).push(c));
    }
    assert(s@.take(s@.len() as int) =~= s@);
    v
}

/// The bounds `(i, j)` of what trimming leaves of the characters of `v` from
/// position `from` on.
pub fn trim_bounds(v: &Vec<char>, from: usize) -> (bounds: (usize, usize))
    requires
        from <= v.len(),
    ensures
        from <= bounds.0 <= bounds.1 <= v.len(),
        trimmed(v@.skip(from as int)) == v@.subrange(bounds.0 as int, bounds.1 as int),
        forall|k: int| from <= k < bounds.0 ==> is_whitespace(#[trigger] v@[k]),
        forall|k: int| bounds.1 <= k < v.len() ==> is_whitespace(#[trigger] v@[k]),
        bounds.0 < bounds.1 ==> !is_whitespace(v@[bounds.0 as int]) && !is_whitespace(
            v@[bounds.1 - 1],
        ),
        bounds.0 == bounds.1 ==> bounds.0 == v.len(),
{
    let n = v.len();
    let ghost tail = v@.skip(from as int);
    let mut i: usize = from;
    while i < n && char_is_whitespace(v[i])
        invariant
            from <= i <= n,
            n == v.len(),
            forall|k: int| from <= k < i ==> is_whitespace(#[trigger] v@[k]),
        decreases n - i,
    {
        i += 1;
    }
    let mut j: usize = n;
    while j > i && char_is_whitespace(v[j - 1])
        invariant
            i <= j <= n,
            n == v.len(),
            forall|k: int| j <= k < n ==> is_whitespace(#[trigger] v@[k]),
        decreases j,
    {
        j -= 1;
    }
    proof {
        assert forall|k: int| 0 <= k < i - from implies is_whitespace(#[trigger] tail[k]) by {
            assert(tail[k] == v@[k + from]);
        }
        lemma_trim_start_at(tail, i - from);
        let mid = tail.skip(i - from);
        assert(mid =~= v@.skip(i as int));
        assert forall|k: int| j - i <= k < mid.len() implies is_whitespace(#[trigger] mid[k]) by {
            assert(mid[k] == v@[k + i]);
        }
        lemma_trim_end_at(mid, j - i);
        assert(mid.take(j - i) =~= v@.subrange(i as int, j as int));
    }
    (i, j)
}

/// Whether `s` holds nothing but white space.
pub fn str_is_blank(s: &str) -> (b: bool)
    ensures
        b == is_blank(s@),
{
    let v = chars_of(s);
    let mut i: usize = 0;
    while i < v.len()
        invariant
            i <= v.len(),
            v@ == s@,
            forall|k: int| 0 <= k < i ==> is_whitespace(#[trigger] v@[k]),
        decreases v.len() - i,
    {
        if !char_is_whitespace(v[i]) {
            return false;
        }
        i += 1;
    }
    true
}

/// Whether `text` begins with `prefix`, character for character.
pub fn str_starts_with(text: &str, prefix: &str) -> (b: bool)
    ensures
        b == prefix@.is_prefix_of(text@),
{
    let t = chars_of(text);
    let p = chars_of(prefix);
    if p.len() > t.len() {
        return false;
    }
    let mut i: usize = 0;
    while i < p.len()
        invariant
            i <= p.len() <= t.len(),
            t@ == text@,
            p@ == prefix@,
            forall|k: int| 0 <= k < i ==> t@[k] == p@[k],
        decreases p.len() - i,
    {
        if t[i] != p[i] {
            assert(t@.subrange(0, p@.len() as int)[i as int] != p@[i as int]);
            return false;
        }
        i += 1;
    }
    assert(p@ =~= t@.subrange(0, p@.len() as int));
    true
}

/// Whether `a` and `b` are the same text.
pub fn str_eq(a: &str, b: &str) -> (r: bool)
    ensures
        r == (a@ == b@),
{
    let x = chars_of(a);
    let y = chars_of(b);
    if x.len() != y.len() {
        return false;
    }
    let mut i: usize = 0;
    while i < x.len()
        invariant
            i <= x.len(),
            x.len() == y.len(),
            x@ == a@,
            y@ == b@,
            forall|k: int| 0 <= k < i ==> x@[k] == y@[k],
        decreases x.len() - i,
    {
        if x[i] != y[i] {
            return false;
        }
        i += 1;
    }
    assert(x@ =~= y@);
    true
}

/// The number of characters of `s`.
pub fn char_len(s: &str) -> (n: usize)
    ensures
        n == s@.len(),
{
    s.unicode_len()
}

/// The characters of `s` from position `from` up to position `to`.
pub fn char_range(s: &str, from: usize, to: usize) -> (r: String)
    requires
        from <= to <= s@.len(),
    ensures
        r@ == s@.subrange(from as int, to as int),
{
    s.substring_char(from, to).to_owned()
}

/// The first `k` characters of `s`; all of `s` where it has fewer.
pub fn str_first_chars(s: &str, k: usize) -> (r: String)
    ensures
        r@ == first_chars(s@, k as nat),
{
    let n = s.unicode_len();
    let to = if k <= n { k } else { n };
    assert(s@.subrange(0, n as int) =~= s@);
    char_range(s, 0, to)
}

/// What follows the first `k` characters of `s`; nothing where it has fewer.
pub fn str_chars_after(s: &str, k: usize) -> (r: String)
    ensures
        r@ == chars_after(s@, k as nat),
{
    let n = s.unicode_len();
    let from = if k <= n { k } else { n };
    assert(s@.subrange(n as int, n as int) =~= Seq::<char>::empty());
    char_range(s, from, n)
}

} // verus!

//! A JSON document as the library reads it: objects, arrays and strings.
//! What the service answers arrives in this form.

use vstd::prelude::*;

use crate::text::str_eq;

verus! {

/// A JSON value. Numbers, booleans and null are one case: the library reads
/// none of them.
#[derive(Debug, PartialEq, Eq)]
pub enum Json {
    /// A number, a boolean or null.
    Scalar,
    /// A string.
    Text(String),
    /// An array, its elements in order.
    Array(Vec<Json>),
    /// An object, its members in order. Where two members share a key, the
    /// first one is the member of that key.
    Object(Vec<(String, Json)>),
}

/// The value of the first of `members` whose key is `key`.
pub open spec fn find_member(members: Seq<(String, Json)>, key: Seq<char>) -> Option<Json>
    decreases members.len(),
{
    if members.len() == 0 {
        None
    } else if members.first().0@ == key {
        Some(members.first().1)
    } else {
        find_member(members.drop_first(), key)
    }
}

/// From position `from` on, the first of `members` whose key is `key` is the
/// one that `find_member` finds in what is left from there.
proof fn lemma_find_member_skips(members: Seq<(String, Json)>, key: Seq<char>, from: int)
    requires
        0 <= from < members.len(),
        members[from].0@ != key,
    ensures
        find_member(members.skip(from), key) == find_member(members.skip(from + 1), key),
{
    assert(members.skip(from).drop_first() =~= members.skip(from + 1));
}

impl Json {
    /// The member `key` of an object; a value that is no object has none.
    pub open spec fn member_of(self, key: Seq<char>) -> Option<Json> {
        match self {
            Json::Object(members) => find_member(members@, key),
            _ => None,
        }
    }

    /// The element at `index` of an array; a value that is no array has none.
    pub open spec fn element_of(self, index: int) -> Option<Json> {
        match self {
            Json::Array(elements) => if 0 <= index < elements@.len() {
                Some(elements@[index])
            } else {
                None
            },
            _ => None,
        }
    }

    /// The text of a string; a value that is no string has none.
    pub open spec fn text_of(self) -> Option<Seq<char>> {
        match self {
            Json::Text(t) => Some(t@),
            _ => None,
        }
    }

    /// The member `key` of an object.
    pub fn member(&self, key: &str) -> (r: Option<&Json>)
        ensures
            match r {
                Some(v) => self.member_of(key@) == Some(*v),
                None => self.member_of(key@) is None,
            },
    {
        match self {
            Json::Object(members) => {
                let mut i: usize = 0;
                assert(members@.skip(0) =~= members@);
                while i < members.len()
                    invariant
                        i <= members.len(),
                        self.member_of(key@) == find_member(members@, key@),
                        find_member(members@, key@) == find_member(members@.skip(i as int), key@),
                    decreases members.len() - i,
                {
                    if str_eq(members[i].0.as_str(), key) {
                        assert(members@.skip(i as int).first() == members@[i as int]);
                        return Some(&members[i].1);
                    }
                    proof {
                        lemma_find_member_skips(members@, key@, i as int);
                    }
                    i += 1;
                }
                None
            },
            _ => None,
        }
    }

    /// The element at `index` of an array.
    pub fn element(&self, index: usize) -> (r: Option<&Json>)
        ensures
            match r {
                Some(v) => self.element_of(index as int) == Some(*v),
                None => self.element_of(index as int) is None,
            },
    {
        match self {
            Json::Array(elements) => if index < elements.len() {
                Some(&elements[index])
            } else {
                None
            },
            _ => None,
        }
    }

    /// The text of a string.
    pub fn text(&self) -> (r: Option<&String>)
        ensures
            match r {
                Some(t) => self.text_of() == Some(t@),
                None => self.text_of() is None,
            },
    {
        match self {
            Json::Text(t) => Some(t),
            _ => None,
        }
    }
}

} // verus!

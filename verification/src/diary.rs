//! Diaries: a slot identifier and a non-empty text.

use vstd::prelude::*;

use crate::error::DomainError;
use crate::text::{char_len, chars_after, first_chars, str_chars_after, str_first_chars};

verus! {

/// The identifier of the source diary, the one the user writes.
pub const HUMAN_ID: i32 = 0;

/// The number of style variants kept beside the source diary.
pub const VARIANT_COUNT: i32 = 4;

/// Whether `id` names a diary slot: `HUMAN_ID` is the source diary,
/// `1..=VARIANT_COUNT` are the style variants.
pub open spec fn is_slot(id: int) -> bool {
    HUMAN_ID <= id <= VARIANT_COUNT
}

/// Whether `id` names a style variant.
pub open spec fn is_variant(id: int) -> bool {
    1 <= id <= VARIANT_COUNT
}

/// A slot number that has been checked against the range of slots.
#[derive(Debug, PartialEq, Eq)]
pub struct ValidDiaryId(i32);

impl View for ValidDiaryId {
    type V = int;

    closed spec fn view(&self) -> int {
        self.0 as int
    }
}

impl ValidDiaryId {
    /// Every value of this type names a slot.
    #[verifier::type_invariant]
    pub closed spec fn wf(self) -> bool {
        is_slot(self.0 as int)
    }

    /// Accepts `id` exactly when it names a slot.
    pub fn new(id: i32) -> (r: Result<Self, DomainError>)
        ensures
            match r {
                Ok(v) => is_slot(id as int) && v@ == id,
                Err(e) => !is_slot(id as int) && e.is_validation("invalid diary id"@),
            },
    {
        if HUMAN_ID <= id && id <= VARIANT_COUNT {
            Ok(ValidDiaryId(id))
        } else {
            Err(DomainError::Validation("invalid diary id".to_string()))
        }
    }

    /// The slot number.
    pub fn value(&self) -> (r: i32)
        ensures
            r == self@,
            is_slot(r as int),
    {
        proof {
            use_type_invariant(self);
        }
        self.0
    }
}

impl Clone for ValidDiaryId {
    fn clone(&self) -> (r: Self)
        ensures
            r == *self,
    {
        proof {
            use_type_invariant(self);
        }
        ValidDiaryId(self.0)
    }
}

/// Names one diary slot of a user.
#[derive(Debug, PartialEq, Eq)]
pub struct DiaryId {
    id: ValidDiaryId,
}

impl View for DiaryId {
    type V = int;

    closed spec fn view(&self) -> int {
        self.id@
    }
}

impl DiaryId {
    /// Accepts `id` exactly when it names a slot.
    pub fn new(id: i32) -> (r: Result<DiaryId, DomainError>)
        ensures
            match r {
                Ok(v) => is_slot(id as int) && v@ == id,
                Err(e) => !is_slot(id as int) && e.is_validation("invalid diary id"@),
            },
    {
        match ValidDiaryId::new(id) {
            Ok(valid_id) => Ok(DiaryId { id: valid_id }),
            Err(e) => Err(e),
        }
    }

    /// The identifier of slot `id`, for a number known to name a slot.
    pub fn of_slot(id: i32) -> (r: DiaryId)
        requires
            is_slot(id as int),
        ensures
            r@ == id,
    {
        DiaryId { id: ValidDiaryId(id) }
    }

    /// The identifier of the source diary.
    pub fn human() -> (r: DiaryId)
        ensures
            r@ == HUMAN_ID,
    {
        DiaryId { id: ValidDiaryId(HUMAN_ID) }
    }

    /// Whether this is the slot of the source diary.
    pub fn is_human(&self) -> (r: bool)
        ensures
            r == (self@ == HUMAN_ID),
    {
        self.id.value() == HUMAN_ID
    }

    /// The slot number.
    pub fn to_id(&self) -> (r: i32)
        ensures
            r == self@,
            is_slot(r as int),
    {
        self.id.value()
    }
}

impl Clone for DiaryId {
    fn clone(&self) -> (r: Self)
        ensures
            r == *self,
    {
        DiaryId { id: self.id.clone() }
    }
}

/// The text of a diary: never empty.
#[derive(Debug, PartialEq, Eq)]
pub struct DiaryContent {
    value: String,
}

impl View for DiaryContent {
    type V = Seq<char>;

    closed spec fn view(&self) -> Seq<char> {
        self.value@
    }
}

impl DiaryContent {
    /// Every value of this type holds at least one character.
    #[verifier::type_invariant]
    pub closed spec fn wf(self) -> bool {
        self.value@.len() > 0
    }

    /// Accepts `content` exactly when it is not empty.
    pub fn new(content: String) -> (r: Result<DiaryContent, DomainError>)
        ensures
            match r {
                Ok(c) => content@.len() > 0 && c@ == content@,
                Err(e) => content@.len() == 0 && e.is_validation(
                    "diary content must not be empty"@,
                ),
            },
    {
        if content.as_str().is_empty() {
            Err(DomainError::Validation("diary content must not be empty".to_string()))
        } else {
            Ok(DiaryContent { value: content })
        }
    }

    /// The content made of `content`, for a text known not to be empty.
    pub fn of_text(content: String) -> (r: DiaryContent)
        requires
            content@.len() > 0,
        ensures
            r@ == content@,
    {
        DiaryContent { value: content }
    }

    /// The text.
    pub fn to_value(&self) -> (r: &String)
        ensures
            r@ == self@,
            r@.len() > 0,
    {
        proof {
            use_type_invariant(self);
        }
        &self.value
    }

    /// The text.
    pub fn to_str(&self) -> (r: &str)
        ensures
            r@ == self@,
            r@.len() > 0,
    {
        proof {
            use_type_invariant(self);
        }
        self.value.as_str()
    }

    /// The number of characters of the text.
    pub fn to_length(&self) -> (r: usize)
        ensures
            r == self@.len(),
            r > 0,
    {
        proof {
            use_type_invariant(self);
        }
        char_len(self.value.as_str())
    }

    /// What follows the first `nth` characters.
    pub fn get_from(&self, nth: usize) -> (r: String)
        ensures
            r@ == chars_after(self@, nth as nat),
    {
        str_chars_after(self.value.as_str(), nth)
    }

    /// The first `nth` characters.
    pub fn get_to(&self, nth: usize) -> (r: String)
        ensures
            r@ == first_chars(self@, nth as nat),
    {
        str_first_chars(self.value.as_str(), nth)
    }
}

impl Clone for DiaryContent {
    fn clone(&self) -> (r: Self)
        ensures
            r == *self,
    {
        proof {
            use_type_invariant(self);
        }
        DiaryContent { value: self.value.clone() }
    }
}

/// What a diary is, as plain values: its slot and its text.
pub struct DiaryView {
    pub id: int,
    pub content: Seq<char>,
}

/// One diary of a user: the slot it fills and its text. A diary is never
/// changed; a new text makes a new diary.
#[derive(Debug, PartialEq, Eq)]
pub struct Diary {
    id: DiaryId,
    content: DiaryContent,
}

impl View for Diary {
    type V = DiaryView;

    closed spec fn view(&self) -> DiaryView {
        DiaryView { id: self.id@, content: self.content@ }
    }
}

impl Diary {
    /// Pairs a slot with a text; every pair is a diary.
    pub fn new(id: DiaryId, content: DiaryContent) -> (r: Result<Diary, DomainError>)
        ensures
            r matches Ok(d) && d@.id == id@ && d@.content == content@,
    {
        Ok(Diary { id, content })
    }

    /// Pairs a slot with a text.
    pub fn of_parts(id: DiaryId, content: DiaryContent) -> (r: Diary)
        ensures
            r@.id == id@,
            r@.content == content@,
    {
        Diary { id, content }
    }

    /// The slot.
    pub fn id(&self) -> (r: &DiaryId)
        ensures
            r@ == self@.id,
    {
        &self.id
    }

    /// The text.
    pub fn content(&self) -> (r: &DiaryContent)
        ensures
            r@ == self@.content,
    {
        &self.content
    }
}

impl Clone for Diary {
    fn clone(&self) -> (r: Self)
        ensures
            r == *self,
    {
        Diary { id: self.id.clone(), content: self.content.clone() }
    }
}

} // verus!

//! A user and the diaries kept for them: the source diary and one diary per
//! style variant, each present or not yet written.

use chrono::NaiveDateTime;
use vstd::prelude::*;

use crate::diary::{is_slot, Diary, DiaryId};
use crate::error::DomainError;

verus! {

/// `chrono::NaiveDateTime`, a date and time without a time zone. The library
/// carries such values through and never looks inside.
#[verifier::external_type_specification]
#[verifier::external_body]
pub struct ExNaiveDateTime(NaiveDateTime);

/// Names a user. The name is given from outside and is never made here.
#[derive(Debug, PartialEq, Eq)]
pub struct UserId {
    id: String,
}

impl View for UserId {
    type V = Seq<char>;

    closed spec fn view(&self) -> Seq<char> {
        self.id@
    }
}

impl UserId {
    /// Every text names a user.
    pub fn new(id: String) -> (r: Result<UserId, DomainError>)
        ensures
            r matches Ok(u) && u@ == id@,
    {
        Ok(UserId { id })
    }

    /// The identifier with the name `id`.
    pub fn of_name(id: String) -> (r: UserId)
        ensures
            r@ == id@,
    {
        UserId { id }
    }

    /// The name.
    pub fn as_str(&self) -> (r: &str)
        ensures
            r@ == self@,
    {
        self.id.as_str()
    }
}

impl Clone for UserId {
    fn clone(&self) -> (r: Self)
        ensures
            r == *self,
    {
        UserId { id: self.id.clone() }
    }
}

/// A user with their diaries and what they chose to publish.
#[derive(Debug, PartialEq, Eq)]
pub struct User {
    pub id: UserId,
    pub human_diary: Option<Diary>,
    pub ai_diary_1: Option<Diary>,
    pub ai_diary_2: Option<Diary>,
    pub ai_diary_3: Option<Diary>,
    pub ai_diary_4: Option<Diary>,
    pub is_public: Option<bool>,
    pub favorite_id: Option<DiaryId>,
    pub created_at: NaiveDateTime,
    pub updated_at: NaiveDateTime,
}

impl User {
    /// The diary in slot `id`, if that slot exists and is filled.
    pub open spec fn slot(self, id: int) -> Option<Diary> {
        if id == 0 {
            self.human_diary
        } else if id == 1 {
            self.ai_diary_1
        } else if id == 2 {
            self.ai_diary_2
        } else if id == 3 {
            self.ai_diary_3
        } else if id == 4 {
            self.ai_diary_4
        } else {
            None
        }
    }

    /// The text in slot `id`, if that slot exists and is filled.
    pub open spec fn slot_text(self, id: int) -> Option<Seq<char>> {
        match self.slot(id) {
            Some(d) => Some(d@.content),
            None => None,
        }
    }

    /// Whether each diary lies in the slot that its own identifier names.
    pub open spec fn is_consistent(self) -> bool {
        forall|id: int| is_slot(id) ==> (#[trigger] self.slot(id) matches Some(d) ==> d@.id == id)
    }

    /// A user made of the given parts.
    #[allow(clippy::too_many_arguments)]
    pub fn new(
        id: UserId,
        human_diary: Option<Diary>,
        ai_diary_1: Option<Diary>,
        ai_diary_2: Option<Diary>,
        ai_diary_3: Option<Diary>,
        ai_diary_4: Option<Diary>,
        is_public: Option<bool>,
        favorite_id: Option<DiaryId>,
        created_at: NaiveDateTime,
        updated_at: NaiveDateTime,
    ) -> (r: Self)
        ensures
            r == (User {
                id,
                human_diary,
                ai_diary_1,
                ai_diary_2,
                ai_diary_3,
                ai_diary_4,
                is_public,
                favorite_id,
                created_at,
                updated_at,
            }),
    {
        Self {
            id,
            human_diary,
            ai_diary_1,
            ai_diary_2,
            ai_diary_3,
            ai_diary_4,
            is_public,
            favorite_id,
            created_at,
            updated_at,
        }
    }

    /// This user with `diary` in the slot that the diary names, as the store
    /// leaves them once it has taken the diary.
    pub open spec fn put(self, diary: Diary) -> User {
        let id = diary@.id;
        User {
            human_diary: if id == 0 {
                Some(diary)
            } else {
                self.human_diary
            },
            ai_diary_1: if id == 1 {
                Some(diary)
            } else {
                self.ai_diary_1
            },
            ai_diary_2: if id == 2 {
                Some(diary)
            } else {
                self.ai_diary_2
            },
            ai_diary_3: if id == 3 {
                Some(diary)
            } else {
                self.ai_diary_3
            },
            ai_diary_4: if id == 4 {
                Some(diary)
            } else {
                self.ai_diary_4
            },
            ..self
        }
    }

    /// Puts `diary` into the slot that it names; whatever was there is gone.
    pub fn with_diary(self, diary: Diary) -> (r: User)
        ensures
            r == self.put(diary),
            r.slot(diary@.id) == Some(diary),
            forall|id: int| id != diary@.id ==> r.slot(id) == self.slot(id),
    {
        let n = diary.id().to_id();
        let mut r = self;
        if n == 0 {
            r.human_diary = Some(diary);
        } else if n == 1 {
            r.ai_diary_1 = Some(diary);
        } else if n == 2 {
            r.ai_diary_2 = Some(diary);
        } else if n == 3 {
            r.ai_diary_3 = Some(diary);
        } else {
            r.ai_diary_4 = Some(diary);
        }
        r
    }

    /// The user's name.
    pub fn id(&self) -> (r: &UserId)
        ensures
            *r == self.id,
    {
        &self.id
    }

    /// The source diary, if it is written.
    pub fn human_diary(&self) -> (r: &Option<Diary>)
        ensures
            *r == self.human_diary,
    {
        &self.human_diary
    }

    /// Whether the diaries are public, if that is decided.
    pub fn is_public(&self) -> (r: &Option<bool>)
        ensures
            *r == self.is_public,
    {
        &self.is_public
    }

    /// The slot of the favourite, if one is chosen.
    pub fn favorite_id(&self) -> (r: &Option<DiaryId>)
        ensures
            *r == self.favorite_id,
    {
        &self.favorite_id
    }

    /// The diary in the slot that `id` names, if it is filled.
    pub fn get_diary_by_id(&self, id: &DiaryId) -> (r: Option<&Diary>)
        ensures
            match r {
                Some(d) => self.slot(id@) == Some(*d),
                None => self.slot(id@) is None,
            },
    {
        let n = id.to_id();
        if n == 0 {
            self.human_diary.as_ref()
        } else if n == 1 {
            self.ai_diary_1.as_ref()
        } else if n == 2 {
            self.ai_diary_2.as_ref()
        } else if n == 3 {
            self.ai_diary_3.as_ref()
        } else {
            self.ai_diary_4.as_ref()
        }
    }
}

/// A copy of a diary that may be absent.
fn copy_of(diary: &Option<Diary>) -> (r: Option<Diary>)
    ensures
        r == *diary,
{
    match diary {
        Some(d) => Some(d.clone()),
        None => None,
    }
}

impl Clone for User {
    fn clone(&self) -> (r: Self)
        ensures
            r == *self,
    {
        User {
            id: self.id.clone(),
            human_diary: copy_of(&self.human_diary),
            ai_diary_1: copy_of(&self.ai_diary_1),
            ai_diary_2: copy_of(&self.ai_diary_2),
            ai_diary_3: copy_of(&self.ai_diary_3),
            ai_diary_4: copy_of(&self.ai_diary_4),
            is_public: self.is_public,
            favorite_id: match &self.favorite_id {
                Some(id) => Some(id.clone()),
                None => None,
            },
            created_at: self.created_at,
            updated_at: self.updated_at,
        }
    }
}

} // verus!

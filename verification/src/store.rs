//! The stored form of a user's diaries: which field holds which slot, how a
//! diary text is written into its field as JSON, and how a stored row becomes
//! a user again.

use chrono::NaiveDateTime;
use vstd::prelude::*;
use vstd::string::StringExecFns;

use crate::diary::{is_slot, Diary, DiaryContent, DiaryId};
use crate::error::DomainError;
use crate::user::{User, UserId};

verus! {

/// `serde_json::Error`, what the JSON codec reports when it fails.
#[verifier::external_type_specification]
#[verifier::external_body]
pub struct ExJsonError(serde_json::Error);

/// The JSON text that `serde_json::to_string` makes of a text, or `None`
/// where it reports an error.
pub uninterp spec fn json_of_text(text: Seq<char>) -> Option<Seq<char>>;

/// The text that `serde_json::from_str` reads out of a JSON text as a string,
/// or `None` where it reports an error.
pub uninterp spec fn text_of_json(json: Seq<char>) -> Option<Seq<char>>;

/// Calls `serde_json::to_string` on a text. The call's result depends on the
/// text alone, so it is `json_of_text` of the text; nothing more is claimed.
#[verifier::external_body]
fn encode_text(text: &String) -> (r: Result<String, serde_json::Error>)
    ensures
        match r {
            Ok(json) => json_of_text(text@) == Some(json@),
            Err(_) => json_of_text(text@) is None,
        },
{
    serde_json::to_string(text)
}

/// Calls `serde_json::from_str` to read a JSON text as one string. The call's
/// result depends on the JSON text alone, so it is `text_of_json` of it;
/// nothing more is claimed.
#[verifier::external_body]
fn decode_text(json: &str) -> (r: Result<String, serde_json::Error>)
    ensures
        match r {
            Ok(text) => text_of_json(json@) == Some(text@),
            Err(_) => text_of_json(json@) is None,
        },
{
    serde_json::from_str::<String>(json)
}

/// Calls `to_string` on a `serde_json::Error`: the sentence in which the codec
/// describes its failure. Nothing is claimed of it.
#[verifier::external_body]
fn describe(error: &serde_json::Error) -> (r: String) {
    error.to_string()
}

/// The name of the field that stores slot `id`.
pub open spec fn field_text(id: int) -> Seq<char> {
    if id == 0 {
        "human"@
    } else if id == 1 {
        "ai_1"@
    } else if id == 2 {
        "ai_2"@
    } else if id == 3 {
        "ai_3"@
    } else {
        "ai_4"@
    }
}

/// The name of the field that stores the diary of slot `id`.
pub fn field_name(id: &DiaryId) -> (r: &'static str)
    ensures
        r@ == field_text(id@),
{
    let n = id.to_id();
    if n == 0 {
        "human"
    } else if n == 1 {
        "ai_1"
    } else if n == 2 {
        "ai_2"
    } else if n == 3 {
        "ai_3"
    } else {
        "ai_4"
    }
}

/// No two slots share a field.
pub proof fn lemma_fields_are_distinct(a: int, b: int)
    requires
        is_slot(a),
        is_slot(b),
        a != b,
    ensures
        field_text(a) != field_text(b),
{
    reveal_strlit("human");
    reveal_strlit("ai_1");
    reveal_strlit("ai_2");
    reveal_strlit("ai_3");
    reveal_strlit("ai_4");
    let x = field_text(a);
    let y = field_text(b);
    if x.len() == y.len() && x.len() == 4 {
        assert(x[3] != y[3]);
    }
}

/// The statement that writes one diary of one user: its two parameters are
/// the JSON text of the diary and the user's name, in this order.
pub open spec fn update_statement_text(id: int) -> Seq<char> {
    "UPDATE user SET "@ + field_text(id) + " = ? WHERE user_id = ?"@
}

/// The statement that writes the diary of slot `id` of one user.
pub fn update_statement(id: &DiaryId) -> (r: String)
    ensures
        r@ == update_statement_text(id@),
{
    let mut r = String::from_str("UPDATE user SET ");
    r.append(field_name(id));
    r.append(" = ? WHERE user_id = ?");
    r
}

/// The error that stands for a failure of the JSON codec: a failure of a
/// collaborator, whose text is the sentence in which the codec describes it.
/// That sentence is the codec's own, so nothing is said of it here;
/// `DomainError::infrastructure` says what is made of any sentence.
pub fn codec_failure(error: &serde_json::Error) -> (r: DomainError)
    ensures
        r is InfrastructureError,
{
    DomainError::infrastructure(describe(error))
}

impl DiaryContent {
    /// The JSON text under which this content is stored.
    pub fn to_json(&self) -> (r: Result<String, DomainError>)
        ensures
            match r {
                Ok(json) => json_of_text(self@) == Some(json@),
                Err(e) => json_of_text(self@) is None && e is InfrastructureError,
            },
    {
        match encode_text(self.to_value()) {
            Ok(json) => Ok(json),
            Err(error) => Err(codec_failure(&error)),
        }
    }
}

/// One user as stored: every diary as the JSON text of its field, or nothing
/// where the field is empty.
#[derive(Debug, PartialEq, Eq)]
pub struct UserRow {
    pub user_id: String,
    pub human_diary: Option<String>,
    pub ai_diary_1: Option<String>,
    pub ai_diary_2: Option<String>,
    pub ai_diary_3: Option<String>,
    pub ai_diary_4: Option<String>,
    pub is_public: Option<bool>,
    pub favorite_id: Option<i32>,
    pub created_at: NaiveDateTime,
    pub updated_at: NaiveDateTime,
}

/// What a field holds, once read: `Ok(None)` for an empty field, `Ok` of the
/// text for a field whose JSON text is a string that is not empty, and `Err`
/// for any other field.
pub open spec fn read_field(stored: Option<String>) -> Result<Option<Seq<char>>, ()> {
    match stored {
        None => Ok(None),
        Some(json) => match text_of_json(json@) {
            Some(text) => if text.len() > 0 {
                Ok(Some(text))
            } else {
                Err(())
            },
            None => Err(()),
        },
    }
}

/// The diary of slot `slot` that a field's text makes: none for no text, and
/// an error for an empty text, which no diary may hold.
pub fn diary_of_text(slot: &DiaryId, text: Option<String>) -> (r: Result<Option<Diary>, DomainError>)
    ensures
        match r {
            Ok(None) => text is None,
            Ok(Some(d)) => text matches Some(t) && t@.len() > 0 && d@.id == slot@ && d@.content
                == t@,
            Err(e) => text matches Some(t) && t@.len() == 0 && e.is_validation(
                "diary content must not be empty"@,
            ),
        },
{
    match text {
        None => Ok(None),
        Some(t) => match DiaryContent::new(t) {
            Ok(content) => Ok(Some(Diary::of_parts(slot.clone(), content))),
            Err(e) => Err(e),
        },
    }
}

/// Reads the field of slot `slot`: decodes its JSON text and makes the diary.
/// A field that holds no JSON string is a failure of the store; one that
/// holds the empty text fails validation.
pub fn read_diary(slot: &DiaryId, stored: &Option<String>) -> (r: Result<Option<Diary>, DomainError>)
    ensures
        match r {
            Ok(None) => *stored is None,
            Ok(Some(d)) => read_field(*stored) == Ok::<Option<Seq<char>>, ()>(Some(d@.content))
                && d@.id == slot@,
            Err(e) => *stored matches Some(json) && match text_of_json(json@) {
                None => e is InfrastructureError,
                Some(text) => text.len() == 0 && e.is_validation(
                    "diary content must not be empty"@,
                ),
            },
        },
{
    match stored {
        None => Ok(None),
        Some(json) => match decode_text(json.as_str()) {
            Ok(text) => diary_of_text(slot, Some(text)),
            Err(error) => Err(codec_failure(&error)),
        },
    }
}

/// The stored text of slot `id` in `row`.
pub open spec fn row_field(row: UserRow, id: int) -> Option<String> {
    if id == 0 {
        row.human_diary
    } else if id == 1 {
        row.ai_diary_1
    } else if id == 2 {
        row.ai_diary_2
    } else if id == 3 {
        row.ai_diary_3
    } else {
        row.ai_diary_4
    }
}

/// What keeps a row from being a user.
pub enum RowFault {
    /// The field of this slot holds no JSON string.
    Undecodable(int),
    /// The field of this slot holds the empty text.
    Empty(int),
    /// The favourite names no slot.
    Favorite,
}

/// The fault of the field of slot `id` in `row`, if it has one.
pub open spec fn field_fault(row: UserRow, id: int) -> Option<RowFault> {
    match row_field(row, id) {
        None => None,
        Some(json) => match text_of_json(json@) {
            None => Some(RowFault::Undecodable(id)),
            Some(text) => if text.len() == 0 {
                Some(RowFault::Empty(id))
            } else {
                None
            },
        },
    }
}

/// The first fault of `row`: its fields are read in the order of the slots,
/// and the favourite after them.
pub open spec fn row_fault(row: UserRow) -> Option<RowFault> {
    if field_fault(row, 0) is Some {
        field_fault(row, 0)
    } else if field_fault(row, 1) is Some {
        field_fault(row, 1)
    } else if field_fault(row, 2) is Some {
        field_fault(row, 2)
    } else if field_fault(row, 3) is Some {
        field_fault(row, 3)
    } else if field_fault(row, 4) is Some {
        field_fault(row, 4)
    } else if row.favorite_id matches Some(n) && !is_slot(n as int) {
        Some(RowFault::Favorite)
    } else {
        None
    }
}

/// Whether `e` is the error that reports `fault`.
pub open spec fn reports(e: DomainError, fault: RowFault) -> bool {
    match fault {
        RowFault::Undecodable(_) => e is InfrastructureError,
        RowFault::Empty(_) => e.is_validation("diary content must not be empty"@),
        RowFault::Favorite => e.is_validation("invalid diary id"@),
    }
}

/// Whether `user` is what the faultless `row` stores.
pub open spec fn is_user_of(user: User, row: UserRow) -> bool {
    &&& user.id@ == row.user_id@
    &&& forall|id: int|
        is_slot(id) ==> read_field(#[trigger] row_field(row, id)) == Ok::<Option<Seq<char>>, ()>(
            user.slot_text(id),
        )
    &&& user.is_consistent()
    &&& user.is_public == row.is_public
    &&& match row.favorite_id {
        Some(n) => user.favorite_id matches Some(f) && f@ == n,
        None => user.favorite_id is None,
    }
    &&& user.created_at == row.created_at
    &&& user.updated_at == row.updated_at
}

/// Makes the user that `row` stores. A row with a fault makes none: the error
/// reports its first fault.
pub fn user_of_row(row: UserRow) -> (r: Result<User, DomainError>)
    ensures
        match r {
            Ok(user) => row_fault(row) is None && is_user_of(user, row),
            Err(e) => row_fault(row) matches Some(fault) && reports(e, fault),
        },
{
    let human_diary = match read_diary(&DiaryId::human(), &row.human_diary) {
        Ok(d) => d,
        Err(e) => {
            return Err(e);
        },
    };
    let ai_diary_1 = match read_diary(&DiaryId::of_slot(1), &row.ai_diary_1) {
        Ok(d) => d,
        Err(e) => {
            return Err(e);
        },
    };
    let ai_diary_2 = match read_diary(&DiaryId::of_slot(2), &row.ai_diary_2) {
        Ok(d) => d,
        Err(e) => {
            return Err(e);
        },
    };
    let ai_diary_3 = match read_diary(&DiaryId::of_slot(3), &row.ai_diary_3) {
        Ok(d) => d,
        Err(e) => {
            return Err(e);
        },
    };
    let ai_diary_4 = match read_diary(&DiaryId::of_slot(4), &row.ai_diary_4) {
        Ok(d) => d,
        Err(e) => {
            return Err(e);
        },
    };
    let favorite_id = match row.favorite_id {
        Some(n) => match DiaryId::new(n) {
            Ok(id) => Some(id),
            Err(e) => {
                return Err(e);
            },
        },
        None => None,
    };
    let id = UserId::of_name(row.user_id);
    let user = User::new(
        id,
        human_diary,
        ai_diary_1,
        ai_diary_2,
        ai_diary_3,
        ai_diary_4,
        row.is_public,
        favorite_id,
        row.created_at,
        row.updated_at,
    );
    assert forall|id: int| is_slot(id) implies read_field(#[trigger] row_field(row, id)) == Ok::<
        Option<Seq<char>>,
        (),
    >(user.slot_text(id)) by {
        if id == 0 {
        } else if id == 1 {
        } else if id == 2 {
        } else if id == 3 {
        } else {
        }
    }
    Ok(user)
}

} // verus!

//! The inbound surface: what a request carries, what a response carries, and
//! which status a result is reported with.

use vstd::prelude::*;
use vstd::string::StringExecFns;

use crate::diary::{is_slot, DiaryContent, DiaryId, HUMAN_ID};
use crate::error::ApplicationError;
use crate::user::User;

verus! {

/// The kind of entity that a lookup of a diary cannot do without.
pub const DIARY_ENTITY: &'static str = "Diary";

/// What is reported where there is no user to look a diary up for.
pub const NO_USER: &'static str = "Not Found";

/// The status that a request is answered with.
#[derive(Debug, Clone, Copy, PartialEq, Eq, Structural)]
pub enum Status {
    Success,
    Unauthorized,
    NotFound,
    InternalError,
}

impl Status {
    /// The HTTP status code.
    pub fn code(self) -> (r: u16)
        ensures
            r == match self {
                Status::Success => 200u16,
                Status::Unauthorized => 401u16,
                Status::NotFound => 404u16,
                Status::InternalError => 500u16,
            },
    {
        match self {
            Status::Success => 200,
            Status::Unauthorized => 401,
            Status::NotFound => 404,
            Status::InternalError => 500,
        }
    }
}

/// The status that a failed request is answered with: an unknown user or
/// diary is reported as such, every other failure as an internal error whose
/// cause is not shown.
pub fn status_of(error: &ApplicationError) -> (r: Status)
    ensures
        r == if error is NotFound {
            Status::NotFound
        } else {
            Status::InternalError
        },
{
    match error {
        ApplicationError::NotFound { .. } => Status::NotFound,
        _ => Status::InternalError,
    }
}

/// A request to mutate: the new source text.
#[derive(Debug, PartialEq, Eq)]
pub struct MutateRequest {
    pub target_text: String,
}

/// The answer to a request to mutate.
#[derive(Debug, PartialEq, Eq)]
pub struct MutateResponse {
    pub result: MutateResult,
}

/// The length of the new source, in characters.
#[derive(Debug, PartialEq, Eq)]
pub struct MutateResult {
    pub mutated_length: usize,
}

impl MutateRequest {
    /// The new source that the request carries; an empty text is none.
    pub fn content(self) -> (r: Result<DiaryContent, ApplicationError>)
        ensures
            match r {
                Ok(c) => self.target_text@.len() > 0 && c@ == self.target_text@,
                Err(e) => self.target_text@.len() == 0 && e.is_validation(
                    "diary content must not be empty"@,
                ),
            },
    {
        match DiaryContent::new(self.target_text) {
            Ok(c) => Ok(c),
            Err(e) => Err(ApplicationError::from(e)),
        }
    }
}

/// The answer to a request to mutate that ended in `outcome`: the length with
/// the status `Success`, or the status of the error and nothing else.
pub fn mutate_reply(outcome: &Result<usize, ApplicationError>) -> (r: (Status, Option<MutateResponse>))
    ensures
        match *outcome {
            Ok(length) => {
                &&& r.0 == Status::Success
                &&& r.1 matches Some(body)
                &&& body.result.mutated_length == length
            },
            Err(e) => r.1 is None && r.0 == if e is NotFound {
                Status::NotFound
            } else {
                Status::InternalError
            },
        },
{
    match outcome {
        Ok(length) => (
            Status::Success,
            Some(MutateResponse { result: MutateResult { mutated_length: *length } }),
        ),
        Err(e) => (status_of(e), None),
    }
}

/// The path of a request for a diary: the number of the slot asked for.
#[derive(Debug, PartialEq, Eq)]
pub struct DiaryRequestPath {
    pub client_id: i32,
}

impl DiaryRequestPath {
    /// The slot that the path names, if it names one.
    pub fn diary_id(&self) -> (r: Result<DiaryId, ApplicationError>)
        ensures
            match r {
                Ok(id) => is_slot(self.client_id as int) && id@ == self.client_id,
                Err(e) => !is_slot(self.client_id as int) && e.is_validation("invalid diary id"@),
            },
    {
        match DiaryId::new(self.client_id) {
            Ok(id) => Ok(id),
            Err(e) => Err(ApplicationError::from(e)),
        }
    }
}

/// The answer to a request for a diary.
#[derive(Debug, PartialEq, Eq)]
pub struct DiaryResponse {
    pub result: DiaryResult,
}

/// The text of the diary asked for, and how long it and the source are.
#[derive(Debug, PartialEq, Eq)]
pub struct DiaryResult {
    pub diary: String,
    pub mutated_length: MutatedLength,
}

/// The lengths, in characters, of the source diary and of the diary asked for.
#[derive(Debug, PartialEq, Eq)]
pub struct MutatedLength {
    pub human: usize,
    pub ai: usize,
}

/// Whether `e` reports that a diary of the user named `user_id` is missing.
pub open spec fn is_missing_diary(e: ApplicationError, user_id: Seq<char>) -> bool {
    &&& e matches ApplicationError::NotFound { entity_type, user_id: who }
    &&& entity_type@ == DIARY_ENTITY@
    &&& who@ == user_id
}

/// The diary in slot `diary_id` of the current user and that user's source
/// diary, in this order. Without a user there is nothing to look up; a user
/// who lacks either diary has it reported as missing.
pub fn get_current_user_diary(user: Option<&User>, diary_id: &DiaryId) -> (r: Result<
    (DiaryContent, DiaryContent),
    ApplicationError,
>)
    ensures
        match user {
            None => r matches Err(e) && e.is_validation(NO_USER@),
            Some(u) => match (u.slot_text(diary_id@), u.slot_text(HUMAN_ID as int)) {
                (Some(ai), Some(human)) => r matches Ok(pair) && pair.0@ == ai && pair.1@ == human,
                _ => r matches Err(e) && is_missing_diary(e, u.id@),
            },
        },
{
    match user {
        None => Err(ApplicationError::Validation(String::from_str(NO_USER))),
        Some(u) => match (u.get_diary_by_id(diary_id), u.human_diary.as_ref()) {
            (Some(ai), Some(human)) => Ok((ai.content().clone(), human.content().clone())),
            _ => Err(
                ApplicationError::NotFound {
                    entity_type: DIARY_ENTITY,
                    user_id: String::from_str(u.id.as_str()),
                },
            ),
        },
    }
}

/// The answer to a request for the diary in slot `diary_id` of `user`: its
/// text, its length and the length of the source diary.
pub fn diary_response(user: Option<&User>, diary_id: &DiaryId) -> (r: Result<
    DiaryResponse,
    ApplicationError,
>)
    ensures
        match user {
            None => r matches Err(e) && e.is_validation(NO_USER@),
            Some(u) => match (u.slot_text(diary_id@), u.slot_text(HUMAN_ID as int)) {
                (Some(ai), Some(human)) => {
                    &&& r matches Ok(body)
                    &&& body.result.diary@ == ai
                    &&& body.result.mutated_length.ai == ai.len()
                    &&& body.result.mutated_length.human == human.len()
                },
                _ => r matches Err(e) && is_missing_diary(e, u.id@),
            },
        },
{
    match get_current_user_diary(user, diary_id) {
        Ok((ai, human)) => Ok(
            DiaryResponse {
                result: DiaryResult {
                    diary: ai.to_value().clone(),
                    mutated_length: MutatedLength { human: human.to_length(), ai: ai.to_length() },
                },
            },
        ),
        Err(e) => Err(e),
    }
}

/// A request to publish: whether the diaries are public, and the favourite.
#[derive(Debug, PartialEq, Eq)]
pub struct UpdateResultRequest {
    pub favorite_id: i32,
    pub is_public: bool,
}

impl UpdateResultRequest {
    /// The slot of the favourite, if the request names one.
    pub fn favorite(&self) -> (r: Result<DiaryId, ApplicationError>)
        ensures
            match r {
                Ok(id) => is_slot(self.favorite_id as int) && id@ == self.favorite_id,
                Err(e) => !is_slot(self.favorite_id as int) && e.is_validation(
                    "invalid diary id"@,
                ),
            },
    {
        match DiaryId::new(self.favorite_id) {
            Ok(id) => Ok(id),
            Err(e) => Err(ApplicationError::from(e)),
        }
    }
}

} // verus!

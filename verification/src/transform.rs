//! The transformation worker: what is asked of the text-transformation service
//! for one style, and what becomes of its reply.

use vstd::prelude::*;
use vstd::string::StringExecFns;

use crate::diary::{is_variant, DiaryId};
use crate::error::DomainError;
use crate::json::Json;
use crate::sanitize::{process_output, sanitized};

verus! {

/// The instruction of the style that turns opinions into their opposite.
pub const PROMPT_OPPOSITE: &'static str =
    "入力テキストの感想・感情・意見を真逆の意味合いに書き換えてください。但し、口調・固有名詞と客観的事実は変更しないでください。";

/// The instruction of the optimistic style.
pub const PROMPT_OPTIMISTIC: &'static str =
    "入力テキストの感想・感情・意見など主観的な部分を楽観的に書き替えてください。但し、口調・固有名詞と客観的事実は変更しないでください。";

/// The instruction of the pessimistic style.
pub const PROMPT_PESSIMISTIC: &'static str =
    "入力テキストの感想・感情・意見など主観的な部分を悲観的に書き替えてください。但し、口調・固有名詞と客観的事実は変更しないでください。";

/// The instruction of the self-expanding style.
pub const PROMPT_SELF_EXPANDING: &'static str =
    "入力テキストの感想・感情・意見など主観的な部分を自己拡張的に書き替えてください。但し、口調・固有名詞と客観的事実は変更しないでください。";

/// What stands between the instruction and the text in a request: the demand
/// to keep line breaks, and the separator line that the reply is cut at.
pub const REQUEST_JOINT: &'static str = " ただし、改行は入力文そのままにすること。\n ================ \n";

/// The model that requests are addressed to.
pub const MODEL: &'static str = "gpt-4-turbo";

/// The role that requests speak in.
pub const ROLE: &'static str = "user";

/// What a variant shows where the service answered without a reply text.
pub const MALFORMED_SENTINEL: &'static str = "Failed to mutate text.";

/// What a variant shows where the service could not be reached.
pub const TRANSPORT_SENTINEL: &'static str = "Error communicating with API.";

/// The styles in which a source diary is rewritten, one per variant slot.
#[derive(Debug, Clone, Copy, PartialEq, Eq, Structural)]
pub enum Style {
    Opposite,
    Optimistic,
    Pessimistic,
    SelfExpanding,
}

impl Style {
    /// The variant slot that holds the diary of this style.
    pub open spec fn slot(self) -> int {
        match self {
            Style::Opposite => 1,
            Style::Optimistic => 2,
            Style::Pessimistic => 3,
            Style::SelfExpanding => 4,
        }
    }

    /// The style of slot `id`; the source slot and numbers that name no slot
    /// have none.
    pub open spec fn of_slot(id: int) -> Option<Style> {
        if id == 1 {
            Some(Style::Opposite)
        } else if id == 2 {
            Some(Style::Optimistic)
        } else if id == 3 {
            Some(Style::Pessimistic)
        } else if id == 4 {
            Some(Style::SelfExpanding)
        } else {
            None
        }
    }

    /// The instruction that this style gives to the service.
    pub open spec fn instruction_text(self) -> Seq<char> {
        match self {
            Style::Opposite => PROMPT_OPPOSITE@,
            Style::Optimistic => PROMPT_OPTIMISTIC@,
            Style::Pessimistic => PROMPT_PESSIMISTIC@,
            Style::SelfExpanding => PROMPT_SELF_EXPANDING@,
        }
    }

    /// The style of the slot numbered `id`, if that is a variant slot.
    pub fn from_slot(id: i32) -> (r: Option<Style>)
        ensures
            r == Style::of_slot(id as int),
            r is Some <==> is_variant(id as int),
    {
        if id == 1 {
            Some(Style::Opposite)
        } else if id == 2 {
            Some(Style::Optimistic)
        } else if id == 3 {
            Some(Style::Pessimistic)
        } else if id == 4 {
            Some(Style::SelfExpanding)
        } else {
            None
        }
    }

    /// The style of the diary slot `id`, if that is a variant slot.
    pub fn from_id(id: &DiaryId) -> (r: Option<Style>)
        ensures
            r == Style::of_slot(id@),
            r is Some <==> is_variant(id@),
    {
        Style::from_slot(id.to_id())
    }

    /// The style of the variant slot `id`.
    pub fn of_variant(id: &DiaryId) -> (r: Style)
        requires
            is_variant(id@),
        ensures
            Style::of_slot(id@) == Some(r),
    {
        let n = id.to_id();
        if n == 1 {
            Style::Opposite
        } else if n == 2 {
            Style::Optimistic
        } else if n == 3 {
            Style::Pessimistic
        } else {
            Style::SelfExpanding
        }
    }

    /// The number of the variant slot that holds the diary of this style.
    pub fn to_slot(self) -> (r: i32)
        ensures
            r == self.slot(),
            is_variant(r as int),
            Style::of_slot(r as int) == Some(self),
    {
        match self {
            Style::Opposite => 1,
            Style::Optimistic => 2,
            Style::Pessimistic => 3,
            Style::SelfExpanding => 4,
        }
    }

    /// The instruction that this style gives to the service.
    pub fn instruction(self) -> (r: &'static str)
        ensures
            r@ == self.instruction_text(),
    {
        match self {
            Style::Opposite => PROMPT_OPPOSITE,
            Style::Optimistic => PROMPT_OPTIMISTIC,
            Style::Pessimistic => PROMPT_PESSIMISTIC,
            Style::SelfExpanding => PROMPT_SELF_EXPANDING,
        }
    }
}

/// The instruction of the style that belongs to slot `id`: there is one for
/// each variant slot and for no other number.
pub fn get_prompt_by_id(id: i32) -> (r: Option<&'static str>)
    ensures
        match r {
            Some(p) => Style::of_slot(id as int) matches Some(style) && p@
                == style.instruction_text(),
            None => Style::of_slot(id as int) is None,
        },
        r is Some <==> is_variant(id as int),
{
    match Style::from_slot(id) {
        Some(style) => Some(style.instruction()),
        None => None,
    }
}

/// One request to the text-transformation service, as plain values.
#[derive(Debug, PartialEq, Eq)]
pub struct ChatRequest {
    pub model: String,
    pub role: String,
    pub content: String,
}

/// What the service is told for `style` and `text`: the instruction of the
/// style, the demand to keep line breaks, the separator line, then the text.
pub open spec fn request_text(style: Style, text: Seq<char>) -> Seq<char> {
    style.instruction_text() + REQUEST_JOINT@ + text
}

/// Builds the request that asks for `text` in `style`.
pub fn build_request(style: Style, text: &str) -> (r: ChatRequest)
    ensures
        r.model@ == MODEL@,
        r.role@ == ROLE@,
        r.content@ == request_text(style, text@),
{
    let mut content = String::from_str(style.instruction());
    content.append(REQUEST_JOINT);
    content.append(text);
    ChatRequest { model: String::from_str(MODEL), role: String::from_str(ROLE), content }
}

/// What came back from one call of the service.
#[derive(Debug, PartialEq, Eq)]
pub enum TransformReply {
    /// The service answered, and its answer holds this reply text.
    Text(String),
    /// The service answered, but its answer holds no reply text.
    Malformed,
    /// The call failed on the way or at the service.
    Failed,
}

/// The reply text that an answer of the service holds: the string `content`
/// of the object `message` of the first element of the array `choices`.
pub open spec fn reply_text_of(answer: Json) -> Option<Seq<char>> {
    match answer.member_of("choices"@) {
        Some(choices) => match choices.element_of(0) {
            Some(first) => match first.member_of("message"@) {
                Some(message) => match message.member_of("content"@) {
                    Some(content) => content.text_of(),
                    None => None,
                },
                None => None,
            },
            None => None,
        },
        None => None,
    }
}

/// The reply text that an answer of the service holds, if it holds one.
pub fn reply_text(answer: &Json) -> (r: Option<&String>)
    ensures
        match r {
            Some(t) => reply_text_of(*answer) == Some(t@),
            None => reply_text_of(*answer) is None,
        },
{
    match answer.member("choices") {
        Some(choices) => match choices.element(0) {
            Some(first) => match first.member("message") {
                Some(message) => match message.member("content") {
                    Some(content) => content.text(),
                    None => None,
                },
                None => None,
            },
            None => None,
        },
        None => None,
    }
}

/// How one call of the service ended, before anything is made of it.
#[derive(Debug, PartialEq, Eq)]
pub enum ServiceResponse {
    /// The call failed on the way or at the service.
    Unreachable,
    /// Something came back that is no JSON document; the text says what.
    Unreadable(String),
    /// This JSON document came back.
    Document(Json),
}

/// The text that `response` puts into a variant: the cleaned reply text of a
/// document that holds one, else the sentence that shows what failed; and no
/// text at all for what came back unreadable.
pub open spec fn response_text(response: ServiceResponse) -> Option<Seq<char>> {
    match response {
        ServiceResponse::Unreachable => Some(TRANSPORT_SENTINEL@),
        ServiceResponse::Unreadable(_) => None,
        ServiceResponse::Document(answer) => match reply_text_of(answer) {
            Some(text) => Some(sanitized(text)),
            None => Some(MALFORMED_SENTINEL@),
        },
    }
}

impl TransformReply {
    /// What `response` means for the variant: a document is a reply, with its
    /// reply text or without one; a call that failed is a failed reply. What
    /// came back unreadable is no reply at all: the variant's branch cannot
    /// go on, and the error says so.
    pub fn from_response(response: ServiceResponse) -> (r: Result<TransformReply, DomainError>)
        ensures
            match response {
                ServiceResponse::Unreachable => r == Ok::<TransformReply, DomainError>(
                    TransformReply::Failed,
                ),
                ServiceResponse::Unreadable(why) => r == Err::<TransformReply, DomainError>(
                    DomainError::Unexpected(why),
                ),
                ServiceResponse::Document(answer) => match reply_text_of(answer) {
                    Some(text) => r matches Ok(TransformReply::Text(t)) && t@ == text,
                    None => r == Ok::<TransformReply, DomainError>(TransformReply::Malformed),
                },
            },
            match r {
                Ok(reply) => response_text(response) == Some(settled_text(reply)),
                Err(_) => response_text(response) is None,
            },
    {
        match response {
            ServiceResponse::Unreachable => Ok(TransformReply::Failed),
            ServiceResponse::Unreadable(why) => Err(DomainError::Unexpected(why)),
            ServiceResponse::Document(answer) => match reply_text(&answer) {
                Some(text) => Ok(TransformReply::Text(text.clone())),
                None => Ok(TransformReply::Malformed),
            },
        }
    }
}

impl Clone for TransformReply {
    fn clone(&self) -> (r: Self)
        ensures
            r == *self,
    {
        match self {
            TransformReply::Text(t) => TransformReply::Text(t.clone()),
            TransformReply::Malformed => TransformReply::Malformed,
            TransformReply::Failed => TransformReply::Failed,
        }
    }
}

/// The text that a reply stands for in a variant: the cleaned reply text, or
/// the sentence that shows the reader what failed.
pub open spec fn settled_text(reply: TransformReply) -> Seq<char> {
    match reply {
        TransformReply::Text(t) => sanitized(t@),
        TransformReply::Malformed => MALFORMED_SENTINEL@,
        TransformReply::Failed => TRANSPORT_SENTINEL@,
    }
}

/// Turns a reply into the text that goes into the variant. A failure of the
/// service is no error here: it becomes a sentence in the diary.
pub fn settle_reply(reply: TransformReply) -> (r: String)
    ensures
        r@ == settled_text(reply),
{
    match reply {
        TransformReply::Text(t) => process_output(t),
        TransformReply::Malformed => String::from_str(MALFORMED_SENTINEL),
        TransformReply::Failed => String::from_str(TRANSPORT_SENTINEL),
    }
}

} // verus!

//! Mutating a text segment by segment: each segment that is more than white
//! space is sent to the service in one style, and what comes back is listed
//! in the order of the segments sent.

use vstd::prelude::*;
use vstd::string::StringExecFns;

use crate::error::ApplicationError;
use crate::sanitize::{process_output, sanitized};
use crate::text::{is_blank, str_is_blank};
use crate::transform::{
    build_request, request_text, settle_reply, settled_text, ChatRequest, Style, TransformReply,
    MODEL, ROLE,
};

verus! {

/// What a client asks for: the segments of its text, the style by its index,
/// and a count that is handed back as it came.
#[derive(Debug, PartialEq, Eq)]
pub struct MutateRequest {
    pub client_id: usize,
    pub target_text: Vec<String>,
    pub mutated_length: Option<usize>,
}

/// What a client gets back.
#[derive(Debug, PartialEq, Eq)]
pub struct MutateResponse {
    pub result: MutateResult,
}

/// The segments as they came, what the service made of those that were sent,
/// and the count as it came.
#[derive(Debug, PartialEq, Eq)]
pub struct MutateResult {
    pub raw_contents: Vec<String>,
    pub mutated_text: Vec<String>,
    pub mutated_length: Option<usize>,
}

/// The texts of the segments that are sent to the service: those that are
/// more than white space, in their order.
pub open spec fn sent_segments(segments: Seq<String>) -> Seq<Seq<char>>
    decreases segments.len(),
{
    if segments.len() == 0 {
        Seq::empty()
    } else if is_blank(segments.last()@) {
        sent_segments(segments.drop_last())
    } else {
        sent_segments(segments.drop_last()).push(segments.last()@)
    }
}

/// The style that a client names by its index: the styles are counted from 0
/// in the order of their slots.
pub fn style_of_client(client_id: usize) -> (r: Option<Style>)
    ensures
        r == Style::of_slot(client_id + 1),
{
    if client_id == 0 {
        Some(Style::Opposite)
    } else if client_id == 1 {
        Some(Style::Optimistic)
    } else if client_id == 2 {
        Some(Style::Pessimistic)
    } else if client_id == 3 {
        Some(Style::SelfExpanding)
    } else {
        None
    }
}

/// The requests to send for `segments` in `style`: one for each segment that
/// is more than white space, in their order.
pub fn segment_requests(style: Style, segments: &Vec<String>) -> (r: Vec<ChatRequest>)
    ensures
        r@.len() == sent_segments(segments@).len(),
        forall|i: int|
            0 <= i < r@.len() ==> {
                &&& (#[trigger] r@[i]).model@ == MODEL@
                &&& r@[i].role@ == ROLE@
                &&& r@[i].content@ == request_text(style, sent_segments(segments@)[i])
            },
{
    let mut r: Vec<ChatRequest> = Vec::new();
    let mut n: usize = 0;
    assert(segments@.take(0) =~= Seq::<String>::empty());
    while n < segments.len()
        invariant
            n <= segments.len(),
            r@.len() == sent_segments(segments@.take(n as int)).len(),
            forall|i: int|
                0 <= i < r@.len() ==> {
                    &&& (#[trigger] r@[i]).model@ == MODEL@
                    &&& r@[i].role@ == ROLE@
                    &&& r@[i].content@ == request_text(
                        style,
                        sent_segments(segments@.take(n as int))[i],
                    )
                },
        decreases segments.len() - n,
    {
        proof {
            let next = segments@.take(n + 1);
            assert(next.drop_last() =~= segments@.take(n as int));
            assert(next.last() == segments@[n as int]);
        }
        if !str_is_blank(segments[n].as_str()) {
            r.push(build_request(style, segments[n].as_str()));
        }
        n += 1;
    }
    assert(segments@.take(segments@.len() as int) =~= segments@);
    r
}

/// Cleans one reply of the service: keeps what follows the last `===`, or
/// everything where there is none, and trims it.
pub fn process_string(input: String) -> (r: String)
    ensures
        r@ == sanitized(input@),
{
    process_output(input)
}

/// What is reported where the replies handed back are not one per segment
/// sent.
pub const REPLY_COUNT_MISMATCH: &'static str = "the replies are not one per segment sent";

/// The number of segments that are sent to the service.
pub fn count_sent(segments: &Vec<String>) -> (count: usize)
    ensures
        count == sent_segments(segments@).len(),
{
    let mut count: usize = 0;
    let mut n: usize = 0;
    assert(segments@.take(0) =~= Seq::<String>::empty());
    while n < segments.len()
        invariant
            n <= segments.len(),
            count <= n,
            count == sent_segments(segments@.take(n as int)).len(),
        decreases segments.len() - n,
    {
        proof {
            let next = segments@.take(n + 1);
            assert(next.drop_last() =~= segments@.take(n as int));
            assert(next.last() == segments@[n as int]);
        }
        if !str_is_blank(segments[n].as_str()) {
            count += 1;
        }
        n += 1;
    }
    assert(segments@.take(segments@.len() as int) =~= segments@);
    count
}

/// Whether `response` answers `req` given the replies of the service: the
/// segments as they came, the text that each reply stands for, in the order
/// of the segments sent, and the count as it came.
pub open spec fn is_answer_to(
    response: MutateResponse,
    req: MutateRequest,
    replies: Seq<TransformReply>,
) -> bool {
    &&& response.result.raw_contents@.len() == req.target_text@.len()
    &&& forall|i: int|
        0 <= i < req.target_text@.len() ==> (#[trigger] response.result.raw_contents@[i])@
            == req.target_text@[i]@
    &&& response.result.mutated_text@.len() == sent_segments(req.target_text@).len()
    &&& forall|i: int|
        0 <= i < replies.len() ==> (#[trigger] response.result.mutated_text@[i])@ == settled_text(
            replies[i],
        )
    &&& response.result.mutated_length == req.mutated_length
}

/// Answers `req` once the service has replied: `replies` are its replies to
/// the requests for the segments sent, one for each and in their order. Each
/// becomes a text, a failure becomes the sentence that reports it. Replies
/// that are not one per segment sent answer nothing: that is an unexpected
/// error.
pub fn mutate_text(req: &MutateRequest, replies: Vec<TransformReply>) -> (r: Result<
    MutateResponse,
    ApplicationError,
>)
    ensures
        match r {
            Ok(response) => {
                &&& replies@.len() == sent_segments(req.target_text@).len()
                &&& is_answer_to(response, *req, replies@)
            },
            Err(e) => {
                &&& replies@.len() != sent_segments(req.target_text@).len()
                &&& e matches ApplicationError::Unexpected(m)
                &&& m@ == REPLY_COUNT_MISMATCH@
            },
        },
{
    if replies.len() != count_sent(&req.target_text) {
        return Err(ApplicationError::Unexpected(String::from_str(REPLY_COUNT_MISMATCH)));
    }
    let mut raw_contents: Vec<String> = Vec::new();
    let mut n: usize = 0;
    while n < req.target_text.len()
        invariant
            n <= req.target_text@.len(),
            raw_contents@.len() == n,
            forall|i: int| 0 <= i < n ==> (#[trigger] raw_contents@[i])@ == req.target_text@[i]@,
        decreases req.target_text@.len() - n,
    {
        raw_contents.push(req.target_text[n].clone());
        n += 1;
    }
    let mut mutated_text: Vec<String> = Vec::new();
    let mut k: usize = 0;
    while k < replies.len()
        invariant
            k <= replies@.len(),
            mutated_text@.len() == k,
            forall|i: int|
                0 <= i < k ==> (#[trigger] mutated_text@[i])@ == settled_text(replies@[i]),
        decreases replies@.len() - k,
    {
        mutated_text.push(settle_reply(replies[k].clone()));
        k += 1;
    }
    Ok(
        MutateResponse {
            result: MutateResult { raw_contents, mutated_text, mutated_length: req.mutated_length },
        },
    )
}

} // verus!

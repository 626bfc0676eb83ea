use chrono::NaiveDateTime;
use diary_mutation::api::{
    diary_response, get_current_user_diary, mutate_reply, status_of, DiaryRequestPath,
    DiaryResponse, DiaryResult, MutateRequest, MutateResponse, MutateResult, MutatedLength, Status,
    UpdateResultRequest,
};
use diary_mutation::auth::bearer_token;
use diary_mutation::diary::{Diary, DiaryContent, DiaryId};
use diary_mutation::error::ApplicationError;
use diary_mutation::service;
use diary_mutation::transform::{Style, TransformReply, PROMPT_PESSIMISTIC};
use diary_mutation::user::{User, UserId};

fn content(text: &str) -> DiaryContent {
    DiaryContent::new(text.to_string()).unwrap()
}

fn diary(slot: i32, text: &str) -> Diary {
    Diary::new(DiaryId::new(slot).unwrap(), content(text)).unwrap()
}

fn user(human: Option<&str>, third: Option<&str>) -> User {
    User::new(
        UserId::new("test_id".to_string()).unwrap(),
        human.map(|t| diary(0, t)),
        None,
        None,
        third.map(|t| diary(3, t)),
        None,
        Some(false),
        None,
        NaiveDateTime::default(),
        NaiveDateTime::default(),
    )
}

#[test]
fn the_token_follows_the_scheme() {
    assert_eq!(bearer_token("Bearer abc.def.ghi"), "abc.def.ghi");
    assert_eq!(bearer_token("abc.def.ghi"), "abc.def.ghi");
    assert_eq!(bearer_token("Bearer Bearer abc"), "abc");
    assert_eq!(bearer_token("Bearer "), "");
    assert_eq!(bearer_token("Bearer"), "Bearer");
    assert_eq!(bearer_token("bearer abc"), "bearer abc");
    assert_eq!(bearer_token(" Bearer abc"), " Bearer abc");
    assert_eq!(bearer_token("Bearer  abc"), " abc");
    assert_eq!(bearer_token(""), "");
    for header in ["Bearer x", "Bearer Bearer", "BearerBearer y", "Bearer Bearer Bearer z "] {
        assert_eq!(bearer_token(header), header.trim_start_matches("Bearer "));
    }
}

#[test]
fn statuses_have_their_codes() {
    assert_eq!(Status::Success.code(), 200);
    assert_eq!(Status::Unauthorized.code(), 401);
    assert_eq!(Status::NotFound.code(), 404);
    assert_eq!(Status::InternalError.code(), 500);
}

#[test]
fn only_a_missing_entity_is_reported_as_such() {
    let missing = ApplicationError::NotFound { entity_type: "User", user_id: "u".to_string() };
    assert_eq!(status_of(&missing), Status::NotFound);
    assert_eq!(status_of(&ApplicationError::Validation("v".to_string())), Status::InternalError);
    assert_eq!(
        status_of(&ApplicationError::InfrastructureError("i".to_string())),
        Status::InternalError
    );
    assert_eq!(status_of(&ApplicationError::Unexpected("x".to_string())), Status::InternalError);
}

#[test]
fn a_mutation_is_answered_with_its_length() {
    assert_eq!(
        mutate_reply(&Ok(12)),
        (Status::Success, Some(MutateResponse { result: MutateResult { mutated_length: 12 } }))
    );
    let missing = ApplicationError::NotFound { entity_type: "User", user_id: "u".to_string() };
    assert_eq!(mutate_reply(&Err(missing)), (Status::NotFound, None));
    assert_eq!(
        mutate_reply(&Err(ApplicationError::Unexpected("x".to_string()))),
        (Status::InternalError, None)
    );
}

#[test]
fn a_request_carries_the_new_source() {
    let request = MutateRequest { target_text: "ここに書いていく．ここにも書いてく．".to_string() };
    assert_eq!(request.content().unwrap().to_length(), 18);
    assert_eq!(
        MutateRequest { target_text: String::new() }.content(),
        Err(ApplicationError::Validation("diary content must not be empty".to_string()))
    );
}

#[test]
fn paths_and_favourites_name_slots() {
    assert_eq!(DiaryRequestPath { client_id: 3 }.diary_id(), Ok(DiaryId::new(3).unwrap()));
    assert_eq!(
        DiaryRequestPath { client_id: 5 }.diary_id(),
        Err(ApplicationError::Validation("invalid diary id".to_string()))
    );
    let request = UpdateResultRequest { favorite_id: 1, is_public: false };
    assert_eq!(request.favorite(), Ok(DiaryId::new(1).unwrap()));
    assert_eq!(
        UpdateResultRequest { favorite_id: -1, is_public: true }.favorite(),
        Err(ApplicationError::Validation("invalid diary id".to_string()))
    );
}

#[test]
fn a_diary_is_answered_with_its_lengths() {
    let u = user(Some("Hello world"), Some("Ciao"));
    let third = DiaryId::new(3).unwrap();
    assert_eq!(get_current_user_diary(Some(&u), &third), Ok((content("Ciao"), content("Hello world"))));
    assert_eq!(
        diary_response(Some(&u), &third),
        Ok(DiaryResponse {
            result: DiaryResult {
                diary: "Ciao".to_string(),
                mutated_length: MutatedLength { human: 11, ai: 4 },
            }
        })
    );
    assert_eq!(
        get_current_user_diary(Some(&u), &DiaryId::human()),
        Ok((content("Hello world"), content("Hello world")))
    );
}

#[test]
fn a_missing_diary_is_not_found() {
    let missing =
        Err(ApplicationError::NotFound { entity_type: "Diary", user_id: "test_id".to_string() });
    let third = DiaryId::new(3).unwrap();
    assert_eq!(get_current_user_diary(Some(&user(Some("Hello"), None)), &third), missing);
    assert_eq!(get_current_user_diary(Some(&user(None, Some("Ciao"))), &third), missing);
    assert_eq!(
        get_current_user_diary(Some(&user(Some("Hello"), Some("Ciao"))), &DiaryId::new(1).unwrap()),
        missing
    );
    assert_eq!(
        diary_response(None, &third),
        Err(ApplicationError::Validation("Not Found".to_string()))
    );
}

#[test]
fn clients_name_styles_from_zero() {
    assert_eq!(service::style_of_client(0), Some(Style::Opposite));
    assert_eq!(service::style_of_client(1), Some(Style::Optimistic));
    assert_eq!(service::style_of_client(2), Some(Style::Pessimistic));
    assert_eq!(service::style_of_client(3), Some(Style::SelfExpanding));
    assert_eq!(service::style_of_client(4), None);
    assert_eq!(service::style_of_client(usize::MAX), None);
}

#[test]
fn blank_segments_are_not_sent() {
    let segments = vec![
        "ここに書いていく．".to_string(),
        " \n".to_string(),
        String::new(),
        "さらに書いていく．".to_string(),
    ];
    let requests = service::segment_requests(Style::Pessimistic, &segments);
    assert_eq!(requests.len(), 2);
    assert_eq!(
        requests[0].content,
        format!(
            "{} ただし、改行は入力文そのままにすること。\n ================ \nここに書いていく．",
            PROMPT_PESSIMISTIC
        )
    );
    assert!(requests[1].content.ends_with("\nさらに書いていく．"));
    assert_eq!(requests[1].model, "gpt-4-turbo");
    assert_eq!(requests[1].role, "user");
    assert!(service::segment_requests(Style::Opposite, &Vec::new()).is_empty());
}

#[test]
fn segments_are_answered_in_order() {
    let request = service::MutateRequest {
        client_id: 2,
        target_text: vec!["one".to_string(), " ".to_string(), "two".to_string(), "3".to_string()],
        mutated_length: Some(2),
    };
    assert_eq!(service::count_sent(&request.target_text), 3);
    let replies = vec![
        TransformReply::Text("=== eins ".to_string()),
        TransformReply::Failed,
        TransformReply::Malformed,
    ];
    assert_eq!(
        service::mutate_text(&request, replies),
        Ok(service::MutateResponse {
            result: service::MutateResult {
                raw_contents: vec![
                    "one".to_string(),
                    " ".to_string(),
                    "two".to_string(),
                    "3".to_string(),
                ],
                mutated_text: vec![
                    "eins".to_string(),
                    "Error communicating with API.".to_string(),
                    "Failed to mutate text.".to_string(),
                ],
                mutated_length: Some(2),
            }
        })
    );
    assert_eq!(service::process_string("x === y ".to_string()), "y");
}

#[test]
fn replies_must_be_one_per_segment_sent() {
    let request = service::MutateRequest {
        client_id: 0,
        target_text: vec!["one".to_string(), " ".to_string(), "two".to_string()],
        mutated_length: None,
    };
    let mismatch = Err(ApplicationError::Unexpected(
        "the replies are not one per segment sent".to_string(),
    ));
    assert_eq!(service::mutate_text(&request, vec![TransformReply::Failed]), mismatch);
    assert_eq!(service::mutate_text(&request, Vec::new()), mismatch);
    assert_eq!(
        service::mutate_text(
            &request,
            vec![TransformReply::Failed, TransformReply::Failed, TransformReply::Failed]
        ),
        mismatch
    );
    let blank = service::MutateRequest {
        client_id: 0,
        target_text: vec![" ".to_string(), String::new()],
        mutated_length: Some(0),
    };
    assert_eq!(service::count_sent(&blank.target_text), 0);
    assert_eq!(
        service::mutate_text(&blank, Vec::new()),
        Ok(service::MutateResponse {
            result: service::MutateResult {
                raw_contents: vec![" ".to_string(), String::new()],
                mutated_text: Vec::new(),
                mutated_length: Some(0),
            }
        })
    );
}

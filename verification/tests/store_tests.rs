use chrono::NaiveDateTime;
use diary_mutation::diary::{Diary, DiaryContent, DiaryId};
use diary_mutation::error::DomainError;
use diary_mutation::store::{
    diary_of_text, field_name, read_diary, update_statement, user_of_row, UserRow,
};

fn content(text: &str) -> DiaryContent {
    DiaryContent::new(text.to_string()).unwrap()
}

fn diary(slot: i32, text: &str) -> Diary {
    Diary::new(DiaryId::new(slot).unwrap(), content(text)).unwrap()
}

fn row() -> UserRow {
    UserRow {
        user_id: "test_user_id".to_string(),
        human_diary: Some("\"Hello\"".to_string()),
        ai_diary_1: Some("\"Salut\"".to_string()),
        ai_diary_2: None,
        ai_diary_3: Some("\"line\\nbreak \\\"quoted\\\" \\u65e5\\u8a18\"".to_string()),
        ai_diary_4: None,
        is_public: Some(true),
        favorite_id: Some(3),
        created_at: NaiveDateTime::default(),
        updated_at: NaiveDateTime::default(),
    }
}

#[test]
fn every_slot_has_its_field() {
    let names: Vec<&str> =
        (0..=4).map(|slot| field_name(&DiaryId::new(slot).unwrap())).collect();
    assert_eq!(names, vec!["human", "ai_1", "ai_2", "ai_3", "ai_4"]);
    for a in 0..names.len() {
        for b in 0..names.len() {
            assert_eq!(names[a] == names[b], a == b);
        }
    }
}

#[test]
fn update_statements_name_the_field() {
    assert_eq!(
        update_statement(&DiaryId::human()),
        "UPDATE user SET human = ? WHERE user_id = ?"
    );
    assert_eq!(
        update_statement(&DiaryId::new(4).unwrap()),
        "UPDATE user SET ai_4 = ? WHERE user_id = ?"
    );
}

#[test]
fn content_is_stored_as_a_json_string() {
    assert_eq!(content("Hello").to_json().unwrap(), "\"Hello\"");
    assert_eq!(content("a \"b\"\n\\c").to_json().unwrap(), "\"a \\\"b\\\"\\n\\\\c\"");
    assert_eq!(content("日記").to_json().unwrap(), "\"日記\"");
}

#[test]
fn stored_json_is_read_back() {
    let slot = DiaryId::new(1).unwrap();
    assert_eq!(read_diary(&slot, &Some("\"Hello\"".to_string())), Ok(Some(diary(1, "Hello"))));
    assert_eq!(
        read_diary(&slot, &Some(" \"a \\\"b\\\"\\n\\\\c\" ".to_string())),
        Ok(Some(diary(1, "a \"b\"\n\\c")))
    );
    assert_eq!(read_diary(&slot, &None), Ok(None));
}

#[test]
fn what_is_written_is_what_is_read() {
    let slot = DiaryId::new(2).unwrap();
    for text in ["Hello world.", "ここに書いていく．", " \t\n", "\"", "\\u0041", "\u{0}\u{7f}"] {
        let json = content(text).to_json().unwrap();
        assert_eq!(read_diary(&slot, &Some(json)), Ok(Some(diary(2, text))));
    }
}

#[test]
fn fields_that_hold_no_json_string_fail_the_store() {
    let slot = DiaryId::new(1).unwrap();
    for stored in ["Hello", "", "[\"Hello\"]", "{\"a\":1}", "12", "null", "\"open", "\"a\" \"b\""] {
        match read_diary(&slot, &Some(stored.to_string())) {
            Err(DomainError::InfrastructureError(why)) => assert!(!why.is_empty()),
            other => panic!("{:?} was read as {:?}", stored, other),
        }
    }
}

#[test]
fn an_empty_stored_text_fails_validation() {
    let slot = DiaryId::new(1).unwrap();
    let expected = Err(DomainError::Validation("diary content must not be empty".to_string()));
    assert_eq!(read_diary(&slot, &Some("\"\"".to_string())), expected);
    assert_eq!(diary_of_text(&slot, Some(String::new())), expected);
    assert_eq!(diary_of_text(&slot, Some("x".to_string())), Ok(Some(diary(1, "x"))));
    assert_eq!(diary_of_text(&slot, None), Ok(None));
}

#[test]
fn a_row_becomes_a_user() {
    let user = user_of_row(row()).unwrap();
    assert_eq!(user.id.as_str(), "test_user_id");
    assert_eq!(user.human_diary, Some(diary(0, "Hello")));
    assert_eq!(user.ai_diary_1, Some(diary(1, "Salut")));
    assert_eq!(user.ai_diary_2, None);
    assert_eq!(user.ai_diary_3, Some(diary(3, "line\nbreak \"quoted\" 日記")));
    assert_eq!(user.ai_diary_4, None);
    assert_eq!(user.is_public, Some(true));
    assert_eq!(user.favorite_id, Some(DiaryId::new(3).unwrap()));
    assert_eq!(user.created_at, NaiveDateTime::default());
    assert_eq!(user.updated_at, NaiveDateTime::default());
}

#[test]
fn a_fresh_row_is_a_user_without_diaries() {
    let fresh = UserRow {
        human_diary: None,
        ai_diary_1: None,
        ai_diary_3: None,
        is_public: None,
        favorite_id: None,
        ..row()
    };
    let user = user_of_row(fresh).unwrap();
    assert_eq!(user.human_diary, None);
    assert_eq!(user.ai_diary_1, None);
    assert_eq!(user.ai_diary_3, None);
    assert_eq!(user.is_public, None);
    assert_eq!(user.favorite_id, None);
}

#[test]
fn the_first_fault_of_a_row_is_reported() {
    let bad_favorite = UserRow { favorite_id: Some(7), ..row() };
    assert_eq!(
        user_of_row(bad_favorite),
        Err(DomainError::Validation("invalid diary id".to_string()))
    );
    let empty_then_bad =
        UserRow { ai_diary_2: Some("\"\"".to_string()), favorite_id: Some(7), ..row() };
    assert_eq!(
        user_of_row(empty_then_bad),
        Err(DomainError::Validation("diary content must not be empty".to_string()))
    );
    let broken_then_empty = UserRow {
        ai_diary_1: Some("[\"Salut\"]".to_string()),
        ai_diary_2: Some("\"\"".to_string()),
        ..row()
    };
    match user_of_row(broken_then_empty) {
        Err(DomainError::InfrastructureError(_)) => {}
        other => panic!("unexpected {:?}", other),
    }
}

#[test]
fn a_codec_failure_carries_the_sentence_of_the_codec() {
    let slot = DiaryId::new(1).unwrap();
    for stored in ["[1]", "\"open", "", "nul"] {
        let sentence = serde_json::from_str::<String>(stored).unwrap_err().to_string();
        assert!(!sentence.is_empty());
        assert_eq!(
            read_diary(&slot, &Some(stored.to_string())),
            Err(DomainError::InfrastructureError(sentence))
        );
    }
}

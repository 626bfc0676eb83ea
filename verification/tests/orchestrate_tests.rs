use chrono::NaiveDateTime;
use diary_mutation::diary::{Diary, DiaryContent, DiaryId};
use diary_mutation::error::{ApplicationError, DomainError};
use diary_mutation::json::Json;
use diary_mutation::orchestrate::{
    fan_out, join_branches, process_mutation_by_id, Action, Branch, BranchOutcome, Event, Mutation,
    Phase,
};
use diary_mutation::reconcile::VariantPlan;
use diary_mutation::transform::{ServiceResponse, Style, PROMPT_OPTIMISTIC};
use diary_mutation::user::{User, UserId};

fn content(text: &str) -> DiaryContent {
    DiaryContent::new(text.to_string()).unwrap()
}

fn diary(slot: i32, text: &str) -> Diary {
    Diary::new(DiaryId::new(slot).unwrap(), content(text)).unwrap()
}

fn user(human: Option<&str>, variants: [Option<&str>; 4]) -> User {
    User::new(
        UserId::new("test_user_id".to_string()).unwrap(),
        human.map(|t| diary(0, t)),
        variants[0].map(|t| diary(1, t)),
        variants[1].map(|t| diary(2, t)),
        variants[2].map(|t| diary(3, t)),
        variants[3].map(|t| diary(4, t)),
        None,
        None,
        NaiveDateTime::default(),
        NaiveDateTime::default(),
    )
}

fn answer(text: &str) -> ServiceResponse {
    let message = Json::Object(vec![("content".to_string(), Json::Text(text.to_string()))]);
    let choice = Json::Object(vec![("message".to_string(), message)]);
    ServiceResponse::Document(Json::Object(vec![(
        "choices".to_string(),
        Json::Array(vec![choice]),
    )]))
}

fn start(source: &str) -> Mutation {
    let (state, action) =
        Mutation::start(UserId::new("test_user_id".to_string()).unwrap(), content(source));
    assert_eq!(action, Action::Load(UserId::new("test_user_id".to_string()).unwrap()));
    assert_eq!(state.phase, Phase::Loading);
    state
}

fn dispatched(state: Mutation, loaded: User) -> (Mutation, Vec<Branch>) {
    match state.step(Event::Loaded(Some(loaded))) {
        (state, Action::Dispatch(branches)) => {
            assert_eq!(state.phase, Phase::Dispatched);
            (state, branches)
        }
        (_, other) => panic!("expected a fan-out, got {:?}", other),
    }
}

fn all_persisted() -> Vec<BranchOutcome> {
    vec![
        BranchOutcome::Persisted,
        BranchOutcome::Persisted,
        BranchOutcome::Persisted,
        BranchOutcome::Persisted,
    ]
}

#[test]
fn first_mutation_sends_the_whole_source_for_every_variant() {
    let state = start("Hello world.");
    let (state, branches) = dispatched(state, user(None, [None; 4]));
    assert_eq!(branches.len(), 4);
    let styles = [Style::Opposite, Style::Optimistic, Style::Pessimistic, Style::SelfExpanding];
    let mut stored = Vec::new();
    for (i, branch) in branches.into_iter().enumerate() {
        assert_eq!(branch.id, DiaryId::new(i as i32 + 1).unwrap());
        assert_eq!(
            branch.plan,
            VariantPlan::Pending {
                style: styles[i],
                prefix: String::new(),
                suffix: "Hello world.".to_string(),
            }
        );
        let request = branch.request().unwrap();
        assert!(request.content.ends_with("\n ================ \nHello world."));
        stored.push(branch.complete(Some(answer(&format!("=== variant {}", i + 1)))).unwrap());
    }
    assert_eq!(stored[0], diary(1, "variant 1"));
    assert_eq!(stored[3], diary(4, "variant 4"));
    let (state, action) = state.step(Event::BranchesEnded(all_persisted()));
    assert_eq!(state.phase, Phase::Joined);
    assert_eq!(action, Action::SaveSource(diary(0, "Hello world.")));
    let (state, action) = state.step(Event::SourceSaved);
    assert_eq!(state.phase, Phase::Done);
    assert_eq!(action, Action::Finish(Ok(12)));
}

#[test]
fn appending_sends_only_the_tail() {
    let state = start("Hello world");
    let loaded = user(Some("Hello"), [Some("Salut"), None, None, None]);
    let (_, mut branches) = dispatched(state, loaded);
    let first = branches.remove(0);
    assert_eq!(
        first.plan,
        VariantPlan::Pending {
            style: Style::Opposite,
            prefix: "Salut".to_string(),
            suffix: " world".to_string(),
        }
    );
    let request = first.request().unwrap();
    assert_eq!(request.model, "gpt-4-turbo");
    assert_eq!(request.role, "user");
    assert!(request.content.ends_with("\n ================ \n world"));
    assert_eq!(
        first.complete(Some(answer("================ \n le monde"))).unwrap(),
        diary(1, "Salutle monde")
    );
    let second = branches.remove(0);
    assert_eq!(
        second.plan,
        VariantPlan::Pending {
            style: Style::Optimistic,
            prefix: String::new(),
            suffix: "Hello world".to_string(),
        }
    );
    assert_eq!(
        second.request().unwrap().content,
        format!(
            "{} ただし、改行は入力文そのままにすること。\n ================ \nHello world",
            PROMPT_OPTIMISTIC
        )
    );
}

#[test]
fn a_transport_error_in_one_branch_does_not_fail_the_request() {
    let state = start("Hello world");
    let loaded = user(Some("Hello"), [Some("Salut"), Some("Hallo"), Some("Ciao"), Some("Hola")]);
    let (state, branches) = dispatched(state, loaded);
    let mut stored = Vec::new();
    let mut outcomes = Vec::new();
    for (i, branch) in branches.into_iter().enumerate() {
        let response = if i == 1 { ServiceResponse::Unreachable } else { answer("=== !") };
        let result = branch.complete(Some(response));
        outcomes.push(BranchOutcome::of(result.clone().map(|_| ())));
        stored.push(result.unwrap());
    }
    assert_eq!(stored[0], diary(1, "Salut!"));
    assert_eq!(stored[1], diary(2, "HalloError communicating with API."));
    assert!(stored[1].content().to_str().contains("Error communicating with API."));
    assert_eq!(stored[2], diary(3, "Ciao!"));
    assert_eq!(stored[3], diary(4, "Hola!"));
    assert_eq!(outcomes, all_persisted());
    let (state, action) = state.step(Event::BranchesEnded(outcomes));
    assert_eq!(action, Action::SaveSource(diary(0, "Hello world")));
    let (_, action) = state.step(Event::SourceSaved);
    assert_eq!(action, Action::Finish(Ok(11)));
}

#[test]
fn the_same_source_again_calls_nothing_and_changes_nothing() {
    let state = start("Hello world");
    let loaded =
        user(Some("Hello world"), [Some("Salut"), Some("Hallo Welt"), Some("Ciao mondo"), Some("!")]);
    let (_, branches) = dispatched(state, loaded);
    let expected = ["Salut", "Hallo Welt", "Ciao mondo", "!"];
    for (i, branch) in branches.into_iter().enumerate() {
        assert_eq!(branch.request(), None);
        assert_eq!(branch.plan, VariantPlan::Settled(content(expected[i])));
        assert_eq!(branch.complete(None).unwrap(), diary(i as i32 + 1, expected[i]));
    }
}

#[test]
fn the_same_source_again_cuts_a_longer_variant() {
    let state = start("Hi");
    let loaded = user(Some("Hi"), [Some("Bonjour"), Some("Yo"), Some("H"), Some("Hey")]);
    let (_, branches) = dispatched(state, loaded);
    let expected = ["Bo", "Yo", "H", "He"];
    for (i, branch) in branches.into_iter().enumerate() {
        assert_eq!(branch.request(), None);
        assert_eq!(branch.plan, VariantPlan::Settled(content(expected[i])));
    }
}

#[test]
fn a_shorter_source_is_mutated_anew() {
    let loaded = user(Some("Hello world"), [Some("Salut"), None, Some("Ciao mondo"), None]);
    let branches = fan_out(&loaded, &content("Hello"));
    let styles = [Style::Opposite, Style::Optimistic, Style::Pessimistic, Style::SelfExpanding];
    for (i, branch) in branches.into_iter().enumerate() {
        assert_eq!(
            branch.plan,
            VariantPlan::Pending {
                style: styles[i],
                prefix: String::new(),
                suffix: "Hello".to_string(),
            }
        );
        assert_eq!(
            branch.complete(Some(answer("=== Hallo"))).unwrap(),
            diary(i as i32 + 1, "Hallo")
        );
    }
}

#[test]
fn a_shorter_blank_source_is_taken_over_without_a_call() {
    let loaded =
        user(Some("Hello world"), [Some("Salut"), Some("Hallo Welt"), Some("Ciao"), Some("!")]);
    let source = content(" \n ");
    let branches = fan_out(&loaded, &source);
    for (i, branch) in branches.into_iter().enumerate() {
        assert_eq!(branch.request(), None);
        let stored = branch.complete(None).unwrap();
        assert_eq!(stored, diary(i as i32 + 1, " \n "));
        assert_eq!(stored.content().to_length(), source.to_length());
    }
}

#[test]
fn an_edited_source_keeps_nothing_of_the_old_variant() {
    let state = start("Bonjour");
    let loaded = user(Some("Hello"), [Some("Salut"), Some("Hallo"), Some("Ciao"), Some("Hola")]);
    let (_, branches) = dispatched(state, loaded);
    for (i, branch) in branches.into_iter().enumerate() {
        assert!(branch.request().unwrap().content.ends_with("\n ================ \nBonjour"));
        assert_eq!(
            branch.complete(Some(answer("noise === Bonsoir "))).unwrap(),
            diary(i as i32 + 1, "Bonsoir")
        );
    }
}

#[test]
fn a_stable_index_past_the_source_ends_in_a_diary_of_its_length() {
    let loaded = user(Some("Hello"), [None, None, Some("Bonjour tout le monde"), None]);
    let source = content("Hello");
    let id = DiaryId::new(3).unwrap();
    for index in [5usize, 9] {
        let branch = process_mutation_by_id(&id, index, &loaded, &source);
        assert_eq!(branch.request(), None);
        let stored = branch.complete(None).unwrap();
        assert_eq!(stored, diary(3, "Bonjo"));
        assert_eq!(stored.content().to_length(), source.to_length());
    }
}

#[test]
fn an_unknown_user_is_not_found() {
    let (state, action) = start("Hello").step(Event::Loaded(None));
    assert_eq!(state.phase, Phase::Done);
    assert_eq!(
        action,
        Action::Finish(Err(ApplicationError::NotFound {
            entity_type: "User",
            user_id: "test_user_id".to_string(),
        }))
    );
}

#[test]
fn a_failing_store_fails_the_request() {
    let down = DomainError::InfrastructureError("pool timed out".to_string());
    let (state, action) = start("Hello").step(Event::LoadFailed(down.clone()));
    assert_eq!(state.phase, Phase::Done);
    assert_eq!(
        action,
        Action::Finish(Err(ApplicationError::InfrastructureError("pool timed out".to_string())))
    );
    let (state, _) = dispatched(start("Hello"), user(None, [None; 4]));
    let (state, _) = state.step(Event::BranchesEnded(all_persisted()));
    let (state, action) = state.step(Event::SourceSaveFailed(down));
    assert_eq!(state.phase, Phase::Done);
    assert_eq!(
        action,
        Action::Finish(Err(ApplicationError::InfrastructureError("pool timed out".to_string())))
    );
}

#[test]
fn the_first_branch_that_failed_decides_the_error() {
    let outcomes = vec![
        BranchOutcome::Persisted,
        BranchOutcome::Aborted("task 2 panicked".to_string()),
        BranchOutcome::Failed(DomainError::InfrastructureError("write failed".to_string())),
        BranchOutcome::Persisted,
    ];
    assert_eq!(
        join_branches(&outcomes),
        Err(ApplicationError::Unexpected("task 2 panicked".to_string()))
    );
    let (state, _) = dispatched(start("Hello"), user(None, [None; 4]));
    let (state, action) = state.step(Event::BranchesEnded(outcomes));
    assert_eq!(state.phase, Phase::Done);
    assert_eq!(
        action,
        Action::Finish(Err(ApplicationError::Unexpected("task 2 panicked".to_string())))
    );
    let outcomes = vec![
        BranchOutcome::Failed(DomainError::InfrastructureError("write failed".to_string())),
        BranchOutcome::Aborted("task 2 panicked".to_string()),
    ];
    assert_eq!(
        join_branches(&outcomes),
        Err(ApplicationError::InfrastructureError("write failed".to_string()))
    );
}

#[test]
fn outcomes_must_be_one_per_variant() {
    assert_eq!(join_branches(&all_persisted()), Ok(()));
    let mut three = all_persisted();
    three.pop();
    let expected = Err(ApplicationError::Unexpected(
        "the branches' outcomes are not one per variant".to_string(),
    ));
    assert_eq!(join_branches(&three), expected);
    assert_eq!(join_branches(&Vec::new()), expected);
    let mut five = all_persisted();
    five.push(BranchOutcome::Persisted);
    assert_eq!(join_branches(&five), expected);
}

#[test]
fn events_out_of_order_end_the_request() {
    let expected = Action::Finish(Err(ApplicationError::Unexpected(
        "event does not fit the phase of the request".to_string(),
    )));
    let (state, action) = start("Hello").step(Event::SourceSaved);
    assert_eq!(state.phase, Phase::Done);
    assert_eq!(action, expected);
    let (state, action) = start("Hello").step(Event::BranchesEnded(all_persisted()));
    assert_eq!(state.phase, Phase::Done);
    assert_eq!(action, expected);
    let (state, action) = state.step(Event::Loaded(None));
    assert_eq!(state.phase, Phase::Done);
    assert_eq!(action, expected);
    let (state, _) = dispatched(start("Hello"), user(None, [None; 4]));
    let (state, action) = state.step(Event::Loaded(Some(user(None, [None; 4]))));
    assert_eq!(state.phase, Phase::Done);
    assert_eq!(action, expected);
}

#[test]
fn a_pending_branch_needs_a_readable_response() {
    let loaded = user(None, [None; 4]);
    let source = content("Hello");
    let id = DiaryId::new(2).unwrap();
    let branch = process_mutation_by_id(&id, 0, &loaded, &source);
    assert_eq!(branch.id, id);
    assert_eq!(
        branch.complete(None),
        Err(DomainError::Unexpected(
            "a branch that called the service was given no response".to_string()
        ))
    );
    let branch = process_mutation_by_id(&id, 0, &loaded, &source);
    assert_eq!(
        branch.complete(Some(ServiceResponse::Unreadable("expected value at line 1".to_string()))),
        Err(DomainError::Unexpected("expected value at line 1".to_string()))
    );
    let branch = process_mutation_by_id(&id, 0, &loaded, &source);
    assert_eq!(
        branch.complete(Some(answer("echo ===  "))),
        Err(DomainError::Validation("diary content must not be empty".to_string()))
    );
    let branch = process_mutation_by_id(&id, 0, &loaded, &source);
    assert_eq!(
        branch.complete(Some(ServiceResponse::Document(Json::Scalar))).unwrap(),
        diary(2, "Failed to mutate text.")
    );
}

#[test]
fn outcomes_of_branches() {
    assert_eq!(BranchOutcome::of(Ok(())), BranchOutcome::Persisted);
    let e = DomainError::InfrastructureError("write failed".to_string());
    assert_eq!(BranchOutcome::of(Err(e.clone())), BranchOutcome::Failed(e));
}

#[test]
fn slots_of_a_user() {
    let u = user(Some("h"), [Some("a"), None, Some("c"), None]);
    assert_eq!(u.get_diary_by_id(&DiaryId::new(0).unwrap()), Some(&diary(0, "h")));
    assert_eq!(u.get_diary_by_id(&DiaryId::new(1).unwrap()), Some(&diary(1, "a")));
    assert_eq!(u.get_diary_by_id(&DiaryId::new(2).unwrap()), None);
    assert_eq!(u.get_diary_by_id(&DiaryId::new(3).unwrap()), Some(&diary(3, "c")));
    assert_eq!(u.get_diary_by_id(&DiaryId::new(4).unwrap()), None);
}

fn run(stored: User, source: &str, reply: &str) -> (User, usize, usize) {
    let mut calls = 0;
    let mut next = stored.clone();
    let (state, branches) = dispatched(start(source), stored);
    let mut outcomes = Vec::new();
    for branch in branches {
        let response = branch.request().map(|_| {
            calls += 1;
            answer(reply)
        });
        let ended = branch.complete(response).unwrap();
        next = next.with_diary(ended);
        outcomes.push(BranchOutcome::of(Ok(())));
    }
    let (state, action) = state.step(Event::BranchesEnded(outcomes));
    match action {
        Action::SaveSource(new_source) => next = next.with_diary(new_source),
        other => panic!("expected the source to be stored, got {:?}", other),
    }
    match state.step(Event::SourceSaved) {
        (_, Action::Finish(Ok(length))) => (next, length, calls),
        (_, other) => panic!("expected a length, got {:?}", other),
    }
}

#[test]
fn two_requests_in_a_row_for_the_same_source() {
    let (first, length, calls) = run(user(None, [None; 4]), "Hello world.", "=== Hi there.");
    assert_eq!(length, 12);
    assert_eq!(calls, 4);
    assert_eq!(
        first,
        user(Some("Hello world."), [Some("Hi there."); 4])
    );
    let (second, length, calls) = run(first.clone(), "Hello world.", "=== other");
    assert_eq!(length, 12);
    assert_eq!(calls, 0);
    assert_eq!(second, first);
    let (third, length, calls) =
        run(second.clone(), "Hello world. More.", "=== And more.");
    assert_eq!(length, 18);
    assert_eq!(calls, 4);
    assert_eq!(
        third,
        user(Some("Hello world. More."), [Some("Hi there.And more."); 4])
    );
}

#[test]
fn a_diary_goes_into_the_slot_it_names() {
    let u = user(Some("h"), [Some("a"), None, None, None]);
    let u = u.with_diary(diary(2, "b")).with_diary(diary(1, "A")).with_diary(diary(0, "H"));
    assert_eq!(u, user(Some("H"), [Some("A"), Some("b"), None, None]));
    assert_eq!(u.id().as_str(), "test_user_id");
    assert_eq!(u.human_diary(), &Some(diary(0, "H")));
    assert_eq!(u.is_public(), &None);
    assert_eq!(u.favorite_id(), &None);
}

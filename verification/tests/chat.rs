use chat_client::chat::begin_turn;
use chat_client::chat::complete_turn;
use chat_client::chat::role_from_label;
use chat_client::chat::role_label;
use chat_client::chat::CallOutcome;
use chat_client::chat::ChatError;
use chat_client::chat::History;
use chat_client::chat::Message;
use chat_client::chat::Role;

fn msg(role: Role, content: &str) -> Message {
    Message {
        role,
        content: content.to_string(),
    }
}

#[test]
fn successful_turn_appends_user_then_assistant() {
    let mut h = History::new();
    begin_turn(&mut h, "hi");
    assert_eq!(h.len(), 1);
    let r = complete_turn(&mut h, CallOutcome::Response(vec![msg(Role::Assistant, "hello")]));
    assert_eq!(r.unwrap(), "hello");
    assert_eq!(h.len(), 2);
    assert_eq!(h.get(0).role, Role::User);
    assert_eq!(h.get(0).content, "hi");
    assert_eq!(h.get(1).role, Role::Assistant);
    assert_eq!(h.get(1).content, "hello");
}

#[test]
fn only_first_candidate_is_used() {
    let mut h = History::new();
    begin_turn(&mut h, "q");
    let r = complete_turn(
        &mut h,
        CallOutcome::Response(vec![msg(Role::Assistant, "first"), msg(Role::Assistant, "second")]),
    );
    assert_eq!(r.unwrap(), "first");
    assert_eq!(h.len(), 2);
    assert_eq!(h.get(1).content, "first");
}

#[test]
fn empty_response_leaves_orphaned_user_turn() {
    let mut h = History::new();
    begin_turn(&mut h, "hi");
    let r = complete_turn(&mut h, CallOutcome::Response(vec![]));
    assert!(matches!(r, Err(ChatError::EmptyResponse)));
    assert_eq!(h.len(), 1);
    assert_eq!(h.get(0).role, Role::User);
    assert_eq!(h.get(0).content, "hi");
}

#[test]
fn transport_failure_leaves_orphaned_user_turn() {
    let mut h = History::new();
    begin_turn(&mut h, "one");
    complete_turn(&mut h, CallOutcome::Response(vec![msg(Role::Assistant, "two")])).unwrap();
    begin_turn(&mut h, "three");
    let r = complete_turn(&mut h, CallOutcome::TransportFailed("boom".to_string()));
    match r {
        Err(e) => assert_eq!(e.describe(), "boom"),
        Ok(_) => panic!("a transport failure must surface an error"),
    }
    assert_eq!(h.len(), 3);
    assert_eq!(h.get(2).role, Role::User);
    assert_eq!(h.get(2).content, "three");
}

#[test]
fn parse_failure_surfaces_its_message() {
    let mut h = History::new();
    begin_turn(&mut h, "hi");
    let r = complete_turn(&mut h, CallOutcome::ParseFailed("bad json".to_string()));
    match r {
        Err(ChatError::ParseFailure(m)) => assert_eq!(m, "bad json"),
        _ => panic!("a parse failure must surface as ParseFailure"),
    }
    assert_eq!(h.len(), 1);
}

#[test]
fn clear_empties_any_history() {
    let mut h = History::new();
    for i in 0..5 {
        begin_turn(&mut h, &format!("prompt {i}"));
        complete_turn(&mut h, CallOutcome::Response(vec![msg(Role::Assistant, "ok")])).unwrap();
    }
    assert_eq!(h.len(), 10);
    h.clear();
    assert_eq!(h.len(), 0);
}

#[test]
fn turn_after_clear_starts_with_no_prior_context() {
    let mut h = History::new();
    begin_turn(&mut h, "old");
    complete_turn(&mut h, CallOutcome::Response(vec![msg(Role::Assistant, "old reply")])).unwrap();
    h.clear();
    begin_turn(&mut h, "fresh");
    let snap = h.snapshot();
    assert_eq!(snap.len(), 1);
    assert_eq!(snap[0].role, Role::User);
    assert_eq!(snap[0].content, "fresh");
}

#[test]
fn snapshot_is_independent_of_later_turns() {
    let mut h = History::new();
    begin_turn(&mut h, "a");
    let snap = h.snapshot();
    assert_eq!(snap.len(), 1);
    begin_turn(&mut h, "b");
    assert_eq!(snap.len(), 1);
    assert_eq!(h.len(), 2);
    assert_eq!(snap[0].content, "a");
}

#[test]
fn empty_response_message_text() {
    let e = ChatError::EmptyResponse;
    assert_eq!(e.describe(), "No content found in response");
}

#[test]
fn missing_key_message_text() {
    let e = ChatError::ConfigMissing;
    assert_eq!(
        e.describe(),
        "Please set your API key in the OPENROUTER_API_KEY environment variable."
    );
}

#[test]
fn role_labels_round_trip() {
    for role in [Role::User, Role::Assistant, Role::System] {
        assert_eq!(role_from_label(&role_label(role)), Some(role));
    }
    assert_eq!(role_label(Role::User), "user");
    assert_eq!(role_label(Role::Assistant), "assistant");
    assert_eq!(role_label(Role::System), "system");
}

#[test]
fn unknown_role_label_is_rejected() {
    assert_eq!(role_from_label("tool"), None);
    assert_eq!(role_from_label("User"), None);
    assert_eq!(role_from_label(""), None);
}

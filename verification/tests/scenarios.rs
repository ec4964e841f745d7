use chat_core::completion::{interpret_response, CompletionRequest};
use chat_core::conversation::ConversationState;
use chat_core::message::Origin;

#[test]
fn submit_hello_from_a_fresh_session() {
    let mut state = ConversationState::new();
    assert!(state.messages().is_empty());
    assert!(!state.pending());

    let request = state.submit("Hello");

    assert_eq!(state.messages().len(), 1);
    assert_eq!(state.messages()[0].id(), 0);
    assert_eq!(state.messages()[0].content(), "Hello");
    assert_eq!(state.messages()[0].origin(), Origin::User);
    assert!(state.pending());
    assert_eq!(request, Some(CompletionRequest::new("Hello".to_string())));
}

#[test]
fn success_after_hello_appends_the_reply() {
    let mut state = ConversationState::new();
    state.submit("Hello");

    state.on_completion_success("Hi there!");

    assert_eq!(state.messages().len(), 2);
    assert_eq!(state.messages()[0].id(), 0);
    assert_eq!(state.messages()[0].content(), "Hello");
    assert_eq!(state.messages()[0].origin(), Origin::User);
    assert_eq!(state.messages()[1].id(), 1);
    assert_eq!(state.messages()[1].content(), "Hi there!");
    assert_eq!(state.messages()[1].origin(), Origin::Assistant);
    assert!(!state.pending());
    assert_eq!(state.error_text(), "");
    assert_eq!(state.last_error(), None);
}

#[test]
fn failure_after_hello_records_the_error() {
    let mut state = ConversationState::new();
    state.submit("Hello");

    state.on_completion_failure("fetch error: timeout");

    assert_eq!(state.messages().len(), 1);
    assert_eq!(state.messages()[0].id(), 0);
    assert_eq!(state.messages()[0].content(), "Hello");
    assert_eq!(state.messages()[0].origin(), Origin::User);
    assert!(!state.pending());
    assert_eq!(state.last_error(), Some("Error: fetch error: timeout"));
    assert_eq!(state.error_text(), "Error: fetch error: timeout");
}

#[test]
fn submit_of_spaces_changes_nothing() {
    let mut state = ConversationState::new();
    state.set_draft_input("   ");

    let request = state.submit("   ");

    assert_eq!(request, None);
    assert!(state.messages().is_empty());
    assert!(!state.pending());
    assert_eq!(state.last_error(), None);
    assert_eq!(state.draft_input(), "   ");
}

#[test]
fn request_and_reply_round_trip() {
    let request = CompletionRequest::new("x".to_string());
    assert_eq!(request.body(), Ok("{\"prompt\":\"x\"}".to_string()));

    assert_eq!(interpret_response("{\"completion\":\"y\"}"), Ok("y".to_string()));
}

#[test]
fn reply_without_the_field_is_a_parse_failure() {
    let result = interpret_response("{\"text\":\"y\"}");
    assert_eq!(result, Err("json parse error: missing field `completion`".to_string()));
}

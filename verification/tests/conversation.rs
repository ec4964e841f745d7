use chat_core::completion::CompletionRequest;
use chat_core::conversation::ConversationState;
use chat_core::message::Origin;

#[test]
fn new_session_is_idle_and_empty() {
    let state = ConversationState::new();
    assert!(state.messages().is_empty());
    assert_eq!(state.draft_input(), "");
    assert!(!state.pending());
    assert_eq!(state.last_error(), None);
    assert_eq!(state.error_text(), "");
}

#[test]
fn submit_keeps_the_input_untrimmed() {
    let mut state = ConversationState::new();
    let request = state.submit("  hi there \n");
    assert_eq!(state.messages().len(), 1);
    assert_eq!(state.messages()[0].content(), "  hi there \n");
    assert!(state.messages()[0].is_user());
    let request = request.expect("a submission with text sets off a request");
    assert_eq!(request.prompt(), "  hi there \n");
}

#[test]
fn submit_clears_draft_and_last_error() {
    let mut state = ConversationState::new();
    state.submit("first");
    state.on_completion_failure("fetch error: offline");
    state.set_draft_input("second");
    assert_eq!(state.last_error(), Some("Error: fetch error: offline"));

    let request = state.submit("second");

    assert!(request.is_some());
    assert_eq!(state.draft_input(), "");
    assert_eq!(state.last_error(), None);
    assert!(state.pending());
    assert_eq!(state.messages().len(), 2);
    assert_eq!(state.messages()[1].id(), 1);
    assert_eq!(state.messages()[1].content(), "second");
    assert_eq!(state.messages()[1].origin(), Origin::User);
}

#[test]
fn submit_of_empty_input_changes_nothing() {
    let mut state = ConversationState::new();
    assert_eq!(state.submit(""), None);
    assert!(state.messages().is_empty());
    assert!(!state.pending());
}

#[test]
fn submit_of_line_breaks_and_tabs_changes_nothing() {
    let mut state = ConversationState::new();
    assert_eq!(state.submit(" \t\r\n"), None);
    assert!(state.messages().is_empty());
    assert!(!state.pending());
}

#[test]
fn submit_of_unicode_white_space_changes_nothing() {
    let mut state = ConversationState::new();
    assert_eq!(state.submit("\u{00A0}\u{2003}\u{3000}"), None);
    assert!(state.messages().is_empty());
    assert!(!state.pending());
}

#[test]
fn submit_of_a_zero_width_space_is_taken_up() {
    let mut state = ConversationState::new();
    let request = state.submit("\u{200B}");
    assert_eq!(request, Some(CompletionRequest::new("\u{200B}".to_string())));
    assert_eq!(state.messages().len(), 1);
    assert!(state.pending());
}

#[test]
fn blank_submit_keeps_a_recorded_error() {
    let mut state = ConversationState::new();
    state.submit("Hello");
    state.on_completion_failure("fetch error: timeout");

    assert_eq!(state.submit("  "), None);

    assert_eq!(state.last_error(), Some("Error: fetch error: timeout"));
    assert_eq!(state.messages().len(), 1);
    assert!(!state.pending());
}

#[test]
fn submit_while_pending_changes_nothing() {
    let mut state = ConversationState::new();
    state.submit("one");
    state.set_draft_input("two");

    let request = state.submit("two");

    assert_eq!(request, None);
    assert_eq!(state.messages().len(), 1);
    assert_eq!(state.messages()[0].content(), "one");
    assert!(state.pending());
    assert_eq!(state.draft_input(), "two");
    assert_eq!(state.last_error(), None);
}

#[test]
fn submit_trimmed_goes_by_the_trimmed_form_it_is_given() {
    let mut state = ConversationState::new();
    assert_eq!(state.submit_trimmed("  a  ", ""), None);
    assert!(state.messages().is_empty());

    let request = state.submit_trimmed("  a  ", "a");
    assert_eq!(request, Some(CompletionRequest::new("  a  ".to_string())));
    assert_eq!(state.messages()[0].content(), "  a  ");
    assert!(state.pending());

    assert_eq!(state.submit_trimmed("b", "b"), None);
    assert_eq!(state.messages().len(), 1);
}

#[test]
fn success_ends_the_wait_and_clears_the_error() {
    let mut state = ConversationState::new();
    state.submit("a");
    state.on_completion_failure("fetch error: x");
    state.submit("b");
    state.set_draft_input("typing");

    state.on_completion_success("answer");

    assert!(!state.pending());
    assert_eq!(state.last_error(), None);
    assert_eq!(state.draft_input(), "typing");
    assert_eq!(state.messages().len(), 3);
    assert_eq!(state.messages()[2].id(), 2);
    assert_eq!(state.messages()[2].content(), "answer");
    assert_eq!(state.messages()[2].origin(), Origin::Assistant);
    assert!(!state.messages()[2].is_user());
}

#[test]
fn failure_appends_nothing_and_prefixes_the_reason() {
    let mut state = ConversationState::new();
    state.submit("a");
    state.set_draft_input("typing");

    state.on_completion_failure("json parse error: bad");

    assert_eq!(state.messages().len(), 1);
    assert!(!state.pending());
    assert_eq!(state.last_error(), Some("Error: json parse error: bad"));
    assert_eq!(state.draft_input(), "typing");
}

#[test]
fn failure_with_an_empty_reason_still_records_an_error() {
    let mut state = ConversationState::new();
    state.submit("a");
    state.on_completion_failure("");
    assert_eq!(state.last_error(), Some("Error: "));
    assert_eq!(state.error_text(), "Error: ");
}

#[test]
fn a_later_failure_replaces_the_earlier_one() {
    let mut state = ConversationState::new();
    state.submit("a");
    state.on_completion_failure("first");
    state.on_completion_failure("second");
    assert_eq!(state.last_error(), Some("Error: second"));
}

#[test]
fn on_completion_with_a_text_is_a_success() {
    let mut state = ConversationState::new();
    state.submit("Hello");

    state.on_completion(&Ok("Hi there!".to_string()));

    assert_eq!(state.messages().len(), 2);
    assert_eq!(state.messages()[1].content(), "Hi there!");
    assert_eq!(state.messages()[1].origin(), Origin::Assistant);
    assert!(!state.pending());
    assert_eq!(state.last_error(), None);
}

#[test]
fn on_completion_with_a_reason_is_a_failure() {
    let mut state = ConversationState::new();
    state.submit("Hello");

    state.on_completion(&Err("fetch error: timeout".to_string()));

    assert_eq!(state.messages().len(), 1);
    assert!(!state.pending());
    assert_eq!(state.last_error(), Some("Error: fetch error: timeout"));
}

#[test]
fn set_draft_input_touches_only_the_draft() {
    let mut state = ConversationState::new();
    state.submit("Hello");
    state.set_draft_input("dra");
    state.set_draft_input("draft");
    assert_eq!(state.draft_input(), "draft");
    assert_eq!(state.messages().len(), 1);
    assert!(state.pending());
    assert_eq!(state.last_error(), None);
}

#[test]
fn ids_are_positions_over_many_rounds() {
    let mut state = ConversationState::new();
    for round in 0..10 {
        assert!(state.submit("question").is_some());
        if round % 3 == 0 {
            state.on_completion_failure("fetch error: flaky");
        } else {
            state.on_completion_success("answer");
        }
        assert!(!state.pending());
    }
    assert_eq!(state.messages().len(), 16);
    for (position, message) in state.messages().iter().enumerate() {
        assert_eq!(message.id(), position);
    }
}

#[test]
fn earlier_messages_stay_as_they_were() {
    let mut state = ConversationState::new();
    state.submit("one");
    state.on_completion_success("two");
    let before = state.messages().clone();

    state.submit("three");
    state.on_completion_failure("fetch error: x");
    state.set_draft_input("four");

    assert_eq!(&state.messages()[..2], &before[..]);
}

#[test]
fn a_clone_is_equal_and_independent() {
    let mut state = ConversationState::new();
    state.submit("Hello");
    state.set_draft_input("next");

    let mut copy = state.clone();
    assert_eq!(copy.messages(), state.messages());
    assert_eq!(copy.draft_input(), "next");
    assert!(copy.pending());

    copy.on_completion_success("Hi");
    assert_eq!(copy.messages().len(), 2);
    assert_eq!(state.messages().len(), 1);
    assert!(state.pending());
}

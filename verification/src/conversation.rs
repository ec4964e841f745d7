//! The conversation store: the ordered messages of one chat session, the
//! draft being typed, the in-flight flag and the last error, together with the
//! transitions between `IDLE` (nothing in flight) and `AWAITING_RESPONSE`.

use vstd::prelude::*;
use crate::completion::{outcome, CompletionRequest, CompletionResult};
use crate::message::{Message, MessageView, Origin};
use crate::text::{join, trim, trimmed};

verus! {

/// The mathematical value of a [`ConversationState`], and the transition
/// system that the store implements.
pub struct ConversationView {
    /// The messages, oldest first.
    pub messages: Seq<MessageView>,
    /// The text being edited.
    pub draft_input: Seq<char>,
    /// Whether a completion request is outstanding.
    pub pending: bool,
    /// The last failure shown to the user, if any.
    pub last_error: Option<Seq<char>>,
}

/// The text that precedes the reason of every recorded failure.
pub open spec fn error_prefix() -> Seq<char> {
    "Error: "@
}

impl ConversationView {
    /// The state a session starts in: `IDLE`, with nothing said.
    pub open spec fn initial() -> ConversationView {
        ConversationView {
            messages: Seq::empty(),
            draft_input: Seq::empty(),
            pending: false,
            last_error: None,
        }
    }

    /// Every message carries its own position as its id.
    pub open spec fn wf(self) -> bool {
        forall|i: int| 0 <= i < self.messages.len() ==> (#[trigger] self.messages[i]).id == i
    }

    /// The messages once `content` has been appended on behalf of `origin`.
    pub open spec fn appended(self, content: Seq<char>, origin: Origin) -> Seq<MessageView> {
        self.messages.push(MessageView { id: self.messages.len(), content, origin })
    }

    /// Whether a submission is taken up: nothing is in flight, and what is
    /// left of the input after trimming is not empty.
    pub open spec fn accepts(self, kept: Seq<char>) -> bool {
        !self.pending && kept.len() > 0
    }

    /// The state after the user submits `input`, of which trimming leaves
    /// `kept`. A submission that is not taken up changes nothing.
    pub open spec fn submit(self, input: Seq<char>, kept: Seq<char>) -> ConversationView {
        if self.accepts(kept) {
            ConversationView {
                messages: self.appended(input, Origin::User),
                draft_input: Seq::empty(),
                pending: true,
                last_error: None,
            }
        } else {
            self
        }
    }

    /// The request that a submission sets off: the untrimmed input as prompt,
    /// or nothing where the submission is not taken up.
    pub open spec fn request(self, input: Seq<char>, kept: Seq<char>) -> Option<Seq<char>> {
        if self.accepts(kept) {
            Some(input)
        } else {
            None
        }
    }

    /// The state after the outstanding request has produced `text`.
    pub open spec fn succeed(self, text: Seq<char>) -> ConversationView {
        ConversationView {
            messages: self.appended(text, Origin::Assistant),
            pending: false,
            last_error: None,
            ..self
        }
    }

    /// The state after the outstanding request has failed for `reason`.
    pub open spec fn fail(self, reason: Seq<char>) -> ConversationView {
        ConversationView { pending: false, last_error: Some(error_prefix() + reason), ..self }
    }

    /// The state after the outstanding request has ended with `result`.
    pub open spec fn complete(self, result: Result<Seq<char>, Seq<char>>) -> ConversationView {
        match result {
            Ok(text) => self.succeed(text),
            Err(reason) => self.fail(reason),
        }
    }

    /// The state after the draft has been replaced by `text`.
    pub open spec fn with_draft(self, text: Seq<char>) -> ConversationView {
        ConversationView { draft_input: text, ..self }
    }
}

/// What is shown for the last error: its text, or nothing.
pub open spec fn shown_error(last_error: Option<Seq<char>>) -> Seq<char> {
    match last_error {
        Some(text) => text,
        None => Seq::empty(),
    }
}

/// The values of a run of messages, in order.
pub open spec fn views(messages: Seq<Message>) -> Seq<MessageView> {
    messages.map_values(|m: Message| m@)
}

/// The state of one chat session.
#[derive(Debug)]
pub struct ConversationState {
    messages: Vec<Message>,
    draft_input: String,
    pending: bool,
    last_error: Option<String>,
}

impl View for ConversationState {
    type V = ConversationView;

    closed spec fn view(&self) -> ConversationView {
        ConversationView {
            messages: views(self.messages@),
            draft_input: self.draft_input@,
            pending: self.pending,
            last_error: match self.last_error {
                Some(text) => Some(text@),
                None => None,
            },
        }
    }
}

impl Clone for ConversationState {
    fn clone(&self) -> (copy: ConversationState)
        ensures
            copy@ == self@,
    {
        proof {
            use_type_invariant(self);
        }
        let copy = ConversationState {
            messages: self.messages.clone(),
            draft_input: self.draft_input.clone(),
            pending: self.pending,
            last_error: self.last_error.clone(),
        };
        assert(copy.messages@ =~= self.messages@);
        copy
    }
}

impl ConversationState {
    #[verifier::type_invariant]
    closed spec fn inv(self) -> bool {
        self@.wf()
    }

    /// A fresh session: `IDLE`, with no message, no draft and no error.
    pub fn new() -> (state: ConversationState)
        ensures
            state@ == ConversationView::initial(),
            state@.wf(),
    {
        let state = ConversationState {
            messages: Vec::new(),
            draft_input: String::new(),
            pending: false,
            last_error: None,
        };
        assert(state@.messages =~= Seq::empty());
        state
    }

    /// Handles a form submission. Where nothing is in flight and `input` is
    /// more than white space, the input is appended verbatim as a user
    /// message, the draft and the last error are cleared, the session starts
    /// to wait, and the request to send is handed back. Any other submission
    /// is ignored without a trace.
    pub fn submit(&mut self, input: &str) -> (request: Option<CompletionRequest>)
        ensures
            final(self)@ == old(self)@.submit(input@, trimmed(input@)),
            final(self)@.wf(),
            match request {
                Some(r) => old(self)@.request(input@, trimmed(input@)) == Some(r@),
                None => old(self)@.request(input@, trimmed(input@)) is None,
            },
    {
        let kept = trim(input);
        self.submit_trimmed(input, kept)
    }

    /// [`ConversationState::submit`] for an input whose trimmed form `kept`
    /// is already at hand.
    pub fn submit_trimmed(&mut self, input: &str, kept: &str) -> (request: Option<
        CompletionRequest,
    >)
        ensures
            final(self)@ == old(self)@.submit(input@, kept@),
            final(self)@.wf(),
            match request {
                Some(r) => old(self)@.request(input@, kept@) == Some(r@),
                None => old(self)@.request(input@, kept@) is None,
            },
    {
        proof {
            use_type_invariant(&*self);
        }
        if self.pending || kept.is_empty() {
            return None;
        }
        self.append(input, Origin::User);
        self.draft_input = String::new();
        self.pending = true;
        self.last_error = None;
        Some(CompletionRequest::new(input.to_owned()))
    }

    /// Records that the outstanding request produced `text`: appends it as an
    /// assistant message, stops waiting and clears the last error.
    pub fn on_completion_success(&mut self, text: &str)
        ensures
            final(self)@ == old(self)@.succeed(text@),
            final(self)@.wf(),
    {
        self.append(text, Origin::Assistant);
        self.pending = false;
        self.last_error = None;
    }

    /// Records that the outstanding request failed for `reason`: stops
    /// waiting and keeps the reason, behind a fixed prefix, as the last
    /// error. No message is appended.
    pub fn on_completion_failure(&mut self, reason: &str)
        ensures
            final(self)@ == old(self)@.fail(reason@),
            final(self)@.wf(),
    {
        proof {
            use_type_invariant(&*self);
        }
        self.pending = false;
        self.last_error = Some(join("Error: ", reason));
    }

    /// Records how the outstanding request ended: a text is handled as a
    /// success, a reason as a failure, and never both.
    pub fn on_completion(&mut self, result: &CompletionResult)
        ensures
            final(self)@ == old(self)@.complete(outcome(*result)),
            final(self)@.wf(),
            !final(self)@.pending,
    {
        match result {
            Ok(text) => self.on_completion_success(text.as_str()),
            Err(reason) => self.on_completion_failure(reason.as_str()),
        }
    }

    /// Replaces the draft, as live editing does on every keystroke.
    pub fn set_draft_input(&mut self, text: &str)
        ensures
            final(self)@ == old(self)@.with_draft(text@),
            final(self)@.wf(),
    {
        proof {
            use_type_invariant(&*self);
        }
        self.draft_input = text.to_owned();
    }

    /// The messages, oldest first; each carries its position as its id.
    pub fn messages(&self) -> (messages: &Vec<Message>)
        ensures
            views(messages@) == self@.messages,
            self@.wf(),
    {
        proof {
            use_type_invariant(self);
        }
        &self.messages
    }

    /// The text being edited.
    pub fn draft_input(&self) -> (draft: &str)
        ensures
            draft@ == self@.draft_input,
    {
        self.draft_input.as_str()
    }

    /// Whether a completion request is outstanding.
    pub fn pending(&self) -> (pending: bool)
        ensures
            pending == self@.pending,
    {
        self.pending
    }

    /// The last failure, if one is on record.
    pub fn last_error(&self) -> (error: Option<&str>)
        ensures
            match error {
                Some(text) => self@.last_error == Some(text@),
                None => self@.last_error is None,
            },
    {
        match &self.last_error {
            Some(text) => Some(text.as_str()),
            None => None,
        }
    }

    /// The last failure as the text to show: empty where none is on record.
    pub fn error_text(&self) -> (text: &str)
        ensures
            text@ == shown_error(self@.last_error),
    {
        match &self.last_error {
            Some(text) => text.as_str(),
            None => {
                proof {
                    reveal_strlit("");
                }
                ""
            },
        }
    }

    /// Appends `content` on behalf of `origin`, with the current length as id.
    fn append(&mut self, content: &str, origin: Origin)
        ensures
            final(self)@ == (ConversationView {
                messages: old(self)@.appended(content@, origin),
                ..old(self)@
            }),
            final(self)@.wf(),
    {
        proof {
            use_type_invariant(&*self);
        }
        // The list is taken out, extended and put back, so that the state is
        // well formed at every step in between.
        let mut messages: Vec<Message> = Vec::new();
        core::mem::swap(&mut self.messages, &mut messages);
        let id = messages.len();
        messages.push(Message::new(id, content.to_owned(), origin));
        assert(views(messages@) =~= old(self)@.appended(content@, origin));
        self.messages = messages;
    }
}

} // verus!

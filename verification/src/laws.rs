//! What holds of the conversation store in every state, stated over the
//! transition system of [`ConversationView`], and what holds of the reading
//! of every reply; each is proved once and for all.

use vstd::prelude::*;
use crate::completion::{completion_key, conclusion, interpretation, parse_prefix, Reply};
use crate::conversation::{error_prefix, ConversationView};
use crate::json::{field_of, json_document, Members};
use crate::message::{MessageView, Origin};
use crate::text::trimmed;

verus! {

/// A session starts in `IDLE`, with no message, and every id in place.
pub proof fn law_initial_state()
    ensures
        ConversationView::initial().wf(),
        !ConversationView::initial().pending,
        ConversationView::initial().messages.len() == 0,
        ConversationView::initial().last_error is None,
{
}

/// While nothing is in flight, submitting an input of which trimming leaves
/// something appends exactly one user message, whose content is the input
/// untrimmed and whose id is the former length; it clears the draft and the
/// last error, starts the wait, and asks for a completion of that same input.
pub proof fn law_submit_text(state: ConversationView, input: Seq<char>)
    requires
        !state.pending,
        trimmed(input).len() > 0,
    ensures
        state.submit(input, trimmed(input)).messages == state.messages.push(
            MessageView { id: state.messages.len(), content: input, origin: Origin::User },
        ),
        state.submit(input, trimmed(input)).messages.len() == state.messages.len() + 1,
        state.submit(input, trimmed(input)).pending,
        state.submit(input, trimmed(input)).draft_input.len() == 0,
        state.submit(input, trimmed(input)).last_error is None,
        state.request(input, trimmed(input)) == Some(input),
{
}

/// Submitting an input of which trimming leaves nothing changes no part of
/// the state, whatever the state, and asks for nothing.
pub proof fn law_submit_blank(state: ConversationView, input: Seq<char>)
    requires
        trimmed(input).len() == 0,
    ensures
        state.submit(input, trimmed(input)) == state,
        state.request(input, trimmed(input)) is None,
{
}

/// While a request is in flight, submitting changes no part of the state and
/// asks for nothing, whatever the input: no second request is ever set off.
pub proof fn law_submit_while_pending(state: ConversationView, input: Seq<char>)
    requires
        state.pending,
    ensures
        state.submit(input, trimmed(input)) == state,
        state.request(input, trimmed(input)) is None,
{
}

/// A request is asked for exactly when the submission takes the session from
/// `IDLE` to `AWAITING_RESPONSE`.
pub proof fn law_request_iff_wait_begins(state: ConversationView, input: Seq<char>)
    ensures
        state.request(input, trimmed(input)) is Some <==> !state.pending && state.submit(
            input,
            trimmed(input),
        ).pending,
{
}

/// The end of a request is handled as a success or as a failure and never as
/// both or neither: either one assistant message is appended and no error is
/// on record, or no message is appended and an error is. Either way the
/// session is back in `IDLE`.
pub proof fn law_completion(state: ConversationView, result: Result<Seq<char>, Seq<char>>)
    ensures
        match result {
            Ok(text) => state.complete(result) == state.succeed(text),
            Err(reason) => state.complete(result) == state.fail(reason),
        },
        (state.complete(result).messages.len() == state.messages.len() + 1 && state.complete(
            result,
        ).last_error is None) != (state.complete(result).messages == state.messages
            && state.complete(result).last_error is Some),
        !state.complete(result).pending,
{
}

/// A success appends exactly one assistant message, whose content is the
/// text and whose id is the former length; it ends the wait, clears the last
/// error and leaves the draft alone.
pub proof fn law_success(state: ConversationView, text: Seq<char>)
    ensures
        state.succeed(text).messages == state.messages.push(
            MessageView { id: state.messages.len(), content: text, origin: Origin::Assistant },
        ),
        state.succeed(text).messages.len() == state.messages.len() + 1,
        !state.succeed(text).pending,
        state.succeed(text).last_error is None,
        state.succeed(text).draft_input == state.draft_input,
{
}

/// A failure appends no message; it ends the wait, puts the reason behind
/// the fixed prefix on record as the last error, and leaves the draft alone.
pub proof fn law_failure(state: ConversationView, reason: Seq<char>)
    ensures
        state.fail(reason).messages == state.messages,
        !state.fail(reason).pending,
        state.fail(reason).last_error == Some(error_prefix() + reason),
        state.fail(reason).last_error == Some("Error: "@ + reason),
        state.fail(reason).draft_input == state.draft_input,
{
}

/// No failure ends the session: after a failure, whatever the reason, a
/// submission is taken up exactly where trimming leaves something of it.
pub proof fn law_resubmit_after_failure(
    state: ConversationView,
    reason: Seq<char>,
    input: Seq<char>,
)
    ensures
        state.fail(reason).accepts(trimmed(input)) <==> trimmed(input).len() > 0,
        trimmed(input).len() > 0 ==> state.fail(reason).submit(input, trimmed(input)).pending
            && state.fail(reason).submit(input, trimmed(input)).last_error is None,
{
}

/// Editing the draft touches nothing but the draft.
pub proof fn law_draft(state: ConversationView, text: Seq<char>)
    ensures
        state.with_draft(text).draft_input == text,
        state.with_draft(text).messages == state.messages,
        state.with_draft(text).pending == state.pending,
        state.with_draft(text).last_error == state.last_error,
{
}

/// Every transition keeps every id equal to its position.
pub proof fn law_ids_stay_positions(
    state: ConversationView,
    input: Seq<char>,
    result: Result<Seq<char>, Seq<char>>,
)
    requires
        state.wf(),
    ensures
        state.submit(input, trimmed(input)).wf(),
        state.complete(result).wf(),
        state.with_draft(input).wf(),
{
}

/// The conversation only grows at its end: after any transition the former
/// messages are still there, unchanged and in their places.
pub proof fn law_append_only(
    state: ConversationView,
    input: Seq<char>,
    result: Result<Seq<char>, Seq<char>>,
)
    ensures
        state.messages.is_prefix_of(state.submit(input, trimmed(input)).messages),
        state.messages.is_prefix_of(state.complete(result).messages),
        state.messages.is_prefix_of(state.with_draft(input).messages),
{
}

/// One full round, a submission that is taken up and the end of its request,
/// leaves the session in `IDLE` with the user's message in place, followed by
/// the assistant's where the request succeeded.
pub proof fn law_round(
    state: ConversationView,
    input: Seq<char>,
    result: Result<Seq<char>, Seq<char>>,
)
    requires
        !state.pending,
        trimmed(input).len() > 0,
    ensures
        ({
            let before = state.messages.len() as int;
            let after = state.submit(input, trimmed(input)).complete(result);
            &&& !after.pending
            &&& after.messages.len() == before + (if result is Ok {
                2int
            } else {
                1int
            })
            &&& after.messages[before] == (MessageView {
                id: before as nat,
                content: input,
                origin: Origin::User,
            })
            &&& result matches Ok(text) ==> after.last_error is None && after.messages[before + 1]
                == (MessageView {
                id: (before + 1) as nat,
                content: text,
                origin: Origin::Assistant,
            })
            &&& result matches Err(reason) ==> after.last_error == Some(error_prefix() + reason)
        }),
{
}

/// A reply is read as a completion exactly where its body is a JSON object
/// that holds a text under `completion`, and the completion is that text. In
/// every other case the reading is a failure whose reason begins with the
/// prefix of parse failures.
pub proof fn law_reply_reading(document: Result<Members, Seq<char>>)
    ensures
        interpretation(document) matches Ok(text) ==> (document matches Ok(members) && field_of(
            members,
            completion_key(),
        ) == Some(Some(text))),
        interpretation(document) matches Err(reason) ==> parse_prefix().is_prefix_of(reason),
        interpretation(document) is Ok <==> (document matches Ok(members) && field_of(
            members,
            completion_key(),
        ) matches Some(Some(_))),
{
}

/// Only a reply that came with a body can amount to a completion: an
/// exchange that broke off, failed in transport or could not be read always
/// ends in a failure.
pub proof fn law_completion_needs_a_body(reply: Reply)
    ensures
        conclusion(reply) is Ok ==> (reply matches Reply::Body(body) && interpretation(
            json_document(body@),
        ) == conclusion(reply)),
{
}

} // verus!

//! The completion client: what is sent to the completion endpoint for a
//! prompt, and what a reply amounts to.

use vstd::prelude::*;
use crate::json::{
    field, field_of, json_document, json_string_literal, parse_document, quote, Field, Members,
};
use crate::text::join;

verus! {

/// How one exchange with the completion endpoint ended: the completion, or
/// the reason for which there is none.
pub type CompletionResult = Result<String, String>;

/// The mathematical value of a [`CompletionResult`].
pub open spec fn outcome(result: CompletionResult) -> Result<Seq<char>, Seq<char>> {
    match result {
        Ok(text) => Ok(text@),
        Err(reason) => Err(reason@),
    }
}

/// What is asked of the completion endpoint.
#[derive(Debug, PartialEq, Eq)]
pub struct CompletionRequest {
    prompt: String,
}

impl View for CompletionRequest {
    type V = Seq<char>;

    closed spec fn view(&self) -> Seq<char> {
        self.prompt@
    }
}

impl Clone for CompletionRequest {
    fn clone(&self) -> (copy: CompletionRequest)
        ensures
            copy == *self,
    {
        CompletionRequest { prompt: self.prompt.clone() }
    }
}

impl CompletionRequest {
    /// The request for a completion of `prompt`.
    pub fn new(prompt: String) -> (request: CompletionRequest)
        ensures
            request@ == prompt@,
    {
        CompletionRequest { prompt }
    }

    /// The text to be completed.
    pub fn prompt(&self) -> (prompt: &str)
        ensures
            prompt@ == self@,
    {
        self.prompt.as_str()
    }

    /// The body to send: a JSON object whose one member, `prompt`, is the
    /// prompt as `serde_json` writes a string.
    pub fn body(&self) -> (body: Result<String, String>)
        ensures
            match request_body(self@) {
                Ok(text) => body matches Ok(b) && b@ == text,
                Err(message) => body matches Err(reason) && reason@ == message,
            },
    {
        match quote(self.prompt.as_str()) {
            Ok(literal) => Ok(frame_body(literal.as_str())),
            Err(message) => Err(message),
        }
    }
}

/// The endpoint that every request goes to.
pub open spec fn endpoint() -> Seq<char> {
    "https://api.anthropic.com/v1/completions"@
}

/// The key of the one member of a request body.
pub open spec fn prompt_key() -> Seq<char> {
    "prompt"@
}

/// The key under which a reply carries the completion.
pub open spec fn completion_key() -> Seq<char> {
    "completion"@
}

/// The text that precedes the detail of a transport failure.
pub open spec fn transport_prefix() -> Seq<char> {
    "fetch error: "@
}

/// The text that precedes the detail of a parse failure.
pub open spec fn parse_prefix() -> Seq<char> {
    "json parse error: "@
}

/// The JSON object with the single member `prompt`, given the JSON string
/// literal of the prompt.
pub open spec fn framed(literal: Seq<char>) -> Seq<char> {
    "{\""@ + prompt_key() + "\":"@ + literal + "}"@
}

/// The body that asks for a completion of `prompt`, or the reason for which
/// the prompt cannot be written as JSON.
pub open spec fn request_body(prompt: Seq<char>) -> Result<Seq<char>, Seq<char>> {
    match json_string_literal(prompt) {
        Ok(literal) => Ok(framed(literal)),
        Err(message) => Err(message),
    }
}

/// What a reply amounts to, given what it holds under the completion key.
pub open spec fn completion_of(found: Option<Option<Seq<char>>>) -> Result<Seq<char>, Seq<char>> {
    match found {
        Some(Some(text)) => Ok(text),
        Some(None) => Err(parse_prefix() + "field `completion` is not a string"@),
        None => Err(parse_prefix() + "missing field `completion`"@),
    }
}

/// What a reply amounts to, given what parsing its body gave.
pub open spec fn interpretation(document: Result<Members, Seq<char>>) -> Result<
    Seq<char>,
    Seq<char>,
> {
    match document {
        Ok(members) => completion_of(field_of(members, completion_key())),
        Err(message) => Err(parse_prefix() + message),
    }
}

/// Wraps the JSON string literal of a prompt into the request body.
pub fn frame_body(literal: &str) -> (body: String)
    ensures
        body@ == framed(literal@),
{
    let mut body = join("{\"", "prompt");
    body.append("\":");
    body.append(literal);
    body.append("}");
    body
}

/// The failed exchange whose transport broke down with `detail`.
pub fn transport_failure(detail: &str) -> (result: CompletionResult)
    ensures
        outcome(result) == Err::<Seq<char>, Seq<char>>(transport_prefix() + detail@),
{
    Err(join("fetch error: ", detail))
}

/// The failed exchange whose reply could not be read, with `detail`.
pub fn parse_failure(detail: &str) -> (result: CompletionResult)
    ensures
        outcome(result) == Err::<Seq<char>, Seq<char>>(parse_prefix() + detail@),
{
    Err(join("json parse error: ", detail))
}

/// What a reply amounts to, once `found` is known to stand under the
/// completion key: the text where there is one, a parse failure otherwise.
pub fn completion_from(found: Field) -> (result: CompletionResult)
    ensures
        outcome(result) == completion_of(found@),
{
    match found {
        Field::Text(text) => Ok(text),
        Field::NotText => parse_failure("field `completion` is not a string"),
        Field::Absent => parse_failure("missing field `completion`"),
    }
}

/// Reads the body of a reply: the text under `completion` where the body is
/// a JSON object that has one, a parse failure in every other case.
pub fn interpret_response(body: &str) -> (result: CompletionResult)
    ensures
        outcome(result) == interpretation(json_document(body@)),
{
    match parse_document(body) {
        Ok(document) => completion_from(field(&document, "completion")),
        Err(message) => parse_failure(message.as_str()),
    }
}

/// One header of a request.
#[derive(Debug, PartialEq, Eq)]
pub struct Header {
    /// The name of the header.
    pub name: String,
    /// Its value.
    pub value: String,
}

/// Everything the transport has to know to send one request.
#[derive(Debug, PartialEq, Eq)]
pub struct HttpRequest {
    /// The HTTP method.
    pub method: String,
    /// The address of the endpoint.
    pub url: String,
    /// The headers, in the order in which they are set.
    pub headers: Vec<Header>,
    /// The body.
    pub body: String,
}

/// Whether `http` is the request that carries `body` to the endpoint on
/// behalf of the holder of `credential`: a `POST` of JSON, with the
/// credential in a header of its own.
pub open spec fn carries(http: HttpRequest, body: Seq<char>, credential: Seq<char>) -> bool {
    &&& http.method@ == "POST"@
    &&& http.url@ == endpoint()
    &&& http.headers@.len() == 2
    &&& http.headers@[0].name@ == "Content-Type"@
    &&& http.headers@[0].value@ == "application/json"@
    &&& http.headers@[1].name@ == "X-API-Key"@
    &&& http.headers@[1].value@ == credential
    &&& http.body@ == body
}

/// Describes the one request of an exchange: the prompt of `request` as the
/// body, authenticated by `credential`, which the caller supplies. There is
/// no request where the prompt cannot be written as JSON; the reason then
/// comes back instead.
pub fn build_request(request: &CompletionRequest, credential: &str) -> (built: Result<
    HttpRequest,
    String,
>)
    ensures
        match request_body(request@) {
            Ok(body) => built matches Ok(http) && carries(http, body, credential@),
            Err(message) => built matches Err(reason) && reason@ == message,
        },
{
    match request.body() {
        Ok(body) => {
            let mut headers: Vec<Header> = Vec::new();
            headers.push(
                Header { name: "Content-Type".to_owned(), value: "application/json".to_owned() },
            );
            headers.push(Header { name: "X-API-Key".to_owned(), value: credential.to_owned() });
            Ok(
                HttpRequest {
                    method: "POST".to_owned(),
                    url: "https://api.anthropic.com/v1/completions".to_owned(),
                    headers,
                    body,
                },
            )
        },
        Err(message) => Err(message),
    }
}

/// How the transport ended one exchange.
#[derive(Debug, PartialEq, Eq)]
pub enum Reply {
    /// The exchange broke off before or beside the transport, for this
    /// reason, which is reported as it is.
    Aborted(String),
    /// The request never got an answer; the detail says why.
    TransportFailed(String),
    /// An answer came, but its body could not be read; the detail says why.
    Unreadable(String),
    /// An answer came with this body.
    Body(String),
}

/// What an exchange that ended with `reply` amounts to.
pub open spec fn conclusion(reply: Reply) -> Result<Seq<char>, Seq<char>> {
    match reply {
        Reply::Aborted(reason) => Err(reason@),
        Reply::TransportFailed(detail) => Err(transport_prefix() + detail@),
        Reply::Unreadable(detail) => Err(parse_prefix() + detail@),
        Reply::Body(body) => interpretation(json_document(body@)),
    }
}

/// Turns the end of an exchange into its result. Every reply gives exactly
/// one result, and nothing is tried a second time.
pub fn conclude(reply: &Reply) -> (result: CompletionResult)
    ensures
        outcome(result) == conclusion(*reply),
{
    match reply {
        Reply::Aborted(reason) => Err(reason.clone()),
        Reply::TransportFailed(detail) => transport_failure(detail.as_str()),
        Reply::Unreadable(detail) => parse_failure(detail.as_str()),
        Reply::Body(body) => interpret_response(body.as_str()),
    }
}

} // verus!

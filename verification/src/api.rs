//! The wire side of the remote chat-completion service: what is sent with
//! a request, and how an answer is read.

use vstd::prelude::*;
use vstd::string::*;
use crate::messages::ChatMessage;
use crate::text::{decimal, decimal_string};

verus! {

/// The endpoint that chat-completion requests are posted to.
pub const OPENROUTER_API_URL: &'static str = "https://openrouter.ai/api/v1/chat/completions";

/// How long a request may take, in seconds.
pub const REQUEST_TIMEOUT_SECS: u64 = 300;

/// The body of a chat-completion request.
#[derive(Clone, Debug)]
pub struct ChatRequest {
    pub model: String,
    pub messages: Vec<ChatMessage>,
}

/// Why the remote service gave no text.
#[derive(Clone, Debug)]
pub enum RemoteError {
    /// The request could not be sent, or the answer's body not be read.
    Transport { detail: String },
    /// The service answered with a status outside the 2xx range.
    Status { code: u16, body: String },
    /// The answer's body is not JSON.
    Malformed,
    /// The answer holds no text at `choices[0].message.content`.
    MissingContent,
}

impl RemoteError {
    /// The report of this failure in words.
    pub open spec fn report(&self) -> Seq<char> {
        match *self {
            RemoteError::Transport { detail } => detail@,
            RemoteError::Status { code, body } => "OpenRouter API error ("@ + decimal(code as nat)
                + "): "@ + body@,
            RemoteError::Malformed => "Failed to parse OpenRouter response"@,
            RemoteError::MissingContent => "No content in OpenRouter response"@,
        }
    }

    /// Describes this failure in words.
    pub fn message(&self) -> (text: String)
        ensures
            text@ == self.report(),
    {
        match self {
            RemoteError::Transport { detail } => String::from_str(detail.as_str()),
            RemoteError::Status { code, body } => {
                let mut text = String::from_str("OpenRouter API error (");
                text.append(decimal_string(*code as usize).as_str());
                text.append("): ");
                text.append(body.as_str());
                text
            },
            RemoteError::Malformed => String::from_str("Failed to parse OpenRouter response"),
            RemoteError::MissingContent => String::from_str("No content in OpenRouter response"),
        }
    }
}

/// A parsed JSON document.
#[verifier::external_type_specification]
#[verifier::external_body]
pub struct ExJsonValue(serde_json::Value);

/// Why a text is not JSON.
#[verifier::external_type_specification]
#[verifier::external_body]
pub struct ExJsonError(serde_json::Error);

/// The document that `serde_json::from_str` reads from a text, `None`
/// where it reports an error.
pub uninterp spec fn parsed_json(text: Seq<char>) -> Option<serde_json::Value>;

/// The member of a JSON object under a key, as `Value::get` finds it with
/// a string index.
pub uninterp spec fn member_of(value: serde_json::Value, key: Seq<char>) -> Option<
    serde_json::Value,
>;

/// The element of a JSON array at a position, as `Value::get` finds it
/// with a `usize` index.
pub uninterp spec fn element_of(value: serde_json::Value, index: nat) -> Option<serde_json::Value>;

/// The text of a JSON string, as `Value::as_str` gives it.
pub uninterp spec fn string_of(value: serde_json::Value) -> Option<Seq<char>>;

/// Calls `serde_json::from_str` for a `Value`. The parser returns an error
/// on malformed or too deeply nested input and does not panic; what it
/// reads depends on the text alone and is given the name [`parsed_json`].
#[verifier::external_body]
fn parse_json(text: &str) -> (parsed: Result<serde_json::Value, serde_json::Error>)
    ensures
        parsed is Ok <==> parsed_json(text@) is Some,
        parsed is Ok ==> Some(parsed.unwrap()) == parsed_json(text@),
{
    serde_json::from_str::<serde_json::Value>(text)
}

/// Calls `Value::get` with a string index: the member of an object under
/// `key`, `None` where the value is no object or has no such member. The
/// contract only gives the outcome the name [`member_of`].
#[verifier::external_body]
fn json_member<'a>(value: &'a serde_json::Value, key: &str) -> (member: Option<
    &'a serde_json::Value,
>)
    ensures
        member is Some <==> member_of(*value, key@) is Some,
        member is Some ==> Some(*member.unwrap()) == member_of(*value, key@),
{
    value.get(key)
}

/// Calls `Value::get` with a `usize` index: the element of an array at
/// `index`, `None` where the value is no array or is too short. The
/// contract only gives the outcome the name [`element_of`].
#[verifier::external_body]
fn json_element<'a>(value: &'a serde_json::Value, index: usize) -> (element: Option<
    &'a serde_json::Value,
>)
    ensures
        element is Some <==> element_of(*value, index as nat) is Some,
        element is Some ==> Some(*element.unwrap()) == element_of(*value, index as nat),
{
    value.get(index)
}

/// Calls `Value::as_str` and copies the text: `None` where the value is no
/// JSON string. The contract only gives the outcome the name [`string_of`].
#[verifier::external_body]
fn json_text(value: &serde_json::Value) -> (text: Option<String>)
    ensures
        text is Some <==> string_of(*value) is Some,
        text is Some ==> Some(text.unwrap()@) == string_of(*value),
{
    value.as_str().map(String::from)
}

/// The text at `choices[0].message.content` of an answer, if there is one.
pub open spec fn content_of(document: serde_json::Value) -> Option<Seq<char>> {
    match member_of(document, "choices"@) {
        None => None,
        Some(choices) => match element_of(choices, 0) {
            None => None,
            Some(first) => match member_of(first, "message"@) {
                None => None,
                Some(message) => match member_of(message, "content"@) {
                    None => None,
                    Some(content) => string_of(content),
                },
            },
        },
    }
}

/// What an answer with a success status and the given body amounts to.
pub open spec fn reads_as(body: Seq<char>, reply: Result<String, RemoteError>) -> bool {
    match parsed_json(body) {
        None => reply == Err::<String, RemoteError>(RemoteError::Malformed),
        Some(document) => match content_of(document) {
            None => reply == Err::<String, RemoteError>(RemoteError::MissingContent),
            Some(text) => reply is Ok && reply.unwrap()@ == text,
        },
    }
}

/// Whether an HTTP status reports success.
pub open spec fn is_success(status: u16) -> bool {
    200 <= status < 300
}

/// Tells whether an HTTP status reports success.
pub fn status_is_success(status: u16) -> (ok: bool)
    ensures
        ok == is_success(status),
{
    200 <= status && status < 300
}

/// The value of the `Authorization` header for an API key.
pub fn bearer_token(api_key: &str) -> (header: String)
    ensures
        header@ == "Bearer "@ + api_key@,
{
    let mut header = String::from_str("Bearer ");
    header.append(api_key);
    header
}

/// Puts a model's name and the messages for it into one request.
pub fn chat_request(model: &str, messages: Vec<ChatMessage>) -> (request: ChatRequest)
    ensures
        request.model@ == model@,
        request.messages == messages,
{
    ChatRequest { model: String::from_str(model), messages }
}

/// What the lookup of the answer's text means for the caller: the text
/// itself, or the report that none is there.
pub fn content_or_missing(found: Option<String>) -> (reply: Result<String, RemoteError>)
    ensures
        match found {
            Some(text) => reply == Ok::<String, RemoteError>(text),
            None => reply == Err::<String, RemoteError>(RemoteError::MissingContent),
        },
{
    match found {
        Some(text) => Ok(text),
        None => Err(RemoteError::MissingContent),
    }
}

/// What a body that is no JSON means for the caller.
pub fn parsed_or_malformed(parsed: Result<serde_json::Value, serde_json::Error>) -> (document:
    Result<serde_json::Value, RemoteError>)
    ensures
        match parsed {
            Ok(value) => document == Ok::<serde_json::Value, RemoteError>(value),
            Err(_) => document == Err::<serde_json::Value, RemoteError>(RemoteError::Malformed),
        },
{
    match parsed {
        Ok(value) => Ok(value),
        Err(_) => Err(RemoteError::Malformed),
    }
}

/// Looks up the text at `choices[0].message.content`.
pub fn find_content(document: &serde_json::Value) -> (found: Option<String>)
    ensures
        found is Some <==> content_of(*document) is Some,
        found is Some ==> Some(found.unwrap()@) == content_of(*document),
{
    let choices = match json_member(document, "choices") {
        Some(value) => value,
        None => return None,
    };
    let first = match json_element(choices, 0) {
        Some(value) => value,
        None => return None,
    };
    let message = match json_member(first, "message") {
        Some(value) => value,
        None => return None,
    };
    match json_member(message, "content") {
        Some(value) => json_text(value),
        None => None,
    }
}

/// Reads the answer of the remote service. A status outside the 2xx range
/// is reported with the body as it came. Otherwise the body is parsed and
/// searched for the answer's text: a body that is no JSON is malformed, a
/// document without a string at `choices[0].message.content` lacks content.
pub fn interpret_response(status: u16, body: &str) -> (reply: Result<String, RemoteError>)
    ensures
        !is_success(status) ==> (reply matches Err(RemoteError::Status { code, body: text })
            && code == status && text@ == body@),
        is_success(status) ==> reads_as(body@, reply),
{
    if !status_is_success(status) {
        return Err(RemoteError::Status { code: status, body: String::from_str(body) });
    }
    match parsed_or_malformed(parse_json(body)) {
        Ok(document) => content_or_missing(find_content(&document)),
        Err(error) => Err(error),
    }
}

} // verus!

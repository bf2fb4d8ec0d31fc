//! The outcome of a request and the HTTP response it is answered with.

use crate::engine::{ChatCompletionResponse, Response};
use crate::stream::Streamer;
use vstd::prelude::*;

verus! {

/// HTTP status of a success.
pub const STATUS_OK: u16 = 200;

/// HTTP status of a request rejected before execution.
pub const STATUS_UNPROCESSABLE_ENTITY: u16 = 422;

/// HTTP status of a failure of the engine or of the bridge.
pub const STATUS_INTERNAL_SERVER_ERROR: u16 = 500;

/// The keep-alive comment that an event stream repeats while it is idle.
pub struct KeepAlive {
    pub interval_ms: u64,
    pub text: String,
}

/// An event stream and its keep-alive.
pub struct Sse {
    pub stream: Streamer,
    pub keep_alive: KeepAlive,
}

/// The outcome of a chat-completion request.
pub enum ChatCompletionResponder {
    /// A live event stream.
    Sse(Sse),
    /// The aggregated result.
    Json(ChatCompletionResponse),
    /// A failure of the engine after partial work: the message and the
    /// partial result.
    ModelError(String, ChatCompletionResponse),
    /// A failure of submission, of the channel or of the engine.
    InternalError(String),
    /// A rejection of the request before execution.
    ValidationError(String),
}

/// The body of an error response.
#[derive(Clone, Debug)]
pub struct JsonError {
    pub message: String,
}

/// The body of the response to a failure after partial work.
#[derive(Clone, Debug)]
pub struct JsonModelError {
    pub message: String,
    pub partial_response: ChatCompletionResponse,
}

/// The body of an HTTP response.
pub enum Body {
    /// `text/event-stream`: the events of the bridge.
    EventStream(Sse),
    /// The aggregated result as JSON.
    Json(ChatCompletionResponse),
    Error(JsonError),
    ModelError(JsonModelError),
}

/// An HTTP response: its status and its body.
pub struct HttpResponse {
    pub status: u16,
    pub body: Body,
}

impl JsonError {
    pub fn new(message: String) -> (e: JsonError)
        ensures
            e.message == message,
    {
        JsonError { message }
    }

    /// The response that carries this body under the status `code`.
    pub fn to_response(self, code: u16) -> (r: HttpResponse)
        ensures
            r.status == code,
            r.body == Body::Error(self),
    {
        HttpResponse { status: code, body: Body::Error(self) }
    }
}

impl JsonModelError {
    pub fn new(message: String, partial_response: ChatCompletionResponse) -> (e: JsonModelError)
        ensures
            e.message == message,
            e.partial_response == partial_response,
    {
        JsonModelError { message, partial_response }
    }

    /// The response that carries this body under the status `code`.
    pub fn to_response(self, code: u16) -> (r: HttpResponse)
        ensures
            r.status == code,
            r.body == Body::ModelError(self),
    {
        HttpResponse { status: code, body: Body::ModelError(self) }
    }
}

/// The HTTP status that answers an outcome.
pub open spec fn status_of(outcome: ChatCompletionResponder) -> u16 {
    match outcome {
        ChatCompletionResponder::Sse(_) => STATUS_OK,
        ChatCompletionResponder::Json(_) => STATUS_OK,
        ChatCompletionResponder::ModelError(_, _) => STATUS_INTERNAL_SERVER_ERROR,
        ChatCompletionResponder::InternalError(_) => STATUS_INTERNAL_SERVER_ERROR,
        ChatCompletionResponder::ValidationError(_) => STATUS_UNPROCESSABLE_ENTITY,
    }
}

/// The body that answers an outcome.
pub open spec fn body_of(outcome: ChatCompletionResponder) -> Body {
    match outcome {
        ChatCompletionResponder::Sse(sse) => Body::EventStream(sse),
        ChatCompletionResponder::Json(result) => Body::Json(result),
        ChatCompletionResponder::ModelError(message, partial_response) => Body::ModelError(
            JsonModelError { message, partial_response },
        ),
        ChatCompletionResponder::InternalError(message) => Body::Error(JsonError { message }),
        ChatCompletionResponder::ValidationError(message) => Body::Error(JsonError { message }),
    }
}

impl ChatCompletionResponder {
    /// The HTTP response that answers this outcome.
    pub fn into_response(self) -> (r: HttpResponse)
        ensures
            r.status == status_of(self),
            r.body == body_of(self),
    {
        match self {
            ChatCompletionResponder::Sse(sse) => HttpResponse {
                status: STATUS_OK,
                body: Body::EventStream(sse),
            },
            ChatCompletionResponder::Json(result) => HttpResponse {
                status: STATUS_OK,
                body: Body::Json(result),
            },
            ChatCompletionResponder::InternalError(message) => JsonError::new(message).to_response(
                STATUS_INTERNAL_SERVER_ERROR,
            ),
            ChatCompletionResponder::ValidationError(message) => JsonError::new(
                message,
            ).to_response(STATUS_UNPROCESSABLE_ENTITY),
            ChatCompletionResponder::ModelError(message, partial) => JsonModelError::new(
                message,
                partial,
            ).to_response(STATUS_INTERNAL_SERVER_ERROR),
        }
    }
}

/// What the logging hooks are owed after an outcome: a report of its error and
/// a report of its result.
#[derive(Clone, Copy, Debug, PartialEq, Eq, Structural)]
pub struct LogPlan {
    pub error: bool,
    pub response: bool,
}

/// The messages that may answer a request that does not stream: a terminal
/// message of the chat endpoint.
pub open spec fn aggregable(message: Response) -> bool {
    message is InternalError || message is ModelError || message is ValidationError
        || message is Done
}

/// Tells whether `message` may answer a request that does not stream.
pub fn is_aggregable(message: &Response) -> (ok: bool)
    ensures
        ok == aggregable(*message),
{
    match message {
        Response::InternalError(_) => true,
        Response::ModelError(_, _) => true,
        Response::ValidationError(_) => true,
        Response::Done(_) => true,
        Response::Chunk(_) => false,
        Response::CompletionModelError(_, _) => false,
        Response::CompletionDone(_) => false,
    }
}

/// The outcome of a request that does not stream, given the one answer of its
/// channel; `None` is a channel closed before any message.
pub open spec fn is_outcome_of(received: Option<Response>, outcome: ChatCompletionResponder) -> bool {
    match received {
        None => outcome matches ChatCompletionResponder::InternalError(text) && text@
            == "No response received from the model."@,
        Some(Response::InternalError(text)) => outcome == ChatCompletionResponder::InternalError(
            text,
        ),
        Some(Response::ModelError(text, partial)) => outcome == ChatCompletionResponder::ModelError(
            text,
            partial,
        ),
        Some(Response::ValidationError(text)) => outcome
            == ChatCompletionResponder::ValidationError(text),
        Some(Response::Done(result)) => outcome == ChatCompletionResponder::Json(result),
        Some(_) => false,
    }
}

/// The reports owed to the logging hooks for the one answer of a channel. A
/// rejection is no fault of the engine and is not reported.
pub open spec fn log_plan_of(received: Option<Response>) -> LogPlan {
    match received {
        None => LogPlan { error: true, response: false },
        Some(Response::InternalError(_)) => LogPlan { error: true, response: false },
        Some(Response::ModelError(_, _)) => LogPlan { error: true, response: true },
        Some(Response::Done(_)) => LogPlan { error: false, response: true },
        Some(_) => LogPlan { error: false, response: false },
    }
}

/// Classifies the one answer of the channel of a request that does not stream.
pub fn aggregate(received: Option<Response>) -> (out: (ChatCompletionResponder, LogPlan))
    requires
        received matches Some(message) ==> aggregable(message),
    ensures
        is_outcome_of(received, out.0),
        out.1 == log_plan_of(received),
{
    match received {
        None => (
            ChatCompletionResponder::InternalError(
                "No response received from the model.".to_string(),
            ),
            LogPlan { error: true, response: false },
        ),
        Some(Response::InternalError(text)) => (
            ChatCompletionResponder::InternalError(text),
            LogPlan { error: true, response: false },
        ),
        Some(Response::ModelError(text, partial)) => (
            ChatCompletionResponder::ModelError(text, partial),
            LogPlan { error: true, response: true },
        ),
        Some(Response::ValidationError(text)) => (
            ChatCompletionResponder::ValidationError(text),
            LogPlan { error: false, response: false },
        ),
        Some(Response::Done(result)) => (
            ChatCompletionResponder::Json(result),
            LogPlan { error: false, response: true },
        ),
        Some(_) => unreached(),
    }
}

/// A request that does not stream is answered from exactly one message, and
/// the status follows the outcome: 200 with the result for a finished
/// generation, 422 for a rejection, 500 for a failure of the engine, with the
/// partial result where there is one, and 500 for a channel that closed
/// without a message.
pub proof fn status_follows_outcome(received: Option<Response>, outcome: ChatCompletionResponder)
    requires
        received matches Some(message) ==> aggregable(message),
        is_outcome_of(received, outcome),
    ensures
        received matches Some(Response::Done(result)) ==> status_of(outcome) == 200 && body_of(
            outcome,
        ) == Body::Json(result),
        received matches Some(Response::ValidationError(text)) ==> status_of(outcome) == 422
            && body_of(outcome) == Body::Error(JsonError { message: text }),
        received matches Some(Response::ModelError(text, partial)) ==> status_of(outcome) == 500
            && body_of(outcome) == Body::ModelError(
            JsonModelError { message: text, partial_response: partial },
        ),
        received matches Some(Response::InternalError(text)) ==> status_of(outcome) == 500
            && body_of(outcome) == Body::Error(JsonError { message: text }),
        received is None ==> status_of(outcome) == 500 && body_of(outcome) is Error,
        !(outcome is Sse),
{
}

} // verus!

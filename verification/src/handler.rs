//! The decisions of the request handler around the calls that suspend:
//! submission to the engine and the wait for the single answer.

use crate::engine::Response;
use crate::responder::{ChatCompletionResponder, KeepAlive, LogPlan, Sse};
use crate::stream::Streamer;
use tokio::sync::mpsc::{Receiver, Sender};
use vstd::prelude::*;

verus! {

/// The number of unread messages that one response channel holds before the
/// engine's next send suspends.
pub const RESPONSE_CHANNEL_CAPACITY: usize = 10_000;

/// The keep-alive interval, in milliseconds, where none is configured.
pub const DEFAULT_KEEP_ALIVE_INTERVAL_MS: u64 = 1000;

/// The number of messages that a channel was made to hold.
pub uninterp spec fn capacity(tx: Sender<Response>) -> nat;

/// The value of a run of decimal digits, the first digit weighing most.
pub open spec fn decimal_value(digits: Seq<char>) -> nat
    decreases digits.len(),
{
    if digits.len() == 0 {
        0
    } else {
        (decimal_value(digits.drop_last()) * 10 + (digits.last() as u32 - 48)) as nat
    }
}

/// Every character is one of `0` to `9`.
pub open spec fn all_digits(digits: Seq<char>) -> bool {
    forall|i: int| 0 <= i < digits.len() ==> 48 <= (#[trigger] digits[i]) as u32 <= 57
}

/// The number that a text denotes as an unsigned 64-bit decimal: an optional
/// `+`, then one digit or more and nothing else, of a value that fits.
pub open spec fn parsed_u64(text: Seq<char>) -> Option<u64> {
    let digits = if text.len() > 0 && text[0] == '+' {
        text.drop_first()
    } else {
        text
    };
    if digits.len() > 0 && all_digits(digits) && decimal_value(digits) <= u64::MAX {
        Some(decimal_value(digits) as u64)
    } else {
        None
    }
}

/// `tokio::sync::mpsc::channel`: a bounded channel that holds `buffer`
/// messages. The outside function panics on a bound of zero or above an
/// eighth of the address space.
#[verifier::external_body]
fn bounded_channel(buffer: usize) -> (ends: (Sender<Response>, Receiver<Response>))
    requires
        0 < buffer <= usize::MAX / 8,
    ensures
        capacity(ends.0) == buffer,
{
    tokio::sync::mpsc::channel(buffer)
}

/// `str::parse::<u64>`: the number that the text denotes, or nothing where it
/// denotes none. The standard library takes an optional `+` followed by
/// decimal digits only, and refuses an empty run of digits and a value
/// above the largest `u64`.
#[verifier::external_body]
fn parse_u64(text: &str) -> (n: Option<u64>)
    ensures
        n == parsed_u64(text@),
{
    text.parse::<u64>().ok()
}

/// The channel of one request.
pub fn response_channel() -> (ends: (Sender<Response>, Receiver<Response>))
    ensures
        capacity(ends.0) == RESPONSE_CHANNEL_CAPACITY,
{
    bounded_channel(RESPONSE_CHANNEL_CAPACITY)
}

/// The interval for a configured value that was read, `Some(None)` being a
/// value that denotes no number.
pub open spec fn interval_of(configured: Option<Option<u64>>) -> u64 {
    match configured {
        Some(Some(ms)) => ms,
        _ => DEFAULT_KEEP_ALIVE_INTERVAL_MS,
    }
}

/// The keep-alive interval for a configured value that was read.
pub fn interval_or_default(configured: Option<Option<u64>>) -> (ms: u64)
    ensures
        ms == interval_of(configured),
{
    match configured {
        Some(Some(ms)) => ms,
        _ => DEFAULT_KEEP_ALIVE_INTERVAL_MS,
    }
}

/// What was read of a configured text.
pub open spec fn read_of(configured: Option<String>) -> Option<Option<u64>> {
    match configured {
        Some(text) => Some(parsed_u64(text@)),
        None => None,
    }
}

/// The keep-alive interval in milliseconds for the configured text, if any:
/// the number it denotes, else the default.
pub fn keep_alive_interval(configured: Option<String>) -> (ms: u64)
    ensures
        ms == interval_of(read_of(configured)),
{
    match configured {
        Some(text) => interval_or_default(Some(parse_u64(text.as_str()))),
        None => interval_or_default(None),
    }
}

/// The keep-alive of an event stream for the configured interval text.
pub fn keep_alive(configured: Option<String>) -> (k: KeepAlive)
    ensures
        k.interval_ms == interval_of(read_of(configured)),
        k.text@ == "keep-alive-text"@,
{
    KeepAlive { interval_ms: keep_alive_interval(configured), text: "keep-alive-text".to_string() }
}

/// What the handler does once the engine's queue has answered a submission.
pub enum Submitted {
    /// Answer the client now, and report to the hooks as planned.
    Respond(ChatCompletionResponder, LogPlan),
    /// Wait for the one answer on this channel, then `aggregate` it.
    Receive(Receiver<Response>),
}

/// What must follow a submission that failed with `failure`, or succeeded.
pub open spec fn follows_submission(
    failure: Option<String>,
    is_streaming: bool,
    rx: Receiver<Response>,
    configured: Option<String>,
    next: Submitted,
) -> bool {
    match failure {
        Some(text) => next == Submitted::Respond(
            ChatCompletionResponder::InternalError(text),
            LogPlan { error: true, response: false },
        ),
        None => if is_streaming {
            &&& next matches Submitted::Respond(ChatCompletionResponder::Sse(sse), plan)
            &&& plan == LogPlan { error: false, response: false }
            &&& !sse.stream.done()
            &&& sse.stream.channel() == rx
            &&& sse.keep_alive.interval_ms == interval_of(read_of(configured))
            &&& sse.keep_alive.text@ == "keep-alive-text"@
        } else {
            next == Submitted::Receive(rx)
        },
    }
}

/// Decides what follows the submission of a request. A submission that the
/// queue refused is an internal error, answered and reported without a read of
/// the channel. A streaming request is answered with an event stream on the
/// channel. Any other request waits for its one answer.
pub fn after_submit(
    failure: Option<String>,
    is_streaming: bool,
    rx: Receiver<Response>,
    configured: Option<String>,
) -> (next: Submitted)
    ensures
        follows_submission(failure, is_streaming, rx, configured, next),
{
    match failure {
        Some(text) => Submitted::Respond(
            ChatCompletionResponder::InternalError(text),
            LogPlan { error: true, response: false },
        ),
        None => {
            if is_streaming {
                let sse = Sse { stream: Streamer::new(rx), keep_alive: keep_alive(configured) };
                Submitted::Respond(
                    ChatCompletionResponder::Sse(sse),
                    LogPlan { error: false, response: false },
                )
            } else {
                Submitted::Receive(rx)
            }
        },
    }
}

/// A refused submission is answered with status 500 before any read of the
/// channel: the handler is told to respond, not to receive.
pub proof fn refused_submission_is_internal_error(
    text: String,
    is_streaming: bool,
    rx: Receiver<Response>,
    configured: Option<String>,
    next: Submitted,
)
    requires
        follows_submission(Some(text), is_streaming, rx, configured, next),
    ensures
        next matches Submitted::Respond(outcome, plan) && outcome
            == ChatCompletionResponder::InternalError(text) && crate::responder::status_of(outcome)
            == 500 && plan.error,
{
}

} // verus!

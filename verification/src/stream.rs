//! The streaming bridge: a pull-driven sequence of wire events read from one
//! response channel.

use crate::engine::{ChatCompletionChunkResponse, Response};
use tokio::sync::mpsc::Receiver;
use vstd::prelude::*;

verus! {

/// An event on the wire: a partial result, sent as JSON, or plain text.
#[derive(Clone, Debug)]
pub enum StreamEvent {
    Chunk(ChatCompletionChunkResponse),
    Text(String),
}

/// Which logging hook is owed a report of what was just observed.
#[derive(Clone, Copy, Debug, PartialEq, Eq, Structural)]
pub enum LogHook {
    Nothing,
    /// The error hook, with the text of the event.
    Error,
    /// The response hook, with the chunk of the event.
    Response,
}

/// The answer to one poll.
#[derive(Clone, Debug)]
pub enum Polled {
    /// An event, or the end of the sequence.
    Ready(Option<StreamEvent>),
    /// Nothing has arrived yet.
    Pending,
}

/// The answer to one poll and the report owed to the logging hooks.
#[derive(Clone, Debug)]
pub struct StreamStep {
    pub polled: Polled,
    pub log: LogHook,
}

/// The messages that a chat stream may carry. A final aggregated result and
/// the messages of the text-completion endpoint are not among them.
pub open spec fn streamable(message: Response) -> bool {
    message is Chunk || message is ModelError || message is ValidationError
        || message is InternalError
}

/// The wire event that a message becomes.
pub open spec fn event_of(message: Response) -> StreamEvent {
    match message {
        Response::Chunk(chunk) => StreamEvent::Chunk(chunk),
        Response::ModelError(text, _) => StreamEvent::Text(text),
        Response::ValidationError(text) => StreamEvent::Text(text),
        Response::InternalError(text) => StreamEvent::Text(text),
        _ => arbitrary(),
    }
}

/// The logging hook that a message is reported to.
pub open spec fn hook_of(message: Response) -> LogHook {
    match message {
        Response::Chunk(_) => LogHook::Response,
        Response::ModelError(_, _) => LogHook::Error,
        Response::InternalError(_) => LogHook::Error,
        _ => LogHook::Nothing,
    }
}

/// What an active bridge answers when the channel gave `received`.
pub open spec fn step_of(received: Option<Response>) -> StreamStep {
    match received {
        Some(message) => StreamStep {
            polled: Polled::Ready(Some(event_of(message))),
            log: hook_of(message),
        },
        None => StreamStep { polled: Polled::Pending, log: LogHook::Nothing },
    }
}

/// Whether the sequence is exhausted once `received` has been answered: after
/// a chunk all of whose choices carry a finish reason, and after any error.
pub open spec fn ends_stream(received: Option<Response>) -> bool {
    match received {
        Some(Response::Chunk(chunk)) => chunk.all_finished(),
        Some(_) => true,
        None => false,
    }
}

/// The answer of an exhausted bridge.
pub open spec fn finished_step() -> StreamStep {
    StreamStep { polled: Polled::Ready(None), log: LogHook::Nothing }
}

/// The bridge between one response channel and one event stream.
pub struct Streamer {
    rx: Receiver<Response>,
    is_done: bool,
}

/// `Receiver::try_recv`: takes the next message if one is waiting. A channel
/// that is empty or closed gives nothing; what arrives is up to the sender.
#[verifier::external_body]
fn try_recv(rx: &mut Receiver<Response>) -> (received: Option<Response>) {
    rx.try_recv().ok()
}

/// Tells whether a chat stream may carry `message`.
pub fn is_streamable(message: &Response) -> (ok: bool)
    ensures
        ok == streamable(*message),
{
    match message {
        Response::Chunk(_) => true,
        Response::ModelError(_, _) => true,
        Response::ValidationError(_) => true,
        Response::InternalError(_) => true,
        Response::Done(_) => false,
        Response::CompletionModelError(_, _) => false,
        Response::CompletionDone(_) => false,
    }
}

impl Streamer {
    /// The sequence is exhausted.
    pub closed spec fn done(&self) -> bool {
        self.is_done
    }

    /// The channel that the bridge reads.
    pub closed spec fn channel(&self) -> Receiver<Response> {
        self.rx
    }

    /// An active bridge on `rx`.
    pub fn new(rx: Receiver<Response>) -> (s: Streamer)
        ensures
            !s.done(),
            s.channel() == rx,
    {
        Streamer { rx, is_done: false }
    }

    /// Tells whether the sequence is exhausted.
    pub fn is_done(&self) -> (d: bool)
        ensures
            d == self.done(),
    {
        self.is_done
    }

    /// Answers a poll of an active bridge for which the channel gave
    /// `received`: the event, the hook to report to, and the next state.
    pub fn on_message(&mut self, received: Option<Response>) -> (step: StreamStep)
        requires
            !old(self).done(),
            received matches Some(message) ==> streamable(message),
        ensures
            step == step_of(received),
            final(self).done() == ends_stream(received),
            final(self).channel() == old(self).channel(),
    {
        match received {
            Some(Response::Chunk(chunk)) => {
                if chunk.is_last() {
                    self.is_done = true;
                }
                StreamStep {
                    polled: Polled::Ready(Some(StreamEvent::Chunk(chunk))),
                    log: LogHook::Response,
                }
            },
            Some(Response::ModelError(text, _)) => {
                self.is_done = true;
                StreamStep { polled: Polled::Ready(Some(StreamEvent::Text(text))), log: LogHook::Error }
            },
            Some(Response::ValidationError(text)) => {
                self.is_done = true;
                StreamStep {
                    polled: Polled::Ready(Some(StreamEvent::Text(text))),
                    log: LogHook::Nothing,
                }
            },
            Some(Response::InternalError(text)) => {
                self.is_done = true;
                StreamStep { polled: Polled::Ready(Some(StreamEvent::Text(text))), log: LogHook::Error }
            },
            Some(_) => unreached(),
            None => StreamStep { polled: Polled::Pending, log: LogHook::Nothing },
        }
    }

    /// Answers one poll. An exhausted bridge signals the end of the sequence
    /// and leaves the channel alone. An active one makes a single non-blocking
    /// read and answers as `on_message` does. A message that no chat stream
    /// carries is handed back as the error, and the bridge is exhausted.
    ///
    /// The read registers no wake-up: on `Pending` the caller has to see to it
    /// that the bridge is polled again.
    pub fn poll_next(&mut self) -> (out: Result<StreamStep, Response>)
        ensures
            old(self).done() ==> out == Ok::<StreamStep, Response>(finished_step()) && *final(self)
                == *old(self),
            !old(self).done() ==> match out {
                Ok(step) => exists|received: Option<Response>|
                    {
                        &&& received matches Some(message) ==> streamable(message)
                        &&& #[trigger] step_of(received) == step
                        &&& final(self).done() == ends_stream(received)
                    },
                Err(message) => !streamable(message) && final(self).done(),
            },
    {
        if self.is_done {
            return Ok(StreamStep { polled: Polled::Ready(None), log: LogHook::Nothing });
        }
        let received = try_recv(&mut self.rx);
        match received {
            Some(message) => {
                if is_streamable(&message) {
                    let ghost given = Some(message);
                    let step = self.on_message(Some(message));
                    assert(step_of(given) == step);
                    Ok(step)
                } else {
                    self.is_done = true;
                    Err(message)
                }
            },
            None => {
                let step = self.on_message(None);
                assert(step_of(None::<Response>) == step);
                Ok(step)
            },
        }
    }
}

/// The events that an active bridge (`done` false) or an exhausted one emits
/// when the channel delivers `messages` in this order, one per read.
pub open spec fn events(done: bool, messages: Seq<Response>) -> Seq<StreamEvent>
    decreases messages.len(),
{
    if done || messages.len() == 0 {
        Seq::empty()
    } else {
        seq![event_of(messages[0])] + events(
            ends_stream(Some(messages[0])),
            messages.drop_first(),
        )
    }
}

/// `messages[last]` is the first message that ends a stream: every message
/// before it is a chunk with a choice still running.
pub open spec fn first_ending_at(messages: Seq<Response>, last: int) -> bool {
    &&& 0 <= last < messages.len()
    &&& ends_stream(Some(messages[last]))
    &&& forall|i: int| 0 <= i < last ==> !ends_stream(Some(#[trigger] messages[i]))
}

/// An event stream ends with the event of the first chunk whose every choice
/// carries a finish reason, or of the first error: each message up to and
/// including that one is emitted, in order, and nothing that the channel
/// delivers afterwards is.
pub proof fn stream_ends_after_first_ending(messages: Seq<Response>, last: int)
    requires
        first_ending_at(messages, last),
    ensures
        events(false, messages) == Seq::new(
            (last + 1) as nat,
            |i: int| event_of(messages[i]),
        ),
    decreases last,
{
    let rest = messages.drop_first();
    let want = Seq::new((last + 1) as nat, |i: int| event_of(messages[i]));
    if last == 0 {
        assert(events(true, rest) == Seq::<StreamEvent>::empty());
        assert(events(false, messages) =~= want);
    } else {
        assert(!ends_stream(Some(messages[0])));
        assert forall|i: int| 0 <= i < last - 1 implies !ends_stream(Some(#[trigger] rest[i])) by {
            assert(rest[i] == messages[i + 1]);
        }
        assert(rest[last - 1] == messages[last]);
        stream_ends_after_first_ending(rest, last - 1);
        let tail = Seq::new(last as nat, |i: int| event_of(rest[i]));
        assert(events(false, rest) == tail);
        assert(seq![event_of(messages[0])] + tail =~= want);
    }
}

/// An exhausted bridge emits nothing, whatever the channel still holds.
pub proof fn nothing_after_done(messages: Seq<Response>)
    ensures
        events(true, messages) == Seq::<StreamEvent>::empty(),
{
}

/// While no message ends the stream, every message is emitted.
pub proof fn every_running_chunk_emitted(messages: Seq<Response>)
    requires
        forall|i: int| 0 <= i < messages.len() ==> !ends_stream(Some(#[trigger] messages[i])),
    ensures
        events(false, messages) == Seq::new(messages.len(), |i: int| event_of(messages[i])),
    decreases messages.len(),
{
    let want = Seq::new(messages.len(), |i: int| event_of(messages[i]));
    if messages.len() == 0 {
        assert(events(false, messages) =~= want);
    } else {
        let rest = messages.drop_first();
        assert(!ends_stream(Some(messages[0])));
        assert forall|i: int| 0 <= i < rest.len() implies !ends_stream(Some(#[trigger] rest[i])) by {
            assert(rest[i] == messages[i + 1]);
        }
        every_running_chunk_emitted(rest);
        assert(seq![event_of(messages[0])] + Seq::new(rest.len(), |i: int| event_of(rest[i]))
            =~= want);
    }
}

} // verus!

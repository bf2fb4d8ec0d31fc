//! Translation of a client request into the request the engine accepts.

use crate::engine::{
    Constraint, InternalStopTokens, NormalRequest, RequestMessage, Response, SamplingParams,
};
use crate::message_map::{entries, turn, turn_map, Entry};
use crate::openai::{ChatCompletionRequest, Grammar, Message, StopTokens};
use either::Either;
use indexmap::IndexMap;
use tokio::sync::mpsc::Sender;
use vstd::prelude::*;

verus! {

/// The number of top log-probabilities asked of the engine when the client
/// names none.
pub const DEFAULT_TOP_LOGPROBS: usize = 1;

/// The stop sequences a client's stop value stands for: a single string is a
/// list of one, a list is itself, and absence is absence.
pub open spec fn stop_sequences(stop: Option<StopTokens>) -> Option<Seq<String>> {
    match stop {
        Some(StopTokens::Multi(m)) => Some(m@),
        Some(StopTokens::Single(s)) => Some(seq![s]),
        None => None,
    }
}

/// The stop sequences an engine-side stop condition holds, where it holds
/// sequences.
pub open spec fn engine_stop_sequences(stop: Option<InternalStopTokens>) -> Option<Seq<String>> {
    match stop {
        Some(InternalStopTokens::Seqs(m)) => Some(m@),
        _ => None,
    }
}

/// Normalizes the client's stop value to a list of stop sequences.
pub fn normalize_stop_tokens(stop: Option<StopTokens>) -> (out: Option<InternalStopTokens>)
    ensures
        out is Some <==> stop is Some,
        out is Some ==> out->Some_0 is Seqs,
        engine_stop_sequences(out) == stop_sequences(stop),
        stop matches Some(StopTokens::Multi(m)) ==> out == Some(InternalStopTokens::Seqs(m)),
{
    match stop {
        Some(StopTokens::Multi(m)) => Some(InternalStopTokens::Seqs(m)),
        Some(StopTokens::Single(s)) => {
            let mut v: Vec<String> = Vec::new();
            v.push(s);
            assert(v@ =~= seq![s]);
            Some(InternalStopTokens::Seqs(v))
        },
        None => None,
    }
}

/// The constraint a grammar resolves to.
pub open spec fn constraint_of(grammar: Option<Grammar>) -> Constraint {
    match grammar {
        Some(Grammar::Yacc(spec)) => Constraint::Yacc(spec),
        Some(Grammar::Regex(pattern)) => Constraint::Regex(pattern),
        None => Constraint::Unconstrained,
    }
}

/// Resolves the client's grammar to the engine's constraint.
pub fn resolve_constraint(grammar: Option<Grammar>) -> (out: Constraint)
    ensures
        out == constraint_of(grammar),
{
    match grammar {
        Some(Grammar::Yacc(spec)) => Constraint::Yacc(spec),
        Some(Grammar::Regex(pattern)) => Constraint::Regex(pattern),
        None => Constraint::Unconstrained,
    }
}

/// The turns of a conversation as the engine sees them: one list of entries
/// per message, in the order of the messages; a bare prompt is one turn of the
/// user.
pub open spec fn turns_of(messages: Either<Vec<Message>, String>) -> Seq<Seq<Entry>> {
    match messages {
        Either::Left(ms) => Seq::new(ms@.len(), |i: int| turn(ms@[i].role@, ms@[i].content@)),
        Either::Right(prompt) => seq![turn("user"@, prompt@)],
    }
}

/// The entries of each map of a conversation, in order.
pub open spec fn chat_turns(maps: Seq<IndexMap<String, String>>) -> Seq<Seq<Entry>> {
    Seq::new(maps.len(), |i: int| entries(maps[i]))
}

/// The turns that a request message holds; a text completion holds none.
pub open spec fn message_turns(message: RequestMessage) -> Seq<Seq<Entry>> {
    match message {
        RequestMessage::Chat(maps) => chat_turns(maps@),
        RequestMessage::Completion { .. } => Seq::empty(),
    }
}

/// Normalizes the client's messages to the engine's conversation, keeping
/// their order.
pub fn normalize_messages(messages: Either<Vec<Message>, String>) -> (out: RequestMessage)
    ensures
        out is Chat,
        message_turns(out) == turns_of(messages),
{
    match messages {
        Either::Left(req_messages) => {
            let mut maps: Vec<IndexMap<String, String>> = Vec::new();
            let mut i: usize = 0;
            while i < req_messages.len()
                invariant
                    i <= req_messages@.len(),
                    maps@.len() == i,
                    forall|j: int|
                        0 <= j < i ==> #[trigger] entries(maps@[j]) == turn(
                            req_messages@[j].role@,
                            req_messages@[j].content@,
                        ),
                decreases req_messages@.len() - i,
            {
                let message = &req_messages[i];
                let map = turn_map(message.role.clone(), message.content.clone());
                maps.push(map);
                i += 1;
            }
            assert(chat_turns(maps@) =~= turns_of(messages));
            RequestMessage::Chat(maps)
        },
        Either::Right(prompt) => {
            let ghost text = prompt@;
            let mut maps: Vec<IndexMap<String, String>> = Vec::new();
            let map = turn_map("user".to_string(), prompt);
            maps.push(map);
            assert(chat_turns(maps@) =~= seq![turn("user"@, text)]);
            RequestMessage::Chat(maps)
        },
    }
}

/// Whether a request asks for an event stream: it does not unless it says so.
pub open spec fn wants_stream(request: ChatCompletionRequest) -> bool {
    match request.stream {
        Some(b) => b,
        None => false,
    }
}

/// What the engine's request must be for a client's request, the id allotted
/// to it and the channel its responses go to.
pub open spec fn translates(
    oairequest: ChatCompletionRequest,
    id: usize,
    tx: Sender<Response>,
    out: NormalRequest,
) -> bool {
    &&& out.id == id
    &&& out.response == tx
    &&& out.messages is Chat
    &&& message_turns(out.messages) == turns_of(oairequest.messages)
    &&& out.sampling_params.temperature == oairequest.temperature
    &&& out.sampling_params.top_k == oairequest.top_k
    &&& out.sampling_params.top_p == oairequest.top_p
    &&& out.sampling_params.top_n_logprobs == match oairequest.top_logprobs {
        Some(n) => n,
        None => DEFAULT_TOP_LOGPROBS,
    }
    &&& out.sampling_params.frequency_penalty == oairequest.frequency_penalty
    &&& out.sampling_params.presence_penalty == oairequest.presence_penalty
    &&& out.sampling_params.max_len == oairequest.max_tokens
    &&& out.sampling_params.stop_toks is Some <==> oairequest.stop_seqs is Some
    &&& out.sampling_params.stop_toks is Some ==> out.sampling_params.stop_toks->Some_0 is Seqs
    &&& engine_stop_sequences(out.sampling_params.stop_toks) == stop_sequences(
        oairequest.stop_seqs,
    )
    &&& out.sampling_params.logits_bias == oairequest.logit_bias
    &&& out.sampling_params.n_choices == oairequest.n_choices
    &&& out.return_logprobs == oairequest.logprobs
    &&& out.is_streaming == wants_stream(oairequest)
    &&& out.suffix is None
    &&& out.constraint == constraint_of(oairequest.grammar)
    &&& out.adapters == oairequest.adapters
}

/// Translates a client's request into the engine's, with the id allotted to it
/// and the sending end of its response channel, and tells whether the client
/// asked for an event stream.
pub fn parse_request(oairequest: ChatCompletionRequest, id: usize, tx: Sender<Response>) -> (out: (
    NormalRequest,
    bool,
))
    ensures
        translates(oairequest, id, tx, out.0),
        out.1 == wants_stream(oairequest),
{
    let stop_toks = normalize_stop_tokens(oairequest.stop_seqs);
    let messages = normalize_messages(oairequest.messages);
    let is_streaming = match oairequest.stream {
        Some(b) => b,
        None => false,
    };
    let top_n_logprobs = match oairequest.top_logprobs {
        Some(n) => n,
        None => DEFAULT_TOP_LOGPROBS,
    };
    (
        NormalRequest {
            id,
            messages,
            sampling_params: SamplingParams {
                temperature: oairequest.temperature,
                top_k: oairequest.top_k,
                top_p: oairequest.top_p,
                top_n_logprobs,
                frequency_penalty: oairequest.frequency_penalty,
                presence_penalty: oairequest.presence_penalty,
                max_len: oairequest.max_tokens,
                stop_toks,
                logits_bias: oairequest.logit_bias,
                n_choices: oairequest.n_choices,
            },
            response: tx,
            return_logprobs: oairequest.logprobs,
            is_streaming,
            suffix: None,
            constraint: resolve_constraint(oairequest.grammar),
            adapters: oairequest.adapters,
        },
        is_streaming,
    )
}

/// Stop sequences are normalized to a list: a single string becomes the list
/// of that one string, a list stays as it is, and a request without a stop
/// value puts no stop condition on the engine.
pub proof fn stop_sequences_normalized(
    oairequest: ChatCompletionRequest,
    id: usize,
    tx: Sender<Response>,
    out: NormalRequest,
)
    requires
        translates(oairequest, id, tx, out),
    ensures
        oairequest.stop_seqs matches Some(StopTokens::Single(s)) ==> {
            &&& out.sampling_params.stop_toks matches Some(InternalStopTokens::Seqs(v))
            &&& v@.len() == 1
            &&& v@[0] == s
        },
        oairequest.stop_seqs matches Some(StopTokens::Multi(m)) ==> {
            &&& out.sampling_params.stop_toks matches Some(InternalStopTokens::Seqs(v))
            &&& v@ == m@
        },
        oairequest.stop_seqs is None ==> out.sampling_params.stop_toks is None,
{
}

/// The two forms of constraint exclude each other: a regular-expression
/// grammar never resolves to a parser-generator constraint, nor the reverse,
/// and a request without a grammar is unconstrained.
pub proof fn constraint_forms_exclusive(
    oairequest: ChatCompletionRequest,
    id: usize,
    tx: Sender<Response>,
    out: NormalRequest,
)
    requires
        translates(oairequest, id, tx, out),
    ensures
        oairequest.grammar matches Some(Grammar::Regex(p)) ==> out.constraint == Constraint::Regex(
            p,
        ),
        oairequest.grammar matches Some(Grammar::Yacc(g)) ==> out.constraint == Constraint::Yacc(g),
        oairequest.grammar is None ==> out.constraint is Unconstrained,
        out.constraint is Regex <==> (oairequest.grammar matches Some(g) && g is Regex),
        out.constraint is Yacc <==> (oairequest.grammar matches Some(g) && g is Yacc),
{
}

/// Translation keeps the order and the number of the client's messages: the
/// turn at each place holds the role and the content of the message at that
/// place.
pub proof fn message_order_preserved(
    oairequest: ChatCompletionRequest,
    id: usize,
    tx: Sender<Response>,
    out: NormalRequest,
)
    requires
        translates(oairequest, id, tx, out),
    ensures
        oairequest.messages matches Either::Left(ms) ==> {
            &&& message_turns(out.messages).len() == ms@.len()
            &&& forall|i: int|
                0 <= i < ms@.len() ==> #[trigger] message_turns(out.messages)[i] == turn(
                    ms@[i].role@,
                    ms@[i].content@,
                )
        },
        oairequest.messages matches Either::Right(prompt) ==> message_turns(out.messages) == seq![
            turn("user"@, prompt@),
        ],
{
}

} // verus!

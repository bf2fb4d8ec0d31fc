//! The engine-facing representation: the request the engine accepts and the
//! messages it writes to a request's response channel.

use indexmap::IndexMap;
use std::collections::HashMap;
use tokio::sync::mpsc::{Receiver, Sender};
use vstd::prelude::*;

verus! {

/// `tokio::sync::mpsc::Sender`, the writing end of a bounded channel.
#[verifier::external_type_specification]
#[verifier::external_body]
#[verifier::reject_recursive_types(T)]
pub struct ExSender<T>(Sender<T>);

/// `tokio::sync::mpsc::Receiver`, the reading end of a bounded channel.
#[verifier::external_type_specification]
#[verifier::external_body]
#[verifier::reject_recursive_types(T)]
pub struct ExReceiver<T>(Receiver<T>);

/// Stop conditions as the engine takes them.
#[derive(Clone, Debug)]
pub enum InternalStopTokens {
    Seqs(Vec<String>),
    Ids(Vec<u32>),
}

/// Sampling parameters as the engine takes them. Real values are bit patterns,
/// as in the client's request.
#[derive(Clone, Debug)]
pub struct SamplingParams {
    pub temperature: Option<u64>,
    pub top_k: Option<usize>,
    pub top_p: Option<u64>,
    pub top_n_logprobs: usize,
    pub frequency_penalty: Option<u32>,
    pub presence_penalty: Option<u32>,
    pub stop_toks: Option<InternalStopTokens>,
    pub max_len: Option<usize>,
    pub logits_bias: Option<HashMap<u32, u32>>,
    pub n_choices: usize,
}

/// The restriction on generated output that a request resolves to.
#[derive(Clone, Debug)]
pub enum Constraint {
    Regex(String),
    Yacc(String),
    Unconstrained,
}

/// What the engine is asked to complete.
#[derive(Clone, Debug)]
pub enum RequestMessage {
    /// A conversation: one ordered map per turn.
    Chat(Vec<IndexMap<String, String>>),
    /// A bare text completion, used by the sibling endpoint.
    Completion { text: String, echo_prompt: bool, best_of: usize },
}

/// A request as the engine accepts it.
pub struct NormalRequest {
    pub messages: RequestMessage,
    pub sampling_params: SamplingParams,
    /// Where the engine writes its responses.
    pub response: Sender<Response>,
    pub return_logprobs: bool,
    pub is_streaming: bool,
    pub id: usize,
    pub constraint: Constraint,
    pub suffix: Option<String>,
    pub adapters: Option<Vec<String>>,
}

/// Token counts of a finished generation.
#[derive(Clone, Debug)]
pub struct Usage {
    pub completion_tokens: usize,
    pub prompt_tokens: usize,
    pub total_tokens: usize,
}

/// One choice of an aggregated result.
#[derive(Clone, Debug)]
pub struct Choice {
    pub finish_reason: String,
    pub index: usize,
    pub role: String,
    pub content: String,
}

/// An aggregated chat result. The bridge passes it through unread.
#[derive(Clone, Debug)]
pub struct ChatCompletionResponse {
    pub id: String,
    pub choices: Vec<Choice>,
    pub created: u64,
    pub model: String,
    pub system_fingerprint: String,
    pub object: String,
    pub usage: Usage,
}

/// One choice of a partial result: a content delta and, once the choice has
/// stopped, the reason why.
#[derive(Clone, Debug)]
pub struct ChunkChoice {
    pub finish_reason: Option<String>,
    pub index: usize,
    pub role: String,
    pub content: String,
}

/// A partial result of a generation in progress.
#[derive(Clone, Debug)]
pub struct ChatCompletionChunkResponse {
    pub id: String,
    pub choices: Vec<ChunkChoice>,
    pub created: u64,
    pub model: String,
    pub system_fingerprint: String,
    pub object: String,
}

/// An aggregated result of the sibling text-completion endpoint.
#[derive(Clone, Debug)]
pub struct CompletionResponse {
    pub id: String,
    pub created: u64,
    pub model: String,
    pub texts: Vec<String>,
    pub usage: Usage,
}

/// A message on a response channel.
#[derive(Clone, Debug)]
pub enum Response {
    InternalError(String),
    ValidationError(String),
    ModelError(String, ChatCompletionResponse),
    Done(ChatCompletionResponse),
    Chunk(ChatCompletionChunkResponse),
    CompletionModelError(String, CompletionResponse),
    CompletionDone(CompletionResponse),
}

impl ChatCompletionChunkResponse {
    /// Every choice carries a finish reason: this chunk is the last one.
    pub open spec fn all_finished(self) -> bool {
        forall|i: int| 0 <= i < self.choices@.len() ==> (#[trigger] self.choices@[i]).finish_reason is Some
    }

    /// Tells whether every choice carries a finish reason.
    pub fn is_last(&self) -> (last: bool)
        ensures
            last == self.all_finished(),
    {
        let mut i: usize = 0;
        while i < self.choices.len()
            invariant
                i <= self.choices@.len(),
                forall|j: int| 0 <= j < i ==> (#[trigger] self.choices@[j]).finish_reason is Some,
            decreases self.choices@.len() - i,
        {
            if self.choices[i].finish_reason.is_none() {
                return false;
            }
            i += 1;
        }
        true
    }
}

} // verus!

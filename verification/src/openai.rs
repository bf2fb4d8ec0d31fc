//! The client-facing request dialect.

use either::Either;
use std::collections::HashMap;
use vstd::prelude::*;

verus! {

/// `either::Either`, the sum of two alternatives. Both variants are public in
/// the outside crate and are matched on directly.
#[verifier::external_type_specification]
#[verifier::reject_recursive_types(L)]
#[verifier::reject_recursive_types(R)]
pub struct ExEither<L, R>(Either<L, R>);

/// One turn of a conversation.
#[derive(Clone, Debug)]
pub struct Message {
    pub content: String,
    pub role: String,
    pub name: Option<String>,
}

/// Stop sequences as the client may write them: one string or a list.
#[derive(Clone, Debug)]
pub enum StopTokens {
    Multi(Vec<String>),
    Single(String),
}

/// The output constraint a client may ask for. The two forms exclude each other.
#[derive(Clone, Debug)]
pub enum Grammar {
    Regex(String),
    Yacc(String),
}

/// A chat-completion request.
///
/// Real-valued sampling controls are carried as the bit patterns of their
/// IEEE-754 encodings: the bridge never computes with them, it hands them on.
#[derive(Debug)]
pub struct ChatCompletionRequest {
    /// A conversation, or a bare prompt.
    pub messages: Either<Vec<Message>, String>,
    pub model: String,
    /// Token id to bias, the bias as the bits of a 32-bit real.
    pub logit_bias: Option<HashMap<u32, u32>>,
    pub logprobs: bool,
    pub top_logprobs: Option<usize>,
    pub max_tokens: Option<usize>,
    pub n_choices: usize,
    /// Bits of a 32-bit real.
    pub presence_penalty: Option<u32>,
    /// Bits of a 32-bit real.
    pub frequency_penalty: Option<u32>,
    pub stop_seqs: Option<StopTokens>,
    /// Bits of a 64-bit real.
    pub temperature: Option<u64>,
    /// Bits of a 64-bit real.
    pub top_p: Option<u64>,
    pub stream: Option<bool>,
    pub top_k: Option<usize>,
    pub grammar: Option<Grammar>,
    pub adapters: Option<Vec<String>>,
}

} // verus!

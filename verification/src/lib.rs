//! A bridge between a chat-completion HTTP API and an asynchronous inference
//! engine: request translation, the streaming state machine, the aggregation of
//! a single terminal message, and the mapping of outcomes to HTTP responses.

pub mod openai;
pub mod engine;
pub mod message_map;
pub mod request;
pub mod stream;
pub mod responder;
pub mod handler;

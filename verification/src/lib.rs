//! Conversation state and message relay of a chat bot that forwards addressed
//! messages to a generative-language service and relays the answers.
//!
//! The library performs no input or output. [`relay::Relay`] is the whole bot
//! as a state machine that a driver feeds with events; the other modules are
//! its parts: the conversation store, the request builder, the reply
//! interpreter, the dispatcher of incoming messages and the chunker of long
//! replies.

pub mod model;
pub mod text;
pub mod json;
pub mod conversation;
pub mod request;
pub mod response;
pub mod chunker;
pub mod dispatch;
pub mod exchange;
pub mod relay;

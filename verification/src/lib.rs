//! Conversation state and streaming decisions for a chat front-end that
//! drives a language model one token at a time.
//!
//! The library performs no input or output and does not run the inference
//! engine; of the engine's bindings it only reads the error type. It is a
//! state machine, [`session::Session`]: the front-end hands it what happened
//! (a line was read, a compute step ended, a token was read) and gets back
//! what to write and what to do next. Everything that is decided along the
//! way is decided here:
//!
//! - [`text`]: which input lines are blank, and trimming;
//! - [`transcript`]: the prompt template and the accumulated conversation;
//! - [`outcome`]: what a compute step can report, and how it is classified;
//! - [`output`]: the bounded, lossy decoding of the engine's output buffer;
//! - [`turn`]: the generation loop of one turn;
//! - [`session`]: the whole conversation, event by event;
//! - [`trace`]: what holds of every turn and of every conversation.

pub mod outcome;
pub mod output;
pub mod session;
pub mod text;
pub mod trace;
pub mod transcript;
pub mod turn;

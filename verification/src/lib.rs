//! A coding assistant that talks to a model served on this machine and lets
//! the model look at the file system through a few tools.
//!
//! The library holds the rules of the conversation and proves them. It
//! reads no file and opens no connection: whoever uses it reads and sends,
//! hands in what came back, and is told what to do next.
//!
//! - [`app`] is the orchestrator of a streamed conversation: it counts the
//!   sessions in flight and knows from the count when a turn is over.
//!   [`turns`] states what holds of it over whole runs of events.
//! - [`conversation`] is the store of messages, [`message`] the messages.
//! - [`ollama`] describes what the endpoint is sent and sends, and how one
//!   streamed response becomes events.
//! - [`tools`] computes the answers of the tools from what was read.
//! - [`assistant`] asks one request after the other until the model answers.
//! - [`preflight_ui`] and [`ui`] describe two screens as plain values.
//! - [`text`] and [`json`] are what the others stand on.

pub mod app;
pub mod assistant;
pub mod constants;
pub mod conversation;
pub mod json;
pub mod message;
pub mod ollama;
pub mod preflight_ui;
pub mod text;
pub mod tools;
pub mod turns;
pub mod ui;

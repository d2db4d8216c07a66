//! A typed client core for a remote generative-AI HTTP API, without the I/O.
//!
//! The crate decides and the caller transmits. [`client::Client`] turns a
//! path and a payload into a [`request::Request`] and sorts the response
//! that came back into bytes, a typed value or an [`error::OpenAIError`].
//! The adapters in [`stream`] turn the events of a server-sent-event
//! connection into typed items, and [`trace`] proves what a consumer
//! observes over the life of a connection.

pub mod client;
pub mod config;
pub mod error;
pub mod file;
pub mod json;
pub mod messages;
pub mod moderation;
pub mod request;
pub mod stream;
pub mod trace;
pub mod types;
pub mod util;

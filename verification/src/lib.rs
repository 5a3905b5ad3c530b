//! Decisions of a client for LM Studio's OpenAI-compatible `/v1/models`
//! endpoint: where a request goes, what a status means, which model
//! identifiers a reply carries, and what each failure is called.
//!
//! Nothing here touches the network. A caller sends the request that
//! [`listing`] or [`probe`] asks for, says in the terms of [`exchange`] what
//! came of it, and reports what they make of that.

pub mod endpoint;
pub mod exchange;
pub mod failure;
pub mod listing;
pub mod models;
pub mod probe;
pub mod status;
pub mod text;

//! A real-time chat relay: messages published by many clients are fanned out, in
//! one total order, to every subscriber through a bounded broadcast channel.
//!
//! - `message`: the chat message, its length limits and its event payload.
//! - `channel`: the ring-buffer broadcast channel with per-subscriber cursors.
//! - `delivery`: what a subscriber receives over several reads.
//! - `stream`: the decisions of a subscription stream, shutdown included.
//! - `server`: the publish endpoint and the server's initial state.

pub mod channel;
pub mod delivery;
pub mod message;
pub mod server;
pub mod stream;

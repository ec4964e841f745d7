//! The core of a single-page chat client: the conversation store that governs
//! message flow and the request lifecycle, and the completion client that
//! frames one request and interprets one reply.
//!
//! The store ([`conversation`]) and the client ([`completion`]) do no I/O. A
//! submission that is taken up hands back the request to send; whoever sends
//! it reports how the exchange ended, and the client turns that into the one
//! result that the store records. [`laws`] states what holds of every state
//! and every reply. [`json`] and [`text`] hold the few calls whose results
//! are taken on trust.

pub mod completion;
pub mod conversation;
pub mod json;
pub mod laws;
pub mod message;
pub mod text;

//! A turn-taking synchronization protocol for a two-player board game
//! over one ordered byte stream.
//!
//! One peer (the server) owns an authoritative rules engine behind the
//! [`engine::UniversalGame`] interface; the other (the client) mirrors
//! it and validates nothing. The [`server`] and [`client`] modules hold
//! the two coordinators as verified state machines: every handshake,
//! move submission, rejection, resignation, draw and terminal transition
//! is a contracted transition on a mathematical session view. The
//! [`codec`] module gives every protocol message a self-delimiting wire
//! form with a proved decode-of-encode round trip, and [`laws`] states
//! the protocol's global guarantees — turn alternation, illegal-move
//! idempotence, mirror fidelity and terminal detection — as theorems.
//!
//! All blocking I/O, threads and channels live outside this crate; the
//! coordinators here are pure: they are handed decoded messages, local
//! commands and engine verdicts, and they answer with the messages to
//! send and the events to show.

pub mod board;
pub mod client;
pub mod codec;
pub mod engine;
pub mod laws;
pub mod messages;
pub mod server;
pub mod types;

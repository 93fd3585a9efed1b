//! Negotiation controller for a single real-time media connection.
//!
//! The controller never talks to the media engine of the host itself. Every
//! operation is a decision: it takes the controller's state and plain values
//! that were read from the engine, and it answers with the next state and
//! with what has to be asked of the engine. The caller performs that work and
//! hands the outcome back.
//!
//! - [`peer_connection`] holds the controller and its operations.
//! - [`engine`] holds what the controller hands out: a `Request` for work
//!   that the engine may refuse, which also names the failure that a refusal
//!   amounts to, and a `Command` for work on the listeners of the engine.
//! - [`event`] holds what the engine raises on its own and what becomes of
//!   it: a `Dispatch` names the handler that an event is owed to.
//! - [`state`], [`sdp`], [`transceiver`] and [`media`] hold the values that
//!   pass through, and how the words of the engine are read.
//! - [`laws`] states what holds over more than one call.
//! - [`api`] and [`tracks_store`] hold what the users of the library see of
//!   kinds of media and of stores of tracks.

pub mod api;
pub mod engine;
pub mod error;
pub mod event;
pub mod laws;
pub mod media;
pub mod peer_connection;
pub mod sdp;
pub mod state;
pub mod tracks_store;
pub mod transceiver;

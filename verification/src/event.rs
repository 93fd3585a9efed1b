//! What the engine raises on its own, and what the controller makes of it.

use vstd::prelude::*;

use crate::engine::Handler;

verus! {

/// A local ICE candidate that the engine has discovered.
#[derive(Clone, Debug, PartialEq, Eq)]
pub struct IceCandidate {
    /// The candidate itself, as a line of SDP.
    pub candidate: String,
    /// Index of the media line that the candidate belongs to.
    pub sdp_m_line_index: Option<u16>,
    /// Identifier of the media line that the candidate belongs to.
    pub sdp_mid: Option<String>,
}

/// Something about an event that is worth reporting, though no handler is
/// told of it and nothing fails.
#[derive(Clone, Debug, PartialEq, Eq)]
pub enum Anomaly {
    /// The engine names a connection state that the controller does not
    /// know. The word is kept as the engine gave it.
    UnknownConnectionState(String),
    /// The engine raised a change of its connection state and then had no
    /// connection state to show.
    NoConnectionState,
}

/// What is to be done about one event of the engine.
#[derive(Clone, Debug, PartialEq, Eq)]
pub enum Dispatch<P> {
    /// Call `handler` with `payload`, now.
    Deliver { handler: Handler, payload: P },
    /// Call nobody, and report the anomaly.
    Report(Anomaly),
    /// Call nobody.
    Skip,
}

impl<P> Dispatch<P> {
    /// The handler that is called, if one is.
    pub open spec fn receiver(self) -> Option<Handler> {
        match self {
            Dispatch::Deliver { handler, .. } => Some(handler),
            _ => None,
        }
    }
}

} // verus!

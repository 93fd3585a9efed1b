//! Connection states, in the words of the controller and of the engine.

use vstd::prelude::*;

use crate::engine::RtcIceConnectionState;

verus! {

/// ICE connection state of a peer connection.
#[derive(Clone, Copy, Debug, PartialEq, Eq, Structural)]
pub enum IceConnectionState {
    /// Addresses are being gathered, or remote candidates are awaited.
    New,
    /// Pairs of local and remote candidates are being tried.
    Checking,
    /// A usable pair was found for every component; better ones may follow.
    Connected,
    /// Gathering and trying have ended with a connection for every component.
    Completed,
    /// Every pair was tried and some component has no connection.
    Failed,
    /// Some component has lost its connection for the moment.
    Disconnected,
    /// The ICE agent has shut down.
    Closed,
}

/// Aggregate connection state of a peer connection.
#[derive(Clone, Copy, Debug, PartialEq, Eq, Structural)]
pub enum PeerConnectionState {
    /// No transport has begun to connect.
    New,
    /// Some transport is establishing a connection.
    Connecting,
    /// Every transport in use is connected.
    Connected,
    /// Some transport has lost its connection for the moment.
    Disconnected,
    /// Some transport has failed.
    Failed,
    /// The connection is closed.
    Closed,
}

/// The aggregate connection state that the engine names by `word`, if it is
/// one of the six that exist.
pub open spec fn spec_peer_connection_state(word: Seq<char>) -> Option<PeerConnectionState> {
    if word == "new"@ {
        Some(PeerConnectionState::New)
    } else if word == "connecting"@ {
        Some(PeerConnectionState::Connecting)
    } else if word == "connected"@ {
        Some(PeerConnectionState::Connected)
    } else if word == "disconnected"@ {
        Some(PeerConnectionState::Disconnected)
    } else if word == "failed"@ {
        Some(PeerConnectionState::Failed)
    } else if word == "closed"@ {
        Some(PeerConnectionState::Closed)
    } else {
        None
    }
}

/// The ICE connection state that a state of the engine stands for.
pub open spec fn spec_ice_connection_state(state: RtcIceConnectionState) -> IceConnectionState {
    match state {
        RtcIceConnectionState::New => IceConnectionState::New,
        RtcIceConnectionState::Checking => IceConnectionState::Checking,
        RtcIceConnectionState::Connected => IceConnectionState::Connected,
        RtcIceConnectionState::Completed => IceConnectionState::Completed,
        RtcIceConnectionState::Failed => IceConnectionState::Failed,
        RtcIceConnectionState::Disconnected => IceConnectionState::Disconnected,
        RtcIceConnectionState::Closed => IceConnectionState::Closed,
    }
}

/// Tells whether `text` reads exactly as `word` does.
fn reads_as(text: &String, word: &str) -> (same: bool)
    ensures
        same == (text@ == word@),
{
    let other: String = word.to_owned();
    *text == other
}

/// Reads the aggregate connection state out of what the engine holds under
/// `connectionState`.
///
/// An engine that does not know the property gives nothing, and nothing is
/// returned. A word that names none of the six states is no failure: it is
/// handed back as it came, for the caller to report.
pub fn get_peer_connection_state(raw: Option<String>) -> (state: Option<
    Result<PeerConnectionState, String>,
>)
    ensures
        match raw {
            None => state is None,
            Some(word) => state == Some(
                match spec_peer_connection_state(word@) {
                    Some(known) => Ok::<PeerConnectionState, String>(known),
                    None => Err::<PeerConnectionState, String>(word),
                },
            ),
        },
{
    let word: String = match raw {
        None => {
            return None;
        },
        Some(word) => word,
    };
    if reads_as(&word, "new") {
        Some(Ok(PeerConnectionState::New))
    } else if reads_as(&word, "connecting") {
        Some(Ok(PeerConnectionState::Connecting))
    } else if reads_as(&word, "connected") {
        Some(Ok(PeerConnectionState::Connected))
    } else if reads_as(&word, "disconnected") {
        Some(Ok(PeerConnectionState::Disconnected))
    } else if reads_as(&word, "failed") {
        Some(Ok(PeerConnectionState::Failed))
    } else if reads_as(&word, "closed") {
        Some(Ok(PeerConnectionState::Closed))
    } else {
        Some(Err(word))
    }
}

/// Puts an ICE connection state of the engine into the words of the
/// controller.
pub fn parse_ice_connection_state(state: RtcIceConnectionState) -> (parsed: IceConnectionState)
    ensures
        parsed == spec_ice_connection_state(state),
{
    match state {
        RtcIceConnectionState::New => IceConnectionState::New,
        RtcIceConnectionState::Checking => IceConnectionState::Checking,
        RtcIceConnectionState::Connected => IceConnectionState::Connected,
        RtcIceConnectionState::Completed => IceConnectionState::Completed,
        RtcIceConnectionState::Failed => IceConnectionState::Failed,
        RtcIceConnectionState::Disconnected => IceConnectionState::Disconnected,
        RtcIceConnectionState::Closed => IceConnectionState::Closed,
    }
}

} // verus!

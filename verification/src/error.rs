//! What the controller reports when the media engine refuses a request.

use vstd::prelude::*;

verus! {

/// An error that the host raised, as its name and its message.
#[derive(Clone, Debug, PartialEq, Eq)]
pub struct Error {
    /// Name of the host error, such as `InvalidStateError`.
    pub name: String,
    /// Message that the host attached to the error.
    pub message: String,
}

/// A statistics snapshot that the engine delivered but that could not be
/// read into a report, with what the host said about it.
#[derive(Clone, Debug, PartialEq, Eq)]
pub struct RtcStatsError {
    /// What went wrong while the snapshot was read.
    pub cause: Error,
}

/// Failures of the operations of a peer connection. Every one of them carries
/// the error of the host that caused it.
#[derive(Clone, Debug, PartialEq, Eq)]
pub enum RtcPeerConnectionError {
    /// The engine did not take a remote ICE candidate.
    AddIceCandidateFailed(Error),
    /// The engine did not produce an SDP answer.
    CreateAnswerFailed(Error),
    /// The engine did not produce an SDP offer.
    CreateOfferFailed(Error),
    /// The engine rejected the request for statistics.
    GetStatsException(Error),
    /// The engine could not be instantiated.
    PeerCreationError(Error),
    /// The engine delivered statistics that could not be read.
    RtcStatsError(RtcStatsError),
    /// The engine did not apply a local description.
    SetLocalDescriptionFailed(Error),
    /// The engine did not apply a remote description.
    SetRemoteDescriptionFailed(Error),
}

impl From<RtcStatsError> for RtcPeerConnectionError {
    fn from(err: RtcStatsError) -> (res: Self) {
        RtcPeerConnectionError::RtcStatsError(err)
    }
}

impl vstd::std_specs::convert::FromSpecImpl<RtcStatsError> for RtcPeerConnectionError {
    open spec fn obeys_from_spec() -> bool {
        true
    }

    open spec fn from_spec(err: RtcStatsError) -> Self {
        RtcPeerConnectionError::RtcStatsError(err)
    }
}

} // verus!

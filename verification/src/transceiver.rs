//! Transceivers: the paired media sender and receiver of one media line.

use vstd::prelude::*;

use crate::engine::RtcRtpTransceiverDirection;

verus! {

/// Direction of a transceiver: whether it sends, and whether it receives.
#[derive(Clone, Copy, Debug, PartialEq, Eq, Structural)]
pub struct TransceiverDirection {
    /// Media is sent to the remote peer.
    pub send: bool,
    /// Media is received from the remote peer.
    pub recv: bool,
}

impl TransceiverDirection {
    /// This direction, in the words of the engine.
    pub open spec fn spec_native(self) -> RtcRtpTransceiverDirection {
        match (self.send, self.recv) {
            (true, true) => RtcRtpTransceiverDirection::Sendrecv,
            (false, true) => RtcRtpTransceiverDirection::Recvonly,
            (true, false) => RtcRtpTransceiverDirection::Sendonly,
            (false, false) => RtcRtpTransceiverDirection::Inactive,
        }
    }
}

impl From<TransceiverDirection> for RtcRtpTransceiverDirection {
    fn from(direction: TransceiverDirection) -> (res: Self) {
        if direction.send && direction.recv {
            RtcRtpTransceiverDirection::Sendrecv
        } else if direction.recv {
            RtcRtpTransceiverDirection::Recvonly
        } else if direction.send {
            RtcRtpTransceiverDirection::Sendonly
        } else {
            RtcRtpTransceiverDirection::Inactive
        }
    }
}

impl vstd::std_specs::convert::FromSpecImpl<TransceiverDirection> for RtcRtpTransceiverDirection {
    open spec fn obeys_from_spec() -> bool {
        true
    }

    open spec fn from_spec(direction: TransceiverDirection) -> Self {
        direction.spec_native()
    }
}

/// What the engine is asked to add a transceiver with.
#[derive(Clone, Copy, Debug, PartialEq, Eq)]
pub struct TransceiverInit {
    /// Kind of media, by the word that the engine knows it under.
    pub kind: &'static str,
    /// Direction that the transceiver starts with.
    pub direction: RtcRtpTransceiverDirection,
}

/// A transceiver of the engine, as far as the controller reads it: the
/// identifier of its media line, which the engine assigns when a negotiation
/// completes, and the engine's own object, which is carried along unread.
#[derive(Clone, Debug, PartialEq, Eq)]
pub struct Transceiver<T> {
    /// Identifier of the media line, once one is negotiated.
    pub mid: Option<String>,
    /// The object of the engine that this transceiver is.
    pub inner: T,
}

impl<T> Transceiver<T> {
    /// This transceiver is negotiated, and `mid` is the identifier of its
    /// media line.
    pub open spec fn has_mid(self, mid: Seq<char>) -> bool {
        match self.mid {
            Some(own) => own@ == mid,
            None => false,
        }
    }

    /// Tells whether this transceiver is negotiated under the identifier
    /// `mid`.
    pub fn is_mid(&self, mid: &String) -> (same: bool)
        ensures
            same == self.has_mid(mid@),
    {
        match &self.mid {
            Some(own) => *own == *mid,
            None => false,
        }
    }
}

} // verus!

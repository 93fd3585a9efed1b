//! Session descriptions, tagged with the role they play.

use vstd::prelude::*;

use crate::engine::RtcSdpType;

verus! {

/// SDP text, tagged as an offer or as an answer. The text is not read.
#[derive(Clone, Debug, PartialEq, Eq)]
pub enum SdpType {
    /// What one side proposes.
    Offer(String),
    /// What the other side makes of the proposal.
    Answer(String),
}

impl SdpType {
    /// The role of this description, in the words of the engine.
    pub open spec fn spec_kind(self) -> RtcSdpType {
        match self {
            SdpType::Offer(_) => RtcSdpType::Offer,
            SdpType::Answer(_) => RtcSdpType::Answer,
        }
    }

    /// The text of this description.
    pub open spec fn spec_sdp(self) -> String {
        match self {
            SdpType::Offer(sdp) => sdp,
            SdpType::Answer(sdp) => sdp,
        }
    }
}

} // verus!

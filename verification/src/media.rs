//! Kinds of media that the controller negotiates.

use vstd::prelude::*;

verus! {

/// Kind of a media track.
#[derive(Clone, Copy, Debug, PartialEq, Eq, Structural)]
pub enum MediaKind {
    /// Audio track.
    Audio,
    /// Video track.
    Video,
}

/// Source that a media track is obtained from.
#[derive(Clone, Copy, Debug, PartialEq, Eq, Structural)]
pub enum MediaSourceKind {
    /// Media comes from a device such as a webcam or a microphone.
    Device,
    /// Media comes from capturing a screen.
    Display,
}

/// Kind of a media device.
#[derive(Clone, Copy, Debug, PartialEq, Eq, Structural)]
pub enum MediaDeviceKind {
    /// Audio input device, such as a microphone.
    AudioInput,
    /// Video input device, such as a webcam.
    VideoInput,
    /// Audio output device, such as a pair of headphones.
    AudioOutput,
}

/// Direction that a camera faces, as seen by its user.
#[derive(Clone, Copy, Debug, PartialEq, Eq, Structural)]
pub enum FacingMode {
    /// Facing towards the user.
    User,
    /// Facing away from the user.
    Environment,
    /// Facing to the left of the user.
    Left,
    /// Facing to the right of the user.
    Right,
}

impl MediaKind {
    /// The word by which the media engine knows this kind.
    pub open spec fn spec_as_str(self) -> Seq<char> {
        match self {
            MediaKind::Audio => "audio"@,
            MediaKind::Video => "video"@,
        }
    }

    /// Returns the word by which the media engine knows this kind.
    pub fn as_str(self) -> (word: &'static str)
        ensures
            word@ == self.spec_as_str(),
    {
        match self {
            MediaKind::Audio => "audio",
            MediaKind::Video => "video",
        }
    }
}

} // verus!

//! The kinds of media as they are shown to the users of the library, and how
//! they relate to the kinds that the library works with.

use vstd::prelude::*;

use crate::media;

verus! {

/// Kind of a media track.
#[derive(Clone, Copy, Debug, PartialEq, Eq, Structural)]
pub enum MediaKind {
    /// Audio track.
    Audio,
    /// Video track.
    Video,
}

/// Kind of a media device.
#[derive(Clone, Copy, Debug, PartialEq, Eq, Structural)]
pub enum MediaDeviceKind {
    /// Audio input device (for example, a microphone).
    AudioInput,
    /// Video input device (for example, a webcam).
    VideoInput,
    /// Audio output device (for example, a pair of headphones).
    AudioOutput,
}

/// Media source type.
#[derive(Clone, Copy, Debug, PartialEq, Eq, Structural)]
pub enum MediaSourceKind {
    /// Media is sourced from some media device (webcam or microphone).
    Device,
    /// Media is obtained via screen capturing.
    Display,
}

/// Directions that a camera can face, as seen from a user's perspective.
#[derive(Clone, Copy, Debug, PartialEq, Eq, Structural)]
pub enum FacingMode {
    /// Facing towards a user (a self-view camera).
    User,
    /// Facing away from a user (viewing the environment).
    Environment,
    /// Facing to the left of a user.
    Left,
    /// Facing to the right of a user.
    Right,
}

impl From<media::MediaKind> for MediaKind {
    fn from(that: media::MediaKind) -> (res: Self) {
        match that {
            media::MediaKind::Audio => MediaKind::Audio,
            media::MediaKind::Video => MediaKind::Video,
        }
    }
}

impl vstd::std_specs::convert::FromSpecImpl<media::MediaKind> for MediaKind {
    open spec fn obeys_from_spec() -> bool {
        true
    }

    open spec fn from_spec(that: media::MediaKind) -> Self {
        match that {
            media::MediaKind::Audio => MediaKind::Audio,
            media::MediaKind::Video => MediaKind::Video,
        }
    }
}

impl From<MediaKind> for media::MediaKind {
    fn from(that: MediaKind) -> (res: Self) {
        match that {
            MediaKind::Audio => media::MediaKind::Audio,
            MediaKind::Video => media::MediaKind::Video,
        }
    }
}

impl vstd::std_specs::convert::FromSpecImpl<MediaKind> for media::MediaKind {
    open spec fn obeys_from_spec() -> bool {
        true
    }

    open spec fn from_spec(that: MediaKind) -> Self {
        match that {
            MediaKind::Audio => media::MediaKind::Audio,
            MediaKind::Video => media::MediaKind::Video,
        }
    }
}

impl From<media::MediaSourceKind> for MediaSourceKind {
    fn from(that: media::MediaSourceKind) -> (res: Self) {
        match that {
            media::MediaSourceKind::Device => MediaSourceKind::Device,
            media::MediaSourceKind::Display => MediaSourceKind::Display,
        }
    }
}

impl vstd::std_specs::convert::FromSpecImpl<media::MediaSourceKind> for MediaSourceKind {
    open spec fn obeys_from_spec() -> bool {
        true
    }

    open spec fn from_spec(that: media::MediaSourceKind) -> Self {
        match that {
            media::MediaSourceKind::Device => MediaSourceKind::Device,
            media::MediaSourceKind::Display => MediaSourceKind::Display,
        }
    }
}

impl From<media::MediaDeviceKind> for MediaDeviceKind {
    fn from(that: media::MediaDeviceKind) -> (res: Self) {
        match that {
            media::MediaDeviceKind::AudioInput => MediaDeviceKind::AudioInput,
            media::MediaDeviceKind::VideoInput => MediaDeviceKind::VideoInput,
            media::MediaDeviceKind::AudioOutput => MediaDeviceKind::AudioOutput,
        }
    }
}

impl vstd::std_specs::convert::FromSpecImpl<media::MediaDeviceKind> for MediaDeviceKind {
    open spec fn obeys_from_spec() -> bool {
        true
    }

    open spec fn from_spec(that: media::MediaDeviceKind) -> Self {
        match that {
            media::MediaDeviceKind::AudioInput => MediaDeviceKind::AudioInput,
            media::MediaDeviceKind::VideoInput => MediaDeviceKind::VideoInput,
            media::MediaDeviceKind::AudioOutput => MediaDeviceKind::AudioOutput,
        }
    }
}

impl From<MediaSourceKind> for media::MediaSourceKind {
    fn from(that: MediaSourceKind) -> (res: Self) {
        match that {
            MediaSourceKind::Device => media::MediaSourceKind::Device,
            MediaSourceKind::Display => media::MediaSourceKind::Display,
        }
    }
}

impl vstd::std_specs::convert::FromSpecImpl<MediaSourceKind> for media::MediaSourceKind {
    open spec fn obeys_from_spec() -> bool {
        true
    }

    open spec fn from_spec(that: MediaSourceKind) -> Self {
        match that {
            MediaSourceKind::Device => media::MediaSourceKind::Device,
            MediaSourceKind::Display => media::MediaSourceKind::Display,
        }
    }
}

impl From<media::FacingMode> for FacingMode {
    fn from(that: media::FacingMode) -> (res: Self) {
        match that {
            media::FacingMode::User => FacingMode::User,
            media::FacingMode::Environment => FacingMode::Environment,
            media::FacingMode::Left => FacingMode::Left,
            media::FacingMode::Right => FacingMode::Right,
        }
    }
}

impl vstd::std_specs::convert::FromSpecImpl<media::FacingMode> for FacingMode {
    open spec fn obeys_from_spec() -> bool {
        true
    }

    open spec fn from_spec(that: media::FacingMode) -> Self {
        match that {
            media::FacingMode::User => FacingMode::User,
            media::FacingMode::Environment => FacingMode::Environment,
            media::FacingMode::Left => FacingMode::Left,
            media::FacingMode::Right => FacingMode::Right,
        }
    }
}

impl From<FacingMode> for media::FacingMode {
    fn from(val: FacingMode) -> (res: Self) {
        match val {
            FacingMode::User => media::FacingMode::User,
            FacingMode::Environment => media::FacingMode::Environment,
            FacingMode::Left => media::FacingMode::Left,
            FacingMode::Right => media::FacingMode::Right,
        }
    }
}

impl vstd::std_specs::convert::FromSpecImpl<FacingMode> for media::FacingMode {
    open spec fn obeys_from_spec() -> bool {
        true
    }

    open spec fn from_spec(val: FacingMode) -> Self {
        match val {
            FacingMode::User => media::FacingMode::User,
            FacingMode::Environment => media::FacingMode::Environment,
            FacingMode::Left => media::FacingMode::Left,
            FacingMode::Right => media::FacingMode::Right,
        }
    }
}

} // verus!

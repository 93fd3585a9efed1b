use std::marker::PhantomData;

use rtc_peer_connection::api;
use rtc_peer_connection::engine::{EventKind, RtcRtpTransceiverDirection};
use rtc_peer_connection::media;
use rtc_peer_connection::tracks_store::TracksStore;
use rtc_peer_connection::transceiver::TransceiverDirection;

#[test]
fn media_kinds_are_named_as_the_engine_names_them() {
    assert_eq!(media::MediaKind::Audio.as_str(), "audio");
    assert_eq!(media::MediaKind::Video.as_str(), "video");
}

#[test]
fn events_are_named_as_the_engine_names_them() {
    assert_eq!(EventKind::Track.name(), "track");
    assert_eq!(EventKind::IceCandidate.name(), "icecandidate");
    assert_eq!(EventKind::IceConnectionStateChange.name(), "iceconnectionstatechange");
    assert_eq!(EventKind::ConnectionStateChange.name(), "connectionstatechange");
}

#[test]
fn direction_is_put_into_the_engines_words() {
    let native = |send: bool, recv: bool| {
        RtcRtpTransceiverDirection::from(TransceiverDirection { send, recv })
    };
    assert_eq!(native(true, true), RtcRtpTransceiverDirection::Sendrecv);
    assert_eq!(native(true, false), RtcRtpTransceiverDirection::Sendonly);
    assert_eq!(native(false, true), RtcRtpTransceiverDirection::Recvonly);
    assert_eq!(native(false, false), RtcRtpTransceiverDirection::Inactive);
}

#[test]
fn media_kind_converts_both_ways() {
    assert_eq!(api::MediaKind::from(media::MediaKind::Audio), api::MediaKind::Audio);
    assert_eq!(api::MediaKind::from(media::MediaKind::Video), api::MediaKind::Video);
    assert_eq!(media::MediaKind::from(api::MediaKind::Audio), media::MediaKind::Audio);
    assert_eq!(media::MediaKind::from(api::MediaKind::Video), media::MediaKind::Video);
}

#[test]
fn media_source_kind_converts_both_ways() {
    assert_eq!(
        api::MediaSourceKind::from(media::MediaSourceKind::Device),
        api::MediaSourceKind::Device
    );
    assert_eq!(
        api::MediaSourceKind::from(media::MediaSourceKind::Display),
        api::MediaSourceKind::Display
    );
    assert_eq!(
        media::MediaSourceKind::from(api::MediaSourceKind::Device),
        media::MediaSourceKind::Device
    );
    assert_eq!(
        media::MediaSourceKind::from(api::MediaSourceKind::Display),
        media::MediaSourceKind::Display
    );
}

#[test]
fn media_device_kind_converts() {
    assert_eq!(
        api::MediaDeviceKind::from(media::MediaDeviceKind::AudioInput),
        api::MediaDeviceKind::AudioInput
    );
    assert_eq!(
        api::MediaDeviceKind::from(media::MediaDeviceKind::VideoInput),
        api::MediaDeviceKind::VideoInput
    );
    assert_eq!(
        api::MediaDeviceKind::from(media::MediaDeviceKind::AudioOutput),
        api::MediaDeviceKind::AudioOutput
    );
}

#[test]
fn facing_mode_converts_both_ways() {
    let pairs = [
        (media::FacingMode::User, api::FacingMode::User),
        (media::FacingMode::Environment, api::FacingMode::Environment),
        (media::FacingMode::Left, api::FacingMode::Left),
        (media::FacingMode::Right, api::FacingMode::Right),
    ];
    for (own, shown) in pairs {
        assert_eq!(api::FacingMode::from(own), shown);
        assert_eq!(media::FacingMode::from(shown), own);
    }
}

#[test]
fn tracks_store_only_names_a_kind_of_track() {
    let local: TracksStore<u8> = TracksStore(PhantomData);
    assert_eq!(format!("{local:?}"), "TracksStore(PhantomData<u8>)");
}

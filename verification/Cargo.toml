[package]
name = "rtc_peer_connection"
version = "0.1.0"
edition = "2021"
publish = false

[dependencies]
derive_more = { version = "*", features = ["display"] }
js-sys = "*"
log = "*"
medea-client-api-proto = "*"
tracerr = "*"
wasm-bindgen = "*"
wasm-bindgen-futures = "*"
web-sys = { version = "*", features = ["Event", "EventTarget", "MediaStreamTrack", "RtcBundlePolicy", "RtcConfiguration", "RtcIceCandidate", "RtcIceCandidateInit", "RtcIceConnectionState", "RtcIceServer", "RtcIceTransportPolicy", "RtcOfferOptions", "RtcPeerConnection", "RtcPeerConnectionIceEvent", "RtcRtpTransceiver", "RtcRtpTransceiverDirection", "RtcRtpTransceiverInit", "RtcSdpType", "RtcSessionDescription", "RtcSessionDescriptionInit", "RtcStatsReport", "RtcTrackEvent"] }

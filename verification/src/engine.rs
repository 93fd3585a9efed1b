//! The vocabulary of the media engine: what the controller asks of it, and
//! the words in which the engine answers.
//!
//! A [`Request`] is work that the engine may refuse; a [`Command`] is work
//! on its listeners that it carries out at once. Both are plain values: the
//! caller of the controller performs them, in the order in which they were
//! handed out.

use vstd::prelude::*;

use crate::error::{Error, RtcPeerConnectionError};

verus! {

/// How the engine groups media onto transports.
#[derive(Clone, Copy, Debug, PartialEq, Eq, Structural)]
pub enum RtcBundlePolicy {
    /// One transport for each kind of media.
    Balanced,
    /// One transport for each media line.
    MaxCompat,
    /// One transport for all media.
    MaxBundle,
}

/// Which ICE candidates the engine may use.
#[derive(Clone, Copy, Debug, PartialEq, Eq, Structural)]
pub enum RtcIceTransportPolicy {
    /// Only candidates that pass through a relay server.
    Relay,
    /// Candidates of every type.
    All,
}

/// Role of a session description.
#[derive(Clone, Copy, Debug, PartialEq, Eq, Structural)]
pub enum RtcSdpType {
    /// A proposal.
    Offer,
    /// A provisional answer.
    Pranswer,
    /// A final answer.
    Answer,
    /// A return to the last stable state.
    Rollback,
}

/// ICE connection state, in the words of the engine.
#[derive(Clone, Copy, Debug, PartialEq, Eq, Structural)]
pub enum RtcIceConnectionState {
    New,
    Checking,
    Connected,
    Completed,
    Failed,
    Disconnected,
    Closed,
}

/// Direction of a transceiver, in the words of the engine.
#[derive(Clone, Copy, Debug, PartialEq, Eq, Structural)]
pub enum RtcRtpTransceiverDirection {
    Sendrecv,
    Sendonly,
    Recvonly,
    Inactive,
    Stopped,
}

/// The kinds of event that the engine raises on its own.
#[derive(Clone, Copy, Debug, PartialEq, Eq, Hash, Structural)]
pub enum EventKind {
    /// A media track of the remote peer has arrived.
    Track,
    /// A local ICE candidate was discovered, or gathering has ended.
    IceCandidate,
    /// The ICE connection state has changed.
    IceConnectionStateChange,
    /// The aggregate connection state has changed.
    ConnectionStateChange,
}

impl EventKind {
    /// The name under which the engine raises events of this kind.
    pub open spec fn spec_name(self) -> Seq<char> {
        match self {
            EventKind::Track => "track"@,
            EventKind::IceCandidate => "icecandidate"@,
            EventKind::IceConnectionStateChange => "iceconnectionstatechange"@,
            EventKind::ConnectionStateChange => "connectionstatechange"@,
        }
    }

    /// Returns the name under which the engine raises events of this kind.
    pub fn name(self) -> (name: &'static str)
        ensures
            name@ == self.spec_name(),
    {
        match self {
            EventKind::Track => "track",
            EventKind::IceCandidate => "icecandidate",
            EventKind::IceConnectionStateChange => "iceconnectionstatechange",
            EventKind::ConnectionStateChange => "connectionstatechange",
        }
    }
}

/// Token that stands for a function of the caller which receives events.
///
/// The controller never calls such a function. It tells its caller which
/// token an event is owed to, and the caller keeps the function behind it.
#[derive(Clone, Copy, Debug, PartialEq, Eq, Hash, Structural)]
pub struct Handler(pub u64);

/// A handler bound to one kind of event of the engine.
#[derive(Clone, Copy, Debug, PartialEq, Eq, Hash, Structural)]
pub struct Listener {
    /// Kind of event that is listened for.
    pub event: EventKind,
    /// Handler that the events are owed to.
    pub handler: Handler,
}

/// An ICE server that the engine may use.
#[derive(Clone, Debug, PartialEq, Eq)]
pub struct IceServer {
    /// URLs of the server.
    pub urls: Vec<String>,
    /// Name to authenticate with, if the server asks for one.
    pub username: Option<String>,
    /// Secret to authenticate with, if the server asks for one.
    pub credential: Option<String>,
}

/// What an [`IceServer`] holds.
pub struct IceServerView {
    pub urls: Seq<Seq<char>>,
    pub username: Option<Seq<char>>,
    pub credential: Option<Seq<char>>,
}

impl View for IceServer {
    type V = IceServerView;

    open spec fn view(&self) -> IceServerView {
        IceServerView {
            urls: self.urls.deep_view(),
            username: self.username.deep_view(),
            credential: self.credential.deep_view(),
        }
    }
}

/// Work that the engine may refuse.
#[allow(inconsistent_fields)]
#[derive(Clone, Debug, PartialEq, Eq)]
pub enum Request {
    /// Instantiate the engine with this configuration.
    Create {
        bundle_policy: RtcBundlePolicy,
        ice_transport_policy: RtcIceTransportPolicy,
        ice_servers: Vec<IceServer>,
    },
    /// Produce an SDP offer, one that restarts ICE if `ice_restart` is set.
    CreateOffer { ice_restart: bool },
    /// Produce an SDP answer to the remote offer that was applied.
    CreateAnswer,
    /// Apply a description of this side. A rollback carries no SDP.
    SetLocalDescription { kind: RtcSdpType, sdp: Option<String> },
    /// Apply a description of the remote side.
    SetRemoteDescription { kind: RtcSdpType, sdp: String },
    /// Take an ICE candidate of the remote side.
    AddIceCandidate { candidate: String, sdp_m_line_index: Option<u16>, sdp_mid: Option<String> },
    /// Take a snapshot of the statistics.
    GetStats,
}

/// What a [`Request`] holds.
#[allow(inconsistent_fields)]
pub enum RequestView {
    Create {
        bundle_policy: RtcBundlePolicy,
        ice_transport_policy: RtcIceTransportPolicy,
        ice_servers: Seq<IceServerView>,
    },
    CreateOffer { ice_restart: bool },
    CreateAnswer,
    SetLocalDescription { kind: RtcSdpType, sdp: Option<Seq<char>> },
    SetRemoteDescription { kind: RtcSdpType, sdp: Seq<char> },
    AddIceCandidate {
        candidate: Seq<char>,
        sdp_m_line_index: Option<u16>,
        sdp_mid: Option<Seq<char>>,
    },
    GetStats,
}

impl View for Request {
    type V = RequestView;

    open spec fn view(&self) -> RequestView {
        match *self {
            Request::Create { bundle_policy, ice_transport_policy, ice_servers } => {
                RequestView::Create {
                    bundle_policy,
                    ice_transport_policy,
                    ice_servers: ice_servers@.map_values(|server: IceServer| server@),
                }
            },
            Request::CreateOffer { ice_restart } => RequestView::CreateOffer { ice_restart },
            Request::CreateAnswer => RequestView::CreateAnswer,
            Request::SetLocalDescription { kind, sdp } => RequestView::SetLocalDescription {
                kind,
                sdp: sdp.deep_view(),
            },
            Request::SetRemoteDescription { kind, sdp } => RequestView::SetRemoteDescription {
                kind,
                sdp: sdp@,
            },
            Request::AddIceCandidate {
                candidate,
                sdp_m_line_index,
                sdp_mid,
            } => RequestView::AddIceCandidate {
                candidate: candidate@,
                sdp_m_line_index,
                sdp_mid: sdp_mid.deep_view(),
            },
            Request::GetStats => RequestView::GetStats,
        }
    }
}

impl Request {
    /// The failure that a refusal of this request amounts to, given what the
    /// host said.
    pub open spec fn spec_failure(self, cause: Error) -> RtcPeerConnectionError {
        match self {
            Request::Create { .. } => RtcPeerConnectionError::PeerCreationError(cause),
            Request::CreateOffer { .. } => RtcPeerConnectionError::CreateOfferFailed(cause),
            Request::CreateAnswer => RtcPeerConnectionError::CreateAnswerFailed(cause),
            Request::SetLocalDescription { .. } => {
                RtcPeerConnectionError::SetLocalDescriptionFailed(cause)
            },
            Request::SetRemoteDescription { .. } => {
                RtcPeerConnectionError::SetRemoteDescriptionFailed(cause)
            },
            Request::AddIceCandidate { .. } => RtcPeerConnectionError::AddIceCandidateFailed(cause),
            Request::GetStats => RtcPeerConnectionError::GetStatsException(cause),
        }
    }

    /// Names the failure that a refusal of this request amounts to. The error
    /// of the host is carried along untouched.
    pub fn failure(&self, cause: Error) -> (failure: RtcPeerConnectionError)
        ensures
            failure == self.spec_failure(cause),
    {
        match self {
            Request::Create { .. } => RtcPeerConnectionError::PeerCreationError(cause),
            Request::CreateOffer { .. } => RtcPeerConnectionError::CreateOfferFailed(cause),
            Request::CreateAnswer => RtcPeerConnectionError::CreateAnswerFailed(cause),
            Request::SetLocalDescription { .. } => {
                RtcPeerConnectionError::SetLocalDescriptionFailed(cause)
            },
            Request::SetRemoteDescription { .. } => {
                RtcPeerConnectionError::SetRemoteDescriptionFailed(cause)
            },
            Request::AddIceCandidate { .. } => RtcPeerConnectionError::AddIceCandidateFailed(cause),
            Request::GetStats => RtcPeerConnectionError::GetStatsException(cause),
        }
    }

    /// Turns what the engine made of this request into what the controller
    /// reports: the value that the engine produced, untouched, or the failure
    /// that belongs to this request. Nothing is tried a second time.
    pub fn complete<T>(&self, outcome: Result<T, Error>) -> (report: Result<
        T,
        RtcPeerConnectionError,
    >)
        ensures
            match outcome {
                Ok(value) => report == Ok::<T, RtcPeerConnectionError>(value),
                Err(cause) => report == Err::<T, RtcPeerConnectionError>(self.spec_failure(cause)),
            },
    {
        match outcome {
            Ok(value) => Ok(value),
            Err(cause) => Err(self.failure(cause)),
        }
    }
}

/// Work on its listeners that the engine carries out at once, and the end of
/// the engine itself.
#[derive(Clone, Copy, Debug, PartialEq, Eq, Structural)]
pub enum Command {
    /// Start delivering events of one kind to a handler.
    AddEventListener(Listener),
    /// Stop delivering events of one kind to a handler.
    RemoveEventListener(Listener),
    /// Shut the engine down.
    Close,
}

/// The listeners that the engine holds once it has carried out `command`,
/// if it held `bound` before.
pub open spec fn bound_after(bound: Set<Listener>, command: Command) -> Set<Listener> {
    match command {
        Command::AddEventListener(listener) => bound.insert(listener),
        Command::RemoveEventListener(listener) => bound.remove(listener),
        Command::Close => bound,
    }
}

/// The listeners that the engine holds once it has carried out `commands`
/// from first to last, if it held `bound` before.
pub open spec fn bound_after_all(bound: Set<Listener>, commands: Seq<Command>) -> Set<Listener>
    decreases commands.len(),
{
    if commands.len() == 0 {
        bound
    } else {
        bound_after(bound_after_all(bound, commands.drop_last()), commands.last())
    }
}

/// No kind of event has more than one handler among `bound`.
pub open spec fn one_handler_per_event(bound: Set<Listener>) -> bool {
    forall|a: Listener, b: Listener|
        bound.contains(a) && bound.contains(b) && a.event == b.event ==> a.handler == b.handler
}

} // verus!

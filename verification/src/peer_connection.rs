//! The controller of one peer connection.
//!
//! An [`RtcPeerConnection`] holds what the controller itself has to remember
//! between two calls: whether the next offer restarts ICE, and which handler,
//! if any, each kind of event of the engine is owed to. Everything else lives
//! in the engine, and is handed in by the caller where an operation reads it.

use vstd::prelude::*;

use crate::engine::{
    Command, EventKind, Handler, IceServer, Listener, Request, RequestView, RtcBundlePolicy,
    RtcIceConnectionState, RtcIceTransportPolicy, RtcRtpTransceiverDirection, RtcSdpType,
};
use crate::error::{Error, RtcPeerConnectionError, RtcStatsError};
use crate::event::{Anomaly, Dispatch, IceCandidate};
use crate::media::MediaKind;
use crate::sdp::SdpType;
use crate::state::{
    get_peer_connection_state, parse_ice_connection_state, spec_ice_connection_state,
    spec_peer_connection_state, IceConnectionState, PeerConnectionState,
};
use crate::transceiver::{Transceiver, TransceiverDirection, TransceiverInit};

verus! {

/// Controller of one peer connection.
#[derive(Debug)]
pub struct RtcPeerConnection {
    /// Whether the next offer is to restart ICE.
    ice_restart: bool,
    /// Handler of the local ICE candidates that the engine discovers.
    on_ice_candidate: Option<Handler>,
    /// Handler of the changes of the ICE connection state.
    on_ice_connection_state_changed: Option<Handler>,
    /// Handler of the changes of the aggregate connection state.
    on_connection_state_changed: Option<Handler>,
    /// Handler of the media tracks that arrive from the remote peer.
    on_track: Option<Handler>,
}

/// What an [`RtcPeerConnection`] remembers.
pub struct RtcPeerConnectionView {
    pub ice_restart: bool,
    pub on_ice_candidate: Option<Handler>,
    pub on_ice_connection_state_changed: Option<Handler>,
    pub on_connection_state_changed: Option<Handler>,
    pub on_track: Option<Handler>,
}

impl View for RtcPeerConnection {
    type V = RtcPeerConnectionView;

    closed spec fn view(&self) -> RtcPeerConnectionView {
        RtcPeerConnectionView {
            ice_restart: self.ice_restart,
            on_ice_candidate: self.on_ice_candidate,
            on_ice_connection_state_changed: self.on_ice_connection_state_changed,
            on_connection_state_changed: self.on_connection_state_changed,
            on_track: self.on_track,
        }
    }
}

/// What the engine has to do when the handler of `event` changes from
/// `current` to `next`: let go of the listener that is bound, if there is
/// one, and only then bind the new one, if there is one.
pub open spec fn rebind_commands(
    event: EventKind,
    current: Option<Handler>,
    next: Option<Handler>,
) -> Seq<Command> {
    let release = match current {
        Some(handler) => seq![Command::RemoveEventListener(Listener { event, handler })],
        None => Seq::<Command>::empty(),
    };
    let install = match next {
        Some(handler) => seq![Command::AddEventListener(Listener { event, handler })],
        None => Seq::<Command>::empty(),
    };
    release + install
}

impl RtcPeerConnectionView {
    /// A controller that has just been made.
    pub open spec fn initial() -> Self {
        RtcPeerConnectionView {
            ice_restart: false,
            on_ice_candidate: None,
            on_ice_connection_state_changed: None,
            on_connection_state_changed: None,
            on_track: None,
        }
    }

    /// The handler that events of kind `event` are owed to, if there is one.
    pub open spec fn handler(self, event: EventKind) -> Option<Handler> {
        match event {
            EventKind::Track => self.on_track,
            EventKind::IceCandidate => self.on_ice_candidate,
            EventKind::IceConnectionStateChange => self.on_ice_connection_state_changed,
            EventKind::ConnectionStateChange => self.on_connection_state_changed,
        }
    }

    /// This controller with the handler of `event` replaced by `next`.
    pub open spec fn with_handler(self, event: EventKind, next: Option<Handler>) -> Self {
        match event {
            EventKind::Track => RtcPeerConnectionView { on_track: next, ..self },
            EventKind::IceCandidate => RtcPeerConnectionView { on_ice_candidate: next, ..self },
            EventKind::IceConnectionStateChange => RtcPeerConnectionView {
                on_ice_connection_state_changed: next,
                ..self
            },
            EventKind::ConnectionStateChange => RtcPeerConnectionView {
                on_connection_state_changed: next,
                ..self
            },
        }
    }

    /// This controller once an ICE restart is asked for.
    pub open spec fn spec_restart_ice(self) -> Self {
        RtcPeerConnectionView { ice_restart: true, ..self }
    }

    /// This controller once an offer is asked for, and the request that
    /// goes to the engine for it.
    pub open spec fn spec_create_offer(self) -> (Self, Request) {
        (
            RtcPeerConnectionView { ice_restart: false, ..self },
            Request::CreateOffer { ice_restart: self.ice_restart },
        )
    }

    /// The candidates that the handler of candidates has been called with
    /// once the engine has raised `events`, from first to last.
    pub open spec fn candidates_delivered(self, events: Seq<Option<IceCandidate>>) -> Seq<
        IceCandidate,
    >
        decreases events.len(),
    {
        if events.len() == 0 {
            Seq::<IceCandidate>::empty()
        } else {
            let earlier = self.candidates_delivered(events.drop_last());
            match self.spec_ice_candidate_event(events.last()) {
                Dispatch::Deliver { payload, .. } => earlier.push(payload),
                _ => earlier,
            }
        }
    }

    /// What the engine has to do to end the connection: let go of every
    /// listener that is bound, and then shut down.
    pub open spec fn close_commands(self) -> Seq<Command> {
        rebind_commands(EventKind::Track, self.on_track, None) + rebind_commands(
            EventKind::IceCandidate,
            self.on_ice_candidate,
            None,
        ) + rebind_commands(
            EventKind::IceConnectionStateChange,
            self.on_ice_connection_state_changed,
            None,
        ) + rebind_commands(
            EventKind::ConnectionStateChange,
            self.on_connection_state_changed,
            None,
        ) + seq![Command::Close]
    }

    /// What is done about a media track that arrives.
    pub open spec fn spec_track_event<T>(self, track: T) -> Dispatch<T> {
        match self.on_track {
            Some(handler) => Dispatch::Deliver { handler, payload: track },
            None => Dispatch::Skip,
        }
    }

    /// What is done about an ICE candidate event, which holds a candidate or
    /// else says that gathering has ended.
    pub open spec fn spec_ice_candidate_event(self, candidate: Option<IceCandidate>) -> Dispatch<
        IceCandidate,
    > {
        match (self.on_ice_candidate, candidate) {
            (Some(handler), Some(candidate)) => Dispatch::Deliver { handler, payload: candidate },
            _ => Dispatch::Skip,
        }
    }

    /// What is done about a change of the ICE connection state.
    pub open spec fn spec_ice_connection_state_change_event(
        self,
        state: RtcIceConnectionState,
    ) -> Dispatch<IceConnectionState> {
        match self.on_ice_connection_state_changed {
            Some(handler) => Dispatch::Deliver {
                handler,
                payload: spec_ice_connection_state(state),
            },
            None => Dispatch::Skip,
        }
    }

    /// What is done about a change of the aggregate connection state, given
    /// what the engine holds under `connectionState`.
    pub open spec fn spec_connection_state_change_event(self, raw: Option<String>) -> Dispatch<
        PeerConnectionState,
    > {
        match self.on_connection_state_changed {
            Some(handler) => match raw {
                Some(word) => match spec_peer_connection_state(word@) {
                    Some(state) => Dispatch::Deliver { handler, payload: state },
                    None => Dispatch::Report(Anomaly::UnknownConnectionState(word)),
                },
                None => Dispatch::Report(Anomaly::NoConnectionState),
            },
            None => Dispatch::Skip,
        }
    }

    /// The listeners that this controller has had the engine bind.
    pub open spec fn listeners(self) -> Set<Listener> {
        Set::new(|listener: Listener| self.handler(listener.event) == Some(listener.handler))
    }
}

/// Replaces the handler in `slot` by `next` and says what the engine has to
/// do for it.
fn rebind(slot: &mut Option<Handler>, event: EventKind, next: Option<Handler>) -> (commands: Vec<
    Command,
>)
    ensures
        *final(slot) == next,
        commands@ == rebind_commands(event, *old(slot), next),
{
    let mut commands: Vec<Command> = Vec::new();
    if let Some(handler) = *slot {
        commands.push(Command::RemoveEventListener(Listener { event, handler }));
    }
    if let Some(handler) = next {
        commands.push(Command::AddEventListener(Listener { event, handler }));
    }
    *slot = next;
    commands
}

/// Adds to `commands` what lets go of the listener of `event`, if `current`
/// is bound to it.
fn release(commands: &mut Vec<Command>, event: EventKind, current: Option<Handler>)
    ensures
        final(commands)@ == old(commands)@ + rebind_commands(event, current, None),
{
    if let Some(handler) = current {
        commands.push(Command::RemoveEventListener(Listener { event, handler }));
    }
}

impl RtcPeerConnection {
    /// Makes the controller of a new peer connection, and the request that
    /// instantiates its engine.
    ///
    /// The engine is asked to put all media on one transport, to use the
    /// given ICE servers in their order, and to use relayed candidates alone
    /// if `is_force_relayed` is set, candidates of every type otherwise. The
    /// controller starts with no ICE restart pending and no handler. An
    /// engine that cannot be instantiated is a `PeerCreationError`, and there
    /// is no other way for the making of a peer connection to fail.
    pub fn new(ice_servers: Vec<IceServer>, is_force_relayed: bool) -> (made: (Self, Request))
        ensures
            made.0@ == RtcPeerConnectionView::initial(),
            made.1 == (Request::Create {
                bundle_policy: RtcBundlePolicy::MaxBundle,
                ice_transport_policy: if is_force_relayed {
                    RtcIceTransportPolicy::Relay
                } else {
                    RtcIceTransportPolicy::All
                },
                ice_servers,
            }),
            forall|cause: Error| #[trigger]
                made.1.spec_failure(cause) == RtcPeerConnectionError::PeerCreationError(cause),
    {
        let policy = if is_force_relayed {
            RtcIceTransportPolicy::Relay
        } else {
            RtcIceTransportPolicy::All
        };
        let request = Request::Create {
            bundle_policy: RtcBundlePolicy::MaxBundle,
            ice_transport_policy: policy,
            ice_servers,
        };
        let peer = RtcPeerConnection {
            ice_restart: false,
            on_ice_candidate: None,
            on_ice_connection_state_changed: None,
            on_connection_state_changed: None,
            on_track: None,
        };
        (peer, request)
    }

    /// Sets, replaces or removes the handler of the media tracks that arrive
    /// from the remote peer.
    ///
    /// The commands let go of the listener that was bound before they bind
    /// the new one, so that no track is ever owed to two handlers.
    pub fn on_track(&mut self, f: Option<Handler>) -> (commands: Vec<Command>)
        ensures
            final(self)@ == old(self)@.with_handler(EventKind::Track, f),
            commands@ == rebind_commands(EventKind::Track, old(self)@.on_track, f),
    {
        rebind(&mut self.on_track, EventKind::Track, f)
    }

    /// Sets, replaces or removes the handler of the local ICE candidates
    /// that the engine discovers.
    ///
    /// The commands let go of the listener that was bound before they bind
    /// the new one, so that no candidate is ever owed to two handlers.
    pub fn on_ice_candidate(&mut self, f: Option<Handler>) -> (commands: Vec<Command>)
        ensures
            final(self)@ == old(self)@.with_handler(EventKind::IceCandidate, f),
            commands@ == rebind_commands(EventKind::IceCandidate, old(self)@.on_ice_candidate, f),
    {
        rebind(&mut self.on_ice_candidate, EventKind::IceCandidate, f)
    }

    /// Sets, replaces or removes the handler of the changes of the ICE
    /// connection state.
    ///
    /// The commands let go of the listener that was bound before they bind
    /// the new one, so that no change is ever owed to two handlers.
    pub fn on_ice_connection_state_change(&mut self, f: Option<Handler>) -> (commands: Vec<
        Command,
    >)
        ensures
            final(self)@ == old(self)@.with_handler(EventKind::IceConnectionStateChange, f),
            commands@ == rebind_commands(
                EventKind::IceConnectionStateChange,
                old(self)@.on_ice_connection_state_changed,
                f,
            ),
    {
        rebind(&mut self.on_ice_connection_state_changed, EventKind::IceConnectionStateChange, f)
    }

    /// Sets, replaces or removes the handler of the changes of the aggregate
    /// connection state.
    ///
    /// The commands let go of the listener that was bound before they bind
    /// the new one, so that no change is ever owed to two handlers.
    pub fn on_connection_state_change(&mut self, f: Option<Handler>) -> (commands: Vec<Command>)
        ensures
            final(self)@ == old(self)@.with_handler(EventKind::ConnectionStateChange, f),
            commands@ == rebind_commands(
                EventKind::ConnectionStateChange,
                old(self)@.on_connection_state_changed,
                f,
            ),
    {
        rebind(&mut self.on_connection_state_changed, EventKind::ConnectionStateChange, f)
    }

    /// Marks the connection so that the next offer restarts ICE. The engine
    /// hears of it only when that offer is asked for.
    pub fn restart_ice(&mut self)
        ensures
            final(self)@ == old(self)@.spec_restart_ice(),
    {
        self.ice_restart = true;
    }

    /// Makes the request for an SDP offer.
    ///
    /// The offer restarts ICE exactly if a restart was pending. Asking uses
    /// the pending restart up, whatever the engine makes of the request: a
    /// restart that failed is not tried again on its own. A refusal is a
    /// `CreateOfferFailed`.
    pub fn create_offer(&mut self) -> (request: Request)
        ensures
            (final(self)@, request) == old(self)@.spec_create_offer(),
            forall|cause: Error| #[trigger]
                request.spec_failure(cause) == RtcPeerConnectionError::CreateOfferFailed(cause),
    {
        let ice_restart = self.ice_restart;
        self.ice_restart = false;
        Request::CreateOffer { ice_restart }
    }

    /// Makes the request for an SDP answer to the remote offer that the
    /// engine holds.
    ///
    /// The engine refuses where no remote offer has been applied; the
    /// controller keeps no account of that and leaves the judgement to it.
    /// A refusal is a `CreateAnswerFailed`.
    pub fn create_answer(&self) -> (request: Request)
        ensures
            request == Request::CreateAnswer,
            forall|cause: Error| #[trigger]
                request.spec_failure(cause) == RtcPeerConnectionError::CreateAnswerFailed(cause),
    {
        Request::CreateAnswer
    }

    /// Makes the request to apply `offer` as the description of this side,
    /// in the role `sdp_type`. A refusal is a `SetLocalDescriptionFailed`.
    fn set_local_description(&self, sdp_type: RtcSdpType, offer: &str) -> (request: Request)
        ensures
            request@ == (RequestView::SetLocalDescription { kind: sdp_type, sdp: Some(offer@) }),
            forall|cause: Error| #[trigger]
                request.spec_failure(cause) == RtcPeerConnectionError::SetLocalDescriptionFailed(cause),
    {
        Request::SetLocalDescription { kind: sdp_type, sdp: Some(offer.to_owned()) }
    }

    /// Makes the request to apply `offer` as the offer of this side. A
    /// refusal is a `SetLocalDescriptionFailed`.
    pub fn set_offer(&self, offer: &str) -> (request: Request)
        ensures
            request@ == (RequestView::SetLocalDescription {
                kind: RtcSdpType::Offer,
                sdp: Some(offer@),
            }),
            forall|cause: Error| #[trigger]
                request.spec_failure(cause) == RtcPeerConnectionError::SetLocalDescriptionFailed(cause),
    {
        self.set_local_description(RtcSdpType::Offer, offer)
    }

    /// Makes the request to apply `answer` as the answer of this side. A
    /// refusal is a `SetLocalDescriptionFailed`.
    pub fn set_answer(&self, answer: &str) -> (request: Request)
        ensures
            request@ == (RequestView::SetLocalDescription {
                kind: RtcSdpType::Answer,
                sdp: Some(answer@),
            }),
            forall|cause: Error| #[trigger]
                request.spec_failure(cause) == RtcPeerConnectionError::SetLocalDescriptionFailed(cause),
    {
        self.set_local_description(RtcSdpType::Answer, answer)
    }

    /// Makes the request to go back to the last stable state, giving up an
    /// exchange of offer and answer that has not completed.
    ///
    /// To the engine this is one more description of this side, so that a
    /// refusal is a `SetLocalDescriptionFailed` as well.
    pub fn rollback(&self) -> (request: Request)
        ensures
            request == (Request::SetLocalDescription { kind: RtcSdpType::Rollback, sdp: None }),
            forall|cause: Error| #[trigger]
                request.spec_failure(cause) == RtcPeerConnectionError::SetLocalDescriptionFailed(cause),
    {
        Request::SetLocalDescription { kind: RtcSdpType::Rollback, sdp: None }
    }

    /// Makes the request to apply `sdp` as the description of the remote
    /// side, in the role that it is tagged with. A refusal is a
    /// `SetRemoteDescriptionFailed`.
    pub fn set_remote_description(&self, sdp: SdpType) -> (request: Request)
        ensures
            request == (Request::SetRemoteDescription {
                kind: sdp.spec_kind(),
                sdp: sdp.spec_sdp(),
            }),
            forall|cause: Error| #[trigger]
                request.spec_failure(cause) == RtcPeerConnectionError::SetRemoteDescriptionFailed(cause),
    {
        match sdp {
            SdpType::Offer(offer) => Request::SetRemoteDescription {
                kind: RtcSdpType::Offer,
                sdp: offer,
            },
            SdpType::Answer(answer) => Request::SetRemoteDescription {
                kind: RtcSdpType::Answer,
                sdp: answer,
            },
        }
    }

    /// Makes the request to take an ICE candidate of the remote side, with
    /// every part of it as it was given. Whether the candidate can be used
    /// yet is for the engine to say. A refusal is an `AddIceCandidateFailed`.
    pub fn add_ice_candidate(
        &self,
        candidate: &str,
        sdp_m_line_index: Option<u16>,
        sdp_mid: &Option<String>,
    ) -> (request: Request)
        ensures
            request@ == (RequestView::AddIceCandidate {
                candidate: candidate@,
                sdp_m_line_index,
                sdp_mid: sdp_mid.deep_view(),
            }),
            forall|cause: Error| #[trigger]
                request.spec_failure(cause) == RtcPeerConnectionError::AddIceCandidateFailed(cause),
    {
        let sdp_mid = match sdp_mid {
            Some(mid) => Some(mid.clone()),
            None => None,
        };
        Request::AddIceCandidate { candidate: candidate.to_owned(), sdp_m_line_index, sdp_mid }
    }

    /// Makes the request for a snapshot of the statistics of the engine. A
    /// refusal is a `GetStatsException`.
    pub fn get_stats(&self) -> (request: Request)
        ensures
            request == Request::GetStats,
            forall|cause: Error| #[trigger]
                request.spec_failure(cause) == RtcPeerConnectionError::GetStatsException(cause),
    {
        Request::GetStats
    }

    /// Says what a request for statistics has come to.
    ///
    /// `outcome` is the refusal of the engine, or else what reading its
    /// snapshot gave. A refusal is a `GetStatsException`, a snapshot that
    /// could not be read is an `RtcStatsError`, and the report of a snapshot
    /// that could be read is handed back untouched.
    pub fn stats_received<S>(outcome: Result<Result<S, RtcStatsError>, Error>) -> (report: Result<
        S,
        RtcPeerConnectionError,
    >)
        ensures
            match outcome {
                Ok(Ok(stats)) => report == Ok::<S, RtcPeerConnectionError>(stats),
                Ok(Err(unread)) => report == Err::<S, RtcPeerConnectionError>(
                    RtcPeerConnectionError::RtcStatsError(unread),
                ),
                Err(cause) => report == Err::<S, RtcPeerConnectionError>(
                    RtcPeerConnectionError::GetStatsException(cause),
                ),
            },
    {
        match outcome {
            Ok(Ok(stats)) => Ok(stats),
            Ok(Err(unread)) => Err(RtcPeerConnectionError::from(unread)),
            Err(cause) => Err(RtcPeerConnectionError::GetStatsException(cause)),
        }
    }

    /// Puts the ICE connection state that the engine shows into the words of
    /// the controller.
    pub fn ice_connection_state(&self, state: RtcIceConnectionState) -> (parsed: IceConnectionState)
        ensures
            parsed == spec_ice_connection_state(state),
    {
        parse_ice_connection_state(state)
    }

    /// Reads the aggregate connection state out of what the engine holds
    /// under `connectionState`.
    ///
    /// There is no state to return where the engine holds nothing there, and
    /// none where it holds a word that names no state. Neither is a failure.
    pub fn connection_state(&self, raw: Option<String>) -> (state: Option<PeerConnectionState>)
        ensures
            state == match raw {
                Some(word) => spec_peer_connection_state(word@),
                None => None,
            },
    {
        match get_peer_connection_state(raw) {
            Some(Ok(state)) => Some(state),
            _ => None,
        }
    }

    /// Says what the engine has to be asked to add a transceiver with, for
    /// media of the given kind and with the given direction to begin with.
    ///
    /// Any number of transceivers of one kind may be added.
    pub fn add_transceiver(&self, kind: MediaKind, direction: TransceiverDirection) -> (init:
        TransceiverInit)
        ensures
            init.kind@ == kind.spec_as_str(),
            init.direction == direction.spec_native(),
    {
        TransceiverInit {
            kind: kind.as_str(),
            direction: RtcRtpTransceiverDirection::from(direction),
        }
    }

    /// Finds, among the transceivers that the engine holds at this moment,
    /// the first one that is negotiated under the identifier `mid`.
    ///
    /// `transceivers` is the set as the engine lists it. A transceiver that
    /// is not negotiated yet has no identifier and is never found.
    pub fn get_transceiver_by_mid<T>(
        &self,
        transceivers: Vec<Transceiver<T>>,
        mid: String,
    ) -> (found: Option<Transceiver<T>>)
        ensures
            found is None <==> forall|i: int|
                0 <= i < transceivers@.len() ==> !(#[trigger] transceivers@[i]).has_mid(mid@),
            found matches Some(transceiver) ==> exists|i: int|
                {
                    &&& 0 <= i < transceivers@.len()
                    &&& #[trigger] transceivers@[i] == transceiver
                    &&& transceiver.has_mid(mid@)
                    &&& forall|j: int| 0 <= j < i ==> !(#[trigger] transceivers@[j]).has_mid(mid@)
                },
    {
        let mut listed = transceivers;
        let mut i: usize = 0;
        while i < listed.len()
            invariant
                listed@ == transceivers@,
                i <= listed@.len(),
                forall|j: int| 0 <= j < i ==> !(#[trigger] transceivers@[j]).has_mid(mid@),
            decreases listed@.len() - i,
        {
            if listed[i].is_mid(&mid) {
                let transceiver = listed.remove(i);
                return Some(transceiver);
            }
            i += 1;
        }
        None
    }

    /// What is to be done about a media track that has arrived from the
    /// remote peer: it is owed to the handler of tracks, if there is one.
    pub fn track_event<T>(&self, track: T) -> (dispatch: Dispatch<T>)
        ensures
            dispatch == self@.spec_track_event(track),
            dispatch is Deliver ==> dispatch.receiver() == self@.handler(EventKind::Track),
    {
        match self.on_track {
            Some(handler) => Dispatch::Deliver { handler, payload: track },
            None => Dispatch::Skip,
        }
    }

    /// What is to be done about an ICE candidate event of the engine.
    ///
    /// An event without a candidate says that gathering has ended. It is for
    /// the controller alone and is never passed on. Every other event is owed
    /// to the handler of candidates, if there is one, with its candidate
    /// untouched.
    pub fn ice_candidate_event(&self, candidate: Option<IceCandidate>) -> (dispatch: Dispatch<
        IceCandidate,
    >)
        ensures
            dispatch == self@.spec_ice_candidate_event(candidate),
            dispatch is Deliver ==> dispatch.receiver() == self@.handler(EventKind::IceCandidate),
    {
        match (self.on_ice_candidate, candidate) {
            (Some(handler), Some(candidate)) => Dispatch::Deliver { handler, payload: candidate },
            _ => Dispatch::Skip,
        }
    }

    /// What is to be done about a change of the ICE connection state, given
    /// the state that the engine shows: the state is owed to the handler of
    /// such changes, if there is one, in the words of the controller.
    pub fn ice_connection_state_change_event(&self, state: RtcIceConnectionState) -> (dispatch:
        Dispatch<IceConnectionState>)
        ensures
            dispatch == self@.spec_ice_connection_state_change_event(state),
            dispatch is Deliver ==> dispatch.receiver() == self@.handler(EventKind::IceConnectionStateChange),
    {
        match self.on_ice_connection_state_changed {
            Some(handler) => Dispatch::Deliver {
                handler,
                payload: parse_ice_connection_state(state),
            },
            None => Dispatch::Skip,
        }
    }

    /// What is to be done about a change of the aggregate connection state,
    /// given what the engine holds under `connectionState`.
    ///
    /// Without a handler of such changes nothing is done. With one, a state
    /// that the controller knows is owed to it. A word that names no state,
    /// and an engine that holds nothing, are reported and not passed on.
    pub fn connection_state_change_event(&self, raw: Option<String>) -> (dispatch: Dispatch<
        PeerConnectionState,
    >)
        ensures
            dispatch == self@.spec_connection_state_change_event(raw),
            dispatch is Deliver ==> dispatch.receiver() == self@.handler(EventKind::ConnectionStateChange),
    {
        match self.on_connection_state_changed {
            Some(handler) => match get_peer_connection_state(raw) {
                Some(Ok(state)) => Dispatch::Deliver { handler, payload: state },
                Some(Err(word)) => Dispatch::Report(Anomaly::UnknownConnectionState(word)),
                None => Dispatch::Report(Anomaly::NoConnectionState),
            },
            None => Dispatch::Skip,
        }
    }

    /// Ends the connection, and says what the engine has to do for it.
    ///
    /// Every listener that is bound is let go of first, and the engine is
    /// shut down last: no handler is owed an event of an engine that is
    /// shutting down. The controller is used up.
    pub fn close(self) -> (commands: Vec<Command>)
        ensures
            commands@ == self@.close_commands(),
    {
        let mut commands: Vec<Command> = Vec::new();
        release(&mut commands, EventKind::Track, self.on_track);
        release(&mut commands, EventKind::IceCandidate, self.on_ice_candidate);
        release(
            &mut commands,
            EventKind::IceConnectionStateChange,
            self.on_ice_connection_state_changed,
        );
        release(&mut commands, EventKind::ConnectionStateChange, self.on_connection_state_changed);
        commands.push(Command::Close);
        commands
    }
}

} // verus!

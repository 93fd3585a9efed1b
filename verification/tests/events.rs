use std::collections::HashSet;

use rtc_peer_connection::engine::{
    Command, EventKind, Handler, Listener, RtcIceConnectionState,
};
use rtc_peer_connection::event::{Anomaly, Dispatch, IceCandidate};
use rtc_peer_connection::peer_connection::RtcPeerConnection;
use rtc_peer_connection::state::{IceConnectionState, PeerConnectionState};

fn peer() -> RtcPeerConnection {
    RtcPeerConnection::new(Vec::new(), false).0
}

fn candidate(n: u16) -> IceCandidate {
    IceCandidate {
        candidate: format!("candidate:{n} 1 UDP 2122252543 192.0.2.{n} 5000{n} typ host"),
        sdp_m_line_index: Some(n),
        sdp_mid: Some(format!("{n}")),
    }
}

fn add(event: EventKind, id: u64) -> Command {
    Command::AddEventListener(Listener { event, handler: Handler(id) })
}

fn remove(event: EventKind, id: u64) -> Command {
    Command::RemoveEventListener(Listener { event, handler: Handler(id) })
}

/// Carries the commands out on the listeners of a stand-in engine, and says
/// whether it ever held two listeners for one kind of event.
fn carry_out(bound: &mut HashSet<(u8, u64)>, commands: &[Command]) -> bool {
    let key = |listener: &Listener| {
        let kind = match listener.event {
            EventKind::Track => 0u8,
            EventKind::IceCandidate => 1,
            EventKind::IceConnectionStateChange => 2,
            EventKind::ConnectionStateChange => 3,
        };
        (kind, listener.handler.0)
    };
    let mut doubled = false;
    for command in commands {
        match command {
            Command::AddEventListener(listener) => {
                bound.insert(key(listener));
            }
            Command::RemoveEventListener(listener) => {
                bound.remove(&key(listener));
            }
            Command::Close => {}
        }
        for kind in 0u8..4 {
            doubled |= bound.iter().filter(|(k, _)| *k == kind).count() > 1;
        }
    }
    doubled
}

#[test]
fn first_handler_is_bound_without_a_release() {
    let mut peer = peer();
    assert_eq!(peer.on_track(Some(Handler(1))), vec![add(EventKind::Track, 1)]);
    assert_eq!(peer.on_ice_candidate(Some(Handler(2))), vec![add(EventKind::IceCandidate, 2)]);
    assert_eq!(
        peer.on_ice_connection_state_change(Some(Handler(3))),
        vec![add(EventKind::IceConnectionStateChange, 3)]
    );
    assert_eq!(
        peer.on_connection_state_change(Some(Handler(4))),
        vec![add(EventKind::ConnectionStateChange, 4)]
    );
}

#[test]
fn replacing_a_handler_releases_before_it_binds() {
    let mut peer = peer();
    peer.on_ice_candidate(Some(Handler(1)));
    assert_eq!(
        peer.on_ice_candidate(Some(Handler(2))),
        vec![remove(EventKind::IceCandidate, 1), add(EventKind::IceCandidate, 2)]
    );
    peer.on_track(Some(Handler(5)));
    assert_eq!(
        peer.on_track(Some(Handler(6))),
        vec![remove(EventKind::Track, 5), add(EventKind::Track, 6)]
    );
    peer.on_ice_connection_state_change(Some(Handler(7)));
    assert_eq!(
        peer.on_ice_connection_state_change(Some(Handler(8))),
        vec![
            remove(EventKind::IceConnectionStateChange, 7),
            add(EventKind::IceConnectionStateChange, 8)
        ]
    );
    peer.on_connection_state_change(Some(Handler(9)));
    assert_eq!(
        peer.on_connection_state_change(Some(Handler(10))),
        vec![
            remove(EventKind::ConnectionStateChange, 9),
            add(EventKind::ConnectionStateChange, 10)
        ]
    );
}

#[test]
fn clearing_a_handler_releases_its_listener() {
    let mut peer = peer();
    peer.on_connection_state_change(Some(Handler(4)));
    assert_eq!(
        peer.on_connection_state_change(None),
        vec![remove(EventKind::ConnectionStateChange, 4)]
    );
    assert_eq!(peer.on_connection_state_change(None), Vec::<Command>::new());
    assert_eq!(
        peer.connection_state_change_event(Some("connected".to_owned())),
        Dispatch::Skip
    );
}

#[test]
fn clearing_a_handler_that_was_never_set_does_nothing() {
    let mut peer = peer();
    assert_eq!(peer.on_track(None), Vec::<Command>::new());
    assert_eq!(peer.on_ice_candidate(None), Vec::<Command>::new());
    assert_eq!(peer.on_ice_connection_state_change(None), Vec::<Command>::new());
    assert_eq!(peer.on_connection_state_change(None), Vec::<Command>::new());
}

#[test]
fn replaced_handler_is_never_called_again() {
    let mut peer = peer();
    peer.on_track(Some(Handler(1)));
    assert_eq!(
        peer.track_event("first"),
        Dispatch::Deliver { handler: Handler(1), payload: "first" }
    );
    peer.on_track(Some(Handler(2)));
    for payload in ["second", "third", "fourth"] {
        assert_eq!(
            peer.track_event(payload),
            Dispatch::Deliver { handler: Handler(2), payload }
        );
    }
}

#[test]
fn engine_never_holds_two_listeners_of_one_kind() {
    let mut peer = peer();
    let mut bound = HashSet::new();
    let mut doubled = false;
    doubled |= carry_out(&mut bound, &peer.on_ice_candidate(Some(Handler(1))));
    doubled |= carry_out(&mut bound, &peer.on_track(Some(Handler(1))));
    doubled |= carry_out(&mut bound, &peer.on_ice_candidate(Some(Handler(2))));
    doubled |= carry_out(&mut bound, &peer.on_ice_candidate(Some(Handler(2))));
    doubled |= carry_out(&mut bound, &peer.on_track(None));
    doubled |= carry_out(&mut bound, &peer.on_connection_state_change(Some(Handler(3))));
    assert!(!doubled);
    assert_eq!(bound, HashSet::from([(1u8, 2u64), (3u8, 3u64)]));
}

#[test]
fn handlers_of_different_kinds_do_not_disturb_each_other() {
    let mut peer = peer();
    peer.on_track(Some(Handler(1)));
    peer.on_ice_candidate(Some(Handler(2)));
    peer.on_ice_connection_state_change(Some(Handler(3)));
    peer.on_connection_state_change(Some(Handler(4)));
    peer.on_ice_candidate(None);
    assert_eq!(peer.track_event(0u8), Dispatch::Deliver { handler: Handler(1), payload: 0u8 });
    assert_eq!(peer.ice_candidate_event(Some(candidate(1))), Dispatch::Skip);
    assert_eq!(
        peer.ice_connection_state_change_event(RtcIceConnectionState::Checking),
        Dispatch::Deliver { handler: Handler(3), payload: IceConnectionState::Checking }
    );
    assert_eq!(
        peer.connection_state_change_event(Some("connecting".to_owned())),
        Dispatch::Deliver { handler: Handler(4), payload: PeerConnectionState::Connecting }
    );
}

#[test]
fn events_without_a_handler_are_skipped() {
    let peer = peer();
    assert_eq!(peer.track_event(1u8), Dispatch::Skip);
    assert_eq!(peer.ice_candidate_event(Some(candidate(1))), Dispatch::Skip);
    assert_eq!(peer.ice_candidate_event(None), Dispatch::Skip);
    assert_eq!(
        peer.ice_connection_state_change_event(RtcIceConnectionState::Connected),
        Dispatch::Skip
    );
    assert_eq!(peer.connection_state_change_event(Some("connected".to_owned())), Dispatch::Skip);
    assert_eq!(peer.connection_state_change_event(Some("bogus".to_owned())), Dispatch::Skip);
    assert_eq!(peer.connection_state_change_event(None), Dispatch::Skip);
}

#[test]
fn end_of_candidates_is_never_passed_on() {
    let mut peer = peer();
    peer.on_ice_candidate(Some(Handler(7)));
    assert_eq!(peer.ice_candidate_event(None), Dispatch::Skip);
}

#[test]
fn candidates_are_passed_on_once_and_in_order() {
    let mut peer = peer();
    peer.on_ice_candidate(Some(Handler(7)));
    let raised =
        vec![Some(candidate(1)), Some(candidate(2)), None, Some(candidate(3)), None];
    let mut received = Vec::new();
    for event in raised {
        match peer.ice_candidate_event(event) {
            Dispatch::Deliver { handler, payload } => {
                assert_eq!(handler, Handler(7));
                received.push(payload);
            }
            Dispatch::Skip => {}
            Dispatch::Report(anomaly) => panic!("nothing to report: {anomaly:?}"),
        }
    }
    assert_eq!(received, vec![candidate(1), candidate(2), candidate(3)]);
}

#[test]
fn candidate_without_mid_reaches_the_handler_as_it_is() {
    let mut peer = peer();
    peer.on_ice_candidate(Some(Handler(1)));
    let bare = IceCandidate { candidate: String::new(), sdp_m_line_index: None, sdp_mid: None };
    assert_eq!(
        peer.ice_candidate_event(Some(bare.clone())),
        Dispatch::Deliver { handler: Handler(1), payload: bare }
    );
}

#[test]
fn ice_connection_state_reaches_the_handler_in_the_controllers_words() {
    let mut peer = peer();
    peer.on_ice_connection_state_change(Some(Handler(3)));
    assert_eq!(
        peer.ice_connection_state_change_event(RtcIceConnectionState::Disconnected),
        Dispatch::Deliver { handler: Handler(3), payload: IceConnectionState::Disconnected }
    );
    assert_eq!(
        peer.ice_connection_state_change_event(RtcIceConnectionState::Completed),
        Dispatch::Deliver { handler: Handler(3), payload: IceConnectionState::Completed }
    );
}

#[test]
fn known_connection_state_reaches_the_handler() {
    let mut peer = peer();
    peer.on_connection_state_change(Some(Handler(4)));
    assert_eq!(
        peer.connection_state_change_event(Some("failed".to_owned())),
        Dispatch::Deliver { handler: Handler(4), payload: PeerConnectionState::Failed }
    );
}

#[test]
fn unknown_connection_state_is_reported_and_not_passed_on() {
    let mut peer = peer();
    peer.on_connection_state_change(Some(Handler(4)));
    assert_eq!(
        peer.connection_state_change_event(Some("hibernating".to_owned())),
        Dispatch::Report(Anomaly::UnknownConnectionState("hibernating".to_owned()))
    );
}

#[test]
fn missing_connection_state_is_reported_and_not_passed_on() {
    let mut peer = peer();
    peer.on_connection_state_change(Some(Handler(4)));
    assert_eq!(
        peer.connection_state_change_event(None),
        Dispatch::Report(Anomaly::NoConnectionState)
    );
}

#[test]
fn close_releases_every_listener_and_then_shuts_down() {
    let mut peer = peer();
    peer.on_connection_state_change(Some(Handler(4)));
    peer.on_ice_candidate(Some(Handler(2)));
    peer.on_track(Some(Handler(1)));
    peer.on_ice_connection_state_change(Some(Handler(3)));
    assert_eq!(
        peer.close(),
        vec![
            remove(EventKind::Track, 1),
            remove(EventKind::IceCandidate, 2),
            remove(EventKind::IceConnectionStateChange, 3),
            remove(EventKind::ConnectionStateChange, 4),
            Command::Close,
        ]
    );
}

#[test]
fn close_without_handlers_only_shuts_down() {
    assert_eq!(peer().close(), vec![Command::Close]);
}

#[test]
fn close_leaves_the_engine_without_listeners() {
    let mut peer = peer();
    let mut bound = HashSet::new();
    carry_out(&mut bound, &peer.on_track(Some(Handler(1))));
    carry_out(&mut bound, &peer.on_ice_candidate(Some(Handler(2))));
    carry_out(&mut bound, &peer.on_ice_candidate(Some(Handler(5))));
    carry_out(&mut bound, &peer.on_connection_state_change(Some(Handler(4))));
    assert_eq!(bound.len(), 3);
    let commands = peer.close();
    assert_eq!(commands.last(), Some(&Command::Close));
    assert!(commands[..commands.len() - 1]
        .iter()
        .all(|command| matches!(command, Command::RemoveEventListener(_))));
    carry_out(&mut bound, &commands);
    assert!(bound.is_empty());
}

#[test]
fn dispatch_names_its_receiver() {
    let mut peer = peer();
    peer.on_track(Some(Handler(9)));
    match peer.track_event(1u8) {
        Dispatch::Deliver { handler, payload } => {
            assert_eq!(handler, Handler(9));
            assert_eq!(payload, 1u8);
        }
        other => panic!("not delivered: {other:?}"),
    }
}

//! What holds of the controller over more than one call.
//!
//! Every statement here is over the values that the contracts of the
//! operations speak of: what an [`RtcPeerConnection`] remembers, the commands
//! and requests that it hands out, and the listeners that the engine holds
//! once it has carried the commands out.
//!
//! [`RtcPeerConnection`]: crate::peer_connection::RtcPeerConnection

use vstd::prelude::*;

use crate::engine::{
    bound_after, bound_after_all, one_handler_per_event, Command, EventKind, Handler, Listener,
    Request, RtcIceConnectionState,
};
use crate::event::{Dispatch, IceCandidate};
use crate::peer_connection::{rebind_commands, RtcPeerConnectionView};

verus! {

/// Carrying out one command more is carrying out the others first.
proof fn lemma_bound_after_push(bound: Set<Listener>, commands: Seq<Command>, last: Command)
    ensures
        bound_after_all(bound, commands.push(last)) == bound_after(
            bound_after_all(bound, commands),
            last,
        ),
{
    assert(commands.push(last).drop_last() =~= commands);
}

/// Carrying out two runs of commands one after the other is carrying out
/// their concatenation.
proof fn lemma_bound_after_concat(bound: Set<Listener>, first: Seq<Command>, second: Seq<Command>)
    ensures
        bound_after_all(bound, first + second) == bound_after_all(
            bound_after_all(bound, first),
            second,
        ),
    decreases second.len(),
{
    if second.len() != 0 {
        lemma_bound_after_concat(bound, first, second.drop_last());
        assert((first + second).drop_last() =~= first + second.drop_last());
    }
}

/// What letting go of the listener of one kind of event does to the
/// listeners of the engine.
proof fn lemma_release(bound: Set<Listener>, event: EventKind, current: Option<Handler>)
    ensures
        bound_after_all(bound, rebind_commands(event, current, None)) == match current {
            Some(handler) => bound.remove(Listener { event, handler }),
            None => bound,
        },
{
    if let Some(handler) = current {
        let only = Command::RemoveEventListener(Listener { event, handler });
        lemma_bound_after_push(bound, Seq::<Command>::empty(), only);
    }
}

/// What binding a listener for one kind of event does to the listeners of
/// the engine.
proof fn lemma_install(bound: Set<Listener>, event: EventKind, next: Option<Handler>)
    ensures
        bound_after_all(bound, rebind_commands(event, None, next)) == match next {
            Some(handler) => bound.insert(Listener { event, handler }),
            None => bound,
        },
{
    if let Some(handler) = next {
        let only = Command::AddEventListener(Listener { event, handler });
        lemma_bound_after_push(bound, Seq::<Command>::empty(), only);
    }
}

/// A controller never has the engine hold two listeners for one kind of
/// event.
pub proof fn law_one_listener_per_event(peer: RtcPeerConnectionView)
    ensures
        one_handler_per_event(peer.listeners()),
{
}

/// Changing the handler of one kind of event keeps the engine in step with
/// the controller.
///
/// If the engine holds the listeners that the controller has had it bind,
/// then it does so again once it has carried out the commands of the change.
/// On the way it first lets go of the listener that was bound: after any
/// number of the commands it holds at most one listener for each kind of
/// event. The handlers of the other kinds are not touched.
pub proof fn law_rebinding_keeps_one_listener(
    before: RtcPeerConnectionView,
    event: EventKind,
    next: Option<Handler>,
)
    ensures
        ({
            let commands = rebind_commands(event, before.handler(event), next);
            let after = before.with_handler(event, next);
            &&& after.handler(event) == next
            &&& forall|other: EventKind| other != event ==> after.handler(other) == before.handler(other)
            &&& after.ice_restart == before.ice_restart
            &&& bound_after_all(before.listeners(), commands) == after.listeners()
            &&& forall|n: int|
                0 <= n <= commands.len() ==> one_handler_per_event(
                    #[trigger] bound_after_all(before.listeners(), commands.take(n)),
                )
        }),
{
    let current = before.handler(event);
    let commands = rebind_commands(event, current, next);
    let release = rebind_commands(event, current, None);
    let install = rebind_commands(event, None, next);
    let bound = before.listeners();
    lemma_bound_after_concat(bound, release, install);
    lemma_release(bound, event, current);
    let released = bound_after_all(bound, release);
    lemma_install(released, event, next);
    assert forall|n: int| 0 <= n <= commands.len() implies one_handler_per_event(
        #[trigger] bound_after_all(bound, commands.take(n)),
    ) by {
        if n == commands.len() {
            assert(commands.take(n) =~= commands);
        } else if n == release.len() {
            assert(commands.take(n) =~= release);
        }
    }
}

/// A handler that was replaced is never called again.
///
/// Once the handler `first` of one kind of event was set and then replaced
/// by `second`, the engine holds the listener of `second` for that kind and
/// no other, and every event of that kind that is passed on is passed on to
/// `second`.
pub proof fn law_replaced_handler_is_never_called<T>(
    before: RtcPeerConnectionView,
    event: EventKind,
    first: Handler,
    second: Handler,
)
    ensures
        ({
            let between = before.with_handler(event, Some(first));
            let after = between.with_handler(event, Some(second));
            let bound = bound_after_all(
                bound_after_all(
                    before.listeners(),
                    rebind_commands(event, before.handler(event), Some(first)),
                ),
                rebind_commands(event, Some(first), Some(second)),
            );
            &&& after.handler(event) == Some(second)
            &&& bound == after.listeners()
            &&& forall|handler: Handler|
                bound.contains(Listener { event, handler }) <==> handler == second
            &&& event == EventKind::Track ==> forall|track: T|
                (#[trigger] after.spec_track_event(track)).receiver() == Some(second)
            &&& event == EventKind::IceCandidate ==> forall|candidate: Option<IceCandidate>|
                (#[trigger] after.spec_ice_candidate_event(candidate)).receiver() == if candidate is Some {
                    Some(second)
                } else {
                    None
                }
            &&& event == EventKind::IceConnectionStateChange ==> forall|state: RtcIceConnectionState|
                (#[trigger] after.spec_ice_connection_state_change_event(state)).receiver() == Some(
                    second,
                )
            &&& event == EventKind::ConnectionStateChange ==> forall|raw: Option<String>|
                ({
                    let receiver = (#[trigger] after.spec_connection_state_change_event(
                        raw,
                    )).receiver();
                    receiver is None || receiver == Some(second)
                })
        }),
{
    let between = before.with_handler(event, Some(first));
    law_rebinding_keeps_one_listener(before, event, Some(first));
    law_rebinding_keeps_one_listener(between, event, Some(second));
}

/// An ICE restart that was asked for goes into the next offer, and into
/// that one alone.
///
/// The offer that is asked for after `restart_ice` restarts ICE, and leaves
/// no restart pending. An offer that is asked for right after it does not
/// restart ICE. Neither call touches a handler.
pub proof fn law_restart_ice_goes_into_one_offer(before: RtcPeerConnectionView)
    ensures
        ({
            let armed = before.spec_restart_ice();
            let (offered, first) = armed.spec_create_offer();
            let (again, second) = offered.spec_create_offer();
            &&& first == Request::CreateOffer { ice_restart: true }
            &&& !offered.ice_restart
            &&& second == Request::CreateOffer { ice_restart: false }
            &&& !again.ice_restart
            &&& forall|event: EventKind|
                {
                    &&& #[trigger] armed.handler(event) == before.handler(event)
                    &&& #[trigger] offered.handler(event) == before.handler(event)
                    &&& #[trigger] again.handler(event) == before.handler(event)
                }
        }),
{
}

/// The handler of candidates is called with every candidate that the engine
/// discovers, once, in the order of discovery, and with nothing else.
///
/// `events` is what the engine raises: a candidate, or the word that
/// gathering has ended, which holds none. With a handler of candidates set,
/// what it is called with is the candidates of `events`, in their order.
/// Without one, nothing is passed on.
pub proof fn law_candidates_are_delivered_in_order(
    peer: RtcPeerConnectionView,
    events: Seq<Option<IceCandidate>>,
)
    ensures
        peer.on_ice_candidate is Some ==> peer.candidates_delivered(events) == events.filter(
            |event: Option<IceCandidate>| event is Some,
        ).map_values(|event: Option<IceCandidate>| event->0),
        peer.on_ice_candidate is None ==> peer.candidates_delivered(events).len() == 0,
    decreases events.len(),
{
    reveal(Seq::filter);
    if events.len() != 0 {
        law_candidates_are_delivered_in_order(peer, events.drop_last());
    }
}

/// Ending the connection leaves the engine without a listener, and shuts it
/// down last.
///
/// If the engine holds the listeners that the controller has had it bind,
/// it holds none once it has carried out the commands of `close`, so that no
/// handler is called from then on. The last of the commands shuts the engine
/// down, and each one before it lets go of a listener.
pub proof fn law_close_releases_every_listener(peer: RtcPeerConnectionView)
    ensures
        ({
            let commands = peer.close_commands();
            &&& commands.len() >= 1
            &&& commands.last() == Command::Close
            &&& forall|i: int|
                0 <= i < commands.len() - 1 ==> (#[trigger] commands[i]) is RemoveEventListener
            &&& bound_after_all(peer.listeners(), commands) == Set::<Listener>::empty()
        }),
{
    let track = rebind_commands(EventKind::Track, peer.on_track, None);
    let candidate = rebind_commands(EventKind::IceCandidate, peer.on_ice_candidate, None);
    let ice = rebind_commands(
        EventKind::IceConnectionStateChange,
        peer.on_ice_connection_state_changed,
        None,
    );
    let connection = rebind_commands(
        EventKind::ConnectionStateChange,
        peer.on_connection_state_changed,
        None,
    );
    let releases = track + candidate + ice + connection;
    let commands = peer.close_commands();
    assert(commands =~= releases.push(Command::Close));
    let bound = peer.listeners();
    lemma_bound_after_push(bound, releases, Command::Close);
    lemma_bound_after_concat(bound, track + candidate + ice, connection);
    lemma_bound_after_concat(bound, track + candidate, ice);
    lemma_bound_after_concat(bound, track, candidate);
    let one = bound_after_all(bound, track);
    lemma_release(bound, EventKind::Track, peer.on_track);
    let two = bound_after_all(one, candidate);
    lemma_release(one, EventKind::IceCandidate, peer.on_ice_candidate);
    let three = bound_after_all(two, ice);
    lemma_release(two, EventKind::IceConnectionStateChange, peer.on_ice_connection_state_changed);
    lemma_release(three, EventKind::ConnectionStateChange, peer.on_connection_state_changed);
    assert(bound_after_all(bound, commands) =~= Set::<Listener>::empty());
}

} // verus!

//! Laws of the bridge, stated over the model of the registry and proved once
//! for every registry and every argument.

use vstd::prelude::*;
use crate::api::{description_of, done_of, stats_of};
use crate::correlator::{resolved, WaitOutcome};
use crate::error::BridgeError;
use crate::model::{Completion, MediaType, RequestKind, TrackEvent};
use crate::registry::{Bridge, BridgeView, PeerView, Reply, TrackView};
use crate::stream_sink::{Notifier, Sink};

verus! {

/// A new registry knows no peer, no track and no video sink.
pub proof fn law_new_registry_knows_nothing(peer_id: u64, track_id: Seq<char>, kind: MediaType, sink_id: i64)
    ensures
        !BridgeView::empty().has_peer(peer_id),
        !BridgeView::empty().has_track(track_id, kind),
        !BridgeView::empty().has_video_sink(sink_id),
{
}

/// For a peer that the registry does not know, no request can be dispatched
/// and the reported error is `NotFound`; no transceiver can be addressed; no
/// completion is accepted; and dispatching, completing, disposing and
/// notifying leave the registry as it is.
pub proof fn law_unknown_peer_is_not_found(
    view: BridgeView,
    peer_id: u64,
    kind: RequestKind,
    index: u32,
    request: u64,
    verdict: Result<Completion, String>,
)
    requires
        !view.has_peer(peer_id),
    ensures
        !view.can_dispatch(peer_id),
        view.dispatch_error(peer_id) == BridgeError::NotFound,
        view.after_dispatch(peer_id, kind) == view,
        !view.can_add_transceiver(peer_id),
        !view.has_transceiver(peer_id, index),
        !view.accepts(peer_id, request, verdict),
        view.after_completion(peer_id, request, verdict) == view,
        view.after_disposal(peer_id) == view,
        view.after_peer_silence(peer_id) == view,
{
}

/// Replacing a peer by one with the same identifier keeps every address: the
/// same identifiers are known and each is found at the same place.
pub proof fn law_peer_update_keeps_addresses(view: BridgeView, peer_id: u64, peer: PeerView, other: u64)
    requires
        view.consistent(),
        view.has_peer(peer_id),
        peer.id == peer_id,
    ensures
        view.with_peer(peer_id, peer).has_peer(other) == view.has_peer(other),
        view.with_peer(peer_id, peer).peer(peer_id) == peer,
        other != peer_id && view.has_peer(other) ==> view.with_peer(peer_id, peer).peer(other)
            == view.peer(other),
        peer.consistent() ==> view.with_peer(peer_id, peer).consistent(),
{
    let i = view.peer_index(peer_id);
    let after = view.with_peer(peer_id, peer);
    assert(after.peers.len() == view.peers.len());
    assert forall|j: int| 0 <= j < view.peers.len() implies (#[trigger] after.peers[j]).id
        == view.peers[j].id by {}
    if view.has_peer(other) {
        let j = view.peer_index(other);
        assert(after.peers[j].id == other);
        view.lemma_peer_at(j);
    }
    if after.has_peer(other) {
        let j = after.peer_index(other);
        assert(view.peers[j].id == other);
    }
    assert(after.peers[i].id == peer_id);
    assert forall|a: int, b: int| 0 <= a < b < after.peers.len() implies (#[trigger] after.peers[a]).id
        != (#[trigger] after.peers[b]).id by {
        assert(view.peers[a].id != view.peers[b].id);
    }
    let k = after.peer_index(peer_id);
    assert(0 <= k < after.peers.len() && after.peers[k].id == peer_id);
    if k != i {
        assert(view.peers[k].id == view.peers[i].id);
    }
    if other != peer_id && view.has_peer(other) {
        let j = view.peer_index(other);
        let m = after.peer_index(other);
        assert(0 <= m < after.peers.len() && after.peers[m].id == other);
        if m != j {
            assert(view.peers[m].id == view.peers[j].id);
        }
    }
    if peer.consistent() {
        assert forall|j: int| 0 <= j < after.peers.len() implies (#[trigger] after.peers[j]).consistent() by {
            if j != i {
                assert(view.peers[j].consistent());
            }
        }
    }
}

/// A request is fulfilled at most once: after a completion was accepted, no
/// second completion under the same identifier is accepted, whatever it
/// carries, and it leaves the registry as it is.
pub proof fn law_completion_is_single_use(
    view: BridgeView,
    peer_id: u64,
    request: u64,
    first: Result<Completion, String>,
    second: Result<Completion, String>,
)
    requires
        view.consistent(),
        view.accepts(peer_id, request, first),
    ensures
        !view.after_completion(peer_id, request, first).accepts(peer_id, request, second),
        view.after_completion(peer_id, request, first).after_completion(peer_id, request, second)
            == view.after_completion(peer_id, request, first),
{
    let peer = view.peer(peer_id);
    let settled = peer.settled(request);
    let k = peer.request_index(request);
    view.lemma_peer_at(view.peer_index(peer_id));
    assert(peer.consistent());
    assert(0 <= k < peer.pending.len() && peer.pending[k].id == request);
    assert forall|j: int| 0 <= j < settled.pending.len() implies (#[trigger] settled.pending[j]).id
        != request by {
        if j < k {
            assert(peer.pending[j].id < peer.pending[k].id);
        } else {
            assert(peer.pending[k].id < peer.pending[j + 1].id);
        }
    }
    assert(!settled.has_request(request));
    law_peer_update_keeps_addresses(view, peer_id, settled, peer_id);
}

/// Dispatching keeps the order of dispatch: the new request is the last of
/// those in flight, under an identifier that no request in flight has, and
/// the requests before it stay where they were.
pub proof fn law_dispatch_appends(view: BridgeView, peer_id: u64, kind: RequestKind)
    requires
        view.consistent(),
        view.can_dispatch(peer_id),
    ensures
        !view.peer(peer_id).has_request(view.peer(peer_id).next_request),
        view.after_dispatch(peer_id, kind).peer(peer_id).pending == view.peer(peer_id).pending.push(
            crate::registry::PendingView { id: view.peer(peer_id).next_request, kind },
        ),
        view.after_dispatch(peer_id, kind).consistent(),
{
    let peer = view.peer(peer_id);
    view.lemma_peer_at(view.peer_index(peer_id));
    assert(peer.consistent());
    assert forall|j: int| 0 <= j < peer.pending.len() implies (#[trigger] peer.pending[j]).id
        != peer.next_request by {}
    let after = peer.dispatched(kind);
    assert(after.consistent());
    law_peer_update_keeps_addresses(view, peer_id, after, peer_id);
}

/// Registering a device-change listener replaces exactly the previous one:
/// the listener handed in is the one that is kept, and the registry lets go
/// of one listener if it kept one before and of none otherwise.
pub proof fn law_listener_replacement_closes_previous(view: BridgeView, first: Notifier, second: Notifier)
    ensures
        view.after_device_listener(first).device_listener == Some(first),
        view.after_device_listener(first).closes == view.closes + if view.device_listener is Some {
            1nat
        } else {
            0nat
        },
        view.after_device_listener(first).after_device_listener(second).device_listener == Some(
            second,
        ),
        view.after_device_listener(first).after_device_listener(second).closes
            == view.after_device_listener(first).closes + 1,
{
}

/// After any number of registrations in a row only the last listener is
/// kept, and the registry has let go of every listener before it: of the one
/// that it kept at the start, if any, and of each registered one but the
/// last.
pub proof fn law_only_the_last_listener_listens(view: BridgeView, listeners: Seq<Notifier>)
    requires
        listeners.len() > 0,
    ensures
        view.after_device_listeners(listeners).device_listener == Some(listeners.last()),
        view.after_device_listeners(listeners).closes == view.closes + (listeners.len() - 1) + if view.device_listener is Some {
            1nat
        } else {
            0nat
        },
        view.after_device_listeners(listeners).peers == view.peers,
        view.after_device_listeners(listeners).tracks == view.tracks,
        view.after_device_listeners(listeners).video_sinks == view.video_sinks,
        view.after_device_listeners(listeners).abandoned == view.abandoned,
    decreases listeners.len(),
{
    if listeners.len() > 1 {
        law_only_the_last_listener_listens(view, listeners.drop_last());
    } else {
        assert(listeners.drop_last().len() == 0);
        assert(view.after_device_listeners(listeners.drop_last()) == view);
    }
}

/// Replacing a track by one with the same key keeps every address: the same
/// keys are known and each is found at the same place.
pub proof fn law_track_update_keeps_addresses(
    view: BridgeView,
    id: Seq<char>,
    kind: MediaType,
    track: TrackView,
    other_id: Seq<char>,
    other_kind: MediaType,
)
    requires
        view.consistent(),
        view.has_track(id, kind),
        track.id == id,
        track.kind == kind,
    ensures
        view.with_track(id, kind, track).has_track(other_id, other_kind) == view.has_track(
            other_id,
            other_kind,
        ),
        view.with_track(id, kind, track).track(id, kind) == track,
        view.with_track(id, kind, track).consistent(),
{
    let i = view.track_index(id, kind);
    let after = view.with_track(id, kind, track);
    assert(after.tracks.len() == view.tracks.len());
    assert forall|j: int| 0 <= j < view.tracks.len() implies (#[trigger] after.tracks[j]).id
        == view.tracks[j].id && after.tracks[j].kind == view.tracks[j].kind by {}
    if view.has_track(other_id, other_kind) {
        let j = view.track_index(other_id, other_kind);
        assert(after.tracks[j].id == other_id && after.tracks[j].kind == other_kind);
    }
    if after.has_track(other_id, other_kind) {
        let j = after.track_index(other_id, other_kind);
        assert(view.tracks[j].id == other_id && view.tracks[j].kind == other_kind);
    }
    assert(after.tracks[i].id == id && after.tracks[i].kind == kind);
    assert forall|a: int, b: int| 0 <= a < b < after.tracks.len() implies !((
    #[trigger] after.tracks[a]).id == (#[trigger] after.tracks[b]).id && after.tracks[a].kind
        == after.tracks[b].kind) by {
        assert(!(view.tracks[a].id == view.tracks[b].id && view.tracks[a].kind
            == view.tracks[b].kind));
    }
    let k = after.track_index(id, kind);
    assert(0 <= k < after.tracks.len() && after.tracks[k].id == id && after.tracks[k].kind == kind);
    if k != i {
        assert(view.tracks[k].id == view.tracks[i].id && view.tracks[k].kind == view.tracks[i].kind);
    }
    assert forall|j: int| 0 <= j < after.peers.len() implies (#[trigger] after.peers[j]).consistent() by {
        assert(view.peers[j].consistent());
    }
}

/// Registering a track observer replaces exactly the previous one: on a
/// registered track the observer handed in is the one that is kept, and the
/// registry lets go of one observer if the track had one before and of none
/// otherwise. A second registration lets go of the first observer.
pub proof fn law_observer_replacement_closes_previous(
    view: BridgeView,
    id: Seq<char>,
    kind: MediaType,
    first: Sink<TrackEvent>,
    second: Sink<TrackEvent>,
)
    requires
        view.consistent(),
        view.has_track(id, kind),
    ensures
        view.after_observer(id, kind, first).track(id, kind).observer == Some(first),
        view.after_observer(id, kind, first).closes == view.closes + if view.track(
            id,
            kind,
        ).observer is Some {
            1nat
        } else {
            0nat
        },
        view.after_observer(id, kind, first).after_observer(id, kind, second).track(
            id,
            kind,
        ).observer == Some(second),
        view.after_observer(id, kind, first).after_observer(id, kind, second).closes
            == view.after_observer(id, kind, first).closes + 1,
{
    let one = TrackView { observer: Some(first), ..view.track(id, kind) };
    view.lemma_track_at(view.track_index(id, kind));
    law_track_update_keeps_addresses(view, id, kind, one, id, kind);
    let mid = view.after_observer(id, kind, first);
    assert(mid.tracks == view.with_track(id, kind, one).tracks);
    assert(mid.has_track(id, kind) == view.with_track(id, kind, one).has_track(id, kind));
    assert(mid.track_index(id, kind) == view.with_track(id, kind, one).track_index(id, kind));
    assert(mid.track(id, kind) == one);
    assert(mid.consistent());
    let two = TrackView { observer: Some(second), ..mid.track(id, kind) };
    mid.lemma_track_at(mid.track_index(id, kind));
    law_track_update_keeps_addresses(mid, id, kind, two, id, kind);
    let end = mid.after_observer(id, kind, second);
    assert(end.tracks == mid.with_track(id, kind, two).tracks);
    assert(end.track_index(id, kind) == mid.with_track(id, kind, two).track_index(id, kind));
}

/// A new peer keeps the listener that was handed in with it, has no
/// transceiver and no request in flight, and leaves every other peer as it
/// was.
pub proof fn law_new_peer_keeps_its_listener(
    view: BridgeView,
    peer_id: u64,
    events: Sink<crate::model::PeerConnectionEvent>,
    other: u64,
)
    requires
        view.consistent(),
        !view.has_peer(peer_id),
    ensures
        view.with_new_peer(PeerView::fresh(peer_id, events)).has_peer(peer_id),
        view.with_new_peer(PeerView::fresh(peer_id, events)).peer(peer_id) == PeerView::fresh(
            peer_id,
            events,
        ),
        view.with_new_peer(PeerView::fresh(peer_id, events)).peer(peer_id).events == Some(events),
        view.with_new_peer(PeerView::fresh(peer_id, events)).consistent(),
        view.has_peer(other) ==> view.with_new_peer(PeerView::fresh(peer_id, events)).has_peer(
            other,
        ) && view.with_new_peer(PeerView::fresh(peer_id, events)).peer(other) == view.peer(other),
{
    let fresh = PeerView::fresh(peer_id, events);
    let after = view.with_new_peer(fresh);
    let n = view.peers.len() as int;
    assert(after.peers[n] == fresh);
    assert(after.peers[n].id == peer_id);
    assert forall|a: int, b: int| 0 <= a < b < after.peers.len() implies (#[trigger] after.peers[a]).id
        != (#[trigger] after.peers[b]).id by {
        if b < n {
            assert(view.peers[a].id != view.peers[b].id);
        } else {
            assert(view.peers[a].id != peer_id);
        }
    }
    assert forall|j: int| 0 <= j < after.peers.len() implies (#[trigger] after.peers[j]).consistent() by {
        if j < n {
            assert(view.peers[j].consistent());
        }
    }
    after.lemma_peer_at(n);
    if view.has_peer(other) {
        let j = view.peer_index(other);
        assert(after.peers[j] == view.peers[j]);
        after.lemma_peer_at(j);
    }
}

/// The registry lets go of a listener that turned out to be gone once: a
/// second failed notification changes nothing.
pub proof fn law_silence_is_idempotent(view: BridgeView)
    ensures
        view.after_device_silence().after_device_silence() == view.after_device_silence(),
        view.after_device_silence().device_listener is None,
{
}

/// The registry lets go of the listener of a peer that turned out to be gone
/// once: the peer stays, it keeps no listener afterwards, and a second failed
/// notification changes nothing.
pub proof fn law_peer_silence_is_idempotent(view: BridgeView, peer_id: u64)
    requires
        view.consistent(),
    ensures
        view.after_peer_silence(peer_id).has_peer(peer_id) == view.has_peer(peer_id),
        view.has_peer(peer_id) ==> view.after_peer_silence(peer_id).peer(peer_id).events is None,
        view.after_peer_silence(peer_id).after_peer_silence(peer_id) == view.after_peer_silence(
            peer_id,
        ),
{
    if view.has_peer(peer_id) && view.peer(peer_id).events is Some {
        view.lemma_peer_at(view.peer_index(peer_id));
        law_peer_update_keeps_addresses(view, peer_id, view.peer(peer_id).silenced(), peer_id);
        let after = view.after_peer_silence(peer_id);
        let updated = view.with_peer(peer_id, view.peer(peer_id).silenced());
        assert(after.peers == updated.peers);
        assert(after.has_peer(peer_id) == updated.has_peer(peer_id));
        assert(after.peer_index(peer_id) == updated.peer_index(peer_id));
    }
}

/// The registry lets go of the observer of a track that turned out to be
/// gone once: the track stays, it keeps no observer afterwards, and a second
/// failed notification changes nothing.
pub proof fn law_track_silence_is_idempotent(view: BridgeView, id: Seq<char>, kind: MediaType)
    requires
        view.consistent(),
    ensures
        view.after_track_silence(id, kind).has_track(id, kind) == view.has_track(id, kind),
        view.has_track(id, kind) ==> view.after_track_silence(id, kind).track(id, kind).observer
            is None,
        view.after_track_silence(id, kind).after_track_silence(id, kind)
            == view.after_track_silence(id, kind),
{
    if view.has_track(id, kind) && view.track(id, kind).observer is Some {
        let silent = TrackView { observer: None, ..view.track(id, kind) };
        view.lemma_track_at(view.track_index(id, kind));
        law_track_update_keeps_addresses(view, id, kind, silent, id, kind);
        let after = view.after_track_silence(id, kind);
        let updated = view.with_track(id, kind, silent);
        assert(after.tracks == updated.tracks);
        assert(after.has_track(id, kind) == updated.has_track(id, kind));
        assert(after.track_index(id, kind) == updated.track_index(id, kind));
    }
}

/// Disposing a peer cascades: the peer and its transceivers become
/// unaddressable, no completion for it is accepted any more, the registry
/// lets go of its listener, and each of its requests in flight counts as
/// given up.
pub proof fn law_disposal_cascades(
    view: BridgeView,
    peer_id: u64,
    index: u32,
    request: u64,
    verdict: Result<Completion, String>,
)
    requires
        view.consistent(),
        view.has_peer(peer_id),
    ensures
        !view.after_disposal(peer_id).has_peer(peer_id),
        !view.after_disposal(peer_id).has_transceiver(peer_id, index),
        !view.after_disposal(peer_id).can_dispatch(peer_id),
        !view.after_disposal(peer_id).accepts(peer_id, request, verdict),
        view.after_disposal(peer_id).abandoned == view.abandoned + view.peer(peer_id).pending.len(),
        view.after_disposal(peer_id).closes == view.closes + if view.peer(peer_id).events is Some {
            1nat
        } else {
            0nat
        },
        view.after_disposal(peer_id).consistent(),
{
    let i = view.peer_index(peer_id);
    let after = view.after_disposal(peer_id);
    assert(0 <= i < view.peers.len() && view.peers[i].id == peer_id);
    assert forall|j: int| 0 <= j < after.peers.len() implies (#[trigger] after.peers[j]).id
        != peer_id by {
        if j < i {
            assert(view.peers[j].id != view.peers[i].id);
        } else {
            assert(view.peers[i].id != view.peers[j + 1].id);
        }
    }
    assert forall|a: int, b: int| 0 <= a < b < after.peers.len() implies (#[trigger] after.peers[a]).id
        != (#[trigger] after.peers[b]).id by {
        let a0 = if a < i { a } else { a + 1 };
        let b0 = if b < i { b } else { b + 1 };
        assert(view.peers[a0].id != view.peers[b0].id);
    }
    assert forall|j: int| 0 <= j < after.peers.len() implies (#[trigger] after.peers[j]).consistent() by {
        let j0 = if j < i { j } else { j + 1 };
        assert(view.peers[j0].consistent());
    }
}

/// Disposing a peer twice is a no-op the second time.
pub proof fn law_second_disposal_is_noop(view: BridgeView, peer_id: u64)
    requires
        view.consistent(),
    ensures
        view.after_disposal(peer_id).after_disposal(peer_id) == view.after_disposal(peer_id),
{
    if view.has_peer(peer_id) {
        law_disposal_cascades(view, peer_id, 0, 0, Ok(Completion::Done));
    }
}

/// Disposing a peer leaves every other peer as it was.
pub proof fn law_disposal_spares_others(view: BridgeView, peer_id: u64, other: u64)
    requires
        view.consistent(),
        other != peer_id,
    ensures
        view.after_disposal(peer_id).has_peer(other) == view.has_peer(other),
        view.has_peer(other) ==> view.after_disposal(peer_id).peer(other) == view.peer(other),
{
    if view.has_peer(peer_id) {
        let i = view.peer_index(peer_id);
        let after = view.after_disposal(peer_id);
        law_disposal_cascades(view, peer_id, 0, 0, Ok(Completion::Done));
        if view.has_peer(other) {
            let j = view.peer_index(other);
            let j1 = if j < i { j } else { j - 1 };
            assert(after.peers[j1] == view.peers[j]);
            assert(after.peers[j1].id == other);
            after.lemma_peer_at(j1);
        }
        if after.has_peer(other) {
            let m = after.peer_index(other);
            let m0 = if m < i { m } else { m + 1 };
            assert(view.peers[m0].id == other);
        }
    }
}

/// Disposing a track twice is a no-op the second time, and the disposed key
/// is unknown afterwards.
pub proof fn law_second_track_disposal_is_noop(view: BridgeView, track_id: Seq<char>, kind: MediaType)
    requires
        view.consistent(),
    ensures
        !view.after_track_disposal(track_id, kind).has_track(track_id, kind),
        view.after_track_disposal(track_id, kind).after_track_disposal(track_id, kind)
            == view.after_track_disposal(track_id, kind),
{
    if view.has_track(track_id, kind) {
        let i = view.track_index(track_id, kind);
        let after = view.after_track_disposal(track_id, kind);
        assert forall|j: int| 0 <= j < after.tracks.len() implies !((#[trigger] after.tracks[j]).id
            == track_id && after.tracks[j].kind == kind) by {
            if j < i {
                assert(!(view.tracks[j].id == view.tracks[i].id && view.tracks[j].kind
                    == view.tracks[i].kind));
            } else {
                assert(!(view.tracks[i].id == view.tracks[j + 1].id && view.tracks[i].kind
                    == view.tracks[j + 1].kind));
            }
        }
    }
}

/// A wait reports a timeout exactly when its time ran out without a
/// completion, and a closed channel exactly when the producer was dropped.
pub proof fn law_timeout_only_when_time_ran_out<T>(outcome: WaitOutcome<T>)
    ensures
        resolved(outcome) == Err::<T, BridgeError>(BridgeError::Timeout) <==> outcome is Elapsed,
        resolved(outcome) == Err::<T, BridgeError>(BridgeError::ChannelClosed)
            <==> outcome is Disconnected,
        resolved(outcome) is Ok <==> outcome is Received,
{
}

/// A waiting caller learns how its wait ended, whatever the kind of its
/// request: it gets a timeout exactly when its time ran out, the engine's
/// words exactly when the engine reported a failure, and a value exactly when
/// the engine completed the request with a value of the right kind.
pub proof fn law_waiting_callers_learn_how_it_ended(outcome: WaitOutcome<Reply>)
    ensures
        description_of(outcome) matches Err(BridgeError::Timeout) <==> outcome is Elapsed,
        done_of(outcome) matches Err(BridgeError::Timeout) <==> outcome is Elapsed,
        stats_of(outcome) matches Err(BridgeError::Timeout) <==> outcome is Elapsed,
        description_of(outcome) matches Err(BridgeError::Engine(_)) <==> outcome matches WaitOutcome::Received(
            Err(_),
        ),
        done_of(outcome) matches Err(BridgeError::Engine(_)) <==> outcome matches WaitOutcome::Received(
            Err(_),
        ),
        stats_of(outcome) matches Err(BridgeError::Engine(_)) <==> outcome matches WaitOutcome::Received(
            Err(_),
        ),
        description_of(outcome) is Ok <==> outcome matches WaitOutcome::Received(
            Ok(Completion::Description(_)),
        ),
        done_of(outcome) is Ok <==> outcome matches WaitOutcome::Received(Ok(Completion::Done)),
        stats_of(outcome) is Ok <==> outcome matches WaitOutcome::Received(Ok(Completion::Stats(_))),
        outcome is Disconnected ==> {
            &&& description_of(outcome) matches Err(BridgeError::ChannelClosed)
            &&& done_of(outcome) matches Err(BridgeError::ChannelClosed)
            &&& stats_of(outcome) matches Err(BridgeError::ChannelClosed)
        },
{
}

/// In a well-formed registry no identifier and no key is registered twice,
/// and the requests in flight of every peer carry identifiers that grow with
/// the order of their dispatch.
pub proof fn law_registry_is_consistent(bridge: &Bridge)
    requires
        bridge.wf(),
    ensures
        bridge@.consistent(),
{
}

} // verus!

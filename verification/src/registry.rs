//! The registry of live entities and its mathematical model.
//!
//! A [`Bridge`] maps peer identifiers, track keys and video sink identifiers
//! to what the bridge has to remember about them: the listener of a peer or a
//! track, the transceivers of a peer in the order in which they were added,
//! and the requests that the engine has not completed yet. Contracts speak of
//! its [`BridgeView`].

use vstd::prelude::*;
use crate::correlator::{create, Producer, Waiter};
use crate::error::BridgeError;
use crate::model::{Completion, MediaType, PeerConnectionEvent, RequestKind, TrackEvent};
use crate::stream_sink::{Notifier, Sink};

verus! {

/// What travels through a pending request: the engine's value, or the
/// engine's words on why it failed.
pub type Reply = Result<Completion, String>;

/// Model of a request that the engine has not completed yet.
pub struct PendingView {
    pub id: u64,
    pub kind: RequestKind,
}

/// Model of an open peer connection.
pub struct PeerView {
    pub id: u64,
    /// The listener that takes the events of this peer, if one is kept.
    pub events: Option<Sink<PeerConnectionEvent>>,
    /// Media type of each transceiver. The position is the transceiver's index.
    pub transceivers: Seq<MediaType>,
    /// Requests in flight, in the order of their dispatch.
    pub pending: Seq<PendingView>,
    /// The identifier that the next request of this peer gets.
    pub next_request: u64,
}

/// Model of a registered track.
pub struct TrackView {
    pub id: Seq<char>,
    pub kind: MediaType,
    /// The observer that takes the events of this track, if one is kept.
    pub observer: Option<Sink<TrackEvent>>,
}

/// Model of a video sink.
pub struct VideoSinkView {
    pub id: i64,
    pub track_id: Seq<char>,
    pub callback_ptr: u64,
}

/// Model of the whole registry.
pub struct BridgeView {
    pub peers: Seq<PeerView>,
    pub tracks: Seq<TrackView>,
    pub video_sinks: Seq<VideoSinkView>,
    /// The listener that takes device-change notifications, if one is kept.
    pub device_listener: Option<Notifier>,
    pub fake_media: bool,
    /// How many listeners the registry has let go of so far. Letting go of a
    /// listener drops the registry's handle on it, which ends its stream
    /// unless somebody else holds a clone.
    pub closes: nat,
    /// How many pending requests have been given up by disposal so far.
    pub abandoned: nat,
}

impl PeerView {
    /// A peer right after its creation, with the listener for its events.
    pub open spec fn fresh(id: u64, events: Sink<PeerConnectionEvent>) -> PeerView {
        PeerView {
            id,
            events: Some(events),
            transceivers: Seq::empty(),
            pending: Seq::empty(),
            next_request: 0,
        }
    }

    /// Whether a request with this identifier is in flight.
    pub open spec fn has_request(self, request: u64) -> bool {
        exists|k: int| 0 <= k < self.pending.len() && #[trigger] self.pending[k].id == request
    }

    /// Position of the request with this identifier among those in flight.
    pub open spec fn request_index(self, request: u64) -> int {
        choose|k: int| 0 <= k < self.pending.len() && #[trigger] self.pending[k].id == request
    }

    /// The request in flight with this identifier.
    pub open spec fn request(self, request: u64) -> PendingView {
        self.pending[self.request_index(request)]
    }

    /// This peer after one more request of the given kind was dispatched.
    pub open spec fn dispatched(self, kind: RequestKind) -> PeerView
        recommends
            self.next_request < u64::MAX,
    {
        PeerView {
            pending: self.pending.push(PendingView { id: self.next_request, kind }),
            next_request: (self.next_request + 1) as u64,
            ..self
        }
    }

    /// This peer after the request with this identifier left the registry.
    pub open spec fn settled(self, request: u64) -> PeerView {
        PeerView { pending: self.pending.remove(self.request_index(request)), ..self }
    }

    /// This peer after a transceiver of the given media type was added.
    pub open spec fn with_transceiver(self, media_type: MediaType) -> PeerView {
        PeerView { transceivers: self.transceivers.push(media_type), ..self }
    }

    /// This peer after the registry let go of its listener.
    pub open spec fn silenced(self) -> PeerView {
        PeerView { events: None, ..self }
    }

    /// Identifiers of requests in flight grow with the order of dispatch and
    /// lie below the next identifier; transceiver indices fit into 32 bits.
    pub open spec fn consistent(self) -> bool {
        &&& forall|a: int, b: int|
            0 <= a < b < self.pending.len() ==> (#[trigger] self.pending[a]).id
                < (#[trigger] self.pending[b]).id
        &&& forall|a: int|
            0 <= a < self.pending.len() ==> (#[trigger] self.pending[a]).id < self.next_request
        &&& self.transceivers.len() <= u32::MAX
    }
}

impl BridgeView {
    /// The registry before anything was registered.
    pub open spec fn empty() -> BridgeView {
        BridgeView {
            peers: Seq::empty(),
            tracks: Seq::empty(),
            video_sinks: Seq::empty(),
            device_listener: None,
            fake_media: false,
            closes: 0,
            abandoned: 0,
        }
    }

    /// Whether a peer connection with this identifier is open.
    pub open spec fn has_peer(self, id: u64) -> bool {
        exists|i: int| 0 <= i < self.peers.len() && #[trigger] self.peers[i].id == id
    }

    /// Position of the peer with this identifier.
    pub open spec fn peer_index(self, id: u64) -> int {
        choose|i: int| 0 <= i < self.peers.len() && #[trigger] self.peers[i].id == id
    }

    /// The peer with this identifier.
    pub open spec fn peer(self, id: u64) -> PeerView {
        self.peers[self.peer_index(id)]
    }

    /// Whether the peer exists and has a transceiver with this index.
    pub open spec fn has_transceiver(self, id: u64, index: u32) -> bool {
        self.has_peer(id) && index < self.peer(id).transceivers.len()
    }

    /// The registry with the peer of this identifier replaced.
    pub open spec fn with_peer(self, id: u64, peer: PeerView) -> BridgeView {
        BridgeView { peers: self.peers.update(self.peer_index(id), peer), ..self }
    }

    /// The registry with one more peer.
    pub open spec fn with_new_peer(self, peer: PeerView) -> BridgeView {
        BridgeView { peers: self.peers.push(peer), ..self }
    }

    /// The registry without the peer of this identifier.
    pub open spec fn without_peer(self, id: u64) -> BridgeView {
        BridgeView { peers: self.peers.remove(self.peer_index(id)), ..self }
    }

    /// Whether a track with this key is registered.
    pub open spec fn has_track(self, id: Seq<char>, kind: MediaType) -> bool {
        exists|i: int|
            0 <= i < self.tracks.len() && (#[trigger] self.tracks[i]).id == id && self.tracks[i].kind
                == kind
    }

    /// Position of the track with this key.
    pub open spec fn track_index(self, id: Seq<char>, kind: MediaType) -> int {
        choose|i: int|
            0 <= i < self.tracks.len() && (#[trigger] self.tracks[i]).id == id && self.tracks[i].kind
                == kind
    }

    /// The track with this key.
    pub open spec fn track(self, id: Seq<char>, kind: MediaType) -> TrackView {
        self.tracks[self.track_index(id, kind)]
    }

    /// The registry with the track of this key replaced.
    pub open spec fn with_track(self, id: Seq<char>, kind: MediaType, track: TrackView) -> BridgeView {
        BridgeView { tracks: self.tracks.update(self.track_index(id, kind), track), ..self }
    }

    /// The registry with one more track.
    pub open spec fn with_new_track(self, track: TrackView) -> BridgeView {
        BridgeView { tracks: self.tracks.push(track), ..self }
    }

    /// The registry without the track of this key.
    pub open spec fn without_track(self, id: Seq<char>, kind: MediaType) -> BridgeView {
        BridgeView { tracks: self.tracks.remove(self.track_index(id, kind)), ..self }
    }

    /// Whether a video sink with this identifier exists.
    pub open spec fn has_video_sink(self, id: i64) -> bool {
        exists|i: int| 0 <= i < self.video_sinks.len() && #[trigger] self.video_sinks[i].id == id
    }

    /// Position of the video sink with this identifier.
    pub open spec fn video_sink_index(self, id: i64) -> int {
        choose|i: int| 0 <= i < self.video_sinks.len() && #[trigger] self.video_sinks[i].id == id
    }

    /// The registry with one more video sink.
    pub open spec fn with_new_video_sink(self, sink: VideoSinkView) -> BridgeView {
        BridgeView { video_sinks: self.video_sinks.push(sink), ..self }
    }

    /// The registry without the video sink of this identifier.
    pub open spec fn without_video_sink(self, id: i64) -> BridgeView {
        BridgeView { video_sinks: self.video_sinks.remove(self.video_sink_index(id)), ..self }
    }

    /// The registry after it let go of `count` more listeners.
    pub open spec fn with_closes(self, count: nat) -> BridgeView {
        BridgeView { closes: self.closes + count, ..self }
    }

    /// The registry after `count` more pending requests were given up.
    pub open spec fn with_abandoned(self, count: nat) -> BridgeView {
        BridgeView { abandoned: self.abandoned + count, ..self }
    }

    /// Whether a request can be dispatched for this peer: the peer exists
    /// and its request identifiers are not used up.
    pub open spec fn can_dispatch(self, id: u64) -> bool {
        self.has_peer(id) && self.peer(id).next_request < u64::MAX
    }

    /// The registry after an attempt to dispatch a request of the given kind
    /// for this peer.
    pub open spec fn after_dispatch(self, id: u64, kind: RequestKind) -> BridgeView {
        if self.can_dispatch(id) {
            self.with_peer(id, self.peer(id).dispatched(kind))
        } else {
            self
        }
    }

    /// Why no request can be dispatched for this peer.
    pub open spec fn dispatch_error(self, id: u64) -> BridgeError {
        if self.has_peer(id) {
            BridgeError::ChannelClosed
        } else {
            BridgeError::NotFound
        }
    }

    /// Whether a completion with this verdict settles a request in flight:
    /// the request exists, and a value fits its kind. A failure fits every
    /// kind.
    pub open spec fn accepts(self, id: u64, request: u64, verdict: Result<Completion, String>) -> bool {
        &&& self.has_peer(id)
        &&& self.peer(id).has_request(request)
        &&& verdict matches Ok(value) ==> value.kind_spec() == self.peer(id).request(request).kind
    }

    /// The registry after the engine reported this verdict for a request.
    pub open spec fn after_completion(
        self,
        id: u64,
        request: u64,
        verdict: Result<Completion, String>,
    ) -> BridgeView {
        if self.accepts(id, request, verdict) {
            self.with_peer(id, self.peer(id).settled(request))
        } else {
            self
        }
    }

    /// The registry after the peer of this identifier was disposed: the peer
    /// is gone, the registry has let go of its listener, and its requests in
    /// flight are given up.
    pub open spec fn after_disposal(self, id: u64) -> BridgeView {
        if self.has_peer(id) {
            self.without_peer(id).with_closes(
                if self.peer(id).events is Some {
                    1
                } else {
                    0
                },
            ).with_abandoned(self.peer(id).pending.len())
        } else {
            self
        }
    }

    /// Whether a transceiver can be added to this peer: the peer exists and
    /// the new index fits into 32 bits.
    pub open spec fn can_add_transceiver(self, id: u64) -> bool {
        self.has_peer(id) && self.peer(id).transceivers.len() < u32::MAX
    }

    /// The registry after a track with this key was announced: a key that is
    /// registered already stays as it is.
    pub open spec fn registering(self, id: Seq<char>, kind: MediaType) -> BridgeView {
        if self.has_track(id, kind) {
            self
        } else {
            self.with_new_track(TrackView { id, kind, observer: None })
        }
    }

    /// The registry after each of these tracks was announced, first to last.
    pub open spec fn registering_all(self, keys: Seq<(Seq<char>, MediaType)>) -> BridgeView
        decreases keys.len(),
    {
        if keys.len() == 0 {
            self
        } else {
            self.registering_all(keys.drop_last()).registering(keys.last().0, keys.last().1)
        }
    }

    /// The registry after the track of this key was disposed: the track is
    /// gone and the registry has let go of its observer.
    pub open spec fn after_track_disposal(self, id: Seq<char>, kind: MediaType) -> BridgeView {
        if self.has_track(id, kind) {
            self.without_track(id, kind).with_closes(
                if self.track(id, kind).observer is Some {
                    1
                } else {
                    0
                },
            )
        } else {
            self
        }
    }

    /// The registry after an observer was handed in for the track of this
    /// key. On a registered track it takes the place of the previous
    /// observer, which the registry lets go of. For an unknown track the
    /// registry lets go of the new observer instead.
    pub open spec fn after_observer(
        self,
        id: Seq<char>,
        kind: MediaType,
        observer: Sink<TrackEvent>,
    ) -> BridgeView {
        if self.has_track(id, kind) {
            self.with_track(
                id,
                kind,
                TrackView { observer: Some(observer), ..self.track(id, kind) },
            ).with_closes(
                if self.track(id, kind).observer is Some {
                    1
                } else {
                    0
                },
            )
        } else {
            self.with_closes(1)
        }
    }

    /// The registry after a device-change listener was handed in: it takes
    /// the place of the previous one, which the registry lets go of.
    pub open spec fn after_device_listener(self, listener: Notifier) -> BridgeView {
        BridgeView {
            device_listener: Some(listener),
            closes: self.closes + if self.device_listener is Some {
                1nat
            } else {
                0nat
            },
            ..self
        }
    }

    /// The registry after each of these device-change listeners was handed
    /// in, first to last.
    pub open spec fn after_device_listeners(self, listeners: Seq<Notifier>) -> BridgeView
        decreases listeners.len(),
    {
        if listeners.len() == 0 {
            self
        } else {
            self.after_device_listeners(listeners.drop_last()).after_device_listener(
                listeners.last(),
            )
        }
    }

    /// The registry after the device-change listener turned out to be gone.
    pub open spec fn after_device_silence(self) -> BridgeView {
        if self.device_listener is Some {
            BridgeView { device_listener: None, closes: self.closes + 1, ..self }
        } else {
            self
        }
    }

    /// The registry after the listener of this peer turned out to be gone.
    pub open spec fn after_peer_silence(self, id: u64) -> BridgeView {
        if self.has_peer(id) && self.peer(id).events is Some {
            self.with_peer(id, self.peer(id).silenced()).with_closes(1)
        } else {
            self
        }
    }

    /// The registry after the observer of this track turned out to be gone.
    pub open spec fn after_track_silence(self, id: Seq<char>, kind: MediaType) -> BridgeView {
        if self.has_track(id, kind) && self.track(id, kind).observer is Some {
            self.with_track(
                id,
                kind,
                TrackView { observer: None, ..self.track(id, kind) },
            ).with_closes(1)
        } else {
            self
        }
    }

    /// No identifier or key is registered twice, and every peer is
    /// consistent.
    pub open spec fn consistent(self) -> bool {
        &&& forall|i: int, j: int|
            0 <= i < j < self.peers.len() ==> (#[trigger] self.peers[i]).id
                != (#[trigger] self.peers[j]).id
        &&& forall|i: int| 0 <= i < self.peers.len() ==> (#[trigger] self.peers[i]).consistent()
        &&& forall|i: int, j: int|
            0 <= i < j < self.tracks.len() ==> !((#[trigger] self.tracks[i]).id
                == (#[trigger] self.tracks[j]).id && self.tracks[i].kind == self.tracks[j].kind)
        &&& forall|i: int, j: int|
            0 <= i < j < self.video_sinks.len() ==> (#[trigger] self.video_sinks[i]).id
                != (#[trigger] self.video_sinks[j]).id
    }

    /// In a consistent registry the peer at position `i` is the one that its
    /// identifier finds.
    pub proof fn lemma_peer_at(self, i: int)
        requires
            self.consistent(),
            0 <= i < self.peers.len(),
        ensures
            self.has_peer(self.peers[i].id),
            self.peer_index(self.peers[i].id) == i,
    {
        let id = self.peers[i].id;
        let j = self.peer_index(id);
        assert(0 <= j < self.peers.len() && self.peers[j].id == id);
    }

    /// In a consistent registry the track at position `i` is the one that its
    /// key finds.
    pub proof fn lemma_track_at(self, i: int)
        requires
            self.consistent(),
            0 <= i < self.tracks.len(),
        ensures
            self.has_track(self.tracks[i].id, self.tracks[i].kind),
            self.track_index(self.tracks[i].id, self.tracks[i].kind) == i,
    {
        let id = self.tracks[i].id;
        let kind = self.tracks[i].kind;
        let j = self.track_index(id, kind);
        assert(0 <= j < self.tracks.len() && self.tracks[j].id == id && self.tracks[j].kind == kind);
    }

    /// In a consistent registry the video sink at position `i` is the one
    /// that its identifier finds.
    pub proof fn lemma_video_sink_at(self, i: int)
        requires
            self.consistent(),
            0 <= i < self.video_sinks.len(),
        ensures
            self.has_video_sink(self.video_sinks[i].id),
            self.video_sink_index(self.video_sinks[i].id) == i,
    {
        let id = self.video_sinks[i].id;
        let j = self.video_sink_index(id);
        assert(0 <= j < self.video_sinks.len() && self.video_sinks[j].id == id);
    }
}

impl PeerView {
    /// In a consistent peer the request at position `k` is the one that its
    /// identifier finds.
    pub proof fn lemma_request_at(self, k: int)
        requires
            self.consistent(),
            0 <= k < self.pending.len(),
        ensures
            self.has_request(self.pending[k].id),
            self.request_index(self.pending[k].id) == k,
    {
        let id = self.pending[k].id;
        let j = self.request_index(id);
        assert(0 <= j < self.pending.len() && self.pending[j].id == id);
        if j < k {
            assert(self.pending[j].id < self.pending[k].id);
        }
        if k < j {
            assert(self.pending[k].id < self.pending[j].id);
        }
    }
}

/// A request that the engine has not completed yet.
pub struct PendingRequest {
    pub(crate) id: u64,
    pub(crate) kind: RequestKind,
    pub(crate) producer: Producer<Reply>,
}

/// An open peer connection.
pub struct Peer {
    pub(crate) id: u64,
    pub(crate) events: Option<Sink<PeerConnectionEvent>>,
    pub(crate) transceivers: Vec<MediaType>,
    pub(crate) pending: Vec<PendingRequest>,
    pub(crate) next_request: u64,
}

/// A registered track.
pub struct Track {
    pub(crate) id: String,
    pub(crate) kind: MediaType,
    pub(crate) observer: Option<Sink<TrackEvent>>,
}

/// A video sink attached to a track.
pub struct VideoSink {
    pub(crate) id: i64,
    pub(crate) track_id: String,
    pub(crate) callback_ptr: u64,
}

/// The registry that every bridge operation works on. The embedding program
/// keeps one behind its engine-wide lock.
pub struct Bridge {
    pub(crate) peers: Vec<Peer>,
    pub(crate) tracks: Vec<Track>,
    pub(crate) video_sinks: Vec<VideoSink>,
    pub(crate) device_listener: Option<Notifier>,
    pub(crate) fake_media: bool,
    pub(crate) closes: Ghost<nat>,
    pub(crate) abandoned: Ghost<nat>,
}

impl PendingRequest {
    pub open(crate) spec fn view(&self) -> PendingView {
        PendingView { id: self.id, kind: self.kind }
    }
}

impl Peer {
    pub open(crate) spec fn view(&self) -> PeerView {
        PeerView {
            id: self.id,
            events: self.events,
            transceivers: self.transceivers@,
            pending: self.pending@.map_values(|r: PendingRequest| r.view()),
            next_request: self.next_request,
        }
    }
}

impl Track {
    pub open(crate) spec fn view(&self) -> TrackView {
        TrackView { id: self.id@, kind: self.kind, observer: self.observer }
    }
}

impl VideoSink {
    pub open(crate) spec fn view(&self) -> VideoSinkView {
        VideoSinkView { id: self.id, track_id: self.track_id@, callback_ptr: self.callback_ptr }
    }
}

impl Bridge {
    /// The mathematical model of this registry.
    pub open(crate) spec fn view(&self) -> BridgeView {
        BridgeView {
            peers: self.peers@.map_values(|p: Peer| p.view()),
            tracks: self.tracks@.map_values(|t: Track| t.view()),
            video_sinks: self.video_sinks@.map_values(|s: VideoSink| s.view()),
            device_listener: self.device_listener,
            fake_media: self.fake_media,
            closes: self.closes@,
            abandoned: self.abandoned@,
        }
    }

    /// The registry is well formed: its model is consistent.
    pub open(crate) spec fn wf(&self) -> bool {
        self.view().consistent()
    }

    /// An empty registry.
    pub fn new() -> (bridge: Bridge)
        ensures
            bridge.wf(),
            bridge@ == BridgeView::empty(),
    {
        let bridge = Bridge {
            peers: Vec::new(),
            tracks: Vec::new(),
            video_sinks: Vec::new(),
            device_listener: None,
            fake_media: false,
            closes: Ghost(0),
            abandoned: Ghost(0),
        };
        assert(bridge.view().peers =~= Seq::empty());
        assert(bridge.view().tracks =~= Seq::empty());
        assert(bridge.view().video_sinks =~= Seq::empty());
        bridge
    }

    /// Whether a peer connection with this identifier is open.
    pub fn has_peer(&self, peer_id: u64) -> (known: bool)
        requires
            self.wf(),
        ensures
            known == self@.has_peer(peer_id),
    {
        self.find_peer(peer_id).is_some()
    }

    /// How many requests of this peer the engine has not completed yet, or
    /// nothing if the peer does not exist.
    pub fn pending_requests(&self, peer_id: u64) -> (count: Option<usize>)
        requires
            self.wf(),
        ensures
            count == if self@.has_peer(peer_id) {
                Some(self@.peer(peer_id).pending.len() as usize)
            } else {
                None
            },
    {
        match self.find_peer(peer_id) {
            None => None,
            Some(i) => Some(self.peers[i].pending.len()),
        }
    }

    /// Whether a track with this key is registered.
    pub fn has_track(&self, track_id: &String, kind: MediaType) -> (known: bool)
        requires
            self.wf(),
        ensures
            known == self@.has_track(track_id@, kind),
    {
        self.find_track(track_id, kind).is_some()
    }

    /// Whether a video sink with this identifier exists.
    pub fn has_video_sink(&self, sink_id: i64) -> (known: bool)
        requires
            self.wf(),
        ensures
            known == self@.has_video_sink(sink_id),
    {
        self.find_video_sink(sink_id).is_some()
    }

    /// Whether a listener takes device-change notifications.
    pub fn watches_devices(&self) -> (listening: bool)
        ensures
            listening == self@.device_listener is Some,
    {
        self.device_listener.is_some()
    }

    /// Finds the position of the peer with this identifier.
    pub(crate) fn find_peer(&self, id: u64) -> (slot: Option<usize>)
        requires
            self.wf(),
        ensures
            match slot {
                Some(i) => self@.has_peer(id) && i == self@.peer_index(id) && i < self.peers.len()
                    && self.peers[i as int].id == id,
                None => !self@.has_peer(id),
            },
    {
        let mut i: usize = 0;
        while i < self.peers.len()
            invariant
                self.wf(),
                i <= self.peers.len(),
                forall|j: int| 0 <= j < i ==> self.peers[j].id != id,
            decreases self.peers.len() - i,
        {
            if self.peers[i].id == id {
                proof {
                    self@.lemma_peer_at(i as int);
                }
                return Some(i);
            }
            i += 1;
        }
        assert forall|j: int| 0 <= j < self@.peers.len() implies (#[trigger] self@.peers[j]).id
            != id by {
            assert(self.peers[j].id != id);
        }
        None
    }

    /// Finds the position of the track with this key.
    pub(crate) fn find_track(&self, id: &String, kind: MediaType) -> (slot: Option<usize>)
        requires
            self.wf(),
        ensures
            match slot {
                Some(i) => self@.has_track(id@, kind) && i == self@.track_index(id@, kind) && i
                    < self.tracks.len() && self.tracks[i as int].id@ == id@
                    && self.tracks[i as int].kind == kind,
                None => !self@.has_track(id@, kind),
            },
    {
        let mut i: usize = 0;
        while i < self.tracks.len()
            invariant
                self.wf(),
                i <= self.tracks.len(),
                forall|j: int|
                    0 <= j < i ==> !(self.tracks[j].id@ == id@ && self.tracks[j].kind == kind),
            decreases self.tracks.len() - i,
        {
            if self.tracks[i].kind == kind && self.tracks[i].id == *id {
                proof {
                    self@.lemma_track_at(i as int);
                }
                return Some(i);
            }
            i += 1;
        }
        assert forall|j: int| 0 <= j < self@.tracks.len() implies !((#[trigger] self@.tracks[j]).id
            == id@ && self@.tracks[j].kind == kind) by {
            assert(!(self.tracks[j].id@ == id@ && self.tracks[j].kind == kind));
        }
        None
    }

    /// Finds the position of the video sink with this identifier.
    pub(crate) fn find_video_sink(&self, id: i64) -> (slot: Option<usize>)
        requires
            self.wf(),
        ensures
            match slot {
                Some(i) => self@.has_video_sink(id) && i == self@.video_sink_index(id) && i
                    < self.video_sinks.len() && self.video_sinks[i as int].id == id,
                None => !self@.has_video_sink(id),
            },
    {
        let mut i: usize = 0;
        while i < self.video_sinks.len()
            invariant
                self.wf(),
                i <= self.video_sinks.len(),
                forall|j: int| 0 <= j < i ==> self.video_sinks[j].id != id,
            decreases self.video_sinks.len() - i,
        {
            if self.video_sinks[i].id == id {
                proof {
                    self@.lemma_video_sink_at(i as int);
                }
                return Some(i);
            }
            i += 1;
        }
        assert forall|j: int| 0 <= j < self@.video_sinks.len() implies (
        #[trigger] self@.video_sinks[j]).id != id by {
            assert(self.video_sinks[j].id != id);
        }
        None
    }
}

impl Bridge {
    /// Opens a pending request of the given kind for a peer: keeps its
    /// producer in the registry and returns its identifier and its waiter.
    pub(crate) fn open_request(&mut self, peer_id: u64, kind: RequestKind) -> (opened: Result<
        (u64, Waiter<Reply>),
        BridgeError,
    >)
        requires
            old(self).wf(),
        ensures
            final(self).wf(),
            final(self)@ == old(self)@.after_dispatch(peer_id, kind),
            match opened {
                Ok((request, _)) => old(self)@.can_dispatch(peer_id) && request == old(self)@.peer(
                    peer_id,
                ).next_request,
                Err(e) => !old(self)@.can_dispatch(peer_id) && e == old(self)@.dispatch_error(
                    peer_id,
                ),
            },
    {
        match self.find_peer(peer_id) {
            None => Err(BridgeError::NotFound),
            Some(i) => {
                let request: u64 = self.peers[i].next_request;
                if request == u64::MAX {
                    return Err(BridgeError::ChannelClosed);
                }
                let (producer, waiter) = create();
                self.peers[i].pending.push(PendingRequest { id: request, kind, producer });
                self.peers[i].next_request = request + 1;
                proof {
                    let before = old(self)@.peers[i as int];
                    assert(self.peers[i as int].view().pending =~= before.dispatched(kind).pending);
                    assert(self@.peers =~= old(self)@.peers.update(i as int, before.dispatched(kind)));
                    assert(self@.tracks =~= old(self)@.tracks);
                    assert(self@.video_sinks =~= old(self)@.video_sinks);
                }
                Ok((request, waiter))
            },
        }
    }
}

impl Peer {
    /// Finds the position of the pending request with this identifier.
    pub(crate) fn find_request(&self, request: u64) -> (slot: Option<usize>)
        requires
            self@.consistent(),
        ensures
            match slot {
                Some(k) => self@.has_request(request) && k == self@.request_index(request) && k
                    < self.pending.len() && self.pending[k as int].id == request,
                None => !self@.has_request(request),
            },
    {
        let mut k: usize = 0;
        while k < self.pending.len()
            invariant
                self@.consistent(),
                k <= self.pending.len(),
                forall|j: int| 0 <= j < k ==> self.pending[j].id != request,
            decreases self.pending.len() - k,
        {
            if self.pending[k].id == request {
                proof {
                    assert(self@.pending[k as int].id == request);
                    self@.lemma_request_at(k as int);
                }
                return Some(k);
            }
            k += 1;
        }
        assert forall|j: int| 0 <= j < self@.pending.len() implies (#[trigger] self@.pending[j]).id
            != request by {
            assert(self.pending[j].id != request);
        }
        None
    }
}

} // verus!

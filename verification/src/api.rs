//! The call surface of the bridge.
//!
//! Every operation takes the [`Bridge`] that the embedding program keeps
//! behind its engine-wide lock. It validates its addressing first and fails
//! with a typed error before anything reaches the engine. On success it
//! records what the registry has to remember and yields the [`EngineCall`] to
//! perform. Operations that the engine completes later yield a [`Dispatch`]:
//! the call, and the waiter on which the caller blocks after it has released
//! the lock.

use vstd::prelude::*;
use crate::correlator::{resolve, WaitOutcome, Waiter, RX_TIMEOUT_MILLIS};
use crate::error::BridgeError;
use crate::model::{
    Completion,
    EngineCall,
    GetMediaError,
    GetMediaResult,
    MediaStreamConstraints,
    MediaStreamTrack,
    TrackEvent,
    IceCandidate,
    MediaType,
    RtpTransceiverDirection,
    PeerConnectionEvent,
    RtcConfiguration,
    RequestKind,
    RtcSessionDescription,
    RtcStats,
    SdpType,
};
use crate::registry::{
    Bridge,
    BridgeView,
    Peer,
    PeerView,
    PendingRequest,
    Reply,
    Track,
    TrackView,
    VideoSink,
    VideoSinkView,
};
use crate::stream_sink::{Notifier, Sink};

verus! {

/// An engine call that completes later, with the waiter for its completion.
pub struct Dispatch {
    pub call: EngineCall,
    pub waiter: Waiter<Reply>,
}

/// Initiates the creation of an offer for the given peer.
///
/// Fails with [`BridgeError::NotFound`] if the peer does not exist, and with
/// [`BridgeError::ChannelClosed`] if the peer has used up its request
/// identifiers. No request is opened then.
pub fn create_offer(
    ctx: &mut Bridge,
    peer_id: u64,
    voice_activity_detection: bool,
    ice_restart: bool,
    use_rtp_mux: bool,
) -> (result: Result<Dispatch, BridgeError>)
    requires
        old(ctx).wf(),
    ensures
        final(ctx).wf(),
        final(ctx)@ == old(ctx)@.after_dispatch(peer_id, RequestKind::Description),
        match result {
            Ok(dispatch) => old(ctx)@.can_dispatch(peer_id) && dispatch.call == (
            EngineCall::CreateOffer {
                peer_id,
                request: old(ctx)@.peer(peer_id).next_request,
                voice_activity_detection,
                ice_restart,
                use_rtp_mux,
            }),
            Err(e) => !old(ctx)@.can_dispatch(peer_id) && e == old(ctx)@.dispatch_error(peer_id),
        },
{
    match ctx.open_request(peer_id, RequestKind::Description) {
        Err(e) => Err(e),
        Ok((request, waiter)) => Ok(
            Dispatch {
                call: EngineCall::CreateOffer {
                    peer_id,
                    request,
                    voice_activity_detection,
                    ice_restart,
                    use_rtp_mux,
                },
                waiter,
            },
        ),
    }
}

/// Initiates the creation of an answer to an offer received from the remote
/// side.
///
/// Fails with [`BridgeError::NotFound`] if the peer does not exist, and with
/// [`BridgeError::ChannelClosed`] if the peer has used up its request
/// identifiers. No request is opened then.
pub fn create_answer(
    ctx: &mut Bridge,
    peer_id: u64,
    voice_activity_detection: bool,
    ice_restart: bool,
    use_rtp_mux: bool,
) -> (result: Result<Dispatch, BridgeError>)
    requires
        old(ctx).wf(),
    ensures
        final(ctx).wf(),
        final(ctx)@ == old(ctx)@.after_dispatch(peer_id, RequestKind::Description),
        match result {
            Ok(dispatch) => old(ctx)@.can_dispatch(peer_id) && dispatch.call == (
            EngineCall::CreateAnswer {
                peer_id,
                request: old(ctx)@.peer(peer_id).next_request,
                voice_activity_detection,
                ice_restart,
                use_rtp_mux,
            }),
            Err(e) => !old(ctx)@.can_dispatch(peer_id) && e == old(ctx)@.dispatch_error(peer_id),
        },
{
    match ctx.open_request(peer_id, RequestKind::Description) {
        Err(e) => Err(e),
        Ok((request, waiter)) => Ok(
            Dispatch {
                call: EngineCall::CreateAnswer {
                    peer_id,
                    request,
                    voice_activity_detection,
                    ice_restart,
                    use_rtp_mux,
                },
                waiter,
            },
        ),
    }
}

/// Asks the engine to change the local description of the given peer.
///
/// Fails with [`BridgeError::NotFound`] if the peer does not exist, and with
/// [`BridgeError::ChannelClosed`] if the peer has used up its request
/// identifiers. No request is opened then.
pub fn set_local_description(ctx: &mut Bridge, peer_id: u64, kind: SdpType, sdp: String) -> (result:
    Result<Dispatch, BridgeError>)
    requires
        old(ctx).wf(),
    ensures
        final(ctx).wf(),
        final(ctx)@ == old(ctx)@.after_dispatch(peer_id, RequestKind::Done),
        match result {
            Ok(dispatch) => old(ctx)@.can_dispatch(peer_id) && dispatch.call == (
            EngineCall::SetLocalDescription {
                peer_id,
                request: old(ctx)@.peer(peer_id).next_request,
                description: RtcSessionDescription { sdp, kind },
            }),
            Err(e) => !old(ctx)@.can_dispatch(peer_id) && e == old(ctx)@.dispatch_error(peer_id),
        },
{
    match ctx.open_request(peer_id, RequestKind::Done) {
        Err(e) => Err(e),
        Ok((request, waiter)) => Ok(
            Dispatch {
                call: EngineCall::SetLocalDescription {
                    peer_id,
                    request,
                    description: RtcSessionDescription { sdp, kind },
                },
                waiter,
            },
        ),
    }
}

/// Asks the engine to add a remote candidate to the given peer.
///
/// Fails with [`BridgeError::NotFound`] if the peer does not exist, and with
/// [`BridgeError::ChannelClosed`] if the peer has used up its request
/// identifiers. No request is opened then.
pub fn add_ice_candidate(
    ctx: &mut Bridge,
    peer_id: u64,
    candidate: String,
    sdp_mid: String,
    sdp_mline_index: i32,
) -> (result: Result<Dispatch, BridgeError>)
    requires
        old(ctx).wf(),
    ensures
        final(ctx).wf(),
        final(ctx)@ == old(ctx)@.after_dispatch(peer_id, RequestKind::Done),
        match result {
            Ok(dispatch) => old(ctx)@.can_dispatch(peer_id) && dispatch.call == (
            EngineCall::AddIceCandidate {
                peer_id,
                request: old(ctx)@.peer(peer_id).next_request,
                candidate: IceCandidate { candidate, sdp_mid, sdp_mline_index },
            }),
            Err(e) => !old(ctx)@.can_dispatch(peer_id) && e == old(ctx)@.dispatch_error(peer_id),
        },
{
    match ctx.open_request(peer_id, RequestKind::Done) {
        Err(e) => Err(e),
        Ok((request, waiter)) => Ok(
            Dispatch {
                call: EngineCall::AddIceCandidate {
                    peer_id,
                    request,
                    candidate: IceCandidate { candidate, sdp_mid, sdp_mline_index },
                },
                waiter,
            },
        ),
    }
}

/// Asks the engine for the statistics of the given peer.
///
/// Fails with [`BridgeError::NotFound`] if the peer does not exist, and with
/// [`BridgeError::ChannelClosed`] if the peer has used up its request
/// identifiers. No request is opened then.
pub fn get_peer_stats(ctx: &mut Bridge, peer_id: u64) -> (result: Result<Dispatch, BridgeError>)
    requires
        old(ctx).wf(),
    ensures
        final(ctx).wf(),
        final(ctx)@ == old(ctx)@.after_dispatch(peer_id, RequestKind::Stats),
        match result {
            Ok(dispatch) => old(ctx)@.can_dispatch(peer_id) && dispatch.call == (
            EngineCall::GetStats { peer_id, request: old(ctx)@.peer(peer_id).next_request }),
            Err(e) => !old(ctx)@.can_dispatch(peer_id) && e == old(ctx)@.dispatch_error(peer_id),
        },
{
    match ctx.open_request(peer_id, RequestKind::Stats) {
        Err(e) => Err(e),
        Ok((request, waiter)) => Ok(
            Dispatch { call: EngineCall::GetStats { peer_id, request }, waiter },
        ),
    }
}

/// What the caller of an offer or an answer gets for each outcome of its
/// wait.
pub open spec fn description_of(outcome: WaitOutcome<Reply>) -> Result<
    RtcSessionDescription,
    BridgeError,
> {
    match outcome {
        WaitOutcome::Received(Ok(Completion::Description(description))) => Ok(description),
        WaitOutcome::Received(Ok(_)) => Err(BridgeError::ChannelClosed),
        WaitOutcome::Received(Err(reason)) => Err(BridgeError::Engine(reason)),
        WaitOutcome::Elapsed => Err(BridgeError::Timeout),
        WaitOutcome::Disconnected => Err(BridgeError::ChannelClosed),
    }
}

/// What the caller of an operation without a value gets for each outcome of
/// its wait.
pub open spec fn done_of(outcome: WaitOutcome<Reply>) -> Result<(), BridgeError> {
    match outcome {
        WaitOutcome::Received(Ok(Completion::Done)) => Ok(()),
        WaitOutcome::Received(Ok(_)) => Err(BridgeError::ChannelClosed),
        WaitOutcome::Received(Err(reason)) => Err(BridgeError::Engine(reason)),
        WaitOutcome::Elapsed => Err(BridgeError::Timeout),
        WaitOutcome::Disconnected => Err(BridgeError::ChannelClosed),
    }
}

/// What the caller of a statistics request gets for each outcome of its wait.
pub open spec fn stats_of(outcome: WaitOutcome<Reply>) -> Result<Vec<RtcStats>, BridgeError> {
    match outcome {
        WaitOutcome::Received(Ok(Completion::Stats(stats))) => Ok(stats),
        WaitOutcome::Received(Ok(_)) => Err(BridgeError::ChannelClosed),
        WaitOutcome::Received(Err(reason)) => Err(BridgeError::Engine(reason)),
        WaitOutcome::Elapsed => Err(BridgeError::Timeout),
        WaitOutcome::Disconnected => Err(BridgeError::ChannelClosed),
    }
}

/// Turns the outcome of a wait for an offer or an answer into the caller's
/// result. A completion of another kind counts as a closed channel.
pub fn expect_description(outcome: WaitOutcome<Reply>) -> (result: Result<
    RtcSessionDescription,
    BridgeError,
>)
    ensures
        result == description_of(outcome),
{
    match resolve(outcome) {
        Ok(Ok(Completion::Description(description))) => Ok(description),
        Ok(Ok(_)) => Err(BridgeError::ChannelClosed),
        Ok(Err(reason)) => Err(BridgeError::Engine(reason)),
        Err(e) => Err(e),
    }
}

/// Turns the outcome of a wait for an operation without a value into the
/// caller's result. A completion of another kind counts as a closed channel.
pub fn expect_done(outcome: WaitOutcome<Reply>) -> (result: Result<(), BridgeError>)
    ensures
        result == done_of(outcome),
{
    match resolve(outcome) {
        Ok(Ok(Completion::Done)) => Ok(()),
        Ok(Ok(_)) => Err(BridgeError::ChannelClosed),
        Ok(Err(reason)) => Err(BridgeError::Engine(reason)),
        Err(e) => Err(e),
    }
}

/// Turns the outcome of a wait for statistics into the caller's result. A
/// completion of another kind counts as a closed channel.
pub fn expect_stats(outcome: WaitOutcome<Reply>) -> (result: Result<Vec<RtcStats>, BridgeError>)
    ensures
        result == stats_of(outcome),
{
    match resolve(outcome) {
        Ok(Ok(Completion::Stats(stats))) => Ok(stats),
        Ok(Ok(_)) => Err(BridgeError::ChannelClosed),
        Ok(Err(reason)) => Err(BridgeError::Engine(reason)),
        Err(e) => Err(e),
    }
}

impl Dispatch {
    /// Blocks for the default bound and returns the description with which
    /// the engine completed the request. The caller has released the
    /// engine-wide lock before.
    pub fn wait_description(self) -> (result: Result<RtcSessionDescription, BridgeError>)
        ensures
            result matches Err(e) ==> e is Timeout || e is ChannelClosed || e is Engine,
    {
        let outcome = self.waiter.outcome_within(RX_TIMEOUT_MILLIS);
        expect_description(outcome)
    }

    /// Blocks for the default bound until the engine has completed the
    /// request. The caller has released the engine-wide lock before.
    pub fn wait_done(self) -> (result: Result<(), BridgeError>)
        ensures
            result matches Err(e) ==> e is Timeout || e is ChannelClosed || e is Engine,
    {
        let outcome = self.waiter.outcome_within(RX_TIMEOUT_MILLIS);
        expect_done(outcome)
    }

    /// Blocks for the default bound and returns the statistics with which the
    /// engine completed the request. The caller has released the engine-wide
    /// lock before.
    pub fn wait_stats(self) -> (result: Result<Vec<RtcStats>, BridgeError>)
        ensures
            result matches Err(e) ==> e is Timeout || e is ChannelClosed || e is Engine,
    {
        let outcome = self.waiter.outcome_within(RX_TIMEOUT_MILLIS);
        expect_stats(outcome)
    }
}

/// What became of a completion that the engine reported.
#[derive(Debug, Clone, Copy, PartialEq, Eq, Structural)]
pub enum Delivery {
    /// The waiting caller got the completion.
    Fulfilled,
    /// The caller had stopped waiting; the completion was dropped.
    Discarded,
    /// The value does not fit the kind of the request; the request stays in
    /// flight.
    Mismatched,
    /// No such request is in flight.
    Unknown,
}

/// Takes the engine's completion of a request and hands it to the waiting
/// caller.
///
/// A request is completed at most once: it leaves the registry with its
/// completion, so a second completion under the same identifier finds
/// nothing. A completion that arrives after the caller has stopped waiting is
/// dropped without error.
pub fn complete_request(
    ctx: &mut Bridge,
    peer_id: u64,
    request: u64,
    verdict: Result<Completion, String>,
) -> (delivery: Delivery)
    requires
        old(ctx).wf(),
    ensures
        final(ctx).wf(),
        final(ctx)@ == old(ctx)@.after_completion(peer_id, request, verdict),
        match delivery {
            Delivery::Fulfilled | Delivery::Discarded => old(ctx)@.accepts(peer_id, request, verdict),
            Delivery::Mismatched => old(ctx)@.has_peer(peer_id) && old(ctx)@.peer(
                peer_id,
            ).has_request(request) && !old(ctx)@.accepts(peer_id, request, verdict),
            Delivery::Unknown => !(old(ctx)@.has_peer(peer_id) && old(ctx)@.peer(
                peer_id,
            ).has_request(request)),
        },
{
    let i = match ctx.find_peer(peer_id) {
        None => {
            return Delivery::Unknown;
        },
        Some(i) => i,
    };
    proof {
        assert(ctx@.peers[i as int].consistent());
    }
    let k = match ctx.peers[i].find_request(request) {
        None => {
            return Delivery::Unknown;
        },
        Some(k) => k,
    };
    let fits = match &verdict {
        Ok(value) => value.kind() == ctx.peers[i].pending[k].kind,
        Err(_) => true,
    };
    if !fits {
        return Delivery::Mismatched;
    }
    let entry = ctx.peers[i].pending.remove(k);
    proof {
        let before = old(ctx)@.peers[i as int];
        assert(ctx.peers[i as int].view().pending =~= before.settled(request).pending);
        assert(ctx@.peers =~= old(ctx)@.peers.update(i as int, before.settled(request)));
        assert(ctx@.tracks =~= old(ctx)@.tracks);
        assert(ctx@.video_sinks =~= old(ctx)@.video_sinks);
    }
    let PendingRequest { id: _, kind: _, producer } = entry;
    if producer.fulfil(verdict) {
        Delivery::Fulfilled
    } else {
        Delivery::Discarded
    }
}

/// Registers a new peer connection under the identifier that the caller
/// chose, and keeps `cb` as the listener for its events.
///
/// Fails with [`BridgeError::Validation`] if a peer with this identifier is
/// open already; the registry lets go of `cb` then.
pub fn create_peer_connection(
    ctx: &mut Bridge,
    peer_id: u64,
    cb: Sink<PeerConnectionEvent>,
    configuration: RtcConfiguration,
) -> (result: Result<EngineCall, BridgeError>)
    requires
        old(ctx).wf(),
    ensures
        final(ctx).wf(),
        match result {
            Ok(call) => {
                &&& !old(ctx)@.has_peer(peer_id)
                &&& call == (EngineCall::CreatePeerConnection { peer_id, configuration })
                &&& final(ctx)@ == old(ctx)@.with_new_peer(PeerView::fresh(peer_id, cb))
            },
            Err(e) => {
                &&& old(ctx)@.has_peer(peer_id)
                &&& e == BridgeError::Validation
                &&& final(ctx)@ == old(ctx)@.with_closes(1)
            },
        },
{
    match ctx.find_peer(peer_id) {
        Some(_) => {
            ctx.closes = Ghost(ctx.closes@ + 1);
            proof {
                assert(ctx@.peers =~= old(ctx)@.peers);
                assert(ctx@.tracks =~= old(ctx)@.tracks);
                assert(ctx@.video_sinks =~= old(ctx)@.video_sinks);
            }
            Err(BridgeError::Validation)
        },
        None => {
            ctx.peers.push(
                Peer {
                    id: peer_id,
                    events: Some(cb),
                    transceivers: Vec::new(),
                    pending: Vec::new(),
                    next_request: 0,
                },
            );
            proof {
                let added = ctx.peers[ctx.peers.len() - 1].view();
                assert(added.pending =~= Seq::empty());
                assert(added.transceivers =~= Seq::empty());
                assert(ctx@.peers =~= old(ctx)@.peers.push(PeerView::fresh(peer_id, cb)));
                assert(ctx@.tracks =~= old(ctx)@.tracks);
                assert(ctx@.video_sinks =~= old(ctx)@.video_sinks);
            }
            Ok(EngineCall::CreatePeerConnection { peer_id, configuration })
        },
    }
}

/// Closes the peer connection with this identifier and releases what the
/// registry kept for it: the registry lets go of its listener, its
/// transceivers become unaddressable, and its requests in flight are given
/// up, so that their callers stop waiting. Disposing an unknown identifier
/// does nothing.
pub fn dispose_peer_connection(ctx: &mut Bridge, peer_id: u64) -> (call: Option<EngineCall>)
    requires
        old(ctx).wf(),
    ensures
        final(ctx).wf(),
        final(ctx)@ == old(ctx)@.after_disposal(peer_id),
        !final(ctx)@.has_peer(peer_id),
        call == if old(ctx)@.has_peer(peer_id) {
            Some(EngineCall::DisposePeerConnection { peer_id })
        } else {
            None
        },
{
    match ctx.find_peer(peer_id) {
        None => None,
        Some(i) => {
            let peer = ctx.peers.remove(i);
            let Peer { id: _, events, transceivers: _, pending, next_request: _ } = peer;
            let listening = events.is_some();
            ctx.closes = Ghost(
                if listening {
                    ctx.closes@ + 1
                } else {
                    ctx.closes@
                },
            );
            ctx.abandoned = Ghost(ctx.abandoned@ + pending.len() as nat);
            proof {
                assert(ctx@.peers =~= old(ctx)@.peers.remove(i as int));
                assert(ctx@.tracks =~= old(ctx)@.tracks);
                assert(ctx@.video_sinks =~= old(ctx)@.video_sinks);
                assert(old(ctx)@.peers[i as int].pending.len() == pending.len());
                assert forall|j: int| 0 <= j < ctx@.peers.len() implies (#[trigger] ctx@.peers[j]).id
                    != peer_id by {
                    if j < i {
                        assert(old(ctx)@.peers[j].id != old(ctx)@.peers[i as int].id);
                    } else {
                        assert(old(ctx)@.peers[j + 1].id != old(ctx)@.peers[i as int].id);
                    }
                }
            }
            Some(EngineCall::DisposePeerConnection { peer_id })
        },
    }
}

/// Asks the engine to take the given description as the remote side's
/// current offer or answer.
///
/// Fails with [`BridgeError::NotFound`] if the peer does not exist.
pub fn set_remote_description(ctx: &Bridge, peer_id: u64, kind: SdpType, sdp: String) -> (result:
    Result<EngineCall, BridgeError>)
    requires
        ctx.wf(),
    ensures
        result == if ctx@.has_peer(peer_id) {
            Ok(
                EngineCall::SetRemoteDescription {
                    peer_id,
                    description: RtcSessionDescription { sdp, kind },
                },
            )
        } else {
            Err(BridgeError::NotFound)
        },
{
    match ctx.find_peer(peer_id) {
        None => Err(BridgeError::NotFound),
        Some(_) => Ok(
            EngineCall::SetRemoteDescription {
                peer_id,
                description: RtcSessionDescription { sdp, kind },
            },
        ),
    }
}

/// Tells the engine that the given peer should restart its path discovery.
///
/// Fails with [`BridgeError::NotFound`] if the peer does not exist.
pub fn restart_ice(ctx: &Bridge, peer_id: u64) -> (result: Result<EngineCall, BridgeError>)
    requires
        ctx.wf(),
    ensures
        result == if ctx@.has_peer(peer_id) {
            Ok(EngineCall::RestartIce { peer_id })
        } else {
            Err(BridgeError::NotFound)
        },
{
    match ctx.find_peer(peer_id) {
        None => Err(BridgeError::NotFound),
        Some(_) => Ok(EngineCall::RestartIce { peer_id }),
    }
}

/// Adds a transceiver to the given peer. The new transceiver gets the next
/// free index of its peer, which the returned call names.
///
/// Fails with [`BridgeError::NotFound`] if the peer does not exist, and with
/// [`BridgeError::Validation`] if the peer has used up its indices.
pub fn add_transceiver(
    ctx: &mut Bridge,
    peer_id: u64,
    media_type: MediaType,
    direction: RtpTransceiverDirection,
) -> (result: Result<EngineCall, BridgeError>)
    requires
        old(ctx).wf(),
    ensures
        final(ctx).wf(),
        match result {
            Ok(call) => {
                &&& old(ctx)@.can_add_transceiver(peer_id)
                &&& call == (EngineCall::AddTransceiver {
                    peer_id,
                    index: old(ctx)@.peer(peer_id).transceivers.len() as u32,
                    media_type,
                    direction,
                })
                &&& final(ctx)@ == old(ctx)@.with_peer(
                    peer_id,
                    old(ctx)@.peer(peer_id).with_transceiver(media_type),
                )
            },
            Err(e) => {
                &&& !old(ctx)@.can_add_transceiver(peer_id)
                &&& e == if old(ctx)@.has_peer(peer_id) {
                    BridgeError::Validation
                } else {
                    BridgeError::NotFound
                }
                &&& final(ctx)@ == old(ctx)@
            },
        },
{
    let i = match ctx.find_peer(peer_id) {
        None => {
            return Err(BridgeError::NotFound);
        },
        Some(i) => i,
    };
    proof {
        assert(ctx@.peers[i as int].consistent());
    }
    let count: usize = ctx.peers[i].transceivers.len();
    if count >= u32::MAX as usize {
        return Err(BridgeError::Validation);
    }
    let index: u32 = count as u32;
    ctx.peers[i].transceivers.push(media_type);
    proof {
        let before = old(ctx)@.peers[i as int];
        assert(ctx.peers[i as int].view().pending =~= before.pending);
        assert(ctx@.peers =~= old(ctx)@.peers.update(i as int, before.with_transceiver(media_type)));
        assert(ctx@.tracks =~= old(ctx)@.tracks);
        assert(ctx@.video_sinks =~= old(ctx)@.video_sinks);
    }
    Ok(EngineCall::AddTransceiver { peer_id, index, media_type, direction })
}

/// Asks the engine for the transceivers of the given peer. The call names how
/// many the registry holds.
///
/// Fails with [`BridgeError::NotFound`] if the peer does not exist.
pub fn get_transceivers(ctx: &Bridge, peer_id: u64) -> (result: Result<EngineCall, BridgeError>)
    requires
        ctx.wf(),
    ensures
        result == if ctx@.has_peer(peer_id) {
            Ok(
                EngineCall::GetTransceivers {
                    peer_id,
                    count: ctx@.peer(peer_id).transceivers.len() as u32,
                },
            )
        } else {
            Err(BridgeError::NotFound)
        },
{
    match ctx.find_peer(peer_id) {
        None => Err(BridgeError::NotFound),
        Some(i) => {
            proof {
                assert(ctx@.peers[i as int].consistent());
            }
            Ok(
                EngineCall::GetTransceivers {
                    peer_id,
                    count: ctx.peers[i].transceivers.len() as u32,
                },
            )
        },
    }
}

/// Looks up the transceiver with this index under the given peer and
/// returns its media type.
///
/// Fails with [`BridgeError::NotFound`] if the peer or the transceiver does
/// not exist.
pub fn transceiver_kind(ctx: &Bridge, peer_id: u64, transceiver_index: u32) -> (result: Result<
    MediaType,
    BridgeError,
>)
    requires
        ctx.wf(),
    ensures
        result == if ctx@.has_transceiver(peer_id, transceiver_index) {
            Ok(ctx@.peer(peer_id).transceivers[transceiver_index as int])
        } else {
            Err(BridgeError::NotFound)
        },
{
    match ctx.find_peer(peer_id) {
        None => Err(BridgeError::NotFound),
        Some(i) => {
            if (transceiver_index as usize) < ctx.peers[i].transceivers.len() {
                Ok(ctx.peers[i].transceivers[transceiver_index as usize])
            } else {
                Err(BridgeError::NotFound)
            }
        },
    }
}

/// Asks the engine to change the preferred direction of a transceiver.
///
/// Fails with [`BridgeError::NotFound`] if the peer or the transceiver does
/// not exist.
pub fn set_transceiver_direction(
    ctx: &Bridge,
    peer_id: u64,
    transceiver_index: u32,
    direction: RtpTransceiverDirection,
) -> (result: Result<EngineCall, BridgeError>)
    requires
        ctx.wf(),
    ensures
        result == if ctx@.has_transceiver(peer_id, transceiver_index) {
            Ok(
                EngineCall::SetTransceiverDirection {
                    peer_id,
                    index: transceiver_index,
                    direction,
                },
            )
        } else {
            Err(BridgeError::NotFound)
        },
{
    match transceiver_kind(ctx, peer_id, transceiver_index) {
        Err(e) => Err(e),
        Ok(_) => Ok(
            EngineCall::SetTransceiverDirection { peer_id, index: transceiver_index, direction },
        ),
    }
}

/// Asks the engine to change the receive direction of a transceiver.
///
/// Fails with [`BridgeError::NotFound`] if the peer or the transceiver does
/// not exist.
pub fn set_transceiver_recv(ctx: &Bridge, peer_id: u64, transceiver_index: u32, recv: bool) -> (result:
    Result<EngineCall, BridgeError>)
    requires
        ctx.wf(),
    ensures
        result == if ctx@.has_transceiver(peer_id, transceiver_index) {
            Ok(EngineCall::SetTransceiverRecv { peer_id, index: transceiver_index, recv })
        } else {
            Err(BridgeError::NotFound)
        },
{
    match transceiver_kind(ctx, peer_id, transceiver_index) {
        Err(e) => Err(e),
        Ok(_) => Ok(EngineCall::SetTransceiverRecv { peer_id, index: transceiver_index, recv }),
    }
}

/// Asks the engine to change the send direction of a transceiver.
///
/// Fails with [`BridgeError::NotFound`] if the peer or the transceiver does
/// not exist.
pub fn set_transceiver_send(ctx: &Bridge, peer_id: u64, transceiver_index: u32, send: bool) -> (result:
    Result<EngineCall, BridgeError>)
    requires
        ctx.wf(),
    ensures
        result == if ctx@.has_transceiver(peer_id, transceiver_index) {
            Ok(EngineCall::SetTransceiverSend { peer_id, index: transceiver_index, send })
        } else {
            Err(BridgeError::NotFound)
        },
{
    match transceiver_kind(ctx, peer_id, transceiver_index) {
        Err(e) => Err(e),
        Ok(_) => Ok(EngineCall::SetTransceiverSend { peer_id, index: transceiver_index, send }),
    }
}

/// Asks the engine for the negotiated media identifier of a transceiver.
///
/// Fails with [`BridgeError::NotFound`] if the peer or the transceiver does
/// not exist.
pub fn get_transceiver_mid(ctx: &Bridge, peer_id: u64, transceiver_index: u32) -> (result: Result<
    EngineCall,
    BridgeError,
>)
    requires
        ctx.wf(),
    ensures
        result == if ctx@.has_transceiver(peer_id, transceiver_index) {
            Ok(EngineCall::GetTransceiverMid { peer_id, index: transceiver_index })
        } else {
            Err(BridgeError::NotFound)
        },
{
    match transceiver_kind(ctx, peer_id, transceiver_index) {
        Err(e) => Err(e),
        Ok(_) => Ok(EngineCall::GetTransceiverMid { peer_id, index: transceiver_index }),
    }
}

/// Asks the engine for the preferred direction of a transceiver.
///
/// Fails with [`BridgeError::NotFound`] if the peer or the transceiver does
/// not exist.
pub fn get_transceiver_direction(ctx: &Bridge, peer_id: u64, transceiver_index: u32) -> (result:
    Result<EngineCall, BridgeError>)
    requires
        ctx.wf(),
    ensures
        result == if ctx@.has_transceiver(peer_id, transceiver_index) {
            Ok(EngineCall::GetTransceiverDirection { peer_id, index: transceiver_index })
        } else {
            Err(BridgeError::NotFound)
        },
{
    match transceiver_kind(ctx, peer_id, transceiver_index) {
        Err(e) => Err(e),
        Ok(_) => Ok(EngineCall::GetTransceiverDirection { peer_id, index: transceiver_index }),
    }
}

/// Asks the engine to stop a transceiver for good.
///
/// Fails with [`BridgeError::NotFound`] if the peer or the transceiver does
/// not exist.
pub fn stop_transceiver(ctx: &Bridge, peer_id: u64, transceiver_index: u32) -> (result: Result<
    EngineCall,
    BridgeError,
>)
    requires
        ctx.wf(),
    ensures
        result == if ctx@.has_transceiver(peer_id, transceiver_index) {
            Ok(EngineCall::StopTransceiver { peer_id, index: transceiver_index })
        } else {
            Err(BridgeError::NotFound)
        },
{
    match transceiver_kind(ctx, peer_id, transceiver_index) {
        Err(e) => Err(e),
        Ok(_) => Ok(EngineCall::StopTransceiver { peer_id, index: transceiver_index }),
    }
}

/// Whether the sender of this transceiver may take this track: no track at
/// all, or a registered track of the transceiver's media type.
pub open spec fn can_replace_track(
    view: BridgeView,
    peer_id: u64,
    transceiver_index: u32,
    track_id: Option<String>,
) -> bool {
    &&& view.has_transceiver(peer_id, transceiver_index)
    &&& track_id matches Some(id) ==> view.has_track(
        id@,
        view.peer(peer_id).transceivers[transceiver_index as int],
    )
}

/// Asks the engine to put the given track, or none, on the sender of a
/// transceiver. The track is looked up under the media type of the
/// transceiver.
///
/// Fails with [`BridgeError::NotFound`] if the peer, the transceiver or the
/// track does not exist.
pub fn sender_replace_track(
    ctx: &Bridge,
    peer_id: u64,
    transceiver_index: u32,
    track_id: Option<String>,
) -> (result: Result<EngineCall, BridgeError>)
    requires
        ctx.wf(),
    ensures
        result == if can_replace_track(ctx@, peer_id, transceiver_index, track_id) {
            Ok(EngineCall::ReplaceTrack { peer_id, index: transceiver_index, track_id })
        } else {
            Err(BridgeError::NotFound)
        },
{
    let kind = match transceiver_kind(ctx, peer_id, transceiver_index) {
        Err(e) => {
            return Err(e);
        },
        Ok(kind) => kind,
    };
    let known = match &track_id {
        None => true,
        Some(id) => ctx.find_track(id, kind).is_some(),
    };
    if known {
        Ok(EngineCall::ReplaceTrack { peer_id, index: transceiver_index, track_id })
    } else {
        Err(BridgeError::NotFound)
    }
}

/// Makes media acquisition use fake devices from now on.
pub fn enable_fake_media(ctx: &mut Bridge)
    requires
        old(ctx).wf(),
    ensures
        final(ctx).wf(),
        final(ctx)@ == (BridgeView { fake_media: true, ..old(ctx)@ }),
{
    ctx.fake_media = true;
    proof {
        assert(ctx@.peers =~= old(ctx)@.peers);
        assert(ctx@.tracks =~= old(ctx)@.tracks);
        assert(ctx@.video_sinks =~= old(ctx)@.video_sinks);
    }
}

/// Whether media acquisition uses fake devices.
pub fn is_fake_media(ctx: &Bridge) -> (fake: bool)
    ensures
        fake == ctx@.fake_media,
{
    ctx.fake_media
}

/// Asks the engine for the available media devices.
pub fn enumerate_devices(ctx: &Bridge) -> (call: EngineCall)
    ensures
        call == (EngineCall::EnumerateDevices { fake_media: ctx@.fake_media }),
{
    EngineCall::EnumerateDevices { fake_media: ctx.fake_media }
}

/// Asks the engine for the displays that can be captured.
pub fn enumerate_displays() -> (call: EngineCall)
    ensures
        call == EngineCall::EnumerateDisplays,
{
    EngineCall::EnumerateDisplays
}

/// Asks the engine for tracks that meet the given constraints.
pub fn get_media(ctx: &Bridge, constraints: MediaStreamConstraints) -> (call: EngineCall)
    ensures
        call == (EngineCall::GetMedia { constraints, fake_media: ctx@.fake_media }),
{
    EngineCall::GetMedia { constraints, fake_media: ctx.fake_media }
}

/// Asks the engine to play audio on the given device.
pub fn set_audio_playout_device(device_id: String) -> (call: EngineCall)
    ensures
        call == (EngineCall::SetAudioPlayoutDevice { device_id }),
{
    EngineCall::SetAudioPlayoutDevice { device_id }
}

/// Asks the engine whether the microphone volume can be set.
pub fn microphone_volume_is_available() -> (call: EngineCall)
    ensures
        call == EngineCall::MicrophoneVolumeIsAvailable,
{
    EngineCall::MicrophoneVolumeIsAvailable
}

/// The loudest microphone volume, in percent.
pub const MAX_VOLUME: u8 = 100;

/// Asks the engine to set the microphone volume to `level` percent.
///
/// Fails with [`BridgeError::Validation`] if `level` is above
/// [`MAX_VOLUME`]; nothing reaches the engine then.
pub fn set_microphone_volume(level: u8) -> (result: Result<EngineCall, BridgeError>)
    ensures
        result == if level <= MAX_VOLUME {
            Ok(EngineCall::SetMicrophoneVolume { level })
        } else {
            Err(BridgeError::Validation)
        },
{
    if level <= MAX_VOLUME {
        Ok(EngineCall::SetMicrophoneVolume { level })
    } else {
        Err(BridgeError::Validation)
    }
}

/// Asks the engine for the current microphone volume.
pub fn microphone_volume() -> (call: EngineCall)
    ensures
        call == EngineCall::MicrophoneVolume,
{
    EngineCall::MicrophoneVolume
}

/// Announces a track that the engine has created, so that it can be
/// addressed. Reports whether the key was new.
pub fn register_track(ctx: &mut Bridge, track_id: String, kind: MediaType) -> (added: bool)
    requires
        old(ctx).wf(),
    ensures
        final(ctx).wf(),
        added == !old(ctx)@.has_track(track_id@, kind),
        final(ctx)@ == old(ctx)@.registering(track_id@, kind),
{
    match ctx.find_track(&track_id, kind) {
        Some(_) => false,
        None => {
            ctx.tracks.push(Track { id: track_id, kind, observer: None });
            proof {
                assert(ctx@.tracks =~= old(ctx)@.tracks.push(
                    TrackView { id: track_id@, kind, observer: None },
                ));
                assert(ctx@.peers =~= old(ctx)@.peers);
                assert(ctx@.video_sinks =~= old(ctx)@.video_sinks);
            }
            true
        },
    }
}

/// The keys of these tracks, in their order.
pub open spec fn keys_of(tracks: Seq<MediaStreamTrack>) -> Seq<(Seq<char>, MediaType)> {
    tracks.map_values(|t: MediaStreamTrack| (t.id@, t.kind))
}

/// Takes the engine's answer to a media acquisition: registers every track
/// that it created and hands the answer on in the form that callers expect.
pub fn media_acquired(ctx: &mut Bridge, outcome: Result<Vec<MediaStreamTrack>, GetMediaError>) -> (result:
    GetMediaResult)
    requires
        old(ctx).wf(),
    ensures
        final(ctx).wf(),
        match outcome {
            Ok(tracks) => result == GetMediaResult::Acquired(tracks) && final(ctx)@ == old(ctx)@.registering_all(keys_of(tracks@)),
            Err(e) => result == GetMediaResult::Failed(e) && final(ctx)@ == old(ctx)@,
        },
{
    match outcome {
        Err(e) => GetMediaResult::Failed(e),
        Ok(tracks) => {
            let mut i: usize = 0;
            while i < tracks.len()
                invariant
                    ctx.wf(),
                    i <= tracks.len(),
                    ctx@ == old(ctx)@.registering_all(keys_of(tracks@).take(i as int)),
                decreases tracks.len() - i,
            {
                let id = tracks[i].id.clone();
                let kind = tracks[i].kind;
                proof {
                    let keys = keys_of(tracks@);
                    assert(keys.take(i + 1).drop_last() =~= keys.take(i as int));
                    assert(keys.take(i + 1).last() == (id@, kind));
                }
                register_track(ctx, id, kind);
                i += 1;
            }
            proof {
                assert(keys_of(tracks@).take(i as int) =~= keys_of(tracks@));
            }
            GetMediaResult::Acquired(tracks)
        },
    }
}

/// Closes the track of this key: it becomes unaddressable and the registry
/// lets go of its observer. Disposing an unknown track does nothing.
pub fn dispose_track(ctx: &mut Bridge, track_id: String, kind: MediaType) -> (call: Option<EngineCall>)
    requires
        old(ctx).wf(),
    ensures
        final(ctx).wf(),
        final(ctx)@ == old(ctx)@.after_track_disposal(track_id@, kind),
        !final(ctx)@.has_track(track_id@, kind),
        call == if old(ctx)@.has_track(track_id@, kind) {
            Some(EngineCall::DisposeTrack { track_id, kind })
        } else {
            None
        },
{
    match ctx.find_track(&track_id, kind) {
        None => None,
        Some(i) => {
            let track = ctx.tracks.remove(i);
            let Track { id: _, kind: _, observer } = track;
            let observed = observer.is_some();
            ctx.closes = Ghost(
                if observed {
                    ctx.closes@ + 1
                } else {
                    ctx.closes@
                },
            );
            proof {
                assert(ctx@.tracks =~= old(ctx)@.tracks.remove(i as int));
                assert(ctx@.peers =~= old(ctx)@.peers);
                assert(ctx@.video_sinks =~= old(ctx)@.video_sinks);
                assert forall|j: int| 0 <= j < ctx@.tracks.len() implies !((
                #[trigger] ctx@.tracks[j]).id == track_id@ && ctx@.tracks[j].kind == kind) by {
                    let gone = old(ctx)@.tracks[i as int];
                    if j < i {
                        assert(!(old(ctx)@.tracks[j].id == gone.id && old(ctx)@.tracks[j].kind
                            == gone.kind));
                    } else {
                        assert(!(old(ctx)@.tracks[j + 1].id == gone.id && old(ctx)@.tracks[j + 1].kind
                            == gone.kind));
                    }
                }
            }
            Some(EngineCall::DisposeTrack { track_id, kind })
        },
    }
}

/// Asks the engine for the state of a track.
///
/// Fails with [`BridgeError::NotFound`] if no track has this key.
pub fn track_state(ctx: &Bridge, track_id: String, kind: MediaType) -> (result: Result<
    EngineCall,
    BridgeError,
>)
    requires
        ctx.wf(),
    ensures
        result == if ctx@.has_track(track_id@, kind) {
            Ok(EngineCall::TrackState { track_id, kind })
        } else {
            Err(BridgeError::NotFound)
        },
{
    match ctx.find_track(&track_id, kind) {
        None => Err(BridgeError::NotFound),
        Some(_) => Ok(EngineCall::TrackState { track_id, kind }),
    }
}

/// Asks the engine to enable or disable a track.
///
/// Fails with [`BridgeError::NotFound`] if no track has this key.
pub fn set_track_enabled(ctx: &Bridge, track_id: String, kind: MediaType, enabled: bool) -> (result:
    Result<EngineCall, BridgeError>)
    requires
        ctx.wf(),
    ensures
        result == if ctx@.has_track(track_id@, kind) {
            Ok(EngineCall::SetTrackEnabled { track_id, kind, enabled })
        } else {
            Err(BridgeError::NotFound)
        },
{
    match ctx.find_track(&track_id, kind) {
        None => Err(BridgeError::NotFound),
        Some(_) => Ok(EngineCall::SetTrackEnabled { track_id, kind, enabled }),
    }
}

/// Asks the engine to clone a track. The clone is announced through
/// [`register_track`] once the engine has created it.
///
/// Fails with [`BridgeError::NotFound`] if no track has this key.
pub fn clone_track(ctx: &Bridge, track_id: String, kind: MediaType) -> (result: Result<
    EngineCall,
    BridgeError,
>)
    requires
        ctx.wf(),
    ensures
        result == if ctx@.has_track(track_id@, kind) {
            Ok(EngineCall::CloneTrack { track_id, kind })
        } else {
            Err(BridgeError::NotFound)
        },
{
    match ctx.find_track(&track_id, kind) {
        None => Err(BridgeError::NotFound),
        Some(_) => Ok(EngineCall::CloneTrack { track_id, kind }),
    }
}

/// Installs `cb` as the observer for the events of a track. It takes the
/// place of the previous observer of that track, which the registry lets go
/// of.
///
/// Fails with [`BridgeError::NotFound`] if no track has this key; the
/// registry lets go of `cb` then.
pub fn register_track_observer(
    ctx: &mut Bridge,
    cb: Sink<TrackEvent>,
    track_id: String,
    kind: MediaType,
) -> (result: Result<EngineCall, BridgeError>)
    requires
        old(ctx).wf(),
    ensures
        final(ctx).wf(),
        final(ctx)@ == old(ctx)@.after_observer(track_id@, kind, cb),
        result == if old(ctx)@.has_track(track_id@, kind) {
            Ok(EngineCall::WatchTrack { track_id, kind })
        } else {
            Err(BridgeError::NotFound)
        },
{
    match ctx.find_track(&track_id, kind) {
        None => {
            ctx.closes = Ghost(ctx.closes@ + 1);
            proof {
                assert(ctx@.peers =~= old(ctx)@.peers);
                assert(ctx@.tracks =~= old(ctx)@.tracks);
                assert(ctx@.video_sinks =~= old(ctx)@.video_sinks);
            }
            Err(BridgeError::NotFound)
        },
        Some(i) => {
            let previous = ctx.tracks[i].observer.take();
            ctx.tracks[i].observer = Some(cb);
            ctx.closes = Ghost(
                if previous.is_some() {
                    ctx.closes@ + 1
                } else {
                    ctx.closes@
                },
            );
            proof {
                let before = old(ctx)@.tracks[i as int];
                assert(ctx@.tracks =~= old(ctx)@.tracks.update(
                    i as int,
                    TrackView { observer: Some(cb), ..before },
                ));
                assert(ctx@.peers =~= old(ctx)@.peers);
                assert(ctx@.video_sinks =~= old(ctx)@.video_sinks);
            }
            Ok(EngineCall::WatchTrack { track_id, kind })
        },
    }
}

/// Installs `cb` as the listener for device-change notifications. Only one
/// can be installed at a time: it takes the place of the previous one, which
/// the registry lets go of.
pub fn set_on_device_changed(ctx: &mut Bridge, cb: Notifier) -> (call: EngineCall)
    requires
        old(ctx).wf(),
    ensures
        final(ctx).wf(),
        final(ctx)@ == old(ctx)@.after_device_listener(cb),
        call == EngineCall::WatchDevices,
{
    let previous = ctx.device_listener.take();
    ctx.device_listener = Some(cb);
    ctx.closes = Ghost(
        if previous.is_some() {
            ctx.closes@ + 1
        } else {
            ctx.closes@
        },
    );
    proof {
        assert(ctx@.peers =~= old(ctx)@.peers);
        assert(ctx@.tracks =~= old(ctx)@.tracks);
        assert(ctx@.video_sinks =~= old(ctx)@.video_sinks);
    }
    EngineCall::WatchDevices
}

/// Whether a video sink with this identifier can be attached to this track:
/// the video track exists and the identifier is free.
pub open spec fn can_create_video_sink(view: BridgeView, sink_id: i64, track_id: Seq<char>) -> bool {
    view.has_track(track_id, MediaType::Video) && !view.has_video_sink(sink_id)
}

/// Attaches a new video sink to a video track.
///
/// Fails with [`BridgeError::NotFound`] if no video track has this
/// identifier, and with [`BridgeError::Validation`] if the sink identifier is
/// in use.
pub fn create_video_sink(ctx: &mut Bridge, sink_id: i64, track_id: String, callback_ptr: u64) -> (result:
    Result<EngineCall, BridgeError>)
    requires
        old(ctx).wf(),
    ensures
        final(ctx).wf(),
        match result {
            Ok(call) => {
                &&& can_create_video_sink(old(ctx)@, sink_id, track_id@)
                &&& call == (EngineCall::CreateVideoSink { sink_id, track_id, callback_ptr })
                &&& final(ctx)@ == old(ctx)@.with_new_video_sink(
                    VideoSinkView { id: sink_id, track_id: track_id@, callback_ptr },
                )
            },
            Err(e) => {
                &&& !can_create_video_sink(old(ctx)@, sink_id, track_id@)
                &&& e == if old(ctx)@.has_track(track_id@, MediaType::Video) {
                    BridgeError::Validation
                } else {
                    BridgeError::NotFound
                }
                &&& final(ctx)@ == old(ctx)@
            },
        },
{
    if ctx.find_track(&track_id, MediaType::Video).is_none() {
        return Err(BridgeError::NotFound);
    }
    if ctx.find_video_sink(sink_id).is_some() {
        return Err(BridgeError::Validation);
    }
    ctx.video_sinks.push(VideoSink { id: sink_id, track_id: track_id.clone(), callback_ptr });
    proof {
        assert(ctx@.video_sinks =~= old(ctx)@.video_sinks.push(
            VideoSinkView { id: sink_id, track_id: track_id@, callback_ptr },
        ));
        assert(ctx@.peers =~= old(ctx)@.peers);
        assert(ctx@.tracks =~= old(ctx)@.tracks);
    }
    Ok(EngineCall::CreateVideoSink { sink_id, track_id, callback_ptr })
}

/// Removes the video sink with this identifier. Disposing an unknown sink
/// does nothing.
pub fn dispose_video_sink(ctx: &mut Bridge, sink_id: i64) -> (call: Option<EngineCall>)
    requires
        old(ctx).wf(),
    ensures
        final(ctx).wf(),
        !final(ctx)@.has_video_sink(sink_id),
        if old(ctx)@.has_video_sink(sink_id) {
            call == Some(EngineCall::DisposeVideoSink { sink_id }) && final(ctx)@ == old(ctx)@.without_video_sink(sink_id)
        } else {
            call.is_none() && final(ctx)@ == old(ctx)@
        },
{
    match ctx.find_video_sink(sink_id) {
        None => None,
        Some(i) => {
            ctx.video_sinks.remove(i);
            proof {
                assert(ctx@.video_sinks =~= old(ctx)@.video_sinks.remove(i as int));
                assert(ctx@.peers =~= old(ctx)@.peers);
                assert(ctx@.tracks =~= old(ctx)@.tracks);
                assert forall|j: int| 0 <= j < ctx@.video_sinks.len() implies (
                #[trigger] ctx@.video_sinks[j]).id != sink_id by {
                    if j < i {
                        assert(old(ctx)@.video_sinks[j].id != old(ctx)@.video_sinks[i as int].id);
                    } else {
                        assert(old(ctx)@.video_sinks[j + 1].id != old(ctx)@.video_sinks[i as int].id);
                    }
                }
            }
            Some(EngineCall::DisposeVideoSink { sink_id })
        },
    }
}

/// Tells the device-change listener that the set of devices has changed.
/// Reports whether the notification was delivered. The registry lets go of a
/// listener that cannot be reached, so that it is asked only once.
pub fn notify_device_changed(ctx: &mut Bridge) -> (delivered: bool)
    requires
        old(ctx).wf(),
    ensures
        final(ctx).wf(),
        delivered ==> old(ctx)@.device_listener is Some && final(ctx)@ == old(ctx)@,
        !delivered ==> final(ctx)@ == old(ctx)@.after_device_silence(),
{
    let delivered = match &ctx.device_listener {
        Some(sink) => sink.send(),
        None => false,
    };
    if !delivered {
        let gone = ctx.device_listener.take();
        ctx.closes = Ghost(
            if gone.is_some() {
                ctx.closes@ + 1
            } else {
                ctx.closes@
            },
        );
    }
    proof {
        assert(ctx@.peers =~= old(ctx)@.peers);
        assert(ctx@.tracks =~= old(ctx)@.tracks);
        assert(ctx@.video_sinks =~= old(ctx)@.video_sinks);
    }
    delivered
}

/// Hands an event of a peer connection to the listener of that peer.
/// Reports whether the event was delivered. The registry lets go of a
/// listener that cannot be reached; an event for an unknown peer is dropped.
pub fn notify_peer_event(ctx: &mut Bridge, peer_id: u64, event: PeerConnectionEvent) -> (delivered:
    bool)
    requires
        old(ctx).wf(),
    ensures
        final(ctx).wf(),
        delivered ==> old(ctx)@.has_peer(peer_id) && old(ctx)@.peer(peer_id).events is Some
            && final(ctx)@ == old(ctx)@,
        !delivered ==> final(ctx)@ == old(ctx)@.after_peer_silence(peer_id),
{
    let i = match ctx.find_peer(peer_id) {
        None => {
            return false;
        },
        Some(i) => i,
    };
    let delivered = match &ctx.peers[i].events {
        Some(sink) => sink.send(event),
        None => false,
    };
    if !delivered {
        let gone = ctx.peers[i].events.take();
        ctx.closes = Ghost(
            if gone.is_some() {
                ctx.closes@ + 1
            } else {
                ctx.closes@
            },
        );
    }
    proof {
        let before = old(ctx)@.peers[i as int];
        assert(ctx.peers[i as int].view().pending =~= before.pending);
        if delivered {
            assert(ctx@.peers =~= old(ctx)@.peers);
        } else {
            assert(ctx@.peers =~= old(ctx)@.peers.update(i as int, before.silenced()));
            if before.events is None {
                assert(before.silenced() == before);
                assert(ctx@.peers =~= old(ctx)@.peers);
            }
        }
        assert(ctx@.tracks =~= old(ctx)@.tracks);
        assert(ctx@.video_sinks =~= old(ctx)@.video_sinks);
    }
    delivered
}

/// Hands an event of a track to the observer of that track. Reports whether
/// the event was delivered. The registry lets go of an observer that cannot
/// be reached; an event for an unknown track is dropped.
pub fn notify_track_event(ctx: &mut Bridge, track_id: String, kind: MediaType, event: TrackEvent) -> (delivered:
    bool)
    requires
        old(ctx).wf(),
    ensures
        final(ctx).wf(),
        delivered ==> old(ctx)@.has_track(track_id@, kind) && old(ctx)@.track(
            track_id@,
            kind,
        ).observer is Some && final(ctx)@ == old(ctx)@,
        !delivered ==> final(ctx)@ == old(ctx)@.after_track_silence(track_id@, kind),
{
    let i = match ctx.find_track(&track_id, kind) {
        None => {
            return false;
        },
        Some(i) => i,
    };
    let delivered = match &ctx.tracks[i].observer {
        Some(sink) => sink.send(event),
        None => false,
    };
    if !delivered {
        let gone = ctx.tracks[i].observer.take();
        ctx.closes = Ghost(
            if gone.is_some() {
                ctx.closes@ + 1
            } else {
                ctx.closes@
            },
        );
    }
    proof {
        let before = old(ctx)@.tracks[i as int];
        if delivered {
            assert(ctx@.tracks =~= old(ctx)@.tracks);
        } else {
            assert(ctx@.tracks =~= old(ctx)@.tracks.update(
                i as int,
                TrackView { observer: None, ..before },
            ));
            if before.observer is None {
                assert(ctx@.tracks =~= old(ctx)@.tracks);
            }
        }
        assert(ctx@.peers =~= old(ctx)@.peers);
        assert(ctx@.video_sinks =~= old(ctx)@.video_sinks);
    }
    delivered
}

} // verus!

use std::sync::mpsc;
use std::time::{Duration, Instant};

use webrtc_bridge::api::{
    add_ice_candidate, add_transceiver, complete_request, create_answer, create_offer,
    create_peer_connection,
    dispose_peer_connection, get_peer_stats, get_transceivers, notify_peer_event, restart_ice,
    set_local_description, set_remote_description, Delivery,
};
use webrtc_bridge::error::BridgeError;
use webrtc_bridge::model::{
    Completion, EngineCall, MediaType, PeerConnectionEvent, PeerConnectionState, RtcConfiguration,
    RtcSessionDescription, RtpTransceiverDirection, SdpType,
};
use webrtc_bridge::registry::Bridge;
use webrtc_bridge::stream_sink::Sink;

fn configuration() -> RtcConfiguration {
    RtcConfiguration { relay_only: false, ice_servers: Vec::new() }
}

fn open_peer(ctx: &mut Bridge, peer_id: u64) -> mpsc::Receiver<PeerConnectionEvent> {
    let (tx, rx) = mpsc::channel();
    let call = create_peer_connection(ctx, peer_id, Sink::from(tx), configuration());
    assert_eq!(
        call,
        Ok(EngineCall::CreatePeerConnection { peer_id, configuration: configuration() })
    );
    rx
}

#[test]
fn create_offer_on_unknown_peer_is_not_found() {
    let mut ctx = Bridge::new();
    let result = create_offer(&mut ctx, 1, true, false, true);
    assert!(matches!(result, Err(BridgeError::NotFound)));
    // No request was opened: a completion under the first identifier finds nothing.
    assert_eq!(complete_request(&mut ctx, 1, 0, Ok(Completion::Done)), Delivery::Unknown);
}

#[test]
fn create_offer_yields_the_call_and_the_description() {
    let mut ctx = Bridge::new();
    let _events = open_peer(&mut ctx, 1);
    let dispatch = create_offer(&mut ctx, 1, true, false, true).unwrap();
    assert_eq!(
        dispatch.call,
        EngineCall::CreateOffer {
            peer_id: 1,
            request: 0,
            voice_activity_detection: true,
            ice_restart: false,
            use_rtp_mux: true,
        }
    );
    let description = RtcSessionDescription { sdp: "v=0".to_string(), kind: SdpType::Offer };
    let delivery =
        complete_request(&mut ctx, 1, 0, Ok(Completion::Description(description.clone())));
    assert_eq!(delivery, Delivery::Fulfilled);
    assert_eq!(dispatch.wait_description(), Ok(description));
}

#[test]
fn requests_of_a_peer_are_numbered_in_dispatch_order() {
    let mut ctx = Bridge::new();
    let _events = open_peer(&mut ctx, 7);
    let first = create_answer(&mut ctx, 7, false, false, false).unwrap();
    let second = set_local_description(&mut ctx, 7, SdpType::Answer, "sdp".to_string()).unwrap();
    let third = get_peer_stats(&mut ctx, 7).unwrap();
    assert_eq!(
        first.call,
        EngineCall::CreateAnswer {
            peer_id: 7,
            request: 0,
            voice_activity_detection: false,
            ice_restart: false,
            use_rtp_mux: false,
        }
    );
    assert_eq!(
        second.call,
        EngineCall::SetLocalDescription {
            peer_id: 7,
            request: 1,
            description: RtcSessionDescription { sdp: "sdp".to_string(), kind: SdpType::Answer },
        }
    );
    assert_eq!(third.call, EngineCall::GetStats { peer_id: 7, request: 2 });
}

#[test]
fn duplicate_peer_is_rejected_and_its_listener_closed() {
    let mut ctx = Bridge::new();
    let _events = open_peer(&mut ctx, 1);
    let (tx, rx) = mpsc::channel();
    let result = create_peer_connection(&mut ctx, 1, Sink::from(tx), configuration());
    assert_eq!(result, Err(BridgeError::Validation));
    assert_eq!(rx.try_recv(), Err(mpsc::TryRecvError::Disconnected));
}

#[test]
fn addressed_operations_on_unknown_peer_are_not_found() {
    let mut ctx = Bridge::new();
    let _events = open_peer(&mut ctx, 2);
    assert!(matches!(create_answer(&mut ctx, 1, true, true, true), Err(BridgeError::NotFound)));
    assert!(matches!(
        set_local_description(&mut ctx, 1, SdpType::Offer, String::new()),
        Err(BridgeError::NotFound)
    ));
    assert!(matches!(get_peer_stats(&mut ctx, 1), Err(BridgeError::NotFound)));
    assert_eq!(
        set_remote_description(&ctx, 1, SdpType::Offer, String::new()),
        Err(BridgeError::NotFound)
    );
    assert_eq!(restart_ice(&ctx, 1), Err(BridgeError::NotFound));
    assert_eq!(get_transceivers(&ctx, 1), Err(BridgeError::NotFound));
    assert_eq!(
        add_transceiver(&mut ctx, 1, MediaType::Audio, RtpTransceiverDirection::SendRecv),
        Err(BridgeError::NotFound)
    );
    assert_eq!(dispose_peer_connection(&mut ctx, 1), None);
}

#[test]
fn peer_events_reach_the_listener_of_their_peer() {
    let mut ctx = Bridge::new();
    let first = open_peer(&mut ctx, 1);
    let second = open_peer(&mut ctx, 2);
    let event = PeerConnectionEvent::ConnectionStateChange(PeerConnectionState::Connected);
    assert!(notify_peer_event(&mut ctx, 2, event.clone()));
    assert_eq!(second.try_recv(), Ok(event));
    assert_eq!(first.try_recv(), Err(mpsc::TryRecvError::Empty));
    assert!(!notify_peer_event(&mut ctx, 3, PeerConnectionEvent::NegotiationNeeded));
}

#[test]
fn dispose_closes_the_listener_and_abandons_requests() {
    let mut ctx = Bridge::new();
    let events = open_peer(&mut ctx, 1);
    let dispatch = create_offer(&mut ctx, 1, false, false, false).unwrap();
    assert_eq!(
        dispose_peer_connection(&mut ctx, 1),
        Some(EngineCall::DisposePeerConnection { peer_id: 1 })
    );
    assert_eq!(events.try_recv(), Err(mpsc::TryRecvError::Disconnected));
    assert_eq!(dispatch.wait_description(), Err(BridgeError::ChannelClosed));
    assert_eq!(complete_request(&mut ctx, 1, 0, Ok(Completion::Done)), Delivery::Unknown);
    // The second disposal is a no-op.
    assert_eq!(dispose_peer_connection(&mut ctx, 1), None);
    assert_eq!(restart_ice(&ctx, 1), Err(BridgeError::NotFound));
}

#[test]
fn dispose_leaves_other_peers_as_they_were() {
    let mut ctx = Bridge::new();
    let _first = open_peer(&mut ctx, 1);
    let second = open_peer(&mut ctx, 2);
    add_transceiver(&mut ctx, 2, MediaType::Video, RtpTransceiverDirection::SendOnly).unwrap();
    let pending = create_offer(&mut ctx, 2, true, false, false).unwrap();
    assert!(dispose_peer_connection(&mut ctx, 1).is_some());
    assert!(!ctx.has_peer(1));
    assert!(ctx.has_peer(2));
    assert_eq!(ctx.pending_requests(2), Some(1));
    assert_eq!(get_transceivers(&ctx, 2), Ok(EngineCall::GetTransceivers { peer_id: 2, count: 1 }));
    assert!(notify_peer_event(&mut ctx, 2, PeerConnectionEvent::NegotiationNeeded));
    assert_eq!(second.try_recv(), Ok(PeerConnectionEvent::NegotiationNeeded));
    assert_eq!(complete_request(&mut ctx, 2, 0, Ok(Completion::Done)), Delivery::Mismatched);
    let description = RtcSessionDescription { sdp: "o".to_string(), kind: SdpType::Offer };
    assert_eq!(
        complete_request(&mut ctx, 2, 0, Ok(Completion::Description(description.clone()))),
        Delivery::Fulfilled
    );
    assert_eq!(pending.wait_description(), Ok(description));
}

#[test]
fn peer_listener_that_left_is_asked_only_once() {
    let mut ctx = Bridge::new();
    let events = open_peer(&mut ctx, 1);
    assert!(notify_peer_event(&mut ctx, 1, PeerConnectionEvent::PeerCreated { id: 1 }));
    drop(events);
    assert!(!notify_peer_event(&mut ctx, 1, PeerConnectionEvent::NegotiationNeeded));
    assert!(!notify_peer_event(&mut ctx, 1, PeerConnectionEvent::NegotiationNeeded));
    // The peer itself stays addressable.
    assert_eq!(restart_ice(&ctx, 1), Ok(EngineCall::RestartIce { peer_id: 1 }));
}

#[test]
fn offer_that_the_engine_never_completes_times_out_after_five_seconds() {
    let mut ctx = Bridge::new();
    let _events = open_peer(&mut ctx, 1);
    let dispatch = create_offer(&mut ctx, 1, true, false, true).unwrap();
    let started = Instant::now();
    assert_eq!(dispatch.wait_description(), Err(BridgeError::Timeout));
    let elapsed = started.elapsed();
    assert!(elapsed >= Duration::from_secs(5));
    assert!(elapsed < Duration::from_secs(15));
    // The peer stays registered, and the late completion is dropped.
    assert!(ctx.has_peer(1));
    let description = RtcSessionDescription { sdp: "late".to_string(), kind: SdpType::Offer };
    assert_eq!(
        complete_request(&mut ctx, 1, 0, Ok(Completion::Description(description))),
        Delivery::Discarded
    );
}

#[test]
fn candidate_that_the_engine_never_takes_times_out_after_five_seconds() {
    let mut ctx = Bridge::new();
    let _events = open_peer(&mut ctx, 1);
    let dispatch = add_ice_candidate(&mut ctx, 1, "c".to_string(), "0".to_string(), 0).unwrap();
    let started = Instant::now();
    assert_eq!(dispatch.wait_done(), Err(BridgeError::Timeout));
    let elapsed = started.elapsed();
    assert!(elapsed >= Duration::from_secs(5));
    assert!(elapsed < Duration::from_secs(15));
    assert_eq!(restart_ice(&ctx, 1), Ok(EngineCall::RestartIce { peer_id: 1 }));
}

#[test]
fn stats_that_the_engine_never_reports_time_out_after_five_seconds() {
    let mut ctx = Bridge::new();
    let _events = open_peer(&mut ctx, 1);
    let dispatch = get_peer_stats(&mut ctx, 1).unwrap();
    let started = Instant::now();
    assert_eq!(dispatch.wait_stats(), Err(BridgeError::Timeout));
    let elapsed = started.elapsed();
    assert!(elapsed >= Duration::from_secs(5));
    assert!(elapsed < Duration::from_secs(15));
}

#[test]
fn answer_that_arrives_in_time_comes_back_unchanged() {
    let mut ctx = Bridge::new();
    let _events = open_peer(&mut ctx, 1);
    let dispatch = create_answer(&mut ctx, 1, true, false, true).unwrap();
    let description = RtcSessionDescription { sdp: "answer".to_string(), kind: SdpType::Answer };
    assert_eq!(
        complete_request(&mut ctx, 1, 0, Ok(Completion::Description(description.clone()))),
        Delivery::Fulfilled
    );
    let started = Instant::now();
    assert_eq!(dispatch.wait_description(), Ok(description));
    assert!(started.elapsed() < Duration::from_secs(5));
}

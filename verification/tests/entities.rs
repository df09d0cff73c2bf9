use std::sync::mpsc;
use std::sync::{Arc, Mutex};

use flutter_rust_bridge::rust2dart::Rust2Dart;
use flutter_rust_bridge::StreamSink;

use webrtc_bridge::api::{
    add_ice_candidate, add_transceiver, clone_track, complete_request, create_offer,
    create_peer_connection, create_video_sink, dispose_peer_connection, dispose_track,
    dispose_video_sink, enable_fake_media, enumerate_devices, enumerate_displays, get_media,
    get_peer_stats, get_transceiver_direction, get_transceiver_mid, get_transceivers,
    is_fake_media, media_acquired, microphone_volume, microphone_volume_is_available,
    notify_device_changed, notify_track_event, register_track, register_track_observer,
    sender_replace_track, set_audio_playout_device, set_microphone_volume,
    set_on_device_changed, set_remote_description, set_track_enabled, set_transceiver_direction,
    set_transceiver_recv, set_transceiver_send, stop_transceiver, track_state, transceiver_kind,
    Delivery, MAX_VOLUME,
};
use webrtc_bridge::error::BridgeError;
use webrtc_bridge::model::{
    AudioConstraints, Completion, EngineCall, GetMediaError, GetMediaResult, IceCandidate,
    MediaStreamConstraints, MediaStreamTrack, MediaType, PeerConnectionEvent, RtcConfiguration,
    RtcIceServer, RtcSessionDescription, RtcStats, RtpTransceiverDirection, SdpType, TrackEvent,
    VideoConstraints,
};
use webrtc_bridge::registry::Bridge;
use webrtc_bridge::stream_sink::{dart_api, Notifier, Sink};

fn bridge_with_peer(peer_id: u64) -> (Bridge, mpsc::Receiver<PeerConnectionEvent>) {
    let mut ctx = Bridge::new();
    let (tx, rx) = mpsc::channel();
    let configuration = RtcConfiguration {
        relay_only: true,
        ice_servers: vec![RtcIceServer {
            urls: vec!["stun:example.org".to_string()],
            username: "u".to_string(),
            credential: "c".to_string(),
        }],
    };
    let call = create_peer_connection(&mut ctx, peer_id, Sink::from(tx), configuration.clone());
    assert_eq!(call, Ok(EngineCall::CreatePeerConnection { peer_id, configuration }));
    (ctx, rx)
}

fn track(id: &str, kind: MediaType) -> MediaStreamTrack {
    MediaStreamTrack { id: id.to_string(), device_id: "dev".to_string(), kind, enabled: true }
}

#[test]
fn transceivers_get_indices_in_the_order_of_their_addition() {
    let (mut ctx, _events) = bridge_with_peer(1);
    assert_eq!(get_transceivers(&ctx, 1), Ok(EngineCall::GetTransceivers { peer_id: 1, count: 0 }));
    assert_eq!(
        add_transceiver(&mut ctx, 1, MediaType::Audio, RtpTransceiverDirection::SendRecv),
        Ok(EngineCall::AddTransceiver {
            peer_id: 1,
            index: 0,
            media_type: MediaType::Audio,
            direction: RtpTransceiverDirection::SendRecv,
        })
    );
    assert_eq!(
        add_transceiver(&mut ctx, 1, MediaType::Video, RtpTransceiverDirection::RecvOnly),
        Ok(EngineCall::AddTransceiver {
            peer_id: 1,
            index: 1,
            media_type: MediaType::Video,
            direction: RtpTransceiverDirection::RecvOnly,
        })
    );
    assert_eq!(get_transceivers(&ctx, 1), Ok(EngineCall::GetTransceivers { peer_id: 1, count: 2 }));
    assert_eq!(transceiver_kind(&ctx, 1, 0), Ok(MediaType::Audio));
    assert_eq!(transceiver_kind(&ctx, 1, 1), Ok(MediaType::Video));
    assert_eq!(transceiver_kind(&ctx, 1, 2), Err(BridgeError::NotFound));
}

#[test]
fn additions_under_the_lock_both_succeed_in_lock_order() {
    let (ctx, _events) = bridge_with_peer(1);
    let shared = Arc::new(Mutex::new(ctx));
    let mut indices = Vec::new();
    for media_type in [MediaType::Audio, MediaType::Video] {
        let caller = Arc::clone(&shared);
        let mut ctx = caller.lock().unwrap();
        match add_transceiver(&mut ctx, 1, media_type, RtpTransceiverDirection::SendRecv) {
            Ok(EngineCall::AddTransceiver { peer_id, index, media_type, direction }) => {
                assert_eq!(peer_id, 1);
                assert_eq!(direction, RtpTransceiverDirection::SendRecv);
                indices.push((index, media_type));
            }
            other => panic!("unexpected result: {:?}", other),
        }
    }
    assert_eq!(indices, vec![(0, MediaType::Audio), (1, MediaType::Video)]);
    let ctx = shared.lock().unwrap();
    assert_eq!(get_transceivers(&ctx, 1), Ok(EngineCall::GetTransceivers { peer_id: 1, count: 2 }));
    // The registry holds each transceiver at the index that its call was given.
    assert_eq!(transceiver_kind(&ctx, 1, 0), Ok(MediaType::Audio));
    assert_eq!(transceiver_kind(&ctx, 1, 1), Ok(MediaType::Video));
}

#[test]
fn transceiver_operations_validate_peer_and_index() {
    let (mut ctx, _events) = bridge_with_peer(4);
    add_transceiver(&mut ctx, 4, MediaType::Video, RtpTransceiverDirection::SendOnly).unwrap();
    assert_eq!(
        set_transceiver_direction(&ctx, 4, 0, RtpTransceiverDirection::Inactive),
        Ok(EngineCall::SetTransceiverDirection {
            peer_id: 4,
            index: 0,
            direction: RtpTransceiverDirection::Inactive,
        })
    );
    assert_eq!(
        set_transceiver_recv(&ctx, 4, 0, true),
        Ok(EngineCall::SetTransceiverRecv { peer_id: 4, index: 0, recv: true })
    );
    assert_eq!(
        set_transceiver_send(&ctx, 4, 0, false),
        Ok(EngineCall::SetTransceiverSend { peer_id: 4, index: 0, send: false })
    );
    assert_eq!(
        get_transceiver_mid(&ctx, 4, 0),
        Ok(EngineCall::GetTransceiverMid { peer_id: 4, index: 0 })
    );
    assert_eq!(
        get_transceiver_direction(&ctx, 4, 0),
        Ok(EngineCall::GetTransceiverDirection { peer_id: 4, index: 0 })
    );
    assert_eq!(
        stop_transceiver(&ctx, 4, 0),
        Ok(EngineCall::StopTransceiver { peer_id: 4, index: 0 })
    );
    for (peer_id, index) in [(4u64, 1u32), (5, 0), (4, u32::MAX)] {
        assert_eq!(
            set_transceiver_direction(&ctx, peer_id, index, RtpTransceiverDirection::SendRecv),
            Err(BridgeError::NotFound)
        );
        assert_eq!(set_transceiver_recv(&ctx, peer_id, index, true), Err(BridgeError::NotFound));
        assert_eq!(set_transceiver_send(&ctx, peer_id, index, true), Err(BridgeError::NotFound));
        assert_eq!(get_transceiver_mid(&ctx, peer_id, index), Err(BridgeError::NotFound));
        assert_eq!(get_transceiver_direction(&ctx, peer_id, index), Err(BridgeError::NotFound));
        assert_eq!(stop_transceiver(&ctx, peer_id, index), Err(BridgeError::NotFound));
        assert_eq!(sender_replace_track(&ctx, peer_id, index, None), Err(BridgeError::NotFound));
    }
}

#[test]
fn transceivers_of_a_disposed_peer_are_unaddressable() {
    let (mut ctx, _events) = bridge_with_peer(1);
    add_transceiver(&mut ctx, 1, MediaType::Audio, RtpTransceiverDirection::SendRecv).unwrap();
    assert!(dispose_peer_connection(&mut ctx, 1).is_some());
    assert_eq!(stop_transceiver(&ctx, 1, 0), Err(BridgeError::NotFound));
    assert_eq!(get_transceivers(&ctx, 1), Err(BridgeError::NotFound));
    // A peer that is created again under the same identifier starts afresh.
    let (tx, _rx) = mpsc::channel();
    let configuration = RtcConfiguration { relay_only: false, ice_servers: Vec::new() };
    assert!(create_peer_connection(&mut ctx, 1, Sink::from(tx), configuration).is_ok());
    assert_eq!(get_transceivers(&ctx, 1), Ok(EngineCall::GetTransceivers { peer_id: 1, count: 0 }));
}

#[test]
fn sender_takes_only_tracks_of_its_media_type() {
    let (mut ctx, _events) = bridge_with_peer(1);
    add_transceiver(&mut ctx, 1, MediaType::Audio, RtpTransceiverDirection::SendRecv).unwrap();
    assert!(register_track(&mut ctx, "mic".to_string(), MediaType::Audio));
    assert!(register_track(&mut ctx, "cam".to_string(), MediaType::Video));
    assert_eq!(
        sender_replace_track(&ctx, 1, 0, Some("mic".to_string())),
        Ok(EngineCall::ReplaceTrack { peer_id: 1, index: 0, track_id: Some("mic".to_string()) })
    );
    assert_eq!(
        sender_replace_track(&ctx, 1, 0, None),
        Ok(EngineCall::ReplaceTrack { peer_id: 1, index: 0, track_id: None })
    );
    assert_eq!(
        sender_replace_track(&ctx, 1, 0, Some("cam".to_string())),
        Err(BridgeError::NotFound)
    );
    assert_eq!(
        sender_replace_track(&ctx, 1, 0, Some("nope".to_string())),
        Err(BridgeError::NotFound)
    );
}

#[test]
fn immediate_peer_operations_name_their_call() {
    let (ctx, _events) = bridge_with_peer(3);
    assert_eq!(
        set_remote_description(&ctx, 3, SdpType::PrAnswer, "remote".to_string()),
        Ok(EngineCall::SetRemoteDescription {
            peer_id: 3,
            description: RtcSessionDescription {
                sdp: "remote".to_string(),
                kind: SdpType::PrAnswer,
            },
        })
    );
}

#[test]
fn ice_candidate_request_is_completed_once() {
    let (mut ctx, _events) = bridge_with_peer(1);
    let dispatch =
        add_ice_candidate(&mut ctx, 1, "candidate:1".to_string(), "0".to_string(), 0).unwrap();
    assert_eq!(
        dispatch.call,
        EngineCall::AddIceCandidate {
            peer_id: 1,
            request: 0,
            candidate: IceCandidate {
                candidate: "candidate:1".to_string(),
                sdp_mid: "0".to_string(),
                sdp_mline_index: 0,
            },
        }
    );
    // A value of another kind is refused and the request stays in flight.
    let description = RtcSessionDescription { sdp: String::new(), kind: SdpType::Offer };
    assert_eq!(
        complete_request(&mut ctx, 1, 0, Ok(Completion::Description(description))),
        Delivery::Mismatched
    );
    assert_eq!(complete_request(&mut ctx, 1, 1, Ok(Completion::Done)), Delivery::Unknown);
    assert_eq!(complete_request(&mut ctx, 2, 0, Ok(Completion::Done)), Delivery::Unknown);
    assert_eq!(complete_request(&mut ctx, 1, 0, Ok(Completion::Done)), Delivery::Fulfilled);
    assert_eq!(complete_request(&mut ctx, 1, 0, Ok(Completion::Done)), Delivery::Unknown);
    assert_eq!(dispatch.wait_done(), Ok(()));
}

#[test]
fn engine_failure_reaches_the_waiting_caller() {
    let (mut ctx, _events) = bridge_with_peer(1);
    let dispatch = create_offer(&mut ctx, 1, false, true, false).unwrap();
    assert_eq!(
        complete_request(&mut ctx, 1, 0, Err("no transport".to_string())),
        Delivery::Fulfilled
    );
    assert_eq!(dispatch.wait_description(), Err(BridgeError::Engine("no transport".to_string())));
}

#[test]
fn late_completion_is_discarded() {
    let (mut ctx, _events) = bridge_with_peer(1);
    let dispatch = get_peer_stats(&mut ctx, 1).unwrap();
    assert_eq!(dispatch.waiter.wait_for(20), Err(BridgeError::Timeout));
    let stats = vec![RtcStats { id: "a".to_string(), timestamp_us: 1, report: String::new() }];
    assert_eq!(
        complete_request(&mut ctx, 1, 0, Ok(Completion::Stats(stats))),
        Delivery::Discarded
    );
    assert_eq!(complete_request(&mut ctx, 1, 0, Ok(Completion::Stats(Vec::new()))), Delivery::Unknown);
}

#[test]
fn concurrent_stats_requests_get_their_own_completions() {
    let (mut ctx, _events) = bridge_with_peer(1);
    let first = get_peer_stats(&mut ctx, 1).unwrap();
    let second = get_peer_stats(&mut ctx, 1).unwrap();
    assert_eq!(first.call, EngineCall::GetStats { peer_id: 1, request: 0 });
    assert_eq!(second.call, EngineCall::GetStats { peer_id: 1, request: 1 });
    let late = vec![RtcStats { id: "late".to_string(), timestamp_us: 2, report: "b".to_string() }];
    let early = vec![RtcStats { id: "early".to_string(), timestamp_us: 1, report: "a".to_string() }];
    assert_eq!(
        complete_request(&mut ctx, 1, 1, Ok(Completion::Stats(late.clone()))),
        Delivery::Fulfilled
    );
    assert_eq!(
        complete_request(&mut ctx, 1, 0, Ok(Completion::Stats(early.clone()))),
        Delivery::Fulfilled
    );
    assert_eq!(first.wait_stats(), Ok(early));
    assert_eq!(second.wait_stats(), Ok(late));
}

#[test]
fn volume_outside_the_range_never_reaches_the_engine() {
    assert_eq!(MAX_VOLUME, 100);
    assert_eq!(set_microphone_volume(0), Ok(EngineCall::SetMicrophoneVolume { level: 0 }));
    assert_eq!(set_microphone_volume(100), Ok(EngineCall::SetMicrophoneVolume { level: 100 }));
    assert_eq!(set_microphone_volume(101), Err(BridgeError::Validation));
    assert_eq!(set_microphone_volume(255), Err(BridgeError::Validation));
}

#[test]
fn device_operations_name_their_call() {
    let mut ctx = Bridge::new();
    assert!(!is_fake_media(&ctx));
    assert_eq!(enumerate_devices(&ctx), EngineCall::EnumerateDevices { fake_media: false });
    enable_fake_media(&mut ctx);
    assert!(is_fake_media(&ctx));
    assert_eq!(enumerate_devices(&ctx), EngineCall::EnumerateDevices { fake_media: true });
    assert_eq!(enumerate_displays(), EngineCall::EnumerateDisplays);
    assert_eq!(microphone_volume(), EngineCall::MicrophoneVolume);
    assert_eq!(microphone_volume_is_available(), EngineCall::MicrophoneVolumeIsAvailable);
    assert_eq!(
        set_audio_playout_device("speaker".to_string()),
        EngineCall::SetAudioPlayoutDevice { device_id: "speaker".to_string() }
    );
    let constraints = MediaStreamConstraints {
        audio: Some(AudioConstraints { device_id: None }),
        video: Some(VideoConstraints {
            device_id: Some("cam0".to_string()),
            width: 640,
            height: 480,
            frame_rate: 30,
            is_display: false,
        }),
    };
    assert_eq!(
        get_media(&ctx, constraints.clone()),
        EngineCall::GetMedia { constraints, fake_media: true }
    );
}

#[test]
fn new_device_listener_closes_exactly_the_previous_one() {
    let mut ctx = Bridge::new();
    assert!(!notify_device_changed(&mut ctx));
    let (first_tx, first_rx) = mpsc::channel();
    let (second_tx, second_rx) = mpsc::channel();
    assert_eq!(
        set_on_device_changed(&mut ctx, Notifier::Channel(Sink::from(first_tx))),
        EngineCall::WatchDevices
    );
    assert!(notify_device_changed(&mut ctx));
    assert_eq!(first_rx.try_recv(), Ok(()));
    assert_eq!(
        set_on_device_changed(&mut ctx, Notifier::Channel(Sink::from(second_tx))),
        EngineCall::WatchDevices
    );
    assert_eq!(first_rx.try_recv(), Err(mpsc::TryRecvError::Disconnected));
    assert_eq!(second_rx.try_recv(), Err(mpsc::TryRecvError::Empty));
    assert!(notify_device_changed(&mut ctx));
    assert_eq!(second_rx.try_recv(), Ok(()));
    assert!(ctx.watches_devices());
    // A listener that went away is dropped at the first failed notification.
    drop(second_rx);
    assert!(!notify_device_changed(&mut ctx));
    assert!(!ctx.watches_devices());
    assert!(!notify_device_changed(&mut ctx));
}

#[test]
fn after_several_registrations_only_the_last_listener_listens() {
    let mut ctx = Bridge::new();
    let mut listeners = Vec::new();
    for _ in 0..4 {
        let (tx, rx) = mpsc::channel();
        set_on_device_changed(&mut ctx, Notifier::Channel(Sink::from(tx)));
        listeners.push(rx);
    }
    assert!(notify_device_changed(&mut ctx));
    let last = listeners.pop().unwrap();
    assert_eq!(last.try_recv(), Ok(()));
    assert_eq!(last.try_recv(), Err(mpsc::TryRecvError::Empty));
    for earlier in listeners {
        assert_eq!(earlier.try_recv(), Err(mpsc::TryRecvError::Disconnected));
    }
}

#[test]
fn replaced_listener_lives_on_while_a_clone_is_held() {
    let mut ctx = Bridge::new();
    let (first_tx, first_rx) = mpsc::channel();
    let (second_tx, _second_rx) = mpsc::channel();
    let first = Sink::from(first_tx);
    let held = first.clone();
    set_on_device_changed(&mut ctx, Notifier::Channel(first));
    set_on_device_changed(&mut ctx, Notifier::Channel(Sink::from(second_tx)));
    // The registry has let go of its handle; the stream ends with the last one.
    assert_eq!(first_rx.try_recv(), Err(mpsc::TryRecvError::Empty));
    assert!(held.send(()));
    assert_eq!(first_rx.try_recv(), Ok(()));
    drop(held);
    assert_eq!(first_rx.try_recv(), Err(mpsc::TryRecvError::Disconnected));
}

#[test]
fn device_listener_over_a_stream_is_dropped_when_nobody_takes_its_values() {
    let mut ctx = Bridge::new();
    let stream = StreamSink::<()>::new(Rust2Dart::new(7));
    let listener = Notifier::Stream(dart_api::Sink::from(stream));
    assert!(!listener.clone().send());
    assert_eq!(set_on_device_changed(&mut ctx, listener), EngineCall::WatchDevices);
    assert!(ctx.watches_devices());
    // No other side is attached to the stream here, so nothing can be delivered.
    assert!(!notify_device_changed(&mut ctx));
    assert!(!ctx.watches_devices());
}

#[test]
fn registry_answers_what_it_knows() {
    let (mut ctx, _events) = bridge_with_peer(9);
    assert!(ctx.has_peer(9));
    assert!(!ctx.has_peer(8));
    assert_eq!(ctx.pending_requests(9), Some(0));
    assert_eq!(ctx.pending_requests(8), None);
    let first = create_offer(&mut ctx, 9, true, true, true).unwrap();
    let _second = get_peer_stats(&mut ctx, 9).unwrap();
    assert_eq!(first.call.request(), Some(0));
    assert_eq!(ctx.pending_requests(9), Some(2));
    assert!(matches!(create_offer(&mut ctx, 8, true, true, true), Err(BridgeError::NotFound)));
    assert_eq!(ctx.pending_requests(9), Some(2));
    assert_eq!(complete_request(&mut ctx, 9, 0, Err("failed".to_string())), Delivery::Fulfilled);
    assert_eq!(ctx.pending_requests(9), Some(1));
    assert!(register_track(&mut ctx, "t".to_string(), MediaType::Video));
    assert!(ctx.has_track(&"t".to_string(), MediaType::Video));
    assert!(!ctx.has_track(&"t".to_string(), MediaType::Audio));
    assert!(create_video_sink(&mut ctx, 1, "t".to_string(), 5).is_ok());
    assert!(ctx.has_video_sink(1));
    assert!(!ctx.has_video_sink(2));
    assert_eq!(enumerate_displays().request(), None);
}

#[test]
fn acquired_media_registers_its_tracks() {
    let mut ctx = Bridge::new();
    let tracks = vec![track("a1", MediaType::Audio), track("v1", MediaType::Video)];
    assert_eq!(media_acquired(&mut ctx, Ok(tracks.clone())), GetMediaResult::Acquired(tracks));
    assert_eq!(
        track_state(&ctx, "a1".to_string(), MediaType::Audio),
        Ok(EngineCall::TrackState { track_id: "a1".to_string(), kind: MediaType::Audio })
    );
    assert_eq!(
        set_track_enabled(&ctx, "v1".to_string(), MediaType::Video, false),
        Ok(EngineCall::SetTrackEnabled {
            track_id: "v1".to_string(),
            kind: MediaType::Video,
            enabled: false,
        })
    );
    assert_eq!(
        clone_track(&ctx, "v1".to_string(), MediaType::Video),
        Ok(EngineCall::CloneTrack { track_id: "v1".to_string(), kind: MediaType::Video })
    );
    // A track is addressed by its identifier and its media type together.
    assert_eq!(track_state(&ctx, "a1".to_string(), MediaType::Video), Err(BridgeError::NotFound));
    assert_eq!(clone_track(&ctx, "zz".to_string(), MediaType::Audio), Err(BridgeError::NotFound));
    assert_eq!(
        set_track_enabled(&ctx, "zz".to_string(), MediaType::Audio, true),
        Err(BridgeError::NotFound)
    );
    let failure = GetMediaError::Video("no camera".to_string());
    assert_eq!(media_acquired(&mut ctx, Err(failure.clone())), GetMediaResult::Failed(failure));
    assert!(!register_track(&mut ctx, "a1".to_string(), MediaType::Audio));
    assert!(register_track(&mut ctx, "a1".to_string(), MediaType::Video));
}

#[test]
fn track_observer_is_replaced_and_closed_with_its_track() {
    let mut ctx = Bridge::new();
    let (lost_tx, lost_rx) = mpsc::channel();
    assert_eq!(
        register_track_observer(&mut ctx, Sink::from(lost_tx), "t".to_string(), MediaType::Audio),
        Err(BridgeError::NotFound)
    );
    assert_eq!(lost_rx.try_recv(), Err(mpsc::TryRecvError::Disconnected));
    assert!(register_track(&mut ctx, "t".to_string(), MediaType::Audio));
    assert!(!notify_track_event(&mut ctx, "t".to_string(), MediaType::Audio, TrackEvent::Ended));
    let (first_tx, first_rx) = mpsc::channel();
    let (second_tx, second_rx) = mpsc::channel();
    assert_eq!(
        register_track_observer(&mut ctx, Sink::from(first_tx), "t".to_string(), MediaType::Audio),
        Ok(EngineCall::WatchTrack { track_id: "t".to_string(), kind: MediaType::Audio })
    );
    assert!(register_track_observer(
        &mut ctx,
        Sink::from(second_tx),
        "t".to_string(),
        MediaType::Audio
    )
    .is_ok());
    assert_eq!(first_rx.try_recv(), Err(mpsc::TryRecvError::Disconnected));
    assert!(notify_track_event(&mut ctx, "t".to_string(), MediaType::Audio, TrackEvent::Ended));
    assert_eq!(second_rx.try_recv(), Ok(TrackEvent::Ended));
    assert!(!notify_track_event(&mut ctx, "t".to_string(), MediaType::Video, TrackEvent::Ended));
    assert_eq!(
        dispose_track(&mut ctx, "t".to_string(), MediaType::Audio),
        Some(EngineCall::DisposeTrack { track_id: "t".to_string(), kind: MediaType::Audio })
    );
    assert_eq!(second_rx.try_recv(), Err(mpsc::TryRecvError::Disconnected));
    assert_eq!(dispose_track(&mut ctx, "t".to_string(), MediaType::Audio), None);
    assert_eq!(track_state(&ctx, "t".to_string(), MediaType::Audio), Err(BridgeError::NotFound));
}

#[test]
fn video_sinks_attach_to_video_tracks_under_free_identifiers() {
    let mut ctx = Bridge::new();
    assert!(register_track(&mut ctx, "cam".to_string(), MediaType::Video));
    assert!(register_track(&mut ctx, "mic".to_string(), MediaType::Audio));
    assert_eq!(
        create_video_sink(&mut ctx, -3, "cam".to_string(), 0xdead),
        Ok(EngineCall::CreateVideoSink {
            sink_id: -3,
            track_id: "cam".to_string(),
            callback_ptr: 0xdead,
        })
    );
    assert_eq!(
        create_video_sink(&mut ctx, -3, "cam".to_string(), 1),
        Err(BridgeError::Validation)
    );
    assert_eq!(create_video_sink(&mut ctx, 4, "mic".to_string(), 1), Err(BridgeError::NotFound));
    assert_eq!(create_video_sink(&mut ctx, -3, "nope".to_string(), 1), Err(BridgeError::NotFound));
    assert_eq!(dispose_video_sink(&mut ctx, 4), None);
    assert_eq!(
        dispose_video_sink(&mut ctx, -3),
        Some(EngineCall::DisposeVideoSink { sink_id: -3 })
    );
    assert_eq!(dispose_video_sink(&mut ctx, -3), None);
    assert!(create_video_sink(&mut ctx, -3, "cam".to_string(), 2).is_ok());
}

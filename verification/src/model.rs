//! Plain values that cross the bridge: session descriptions, candidates,
//! events, and the calls that the bridge asks the engine to perform.

use vstd::prelude::*;

verus! {

/// Kind of media that a track or a transceiver carries.
#[derive(Debug, Clone, Copy, PartialEq, Eq, Hash, Structural)]
pub enum MediaType {
    Audio,
    Video,
}

/// Role of a session description in the offer/answer exchange.
#[derive(Debug, Clone, Copy, PartialEq, Eq, Structural)]
pub enum SdpType {
    Offer,
    PrAnswer,
    Answer,
    Rollback,
}

/// Preferred direction of a transceiver.
#[derive(Debug, Clone, Copy, PartialEq, Eq, Structural)]
pub enum RtpTransceiverDirection {
    SendRecv,
    SendOnly,
    RecvOnly,
    Stopped,
    Inactive,
}

/// Overall connectivity state of a peer connection.
#[derive(Debug, Clone, Copy, PartialEq, Eq, Structural)]
pub enum PeerConnectionState {
    New,
    Connecting,
    Connected,
    Disconnected,
    Failed,
    Closed,
}

/// A session description. The bridge carries its payload untouched.
#[derive(Debug, Clone, PartialEq, Eq)]
pub struct RtcSessionDescription {
    pub sdp: String,
    pub kind: SdpType,
}

/// A candidate network path discovered by the engine or by the remote side.
#[derive(Debug, Clone, PartialEq, Eq)]
pub struct IceCandidate {
    pub candidate: String,
    pub sdp_mid: String,
    pub sdp_mline_index: i32,
}

/// A server that the engine may use to discover network paths.
#[derive(Debug, Clone, PartialEq, Eq)]
pub struct RtcIceServer {
    pub urls: Vec<String>,
    pub username: String,
    pub credential: String,
}

/// Settings of a new peer connection.
#[derive(Debug, Clone, PartialEq, Eq)]
pub struct RtcConfiguration {
    pub relay_only: bool,
    pub ice_servers: Vec<RtcIceServer>,
}

/// Wishes for an audio track.
#[derive(Debug, Clone, PartialEq, Eq)]
pub struct AudioConstraints {
    pub device_id: Option<String>,
}

/// Wishes for a video track.
#[derive(Debug, Clone, PartialEq, Eq)]
pub struct VideoConstraints {
    pub device_id: Option<String>,
    pub width: u32,
    pub height: u32,
    pub frame_rate: u32,
    pub is_display: bool,
}

/// Which tracks a caller asks for, and how.
#[derive(Debug, Clone, PartialEq, Eq)]
pub struct MediaStreamConstraints {
    pub audio: Option<AudioConstraints>,
    pub video: Option<VideoConstraints>,
}

/// A track as the engine describes it.
#[derive(Debug, Clone, PartialEq, Eq)]
pub struct MediaStreamTrack {
    pub id: String,
    pub device_id: String,
    pub kind: MediaType,
    pub enabled: bool,
}

/// Why the engine could not acquire media.
#[derive(Debug, Clone, PartialEq, Eq)]
pub enum GetMediaError {
    Audio(String),
    Video(String),
}

/// Outcome of a media acquisition.
#[derive(Debug, Clone, PartialEq, Eq)]
pub enum GetMediaResult {
    Acquired(Vec<MediaStreamTrack>),
    Failed(GetMediaError),
}

/// One record of a statistics report.
#[derive(Debug, Clone, PartialEq, Eq)]
pub struct RtcStats {
    pub id: String,
    pub timestamp_us: i64,
    pub report: String,
}

/// An event of a peer connection.
#[derive(Debug, Clone, PartialEq, Eq)]
pub enum PeerConnectionEvent {
    PeerCreated { id: u64 },
    IceCandidate(IceCandidate),
    NegotiationNeeded,
    ConnectionStateChange(PeerConnectionState),
    Track { track_id: String, kind: MediaType },
}

/// An event of a track.
#[derive(Debug, Clone, Copy, PartialEq, Eq, Structural)]
pub enum TrackEvent {
    Ended,
}

/// What kind of value fulfils a pending request.
#[derive(Debug, Clone, Copy, PartialEq, Eq, Structural)]
pub enum RequestKind {
    /// A session description, for an offer or an answer.
    Description,
    /// Nothing but the fact of completion.
    Done,
    /// A statistics report.
    Stats,
}

/// The value with which the engine completes a request.
#[derive(Debug, Clone, PartialEq, Eq)]
pub enum Completion {
    Description(RtcSessionDescription),
    Done,
    Stats(Vec<RtcStats>),
}

impl Completion {
    /// The kind of request that this value can fulfil.
    pub open spec fn kind_spec(self) -> RequestKind {
        match self {
            Completion::Description(_) => RequestKind::Description,
            Completion::Done => RequestKind::Done,
            Completion::Stats(_) => RequestKind::Stats,
        }
    }

    /// The kind of request that this value can fulfil.
    pub fn kind(&self) -> (kind: RequestKind)
        ensures
            kind == self.kind_spec(),
    {
        match self {
            Completion::Description(_) => RequestKind::Description,
            Completion::Done => RequestKind::Done,
            Completion::Stats(_) => RequestKind::Stats,
        }
    }
}

/// A call that the embedding program performs on the engine on behalf of the
/// bridge. Calls that carry a `request` are completed later, through
/// [`crate::api::complete_request`], under that identifier.
#[allow(inconsistent_fields)]
#[derive(Debug, Clone, PartialEq, Eq)]
pub enum EngineCall {
    CreatePeerConnection { peer_id: u64, configuration: RtcConfiguration },
    DisposePeerConnection { peer_id: u64 },
    CreateOffer {
        peer_id: u64,
        request: u64,
        voice_activity_detection: bool,
        ice_restart: bool,
        use_rtp_mux: bool,
    },
    CreateAnswer {
        peer_id: u64,
        request: u64,
        voice_activity_detection: bool,
        ice_restart: bool,
        use_rtp_mux: bool,
    },
    SetLocalDescription { peer_id: u64, request: u64, description: RtcSessionDescription },
    SetRemoteDescription { peer_id: u64, description: RtcSessionDescription },
    AddIceCandidate { peer_id: u64, request: u64, candidate: IceCandidate },
    RestartIce { peer_id: u64 },
    GetStats { peer_id: u64, request: u64 },
    AddTransceiver {
        peer_id: u64,
        index: u32,
        media_type: MediaType,
        direction: RtpTransceiverDirection,
    },
    GetTransceivers { peer_id: u64, count: u32 },
    SetTransceiverDirection { peer_id: u64, index: u32, direction: RtpTransceiverDirection },
    SetTransceiverRecv { peer_id: u64, index: u32, recv: bool },
    SetTransceiverSend { peer_id: u64, index: u32, send: bool },
    GetTransceiverMid { peer_id: u64, index: u32 },
    GetTransceiverDirection { peer_id: u64, index: u32 },
    StopTransceiver { peer_id: u64, index: u32 },
    ReplaceTrack { peer_id: u64, index: u32, track_id: Option<String> },
    EnumerateDevices { fake_media: bool },
    EnumerateDisplays,
    GetMedia { constraints: MediaStreamConstraints, fake_media: bool },
    SetAudioPlayoutDevice { device_id: String },
    MicrophoneVolumeIsAvailable,
    SetMicrophoneVolume { level: u8 },
    MicrophoneVolume,
    WatchDevices,
    WatchTrack { track_id: String, kind: MediaType },
    DisposeTrack { track_id: String, kind: MediaType },
    TrackState { track_id: String, kind: MediaType },
    SetTrackEnabled { track_id: String, kind: MediaType, enabled: bool },
    CloneTrack { track_id: String, kind: MediaType },
    CreateVideoSink { sink_id: i64, track_id: String, callback_ptr: u64 },
    DisposeVideoSink { sink_id: i64 },
}

impl EngineCall {
    /// The identifier under which the engine completes this call later, if
    /// it is one that completes later.
    pub open spec fn request_spec(self) -> Option<u64> {
        match self {
            EngineCall::CreateOffer { request, .. } => Some(request),
            EngineCall::CreateAnswer { request, .. } => Some(request),
            EngineCall::SetLocalDescription { request, .. } => Some(request),
            EngineCall::AddIceCandidate { request, .. } => Some(request),
            EngineCall::GetStats { request, .. } => Some(request),
            _ => None,
        }
    }

    /// The identifier under which the engine completes this call later, if
    /// it is one that completes later.
    pub fn request(&self) -> (request: Option<u64>)
        ensures
            request == self.request_spec(),
    {
        match self {
            EngineCall::CreateOffer { request, .. } => Some(*request),
            EngineCall::CreateAnswer { request, .. } => Some(*request),
            EngineCall::SetLocalDescription { request, .. } => Some(*request),
            EngineCall::AddIceCandidate { request, .. } => Some(*request),
            EngineCall::GetStats { request, .. } => Some(*request),
            _ => None,
        }
    }
}

} // verus!

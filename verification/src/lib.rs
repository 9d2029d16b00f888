//! Session and media-pipeline layer between an application and a native
//! real-time communication engine.
//!
//! The layer owns the identifiers and handles of the engine's resources,
//! fans the engine's events out to the consumers that the host registered,
//! and drives the negotiation with the other peer. It never blocks: what the
//! engine raises is queued for the host, and what the host asks of the engine
//! is queued for the engine.

pub mod base;
pub mod data_channel;
pub mod engine;
pub mod error;
pub mod frame;
pub mod media_stream;
pub mod media_stream_track;
pub mod observer;
pub mod peer_connection;
pub mod signaling;
pub mod sink;

pub use crate::base::{Identifier, NativeHandle, OwnedHandle};
pub use crate::data_channel::{DataChannelState, RTCDataChannel};
pub use crate::engine::{
    EngineCommand, EngineReply, RTCIceCandidate, RTCSessionDescription, RTCSessionDescriptionType,
};
pub use crate::error::RtcError;
pub use crate::frame::{video_frame_len, AudioFrame, Frame, VideoFrame};
pub use crate::media_stream::MediaStream;
pub use crate::media_stream_track::{
    AudioTrack, MediaFrame, MediaSinker, MediaStreamTrack, Track, TrackKind, VideoTrack,
};
pub use crate::observer::{Observer, ObserverEvent, PeerConnectionState};
pub use crate::peer_connection::{PendingOperation, RTCPeerConnection, SignalingState};
pub use crate::signaling::{on_signal, Payload, Signal, SignalOutcome};
pub use crate::sink::{SinkRegistry, Sinker};

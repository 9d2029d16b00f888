//! Audio and video tracks.
//!
//! A track owns the engine's track and the name it was created under.
//! Inbound frames are fanned out to the consumers registered on it; outbound
//! frames are tested against their layout and queued for the engine. The two
//! kinds of track share all of this and differ in the type of their frames,
//! so a frame of one kind cannot reach a consumer of the other.

use vstd::prelude::*;
use vstd::string::StringSliceAdditionalSpecFns;
use vstd::utf8::encode_utf8;
use std::sync::Arc;
use crate::base::{encodable, native_encoding, Identifier, NativeHandle, OwnedHandle};
use crate::engine::{EngineCommand, EngineCommandView};
use crate::error::RtcError;
use crate::frame::{AudioFrame, Frame, VideoFrame};
use crate::sink::{fanned_out, registered, Inboxes, SinkRegistry, Sinker};

verus! {

/// A track as a plain value.
pub struct TrackView<F> {
    /// The name.
    pub id: Seq<char>,
    /// The handle of the engine's track.
    pub native: u64,
    /// The inbox of each registered consumer of inbound frames.
    pub sinks: Inboxes<F>,
    /// The outbound frames that the engine has not taken yet, oldest first.
    pub outbound: Seq<F>,
}

impl<F> TrackView<F> {
    /// A track that was just created.
    pub open spec fn fresh(id: Seq<char>, native: u64) -> Self {
        TrackView { id, native, sinks: Map::empty(), outbound: Seq::empty() }
    }

    /// The same track with other consumers.
    pub open spec fn with_sinks(self, sinks: Inboxes<F>) -> Self {
        TrackView { sinks, ..self }
    }

    /// The same track with another outbound queue.
    pub open spec fn with_outbound(self, outbound: Seq<F>) -> Self {
        TrackView { outbound, ..self }
    }

    /// True when at least one consumer is registered.
    pub open spec fn has_sink(self) -> bool {
        exists|sink_id: u8| self.sinks.contains_key(sink_id)
    }
}

/// A track of frames of type `F`.
pub struct Track<F: Frame> {
    id: Identifier,
    native: NativeHandle,
    sinks: SinkRegistry<F>,
    outbound: Vec<F>,
}

/// A track of audio frames.
pub type AudioTrack = Track<AudioFrame>;

/// A track of video frames.
pub type VideoTrack = Track<VideoFrame>;

impl<F: Frame> View for Track<F> {
    type V = TrackView<F>;

    closed spec fn view(&self) -> TrackView<F> {
        TrackView {
            id: self.id@,
            native: self.native@,
            sinks: self.sinks@,
            outbound: self.outbound@,
        }
    }
}

impl<F: Frame> Track<F> {
    /// Wraps the engine's track `native`, created under the name `id`.
    /// Fails with `EncodingError` when `id` holds a zero byte, and
    /// otherwise with `NativeAllocationError` when `native` is zero, which
    /// is how the engine says that it created nothing.
    pub fn create(id: &str, native: u64) -> (r: Result<Self, RtcError>)
        ensures
            match r {
                Ok(track) => {
                    &&& encodable(id.spec_bytes())
                    &&& native != 0
                    &&& track@ == TrackView::<F>::fresh(id@, native)
                },
                Err(e) => if !encodable(id.spec_bytes()) {
                    e == RtcError::EncodingError
                } else {
                    native == 0 && e == RtcError::NativeAllocationError
                },
            },
    {
        match Identifier::new(id) {
            Err(e) => Err(e),
            Ok(id) => match NativeHandle::from_raw(native) {
                None => Err(RtcError::NativeAllocationError),
                Some(native) => Ok(
                    Track { id, native, sinks: SinkRegistry::new(), outbound: Vec::new() },
                ),
            },
        }
    }

    /// Installs `sink` at `sink_id` for inbound frames and hands back the
    /// consumer that it replaces, if there was one.
    pub fn register_sink(&mut self, sink_id: u8, sink: Sinker<F>) -> (previous: Option<Sinker<F>>)
        ensures
            final(self)@ == old(self)@.with_sinks(registered(old(self)@.sinks, sink_id, sink@)),
            previous is Some <==> old(self)@.sinks.contains_key(sink_id),
            previous is Some ==> previous.unwrap()@ == old(self)@.sinks[sink_id],
    {
        self.sinks.register(sink_id, sink)
    }

    /// Takes the consumer at `sink_id` out, with the frames it had received.
    pub fn remove_sink(&mut self, sink_id: u8) -> (removed: Option<Sinker<F>>)
        ensures
            final(self)@ == old(self)@.with_sinks(old(self)@.sinks.remove(sink_id)),
            removed is Some <==> old(self)@.sinks.contains_key(sink_id),
            removed is Some ==> removed.unwrap()@ == old(self)@.sinks[sink_id],
    {
        self.sinks.unregister(sink_id)
    }

    /// Takes in a frame that the engine decoded: every registered consumer
    /// receives it. Says whether there was a consumer; without one the frame
    /// is dropped.
    pub fn on_frame(&mut self, frame: F) -> (delivered: bool)
        ensures
            final(self)@ == old(self)@.with_sinks(fanned_out(old(self)@.sinks, Arc::new(frame))),
            delivered == old(self)@.has_sink(),
    {
        self.sinks.fan_out(Arc::new(frame))
    }

    /// Takes the frames that wait at `sink_id` out, oldest first. `None`
    /// when no consumer is registered there.
    pub fn take_frames(&mut self, sink_id: u8) -> (frames: Option<Vec<Arc<F>>>)
        ensures
            frames is Some <==> old(self)@.sinks.contains_key(sink_id),
            frames is Some ==> frames.unwrap()@ == old(self)@.sinks[sink_id] && final(self)@
                == old(self)@.with_sinks(old(self)@.sinks.insert(sink_id, Seq::empty())),
            frames is None ==> final(self)@ == old(self)@,
    {
        self.sinks.take(sink_id)
    }

    /// Submits a frame for encoding. A frame whose buffer does not have the
    /// size its layout asks for is refused with `InvalidFrameError` and
    /// dropped; any other goes to the end of the outbound queue.
    pub fn add_frame(&mut self, frame: F) -> (r: Result<(), RtcError>)
        ensures
            frame.matches_layout() ==> r == Ok::<(), RtcError>(()) && final(self)@ == old(
                self,
            )@.with_outbound(old(self)@.outbound.push(frame)),
            !frame.matches_layout() ==> r == Err::<(), RtcError>(RtcError::InvalidFrameError)
                && final(self)@ == old(self)@,
    {
        if frame.check_layout() {
            self.outbound.push(frame);
            Ok(())
        } else {
            Err(RtcError::InvalidFrameError)
        }
    }

    /// Takes the outbound frames out for the engine, oldest first.
    pub fn take_outbound(&mut self) -> (frames: Vec<F>)
        ensures
            frames@ == old(self)@.outbound,
            final(self)@ == old(self)@.with_outbound(Seq::empty()),
    {
        let mut frames: Vec<F> = Vec::new();
        frames.append(&mut self.outbound);
        assert(frames@ =~= old(self)@.outbound);
        frames
    }

    /// Ends the track: its name is given up, and the result is the command
    /// that frees the engine's track. The track is taken by value, so nothing
    /// can be done with it afterwards.
    pub fn release(self) -> (command: EngineCommand)
        ensures
            command@ == EngineCommandView::DestroyTrack(self@.native),
    {
        let Track { id, native, sinks: _, outbound: _ } = self;
        let address = native.address();
        id.release();
        EngineCommand::DestroyTrack(address)
    }

    /// The name.
    pub fn id(&self) -> (id: &str)
        ensures
            id@ == self@.id,
    {
        self.id.as_str()
    }

    /// The buffer the engine reads the name from.
    pub fn get_id(&self) -> (raw: &OwnedHandle)
        ensures
            encodable(encode_utf8(self@.id)),
            raw@ == native_encoding(encode_utf8(self@.id)),
    {
        self.id.raw()
    }

    /// The handle of the engine's track; it is never zero.
    pub fn native(&self) -> (native: u64)
        ensures
            native == self@.native,
            native != 0,
    {
        self.native.address()
    }
}

/// The two kinds of track.
#[derive(Clone, Copy, Debug, PartialEq, Eq, Structural)]
pub enum TrackKind {
    Audio,
    Video,
}

/// A frame of either kind.
pub enum MediaFrame {
    Audio(AudioFrame),
    Video(VideoFrame),
}

/// A consumer of frames of either kind.
pub enum MediaSinker {
    Audio(Sinker<AudioFrame>),
    Video(Sinker<VideoFrame>),
}

impl MediaSinker {
    /// A consumer of frames of kind `kind` that has received nothing yet.
    pub fn new(kind: TrackKind) -> (sink: MediaSinker)
        ensures
            sink@ == match kind {
                TrackKind::Audio => MediaInbox::Audio(Seq::empty()),
                TrackKind::Video => MediaInbox::Video(Seq::empty()),
            },
    {
        match kind {
            TrackKind::Audio => MediaSinker::Audio(Sinker::new()),
            TrackKind::Video => MediaSinker::Video(Sinker::new()),
        }
    }
}

/// A track of either kind as a plain value.
pub enum MediaTrackView {
    Audio(TrackView<AudioFrame>),
    Video(TrackView<VideoFrame>),
}

impl MediaTrackView {
    /// The kind of the track.
    pub open spec fn kind(self) -> TrackKind {
        match self {
            MediaTrackView::Audio(_) => TrackKind::Audio,
            MediaTrackView::Video(_) => TrackKind::Video,
        }
    }

    /// The name of the track.
    pub open spec fn id(self) -> Seq<char> {
        match self {
            MediaTrackView::Audio(track) => track.id,
            MediaTrackView::Video(track) => track.id,
        }
    }

    /// The handle of the engine's track.
    pub open spec fn native(self) -> u64 {
        match self {
            MediaTrackView::Audio(track) => track.native,
            MediaTrackView::Video(track) => track.native,
        }
    }

    /// True when at least one consumer is registered.
    pub open spec fn has_sink(self) -> bool {
        match self {
            MediaTrackView::Audio(track) => track.has_sink(),
            MediaTrackView::Video(track) => track.has_sink(),
        }
    }

    /// True when `frame` is of the kind that the track carries.
    pub open spec fn carries(self, frame: MediaFrame) -> bool {
        match (self, frame) {
            (MediaTrackView::Audio(_), MediaFrame::Audio(_)) => true,
            (MediaTrackView::Video(_), MediaFrame::Video(_)) => true,
            _ => false,
        }
    }

    /// True when `sink` consumes the kind of frame that the track carries.
    pub open spec fn feeds(self, sink: MediaSinker) -> bool {
        match (self, sink) {
            (MediaTrackView::Audio(_), MediaSinker::Audio(_)) => true,
            (MediaTrackView::Video(_), MediaSinker::Video(_)) => true,
            _ => false,
        }
    }

    /// The track after `frame` came in: a frame of the track's kind reaches
    /// every consumer, a frame of the other kind changes nothing.
    pub open spec fn received(self, frame: MediaFrame) -> Self {
        match (self, frame) {
            (MediaTrackView::Audio(track), MediaFrame::Audio(f)) => MediaTrackView::Audio(
                track.with_sinks(fanned_out(track.sinks, Arc::new(f))),
            ),
            (MediaTrackView::Video(track), MediaFrame::Video(f)) => MediaTrackView::Video(
                track.with_sinks(fanned_out(track.sinks, Arc::new(f))),
            ),
            _ => self,
        }
    }

    /// True when `frame` can be submitted to the track: it is of the kind
    /// that the track carries, and its buffer has the size that its layout
    /// asks for.
    pub open spec fn accepts(self, frame: MediaFrame) -> bool {
        self.carries(frame) && match frame {
            MediaFrame::Audio(f) => f.matches_layout(),
            MediaFrame::Video(f) => f.matches_layout(),
        }
    }

    /// The track after `frame` was submitted: a frame that the track accepts
    /// is queued for the engine, any other changes nothing.
    pub open spec fn submitted(self, frame: MediaFrame) -> Self {
        if self.accepts(frame) {
            match (self, frame) {
                (MediaTrackView::Audio(track), MediaFrame::Audio(f)) => MediaTrackView::Audio(
                    track.with_outbound(track.outbound.push(f)),
                ),
                (MediaTrackView::Video(track), MediaFrame::Video(f)) => MediaTrackView::Video(
                    track.with_outbound(track.outbound.push(f)),
                ),
                _ => self,
            }
        } else {
            self
        }
    }

    /// The track after `sink` was offered for `sink_id`: a consumer of the
    /// track's kind is installed, one of the other kind changes nothing.
    pub open spec fn offered(self, sink_id: u8, sink: MediaSinker) -> Self {
        match (self, sink) {
            (MediaTrackView::Audio(track), MediaSinker::Audio(consumer)) => MediaTrackView::Audio(
                track.with_sinks(registered(track.sinks, sink_id, consumer@)),
            ),
            (MediaTrackView::Video(track), MediaSinker::Video(consumer)) => MediaTrackView::Video(
                track.with_sinks(registered(track.sinks, sink_id, consumer@)),
            ),
            _ => self,
        }
    }

    /// The consumer that `offered` displaces, by its inbox: `None` when the
    /// kinds differ or nobody was registered at `sink_id`.
    pub open spec fn displaced(self, sink_id: u8, sink: MediaSinker) -> Option<MediaInbox> {
        match (self, sink) {
            (MediaTrackView::Audio(track), MediaSinker::Audio(_)) => if track.sinks.contains_key(
                sink_id,
            ) {
                Some(MediaInbox::Audio(track.sinks[sink_id]))
            } else {
                None
            },
            (MediaTrackView::Video(track), MediaSinker::Video(_)) => if track.sinks.contains_key(
                sink_id,
            ) {
                Some(MediaInbox::Video(track.sinks[sink_id]))
            } else {
                None
            },
            _ => None,
        }
    }
}

/// The inbox of a consumer of either kind.
pub enum MediaInbox {
    Audio(Seq<Arc<AudioFrame>>),
    Video(Seq<Arc<VideoFrame>>),
}

impl View for MediaSinker {
    type V = MediaInbox;

    open spec fn view(&self) -> MediaInbox {
        match self {
            MediaSinker::Audio(sink) => MediaInbox::Audio(sink@),
            MediaSinker::Video(sink) => MediaInbox::Video(sink@),
        }
    }
}

/// A frame of one kind never reaches a track of the other kind: such a frame
/// leaves the track, and with it every consumer's inbox and the outbound
/// queue, as it was, whether it came in or was submitted. The same holds of a
/// consumer of the other kind that is offered to the track. And no step
/// changes the kind of a track.
pub proof fn lemma_kinds_do_not_mix(
    track: MediaTrackView,
    frame: MediaFrame,
    sink_id: u8,
    sink: MediaSinker,
)
    ensures
        !track.carries(frame) ==> track.received(frame) == track,
        !track.carries(frame) ==> track.submitted(frame) == track,
        !track.feeds(sink) ==> track.offered(sink_id, sink) == track,
        track.received(frame).kind() == track.kind(),
        track.submitted(frame).kind() == track.kind(),
        track.offered(sink_id, sink).kind() == track.kind(),
{
}

/// A track of either kind.
pub enum MediaStreamTrack {
    Audio(AudioTrack),
    Video(VideoTrack),
}

impl View for MediaStreamTrack {
    type V = MediaTrackView;

    open spec fn view(&self) -> MediaTrackView {
        match self {
            MediaStreamTrack::Audio(track) => MediaTrackView::Audio(track@),
            MediaStreamTrack::Video(track) => MediaTrackView::Video(track@),
        }
    }
}

impl MediaStreamTrack {
    /// A video track around the engine's track `native`. Fails as
    /// `Track::create` does.
    pub fn create_video_track(id: &str, native: u64) -> (r: Result<MediaStreamTrack, RtcError>)
        ensures
            match r {
                Ok(track) => {
                    &&& encodable(id.spec_bytes())
                    &&& native != 0
                    &&& track@ == MediaTrackView::Video(TrackView::fresh(id@, native))
                },
                Err(e) => if !encodable(id.spec_bytes()) {
                    e == RtcError::EncodingError
                } else {
                    native == 0 && e == RtcError::NativeAllocationError
                },
            },
    {
        match Track::<VideoFrame>::create(id, native) {
            Ok(track) => Ok(MediaStreamTrack::Video(track)),
            Err(e) => Err(e),
        }
    }

    /// An audio track around the engine's track `native`. Fails as
    /// `Track::create` does.
    pub fn create_audio_track(id: &str, native: u64) -> (r: Result<MediaStreamTrack, RtcError>)
        ensures
            match r {
                Ok(track) => {
                    &&& encodable(id.spec_bytes())
                    &&& native != 0
                    &&& track@ == MediaTrackView::Audio(TrackView::fresh(id@, native))
                },
                Err(e) => if !encodable(id.spec_bytes()) {
                    e == RtcError::EncodingError
                } else {
                    native == 0 && e == RtcError::NativeAllocationError
                },
            },
    {
        match Track::<AudioFrame>::create(id, native) {
            Ok(track) => Ok(MediaStreamTrack::Audio(track)),
            Err(e) => Err(e),
        }
    }

    /// Installs `sink` at `sink_id` if it consumes the kind of frame that
    /// this track carries, and hands back the consumer that it replaces. A
    /// consumer of the other kind is not installed: the track stays as it
    /// is and the consumer comes back as the error.
    pub fn register_sink(&mut self, sink_id: u8, sink: MediaSinker) -> (r: Result<
        Option<MediaSinker>,
        MediaSinker,
    >)
        ensures
            final(self)@ == old(self)@.offered(sink_id, sink),
            match r {
                Ok(previous) => {
                    &&& old(self)@.feeds(sink)
                    &&& match previous {
                        Some(p) => old(self)@.displaced(sink_id, sink) == Some(p@),
                        None => old(self)@.displaced(sink_id, sink) is None,
                    }
                },
                Err(refused) => !old(self)@.feeds(sink) && refused == sink,
            },
    {
        match self {
            MediaStreamTrack::Audio(track) => match sink {
                MediaSinker::Audio(consumer) => match track.register_sink(sink_id, consumer) {
                    Some(previous) => Ok(Some(MediaSinker::Audio(previous))),
                    None => Ok(None),
                },
                MediaSinker::Video(consumer) => Err(MediaSinker::Video(consumer)),
            },
            MediaStreamTrack::Video(track) => match sink {
                MediaSinker::Video(consumer) => match track.register_sink(sink_id, consumer) {
                    Some(previous) => Ok(Some(MediaSinker::Video(previous))),
                    None => Ok(None),
                },
                MediaSinker::Audio(consumer) => Err(MediaSinker::Audio(consumer)),
            },
        }
    }

    /// Takes in a frame that the engine decoded. A frame of the track's kind
    /// reaches every consumer registered on the track. A frame of the other
    /// kind reaches nobody and changes nothing.
    pub fn on_frame(&mut self, frame: MediaFrame) -> (delivered: bool)
        ensures
            final(self)@ == old(self)@.received(frame),
            delivered == (old(self)@.carries(frame) && old(self)@.has_sink()),
    {
        match self {
            MediaStreamTrack::Audio(track) => match frame {
                MediaFrame::Audio(f) => track.on_frame(f),
                MediaFrame::Video(_) => false,
            },
            MediaStreamTrack::Video(track) => match frame {
                MediaFrame::Video(f) => track.on_frame(f),
                MediaFrame::Audio(_) => false,
            },
        }
    }

    /// Submits a frame for encoding. Fails with `InvalidFrameError`, and
    /// drops the frame, where the frame is not of the kind that the track
    /// carries or its buffer does not have the size that its layout asks
    /// for.
    pub fn add_frame(&mut self, frame: MediaFrame) -> (r: Result<(), RtcError>)
        ensures
            final(self)@ == old(self)@.submitted(frame),
            r == if old(self)@.accepts(frame) {
                Ok::<(), RtcError>(())
            } else {
                Err::<(), RtcError>(RtcError::InvalidFrameError)
            },
    {
        match self {
            MediaStreamTrack::Audio(track) => match frame {
                MediaFrame::Audio(f) => track.add_frame(f),
                MediaFrame::Video(_) => Err(RtcError::InvalidFrameError),
            },
            MediaStreamTrack::Video(track) => match frame {
                MediaFrame::Video(f) => track.add_frame(f),
                MediaFrame::Audio(_) => Err(RtcError::InvalidFrameError),
            },
        }
    }

    /// Ends the track; the result is the command that frees the engine's
    /// track.
    pub fn release(self) -> (command: EngineCommand)
        ensures
            command@ == EngineCommandView::DestroyTrack(self@.native()),
    {
        match self {
            MediaStreamTrack::Audio(track) => track.release(),
            MediaStreamTrack::Video(track) => track.release(),
        }
    }

    /// The kind of the track.
    pub fn kind(&self) -> (kind: TrackKind)
        ensures
            kind == self@.kind(),
    {
        match self {
            MediaStreamTrack::Audio(_) => TrackKind::Audio,
            MediaStreamTrack::Video(_) => TrackKind::Video,
        }
    }

    /// The name of the track.
    pub fn id(&self) -> (id: &str)
        ensures
            id@ == self@.id(),
    {
        match self {
            MediaStreamTrack::Audio(track) => track.id(),
            MediaStreamTrack::Video(track) => track.id(),
        }
    }

    /// The handle of the engine's track; it is never zero.
    pub fn native(&self) -> (native: u64)
        ensures
            native == self@.native(),
            native != 0,
    {
        match self {
            MediaStreamTrack::Audio(track) => track.native(),
            MediaStreamTrack::Video(track) => track.native(),
        }
    }
}

} // verus!

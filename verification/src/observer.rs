//! The observer: where the engine's events enter.
//!
//! The engine raises its events on threads of its own. Each entry point here
//! does a bounded amount of work: it records what the event changed and puts
//! a typed event at the end of a queue. The host takes the events from the
//! front of the queue on its own schedule, so it sees them in the order in
//! which the engine raised them, and nothing it does can hold the engine up.

use vstd::prelude::*;
use crate::data_channel::{ChannelView, DataChannelState, RTCDataChannel};
use crate::engine::RTCIceCandidate;
use crate::media_stream_track::{MediaFrame, MediaStreamTrack, MediaTrackView};
use crate::sink::fanned_out;
use std::sync::Arc;

verus! {

/// The state of a peer connection, as the engine reports it.
#[derive(Clone, Copy, Debug, PartialEq, Eq, Structural)]
pub enum PeerConnectionState {
    New,
    Connecting,
    Connected,
    Disconnected,
    Failed,
    Closed,
}

impl PeerConnectionState {
    /// The state that the engine means by `code`, if it means one.
    pub open spec fn spec_from_raw(code: i32) -> Option<PeerConnectionState> {
        if code == 0 {
            Some(PeerConnectionState::New)
        } else if code == 1 {
            Some(PeerConnectionState::Connecting)
        } else if code == 2 {
            Some(PeerConnectionState::Connected)
        } else if code == 3 {
            Some(PeerConnectionState::Disconnected)
        } else if code == 4 {
            Some(PeerConnectionState::Failed)
        } else if code == 5 {
            Some(PeerConnectionState::Closed)
        } else {
            None
        }
    }

    /// The code that the engine uses for the state.
    pub open spec fn spec_raw(self) -> i32 {
        match self {
            PeerConnectionState::New => 0,
            PeerConnectionState::Connecting => 1,
            PeerConnectionState::Connected => 2,
            PeerConnectionState::Disconnected => 3,
            PeerConnectionState::Failed => 4,
            PeerConnectionState::Closed => 5,
        }
    }

    /// Reads the engine's code for a state. `None` for a number that is no
    /// such code.
    pub fn from_raw(code: i32) -> (state: Option<PeerConnectionState>)
        ensures
            state == Self::spec_from_raw(code),
    {
        match code {
            0 => Some(PeerConnectionState::New),
            1 => Some(PeerConnectionState::Connecting),
            2 => Some(PeerConnectionState::Connected),
            3 => Some(PeerConnectionState::Disconnected),
            4 => Some(PeerConnectionState::Failed),
            5 => Some(PeerConnectionState::Closed),
            _ => None,
        }
    }

    /// The engine's code for the state.
    pub fn raw(self) -> (code: i32)
        ensures
            code == self.spec_raw(),
    {
        match self {
            PeerConnectionState::New => 0,
            PeerConnectionState::Connecting => 1,
            PeerConnectionState::Connected => 2,
            PeerConnectionState::Disconnected => 3,
            PeerConnectionState::Failed => 4,
            PeerConnectionState::Closed => 5,
        }
    }
}

/// Every state has its own code, and a code is read back as the state it was
/// written for.
pub proof fn lemma_state_codes_round_trip(state: PeerConnectionState, code: i32)
    ensures
        PeerConnectionState::spec_from_raw(state.spec_raw()) == Some(state),
        PeerConnectionState::spec_from_raw(code) matches Some(s) ==> s.spec_raw() == code,
{
}

/// What the host is told.
#[derive(Debug, PartialEq, Eq)]
pub enum ObserverEvent {
    /// The connection went over to this state.
    ConnectionChange(PeerConnectionState),
    /// A candidate of this side was gathered; the host sends it to the other
    /// side.
    IceCandidate(RTCIceCandidate),
    /// A track of the other side became available, at this place among the
    /// observer's tracks.
    Track(usize),
    /// A channel of the other side became available, at this place among the
    /// observer's channels.
    DataChannel(usize),
}

/// An observer as a plain value.
pub struct ObserverView {
    /// The state that the engine reported last.
    pub state: PeerConnectionState,
    /// The tracks of the other side, in the order in which they came.
    pub tracks: Seq<MediaTrackView>,
    /// The channels of the other side, in the order in which they came.
    pub channels: Seq<ChannelView>,
    /// The events that the host has not taken yet, oldest first.
    pub events: Seq<ObserverEvent>,
}

impl ObserverView {
    /// An observer that has seen nothing.
    pub open spec fn fresh() -> Self {
        ObserverView {
            state: PeerConnectionState::New,
            tracks: Seq::empty(),
            channels: Seq::empty(),
            events: Seq::empty(),
        }
    }

    /// After the engine reported the state `state`.
    pub open spec fn connection_changed(self, state: PeerConnectionState) -> Self {
        ObserverView {
            state,
            events: self.events.push(ObserverEvent::ConnectionChange(state)),
            ..self
        }
    }

    /// After the engine gathered `candidate`.
    pub open spec fn candidate_gathered(self, candidate: RTCIceCandidate) -> Self {
        ObserverView { events: self.events.push(ObserverEvent::IceCandidate(candidate)), ..self }
    }

    /// After the track `track` came.
    pub open spec fn track_added(self, track: MediaTrackView) -> Self
        recommends
            self.tracks.len() <= usize::MAX,
    {
        ObserverView {
            tracks: self.tracks.push(track),
            events: self.events.push(ObserverEvent::Track(self.tracks.len() as usize)),
            ..self
        }
    }

    /// After the channel `channel` came.
    pub open spec fn channel_added(self, channel: ChannelView) -> Self
        recommends
            self.channels.len() <= usize::MAX,
    {
        ObserverView {
            channels: self.channels.push(channel),
            events: self.events.push(ObserverEvent::DataChannel(self.channels.len() as usize)),
            ..self
        }
    }

    /// After `frame` came in for the track at `track`. A frame for a track
    /// that is not there changes nothing.
    pub open spec fn frame_received(self, track: int, frame: MediaFrame) -> Self {
        if 0 <= track < self.tracks.len() {
            ObserverView {
                tracks: self.tracks.update(track, self.tracks[track].received(frame)),
                ..self
            }
        } else {
            self
        }
    }

    /// After `payload` came in for the channel at `channel`. A message for a
    /// channel that is not there changes nothing.
    pub open spec fn message_received(self, channel: int, payload: Vec<u8>) -> Self {
        if 0 <= channel < self.channels.len() {
            let before = self.channels[channel];
            ObserverView {
                channels: self.channels.update(
                    channel,
                    before.with_sinks(fanned_out(before.sinks, Arc::new(payload))),
                ),
                ..self
            }
        } else {
            self
        }
    }

    /// After the engine reported the state `state` of the channel at
    /// `channel`. A report for a channel that is not there changes nothing.
    pub open spec fn channel_reported(self, channel: int, state: DataChannelState) -> Self {
        if 0 <= channel < self.channels.len() {
            ObserverView {
                channels: self.channels.update(channel, self.channels[channel].reported(state)),
                ..self
            }
        } else {
            self
        }
    }

    /// True when `place` is the first place among the tracks at which the
    /// track with the native handle `native` stands.
    pub open spec fn track_stands_at(self, native: u64, place: int) -> bool {
        &&& 0 <= place < self.tracks.len()
        &&& self.tracks[place].native() == native
        &&& forall|i: int| 0 <= i < place ==> self.tracks[i].native() != native
    }

    /// True when `place` is the first place among the channels at which the
    /// channel with the native handle `native` stands.
    pub open spec fn channel_stands_at(self, native: u64, place: int) -> bool {
        &&& 0 <= place < self.channels.len()
        &&& self.channels[place].native == native
        &&& forall|i: int| 0 <= i < place ==> self.channels[i].native != native
    }

    /// After the host took the oldest event.
    pub open spec fn event_taken(self) -> Self {
        if self.events.len() > 0 {
            ObserverView { events: self.events.drop_first(), ..self }
        } else {
            self
        }
    }
}

/// The target of the engine's callbacks for one peer connection, and the
/// tracks and channels that those callbacks brought.
pub struct Observer {
    state: PeerConnectionState,
    tracks: Vec<MediaStreamTrack>,
    channels: Vec<RTCDataChannel>,
    events: Vec<ObserverEvent>,
}

impl View for Observer {
    type V = ObserverView;

    closed spec fn view(&self) -> ObserverView {
        ObserverView {
            state: self.state,
            tracks: self.tracks@.map_values(|track: MediaStreamTrack| track@),
            channels: self.channels@.map_values(|channel: RTCDataChannel| channel@),
            events: self.events@,
        }
    }
}

impl Observer {
    /// An observer that has seen nothing: the connection is new, and there
    /// are no tracks, channels or events.
    pub fn new() -> (observer: Observer)
        ensures
            observer@ == ObserverView::fresh(),
    {
        let observer = Observer {
            state: PeerConnectionState::New,
            tracks: Vec::new(),
            channels: Vec::new(),
            events: Vec::new(),
        };
        assert(observer@.tracks =~= Seq::empty());
        assert(observer@.channels =~= Seq::empty());
        observer
    }

    /// The connection went over to `state`. The event is queued behind all
    /// earlier events.
    pub fn on_connection_change(&mut self, state: PeerConnectionState)
        ensures
            final(self)@ == old(self)@.connection_changed(state),
    {
        self.state = state;
        self.events.push(ObserverEvent::ConnectionChange(state));
    }

    /// A candidate of this side was gathered. It is queued for the host and
    /// not sent anywhere from here.
    pub fn on_ice_candidate(&mut self, candidate: RTCIceCandidate)
        ensures
            final(self)@ == old(self)@.candidate_gathered(candidate),
    {
        self.events.push(ObserverEvent::IceCandidate(candidate));
    }

    /// A track of the other side became available. It is kept behind the
    /// tracks that are there, and the host is told its place, which is also
    /// the result. Frames that come before the host has registered a
    /// consumer on the track are dropped.
    pub fn on_track(&mut self, track: MediaStreamTrack) -> (place: usize)
        ensures
            place == old(self)@.tracks.len(),
            final(self)@ == old(self)@.track_added(track@),
    {
        let place = self.tracks.len();
        self.tracks.push(track);
        self.events.push(ObserverEvent::Track(place));
        assert(self@.tracks =~= old(self)@.tracks.push(track@));
        place
    }

    /// A channel of the other side became available. It is kept behind the
    /// channels that are there, and the host is told its place, which is
    /// also the result.
    pub fn on_data_channel(&mut self, channel: RTCDataChannel) -> (place: usize)
        ensures
            place == old(self)@.channels.len(),
            final(self)@ == old(self)@.channel_added(channel@),
    {
        let place = self.channels.len();
        self.channels.push(channel);
        self.events.push(ObserverEvent::DataChannel(place));
        assert(self@.channels =~= old(self)@.channels.push(channel@));
        place
    }

    /// The engine decoded `frame` for the track at `track`. Says whether a
    /// consumer received it.
    pub fn on_frame(&mut self, track: usize, frame: MediaFrame) -> (delivered: bool)
        ensures
            final(self)@ == old(self)@.frame_received(track as int, frame),
            delivered == (track < old(self)@.tracks.len() && old(self)@.tracks[track as int].carries(
                frame,
            ) && old(self)@.tracks[track as int].has_sink()),
    {
        if track < self.tracks.len() {
            let delivered = self.tracks[track].on_frame(frame);
            assert(self@.tracks =~= old(self)@.tracks.update(
                track as int,
                old(self)@.tracks[track as int].received(frame),
            ));
            delivered
        } else {
            false
        }
    }

    /// A message came in on the channel at `channel`. Says whether a
    /// consumer received it.
    pub fn on_message(&mut self, channel: usize, payload: Vec<u8>) -> (delivered: bool)
        ensures
            final(self)@ == old(self)@.message_received(channel as int, payload),
            delivered == (channel < old(self)@.channels.len() && old(self)@.channels[channel as int].has_sink()),
    {
        if channel < self.channels.len() {
            let delivered = self.channels[channel].on_message(payload);
            let ghost before = old(self)@.channels[channel as int];
            assert(self@.channels =~= old(self)@.channels.update(
                channel as int,
                before.with_sinks(fanned_out(before.sinks, Arc::new(payload))),
            ));
            delivered
        } else {
            false
        }
    }

    /// The engine reported the state `state` of the channel at `channel`.
    /// Says whether the channel moved.
    pub fn on_channel_state(&mut self, channel: usize, state: DataChannelState) -> (moved: bool)
        ensures
            final(self)@ == old(self)@.channel_reported(channel as int, state),
            moved == (channel < old(self)@.channels.len() && old(self)@.channels[channel as int].state.spec_rank()
                < state.spec_rank()),
    {
        if channel < self.channels.len() {
            let moved = self.channels[channel].on_state_change(state);
            assert(self@.channels =~= old(self)@.channels.update(
                channel as int,
                old(self)@.channels[channel as int].reported(state),
            ));
            moved
        } else {
            false
        }
    }

    /// Takes the oldest event out of the queue. `None` when the queue is
    /// empty.
    pub fn next_event(&mut self) -> (event: Option<ObserverEvent>)
        ensures
            final(self)@ == old(self)@.event_taken(),
            match event {
                Some(e) => old(self)@.events.len() > 0 && e == old(self)@.events.first(),
                None => old(self)@.events.len() == 0,
            },
    {
        if self.events.len() > 0 {
            let event = self.events.remove(0);
            assert(self@.events =~= old(self)@.events.drop_first());
            Some(event)
        } else {
            None
        }
    }

    /// The track at `place`, to work on in place. `None` when there is no
    /// such track.
    pub fn track_mut(&mut self, place: usize) -> (track: Option<&mut MediaStreamTrack>)
        ensures
            match track {
                Some(t) => {
                    &&& place < old(self)@.tracks.len()
                    &&& t@ == old(self)@.tracks[place as int]
                    &&& final(self)@.tracks == old(self)@.tracks.update(place as int, final(t)@)
                    &&& final(self)@.state == old(self)@.state
                    &&& final(self)@.channels == old(self)@.channels
                    &&& final(self)@.events == old(self)@.events
                },
                None => place >= old(self)@.tracks.len() && final(self)@ == old(self)@,
            },
    {
        if place < self.tracks.len() {
            Some(&mut self.tracks[place])
        } else {
            None
        }
    }

    /// The channel at `place`, to work on in place. `None` when there is no
    /// such channel.
    pub fn channel_mut(&mut self, place: usize) -> (channel: Option<&mut RTCDataChannel>)
        ensures
            match channel {
                Some(c) => {
                    &&& place < old(self)@.channels.len()
                    &&& c@ == old(self)@.channels[place as int]
                    &&& final(self)@.channels == old(self)@.channels.update(place as int, final(c)@)
                    &&& final(self)@.state == old(self)@.state
                    &&& final(self)@.tracks == old(self)@.tracks
                    &&& final(self)@.events == old(self)@.events
                },
                None => place >= old(self)@.channels.len() && final(self)@ == old(self)@,
            },
    {
        if place < self.channels.len() {
            Some(&mut self.channels[place])
        } else {
            None
        }
    }

    /// The place of the track that wraps the engine's track `native`: the
    /// first, should several wrap it. `None` when no track does.
    pub fn track_place(&self, native: u64) -> (place: Option<usize>)
        ensures
            match place {
                Some(p) => self@.track_stands_at(native, p as int),
                None => forall|i: int|
                    0 <= i < self@.tracks.len() ==> self@.tracks[i].native() != native,
            },
    {
        let mut i: usize = 0;
        while i < self.tracks.len()
            invariant
                i <= self.tracks.len(),
                forall|j: int| 0 <= j < i ==> self@.tracks[j].native() != native,
            decreases self.tracks.len() - i,
        {
            if self.tracks[i].native() == native {
                return Some(i);
            }
            i += 1;
        }
        None
    }

    /// The place of the channel that wraps the engine's channel `native`:
    /// the first, should several wrap it. `None` when no channel does.
    pub fn channel_place(&self, native: u64) -> (place: Option<usize>)
        ensures
            match place {
                Some(p) => self@.channel_stands_at(native, p as int),
                None => forall|i: int|
                    0 <= i < self@.channels.len() ==> self@.channels[i].native != native,
            },
    {
        let mut i: usize = 0;
        while i < self.channels.len()
            invariant
                i <= self.channels.len(),
                forall|j: int| 0 <= j < i ==> self@.channels[j].native != native,
            decreases self.channels.len() - i,
        {
            if self.channels[i].native() == native {
                return Some(i);
            }
            i += 1;
        }
        None
    }

    /// The state that the engine reported last.
    pub fn connection_state(&self) -> (state: PeerConnectionState)
        ensures
            state == self@.state,
    {
        self.state
    }

    /// The tracks of the other side, in the order in which they came.
    pub fn tracks(&self) -> (tracks: &Vec<MediaStreamTrack>)
        ensures
            tracks@.map_values(|track: MediaStreamTrack| track@) == self@.tracks,
    {
        &self.tracks
    }

    /// The channels of the other side, in the order in which they came.
    pub fn channels(&self) -> (channels: &Vec<RTCDataChannel>)
        ensures
            channels@.map_values(|channel: RTCDataChannel| channel@) == self@.channels,
    {
        &self.channels
    }
}

} // verus!

//! Media streams.

use vstd::prelude::*;
use vstd::string::StringSliceAdditionalSpecFns;
use vstd::utf8::encode_utf8;
use crate::base::{encodable, native_encoding, Identifier, OwnedHandle};
use crate::error::RtcError;
use crate::media_stream_track::MediaStreamTrack;

verus! {

/// A stream as a plain value.
pub struct MediaStreamView {
    /// The name.
    pub id: Seq<char>,
    /// The tracks, in the order in which they were added.
    pub tracks: Seq<MediaStreamTrack>,
}

/// A stream of media content: a name and the tracks that were added to it.
///
/// The stream owns its tracks, and the buffer the engine reads its name from.
pub struct MediaStream {
    id: Identifier,
    tracks: Vec<MediaStreamTrack>,
}

impl View for MediaStream {
    type V = MediaStreamView;

    closed spec fn view(&self) -> MediaStreamView {
        MediaStreamView { id: self.id@, tracks: self.tracks@ }
    }
}

impl MediaStream {
    /// A stream named `id`, without tracks. Fails with `EncodingError`
    /// exactly when `id` holds a zero byte.
    pub fn new(id: &str) -> (r: Result<MediaStream, RtcError>)
        ensures
            match r {
                Ok(stream) => {
                    &&& encodable(id.spec_bytes())
                    &&& stream@ == (MediaStreamView { id: id@, tracks: Seq::empty() })
                },
                Err(e) => !encodable(id.spec_bytes()) && e == RtcError::EncodingError,
            },
    {
        match Identifier::new(id) {
            Ok(id) => Ok(MediaStream { id, tracks: Vec::with_capacity(10) }),
            Err(e) => Err(e),
        }
    }

    /// Adds `track` behind the tracks that are there. A track that was added
    /// before is added once more.
    pub fn add_track(&mut self, track: MediaStreamTrack)
        ensures
            final(self)@ == (MediaStreamView {
                tracks: old(self)@.tracks.push(track),
                ..old(self)@
            }),
    {
        self.tracks.push(track);
    }

    /// Takes the track at `index` out of the stream and closes the gap.
    /// `None`, and the stream as it was, when there is no such track.
    pub fn remove_track(&mut self, index: usize) -> (removed: Option<MediaStreamTrack>)
        ensures
            match removed {
                Some(track) => {
                    &&& index < old(self)@.tracks.len()
                    &&& track == old(self)@.tracks[index as int]
                    &&& final(self)@ == (MediaStreamView {
                        tracks: old(self)@.tracks.remove(index as int),
                        ..old(self)@
                    })
                },
                None => index >= old(self)@.tracks.len() && final(self)@ == old(self)@,
            },
    {
        if index < self.tracks.len() {
            Some(self.tracks.remove(index))
        } else {
            None
        }
    }

    /// The track at `index`, to work on in place. `None` when there is no
    /// such track.
    pub fn track_mut(&mut self, index: usize) -> (track: Option<&mut MediaStreamTrack>)
        ensures
            match track {
                Some(t) => {
                    &&& index < old(self)@.tracks.len()
                    &&& *t == old(self)@.tracks[index as int]
                    &&& final(self)@ == (MediaStreamView {
                        tracks: old(self)@.tracks.update(index as int, *final(t)),
                        ..old(self)@
                    })
                },
                None => index >= old(self)@.tracks.len() && final(self)@ == old(self)@,
            },
    {
        if index < self.tracks.len() {
            Some(&mut self.tracks[index])
        } else {
            None
        }
    }

    /// The buffer the engine reads the name from.
    pub fn get_id(&self) -> (raw: &OwnedHandle)
        ensures
            encodable(encode_utf8(self@.id)),
            raw@ == native_encoding(encode_utf8(self@.id)),
    {
        self.id.raw()
    }

    /// Ends the stream: its name is given up, and its tracks are handed to
    /// the caller, who owns them from then on.
    pub fn release(self) -> (tracks: Vec<MediaStreamTrack>)
        ensures
            tracks@ == self@.tracks,
    {
        let MediaStream { id, tracks } = self;
        id.release();
        tracks
    }

    /// The name.
    pub fn id(&self) -> (id: &str)
        ensures
            id@ == self@.id,
    {
        self.id.as_str()
    }

    /// The tracks, in the order in which they were added.
    pub fn tracks(&self) -> (tracks: &Vec<MediaStreamTrack>)
        ensures
            tracks@ == self@.tracks,
    {
        &self.tracks
    }
}

} // verus!

//! Audio and video frames.
//!
//! A frame is a value that is not changed after it was made: the layout it
//! declares and the buffer it owns. Whether the buffer fits the layout is
//! tested where a frame is handed to a track, not where it is made.

use vstd::prelude::*;
use vstd::slice::slice_to_vec;

verus! {

/// What tracks need of a frame: a test of its buffer against its layout.
pub trait Frame: Sized {
    /// True when the buffer has exactly the size that the declared layout
    /// asks for.
    spec fn matches_layout(&self) -> bool;

    /// Computes `matches_layout`.
    fn check_layout(&self) -> (ok: bool)
        ensures
            ok == self.matches_layout(),
    ;
}

/// The number of bytes of a planar picture with one full-size plane and two
/// planes of a quarter of its size: one and a half bytes for each pixel,
/// rounded down.
pub open spec fn video_buffer_len(width: nat, height: nat) -> nat {
    width * height * 3 / 2
}

/// The number of samples of an interleaved audio frame.
pub open spec fn audio_buffer_len(channels: nat, samples_per_channel: nat) -> nat {
    channels * samples_per_channel
}

/// The number of bytes that the buffer of a picture of `width` by `height`
/// pixels has to hold. `None` where the machine cannot address as many.
pub fn video_frame_len(width: u32, height: u32) -> (len: Option<usize>)
    ensures
        match len {
            Some(n) => n == video_buffer_len(width as nat, height as nat),
            None => video_buffer_len(width as nat, height as nat) > usize::MAX,
        },
{
    let w: u128 = width as u128;
    let h: u128 = height as u128;
    assert(w * h <= 0xffff_ffff * 0xffff_ffff) by (nonlinear_arith)
        requires
            0 <= w <= 0xffff_ffff,
            0 <= h <= 0xffff_ffff,
    ;
    let pixels: u128 = w * h;
    let wanted: u128 = pixels * 3 / 2;
    if wanted <= usize::MAX as u128 {
        Some(wanted as usize)
    } else {
        None
    }
}

/// A video frame as a plain value.
pub struct VideoFrameView {
    pub width: nat,
    pub height: nat,
    pub data: Seq<u8>,
}

/// One picture: its size in pixels and its planes, one after the other.
#[derive(Debug, PartialEq, Eq)]
pub struct VideoFrame {
    width: u32,
    height: u32,
    data: Vec<u8>,
}

impl View for VideoFrame {
    type V = VideoFrameView;

    closed spec fn view(&self) -> VideoFrameView {
        VideoFrameView {
            width: self.width as nat,
            height: self.height as nat,
            data: self.data@,
        }
    }
}

impl VideoFrame {
    /// A frame of `width` by `height` pixels with a copy of `buf` as its
    /// buffer.
    pub fn new(width: u32, height: u32, buf: &[u8]) -> (frame: VideoFrame)
        ensures
            frame@ == (VideoFrameView { width: width as nat, height: height as nat, data: buf@ }),
    {
        VideoFrame { width, height, data: slice_to_vec(buf) }
    }

    /// The width in pixels.
    pub fn width(&self) -> (w: u32)
        ensures
            w == self@.width,
    {
        self.width
    }

    /// The height in pixels.
    pub fn height(&self) -> (h: u32)
        ensures
            h == self@.height,
    {
        self.height
    }

    /// The buffer.
    pub fn data(&self) -> (bytes: &[u8])
        ensures
            bytes@ == self@.data,
    {
        self.data.as_slice()
    }
}

impl Frame for VideoFrame {
    open spec fn matches_layout(&self) -> bool {
        self@.data.len() == video_buffer_len(self@.width, self@.height)
    }

    fn check_layout(&self) -> (ok: bool) {
        let w: u128 = self.width as u128;
        let h: u128 = self.height as u128;
        assert(w * h <= 0xffff_ffff * 0xffff_ffff) by (nonlinear_arith)
            requires
                0 <= w <= 0xffff_ffff,
                0 <= h <= 0xffff_ffff,
        ;
        let pixels: u128 = w * h;
        let wanted: u128 = pixels * 3 / 2;
        self.data.len() as u128 == wanted
    }
}

/// An audio frame as a plain value.
pub struct AudioFrameView {
    pub sample_rate: nat,
    pub channels: nat,
    pub samples_per_channel: nat,
    pub data: Seq<i16>,
}

/// A run of audio: its sample rate, its number of channels, the number of
/// samples of each channel, and the samples, interleaved by channel.
#[derive(Debug, PartialEq, Eq)]
pub struct AudioFrame {
    sample_rate: u32,
    channels: u8,
    samples_per_channel: u32,
    data: Vec<i16>,
}

impl View for AudioFrame {
    type V = AudioFrameView;

    closed spec fn view(&self) -> AudioFrameView {
        AudioFrameView {
            sample_rate: self.sample_rate as nat,
            channels: self.channels as nat,
            samples_per_channel: self.samples_per_channel as nat,
            data: self.data@,
        }
    }
}

impl AudioFrame {
    /// A frame with a copy of `samples` as its buffer.
    pub fn new(sample_rate: u32, channels: u8, samples_per_channel: u32, samples: &[i16]) -> (frame:
        AudioFrame)
        ensures
            frame@ == (AudioFrameView {
                sample_rate: sample_rate as nat,
                channels: channels as nat,
                samples_per_channel: samples_per_channel as nat,
                data: samples@,
            }),
    {
        AudioFrame { sample_rate, channels, samples_per_channel, data: slice_to_vec(samples) }
    }

    /// The samples of one channel in a second.
    pub fn sample_rate(&self) -> (rate: u32)
        ensures
            rate == self@.sample_rate,
    {
        self.sample_rate
    }

    /// The number of channels.
    pub fn channels(&self) -> (n: u8)
        ensures
            n == self@.channels,
    {
        self.channels
    }

    /// The number of samples of each channel.
    pub fn samples_per_channel(&self) -> (n: u32)
        ensures
            n == self@.samples_per_channel,
    {
        self.samples_per_channel
    }

    /// The buffer.
    pub fn data(&self) -> (samples: &[i16])
        ensures
            samples@ == self@.data,
    {
        self.data.as_slice()
    }
}

impl Frame for AudioFrame {
    open spec fn matches_layout(&self) -> bool {
        self@.data.len() == audio_buffer_len(self@.channels, self@.samples_per_channel)
    }

    fn check_layout(&self) -> (ok: bool) {
        let c: u64 = self.channels as u64;
        let n: u64 = self.samples_per_channel as u64;
        assert(c * n <= 0xff * 0xffff_ffff) by (nonlinear_arith)
            requires
                0 <= c <= 0xff,
                0 <= n <= 0xffff_ffff,
        ;
        let wanted: u64 = c * n;
        self.data.len() as u64 == wanted
    }
}

} // verus!

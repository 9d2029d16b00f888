//! The values that cross the boundary to the native engine.
//!
//! Descriptions and candidates are passed through as they are: a type and a
//! text that this layer neither reads nor tests. The commands are the fixed
//! set that this layer asks the engine to carry out; whoever drives the
//! engine takes them, in order, from the queues of this crate, and hands
//! back what the engine answered.

use vstd::prelude::*;

verus! {

/// Which side of the negotiation a description comes from.
#[derive(Clone, Copy, Debug, PartialEq, Eq, Structural)]
pub enum RTCSessionDescriptionType {
    Offer,
    Answer,
}

/// A description as a plain value.
pub struct SessionDescriptionView {
    pub kind: RTCSessionDescriptionType,
    pub sdp: Seq<char>,
}

/// A description of a media session.
#[derive(Debug, PartialEq, Eq)]
pub struct RTCSessionDescription {
    pub kind: RTCSessionDescriptionType,
    pub sdp: String,
}

impl View for RTCSessionDescription {
    type V = SessionDescriptionView;

    open spec fn view(&self) -> SessionDescriptionView {
        SessionDescriptionView { kind: self.kind, sdp: self.sdp@ }
    }
}

impl Clone for RTCSessionDescription {
    fn clone(&self) -> (copy: Self)
        ensures
            copy == *self,
    {
        RTCSessionDescription { kind: self.kind, sdp: self.sdp.clone() }
    }
}

/// A candidate as a plain value.
pub struct IceCandidateView {
    pub candidate: Seq<char>,
}

/// A possible network path for the session.
#[derive(Debug, PartialEq, Eq)]
pub struct RTCIceCandidate {
    pub candidate: String,
}

impl View for RTCIceCandidate {
    type V = IceCandidateView;

    open spec fn view(&self) -> IceCandidateView {
        IceCandidateView { candidate: self.candidate@ }
    }
}

impl Clone for RTCIceCandidate {
    fn clone(&self) -> (copy: Self)
        ensures
            copy == *self,
    {
        RTCIceCandidate { candidate: self.candidate.clone() }
    }
}

/// A command as a plain value.
pub enum EngineCommandView {
    CreateOffer,
    CreateAnswer,
    SetLocalDescription(SessionDescriptionView),
    SetRemoteDescription(SessionDescriptionView),
    AddIceCandidate(IceCandidateView),
    AddTrack { track: u64, stream: Seq<char> },
    DestroyTrack(u64),
    DestroyChannel(u64),
    DestroySession(u64),
}

impl EngineCommandView {
    /// True for the commands that are a step of the negotiation: the engine
    /// answers them, and the connection waits for the answer.
    pub open spec fn awaits_reply(self) -> bool {
        match self {
            EngineCommandView::CreateOffer => true,
            EngineCommandView::CreateAnswer => true,
            EngineCommandView::SetLocalDescription(_) => true,
            EngineCommandView::SetRemoteDescription(_) => true,
            _ => false,
        }
    }
}

/// One request to the engine.
#[derive(Debug, PartialEq, Eq)]
pub enum EngineCommand {
    /// Produce an offer.
    CreateOffer,
    /// Produce an answer to the remote offer.
    CreateAnswer,
    /// Install the description of this side.
    SetLocalDescription(RTCSessionDescription),
    /// Install the description of the other side.
    SetRemoteDescription(RTCSessionDescription),
    /// Apply a candidate of the other side to the session.
    AddIceCandidate(RTCIceCandidate),
    /// Attach the track with this native handle to the session, as part of
    /// the stream of this name.
    AddTrack { track: u64, stream: String },
    /// Free the native track with this handle.
    DestroyTrack(u64),
    /// Free the native channel with this handle.
    DestroyChannel(u64),
    /// Free the native session with this handle.
    DestroySession(u64),
}

impl View for EngineCommand {
    type V = EngineCommandView;

    open spec fn view(&self) -> EngineCommandView {
        match self {
            EngineCommand::CreateOffer => EngineCommandView::CreateOffer,
            EngineCommand::CreateAnswer => EngineCommandView::CreateAnswer,
            EngineCommand::SetLocalDescription(d) => EngineCommandView::SetLocalDescription(d@),
            EngineCommand::SetRemoteDescription(d) => EngineCommandView::SetRemoteDescription(d@),
            EngineCommand::AddIceCandidate(c) => EngineCommandView::AddIceCandidate(c@),
            EngineCommand::AddTrack { track, stream } => EngineCommandView::AddTrack {
                track: *track,
                stream: stream@,
            },
            EngineCommand::DestroyTrack(native) => EngineCommandView::DestroyTrack(*native),
            EngineCommand::DestroyChannel(native) => EngineCommandView::DestroyChannel(*native),
            EngineCommand::DestroySession(native) => EngineCommandView::DestroySession(*native),
        }
    }
}

impl EngineCommand {
    /// True when the engine's answer to the command has to be handed to the
    /// connection.
    pub fn awaits_reply(&self) -> (awaited: bool)
        ensures
            awaited == self@.awaits_reply(),
    {
        match self {
            EngineCommand::CreateOffer => true,
            EngineCommand::CreateAnswer => true,
            EngineCommand::SetLocalDescription(_) => true,
            EngineCommand::SetRemoteDescription(_) => true,
            _ => false,
        }
    }
}

/// The commands of `commands` as plain values.
pub open spec fn command_views(commands: Seq<EngineCommand>) -> Seq<EngineCommandView> {
    commands.map_values(|c: EngineCommand| c@)
}

/// The candidates of `candidates` as plain values.
pub open spec fn candidate_views(candidates: Seq<RTCIceCandidate>) -> Seq<IceCandidateView> {
    candidates.map_values(|c: RTCIceCandidate| c@)
}

/// What the engine answers to a command that has an answer.
#[derive(Debug, PartialEq, Eq)]
pub enum EngineReply {
    /// The description that the engine produced.
    Description(RTCSessionDescription),
    /// The engine installed the description it was given.
    Done,
    /// The engine refused.
    Rejected,
}

} // verus!

//! The messages of the signaling transport.
//!
//! The transport hands over what it received as a kind and a text, and takes
//! the same shape to send. This layer reads the kind and passes the text on
//! untouched: as the description of the other side, or as one of its
//! candidates.

use vstd::prelude::*;
use crate::engine::{
    IceCandidateView, RTCIceCandidate, RTCSessionDescription, RTCSessionDescriptionType,
    SessionDescriptionView,
};
use crate::error::RtcError;
use crate::peer_connection::{RTCPeerConnection, SessionView};

verus! {

/// The kind of a message that carries an offer.
pub open spec fn offer_kind() -> Seq<char> {
    "offer"@
}

/// The kind of a message that carries an answer.
pub open spec fn answer_kind() -> Seq<char> {
    "answer"@
}

/// The kind of a message that carries a candidate.
pub open spec fn candidate_kind() -> Seq<char> {
    "candidate"@
}

/// The three kinds differ from each other.
pub proof fn lemma_kinds_differ()
    ensures
        offer_kind() != answer_kind(),
        offer_kind() != candidate_kind(),
        answer_kind() != candidate_kind(),
{
    reveal_strlit("offer");
    reveal_strlit("answer");
    reveal_strlit("candidate");
    assert(offer_kind().len() == 5);
    assert(answer_kind().len() == 6);
    assert(candidate_kind().len() == 9);
}

/// A message as a plain value.
pub struct PayloadView {
    pub kind: Seq<char>,
    pub payload: Seq<char>,
}

/// One message of the signaling transport.
#[derive(Debug, PartialEq, Eq)]
pub struct Payload {
    pub kind: String,
    pub payload: String,
}

impl View for Payload {
    type V = PayloadView;

    open spec fn view(&self) -> PayloadView {
        PayloadView { kind: self.kind@, payload: self.payload@ }
    }
}

/// What a message carries, as a plain value.
pub enum SignalView {
    Description(SessionDescriptionView),
    Candidate(IceCandidateView),
}

/// What a message carries.
#[derive(Debug, PartialEq, Eq)]
pub enum Signal {
    /// A description of the other side.
    Description(RTCSessionDescription),
    /// A candidate of the other side.
    Candidate(RTCIceCandidate),
}

impl View for Signal {
    type V = SignalView;

    open spec fn view(&self) -> SignalView {
        match self {
            Signal::Description(d) => SignalView::Description(d@),
            Signal::Candidate(c) => SignalView::Candidate(c@),
        }
    }
}

impl PayloadView {
    /// What the message carries; `None` where its kind is none of the three.
    pub open spec fn signal(self) -> Option<SignalView> {
        if self.kind == offer_kind() {
            Some(
                SignalView::Description(
                    SessionDescriptionView {
                        kind: RTCSessionDescriptionType::Offer,
                        sdp: self.payload,
                    },
                ),
            )
        } else if self.kind == answer_kind() {
            Some(
                SignalView::Description(
                    SessionDescriptionView {
                        kind: RTCSessionDescriptionType::Answer,
                        sdp: self.payload,
                    },
                ),
            )
        } else if self.kind == candidate_kind() {
            Some(SignalView::Candidate(IceCandidateView { candidate: self.payload }))
        } else {
            None
        }
    }

    /// The message that carries `description`.
    pub open spec fn of_description(description: SessionDescriptionView) -> Self {
        PayloadView {
            kind: match description.kind {
                RTCSessionDescriptionType::Offer => offer_kind(),
                RTCSessionDescriptionType::Answer => answer_kind(),
            },
            payload: description.sdp,
        }
    }

    /// The message that carries `candidate`.
    pub open spec fn of_candidate(candidate: IceCandidateView) -> Self {
        PayloadView { kind: candidate_kind(), payload: candidate.candidate }
    }
}

/// A message that this layer makes for a description or a candidate is read
/// back as that description or candidate.
pub proof fn lemma_messages_round_trip(
    description: SessionDescriptionView,
    candidate: IceCandidateView,
)
    ensures
        PayloadView::of_description(description).signal() == Some(
            SignalView::Description(description),
        ),
        PayloadView::of_candidate(candidate).signal() == Some(SignalView::Candidate(candidate)),
{
    lemma_kinds_differ();
}

impl Payload {
    /// Reads the kind of the message and wraps its text accordingly. `None`
    /// where the kind is none of `offer`, `answer` and `candidate`.
    pub fn into_signal(self) -> (signal: Option<Signal>)
        ensures
            match signal {
                Some(s) => self@.signal() == Some(s@),
                None => self@.signal() is None,
            },
    {
        let Payload { kind, payload } = self;
        let offer: String = "offer".to_owned();
        let answer: String = "answer".to_owned();
        let candidate: String = "candidate".to_owned();
        if kind == offer {
            Some(
                Signal::Description(
                    RTCSessionDescription { kind: RTCSessionDescriptionType::Offer, sdp: payload },
                ),
            )
        } else if kind == answer {
            Some(
                Signal::Description(
                    RTCSessionDescription { kind: RTCSessionDescriptionType::Answer, sdp: payload },
                ),
            )
        } else if kind == candidate {
            Some(Signal::Candidate(RTCIceCandidate { candidate: payload }))
        } else {
            None
        }
    }

    /// The message that carries `description` to the other side.
    pub fn from_description(description: &RTCSessionDescription) -> (message: Payload)
        ensures
            message@ == PayloadView::of_description(description@),
    {
        let kind: String = match description.kind {
            RTCSessionDescriptionType::Offer => "offer".to_owned(),
            RTCSessionDescriptionType::Answer => "answer".to_owned(),
        };
        Payload { kind, payload: description.sdp.clone() }
    }

    /// The message that carries `candidate` to the other side.
    pub fn from_candidate(candidate: &RTCIceCandidate) -> (message: Payload)
        ensures
            message@ == PayloadView::of_candidate(candidate@),
    {
        Payload { kind: "candidate".to_owned(), payload: candidate.candidate.clone() }
    }
}

/// What became of a message that was handed to a connection.
#[derive(Clone, Copy, Debug, PartialEq, Eq, Structural)]
pub enum SignalOutcome {
    /// The engine was asked to set the description; its answer is due.
    DescriptionRequested,
    /// The candidate went to the engine.
    CandidateApplied,
    /// The candidate is kept back until a description is set.
    CandidateBuffered,
    /// The message is of no kind that this layer knows, and was dropped.
    Ignored,
}

/// The connection after `message` was handed to it.
pub open spec fn signalled(session: SessionView, message: PayloadView) -> SessionView {
    match message.signal() {
        Some(SignalView::Description(d)) => session.remote_description_requested(d),
        Some(SignalView::Candidate(c)) => session.candidate_added(c),
        None => session,
    }
}

/// What `on_signal` answers to `message`.
pub open spec fn signal_result(session: SessionView, message: PayloadView) -> Result<
    SignalOutcome,
    RtcError,
> {
    match message.signal() {
        Some(SignalView::Description(d)) => if session.accepts_remote(d.kind) {
            Ok(SignalOutcome::DescriptionRequested)
        } else {
            Err(RtcError::NegotiationFailure)
        },
        Some(SignalView::Candidate(_)) => if session.remote_description_set {
            Ok(SignalOutcome::CandidateApplied)
        } else {
            Ok(SignalOutcome::CandidateBuffered)
        },
        None => Ok(SignalOutcome::Ignored),
    }
}

/// Hands a message of the other side to the connection: a description is
/// set as the description of the other side, a candidate is added, and a
/// message of another kind is dropped. Fails with `NegotiationFailure` where
/// the description does not fit the stage.
pub fn on_signal(connection: &mut RTCPeerConnection, message: Payload) -> (r: Result<
    SignalOutcome,
    RtcError,
>)
    ensures
        final(connection)@ == signalled(old(connection)@, message@),
        r == signal_result(old(connection)@, message@),
{
    match message.into_signal() {
        Some(Signal::Description(description)) => {
            match connection.set_remote_description(&description) {
                Ok(()) => Ok(SignalOutcome::DescriptionRequested),
                Err(e) => Err(e),
            }
        },
        Some(Signal::Candidate(candidate)) => {
            if connection.add_ice_candidate(&candidate) {
                Ok(SignalOutcome::CandidateApplied)
            } else {
                Ok(SignalOutcome::CandidateBuffered)
            }
        },
        None => Ok(SignalOutcome::Ignored),
    }
}

} // verus!

//! The peer connection: the signaling state machine.
//!
//! The host drives the negotiation by explicit calls. A call that fits the
//! stage puts a command for the engine into a queue; whoever drives the
//! engine takes the commands out in order, carries them out, and hands the
//! engine's answer to `complete`. Until the engine has answered, no other
//! step of the negotiation is taken.
//!
//! Candidates of the other side that come before its description is set are
//! kept back, and go to the engine, in the order in which they came, as soon
//! as it is set.

use vstd::prelude::*;
use crate::base::NativeHandle;
use crate::engine::{
    candidate_views, command_views, EngineCommand, EngineCommandView, EngineReply,
    IceCandidateView, RTCIceCandidate, RTCSessionDescription, RTCSessionDescriptionType,
    SessionDescriptionView,
};
use crate::error::RtcError;
use crate::media_stream::MediaStream;
use crate::media_stream_track::MediaStreamTrack;
use crate::observer::{Observer, ObserverView};

verus! {

/// Where the exchange of descriptions stands.
#[derive(Clone, Copy, Debug, PartialEq, Eq, Structural)]
pub enum SignalingState {
    /// No exchange is under way.
    Stable,
    /// This side has set its offer and waits for the answer.
    HaveLocalOffer,
    /// The other side's offer is set and this side has to answer.
    HaveRemoteOffer,
}

/// The step that the engine is working on.
#[derive(Clone, Copy, Debug, PartialEq, Eq, Structural)]
pub enum PendingOperation {
    /// None: the next step can be taken.
    Idle,
    CreateOffer,
    CreateAnswer,
    SetLocalDescription(RTCSessionDescriptionType),
    SetRemoteDescription(RTCSessionDescriptionType),
}

/// What the engine answered, as a plain value.
pub enum EngineReplyView {
    Description(SessionDescriptionView),
    Done,
    Rejected,
}

impl View for EngineReply {
    type V = EngineReplyView;

    open spec fn view(&self) -> EngineReplyView {
        match self {
            EngineReply::Description(d) => EngineReplyView::Description(d@),
            EngineReply::Done => EngineReplyView::Done,
            EngineReply::Rejected => EngineReplyView::Rejected,
        }
    }
}

/// The commands that apply `candidates` to the session, in their order.
pub open spec fn apply_commands(candidates: Seq<IceCandidateView>) -> Seq<EngineCommandView> {
    candidates.map_values(|c: IceCandidateView| EngineCommandView::AddIceCandidate(c))
}

/// A peer connection as a plain value.
pub struct SessionView {
    /// The handle of the engine's session.
    pub native: u64,
    /// Where the exchange of descriptions stands.
    pub signaling: SignalingState,
    /// The step that the engine is working on.
    pub pending: PendingOperation,
    /// True once a description of the other side was set.
    pub remote_description_set: bool,
    /// True once a step of the negotiation was taken.
    pub negotiation_begun: bool,
    /// True when tracks were added that no offer has covered yet.
    pub renegotiation_needed: bool,
    /// The candidates that are kept back, in the order in which they came.
    pub buffered: Seq<IceCandidateView>,
    /// The commands that the engine has not taken yet, oldest first.
    pub commands: Seq<EngineCommandView>,
    /// The observer.
    pub observer: ObserverView,
}

impl SessionView {
    /// A connection that was just created around `observer`.
    pub open spec fn fresh(native: u64, observer: ObserverView) -> Self {
        SessionView {
            native,
            signaling: SignalingState::Stable,
            pending: PendingOperation::Idle,
            remote_description_set: false,
            negotiation_begun: false,
            renegotiation_needed: false,
            buffered: Seq::empty(),
            commands: Seq::empty(),
            observer,
        }
    }

    /// True when the step under way fits the stage of the exchange: it is a
    /// step that can have been taken from there.
    pub open spec fn consistent(self) -> bool {
        &&& match self.pending {
            PendingOperation::Idle => true,
            PendingOperation::CreateOffer => self.signaling == SignalingState::Stable,
            PendingOperation::CreateAnswer => self.signaling == SignalingState::HaveRemoteOffer,
            PendingOperation::SetLocalDescription(kind) => self.signaling == match kind {
                RTCSessionDescriptionType::Offer => SignalingState::Stable,
                RTCSessionDescriptionType::Answer => SignalingState::HaveRemoteOffer,
            },
            PendingOperation::SetRemoteDescription(kind) => self.signaling == match kind {
                RTCSessionDescriptionType::Offer => SignalingState::Stable,
                RTCSessionDescriptionType::Answer => SignalingState::HaveLocalOffer,
            },
        }
        &&& self.renegotiation_needed ==> self.negotiation_begun
        &&& !self.negotiation_begun ==> self.pending == PendingOperation::Idle && self.signaling
            == SignalingState::Stable && !self.remote_description_set
        &&& self.remote_description_set ==> self.buffered.len() == 0
    }

    /// True when an offer can be asked for: nothing is under way.
    pub open spec fn can_create_offer(self) -> bool {
        self.pending == PendingOperation::Idle && self.signaling == SignalingState::Stable
    }

    /// True when an answer can be asked for: the other side's offer is set.
    pub open spec fn can_create_answer(self) -> bool {
        self.pending == PendingOperation::Idle && self.signaling == SignalingState::HaveRemoteOffer
    }

    /// True when a description of this side of kind `kind` fits the stage:
    /// an offer where nothing is under way, an answer where the other side's
    /// offer is set.
    pub open spec fn accepts_local(self, kind: RTCSessionDescriptionType) -> bool {
        self.pending == PendingOperation::Idle && match kind {
            RTCSessionDescriptionType::Offer => self.signaling == SignalingState::Stable,
            RTCSessionDescriptionType::Answer => self.signaling == SignalingState::HaveRemoteOffer,
        }
    }

    /// True when a description of the other side of kind `kind` fits the
    /// stage: an offer where nothing is under way, an answer where this
    /// side's offer is set.
    pub open spec fn accepts_remote(self, kind: RTCSessionDescriptionType) -> bool {
        self.pending == PendingOperation::Idle && match kind {
            RTCSessionDescriptionType::Offer => self.signaling == SignalingState::Stable,
            RTCSessionDescriptionType::Answer => self.signaling == SignalingState::HaveLocalOffer,
        }
    }

    /// After the step `step` was handed to the engine as `command`.
    pub open spec fn begun(self, step: PendingOperation, command: EngineCommandView) -> Self {
        SessionView {
            pending: step,
            negotiation_begun: true,
            commands: self.commands.push(command),
            ..self
        }
    }

    /// After the engine was asked for an offer. The offer covers the tracks
    /// that were added so far.
    pub open spec fn offer_started(self) -> Self {
        SessionView {
            renegotiation_needed: false,
            ..self.begun(PendingOperation::CreateOffer, EngineCommandView::CreateOffer)
        }
    }

    /// After a call of `create_offer`.
    pub open spec fn offer_requested(self) -> Self {
        if self.can_create_offer() {
            self.offer_started()
        } else {
            self
        }
    }

    /// After a call of `create_answer`.
    pub open spec fn answer_requested(self) -> Self {
        if self.can_create_answer() {
            self.begun(PendingOperation::CreateAnswer, EngineCommandView::CreateAnswer)
        } else {
            self
        }
    }

    /// After a call of `set_local_description`.
    pub open spec fn local_description_requested(self, description: SessionDescriptionView) -> Self {
        if self.accepts_local(description.kind) {
            self.begun(
                PendingOperation::SetLocalDescription(description.kind),
                EngineCommandView::SetLocalDescription(description),
            )
        } else {
            self
        }
    }

    /// After a call of `set_remote_description`.
    pub open spec fn remote_description_requested(
        self,
        description: SessionDescriptionView,
    ) -> Self {
        if self.accepts_remote(description.kind) {
            self.begun(
                PendingOperation::SetRemoteDescription(description.kind),
                EngineCommandView::SetRemoteDescription(description),
            )
        } else {
            self
        }
    }

    /// After a call of `add_ice_candidate`: the candidate goes to the engine
    /// once a description of the other side is set, and is kept back before.
    pub open spec fn candidate_added(self, candidate: IceCandidateView) -> Self {
        if self.remote_description_set {
            SessionView {
                commands: self.commands.push(EngineCommandView::AddIceCandidate(candidate)),
                ..self
            }
        } else {
            SessionView { buffered: self.buffered.push(candidate), ..self }
        }
    }

    /// After one call of `add_ice_candidate` for each of `candidates`, in
    /// their order.
    pub open spec fn candidates_added(self, candidates: Seq<IceCandidateView>) -> Self
        decreases candidates.len(),
    {
        if candidates.len() == 0 {
            self
        } else {
            self.candidates_added(candidates.drop_last()).candidate_added(candidates.last())
        }
    }

    /// Starts a new offer where tracks wait for one and nothing is under
    /// way.
    pub open spec fn settled(self) -> Self {
        if self.renegotiation_needed && self.can_create_offer() {
            self.offer_started()
        } else {
            self
        }
    }

    /// After a call of `add_track`: the track is attached, and where the
    /// negotiation has begun a new offer is started, at once if nothing is
    /// under way and else as soon as the exchange under way is done.
    pub open spec fn track_added(self, track: u64, stream: Seq<char>) -> Self {
        let attached = SessionView {
            commands: self.commands.push(EngineCommandView::AddTrack { track, stream }),
            ..self
        };
        if self.negotiation_begun {
            (SessionView { renegotiation_needed: true, ..attached }).settled()
        } else {
            attached
        }
    }

    /// True when `reply` is the answer that the step under way waits for.
    pub open spec fn satisfied_by(self, reply: EngineReplyView) -> bool {
        match self.pending {
            PendingOperation::Idle => false,
            PendingOperation::CreateOffer => reply matches EngineReplyView::Description(d) && d.kind
                == RTCSessionDescriptionType::Offer,
            PendingOperation::CreateAnswer => reply matches EngineReplyView::Description(d)
                && d.kind == RTCSessionDescriptionType::Answer,
            PendingOperation::SetLocalDescription(_) => reply is Done,
            PendingOperation::SetRemoteDescription(_) => reply is Done,
        }
    }

    /// What `complete` answers to `reply`: the description that was asked
    /// for, nothing where a description was set, and `NegotiationFailure`
    /// where the engine refused, answered something else, or was not asked.
    pub open spec fn completion_result(self, reply: EngineReplyView) -> Result<
        Option<SessionDescriptionView>,
        RtcError,
    > {
        if !self.satisfied_by(reply) {
            Err(RtcError::NegotiationFailure)
        } else {
            match reply {
                EngineReplyView::Description(d) => Ok(Some(d)),
                _ => Ok(None),
            }
        }
    }

    /// After a call of `complete`. The step under way is over in any case.
    /// Where a description was set the exchange moves on; where it was one
    /// of the other side, the candidates that were kept back go to the engine
    /// in the order in which they came.
    pub open spec fn completed(self, reply: EngineReplyView) -> Self {
        let idle = SessionView { pending: PendingOperation::Idle, ..self };
        if !self.satisfied_by(reply) {
            idle
        } else {
            match self.pending {
                PendingOperation::SetLocalDescription(kind) => (SessionView {
                    signaling: match kind {
                        RTCSessionDescriptionType::Offer => SignalingState::HaveLocalOffer,
                        RTCSessionDescriptionType::Answer => SignalingState::Stable,
                    },
                    ..idle
                }).settled(),
                PendingOperation::SetRemoteDescription(kind) => (SessionView {
                    signaling: match kind {
                        RTCSessionDescriptionType::Offer => SignalingState::HaveRemoteOffer,
                        RTCSessionDescriptionType::Answer => SignalingState::Stable,
                    },
                    remote_description_set: true,
                    commands: self.commands + apply_commands(self.buffered),
                    buffered: Seq::empty(),
                    ..idle
                }).settled(),
                _ => idle,
            }
        }
    }
}

/// As long as no description of the other side is set, candidates are kept
/// back in the order in which they come, and none of them goes to the engine.
pub proof fn lemma_candidates_wait_for_remote_description(
    session: SessionView,
    candidates: Seq<IceCandidateView>,
)
    requires
        !session.remote_description_set,
    ensures
        session.candidates_added(candidates) == (SessionView {
            buffered: session.buffered + candidates,
            ..session
        }),
    decreases candidates.len(),
{
    if candidates.len() == 0 {
        assert(session.buffered + candidates =~= session.buffered);
    } else {
        lemma_candidates_wait_for_remote_description(session, candidates.drop_last());
        assert((session.buffered + candidates.drop_last()).push(candidates.last())
            =~= session.buffered + candidates);
    }
}

/// Once a description of the other side is set, candidates go to the engine
/// in the order in which they come, and none of them is kept back.
pub proof fn lemma_candidates_pass_after_remote_description(
    session: SessionView,
    candidates: Seq<IceCandidateView>,
)
    requires
        session.remote_description_set,
    ensures
        session.candidates_added(candidates) == (SessionView {
            commands: session.commands + apply_commands(candidates),
            ..session
        }),
    decreases candidates.len(),
{
    if candidates.len() == 0 {
        assert(session.commands + apply_commands(candidates) =~= session.commands);
    } else {
        lemma_candidates_pass_after_remote_description(session, candidates.drop_last());
        assert((session.commands + apply_commands(candidates.drop_last())).push(
            EngineCommandView::AddIceCandidate(candidates.last()),
        ) =~= session.commands + apply_commands(candidates));
    }
}

/// The candidates that come before the first description of the other side
/// is set, be it before the host asks for it (`early`) or while the engine
/// works on it (`during`), are applied in the order in which they came,
/// directly behind the command that sets the description, once the engine
/// has set it. Nothing is kept back after that, and every candidate that
/// comes later (`late`) is applied behind them.
pub proof fn lemma_buffered_candidates_applied_in_arrival_order(
    session: SessionView,
    early: Seq<IceCandidateView>,
    description: SessionDescriptionView,
    during: Seq<IceCandidateView>,
    late: Seq<IceCandidateView>,
)
    requires
        !session.remote_description_set,
        session.accepts_remote(description.kind),
    ensures
        ({
            let set = session.candidates_added(early).remote_description_requested(
                description,
            ).candidates_added(during).completed(EngineReplyView::Done);
            let applied = session.commands.push(
                EngineCommandView::SetRemoteDescription(description),
            ) + apply_commands(session.buffered + early + during);
            &&& set.remote_description_set
            &&& set.buffered == Seq::<IceCandidateView>::empty()
            &&& applied.is_prefix_of(set.commands)
            &&& set.candidates_added(late).commands == set.commands + apply_commands(late)
        }),
{
    let waiting = session.candidates_added(early);
    lemma_candidates_wait_for_remote_description(session, early);
    let requested = waiting.remote_description_requested(description);
    let held = requested.candidates_added(during);
    lemma_candidates_wait_for_remote_description(requested, during);
    let set = held.completed(EngineReplyView::Done);
    let applied = session.commands.push(EngineCommandView::SetRemoteDescription(description))
        + apply_commands(session.buffered + early + during);
    assert(held.buffered == session.buffered + early + during);
    assert(held.commands + apply_commands(held.buffered) =~= applied);
    assert(applied.is_prefix_of(set.commands)) by {
        assert(set.commands.subrange(0, applied.len() as int) =~= applied);
    }
    lemma_candidates_pass_after_remote_description(set, late);
}

/// The offering side. From a connection on which nothing is under way, the
/// steps offer, local description, remote description, each with the answer
/// of the engine that it waits for, end with nothing under way again. The
/// engine was handed the three commands in that order, and behind them the
/// candidates that were kept back.
pub proof fn lemma_offering_side_settles(
    session: SessionView,
    offer: SessionDescriptionView,
    answer: SessionDescriptionView,
)
    requires
        session.can_create_offer(),
        offer.kind == RTCSessionDescriptionType::Offer,
        answer.kind == RTCSessionDescriptionType::Answer,
    ensures
        ({
            let asked = session.offer_requested();
            let made = asked.completed(EngineReplyView::Description(offer));
            let local = made.local_description_requested(offer).completed(EngineReplyView::Done);
            let remote = local.remote_description_requested(answer).completed(
                EngineReplyView::Done,
            );
            &&& asked.completion_result(EngineReplyView::Description(offer)) == Ok::<
                Option<SessionDescriptionView>,
                RtcError,
            >(Some(offer))
            &&& local.signaling == SignalingState::HaveLocalOffer
            &&& remote.signaling == SignalingState::Stable
            &&& remote.pending == PendingOperation::Idle
            &&& remote.remote_description_set
            &&& remote.buffered == Seq::<IceCandidateView>::empty()
            &&& remote.commands == session.commands + seq![
                EngineCommandView::CreateOffer,
                EngineCommandView::SetLocalDescription(offer),
                EngineCommandView::SetRemoteDescription(answer),
            ] + apply_commands(session.buffered)
        }),
{
    let asked = session.offer_requested();
    let made = asked.completed(EngineReplyView::Description(offer));
    let local = made.local_description_requested(offer).completed(EngineReplyView::Done);
    let remote = local.remote_description_requested(answer).completed(EngineReplyView::Done);
    assert(remote.commands =~= session.commands + seq![
        EngineCommandView::CreateOffer,
        EngineCommandView::SetLocalDescription(offer),
        EngineCommandView::SetRemoteDescription(answer),
    ] + apply_commands(session.buffered));
}

/// The answering side. From a connection on which nothing is under way and
/// no tracks wait for an offer, the steps remote description, answer, local
/// description, each with the answer of the engine that it waits for, end
/// with nothing under way again. The candidates that were kept back went to
/// the engine directly behind the remote description.
pub proof fn lemma_answering_side_settles(
    session: SessionView,
    offer: SessionDescriptionView,
    answer: SessionDescriptionView,
)
    requires
        session.can_create_offer(),
        !session.renegotiation_needed,
        offer.kind == RTCSessionDescriptionType::Offer,
        answer.kind == RTCSessionDescriptionType::Answer,
    ensures
        ({
            let remote = session.remote_description_requested(offer).completed(
                EngineReplyView::Done,
            );
            let asked = remote.answer_requested();
            let made = asked.completed(EngineReplyView::Description(answer));
            let local = made.local_description_requested(answer).completed(EngineReplyView::Done);
            &&& remote.signaling == SignalingState::HaveRemoteOffer
            &&& asked.completion_result(EngineReplyView::Description(answer)) == Ok::<
                Option<SessionDescriptionView>,
                RtcError,
            >(Some(answer))
            &&& local.signaling == SignalingState::Stable
            &&& local.pending == PendingOperation::Idle
            &&& local.remote_description_set
            &&& local.commands == session.commands.push(
                EngineCommandView::SetRemoteDescription(offer),
            ) + apply_commands(session.buffered) + seq![
                EngineCommandView::CreateAnswer,
                EngineCommandView::SetLocalDescription(answer),
            ]
        }),
{
    let remote = session.remote_description_requested(offer).completed(EngineReplyView::Done);
    let asked = remote.answer_requested();
    let made = asked.completed(EngineReplyView::Description(answer));
    let local = made.local_description_requested(answer).completed(EngineReplyView::Done);
    assert(local.commands =~= session.commands.push(
        EngineCommandView::SetRemoteDescription(offer),
    ) + apply_commands(session.buffered) + seq![
        EngineCommandView::CreateAnswer,
        EngineCommandView::SetLocalDescription(answer),
    ]);
}

/// A new connection is consistent, and every step keeps a consistent
/// connection consistent: whatever the host calls in whatever order, and
/// whatever the engine answers, the step under way fits the stage of the
/// exchange, and no candidate is kept back once a description of the other
/// side is set.
pub proof fn lemma_steps_keep_consistency(
    session: SessionView,
    native: u64,
    observer: ObserverView,
    description: SessionDescriptionView,
    candidate: IceCandidateView,
    track: u64,
    stream: Seq<char>,
    reply: EngineReplyView,
)
    requires
        session.consistent(),
    ensures
        SessionView::fresh(native, observer).consistent(),
        session.offer_requested().consistent(),
        session.answer_requested().consistent(),
        session.local_description_requested(description).consistent(),
        session.remote_description_requested(description).consistent(),
        session.candidate_added(candidate).consistent(),
        session.track_added(track, stream).consistent(),
        session.completed(reply).consistent(),
{
}

/// The command of a step of the negotiation reaches the queue only together
/// with the step: a call that is refused queues nothing, and a call that is
/// accepted queues exactly its command and waits for the answer to it.
pub proof fn lemma_steps_queue_their_command(
    session: SessionView,
    description: SessionDescriptionView,
)
    ensures
        session.offer_requested().commands == if session.can_create_offer() {
            session.commands.push(EngineCommandView::CreateOffer)
        } else {
            session.commands
        },
        session.answer_requested().commands == if session.can_create_answer() {
            session.commands.push(EngineCommandView::CreateAnswer)
        } else {
            session.commands
        },
        session.local_description_requested(description).commands == if session.accepts_local(
            description.kind,
        ) {
            session.commands.push(EngineCommandView::SetLocalDescription(description))
        } else {
            session.commands
        },
        session.remote_description_requested(description).commands == if session.accepts_remote(
            description.kind,
        ) {
            session.commands.push(EngineCommandView::SetRemoteDescription(description))
        } else {
            session.commands
        },
        session.can_create_offer() ==> session.offer_requested().pending
            == PendingOperation::CreateOffer,
        session.can_create_answer() ==> session.answer_requested().pending
            == PendingOperation::CreateAnswer,
        session.pending != PendingOperation::Idle ==> {
            &&& session.offer_requested() == session
            &&& session.answer_requested() == session
            &&& session.local_description_requested(description) == session
            &&& session.remote_description_requested(description) == session
        },
{
}

/// A track that is added once the negotiation has begun leads to a new
/// offer. Where nothing is under way the offer is asked for at once, directly
/// behind the command that attaches the track. Otherwise the track waits,
/// and the offer is asked for by the call of `complete` with which a
/// description is set and the exchange under way ends.
pub proof fn lemma_added_track_is_offered(
    session: SessionView,
    track: u64,
    stream: Seq<char>,
    reply: EngineReplyView,
)
    requires
        session.consistent(),
        session.negotiation_begun,
    ensures
        ({
            let added = session.track_added(track, stream);
            let ended = added.completed(reply);
            let attach = EngineCommandView::AddTrack { track, stream };
            if session.can_create_offer() {
                &&& added.pending == PendingOperation::CreateOffer
                &&& !added.renegotiation_needed
                &&& added.commands == session.commands.push(attach).push(
                    EngineCommandView::CreateOffer,
                )
            } else {
                &&& added.pending == session.pending
                &&& added.renegotiation_needed
                &&& added.commands == session.commands.push(attach)
                &&& added.satisfied_by(reply) && ended.signaling == SignalingState::Stable && (
                added.pending is SetLocalDescription || added.pending is SetRemoteDescription)
                    ==> {
                    &&& ended.pending == PendingOperation::CreateOffer
                    &&& !ended.renegotiation_needed
                    &&& ended.commands.last() == EngineCommandView::CreateOffer
                }
            }
        }),
{
}

/// Moves the candidates in `buffered` to the end of `commands`, each as the
/// command that applies it, in their order.
fn flush(buffered: Vec<RTCIceCandidate>, commands: &mut Vec<EngineCommand>)
    ensures
        command_views(final(commands)@) == command_views(old(commands)@) + apply_commands(
            candidate_views(buffered@),
        ),
{
    let ghost start = command_views(commands@);
    let ghost all = candidate_views(buffered@);
    assert(command_views(commands@) =~= start + apply_commands(all.subrange(0, 0)));
    for candidate in it: buffered
        invariant
            it.seq() == buffered@,
            all == candidate_views(buffered@),
            command_views(commands@) == start + apply_commands(
                all.subrange(0, it.index() as int),
            ),
    {
        proof {
            let done = all.subrange(0, it.index() as int);
            let next = all.subrange(0, it.index() + 1);
            assert(candidate == buffered@[it.index() as int]);
            assert(next =~= done.push(candidate@));
            assert(apply_commands(next) =~= apply_commands(done).push(
                EngineCommandView::AddIceCandidate(candidate@),
            ));
        }
        let ghost before = command_views(commands@);
        commands.push(EngineCommand::AddIceCandidate(candidate));
        assert(command_views(commands@) =~= before.push(
            EngineCommandView::AddIceCandidate(candidate@),
        ));
        assert(command_views(commands@) =~= start + apply_commands(
            all.subrange(0, it.index() + 1),
        ));
    }
    assert(all.subrange(0, all.len() as int) =~= all);
}

/// The answer of `complete` with its description as a plain value.
pub open spec fn completion_view(r: Result<Option<RTCSessionDescription>, RtcError>) -> Result<
    Option<SessionDescriptionView>,
    RtcError,
> {
    match r {
        Ok(Some(d)) => Ok(Some(d@)),
        Ok(None) => Ok(None),
        Err(e) => Err(e),
    }
}

/// One session with another peer: the engine's session, the state of the
/// negotiation, and the observer that the engine's events go to.
pub struct RTCPeerConnection {
    native: NativeHandle,
    signaling: SignalingState,
    pending: PendingOperation,
    remote_description_set: bool,
    negotiation_begun: bool,
    renegotiation_needed: bool,
    buffered: Vec<RTCIceCandidate>,
    commands: Vec<EngineCommand>,
    observer: Observer,
}

impl View for RTCPeerConnection {
    type V = SessionView;

    closed spec fn view(&self) -> SessionView {
        SessionView {
            native: self.native@,
            signaling: self.signaling,
            pending: self.pending,
            remote_description_set: self.remote_description_set,
            negotiation_begun: self.negotiation_begun,
            renegotiation_needed: self.renegotiation_needed,
            buffered: candidate_views(self.buffered@),
            commands: command_views(self.commands@),
            observer: self.observer@,
        }
    }
}

impl RTCPeerConnection {
    /// Wraps the engine's session `native`, whose events go to `observer`.
    /// Fails with `NativeAllocationError` exactly when `native` is zero.
    pub fn new(native: u64, observer: Observer) -> (r: Result<RTCPeerConnection, RtcError>)
        ensures
            match r {
                Ok(pc) => native != 0 && pc@ == SessionView::fresh(native, observer@),
                Err(e) => native == 0 && e == RtcError::NativeAllocationError,
            },
    {
        match NativeHandle::from_raw(native) {
            None => Err(RtcError::NativeAllocationError),
            Some(native) => {
                let pc = RTCPeerConnection {
                    native,
                    signaling: SignalingState::Stable,
                    pending: PendingOperation::Idle,
                    remote_description_set: false,
                    negotiation_begun: false,
                    renegotiation_needed: false,
                    buffered: Vec::new(),
                    commands: Vec::new(),
                    observer,
                };
                assert(pc@.buffered =~= Seq::empty());
                assert(pc@.commands =~= Seq::empty());
                Ok(pc)
            },
        }
    }

    /// Hands the step `step` to the engine as `command`.
    fn begin(&mut self, step: PendingOperation, command: EngineCommand)
        ensures
            final(self)@ == old(self)@.begun(step, command@),
    {
        self.pending = step;
        self.negotiation_begun = true;
        self.commands.push(command);
        assert(command_views(self.commands@) =~= command_views(old(self).commands@).push(
            command@,
        ));
    }

    /// Starts a new offer where tracks wait for one and nothing is under
    /// way.
    fn settle(&mut self)
        ensures
            final(self)@ == old(self)@.settled(),
    {
        if self.renegotiation_needed {
            match (self.pending, self.signaling) {
                (PendingOperation::Idle, SignalingState::Stable) => {
                    self.start_offer();
                },
                _ => {},
            }
        }
    }

    /// Asks the engine for an offer.
    fn start_offer(&mut self)
        ensures
            final(self)@ == old(self)@.offer_started(),
    {
        self.begin(PendingOperation::CreateOffer, EngineCommand::CreateOffer);
        self.renegotiation_needed = false;
    }

    /// Asks the engine for an offer. Fails with `NegotiationFailure`, and
    /// changes nothing, unless nothing is under way.
    pub fn create_offer(&mut self) -> (r: Result<(), RtcError>)
        ensures
            final(self)@ == old(self)@.offer_requested(),
            r == if old(self)@.can_create_offer() {
                Ok::<(), RtcError>(())
            } else {
                Err::<(), RtcError>(RtcError::NegotiationFailure)
            },
    {
        match (self.pending, self.signaling) {
            (PendingOperation::Idle, SignalingState::Stable) => {
                self.start_offer();
                Ok(())
            },
            _ => Err(RtcError::NegotiationFailure),
        }
    }

    /// Asks the engine for an answer. Fails with `NegotiationFailure`, and
    /// changes nothing, unless the other side's offer is set and no step is
    /// under way.
    pub fn create_answer(&mut self) -> (r: Result<(), RtcError>)
        ensures
            final(self)@ == old(self)@.answer_requested(),
            r == if old(self)@.can_create_answer() {
                Ok::<(), RtcError>(())
            } else {
                Err::<(), RtcError>(RtcError::NegotiationFailure)
            },
    {
        match (self.pending, self.signaling) {
            (PendingOperation::Idle, SignalingState::HaveRemoteOffer) => {
                self.begin(PendingOperation::CreateAnswer, EngineCommand::CreateAnswer);
                Ok(())
            },
            _ => Err(RtcError::NegotiationFailure),
        }
    }

    /// Asks the engine to install `description` as the description of this
    /// side. Fails with `NegotiationFailure`, and changes nothing, unless
    /// the description fits the stage and no step is under way.
    pub fn set_local_description(&mut self, description: &RTCSessionDescription) -> (r: Result<
        (),
        RtcError,
    >)
        ensures
            final(self)@ == old(self)@.local_description_requested(description@),
            r == if old(self)@.accepts_local(description@.kind) {
                Ok::<(), RtcError>(())
            } else {
                Err::<(), RtcError>(RtcError::NegotiationFailure)
            },
    {
        let fits = match (self.pending, self.signaling, description.kind) {
            (PendingOperation::Idle, SignalingState::Stable, RTCSessionDescriptionType::Offer) => true,
            (
                PendingOperation::Idle,
                SignalingState::HaveRemoteOffer,
                RTCSessionDescriptionType::Answer,
            ) => true,
            _ => false,
        };
        if fits {
            self.begin(
                PendingOperation::SetLocalDescription(description.kind),
                EngineCommand::SetLocalDescription(description.clone()),
            );
            Ok(())
        } else {
            Err(RtcError::NegotiationFailure)
        }
    }

    /// Asks the engine to install `description` as the description of the
    /// other side. Fails with `NegotiationFailure`, and changes nothing,
    /// unless the description fits the stage and no step is under way.
    pub fn set_remote_description(&mut self, description: &RTCSessionDescription) -> (r: Result<
        (),
        RtcError,
    >)
        ensures
            final(self)@ == old(self)@.remote_description_requested(description@),
            r == if old(self)@.accepts_remote(description@.kind) {
                Ok::<(), RtcError>(())
            } else {
                Err::<(), RtcError>(RtcError::NegotiationFailure)
            },
    {
        let fits = match (self.pending, self.signaling, description.kind) {
            (PendingOperation::Idle, SignalingState::Stable, RTCSessionDescriptionType::Offer) => true,
            (
                PendingOperation::Idle,
                SignalingState::HaveLocalOffer,
                RTCSessionDescriptionType::Answer,
            ) => true,
            _ => false,
        };
        if fits {
            self.begin(
                PendingOperation::SetRemoteDescription(description.kind),
                EngineCommand::SetRemoteDescription(description.clone()),
            );
            Ok(())
        } else {
            Err(RtcError::NegotiationFailure)
        }
    }

    /// Takes a candidate of the other side. Once a description of the other
    /// side is set the candidate goes to the engine at once; before that it
    /// is kept back behind the candidates that are kept back already. Says
    /// whether it went to the engine.
    pub fn add_ice_candidate(&mut self, candidate: &RTCIceCandidate) -> (applied: bool)
        ensures
            final(self)@ == old(self)@.candidate_added(candidate@),
            applied == old(self)@.remote_description_set,
    {
        if self.remote_description_set {
            self.commands.push(EngineCommand::AddIceCandidate(candidate.clone()));
            assert(command_views(self.commands@) =~= command_views(old(self).commands@).push(
                EngineCommandView::AddIceCandidate(candidate@),
            ));
            true
        } else {
            self.buffered.push(candidate.clone());
            assert(candidate_views(self.buffered@) =~= candidate_views(old(self).buffered@).push(
                candidate@,
            ));
            false
        }
    }

    /// Attaches `track` to the session as part of `stream`. Where the
    /// negotiation has begun, this starts a new offer: at once if nothing is
    /// under way, which the result says, and else as soon as the exchange
    /// under way is done.
    pub fn add_track(&mut self, track: &MediaStreamTrack, stream: &MediaStream) -> (offering: bool)
        ensures
            final(self)@ == old(self)@.track_added(track@.native(), stream@.id),
            offering == (old(self)@.negotiation_begun && old(self)@.can_create_offer()),
    {
        let command = EngineCommand::AddTrack {
            track: track.native(),
            stream: stream.id().to_owned(),
        };
        self.commands.push(command);
        assert(command_views(self.commands@) =~= command_views(old(self).commands@).push(
            EngineCommandView::AddTrack { track: track@.native(), stream: stream@.id },
        ));
        if self.negotiation_begun {
            self.renegotiation_needed = true;
            let idle = match (self.pending, self.signaling) {
                (PendingOperation::Idle, SignalingState::Stable) => true,
                _ => false,
            };
            self.settle();
            idle
        } else {
            false
        }
    }

    /// Takes the engine's answer to the step under way, which is over with
    /// it. The result is the description that was asked for, or nothing
    /// where a description was set. Fails with `NegotiationFailure` where
    /// the engine refused, where its answer is not the one the step waits
    /// for, and where no step is under way.
    pub fn complete(&mut self, reply: EngineReply) -> (r: Result<
        Option<RTCSessionDescription>,
        RtcError,
    >)
        ensures
            final(self)@ == old(self)@.completed(reply@),
            completion_view(r) == old(self)@.completion_result(reply@),
    {
        let pending = self.pending;
        self.pending = PendingOperation::Idle;
        match pending {
            PendingOperation::Idle => Err(RtcError::NegotiationFailure),
            PendingOperation::CreateOffer => match reply {
                EngineReply::Description(d) => match d.kind {
                    RTCSessionDescriptionType::Offer => Ok(Some(d)),
                    RTCSessionDescriptionType::Answer => Err(RtcError::NegotiationFailure),
                },
                _ => Err(RtcError::NegotiationFailure),
            },
            PendingOperation::CreateAnswer => match reply {
                EngineReply::Description(d) => match d.kind {
                    RTCSessionDescriptionType::Answer => Ok(Some(d)),
                    RTCSessionDescriptionType::Offer => Err(RtcError::NegotiationFailure),
                },
                _ => Err(RtcError::NegotiationFailure),
            },
            PendingOperation::SetLocalDescription(kind) => match reply {
                EngineReply::Done => {
                    self.signaling = match kind {
                        RTCSessionDescriptionType::Offer => SignalingState::HaveLocalOffer,
                        RTCSessionDescriptionType::Answer => SignalingState::Stable,
                    };
                    self.settle();
                    Ok(None)
                },
                _ => Err(RtcError::NegotiationFailure),
            },
            PendingOperation::SetRemoteDescription(kind) => match reply {
                EngineReply::Done => {
                    self.signaling = match kind {
                        RTCSessionDescriptionType::Offer => SignalingState::HaveRemoteOffer,
                        RTCSessionDescriptionType::Answer => SignalingState::Stable,
                    };
                    self.remote_description_set = true;
                    let mut buffered: Vec<RTCIceCandidate> = Vec::new();
                    std::mem::swap(&mut buffered, &mut self.buffered);
                    flush(buffered, &mut self.commands);
                    assert(candidate_views(self.buffered@) =~= Seq::empty());
                    self.settle();
                    Ok(None)
                },
                _ => Err(RtcError::NegotiationFailure),
            },
        }
    }

    /// Takes the waiting commands out for the engine, oldest first.
    pub fn take_commands(&mut self) -> (commands: Vec<EngineCommand>)
        ensures
            command_views(commands@) == old(self)@.commands,
            final(self)@ == (SessionView { commands: Seq::empty(), ..old(self)@ }),
    {
        let mut commands: Vec<EngineCommand> = Vec::new();
        std::mem::swap(&mut commands, &mut self.commands);
        assert(command_views(self.commands@) =~= Seq::empty());
        commands
    }

    /// Ends the connection. The result is the command that frees the
    /// engine's session, and the observer with the tracks and channels that
    /// it holds, which the caller owns from then on.
    pub fn close(self) -> (r: (EngineCommand, Observer))
        ensures
            r.0@ == EngineCommandView::DestroySession(self@.native),
            r.1@ == self@.observer,
    {
        (EngineCommand::DestroySession(self.native.address()), self.observer)
    }

    /// The observer, to hand the engine's events to.
    pub fn observer_mut(&mut self) -> (observer: &mut Observer)
        ensures
            observer@ == old(self)@.observer,
            final(self)@ == (SessionView { observer: final(observer)@, ..old(self)@ }),
    {
        &mut self.observer
    }

    /// The observer.
    pub fn observer(&self) -> (observer: &Observer)
        ensures
            observer@ == self@.observer,
    {
        &self.observer
    }

    /// True when an offer can be asked for.
    pub fn can_create_offer(&self) -> (possible: bool)
        ensures
            possible == self@.can_create_offer(),
    {
        match (self.pending, self.signaling) {
            (PendingOperation::Idle, SignalingState::Stable) => true,
            _ => false,
        }
    }

    /// True when an answer can be asked for.
    pub fn can_create_answer(&self) -> (possible: bool)
        ensures
            possible == self@.can_create_answer(),
    {
        match (self.pending, self.signaling) {
            (PendingOperation::Idle, SignalingState::HaveRemoteOffer) => true,
            _ => false,
        }
    }

    /// Where the exchange of descriptions stands.
    pub fn signaling_state(&self) -> (state: SignalingState)
        ensures
            state == self@.signaling,
    {
        self.signaling
    }

    /// The step that the engine is working on.
    pub fn pending(&self) -> (step: PendingOperation)
        ensures
            step == self@.pending,
    {
        self.pending
    }

    /// The number of candidates that are kept back.
    pub fn buffered_candidates(&self) -> (n: usize)
        ensures
            n == self@.buffered.len(),
    {
        self.buffered.len()
    }

    /// The handle of the engine's session; it is never zero.
    pub fn native(&self) -> (native: u64)
        ensures
            native == self@.native,
            native != 0,
    {
        self.native.address()
    }
}

} // verus!

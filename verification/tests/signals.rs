use batrachia::engine::{
    EngineCommand, EngineReply, RTCIceCandidate, RTCSessionDescription, RTCSessionDescriptionType,
};
use batrachia::error::RtcError;
use batrachia::observer::Observer;
use batrachia::peer_connection::{PendingOperation, RTCPeerConnection};
use batrachia::signaling::{on_signal, Payload, Signal, SignalOutcome};

fn message(kind: &str, payload: &str) -> Payload {
    Payload { kind: kind.to_string(), payload: payload.to_string() }
}

#[test]
fn the_kind_of_a_message_says_what_it_carries() {
    assert_eq!(
        message("offer", "v=0").into_signal(),
        Some(Signal::Description(RTCSessionDescription {
            kind: RTCSessionDescriptionType::Offer,
            sdp: "v=0".to_string(),
        }))
    );
    assert_eq!(
        message("answer", "v=1").into_signal(),
        Some(Signal::Description(RTCSessionDescription {
            kind: RTCSessionDescriptionType::Answer,
            sdp: "v=1".to_string(),
        }))
    );
    assert_eq!(
        message("candidate", "candidate:1").into_signal(),
        Some(Signal::Candidate(RTCIceCandidate { candidate: "candidate:1".to_string() }))
    );
    assert_eq!(message("Offer", "v=0").into_signal(), None);
    assert_eq!(message("", "v=0").into_signal(), None);
    assert_eq!(message("offers", "v=0").into_signal(), None);
}

#[test]
fn outbound_messages_have_the_same_shape() {
    let offer =
        RTCSessionDescription { kind: RTCSessionDescriptionType::Offer, sdp: "o".to_string() };
    let answer =
        RTCSessionDescription { kind: RTCSessionDescriptionType::Answer, sdp: "a".to_string() };
    let candidate = RTCIceCandidate { candidate: "c".to_string() };
    assert_eq!(Payload::from_description(&offer), message("offer", "o"));
    assert_eq!(Payload::from_description(&answer), message("answer", "a"));
    assert_eq!(Payload::from_candidate(&candidate), message("candidate", "c"));
    assert_eq!(
        Payload::from_description(&answer).into_signal(),
        Some(Signal::Description(answer))
    );
    assert_eq!(Payload::from_candidate(&candidate).into_signal(), Some(Signal::Candidate(candidate)));
}

#[test]
fn an_offer_is_set_as_the_description_of_the_other_side() {
    let mut pc = RTCPeerConnection::new(1, Observer::new()).unwrap();
    assert_eq!(
        on_signal(&mut pc, message("candidate", "c1")),
        Ok(SignalOutcome::CandidateBuffered)
    );
    assert_eq!(
        on_signal(&mut pc, message("offer", "sdp")),
        Ok(SignalOutcome::DescriptionRequested)
    );
    assert_eq!(
        pc.pending(),
        PendingOperation::SetRemoteDescription(RTCSessionDescriptionType::Offer)
    );
    assert_eq!(on_signal(&mut pc, message("offer", "again")), Err(RtcError::NegotiationFailure));
    assert_eq!(pc.complete(EngineReply::Done), Ok(None));
    assert_eq!(
        on_signal(&mut pc, message("candidate", "c2")),
        Ok(SignalOutcome::CandidateApplied)
    );
    assert_eq!(on_signal(&mut pc, message("bye", "x")), Ok(SignalOutcome::Ignored));
    assert_eq!(on_signal(&mut pc, message("answer", "x")), Err(RtcError::NegotiationFailure));
    assert_eq!(
        pc.take_commands(),
        vec![
            EngineCommand::SetRemoteDescription(RTCSessionDescription {
                kind: RTCSessionDescriptionType::Offer,
                sdp: "sdp".to_string(),
            }),
            EngineCommand::AddIceCandidate(RTCIceCandidate { candidate: "c1".to_string() }),
            EngineCommand::AddIceCandidate(RTCIceCandidate { candidate: "c2".to_string() }),
        ]
    );
}

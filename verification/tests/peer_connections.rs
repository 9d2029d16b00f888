use batrachia::engine::{
    EngineCommand, EngineReply, RTCIceCandidate, RTCSessionDescription, RTCSessionDescriptionType,
};
use batrachia::error::RtcError;
use batrachia::media_stream::MediaStream;
use batrachia::media_stream_track::MediaStreamTrack;
use batrachia::observer::{Observer, ObserverEvent, PeerConnectionState};
use batrachia::peer_connection::{PendingOperation, RTCPeerConnection, SignalingState};

fn connection() -> RTCPeerConnection {
    RTCPeerConnection::new(77, Observer::new()).unwrap()
}

fn offer(sdp: &str) -> RTCSessionDescription {
    RTCSessionDescription { kind: RTCSessionDescriptionType::Offer, sdp: sdp.to_string() }
}

fn answer(sdp: &str) -> RTCSessionDescription {
    RTCSessionDescription { kind: RTCSessionDescriptionType::Answer, sdp: sdp.to_string() }
}

fn candidate(text: &str) -> RTCIceCandidate {
    RTCIceCandidate { candidate: text.to_string() }
}

#[test]
fn early_candidates_are_applied_before_later_ones() {
    let mut pc = connection();
    assert!(!pc.add_ice_candidate(&candidate("c1")));
    assert!(!pc.add_ice_candidate(&candidate("c2")));
    assert_eq!(pc.buffered_candidates(), 2);
    assert!(pc.take_commands().is_empty());
    assert_eq!(pc.set_remote_description(&offer("remote")), Ok(()));
    assert_eq!(pc.complete(EngineReply::Done), Ok(None));
    assert!(pc.add_ice_candidate(&candidate("c3")));
    assert_eq!(pc.buffered_candidates(), 0);
    assert_eq!(
        pc.take_commands(),
        vec![
            EngineCommand::SetRemoteDescription(offer("remote")),
            EngineCommand::AddIceCandidate(candidate("c1")),
            EngineCommand::AddIceCandidate(candidate("c2")),
            EngineCommand::AddIceCandidate(candidate("c3")),
        ]
    );
}

#[test]
fn candidates_that_come_while_the_engine_works_are_kept_back_too() {
    let mut pc = connection();
    pc.add_ice_candidate(&candidate("c1"));
    assert_eq!(pc.set_remote_description(&offer("remote")), Ok(()));
    assert!(!pc.add_ice_candidate(&candidate("c2")));
    assert_eq!(pc.take_commands(), vec![EngineCommand::SetRemoteDescription(offer("remote"))]);
    assert_eq!(pc.complete(EngineReply::Done), Ok(None));
    assert_eq!(
        pc.take_commands(),
        vec![
            EngineCommand::AddIceCandidate(candidate("c1")),
            EngineCommand::AddIceCandidate(candidate("c2")),
        ]
    );
}

#[test]
fn candidates_stay_back_when_the_engine_refuses_the_description() {
    let mut pc = connection();
    pc.add_ice_candidate(&candidate("c1"));
    assert_eq!(pc.set_remote_description(&offer("bad")), Ok(()));
    assert_eq!(pc.complete(EngineReply::Rejected), Err(RtcError::NegotiationFailure));
    assert_eq!(pc.signaling_state(), SignalingState::Stable);
    assert_eq!(pc.pending(), PendingOperation::Idle);
    assert_eq!(pc.buffered_candidates(), 1);
    assert!(!pc.add_ice_candidate(&candidate("c2")));
    assert_eq!(pc.take_commands(), vec![EngineCommand::SetRemoteDescription(offer("bad"))]);
    assert_eq!(pc.set_remote_description(&offer("good")), Ok(()));
    assert_eq!(pc.complete(EngineReply::Done), Ok(None));
    assert_eq!(
        pc.take_commands(),
        vec![
            EngineCommand::SetRemoteDescription(offer("good")),
            EngineCommand::AddIceCandidate(candidate("c1")),
            EngineCommand::AddIceCandidate(candidate("c2")),
        ]
    );
}

#[test]
fn the_offering_side() {
    let mut pc = connection();
    assert_eq!(pc.signaling_state(), SignalingState::Stable);
    assert_eq!(pc.create_offer(), Ok(()));
    assert_eq!(pc.pending(), PendingOperation::CreateOffer);
    let made = pc.complete(EngineReply::Description(offer("local"))).unwrap().unwrap();
    assert_eq!(made, offer("local"));
    assert_eq!(pc.set_local_description(&made), Ok(()));
    assert_eq!(pc.complete(EngineReply::Done), Ok(None));
    assert_eq!(pc.signaling_state(), SignalingState::HaveLocalOffer);
    assert_eq!(pc.set_remote_description(&answer("remote")), Ok(()));
    assert_eq!(pc.complete(EngineReply::Done), Ok(None));
    assert_eq!(pc.signaling_state(), SignalingState::Stable);
    assert_eq!(
        pc.take_commands(),
        vec![
            EngineCommand::CreateOffer,
            EngineCommand::SetLocalDescription(offer("local")),
            EngineCommand::SetRemoteDescription(answer("remote")),
        ]
    );
}

#[test]
fn the_answering_side() {
    let mut pc = connection();
    assert_eq!(pc.set_remote_description(&offer("remote")), Ok(()));
    assert_eq!(pc.complete(EngineReply::Done), Ok(None));
    assert_eq!(pc.signaling_state(), SignalingState::HaveRemoteOffer);
    assert_eq!(pc.create_answer(), Ok(()));
    let made = pc.complete(EngineReply::Description(answer("local"))).unwrap().unwrap();
    assert_eq!(pc.set_local_description(&made), Ok(()));
    assert_eq!(pc.complete(EngineReply::Done), Ok(None));
    assert_eq!(pc.signaling_state(), SignalingState::Stable);
    assert_eq!(
        pc.take_commands(),
        vec![
            EngineCommand::SetRemoteDescription(offer("remote")),
            EngineCommand::CreateAnswer,
            EngineCommand::SetLocalDescription(answer("local")),
        ]
    );
}

#[test]
fn a_step_that_does_not_fit_the_stage_fails_and_changes_nothing() {
    let mut pc = connection();
    assert_eq!(pc.create_answer(), Err(RtcError::NegotiationFailure));
    assert_eq!(pc.set_local_description(&answer("a")), Err(RtcError::NegotiationFailure));
    assert_eq!(pc.set_remote_description(&answer("a")), Err(RtcError::NegotiationFailure));
    assert_eq!(pc.complete(EngineReply::Done), Err(RtcError::NegotiationFailure));
    assert!(pc.take_commands().is_empty());
    assert_eq!(pc.signaling_state(), SignalingState::Stable);
    assert_eq!(pc.create_offer(), Ok(()));
    assert_eq!(pc.create_offer(), Err(RtcError::NegotiationFailure));
    assert_eq!(pc.set_remote_description(&offer("r")), Err(RtcError::NegotiationFailure));
    assert_eq!(pc.take_commands(), vec![EngineCommand::CreateOffer]);
    assert_eq!(pc.pending(), PendingOperation::CreateOffer);
}

#[test]
fn an_answer_of_the_wrong_kind_is_a_failure() {
    let mut pc = connection();
    pc.create_offer().unwrap();
    assert_eq!(
        pc.complete(EngineReply::Description(answer("x"))),
        Err(RtcError::NegotiationFailure)
    );
    assert_eq!(pc.pending(), PendingOperation::Idle);
    pc.create_offer().unwrap();
    assert_eq!(pc.complete(EngineReply::Done), Err(RtcError::NegotiationFailure));
    pc.create_offer().unwrap();
    assert_eq!(pc.complete(EngineReply::Rejected), Err(RtcError::NegotiationFailure));
    pc.set_remote_description(&offer("r")).unwrap();
    assert_eq!(
        pc.complete(EngineReply::Description(offer("r"))),
        Err(RtcError::NegotiationFailure)
    );
    assert_eq!(pc.signaling_state(), SignalingState::Stable);
    pc.set_remote_description(&offer("r")).unwrap();
    pc.complete(EngineReply::Done).unwrap();
    pc.create_answer().unwrap();
    assert_eq!(
        pc.complete(EngineReply::Description(offer("x"))),
        Err(RtcError::NegotiationFailure)
    );
    assert_eq!(pc.signaling_state(), SignalingState::HaveRemoteOffer);
}

#[test]
fn a_track_added_before_the_negotiation_starts_no_offer() {
    let mut pc = connection();
    let stream = MediaStream::new("stream_id").unwrap();
    let track = MediaStreamTrack::create_video_track("video_track", 9).unwrap();
    assert!(!pc.add_track(&track, &stream));
    assert_eq!(
        pc.take_commands(),
        vec![EngineCommand::AddTrack { track: 9, stream: "stream_id".to_string() }]
    );
    assert_eq!(pc.pending(), PendingOperation::Idle);
}

#[test]
fn a_track_added_after_the_negotiation_starts_a_new_offer() {
    let mut pc = connection();
    pc.set_remote_description(&offer("remote")).unwrap();
    pc.complete(EngineReply::Done).unwrap();
    pc.create_answer().unwrap();
    let made = pc.complete(EngineReply::Description(answer("local"))).unwrap().unwrap();
    pc.set_local_description(&made).unwrap();
    pc.complete(EngineReply::Done).unwrap();
    pc.take_commands();
    let stream = MediaStream::new("s").unwrap();
    let track = MediaStreamTrack::create_audio_track("a", 4).unwrap();
    assert!(pc.add_track(&track, &stream));
    assert_eq!(pc.pending(), PendingOperation::CreateOffer);
    assert_eq!(
        pc.take_commands(),
        vec![
            EngineCommand::AddTrack { track: 4, stream: "s".to_string() },
            EngineCommand::CreateOffer,
        ]
    );
}

#[test]
fn a_track_added_during_an_exchange_starts_the_offer_when_it_is_done() {
    let mut pc = connection();
    pc.set_remote_description(&offer("remote")).unwrap();
    pc.complete(EngineReply::Done).unwrap();
    let stream = MediaStream::new("s").unwrap();
    let track = MediaStreamTrack::create_audio_track("a", 4).unwrap();
    assert!(!pc.add_track(&track, &stream));
    pc.create_answer().unwrap();
    let made = pc.complete(EngineReply::Description(answer("local"))).unwrap().unwrap();
    pc.set_local_description(&made).unwrap();
    pc.take_commands();
    assert_eq!(pc.complete(EngineReply::Done), Ok(None));
    assert_eq!(pc.signaling_state(), SignalingState::Stable);
    assert_eq!(pc.pending(), PendingOperation::CreateOffer);
    assert_eq!(pc.take_commands(), vec![EngineCommand::CreateOffer]);
    let renewed = pc.complete(EngineReply::Description(offer("again"))).unwrap().unwrap();
    assert_eq!(renewed, offer("again"));
    assert_eq!(pc.pending(), PendingOperation::Idle);
    assert!(pc.take_commands().is_empty());
}

#[test]
fn a_connection_needs_a_native_session() {
    assert_eq!(
        RTCPeerConnection::new(0, Observer::new()).err(),
        Some(RtcError::NativeAllocationError)
    );
    assert_eq!(connection().native(), 77);
}

#[test]
fn the_events_of_the_engine_go_through_the_observer() {
    let mut pc = connection();
    pc.observer_mut().on_connection_change(PeerConnectionState::Connecting);
    pc.observer_mut().on_ice_candidate(candidate("local"));
    assert_eq!(pc.observer().connection_state(), PeerConnectionState::Connecting);
    assert_eq!(
        pc.observer_mut().next_event(),
        Some(ObserverEvent::ConnectionChange(PeerConnectionState::Connecting))
    );
    assert_eq!(
        pc.observer_mut().next_event(),
        Some(ObserverEvent::IceCandidate(candidate("local")))
    );
    assert!(pc.take_commands().is_empty());
}

#[test]
fn close_names_the_native_session_to_free() {
    let mut pc = connection();
    pc.observer_mut().on_track(MediaStreamTrack::create_video_track("v", 3).unwrap());
    let (command, observer) = pc.close();
    assert_eq!(command, EngineCommand::DestroySession(77));
    assert_eq!(observer.tracks().len(), 1);
}

#[test]
fn an_offer_of_the_host_covers_the_tracks_that_wait() {
    let mut pc = connection();
    pc.set_remote_description(&offer("remote")).unwrap();
    let stream = MediaStream::new("s").unwrap();
    let track = MediaStreamTrack::create_audio_track("a", 4).unwrap();
    assert!(!pc.add_track(&track, &stream));
    assert_eq!(pc.complete(EngineReply::Rejected), Err(RtcError::NegotiationFailure));
    assert_eq!(pc.pending(), PendingOperation::Idle);
    assert_eq!(pc.create_offer(), Ok(()));
    let made = pc.complete(EngineReply::Description(offer("local"))).unwrap().unwrap();
    pc.set_local_description(&made).unwrap();
    pc.complete(EngineReply::Done).unwrap();
    pc.set_remote_description(&answer("remote")).unwrap();
    assert_eq!(pc.complete(EngineReply::Done), Ok(None));
    assert_eq!(pc.signaling_state(), SignalingState::Stable);
    assert_eq!(pc.pending(), PendingOperation::Idle);
    assert_eq!(
        pc.take_commands(),
        vec![
            EngineCommand::SetRemoteDescription(offer("remote")),
            EngineCommand::AddTrack { track: 4, stream: "s".to_string() },
            EngineCommand::CreateOffer,
            EngineCommand::SetLocalDescription(offer("local")),
            EngineCommand::SetRemoteDescription(answer("remote")),
        ]
    );
}

#[test]
fn a_track_added_while_an_offer_is_made_waits_for_the_next_one() {
    let mut pc = connection();
    pc.create_offer().unwrap();
    let stream = MediaStream::new("s").unwrap();
    let track = MediaStreamTrack::create_video_track("v", 6).unwrap();
    assert!(!pc.add_track(&track, &stream));
    let made = pc.complete(EngineReply::Description(offer("first"))).unwrap().unwrap();
    assert_eq!(pc.pending(), PendingOperation::Idle);
    pc.set_local_description(&made).unwrap();
    pc.complete(EngineReply::Done).unwrap();
    assert_eq!(pc.pending(), PendingOperation::Idle);
    pc.set_remote_description(&answer("remote")).unwrap();
    pc.take_commands();
    assert_eq!(pc.complete(EngineReply::Done), Ok(None));
    assert_eq!(pc.pending(), PendingOperation::CreateOffer);
    assert_eq!(pc.take_commands(), vec![EngineCommand::CreateOffer]);
}

#[test]
fn what_can_be_asked_for_follows_the_stage() {
    let mut pc = connection();
    assert!(pc.can_create_offer());
    assert!(!pc.can_create_answer());
    pc.set_remote_description(&offer("remote")).unwrap();
    assert!(!pc.can_create_offer());
    assert!(!pc.can_create_answer());
    pc.complete(EngineReply::Done).unwrap();
    assert!(!pc.can_create_offer());
    assert!(pc.can_create_answer());
    pc.create_answer().unwrap();
    assert!(!pc.can_create_answer());
}

#[test]
fn the_steps_of_the_negotiation_await_a_reply() {
    assert!(EngineCommand::CreateOffer.awaits_reply());
    assert!(EngineCommand::CreateAnswer.awaits_reply());
    assert!(EngineCommand::SetLocalDescription(offer("o")).awaits_reply());
    assert!(EngineCommand::SetRemoteDescription(answer("a")).awaits_reply());
    assert!(!EngineCommand::AddIceCandidate(candidate("c")).awaits_reply());
    assert!(!EngineCommand::AddTrack { track: 1, stream: "s".to_string() }.awaits_reply());
    assert!(!EngineCommand::DestroyTrack(1).awaits_reply());
    assert!(!EngineCommand::DestroyChannel(1).awaits_reply());
    assert!(!EngineCommand::DestroySession(1).awaits_reply());
}

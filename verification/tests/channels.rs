use batrachia::data_channel::{DataChannelState, RTCDataChannel};
use batrachia::engine::EngineCommand;
use batrachia::error::RtcError;
use batrachia::sink::Sinker;

fn open_channel(capacity: usize) -> RTCDataChannel {
    let mut channel = RTCDataChannel::new("chat", 5, capacity).unwrap();
    assert!(channel.on_state_change(DataChannelState::Open));
    channel
}

#[test]
fn a_sink_receives_the_inbound_messages_in_order() {
    let mut channel = RTCDataChannel::new("chat", 5, 1024).unwrap();
    assert!(channel.register_sink(0, Sinker::new()).is_none());
    assert!(channel.on_message(vec![1, 2]));
    assert!(channel.on_message(vec![3]));
    assert!(channel.on_message(vec![4, 5, 6]));
    let got: Vec<Vec<u8>> =
        channel.take_messages(0).unwrap().iter().map(|m| (**m).clone()).collect();
    assert_eq!(got, vec![vec![1, 2], vec![3], vec![4, 5, 6]]);
    assert!(channel.take_messages(0).unwrap().is_empty());
}

#[test]
fn a_message_without_a_sink_is_dropped() {
    let mut channel = RTCDataChannel::new("chat", 5, 1024).unwrap();
    assert!(!channel.on_message(vec![1]));
    channel.register_sink(0, Sinker::new());
    assert!(channel.take_messages(0).unwrap().is_empty());
    assert!(channel.take_messages(1).is_none());
}

#[test]
fn a_new_channel_is_connecting() {
    let channel = RTCDataChannel::new("chat", 5, 16).unwrap();
    assert_eq!(channel.state(), DataChannelState::Connecting);
    assert_eq!(channel.label(), "chat");
    assert_eq!(channel.native(), 5);
}

#[test]
fn a_channel_needs_a_native_channel() {
    assert_eq!(RTCDataChannel::new("chat", 0, 16).err(), Some(RtcError::NativeAllocationError));
}

#[test]
fn send_fails_unless_the_channel_is_open() {
    let mut channel = RTCDataChannel::new("chat", 5, 16).unwrap();
    assert_eq!(channel.send(&[1]), Err(RtcError::ChannelNotOpenError));
    channel.on_state_change(DataChannelState::Open);
    assert_eq!(channel.send(&[1]), Ok(()));
    channel.on_state_change(DataChannelState::Closing);
    assert_eq!(channel.send(&[2]), Err(RtcError::ChannelNotOpenError));
    channel.on_state_change(DataChannelState::Closed);
    assert_eq!(channel.send(&[3]), Err(RtcError::ChannelNotOpenError));
    assert_eq!(channel.take_outbound(), vec![vec![1u8]]);
}

#[test]
fn send_fails_when_the_queue_is_full() {
    let mut channel = open_channel(4);
    assert_eq!(channel.send(&[1, 2, 3]), Ok(()));
    assert_eq!(channel.send(&[4, 5]), Err(RtcError::BackpressureError));
    assert_eq!(channel.send(&[4]), Ok(()));
    assert_eq!(channel.send(&[5]), Err(RtcError::BackpressureError));
    assert_eq!(channel.send(&[]), Ok(()));
    assert_eq!(channel.take_outbound(), vec![vec![1u8, 2, 3], vec![4], vec![]]);
    assert_eq!(channel.send(&[6, 7, 8, 9]), Ok(()));
    assert_eq!(channel.send(&[0]), Err(RtcError::BackpressureError));
    assert_eq!(channel.take_outbound(), vec![vec![6u8, 7, 8, 9]]);
}

#[test]
fn a_channel_without_room_refuses_every_byte() {
    let mut channel = open_channel(0);
    assert_eq!(channel.send(&[1]), Err(RtcError::BackpressureError));
    assert_eq!(channel.send(&[]), Ok(()));
}

#[test]
fn a_closed_channel_reports_that_before_backpressure() {
    let mut channel = RTCDataChannel::new("chat", 5, 0).unwrap();
    assert_eq!(channel.send(&[1, 2]), Err(RtcError::ChannelNotOpenError));
}

#[test]
fn the_state_only_moves_onwards() {
    let mut channel = RTCDataChannel::new("chat", 5, 16).unwrap();
    assert!(!channel.on_state_change(DataChannelState::Connecting));
    assert!(channel.on_state_change(DataChannelState::Open));
    assert!(!channel.on_state_change(DataChannelState::Open));
    assert!(!channel.on_state_change(DataChannelState::Connecting));
    assert_eq!(channel.state(), DataChannelState::Open);
    assert!(channel.on_state_change(DataChannelState::Closed));
    assert!(!channel.on_state_change(DataChannelState::Closing));
    assert!(!channel.on_state_change(DataChannelState::Open));
    assert_eq!(channel.state(), DataChannelState::Closed);
}

#[test]
fn the_ranks_follow_the_life_of_a_channel() {
    assert_eq!(DataChannelState::Connecting.rank(), 0);
    assert_eq!(DataChannelState::Open.rank(), 1);
    assert_eq!(DataChannelState::Closing.rank(), 2);
    assert_eq!(DataChannelState::Closed.rank(), 3);
}

#[test]
fn a_replaced_sink_receives_nothing_more() {
    let mut channel = RTCDataChannel::new("chat", 5, 16).unwrap();
    channel.register_sink(0, Sinker::new());
    channel.on_message(vec![1]);
    let old = channel.register_sink(0, Sinker::new()).unwrap();
    channel.on_message(vec![2]);
    assert_eq!(old.len(), 1);
    let new = channel.remove_sink(0).unwrap();
    assert_eq!(new.len(), 1);
    assert_eq!(*new.into_events()[0], vec![2u8]);
    assert!(channel.remove_sink(0).is_none());
}

#[test]
fn release_names_the_native_channel_to_free() {
    let channel = RTCDataChannel::new("chat", 5, 16).unwrap();
    assert_eq!(channel.release(), EngineCommand::DestroyChannel(5));
}

#[test]
fn the_codes_of_the_channel_states() {
    assert_eq!(DataChannelState::from_raw(0), Some(DataChannelState::Connecting));
    assert_eq!(DataChannelState::from_raw(1), Some(DataChannelState::Open));
    assert_eq!(DataChannelState::from_raw(2), Some(DataChannelState::Closing));
    assert_eq!(DataChannelState::from_raw(3), Some(DataChannelState::Closed));
    assert_eq!(DataChannelState::from_raw(4), None);
    assert_eq!(DataChannelState::from_raw(-1), None);
}

#[test]
fn the_buffered_amount_counts_the_bytes_that_wait() {
    let mut channel = open_channel(10);
    assert_eq!(channel.capacity(), 10);
    assert_eq!(channel.buffered_amount(), 0);
    channel.send(&[1, 2, 3]).unwrap();
    channel.send(&[4, 5]).unwrap();
    assert_eq!(channel.buffered_amount(), 5);
    assert_eq!(channel.send(&[0; 6]), Err(RtcError::BackpressureError));
    assert_eq!(channel.buffered_amount(), 5);
    channel.take_outbound();
    assert_eq!(channel.buffered_amount(), 0);
    assert_eq!(channel.capacity(), 10);
    assert_eq!(channel.send(&[0; 10]), Ok(()));
    assert_eq!(channel.buffered_amount(), 10);
}

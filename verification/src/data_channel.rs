//! Data channels.
//!
//! A channel carries messages of raw bytes in both directions; what the
//! bytes mean is the application's business. Inbound messages are fanned out
//! to the registered consumers. Outbound messages wait in a queue that holds
//! a limited number of bytes: a message that does not fit is refused at once,
//! and nothing is dropped or tried again behind the caller's back.

use vstd::prelude::*;
use vstd::slice::slice_to_vec;
use std::sync::Arc;
use crate::base::NativeHandle;
use crate::engine::{EngineCommand, EngineCommandView};
use crate::error::RtcError;
use crate::sink::{fanned_out, registered, Inboxes, SinkRegistry, Sinker};

verus! {

/// The life of a channel, as the engine reports it.
#[derive(Clone, Copy, Debug, PartialEq, Eq, Structural)]
pub enum DataChannelState {
    Connecting,
    Open,
    Closing,
    Closed,
}

impl DataChannelState {
    /// The place of the state in the life of a channel.
    pub open spec fn spec_rank(self) -> nat {
        match self {
            DataChannelState::Connecting => 0,
            DataChannelState::Open => 1,
            DataChannelState::Closing => 2,
            DataChannelState::Closed => 3,
        }
    }

    /// The state that the engine means by `code`, if it means one: the
    /// state of that rank.
    pub open spec fn spec_from_raw(code: i32) -> Option<DataChannelState> {
        if code == 0 {
            Some(DataChannelState::Connecting)
        } else if code == 1 {
            Some(DataChannelState::Open)
        } else if code == 2 {
            Some(DataChannelState::Closing)
        } else if code == 3 {
            Some(DataChannelState::Closed)
        } else {
            None
        }
    }

    /// Reads the engine's code for a state. `None` for a number that is no
    /// such code.
    pub fn from_raw(code: i32) -> (state: Option<DataChannelState>)
        ensures
            state == Self::spec_from_raw(code),
            state matches Some(s) ==> s.spec_rank() == code,
    {
        match code {
            0 => Some(DataChannelState::Connecting),
            1 => Some(DataChannelState::Open),
            2 => Some(DataChannelState::Closing),
            3 => Some(DataChannelState::Closed),
            _ => None,
        }
    }

    /// Computes `spec_rank`.
    pub fn rank(self) -> (r: u8)
        ensures
            r == self.spec_rank(),
    {
        match self {
            DataChannelState::Connecting => 0,
            DataChannelState::Open => 1,
            DataChannelState::Closing => 2,
            DataChannelState::Closed => 3,
        }
    }
}

/// The number of bytes in all of `payloads`.
pub open spec fn total_bytes(payloads: Seq<Seq<u8>>) -> nat
    decreases payloads.len(),
{
    if payloads.len() == 0 {
        0
    } else {
        total_bytes(payloads.drop_last()) + payloads.last().len()
    }
}

/// One more payload adds its length.
pub proof fn lemma_total_bytes_push(payloads: Seq<Seq<u8>>, payload: Seq<u8>)
    ensures
        total_bytes(payloads.push(payload)) == total_bytes(payloads) + payload.len(),
{
    assert(payloads.push(payload).drop_last() =~= payloads);
}

/// The messages that wait for the engine, with the bound on their bytes.
struct SendQueue {
    payloads: Vec<Vec<u8>>,
    bytes: usize,
    capacity: usize,
}

impl SendQueue {
    spec fn view(&self) -> Seq<Seq<u8>> {
        self.payloads@.map_values(|payload: Vec<u8>| payload@)
    }

    spec fn capacity(&self) -> nat {
        self.capacity as nat
    }

    #[verifier::type_invariant]
    spec fn well_formed(&self) -> bool {
        &&& self.bytes == total_bytes(self@)
        &&& self.bytes <= self.capacity
    }

    fn new(capacity: usize) -> (queue: SendQueue)
        ensures
            queue@ == Seq::<Seq<u8>>::empty(),
            queue.capacity() == capacity,
    {
        let queue = SendQueue { payloads: Vec::new(), bytes: 0, capacity };
        assert(queue@ =~= Seq::<Seq<u8>>::empty());
        queue
    }

    /// True when a payload of `len` bytes fits behind what waits.
    fn has_room(&self, len: usize) -> (fits: bool)
        ensures
            total_bytes(self@) <= self.capacity(),
            fits == (total_bytes(self@) + len <= self.capacity()),
    {
        proof {
            use_type_invariant(self);
        }
        len <= self.capacity - self.bytes
    }

    fn push(self, payload: Vec<u8>) -> (queue: SendQueue)
        requires
            total_bytes(self@) + payload@.len() <= self.capacity(),
        ensures
            queue@ == self@.push(payload@),
            queue.capacity() == self.capacity(),
    {
        proof {
            use_type_invariant(&self);
            lemma_total_bytes_push(self@, payload@);
        }
        let SendQueue { mut payloads, bytes, capacity } = self;
        let grown: usize = bytes + payload.len();
        payloads.push(payload);
        assert(payloads@.map_values(|p: Vec<u8>| p@) =~= self@.push(payload@));
        SendQueue { payloads, bytes: grown, capacity }
    }

    /// The number of bytes that wait, and the number that may wait.
    fn fill(&self) -> (r: (usize, usize))
        ensures
            r.0 == total_bytes(self@),
            r.1 == self.capacity(),
            r.0 <= r.1,
    {
        proof {
            use_type_invariant(self);
        }
        (self.bytes, self.capacity)
    }

    fn into_payloads(self) -> (payloads: Vec<Vec<u8>>)
        ensures
            payloads@.map_values(|payload: Vec<u8>| payload@) == self@,
    {
        self.payloads
    }
}

/// A channel as a plain value.
pub struct ChannelView {
    /// The label.
    pub label: Seq<char>,
    /// The handle of the engine's channel.
    pub native: u64,
    /// The state that the engine reported last.
    pub state: DataChannelState,
    /// The inbox of each registered consumer of inbound messages.
    pub sinks: Inboxes<Vec<u8>>,
    /// The outbound messages that the engine has not taken yet, oldest
    /// first.
    pub outbound: Seq<Seq<u8>>,
    /// The number of bytes that may wait in `outbound`.
    pub capacity: nat,
}

impl ChannelView {
    /// A channel that was just created.
    pub open spec fn fresh(label: Seq<char>, native: u64, capacity: nat) -> Self {
        ChannelView {
            label,
            native,
            state: DataChannelState::Connecting,
            sinks: Map::empty(),
            outbound: Seq::empty(),
            capacity,
        }
    }

    /// The same channel with other consumers.
    pub open spec fn with_sinks(self, sinks: Inboxes<Vec<u8>>) -> Self {
        ChannelView { sinks, ..self }
    }

    /// The same channel with another outbound queue.
    pub open spec fn with_outbound(self, outbound: Seq<Seq<u8>>) -> Self {
        ChannelView { outbound, ..self }
    }

    /// The same channel in another state.
    pub open spec fn with_state(self, state: DataChannelState) -> Self {
        ChannelView { state, ..self }
    }

    /// True when at least one consumer is registered.
    pub open spec fn has_sink(self) -> bool {
        exists|sink_id: u8| self.sinks.contains_key(sink_id)
    }

    /// True when a message of `len` bytes fits into the outbound queue.
    pub open spec fn has_room(self, len: nat) -> bool {
        total_bytes(self.outbound) + len <= self.capacity
    }

    /// The channel after the engine reported `next`: a report moves the
    /// channel onwards in its life; one that would move it back, or leave it
    /// where it is, changes nothing.
    pub open spec fn reported(self, next: DataChannelState) -> Self {
        if self.state.spec_rank() < next.spec_rank() {
            self.with_state(next)
        } else {
            self
        }
    }

    /// What a send of `payload` answers.
    pub open spec fn send_result(self, payload: Seq<u8>) -> Result<(), RtcError> {
        if self.state != DataChannelState::Open {
            Err(RtcError::ChannelNotOpenError)
        } else if !self.has_room(payload.len()) {
            Err(RtcError::BackpressureError)
        } else {
            Ok(())
        }
    }

    /// The channel after a send of `payload`: the payload is queued where
    /// the send succeeds, and nothing changes where it fails.
    pub open spec fn sent(self, payload: Seq<u8>) -> Self {
        if self.send_result(payload) is Ok {
            self.with_outbound(self.outbound.push(payload))
        } else {
            self
        }
    }
}

/// A channel of byte messages between the two peers.
pub struct RTCDataChannel {
    label: String,
    native: NativeHandle,
    state: DataChannelState,
    sinks: SinkRegistry<Vec<u8>>,
    queue: SendQueue,
}

impl View for RTCDataChannel {
    type V = ChannelView;

    closed spec fn view(&self) -> ChannelView {
        ChannelView {
            label: self.label@,
            native: self.native@,
            state: self.state,
            sinks: self.sinks@,
            outbound: self.queue@,
            capacity: self.queue.capacity(),
        }
    }
}

impl RTCDataChannel {
    /// Wraps the engine's channel `native`, labelled `label`, with room for
    /// `capacity` outbound bytes. The channel starts out connecting. Fails
    /// with `NativeAllocationError` exactly when `native` is zero.
    pub fn new(label: &str, native: u64, capacity: usize) -> (r: Result<RTCDataChannel, RtcError>)
        ensures
            match r {
                Ok(channel) => native != 0 && channel@ == ChannelView::fresh(
                    label@,
                    native,
                    capacity as nat,
                ),
                Err(e) => native == 0 && e == RtcError::NativeAllocationError,
            },
    {
        match NativeHandle::from_raw(native) {
            None => Err(RtcError::NativeAllocationError),
            Some(native) => Ok(
                RTCDataChannel {
                    label: label.to_owned(),
                    native,
                    state: DataChannelState::Connecting,
                    sinks: SinkRegistry::new(),
                    queue: SendQueue::new(capacity),
                },
            ),
        }
    }

    /// Installs `sink` at `sink_id` for inbound messages and hands back the
    /// consumer that it replaces, if there was one.
    pub fn register_sink(&mut self, sink_id: u8, sink: Sinker<Vec<u8>>) -> (previous: Option<
        Sinker<Vec<u8>>,
    >)
        ensures
            final(self)@ == old(self)@.with_sinks(registered(old(self)@.sinks, sink_id, sink@)),
            previous is Some <==> old(self)@.sinks.contains_key(sink_id),
            previous is Some ==> previous.unwrap()@ == old(self)@.sinks[sink_id],
    {
        self.sinks.register(sink_id, sink)
    }

    /// Takes the consumer at `sink_id` out, with the messages it had
    /// received.
    pub fn remove_sink(&mut self, sink_id: u8) -> (removed: Option<Sinker<Vec<u8>>>)
        ensures
            final(self)@ == old(self)@.with_sinks(old(self)@.sinks.remove(sink_id)),
            removed is Some <==> old(self)@.sinks.contains_key(sink_id),
            removed is Some ==> removed.unwrap()@ == old(self)@.sinks[sink_id],
    {
        self.sinks.unregister(sink_id)
    }

    /// Takes in a message from the other peer: every registered consumer
    /// receives it. Says whether there was a consumer; without one the
    /// message is dropped.
    pub fn on_message(&mut self, payload: Vec<u8>) -> (delivered: bool)
        ensures
            final(self)@ == old(self)@.with_sinks(fanned_out(old(self)@.sinks, Arc::new(payload))),
            delivered == old(self)@.has_sink(),
    {
        self.sinks.fan_out(Arc::new(payload))
    }

    /// Takes the messages that wait at `sink_id` out, oldest first. `None`
    /// when no consumer is registered there.
    pub fn take_messages(&mut self, sink_id: u8) -> (messages: Option<Vec<Arc<Vec<u8>>>>)
        ensures
            messages is Some <==> old(self)@.sinks.contains_key(sink_id),
            messages is Some ==> messages.unwrap()@ == old(self)@.sinks[sink_id] && final(self)@
                == old(self)@.with_sinks(old(self)@.sinks.insert(sink_id, Seq::empty())),
            messages is None ==> final(self)@ == old(self)@,
    {
        self.sinks.take(sink_id)
    }

    /// Takes in the engine's report that the channel is now in state `next`,
    /// and says whether the channel moved.
    pub fn on_state_change(&mut self, next: DataChannelState) -> (moved: bool)
        ensures
            final(self)@ == old(self)@.reported(next),
            moved == (old(self)@.state.spec_rank() < next.spec_rank()),
    {
        if self.state.rank() < next.rank() {
            self.state = next;
            true
        } else {
            false
        }
    }

    /// Queues a copy of `payload` for the other peer. Fails with
    /// `ChannelNotOpenError` unless the channel is open, and otherwise with
    /// `BackpressureError` when the payload does not fit into the outbound
    /// queue; a failed send changes nothing.
    pub fn send(&mut self, payload: &[u8]) -> (r: Result<(), RtcError>)
        ensures
            r == old(self)@.send_result(payload@),
            final(self)@ == old(self)@.sent(payload@),
    {
        match self.state {
            DataChannelState::Open => {
                if self.queue.has_room(payload.len()) {
                    let mut queue = SendQueue::new(0);
                    std::mem::swap(&mut queue, &mut self.queue);
                    self.queue = queue.push(slice_to_vec(payload));
                    Ok(())
                } else {
                    Err(RtcError::BackpressureError)
                }
            },
            _ => Err(RtcError::ChannelNotOpenError),
        }
    }

    /// Takes the outbound messages out for the engine, oldest first, which
    /// makes room for as many bytes again.
    pub fn take_outbound(&mut self) -> (payloads: Vec<Vec<u8>>)
        ensures
            payloads@.map_values(|payload: Vec<u8>| payload@) == old(self)@.outbound,
            final(self)@ == old(self)@.with_outbound(Seq::empty()),
    {
        let mut queue = SendQueue::new(self.queue.fill().1);
        std::mem::swap(&mut queue, &mut self.queue);
        queue.into_payloads()
    }

    /// Ends the channel; the result is the command that frees the engine's
    /// channel.
    pub fn release(self) -> (command: EngineCommand)
        ensures
            command@ == EngineCommandView::DestroyChannel(self@.native),
    {
        EngineCommand::DestroyChannel(self.native.address())
    }

    /// The number of bytes that wait in the outbound queue. It never
    /// exceeds the capacity.
    pub fn buffered_amount(&self) -> (bytes: usize)
        ensures
            bytes == total_bytes(self@.outbound),
            bytes <= self@.capacity,
    {
        self.queue.fill().0
    }

    /// The number of bytes that may wait in the outbound queue.
    pub fn capacity(&self) -> (bytes: usize)
        ensures
            bytes == self@.capacity,
            total_bytes(self@.outbound) <= bytes,
    {
        self.queue.fill().1
    }

    /// The state that the engine reported last.
    pub fn state(&self) -> (state: DataChannelState)
        ensures
            state == self@.state,
    {
        self.state
    }

    /// The label.
    pub fn label(&self) -> (label: &str)
        ensures
            label@ == self@.label,
    {
        self.label.as_str()
    }

    /// The handle of the engine's channel; it is never zero.
    pub fn native(&self) -> (native: u64)
        ensures
            native == self@.native,
            native != 0,
    {
        self.native.address()
    }
}

} // verus!

//! Sinks and the registry that fans events out to them.
//!
//! A [`Sinker`] is a consumer of events of one type, keyed in a
//! [`SinkRegistry`] by a small integer. The engine's thread only appends to a
//! consumer's inbox, which takes a bounded time; the host takes the events out
//! on its own schedule and runs its own logic on them there.

use vstd::prelude::*;
use std::collections::HashMap;
use std::sync::Arc;

verus! {

broadcast use vstd::std_specs::hash::group_hash_axioms;

/// What a registry holds: for each sink id with a consumer, the events that
/// consumer has received and not yet handed on, oldest first.
pub type Inboxes<T> = Map<u8, Seq<Arc<T>>>;

/// The registry after a consumer with the inbox `inbox` was installed at
/// `sink_id`: it takes the place of whatever was there.
pub open spec fn registered<T>(inboxes: Inboxes<T>, sink_id: u8, inbox: Seq<Arc<T>>) -> Inboxes<T> {
    inboxes.insert(sink_id, inbox)
}

/// The registry after one consumer after the other was installed at `sink_id`,
/// in the order of `inboxes`.
pub open spec fn registered_all<T>(
    start: Inboxes<T>,
    sink_id: u8,
    inboxes: Seq<Seq<Arc<T>>>,
) -> Inboxes<T>
    decreases inboxes.len(),
{
    if inboxes.len() == 0 {
        start
    } else {
        registered(registered_all(start, sink_id, inboxes.drop_last()), sink_id, inboxes.last())
    }
}

/// The registry after `event` was dispatched to `sink_id`: the consumer there
/// receives it; without a consumer nothing changes.
pub open spec fn dispatched<T>(inboxes: Inboxes<T>, sink_id: u8, event: Arc<T>) -> Inboxes<T> {
    if inboxes.contains_key(sink_id) {
        inboxes.insert(sink_id, inboxes[sink_id].push(event))
    } else {
        inboxes
    }
}

/// The registry after `event` was fanned out: every consumer receives it.
pub open spec fn fanned_out<T>(inboxes: Inboxes<T>, event: Arc<T>) -> Inboxes<T> {
    inboxes.map_values(|inbox: Seq<Arc<T>>| inbox.push(event))
}

/// However many consumers were registered at one id, one after the other, a
/// dispatch to that id reaches the one registered last and no other: the
/// registry is the one from before the registrations, but for the last
/// consumer's inbox with the event at its end.
pub proof fn lemma_dispatch_reaches_last_registered<T>(
    start: Inboxes<T>,
    sink_id: u8,
    inboxes: Seq<Seq<Arc<T>>>,
    event: Arc<T>,
)
    requires
        inboxes.len() > 0,
    ensures
        dispatched(registered_all(start, sink_id, inboxes), sink_id, event) == start.insert(
            sink_id,
            inboxes.last().push(event),
        ),
{
    let after = registered_all(start, sink_id, inboxes);
    lemma_registrations_touch_one_id(start, sink_id, inboxes);
    assert(after.contains_key(sink_id) && after[sink_id] == inboxes.last());
    assert forall|other: u8| other != sink_id && start.contains_key(other) implies after[other]
        == start[other] by {}
    assert(dispatched(registered_all(start, sink_id, inboxes), sink_id, event) =~= start.insert(
        sink_id,
        inboxes.last().push(event),
    ));
}

/// Registrations at one id leave every other id as it was.
pub proof fn lemma_registrations_touch_one_id<T>(
    start: Inboxes<T>,
    sink_id: u8,
    inboxes: Seq<Seq<Arc<T>>>,
)
    ensures
        forall|other: u8|
            other != sink_id ==> (#[trigger] registered_all(
                start,
                sink_id,
                inboxes,
            ).contains_key(other) == start.contains_key(other)),
        forall|other: u8|
            other != sink_id && start.contains_key(other) ==> #[trigger] registered_all(
                start,
                sink_id,
                inboxes,
            )[other] == start[other],
    decreases inboxes.len(),
{
    if inboxes.len() > 0 {
        let before_last = registered_all(start, sink_id, inboxes.drop_last());
        lemma_registrations_touch_one_id(start, sink_id, inboxes.drop_last());
        assert forall|other: u8| other != sink_id && start.contains_key(other) implies registered_all(
            start,
            sink_id,
            inboxes,
        )[other] == start[other] by {
            assert(before_last[other] == start[other]);
        }
    }
}

/// `Arc::clone`: a second pointer to the value that `event` points to. The
/// value itself is not copied, so the result equals `event`.
#[verifier::external_body]
fn share<T>(event: &Arc<T>) -> (shared: Arc<T>)
    ensures
        shared == *event,
{
    Arc::clone(event)
}

/// A consumer of events of type `T`, with the inbox the events wait in until
/// the host takes them.
pub struct Sinker<T> {
    inbox: Vec<Arc<T>>,
}

impl<T> Sinker<T> {
    /// The events received and not yet taken, oldest first.
    pub closed spec fn view(&self) -> Seq<Arc<T>> {
        self.inbox@
    }

    /// A consumer that has received nothing yet.
    pub fn new() -> (sink: Self)
        ensures
            sink@ == Seq::<Arc<T>>::empty(),
    {
        Sinker { inbox: Vec::new() }
    }

    /// Receives one event: it goes to the end of the inbox.
    pub fn on_data(&mut self, value: Arc<T>)
        ensures
            final(self)@ == old(self)@.push(value),
    {
        self.inbox.push(value);
    }

    /// Takes the waiting events out, oldest first, and leaves the inbox empty.
    pub fn take(&mut self) -> (events: Vec<Arc<T>>)
        ensures
            events@ == old(self)@,
            final(self)@ == Seq::<Arc<T>>::empty(),
    {
        let mut events: Vec<Arc<T>> = Vec::new();
        events.append(&mut self.inbox);
        assert(events@ =~= old(self)@);
        events
    }

    /// Ends the consumer and hands out what still waited in its inbox.
    pub fn into_events(self) -> (events: Vec<Arc<T>>)
        ensures
            events@ == self@,
    {
        self.inbox
    }

    /// The number of waiting events.
    pub fn len(&self) -> (n: usize)
        ensures
            n == self@.len(),
    {
        self.inbox.len()
    }
}

/// The consumers of one track or channel, at most one for each sink id.
pub struct SinkRegistry<T> {
    sinks: HashMap<u8, Sinker<T>>,
}

impl<T> SinkRegistry<T> {
    /// The inbox of each registered consumer, by sink id.
    pub closed spec fn view(&self) -> Inboxes<T> {
        self.sinks@.map_values(|sink: Sinker<T>| sink@)
    }

    /// A registry without consumers.
    pub fn new() -> (registry: Self)
        ensures
            registry@ == Map::<u8, Seq<Arc<T>>>::empty(),
    {
        let registry = SinkRegistry { sinks: HashMap::new() };
        assert(registry@ =~= Map::<u8, Seq<Arc<T>>>::empty());
        registry
    }

    /// Installs `sink` at `sink_id`. A consumer that was there before is
    /// taken out and handed back with the events it had received; no later
    /// event reaches it.
    pub fn register(&mut self, sink_id: u8, sink: Sinker<T>) -> (previous: Option<Sinker<T>>)
        ensures
            final(self)@ == registered(old(self)@, sink_id, sink@),
            previous is Some <==> old(self)@.contains_key(sink_id),
            previous is Some ==> previous.unwrap()@ == old(self)@[sink_id],
    {
        let previous = self.sinks.insert(sink_id, sink);
        assert(self@ =~= registered(old(self)@, sink_id, sink@));
        previous
    }

    /// Takes the consumer at `sink_id` out, with the events it had received.
    pub fn unregister(&mut self, sink_id: u8) -> (removed: Option<Sinker<T>>)
        ensures
            final(self)@ == old(self)@.remove(sink_id),
            removed is Some <==> old(self)@.contains_key(sink_id),
            removed is Some ==> removed.unwrap()@ == old(self)@[sink_id],
    {
        let removed = self.sinks.remove(&sink_id);
        assert(self@ =~= old(self)@.remove(sink_id));
        removed
    }

    /// True when a consumer is registered at `sink_id`.
    pub fn is_registered(&self, sink_id: u8) -> (present: bool)
        ensures
            present == self@.contains_key(sink_id),
    {
        self.sinks.contains_key(&sink_id)
    }

    /// Delivers `event` to the consumer at `sink_id` and says whether there
    /// was one. Without a consumer the event is dropped and nothing changes:
    /// a consumer that arrives late misses what came before it.
    pub fn dispatch(&mut self, sink_id: u8, event: Arc<T>) -> (delivered: bool)
        ensures
            delivered == old(self)@.contains_key(sink_id),
            final(self)@ == dispatched(old(self)@, sink_id, event),
            !delivered ==> final(self)@ == old(self)@,
    {
        match self.sinks.remove(&sink_id) {
            Some(mut sink) => {
                sink.on_data(event);
                self.sinks.insert(sink_id, sink);
                assert(self@ =~= dispatched(old(self)@, sink_id, event));
                true
            },
            None => {
                assert(self@ =~= old(self)@);
                false
            },
        }
    }

    /// Delivers `event` to every registered consumer and says whether there
    /// was any.
    pub fn fan_out(&mut self, event: Arc<T>) -> (delivered: bool)
        ensures
            delivered == (exists|sink_id: u8| old(self)@.contains_key(sink_id)),
            final(self)@ == fanned_out(old(self)@, event),
    {
        let mut delivered = false;
        let mut sink_id: u8 = 0;
        loop
            invariant_except_break
                delivered == (exists|k: u8| k < sink_id && old(self)@.contains_key(k)),
                forall|k: u8|
                    k < sink_id && old(self)@.contains_key(k) ==> #[trigger] self@[k] == old(
                        self,
                    )@[k].push(event),
                forall|k: u8|
                    k >= sink_id && old(self)@.contains_key(k) ==> #[trigger] self@[k] == old(
                        self,
                    )@[k],
            invariant
                forall|k: u8| self@.contains_key(k) == old(self)@.contains_key(k),
            ensures
                delivered == (exists|k: u8| old(self)@.contains_key(k)),
                forall|k: u8| self@.contains_key(k) == old(self)@.contains_key(k),
                forall|k: u8|
                    old(self)@.contains_key(k) ==> #[trigger] self@[k] == old(self)@[k].push(
                        event,
                    ),
            decreases 255 - sink_id,
        {
            let hit = self.dispatch(sink_id, share(&event));
            if hit {
                delivered = true;
            }
            if sink_id == 255 {
                break ;
            }
            sink_id = sink_id + 1;
        }
        assert(self@ =~= fanned_out(old(self)@, event));
        delivered
    }

    /// Takes the events that wait at `sink_id` out, oldest first. `None`
    /// when no consumer is registered there.
    pub fn take(&mut self, sink_id: u8) -> (events: Option<Vec<Arc<T>>>)
        ensures
            events is Some <==> old(self)@.contains_key(sink_id),
            events is Some ==> events.unwrap()@ == old(self)@[sink_id] && final(self)@ == old(
                self,
            )@.insert(sink_id, Seq::<Arc<T>>::empty()),
            events is None ==> final(self)@ == old(self)@,
    {
        match self.sinks.remove(&sink_id) {
            Some(mut sink) => {
                let events = sink.take();
                self.sinks.insert(sink_id, sink);
                assert(self@ =~= old(self)@.insert(sink_id, Seq::<Arc<T>>::empty()));
                Some(events)
            },
            None => {
                assert(self@ =~= old(self)@);
                None
            },
        }
    }
}

} // verus!

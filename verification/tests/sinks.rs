use batrachia::sink::{SinkRegistry, Sinker};
use std::sync::Arc;

fn values(events: Vec<Arc<u32>>) -> Vec<u32> {
    events.iter().map(|e| **e).collect()
}

#[test]
fn only_the_last_registered_consumer_receives() {
    let mut registry: SinkRegistry<u32> = SinkRegistry::new();
    assert!(registry.register(3, Sinker::new()).is_none());
    assert!(registry.dispatch(3, Arc::new(1)));
    let first = registry.register(3, Sinker::new()).unwrap();
    let second = registry.register(3, Sinker::new()).unwrap();
    assert!(registry.dispatch(3, Arc::new(2)));
    assert!(registry.dispatch(3, Arc::new(3)));
    assert_eq!(values(first.into_events()), vec![1]);
    assert_eq!(values(second.into_events()), Vec::<u32>::new());
    assert_eq!(values(registry.take(3).unwrap()), vec![2, 3]);
}

#[test]
fn dispatch_without_a_consumer_changes_nothing() {
    let mut registry: SinkRegistry<u32> = SinkRegistry::new();
    assert!(!registry.dispatch(0, Arc::new(7)));
    registry.register(1, Sinker::new());
    assert!(!registry.dispatch(0, Arc::new(8)));
    assert!(!registry.is_registered(0));
    assert_eq!(values(registry.take(1).unwrap()), Vec::<u32>::new());
    assert!(registry.take(0).is_none());
}

#[test]
fn a_late_consumer_misses_earlier_events() {
    let mut registry: SinkRegistry<u32> = SinkRegistry::new();
    assert!(!registry.dispatch(5, Arc::new(1)));
    registry.register(5, Sinker::new());
    assert!(registry.dispatch(5, Arc::new(2)));
    assert_eq!(values(registry.take(5).unwrap()), vec![2]);
}

#[test]
fn fan_out_hands_every_consumer_the_same_event() {
    let mut registry: SinkRegistry<Vec<u8>> = SinkRegistry::new();
    assert!(!registry.fan_out(Arc::new(vec![0])));
    registry.register(0, Sinker::new());
    registry.register(255, Sinker::new());
    registry.register(17, Sinker::new());
    let event = Arc::new(vec![1u8, 2, 3]);
    assert!(registry.fan_out(event.clone()));
    for sink_id in [0u8, 17, 255] {
        let got = registry.take(sink_id).unwrap();
        assert_eq!(got.len(), 1);
        assert_eq!(*got[0], vec![1u8, 2, 3]);
        assert!(Arc::ptr_eq(&got[0], &event));
    }
    assert!(registry.take(1).is_none());
}

#[test]
fn fan_out_keeps_the_order_of_events() {
    let mut registry: SinkRegistry<u32> = SinkRegistry::new();
    registry.register(9, Sinker::new());
    for n in 0..10u32 {
        assert!(registry.fan_out(Arc::new(n)));
    }
    assert_eq!(values(registry.take(9).unwrap()), (0..10).collect::<Vec<u32>>());
}

#[test]
fn unregister_hands_the_consumer_back() {
    let mut registry: SinkRegistry<u32> = SinkRegistry::new();
    registry.register(2, Sinker::new());
    registry.dispatch(2, Arc::new(4));
    let removed = registry.unregister(2).unwrap();
    assert_eq!(removed.len(), 1);
    assert_eq!(values(removed.into_events()), vec![4]);
    assert!(!registry.is_registered(2));
    assert!(registry.unregister(2).is_none());
    assert!(!registry.dispatch(2, Arc::new(5)));
}

#[test]
fn a_sinker_is_a_first_in_first_out_inbox() {
    let mut sink: Sinker<u32> = Sinker::new();
    assert_eq!(sink.len(), 0);
    sink.on_data(Arc::new(1));
    sink.on_data(Arc::new(2));
    assert_eq!(sink.len(), 2);
    assert_eq!(values(sink.take()), vec![1, 2]);
    assert_eq!(sink.len(), 0);
    sink.on_data(Arc::new(3));
    assert_eq!(values(sink.into_events()), vec![3]);
}

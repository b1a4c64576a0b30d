use relay_pipeline::ingest::{
    consumer_settings, ConsumerEvent, ConsumerPhase, ConsumerStep, GroupPolicy, Ingestion,
};
use relay_pipeline::message_store::VecStoreGetter;

fn group_of(step: &ConsumerStep) -> String {
    match step {
        ConsumerStep::CreateConsumer { settings } => {
            assert_eq!(settings.len(), 4);
            assert_eq!(settings[0], ("bootstrap.servers".to_string(), "kafka-service:9092".to_string()));
            assert_eq!(settings[1].0, "group.id");
            assert_eq!(settings[2], ("enable.auto.commit".to_string(), "false".to_string()));
            assert_eq!(settings[3], ("isolation.level".to_string(), "read_committed".to_string()));
            settings[1].1.clone()
        }
        other => panic!("unexpected {:?}", other),
    }
}

#[test]
fn consumer_settings_hold_group() {
    let s = consumer_settings("g1");
    assert_eq!(s[1], ("group.id".to_string(), "g1".to_string()));
}

#[test]
fn streaming_records_and_commits() {
    let mut store = VecStoreGetter::new();
    let mut ing = Ingestion::new();
    let g = group_of(&ing.first_step());
    assert_eq!(g.len(), 36);
    match ing.step(ConsumerEvent::Created(Ok(())), &mut store) {
        ConsumerStep::Subscribe { topic } => assert_eq!(topic, "messages"),
        other => panic!("unexpected {:?}", other),
    }
    assert!(matches!(ing.step(ConsumerEvent::Subscribed(Ok(())), &mut store), ConsumerStep::Poll));
    assert_eq!(ing.phase, ConsumerPhase::Streaming);
    let ev = ConsumerEvent::Delivered(Ok(Some(b"hello".to_vec())));
    assert!(matches!(ing.step(ev, &mut store), ConsumerStep::Commit));
    let ev = ConsumerEvent::Committed(Err("commit failed".to_string()));
    assert!(matches!(ing.step(ev, &mut store), ConsumerStep::Poll));
    let ev = ConsumerEvent::Delivered(Err("broker down".to_string()));
    assert!(matches!(ing.step(ev, &mut store), ConsumerStep::Poll));
    let ev = ConsumerEvent::Delivered(Ok(Some(b"world".to_vec())));
    assert!(matches!(ing.step(ev, &mut store), ConsumerStep::Commit));
    assert_eq!(store.get_message(), "hello : world");
}

#[test]
fn creation_failure_backs_off_then_retries_with_new_group() {
    let mut store = VecStoreGetter::new();
    let mut ing = Ingestion::new();
    let g1 = group_of(&ing.first_step());
    let s = ing.step(ConsumerEvent::Created(Err("no broker".to_string())), &mut store);
    assert!(matches!(s, ConsumerStep::Wait { secs: 10 }));
    assert_eq!(ing.phase, ConsumerPhase::BackingOff);
    let s = ing.step(ConsumerEvent::BackoffElapsed, &mut store);
    let g2 = group_of(&s);
    assert_ne!(g1, g2);
    assert_eq!(ing.phase, ConsumerPhase::Disconnected);
}

#[test]
fn subscribe_failure_and_stream_end_back_off() {
    let mut store = VecStoreGetter::new();
    let mut ing = Ingestion::new();
    ing.step(ConsumerEvent::Created(Ok(())), &mut store);
    let s = ing.step(ConsumerEvent::Subscribed(Err("unknown topic".to_string())), &mut store);
    assert!(matches!(s, ConsumerStep::Wait { secs: 10 }));
    ing.step(ConsumerEvent::BackoffElapsed, &mut store);
    ing.step(ConsumerEvent::Created(Ok(())), &mut store);
    ing.step(ConsumerEvent::Subscribed(Ok(())), &mut store);
    let s = ing.step(ConsumerEvent::StreamEnded, &mut store);
    assert!(matches!(s, ConsumerStep::Wait { secs: 10 }));
    assert_eq!(store.len(), 0);
}

#[test]
fn stable_group_is_kept_across_reconnects() {
    let mut store = VecStoreGetter::new();
    let mut ing = Ingestion::with_policy(GroupPolicy::Stable(1));
    let g1 = group_of(&ing.first_step());
    assert_eq!(g1, "00000000-0000-0000-0000-000000000001");
    ing.step(ConsumerEvent::Created(Err("down".to_string())), &mut store);
    let g2 = group_of(&ing.step(ConsumerEvent::BackoffElapsed, &mut store));
    assert_eq!(g1, g2);
}

use base64::Engine;
use kafka_ingress::{
    ClientConfig, ConsumerTask, Error, EventInvocationTargetTemplate, EventReceiverServiceType,
    KafkaDeduplicationId, KafkaMessage, MessageSender, Sink, SpanContext, SpanRelation,
    Subscription,
};

fn service_sink() -> Sink {
    Sink::Invocation {
        event_invocation_target_template: EventInvocationTargetTemplate::Service {
            name: "Greeter".to_string(),
            handler: "greet".to_string(),
        },
    }
}

fn message(key: Option<Vec<u8>>, timestamp: Option<i64>) -> KafkaMessage {
    KafkaMessage {
        topic: "orders".to_string(),
        partition: 3,
        offset: 42,
        timestamp,
        key,
        payload: Some(b"hello".to_vec()),
    }
}

fn pairs(headers: &[kafka_ingress::Header]) -> Vec<(String, String)> {
    headers.iter().map(|h| (h.name.clone(), h.value.clone())).collect()
}

#[test]
fn proxying_is_required_for_service_sinks_only() {
    let sub = |sink| Subscription::new("sub_1".to_string(), sink);
    assert!(KafkaDeduplicationId::requires_proxying(&sub(service_sink())));
    assert!(KafkaDeduplicationId::requires_proxying(&sub(Sink::DeprecatedService {
        name: "Greeter".to_string(),
        ty: EventReceiverServiceType::Service,
    })));
    assert!(!KafkaDeduplicationId::requires_proxying(&sub(Sink::DeprecatedService {
        name: "Counter".to_string(),
        ty: EventReceiverServiceType::VirtualObject,
    })));
    assert!(!KafkaDeduplicationId::requires_proxying(&sub(Sink::DeprecatedService {
        name: "Signup".to_string(),
        ty: EventReceiverServiceType::Workflow,
    })));
    assert!(!KafkaDeduplicationId::requires_proxying(&sub(Sink::Invocation {
        event_invocation_target_template: EventInvocationTargetTemplate::VirtualObject {
            name: "Counter".to_string(),
            handler: "add".to_string(),
        },
    })));
    assert!(!KafkaDeduplicationId::requires_proxying(&sub(Sink::Invocation {
        event_invocation_target_template: EventInvocationTargetTemplate::Workflow {
            name: "Signup".to_string(),
            handler: "run".to_string(),
        },
    })));
}

#[test]
fn deduplication_id_is_deterministic() {
    let (a, ia) = MessageSender::generate_deduplication_id("group-a", &message(None, None));
    let (b, ib) = MessageSender::generate_deduplication_id("group-a", &message(Some(vec![9]), None));
    assert_eq!(a, b);
    assert_eq!(ia, 42);
    assert_eq!(ia, ib);
    assert_eq!(a.consumer_group(), "group-a");
    assert_eq!(a.topic(), "orders");
    assert_eq!(a.partition(), 3);
    let (c, _) = MessageSender::generate_deduplication_id("group-b", &message(None, None));
    assert_ne!(a, c);
}

#[test]
fn deduplication_id_display_joins_with_dashes() {
    let id = KafkaDeduplicationId::new("g".to_string(), "orders".to_string(), -7);
    assert_eq!(id.to_display_string(), "g-orders--7");
    let id = KafkaDeduplicationId::new("group".to_string(), "t".to_string(), 120);
    assert_eq!(id.to_display_string(), "group-t-120");
}

#[test]
fn attributes_in_fixed_order() {
    let headers = MessageSender::generate_events_attributes(
        &message(Some(vec![0x01, 0x02]), Some(1_700_000_000_000)),
        "sub_1",
    );
    assert_eq!(
        pairs(&headers),
        vec![
            ("kafka.offset".to_string(), "42".to_string()),
            ("kafka.topic".to_string(), "orders".to_string()),
            ("kafka.partition".to_string(), "3".to_string()),
            ("kafka.timestamp".to_string(), "1700000000000".to_string()),
            ("restate.subscription.id".to_string(), "sub_1".to_string()),
            ("kafka.key".to_string(), "AQI=".to_string()),
        ]
    );
}

#[test]
fn attributes_without_timestamp_or_key() {
    let headers = MessageSender::generate_events_attributes(&message(None, None), "sub_1");
    assert_eq!(
        pairs(&headers),
        vec![
            ("kafka.offset".to_string(), "42".to_string()),
            ("kafka.topic".to_string(), "orders".to_string()),
            ("kafka.partition".to_string(), "3".to_string()),
            ("restate.subscription.id".to_string(), "sub_1".to_string()),
        ]
    );
}

#[test]
fn key_attribute_decodes_back_to_the_key() {
    let headers =
        MessageSender::generate_events_attributes(&message(Some(vec![0x01, 0x02]), None), "s");
    let key = headers.iter().find(|h| h.name == "kafka.key").expect("key attribute");
    let decoded = base64::engine::general_purpose::URL_SAFE.decode(&key.value).unwrap();
    assert_eq!(decoded, vec![0x01, 0x02]);
    let headers =
        MessageSender::generate_events_attributes(&message(Some(vec![0xfb, 0xff]), None), "s");
    assert_eq!(headers.last().unwrap().value, "-_8=");
}

#[test]
fn built_event_carries_message_and_subscription() {
    let sender = MessageSender::new(Subscription::new("sub_1".to_string(), service_sink()), true);
    let span = SpanContext { trace_id: 5, span_id: 6, trace_flags: 1, is_remote: false };
    let ev = sender.build_event("group-a", &message(Some(vec![7]), None), span);
    assert_eq!(ev.key, vec![7]);
    assert_eq!(ev.payload, b"hello".to_vec());
    assert_eq!(ev.related_span, SpanRelation::Parent(span));
    assert_eq!(ev.deduplication_index, 42);
    assert_eq!(ev.deduplication_id.to_display_string(), "group-a-orders-3");
    assert_eq!(ev.subscription.id(), "sub_1");
    assert_eq!(ev.subscription.sink(), &service_sink());
    assert!(ev.experimental_feature_kafka_ingress_next);
    assert_eq!(ev.headers.len(), 5);

    let mut empty = message(None, None);
    empty.payload = None;
    let ev = sender.build_event("group-a", &empty, span);
    assert!(ev.key.is_empty());
    assert!(ev.payload.is_empty());
}

#[test]
fn rejected_message_becomes_an_event_error() {
    match MessageSender::event_error(&message(None, None), "bad target".to_string()) {
        Error::Event { topic, partition, offset, cause } => {
            assert_eq!(topic, "orders");
            assert_eq!(partition, 3);
            assert_eq!(offset, 42);
            assert_eq!(cause, "bad target");
        }
        other => panic!("expected an event error, got {:?}", other),
    }
}

#[test]
fn consumer_group_comes_from_the_settings() {
    let mut config = ClientConfig::new();
    config.set("bootstrap.servers", "localhost:9092");
    let sender = MessageSender::new(Subscription::new("sub_1".to_string(), service_sink()), false);
    let task = ConsumerTask::new(config.clone(), vec!["orders".to_string()], sender.clone());
    assert_eq!(task.consumer_group_id(), None);
    config.set("group.id", "first");
    config.set("group.id", "second");
    assert_eq!(config.get("group.id").map(|s| s.as_str()), Some("second"));
    assert_eq!(config.get("bootstrap.servers").map(|s| s.as_str()), Some("localhost:9092"));
    let task = ConsumerTask::new(config, vec!["orders".to_string()], sender);
    assert_eq!(task.consumer_group_id(), Some("second".to_string()));
    assert_eq!(task.topics(), &vec!["orders".to_string()]);
    assert_eq!(task.sender().subscription_id(), "sub_1");
}

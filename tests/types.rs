use kafka_ingress::{
    IngressId, InvocationId, MillisSinceEpoch, ResponseSink, ServiceId, ServiceInvocationId,
    ServiceInvocationResponseSink, ServiceInvocationSpanContext, SpanContext, SpanRelation,
};

#[test]
fn millis_since_epoch_keeps_its_value() {
    assert_eq!(MillisSinceEpoch::new(0).as_u64(), 0);
    assert_eq!(MillisSinceEpoch::new(u64::MAX).as_u64(), u64::MAX);
    assert!(MillisSinceEpoch::new(1) < MillisSinceEpoch::new(2));
}

#[test]
fn span_context_relations() {
    let ctx = SpanContext { trace_id: 1, span_id: 2, trace_flags: 1, is_remote: true };
    let s = ServiceInvocationSpanContext(ctx);
    assert_eq!(s.as_cause(), SpanRelation::CausedBy(ctx));
    assert_eq!(s.as_parent(), SpanRelation::Parent(ctx));
}

#[test]
fn response_sink_follows_the_invocation_sink() {
    let id = ServiceInvocationId::new("Greeter".to_string(), b"k".to_vec(), InvocationId::nil());
    assert_eq!(id.service_id, ServiceId::new("Greeter".to_string(), b"k".to_vec()));
    let ingress = IngressId { ip: 1, port: 8080 };
    match ResponseSink::from_service_invocation_response_sink(
        &id,
        &ServiceInvocationResponseSink::Ingress(ingress),
    ) {
        Some(ResponseSink::Ingress(i, sid)) => {
            assert_eq!(i, ingress);
            assert_eq!(sid.service_id.service_name, "Greeter");
        }
        other => panic!("expected an ingress sink, got {:?}", other),
    }
    let caller = ServiceInvocationId::new("Caller".to_string(), vec![], InvocationId::nil());
    match ResponseSink::from_service_invocation_response_sink(
        &id,
        &ServiceInvocationResponseSink::PartitionProcessor { caller, entry_index: 4 },
    ) {
        Some(ResponseSink::PartitionProcessor(c, e)) => {
            assert_eq!(c.service_id.service_name, "Caller");
            assert_eq!(e, 4);
        }
        other => panic!("expected a partition processor sink, got {:?}", other),
    }
    assert!(ResponseSink::from_service_invocation_response_sink(
        &id,
        &ServiceInvocationResponseSink::NoResponse
    )
    .is_none());
}

#[test]
fn millis_since_epoch_display_and_bounds() {
    assert_eq!(MillisSinceEpoch::new(1500).to_display_string(), "1500 ms since epoch");
    assert_eq!(
        MillisSinceEpoch::new(u64::MAX).to_display_string(),
        "18446744073709551615 ms since epoch"
    );
}

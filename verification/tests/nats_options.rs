use esrc::nats::{NatsStoreOptions, NatsStreamReplicas};

#[test]
fn default_options_preserve_one_replica() {
    assert_eq!(
        NatsStoreOptions::default().stream_replicas(),
        NatsStreamReplicas::One
    );
    assert_eq!(NatsStreamReplicas::One.count(), 1);
}

#[test]
fn replicated_options_request_three_replicas() {
    assert_eq!(
        NatsStoreOptions::replicated().stream_replicas(),
        NatsStreamReplicas::Three
    );
    assert_eq!(NatsStreamReplicas::Three.count(), 3);
}

#[test]
fn replica_mismatches_are_reported_not_repaired() {
    assert!(esrc::nats::check_stream_replicas("EVENTS", 3, 3).is_ok());
    let m = esrc::nats::check_stream_replicas("EVENTS", 3, 1).unwrap_err();
    assert_eq!(m.stream(), "EVENTS");
    assert_eq!(m.expected(), 3);
    assert_eq!(m.actual(), 1);
    assert_eq!(
        m.message(),
        "NATS stream `EVENTS` has 1 replicas, but the application requires 3"
    );
}

use esrc::error::Error;
use esrc::nats::config::{
    default_durable_consumer_config, AckPolicy, DeliverPolicy, DiscardPolicy, RetentionPolicy,
};
use esrc::nats::dead_letter::{
    advisory_consumer_config, advisory_reason, advisory_record, advisory_stream_config,
    advisory_stream_name, advisory_subjects, check_advisory_stream, dead_letter_for,
    joined_headers, read_advisory, AdvisoryRecord, DeadLetterMessage, DeadLetterReason,
};
use esrc::nats::envelope::NatsMessage;
use esrc::nats::NatsStoreOptions;

#[test]
fn advisory_streams_are_named_after_the_consumer() {
    assert_eq!(advisory_stream_name("ORDERS", "billing"), "ORDERS_DLQ_billing");
    assert_eq!(
        advisory_subjects("ORDERS", "billing"),
        [
            "$JS.EVENT.ADVISORY.CONSUMER.MAX_DELIVERIES.ORDERS.billing",
            "$JS.EVENT.ADVISORY.CONSUMER.MSG_TERMINATED.ORDERS.billing"
        ]
    );
}

#[test]
fn advisory_streams_are_checked_for_compatibility() {
    let expected = advisory_subjects("ORDERS", "billing");
    let good = advisory_stream_config("ORDERS", "billing", NatsStoreOptions::replicated());
    assert_eq!(good.retention, RetentionPolicy::WorkQueue);
    assert_eq!(good.discard, DiscardPolicy::New);
    assert_eq!(good.num_replicas, 3);
    assert!(check_advisory_stream(&good, &expected).is_ok());

    let mut limited = good.clone();
    limited.max_messages = 10;
    match check_advisory_stream(&limited, &expected) {
        Err(Error::Internal(m)) => assert_eq!(
            m,
            "NATS dead-letter advisory stream `ORDERS_DLQ_billing` has incompatible subjects, retention, discard, storage, or limits"
        ),
        _ => panic!("expected an internal error"),
    }
    let mut unlimited = good.clone();
    unlimited.max_messages = -1;
    assert!(check_advisory_stream(&unlimited, &expected).is_ok());
    let mut reordered = good.clone();
    reordered.subjects.reverse();
    assert!(check_advisory_stream(&reordered, &expected).is_err());
}

#[test]
fn advisory_consumers_read_every_advisory_explicitly() {
    let c = advisory_consumer_config(default_durable_consumer_config(), "dlq", "ORDERS", "billing");
    assert_eq!(c.durable_name.as_deref(), Some("dlq"));
    assert_eq!(c.filter_subject, "");
    assert_eq!(c.filter_subjects, advisory_subjects("ORDERS", "billing"));
    assert_eq!(c.deliver_policy, DeliverPolicy::All);
    assert_eq!(c.ack_policy, AckPolicy::Explicit);
}

#[test]
fn advisories_are_read_from_their_subject_and_payload() {
    assert!(matches!(
        advisory_reason("$JS.EVENT.ADVISORY.CONSUMER.MAX_DELIVERIES.S.C"),
        DeadLetterReason::MaxDeliveriesReached
    ));
    assert!(matches!(
        advisory_reason("$JS.EVENT.ADVISORY.CONSUMER.MSG_TERMINATED.S.C"),
        DeadLetterReason::MessageTerminated
    ));
    match advisory_reason("other") {
        DeadLetterReason::ProcessingError(m) => assert_eq!(m, "Unknown advisory type"),
        _ => panic!("expected a processing error"),
    }

    let record = read_advisory(
        "$JS.EVENT.ADVISORY.CONSUMER.MAX_DELIVERIES.S.C",
        br#"{"stream_seq": 42, "deliveries": 5}"#,
    )
    .unwrap();
    assert_eq!(record.stream_sequence, 42);
    assert_eq!(record.delivery_count, 5);
    assert!(matches!(record.reason, DeadLetterReason::MaxDeliveriesReached));

    let record = read_advisory("other", br#"{"stream_seq": 3}"#).unwrap();
    match record.reason {
        DeadLetterReason::ProcessingError(m) => assert_eq!(m, "Unknown advisory type"),
        _ => panic!("expected a processing error"),
    }

    let record = read_advisory("x.MSG_TERMINATED", br#"{"stream_seq": 7}"#).unwrap();
    assert_eq!(record.delivery_count, 0);
    assert!(matches!(record.reason, DeadLetterReason::MessageTerminated));

    assert_eq!(
        read_advisory("x", br#"{"deliveries": 5}"#).unwrap_err(),
        "Missing stream_seq in advisory message"
    );
    assert!(read_advisory("x", b"not json").is_err());
    assert_eq!(
        advisory_record("x", Err("bad".to_owned())).unwrap_err(),
        "bad"
    );
}

#[test]
fn dead_letters_keep_the_original_message_when_it_can_be_read() {
    let record = AdvisoryRecord {
        stream_sequence: 42,
        delivery_count: 5,
        reason: DeadLetterReason::MaxDeliveriesReached,
    };
    let message = NatsMessage {
        subject: "EVENTS.Counter.x".to_owned(),
        headers: vec![("A".to_owned(), vec!["1".to_owned(), "2".to_owned()])],
        payload: b"payload".to_vec(),
    };
    let d = dead_letter_for(record, "ORDERS", "billing", Some((message, 1_700_000_000_123_456_789)));
    assert_eq!(d.subject, "EVENTS.Counter.x");
    assert_eq!(d.payload, b"payload");
    assert_eq!(d.headers, Some(vec![("A".to_owned(), "1,2".to_owned())]));
    assert_eq!(d.stream, "ORDERS");
    assert_eq!(d.consumer, "billing");
    assert_eq!(d.stream_sequence, 42);
    assert_eq!(d.delivery_count, 5);
    assert_eq!(d.timestamp, 1_700_000_000_123_456_789);

    let record = AdvisoryRecord {
        stream_sequence: 43,
        delivery_count: 1,
        reason: DeadLetterReason::MessageTerminated,
    };
    let d = dead_letter_for(record, "ORDERS", "billing", None);
    assert_eq!(d.subject, "unknown");
    assert!(d.payload.is_empty());
    assert!(d.headers.is_none());
}

#[test]
fn dead_letter_headers_join_their_values() {
    let h = vec![
        ("A".to_owned(), vec![]),
        ("B".to_owned(), vec!["x".to_owned(), "y".to_owned(), "z".to_owned()]),
    ];
    assert_eq!(
        joined_headers(&h),
        vec![("A".to_owned(), "".to_owned()), ("B".to_owned(), "x,y,z".to_owned())]
    );
    let m = NatsMessage { subject: "s".to_owned(), headers: vec![], payload: vec![] };
    let d = DeadLetterMessage::from_stream_message(
        &m,
        5,
        "S".to_owned(),
        "C".to_owned(),
        1,
        DeadLetterReason::MessageTerminated,
        1,
    );
    assert!(d.headers.is_none());
    let d = DeadLetterMessage::new(
        "s",
        b"p",
        Some(&h),
        Ok(77),
        "S".to_owned(),
        "C".to_owned(),
        1,
        DeadLetterReason::MessageTerminated,
        2,
    );
    assert_eq!(d.timestamp, 77);
    assert_eq!(d.headers.unwrap().len(), 2);
}

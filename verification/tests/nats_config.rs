use esrc::event::event_model::ViewProjectorIdentity;
use esrc::nats::config::{
    default_durable_consumer_config, durable_consumer_config, effective_ack_wait,
    insert_metadata, mirror_stream_config, normalized_filters, ordered_deliver_policy,
    progress_interval, validate_view_consumer, view_consumer_config, writer_stream_config,
    AckPolicy, ConsumerSettings, DeliverPolicy, DiscardPolicy, RetentionPolicy, StorageType,
    DEFAULT_ACK_WAIT, VIEW_PROJECTOR_ID_METADATA_KEY, VIEW_PROJECTOR_VERSION_METADATA_KEY,
};
use esrc::nats::NatsStoreOptions;

const SECOND: u64 = 1_000_000_000;
const MILLI: u64 = 1_000_000;

fn metadata_value<'a>(m: &'a [(String, String)], key: &str) -> Option<&'a String> {
    m.iter().find(|(k, _)| k == key).map(|(_, v)| v)
}

#[test]
fn view_consumers_are_single_flight_and_retry_without_skipping() {
    let ack_wait = 7 * SECOND;
    let mut base = ConsumerSettings::default();
    base.ack_policy = AckPolicy::NoAck;
    base.ack_wait = ack_wait;
    base.max_ack_pending = 99;
    base.max_deliver = 3;
    base.deliver_policy = DeliverPolicy::New;
    let config = view_consumer_config(
        base,
        "view-name".to_owned(),
        vec!["events.a.*".to_owned(), "events.b.*".to_owned()],
        &ViewProjectorIdentity::new("orders-summary", 1),
    );

    assert_eq!(config.durable_name.as_deref(), Some("view-name"));
    assert_eq!(config.filter_subjects, ["events.a.*", "events.b.*"]);
    assert_eq!(config.deliver_policy, DeliverPolicy::New);
    assert_eq!(config.ack_policy, AckPolicy::Explicit);
    assert_eq!(config.ack_wait, ack_wait);
    assert_eq!(config.max_ack_pending, 1);
    assert_eq!(config.max_deliver, -1);
    assert_eq!(
        metadata_value(&config.metadata, VIEW_PROJECTOR_ID_METADATA_KEY),
        Some(&"orders-summary".to_owned())
    );
    assert_eq!(
        metadata_value(&config.metadata, VIEW_PROJECTOR_VERSION_METADATA_KEY),
        Some(&"1".to_owned())
    );
}

#[test]
fn view_consumers_make_the_server_ack_wait_default_explicit() {
    let config = view_consumer_config(
        ConsumerSettings::default(),
        "view-name".to_owned(),
        vec!["events.a.*".to_owned()],
        &ViewProjectorIdentity::new("orders-summary", 1),
    );

    assert_eq!(config.ack_wait, DEFAULT_ACK_WAIT);
}

#[test]
fn view_progress_uses_the_first_backoff_as_the_effective_ack_wait() {
    let first_backoff = 250 * MILLI;
    let mut config = ConsumerSettings::default();
    config.ack_wait = 30 * SECOND;
    config.backoff = vec![first_backoff, SECOND];

    assert_eq!(
        effective_ack_wait(config.ack_wait, &config.backoff),
        first_backoff
    );
}

fn with_filters_and_metadata(filters: Vec<String>, metadata: Vec<(String, String)>) -> ConsumerSettings {
    let mut c = ConsumerSettings::default();
    c.filter_subjects = filters;
    c.metadata = metadata;
    c
}

#[test]
fn view_identity_validation_rejects_id_version_metadata_and_filter_conflicts() {
    let identity = ViewProjectorIdentity::new("orders-summary", 2);
    let expected = view_consumer_config(
        ConsumerSettings::default(),
        "view-name".to_owned(),
        vec!["events.a.*".to_owned()],
        &identity,
    );
    let mut id_conflict =
        with_filters_and_metadata(expected.filter_subjects.clone(), expected.metadata.clone());
    insert_metadata(
        &mut id_conflict.metadata,
        VIEW_PROJECTOR_ID_METADATA_KEY.to_owned(),
        "other-summary".to_owned(),
    );
    assert!(validate_view_consumer("view-name", &id_conflict, &expected, &identity).is_err());

    let mut version_conflict =
        with_filters_and_metadata(expected.filter_subjects.clone(), expected.metadata.clone());
    insert_metadata(
        &mut version_conflict.metadata,
        VIEW_PROJECTOR_VERSION_METADATA_KEY.to_owned(),
        "3".to_owned(),
    );
    assert!(
        validate_view_consumer("view-name", &version_conflict, &expected, &identity).is_err()
    );

    let missing_metadata = with_filters_and_metadata(expected.filter_subjects.clone(), vec![]);
    assert!(
        validate_view_consumer("view-name", &missing_metadata, &expected, &identity).is_err()
    );

    let different_filters =
        with_filters_and_metadata(vec!["events.b.*".to_owned()], expected.metadata.clone());
    assert!(
        validate_view_consumer("view-name", &different_filters, &expected, &identity).is_err()
    );

    let matching =
        with_filters_and_metadata(expected.filter_subjects.clone(), expected.metadata.clone());
    assert!(validate_view_consumer("view-name", &matching, &expected, &identity).is_ok());
}

#[test]
fn identity_mismatches_name_the_recorded_identity() {
    let identity = ViewProjectorIdentity::new("orders-summary", 2);
    let expected = view_consumer_config(
        ConsumerSettings::default(),
        "view-name".to_owned(),
        vec!["events.a.*".to_owned()],
        &identity,
    );
    let mut other = expected.clone();
    insert_metadata(
        &mut other.metadata,
        VIEW_PROJECTOR_ID_METADATA_KEY.to_owned(),
        "other-summary".to_owned(),
    );
    let err = validate_view_consumer("view-name", &other, &expected, &identity).unwrap_err();
    assert_eq!(err.durable(), "view-name");
    assert_eq!(err.expected(), "orders-summary@2");
    assert_eq!(err.actual(), "other-summary@2");
    assert_eq!(
        err.message(),
        "NATS view consumer `view-name` is assigned to projector `other-summary@2`, not `orders-summary@2`"
    );

    let missing = with_filters_and_metadata(expected.filter_subjects.clone(), vec![]);
    let err = validate_view_consumer("view-name", &missing, &expected, &identity).unwrap_err();
    assert_eq!(err.actual(), "<missing stable projector identity>");

    let filters = with_filters_and_metadata(vec!["events.b.*".to_owned()], expected.metadata.clone());
    let err = validate_view_consumer("view-name", &filters, &expected, &identity).unwrap_err();
    assert_eq!(err.actual(), "orders-summary@2 with different filters");
}

#[test]
fn filter_comparison_ignores_order_and_counts_the_single_filter() {
    let identity = ViewProjectorIdentity::new("v", 1);
    let expected = view_consumer_config(
        ConsumerSettings::default(),
        "d".to_owned(),
        vec!["x.b.*".to_owned(), "x.a.*".to_owned()],
        &identity,
    );
    let mut reordered = with_filters_and_metadata(vec!["x.a.*".to_owned()], expected.metadata.clone());
    reordered.filter_subject = "x.b.*".to_owned();
    assert_eq!(normalized_filters(&reordered), vec!["x.a.*", "x.b.*"]);
    assert!(validate_view_consumer("d", &reordered, &expected, &identity).is_ok());
}

#[test]
fn metadata_insert_overwrites_in_place() {
    let mut m = vec![("a".to_owned(), "1".to_owned()), ("b".to_owned(), "2".to_owned())];
    insert_metadata(&mut m, "a".to_owned(), "3".to_owned());
    insert_metadata(&mut m, "c".to_owned(), "4".to_owned());
    assert_eq!(
        m,
        vec![
            ("a".to_owned(), "3".to_owned()),
            ("b".to_owned(), "2".to_owned()),
            ("c".to_owned(), "4".to_owned())
        ]
    );
}

#[test]
fn durable_consumers_keep_their_other_settings() {
    let mut base = default_durable_consumer_config();
    base.max_ack_pending = 5;
    let c = durable_consumer_config(base, "orders".to_owned(), vec!["p.a.*".to_owned()]);
    assert_eq!(c.durable_name.as_deref(), Some("orders"));
    assert_eq!(c.filter_subjects, ["p.a.*"]);
    assert_eq!(c.deliver_policy, DeliverPolicy::New);
    assert_eq!(c.max_ack_pending, 5);
}

#[test]
fn progress_is_reported_three_times_per_ack_wait_and_at_most_every_millisecond() {
    assert_eq!(progress_interval(30 * SECOND), 10 * SECOND);
    assert_eq!(progress_interval(2 * MILLI), MILLI);
    assert_eq!(progress_interval(0), MILLI);
    assert_eq!(effective_ack_wait(30 * SECOND, &vec![]), 30 * SECOND);
}

#[test]
fn ordered_replays_start_at_the_first_sequence_after_the_given_one() {
    assert_eq!(ordered_deliver_policy(0), DeliverPolicy::All);
    assert_eq!(
        ordered_deliver_policy(5),
        DeliverPolicy::ByStartSequence { start_sequence: 5 }
    );
}

#[test]
fn writer_and_mirror_streams_request_the_configured_replicas() {
    let w = writer_stream_config("EVENTS", NatsStoreOptions::replicated());
    assert_eq!(w.name, "EVENTS");
    assert_eq!(w.subjects, ["EVENTS.>"]);
    assert_eq!(w.discard, DiscardPolicy::New);
    assert_eq!(w.retention, RetentionPolicy::Limits);
    assert_eq!(w.storage, StorageType::File);
    assert_eq!(w.num_replicas, 3);
    assert!(w.mirror.is_none());

    let m = mirror_stream_config("EVENTS_READ".to_owned(), "EVENTS", NatsStoreOptions::default());
    assert_eq!(m.name, "EVENTS_READ");
    assert_eq!(m.mirror.as_deref(), Some("EVENTS"));
    assert!(m.subjects.is_empty());
    assert_eq!(m.num_replicas, 1);
}

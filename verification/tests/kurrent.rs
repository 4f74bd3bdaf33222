use esrc::envelope::Envelope;
use esrc::error::Error;
use esrc::event::Event;
use esrc::kurrent::convert::{KurrentError, KurrentErrorKind};
use esrc::kurrent::envelope::{KurrentEnvelope, KurrentEvent};
use esrc::kurrent::event::{
    acked_outcome, encoded_publish_metadata, publish_metadata, read_outcome, subscription_group, subscription_outcome,
};
use esrc::kurrent::header::get;
use esrc::kurrent::subject::KurrentSubject;
use esrc::version::DeserializeVersion;

const ID: &str = "67e55044-10b1-426f-9247-bb680e5fe0c8";

fn id() -> u128 {
    uuid::Uuid::parse_str(ID).unwrap().as_u128()
}

fn error(kind: KurrentErrorKind) -> KurrentError {
    KurrentError { kind, message: "boom".to_owned() }
}

struct Added(u64);

impl Event for Added {
    fn name() -> &'static str {
        "Counter"
    }
}

impl DeserializeVersion for Added {
    fn deserialize_version(payload: &[u8], _version: usize) -> Result<Self, String> {
        Ok(Added(payload.len() as u64))
    }
}

#[test]
fn stream_names_join_name_and_id_with_a_dash() {
    assert_eq!(KurrentSubject::Event("Counter".to_owned()).into_string(), "Counter");
    assert_eq!(
        KurrentSubject::Aggregate("Counter".to_owned(), id()).into_string(),
        format!("Counter-{ID}")
    );
}

#[test]
fn stream_names_read_back_as_their_subject() {
    match KurrentSubject::try_from_str("Counter") {
        Ok(KurrentSubject::Event(n)) => assert_eq!(n, "Counter"),
        _ => panic!("expected an event stream"),
    }
    for id in [id(), uuid::Uuid::nil().as_u128()] {
        let name = KurrentSubject::Aggregate("Counter".to_owned(), id).into_string();
        match KurrentSubject::try_from_str(&name) {
            Ok(KurrentSubject::Aggregate(n, parsed)) => {
                assert_eq!(n, "Counter");
                assert_eq!(parsed, id);
            },
            _ => panic!("expected an aggregate stream"),
        }
    }
    assert!(matches!(
        KurrentSubject::try_from_str("Counter-not-a-uuid"),
        Err(Error::Format(_))
    ));
}

#[test]
fn recorded_events_read_as_envelopes() {
    let event = KurrentEvent {
        stream_id: format!("Counter-{ID}"),
        custom_metadata: br#"{"Esrc-Version": "3", "tenant": "acme"}"#.to_vec(),
        commit: 99,
        created: 1_700_000_000,
        data: b"abc".to_vec(),
    };
    let env = KurrentEnvelope::try_from_message(event).unwrap();
    assert_eq!(env.id(), id());
    assert_eq!(u64::from(env.sequence()), 99);
    assert_eq!(env.timestamp(), 1_700_000_000);
    assert_eq!(env.name(), "Counter");
    assert_eq!(env.get_metadata("tenant"), Some("acme"));
    assert_eq!(env.deserialize::<Added>().unwrap().0, 3);

    let missing_version = KurrentEvent {
        stream_id: format!("Counter-{ID}"),
        custom_metadata: b"{}".to_vec(),
        commit: 1,
        created: 0,
        data: vec![],
    };
    assert!(matches!(
        KurrentEnvelope::try_from_message(missing_version),
        Err(Error::Invalid)
    ));
    let not_json = KurrentEvent {
        stream_id: format!("Counter-{ID}"),
        custom_metadata: b"[".to_vec(),
        commit: 1,
        created: 0,
        data: vec![],
    };
    assert!(matches!(
        KurrentEnvelope::try_from_message(not_json),
        Err(Error::Format(_))
    ));
    let event_stream = KurrentEvent {
        stream_id: "Counter".to_owned(),
        custom_metadata: b"{}".to_vec(),
        commit: 1,
        created: 0,
        data: vec![],
    };
    assert!(matches!(
        KurrentEnvelope::try_from_message(event_stream),
        Err(Error::Invalid)
    ));
}

#[test]
fn reserved_metadata_keys_override_caller_values() {
    let m = publish_metadata(
        Some(vec![
            ("Esrc-Version".to_owned(), "9".to_owned()),
            ("tenant".to_owned(), "acme".to_owned()),
        ]),
        2,
        "Added",
    );
    assert_eq!(get(&m, "Esrc-Version"), Some("2"));
    assert_eq!(get(&m, "Esrc-Event-Type"), Some("Added"));
    assert_eq!(get(&m, "tenant"), Some("acme"));
    assert_eq!(get(&m, "other"), None);
    let m = publish_metadata(None, 1, "Added");
    assert_eq!(m.len(), 2);
}

#[test]
fn published_metadata_reads_back_with_the_event() {
    let bytes = encoded_publish_metadata(
        Some(vec![("tenant".to_owned(), "acme".to_owned())]),
        4,
        "Added",
    );
    let stream_id = KurrentSubject::Aggregate("Counter".to_owned(), id()).into_string();
    let event = KurrentEvent {
        stream_id,
        custom_metadata: bytes,
        commit: 7,
        created: 12,
        data: b"xy".to_vec(),
    };
    let env = KurrentEnvelope::try_from_message(event).unwrap();
    assert_eq!(env.id(), id());
    assert_eq!(env.name(), "Counter");
    assert_eq!(env.get_metadata("tenant"), Some("acme"));
    assert_eq!(env.get_metadata("Esrc-Event-Type"), Some("Added"));
    assert_eq!(env.get_metadata("Esrc-Version"), Some("4"));
    assert_eq!(env.deserialize::<Added>().unwrap().0, 2);

    let bytes = encoded_publish_metadata(None, 1, "Added");
    let text = String::from_utf8(bytes).unwrap();
    assert!(text.contains("\"Esrc-Version\":\"1\""));
    assert!(text.contains("\"Esrc-Event-Type\":\"Added\""));
}

#[test]
fn kurrent_errors_map_to_store_errors() {
    assert!(matches!(
        Error::from(error(KurrentErrorKind::WrongExpectedVersion)),
        Error::Conflict
    ));
    match Error::from(error(KurrentErrorKind::Other)) {
        Error::Internal(m) => assert_eq!(m, "boom"),
        _ => panic!("expected an internal error"),
    }
    assert!(read_outcome::<u8>(Ok(None)).is_none());
    assert!(read_outcome::<u8>(Err(error(KurrentErrorKind::ResourceNotFound))).is_none());
    assert!(matches!(read_outcome(Ok(Some(3u8))), Some(Ok(3))));
    assert!(matches!(
        read_outcome::<u8>(Err(error(KurrentErrorKind::Other))),
        Some(Err(Error::Internal(_)))
    ));
    assert!(subscription_outcome(Err(error(KurrentErrorKind::ResourceAlreadyExists))).is_ok());
    assert!(subscription_outcome(Err(error(KurrentErrorKind::ResourceNotFound))).is_err());
    assert!(matches!(acked_outcome(Ok(Ok(1u8))), Ok(1)));
    assert!(matches!(
        acked_outcome::<u8>(Ok(Err(error(KurrentErrorKind::WrongExpectedVersion)))),
        Err(Error::Conflict)
    ));
}

#[test]
fn subscriptions_sort_their_names() {
    let (topic, prefixes) = subscription_group(&vec!["b", "a"]);
    assert_eq!(topic, "a-b");
    assert_eq!(prefixes, ["a", "b"]);
}

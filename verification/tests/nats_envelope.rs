use esrc::envelope::Envelope;
use esrc::error::Error;
use esrc::event::Event;
use esrc::nats::envelope::{MessageInfo, NatsEnvelope, NatsMessage};
use esrc::version::DeserializeVersion;

const ID: &str = "67e55044-10b1-426f-9247-bb680e5fe0c8";

#[derive(Debug, PartialEq)]
struct Added(u64);

impl Event for Added {
    fn name() -> &'static str {
        "Counter"
    }
}

impl DeserializeVersion for Added {
    fn deserialize_version(payload: &[u8], version: usize) -> Result<Self, String> {
        if version != 1 {
            return Err(format!("unknown version {version}"));
        }
        std::str::from_utf8(payload)
            .ok()
            .and_then(|s| s.parse().ok())
            .map(Added)
            .ok_or_else(|| "not a number".to_owned())
    }
}

struct Other;

impl Event for Other {
    fn name() -> &'static str {
        "Other"
    }
}

impl DeserializeVersion for Other {
    fn deserialize_version(_: &[u8], _: usize) -> Result<Self, String> {
        Ok(Other)
    }
}

fn message(subject: &str, version: Option<&str>, payload: &[u8]) -> NatsMessage {
    let mut headers = vec![("xn-tenant".to_owned(), vec!["acme".to_owned()])];
    if let Some(v) = version {
        headers.push(("Esrc-Version".to_owned(), vec![v.to_owned()]));
    }
    NatsMessage {
        subject: subject.to_owned(),
        headers,
        payload: payload.to_vec(),
    }
}

fn info() -> Result<MessageInfo, String> {
    Ok(MessageInfo {
        stream_sequence: 12,
        published: 1_700_000_000,
    })
}

#[test]
fn messages_read_as_envelopes() {
    let env = NatsEnvelope::try_from_message(
        "EVENTS",
        message(&format!("EVENTS.Counter.{ID}"), Some("1"), b"7"),
        info(),
    )
    .unwrap();
    assert_eq!(env.id(), uuid::Uuid::parse_str(ID).unwrap().as_u128());
    assert_eq!(u64::from(env.sequence()), 12);
    assert_eq!(env.timestamp(), 1_700_000_000);
    assert_eq!(env.name(), "Counter");
    assert_eq!(env.get_metadata("tenant"), Some("acme"));
    assert_eq!(env.get_metadata("missing"), None);
    assert_eq!(env.deserialize::<Added>().unwrap(), Added(7));
    assert!(matches!(env.deserialize::<Other>(), Err(Error::Invalid)));
}

#[test]
fn malformed_messages_are_refused() {
    let subject = format!("EVENTS.Counter.{ID}");
    assert!(matches!(
        NatsEnvelope::try_from_message("EVENTS", message(&subject, None, b"7"), info()),
        Err(Error::Invalid)
    ));
    match NatsEnvelope::try_from_message("EVENTS", message(&subject, Some("x"), b"7"), info()) {
        Err(Error::Format(m)) => assert_eq!(m, "invalid digit found in string"),
        _ => panic!("expected a format error"),
    }
    assert!(matches!(
        NatsEnvelope::try_from_message("EVENTS", message("EVENTS.Counter", Some("1"), b"7"), info()),
        Err(Error::Invalid)
    ));
    match NatsEnvelope::try_from_message("EVENTS", message(&subject, Some("1"), b"7"), Err("no info".to_owned())) {
        Err(Error::Internal(m)) => assert_eq!(m, "no info"),
        _ => panic!("expected an internal error"),
    }
    let env = NatsEnvelope::try_from_stream_message("EVENTS", message(&subject, Some("2"), b"7"), 3, 5).unwrap();
    match env.deserialize::<Added>() {
        Err(Error::Format(m)) => assert_eq!(m, "unknown version 2"),
        _ => panic!("expected a format error"),
    }
}

fn grouped(pairs: Vec<(String, String)>) -> Vec<(String, Vec<String>)> {
    let mut h: Vec<(String, Vec<String>)> = vec![];
    for (k, v) in pairs {
        match h.iter_mut().find(|(name, _)| *name == k) {
            Some((_, values)) => values.push(v),
            None => h.push((k, vec![v])),
        }
    }
    h
}

#[test]
fn a_published_event_reads_back_as_itself() {
    let metadata = vec![
        ("tenant".to_owned(), "acme".to_owned()),
        ("trace".to_owned(), "t-1".to_owned()),
    ];
    let headers = esrc::nats::header::publish_headers(1, Some(11), "Added", Some(&metadata));
    let subject = esrc::nats::subject::NatsSubject::Aggregate(
        "Counter".to_owned(),
        uuid::Uuid::parse_str(ID).unwrap().as_u128(),
    )
    .into_string("EVENTS");
    let env = NatsEnvelope::try_from_message(
        "EVENTS",
        NatsMessage { subject, headers: grouped(headers), payload: b"41".to_vec() },
        info(),
    )
    .unwrap();
    assert_eq!(env.name(), "Counter");
    assert_eq!(env.get_metadata("tenant"), Some("acme"));
    assert_eq!(env.get_metadata("trace"), Some("t-1"));
    assert_eq!(env.get_metadata("Esrc-Version"), None);
    assert_eq!(env.deserialize::<Added>().unwrap(), Added(41));
}

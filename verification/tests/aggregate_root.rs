use esrc::aggregate::{Aggregate, Root};
use esrc::error::Error;
use esrc::event::{Event, Sequence};
use esrc::nats::envelope::{MessageInfo, NatsEnvelope, NatsMessage};
use esrc::version::DeserializeVersion;

struct Added(u64);

impl Event for Added {
    fn name() -> &'static str {
        "Added"
    }
}

#[derive(Default)]
struct Counter(u64);

enum CounterCommand {
    Add(u64),
}

impl Aggregate for Counter {
    type Command = CounterCommand;
    type Event = Added;
    type Error = ();

    fn process(&self, command: Self::Command) -> Result<Self::Event, Self::Error> {
        match command {
            CounterCommand::Add(n) => Ok(Added(n)),
        }
    }

    fn apply(mut self, event: &Self::Event) -> Self {
        self.0 += event.0;
        self
    }
}

#[test]
fn write_returns_the_acknowledged_sequence() {
    let root = Root::<Counter>::new(uuid::Uuid::nil().as_u128());
    let id = Root::id(&root);
    let event = Added(7);
    let aggregate = Root::into_inner(root).apply(&event);
    let written = Root::with_aggregate(aggregate, id, Sequence::from(42));
    assert_eq!(u64::from(Root::last_sequence(&written)), 42);
    assert_eq!(written.0, 7);
}


#[test]
fn writes_publish_against_the_root_and_apply_the_event() {
    let root = Root::with_aggregate(Counter(2), 9, Sequence::from(5));
    let (aggregate, id, last_sequence) = Root::apply_for_write(root, &Added(3));
    assert_eq!(aggregate.0, 5);
    assert_eq!(id, 9);
    assert_eq!(u64::from(last_sequence), 5);
    let written = Root::with_aggregate(aggregate, id, Sequence::from(6));
    assert_eq!(u64::from(Root::last_sequence(&written)), 6);
    assert_eq!(Root::id(&written), 9);
}

struct Sum(u64);

impl Event for Sum {
    fn name() -> &'static str {
        "Counter"
    }
}

impl DeserializeVersion for Sum {
    fn deserialize_version(payload: &[u8], _version: usize) -> Result<Self, String> {
        std::str::from_utf8(payload)
            .ok()
            .and_then(|s| s.parse().ok())
            .map(Sum)
            .ok_or_else(|| "not a number".to_owned())
    }
}

#[derive(Default)]
struct Total(pub u64, pub Vec<u64>);

impl Aggregate for Total {
    type Command = ();
    type Event = Sum;
    type Error = ();

    fn process(&self, _command: ()) -> Result<Sum, ()> {
        Ok(Sum(1))
    }

    fn apply(mut self, event: &Sum) -> Self {
        self.0 += event.0;
        self.1.push(event.0);
        self
    }
}

const ID: &str = "67e55044-10b1-426f-9247-bb680e5fe0c8";

fn id() -> u128 {
    uuid::Uuid::parse_str(ID).unwrap().as_u128()
}

fn envelope(name: &str, sequence: u64, payload: &str) -> NatsEnvelope {
    NatsEnvelope::try_from_message(
        "EVENTS",
        NatsMessage {
            subject: format!("EVENTS.{name}.{ID}"),
            headers: vec![("Esrc-Version".to_owned(), vec!["1".to_owned()])],
            payload: payload.as_bytes().to_vec(),
        },
        Ok(MessageInfo { stream_sequence: sequence, published: 0 }),
    )
    .unwrap()
}

fn replayed(items: Vec<Result<NatsEnvelope, Error>>) -> Result<Root<Total>, Error> {
    Root::try_apply_all(Root::<Total>::new(id()), items)
}

#[test]
fn replaying_a_stream_applies_its_events_in_order() {
    let root = replayed(vec![
        Ok(envelope("Counter", 2, "5")),
        Ok(envelope("Counter", 7, "3")),
    ])
    .unwrap();
    assert_eq!(u64::from(Root::last_sequence(&root)), 7);
    assert_eq!(root.0, 8);
    assert_eq!(root.1, vec![5, 3]);
}

#[test]
fn an_applied_envelope_is_refused_again() {
    let root = replayed(vec![Ok(envelope("Counter", 2, "5"))]).unwrap();
    assert!(matches!(
        Root::try_apply(root, envelope("Counter", 2, "5")),
        Err(Error::Invalid)
    ));
    assert!(matches!(
        replayed(vec![
            Ok(envelope("Counter", 4, "5")),
            Ok(envelope("Counter", 3, "1")),
        ]),
        Err(Error::Invalid)
    ));
}

#[test]
fn replay_stops_at_the_first_error() {
    assert!(matches!(
        replayed(vec![
            Ok(envelope("Counter", 1, "5")),
            Err(Error::Conflict),
            Ok(envelope("Counter", 2, "5")),
        ]),
        Err(Error::Conflict)
    ));
    assert!(matches!(
        replayed(vec![Ok(envelope("Other", 1, "5"))]),
        Err(Error::Invalid)
    ));
    match replayed(vec![Ok(envelope("Counter", 1, "x"))]) {
        Err(Error::Format(m)) => assert_eq!(m, "not a number"),
        _ => panic!("expected a format error"),
    }
}

use esrc::error::Error;
use esrc::nats::subject::NatsSubject;

const ID: &str = "67e55044-10b1-426f-9247-bb680e5fe0c8";

fn id() -> u128 {
    uuid::Uuid::parse_str(ID).unwrap().as_u128()
}

#[test]
fn subjects_are_written_under_the_prefix() {
    assert_eq!(NatsSubject::Wildcard.into_string("EVENTS"), "EVENTS.>");
    assert_eq!(
        NatsSubject::Event("Counter".to_owned()).into_string("EVENTS"),
        "EVENTS.Counter.*"
    );
    assert_eq!(
        NatsSubject::Aggregate("Counter".to_owned(), id()).into_string("EVENTS"),
        format!("EVENTS.Counter.{ID}")
    );
}

#[test]
fn aggregate_subjects_read_back_as_themselves() {
    let text = NatsSubject::Aggregate("Counter".to_owned(), id()).into_string("EVENTS");
    match NatsSubject::try_from_str("EVENTS", &text) {
        Ok(NatsSubject::Aggregate(name, parsed)) => {
            assert_eq!(name, "Counter");
            assert_eq!(parsed, id());
        },
        _ => panic!("expected an aggregate subject"),
    }
}

#[test]
fn subjects_read_by_their_pieces() {
    assert!(matches!(
        NatsSubject::try_from_str("EVENTS", "EVENTS"),
        Ok(NatsSubject::Wildcard)
    ));
    match NatsSubject::try_from_str("EVENTS", "EVENTS.Counter") {
        Ok(NatsSubject::Event(name)) => assert_eq!(name, "Counter"),
        _ => panic!("expected an event subject"),
    }
    assert!(matches!(
        NatsSubject::try_from_str("EVENTS", "OTHER.Counter"),
        Err(Error::Invalid)
    ));
    assert!(matches!(
        NatsSubject::try_from_str("EVENTS", "EVENTS.Counter.not-a-uuid"),
        Err(Error::Format(_))
    ));
}

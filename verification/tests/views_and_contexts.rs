use esrc::envelope::Envelope;
use esrc::event::Event;
use esrc::nats::envelope::{MessageInfo, NatsEnvelope, NatsMessage};
use esrc::project::Context;
use esrc::query::in_memory::InMemoryViewStore;
use esrc::version::DeserializeVersion;

const ID: &str = "67e55044-10b1-426f-9247-bb680e5fe0c8";

#[derive(Debug, PartialEq)]
struct Added(u64);

impl Event for Added {
    fn name() -> &'static str {
        "Counter"
    }
}

impl DeserializeVersion for Added {
    fn deserialize_version(payload: &[u8], _version: usize) -> Result<Self, String> {
        Ok(Added(payload.len() as u64))
    }
}

#[test]
fn stores_keep_one_model_per_id() {
    let mut store: InMemoryViewStore<String> = InMemoryViewStore::new();
    assert!(store.is_empty());
    store.upsert(1, "a".to_owned());
    store.upsert(2, "b".to_owned());
    store.upsert(1, "c".to_owned());
    assert_eq!(store.len(), 2);
    assert_eq!(store.get(&1), Some("c".to_owned()));
    let mut all = store.all();
    all.sort();
    assert_eq!(all, vec!["b".to_owned(), "c".to_owned()]);
    assert_eq!(store.remove(&2), Some("b".to_owned()));
    assert_eq!(store.remove(&2), None);
    assert_eq!(store.get(&2), None);
    assert_eq!(store.snapshot().len(), 1);
}

#[test]
fn contexts_expose_their_envelope_and_event() {
    let env = NatsEnvelope::try_from_message(
        "EVENTS",
        NatsMessage {
            subject: format!("EVENTS.Counter.{ID}"),
            headers: vec![
                ("Esrc-Version".to_owned(), vec!["1".to_owned()]),
                ("xn-k".to_owned(), vec!["v".to_owned()]),
            ],
            payload: b"xy".to_vec(),
        },
        Ok(MessageInfo { stream_sequence: 4, published: 9 }),
    )
    .unwrap();
    let context = Context::<NatsEnvelope, Added>::try_with_envelope(&env).unwrap();
    assert_eq!(Context::id(&context), env.id());
    assert_eq!(u64::from(Context::sequence(&context)), 4);
    assert_eq!(Context::timestamp(&context), 9);
    assert_eq!(Context::get_metadata(&context, "k"), Some("v"));
    assert_eq!(*context, Added(2));
    assert_eq!(Context::into_inner(context), Added(2));
}

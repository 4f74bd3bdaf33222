use esrc::nats::header::{event_message_id, get, publish_headers, Headers};

#[test]
fn event_message_id_is_stable_across_metadata_insertion_order() {
    let first = vec![
        ("zeta".to_owned(), "last".to_owned()),
        ("alpha".to_owned(), "first".to_owned()),
    ];
    let second = vec![
        ("alpha".to_owned(), "first".to_owned()),
        ("zeta".to_owned(), "last".to_owned()),
    ];

    let first_id = event_message_id("EVENTS.Counter.id", 4, 1, "Added", b"7", Some(&first));
    let second_id = event_message_id("EVENTS.Counter.id", 4, 1, "Added", b"7", Some(&second));

    assert_eq!(first_id, second_id);
}

#[test]
fn event_message_id_changes_with_event_or_position() {
    let baseline = event_message_id("EVENTS.Counter.id", 4, 1, "Added", b"7", None);
    let different_payload = event_message_id("EVENTS.Counter.id", 4, 1, "Added", b"8", None);
    let different_position = event_message_id("EVENTS.Counter.id", 5, 1, "Added", b"7", None);

    assert_ne!(baseline, different_payload);
    assert_ne!(baseline, different_position);
}

#[test]
fn event_message_id_is_a_versioned_sha256_hex_digest() {
    let id = event_message_id("EVENTS.Counter.id", 4, 1, "Added", b"7", None);
    assert_eq!(id.len(), 72);
    assert!(id.starts_with("esrc-v1-"));
    assert!(id["esrc-v1-".len()..]
        .chars()
        .all(|c| c.is_ascii_hexdigit() && !c.is_ascii_uppercase()));
    let empty_metadata: Vec<(String, String)> = vec![];
    assert_eq!(
        id,
        event_message_id("EVENTS.Counter.id", 4, 1, "Added", b"7", Some(&empty_metadata))
    );
}

#[test]
fn publish_headers_reserve_their_keys_and_prefix_metadata() {
    let metadata = vec![("tenant".to_owned(), "acme".to_owned())];
    let h = publish_headers(2, Some(9), "Added", Some(&metadata));
    assert_eq!(
        h,
        vec![
            ("Esrc-Version".to_owned(), "2".to_owned()),
            ("Nats-Expected-Last-Subject-Sequence".to_owned(), "9".to_owned()),
            ("Esrc-Event-Type".to_owned(), "Added".to_owned()),
            ("xn-tenant".to_owned(), "acme".to_owned()),
        ]
    );
    let h = publish_headers(1, None, "Added", None);
    assert_eq!(
        h,
        vec![
            ("Esrc-Version".to_owned(), "1".to_owned()),
            ("Esrc-Event-Type".to_owned(), "Added".to_owned()),
        ]
    );
}

#[test]
fn header_lookup_returns_the_first_value() {
    let h: Headers = vec![
        ("A".to_owned(), vec![]),
        ("B".to_owned(), vec!["1".to_owned(), "2".to_owned()]),
    ];
    assert_eq!(get(&h, "B").map(String::as_str), Some("1"));
    assert_eq!(get(&h, "A"), None);
    assert_eq!(get(&h, "C"), None);
}

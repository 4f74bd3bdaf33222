use esrc::envelope::Envelope;
use esrc::error::Error;
use esrc::event::Sequence;
use esrc::nats::envelope::NatsMessage;
use esrc::nats::event::{
    captured_last_sequence, event_subjects, group_subjects, replay_start_sequence, LastMessage,
    RawMessage, RawReplay,
};

const ID: &str = "67e55044-10b1-426f-9247-bb680e5fe0c8";

fn raw(sequence: u64) -> RawMessage {
    RawMessage {
        message: NatsMessage {
            subject: format!("EVENTS.Counter.{ID}"),
            headers: vec![("Esrc-Version".to_owned(), vec!["1".to_owned()])],
            payload: b"1".to_vec(),
        },
        sequence,
        published: 10,
    }
}

#[test]
fn replays_start_after_the_given_sequence() {
    assert_eq!(replay_start_sequence(Sequence::new()).unwrap(), 1);
    assert_eq!(replay_start_sequence(Sequence::from(41)).unwrap(), 42);
    assert!(matches!(
        replay_start_sequence(Sequence::from(u64::MAX)),
        Err(Error::Invalid)
    ));
}

#[test]
fn group_subscriptions_sort_their_names() {
    let (topic, subjects) = group_subjects("EVENTS", &vec!["b", "a", "c"]);
    assert_eq!(topic, "a-b-c");
    assert_eq!(subjects, ["EVENTS.a.*", "EVENTS.b.*", "EVENTS.c.*"]);
    assert_eq!(event_subjects("EVENTS", &vec!["b", "a"]), ["EVENTS.b.*", "EVENTS.a.*"]);
}

#[test]
fn the_last_sequence_is_captured_only_at_or_after_the_start() {
    assert_eq!(captured_last_sequence(5, LastMessage::Found(9)).unwrap(), Some(9));
    assert_eq!(captured_last_sequence(5, LastMessage::Found(5)).unwrap(), Some(5));
    assert_eq!(captured_last_sequence(5, LastMessage::Found(4)).unwrap(), None);
    assert_eq!(captured_last_sequence(5, LastMessage::NoMessageFound).unwrap(), None);
    match captured_last_sequence(5, LastMessage::Failed("down".to_owned())) {
        Err(Error::Internal(m)) => assert_eq!(m, "down"),
        _ => panic!("expected an internal error"),
    }
}

#[test]
fn replay_one_is_ordered_exclusive_and_finite_across_sequence_gaps() {
    let mut state = RawReplay::new(3, Some(9));
    let mut seen = vec![];
    let mut fetched = vec![4, 7, 9].into_iter();
    while let Some(next) = state.next_request() {
        let s = fetched.next().unwrap();
        assert!(s >= next);
        match state.step("EVENTS", Ok(raw(s))).unwrap() {
            Some((env, after)) => {
                seen.push(u64::from(env.sequence()));
                state = after;
            },
            None => panic!("the replay ended early"),
        }
    }
    assert_eq!(seen, vec![4, 7, 9]);
    assert_eq!(state.next_request(), None);
}

#[test]
fn replays_with_nothing_to_read_are_finished() {
    let state = RawReplay::new(3, None);
    assert_eq!(state.next_request(), None);
    assert!(state.step("EVENTS", Ok(raw(3))).unwrap().is_none());
}

#[test]
fn messages_outside_the_captured_range_are_refused() {
    let state = RawReplay::new(3, Some(9));
    match state.step("EVENTS", Ok(raw(10))) {
        Err(Error::Internal(m)) => assert_eq!(
            m,
            "aggregate replay returned stream sequence 10 outside the captured range 3..=9"
        ),
        _ => panic!("expected an internal error"),
    }
    let state = RawReplay::new(3, Some(9));
    match state.step("EVENTS", Err("gone".to_owned())) {
        Err(Error::Internal(m)) => assert_eq!(m, "gone"),
        _ => panic!("expected an internal error"),
    }
}

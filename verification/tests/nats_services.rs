use esrc::error::Error;
use esrc::event_modeling::ComponentName;
use esrc::nats::command_service::{
    command_id, command_outcome, command_reply, command_subject, CommandFailure, CommandReply,
    ReplyError,
};
use esrc::nats::query_kv::kv_bucket_name;
use esrc::nats::query_service::{
    bad_request_error, get_by_id_outcome, get_by_id_reply, query_outcome, query_reply,
    query_request_subject, GetByIdReply, QueryReply, QueryReplyError,
};

const ID: &str = "67e55044-10b1-426f-9247-bb680e5fe0c8";

fn id() -> u128 {
    uuid::Uuid::parse_str(ID).unwrap().as_u128()
}

fn internal<E>(r: CommandReply<E>) -> String {
    match r.error {
        Some(ReplyError::Internal(m)) => m,
        _ => panic!("expected an internal error"),
    }
}

#[test]
fn commands_are_addressed_by_event_name_and_id() {
    let subject = command_subject("Counter", id());
    assert_eq!(subject, format!("Counter.{ID}"));
    assert_eq!(command_id(&subject), Some(id()));
    assert_eq!(command_id(&format!("svc.Counter.command.{ID}")), Some(id()));
    assert_eq!(command_id("Counter.not-an-id"), None);
    assert_eq!(command_id(""), None);
}

#[test]
fn command_replies_say_what_went_wrong() {
    assert!(command_reply::<String>(Ok(())).error.is_none());
    assert!(matches!(
        command_reply::<String>(Err(CommandFailure::Write(Error::Conflict))).error,
        Some(ReplyError::Conflict)
    ));
    match command_reply(Err(CommandFailure::Rejected("too big".to_owned()))).error {
        Some(ReplyError::External(e)) => assert_eq!(e, "too big"),
        _ => panic!("expected the aggregate's error"),
    }
    assert_eq!(
        internal(command_reply::<()>(Err(CommandFailure::InvalidSubject("x".to_owned())))),
        "invalid subject format: bad envelope format (invalid subject format: expected '<event_name>.<id>', got 'x')"
    );
    assert_eq!(
        internal(command_reply::<()>(Err(CommandFailure::BadCommand("eof".to_owned())))),
        "failed to deserialize command: eof"
    );
    assert_eq!(
        internal(command_reply::<()>(Err(CommandFailure::Load(Error::Invalid)))),
        "failed to load aggregate: internal error (failed to load aggregate: consumed invalid event in stream)"
    );
    assert_eq!(
        internal(command_reply::<()>(Err(CommandFailure::Write(Error::External("boom".to_owned()))))),
        "unexpected error type: boom"
    );
    assert_eq!(
        internal(command_reply::<()>(Err(CommandFailure::Write(Error::Internal("io".to_owned()))))),
        "failed to process command: internal error (io)"
    );
}

#[test]
fn command_clients_read_replies() {
    assert!(command_outcome::<()>(CommandReply { error: None }).is_ok());
    assert!(matches!(
        command_outcome::<()>(CommandReply { error: Some(ReplyError::Conflict) }),
        Err(ReplyError::Conflict)
    ));
}

#[test]
fn query_requests_go_to_the_component_subject() {
    let name = ComponentName::new("billing", "orders", "summary", "view");
    assert_eq!(
        query_request_subject(&name),
        format!("{}.query", name.query_subject())
    );
    assert_eq!(kv_bucket_name(&name), format!("rm_{}", name.durable_name()));
}

#[test]
fn query_replies_round_trip_through_clients() {
    let r: GetByIdReply<u32> = get_by_id_reply(Ok(Some(3)));
    assert_eq!(get_by_id_outcome(r).unwrap(), Some(3));
    let r: GetByIdReply<u32> = get_by_id_reply(Ok(None));
    assert_eq!(get_by_id_outcome(r).unwrap(), None);
    let r: GetByIdReply<u32> = get_by_id_reply(Err(Error::Conflict));
    match get_by_id_outcome(r) {
        Err(Error::Internal(m)) => assert_eq!(m, "event transaction failed"),
        _ => panic!("expected an internal error"),
    }

    let r: QueryReply<u32> = query_reply(Ok(5));
    assert_eq!(query_outcome(r).unwrap(), 5);
    let r: QueryReply<u32> = query_reply(Err(Error::Format("bad".to_owned())));
    match query_outcome(r) {
        Err(Error::Internal(m)) => assert_eq!(m, "bad envelope format (bad)"),
        _ => panic!("expected an internal error"),
    }
    let empty: QueryReply<u32> = QueryReply { result: None, error: None };
    match query_outcome(empty) {
        Err(Error::Internal(m)) => assert_eq!(m, "query reply contained no result and no error"),
        _ => panic!("expected an internal error"),
    }
    match bad_request_error("eof".to_owned()) {
        QueryReplyError::Internal(m) => assert_eq!(m, "failed to deserialize query request: eof"),
    }
}

#[test]
fn errors_display_their_kind() {
    assert_eq!(Error::Internal("a".to_owned()).message(), "internal error (a)");
    assert_eq!(Error::External("b".to_owned()).message(), "external error (b)");
    assert_eq!(Error::Format("c".to_owned()).message(), "bad envelope format (c)");
    assert_eq!(Error::Invalid.message(), "consumed invalid event in stream");
    assert_eq!(Error::Conflict.message(), "event transaction failed");
}

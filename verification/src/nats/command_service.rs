//! Commands over NATS request-reply: the request subjects, how a service
//! reads the aggregate ID of a request, and the replies it sends.
use vstd::prelude::*;

use crate::error::{error_message, Error, ErrorView};
use crate::ids::{parse_uuid, parse_view, uuid_parse, uuid_string, uuid_text};
use crate::text::{chars_of, push_str, split_chars, split_seq, string_of, lemma_split_nonempty};

verus! {

/// The error of a command reply.
#[derive(Debug)]
pub enum ReplyError<E> {
    /// An error occurred while handling the command, e.g. a transport error.
    Internal(String),
    /// An optimistic concurrency check failed while writing the event.
    Conflict,
    /// The aggregate rejected the command.
    External(E),
}

/// The reply to a command: no error on success.
#[derive(Debug)]
pub struct CommandReply<E> {
    pub error: Option<ReplyError<E>>,
}

/// `<event name>.<id>`: the subject a command for an aggregate is sent to.
pub open spec fn command_subject_of(event_name: Seq<char>, id: u128) -> Seq<char> {
    event_name + "."@ + uuid_text(id)
}

/// The subject a command for an aggregate is sent to.
pub fn command_subject(event_name: &str, id: u128) -> (r: String)
    ensures
        r@ == command_subject_of(event_name@, id),
{
    let mut s = event_name.to_owned();
    push_str(&mut s, ".");
    let t = uuid_string(id);
    push_str(&mut s, t.as_str());
    s
}

/// The aggregate ID of a command request: its subject's last dot-separated
/// piece, read as a UUID.
pub open spec fn command_id_of(subject: Seq<char>) -> Option<u128> {
    match uuid_parse(split_seq(subject, '.').last()) {
        Ok(id) => Some(id),
        Err(_) => None,
    }
}

/// The aggregate ID of a command request, read from its subject.
pub fn command_id(subject: &str) -> (r: Option<u128>)
    ensures
        r == command_id_of(subject@),
{
    let cs = chars_of(subject);
    let parts = split_chars(&cs, '.');
    proof {
        lemma_split_nonempty(subject@, '.');
    }
    let n = parts.len();
    let last = string_of(&parts[n - 1]);
    proof {
        assert(parts@[n - 1]@ == split_seq(subject@, '.').last());
    }
    match parse_uuid(last.as_str()) {
        Ok(id) => Some(id),
        Err(_) => None,
    }
}

/// Why handling a command did not succeed.
pub enum CommandFailure<E> {
    /// The subject does not end with an aggregate ID.
    InvalidSubject(String),
    /// The payload is not a command (with the parser's message).
    BadCommand(String),
    /// Loading the aggregate failed.
    Load(Error),
    /// The aggregate rejected the command.
    Rejected(E),
    /// Writing the event failed (an external error that is not the
    /// aggregate's own carries its message).
    Write(Error),
}

/// `invalid subject format: expected '<event_name>.<id>', got '<subject>'`.
pub open spec fn invalid_subject_message(subject: Seq<char>) -> Seq<char> {
    "invalid subject format: expected '<event_name>.<id>', got '"@ + subject + "'"@
}

/// The internal error message of a command reply for a failure other than a
/// rejection or a conflict.
pub open spec fn failure_message<E>(f: CommandFailure<E>) -> Seq<char> {
    match f {
        CommandFailure::InvalidSubject(s) => "invalid subject format: "@ + error_message(
            ErrorView::Format(invalid_subject_message(s@)),
        ),
        CommandFailure::BadCommand(m) => "failed to deserialize command: "@ + m@,
        CommandFailure::Load(e) => "failed to load aggregate: "@ + error_message(
            ErrorView::Internal("failed to load aggregate: "@ + error_message(e@)),
        ),
        CommandFailure::Write(Error::External(m)) => "unexpected error type: "@ + m@,
        CommandFailure::Write(e) => "failed to process command: "@ + error_message(e@),
        CommandFailure::Rejected(_) => Seq::empty(),
    }
}

fn prefixed_message(before: &str, m: String) -> (r: String)
    ensures
        r@ == before@ + m@,
{
    let mut s = before.to_owned();
    push_str(&mut s, m.as_str());
    s
}

/// The reply to a handled command: no error on success; a conflict when the
/// write lost an optimistic concurrency check; the aggregate's own error when
/// it rejected the command; else an internal error with the failure's message.
pub fn command_reply<E>(outcome: Result<(), CommandFailure<E>>) -> (r: CommandReply<E>)
    ensures
        match outcome {
            Ok(()) => r.error is None,
            Err(CommandFailure::Write(Error::Conflict)) => r.error matches Some(ReplyError::Conflict),
            Err(CommandFailure::Rejected(e)) => r.error == Some(ReplyError::<E>::External(e)),
            Err(f) => r.error matches Some(ReplyError::Internal(m)) && m@ == failure_message(f),
        },
{
    match outcome {
        Ok(()) => CommandReply { error: None },
        Err(CommandFailure::InvalidSubject(subject)) => {
            let mut inner = "invalid subject format: expected '<event_name>.<id>', got '".to_owned();
            push_str(&mut inner, subject.as_str());
            push_str(&mut inner, "'");
            let e = Error::Format(inner);
            CommandReply {
                error: Some(ReplyError::Internal(prefixed_message("invalid subject format: ", e.message()))),
            }
        },
        Err(CommandFailure::BadCommand(m)) => CommandReply {
            error: Some(ReplyError::Internal(prefixed_message("failed to deserialize command: ", m))),
        },
        Err(CommandFailure::Load(e)) => {
            let inner = Error::Internal(prefixed_message("failed to load aggregate: ", e.message()));
            CommandReply {
                error: Some(ReplyError::Internal(prefixed_message("failed to load aggregate: ", inner.message()))),
            }
        },
        Err(CommandFailure::Rejected(e)) => CommandReply { error: Some(ReplyError::External(e)) },
        Err(CommandFailure::Write(Error::Conflict)) => CommandReply { error: Some(ReplyError::Conflict) },
        Err(CommandFailure::Write(Error::External(m))) => CommandReply {
            error: Some(ReplyError::Internal(prefixed_message("unexpected error type: ", m))),
        },
        Err(CommandFailure::Write(e)) => CommandReply {
            error: Some(ReplyError::Internal(prefixed_message("failed to process command: ", e.message()))),
        },
    }
}

/// What a command client makes of a reply: success, or the reply's error.
pub fn command_outcome<E>(reply: CommandReply<E>) -> (r: Result<(), ReplyError<E>>)
    ensures
        match reply.error {
            None => r is Ok,
            Some(e) => r == Err::<(), ReplyError<E>>(e),
        },
{
    match reply.error {
        None => Ok(()),
        Some(e) => Err(e),
    }
}

} // verus!

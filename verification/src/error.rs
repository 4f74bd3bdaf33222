use vstd::prelude::*;

use crate::text::push_str;

verus! {

/// The common error type for event-sourcing related errors.
///
/// The message carried by `Internal`, `External` and `Format` is the rendered
/// description of the underlying cause.
#[derive(Debug)]
pub enum Error {
    /// An error that is not related to event logic or parsing (transport errors, etc).
    Internal(String),
    /// An error raised while performing a user-defined action (a command or a projection).
    External(String),
    /// An error raised while decoding an event or a value carried alongside it.
    Format(String),
    /// An event was decoded, but held unexpected data (wrong stream, missing version, ...).
    Invalid,
    /// An optimistic concurrency check failed.
    Conflict,
}

/// The mathematical value of an [`Error`]: its variant and message.
pub enum ErrorView {
    Internal(Seq<char>),
    External(Seq<char>),
    Format(Seq<char>),
    Invalid,
    Conflict,
}

impl View for Error {
    type V = ErrorView;

    open spec fn view(&self) -> ErrorView {
        match self {
            Error::Internal(m) => ErrorView::Internal(m@),
            Error::External(m) => ErrorView::External(m@),
            Error::Format(m) => ErrorView::Format(m@),
            Error::Invalid => ErrorView::Invalid,
            Error::Conflict => ErrorView::Conflict,
        }
    }
}

/// The message an error displays.
pub open spec fn error_message(e: ErrorView) -> Seq<char> {
    match e {
        ErrorView::Internal(m) => "internal error ("@ + m + ")"@,
        ErrorView::External(m) => "external error ("@ + m + ")"@,
        ErrorView::Format(m) => "bad envelope format ("@ + m + ")"@,
        ErrorView::Invalid => "consumed invalid event in stream"@,
        ErrorView::Conflict => "event transaction failed"@,
    }
}

fn wrapped(before: &str, m: &String) -> (r: String)
    ensures
        r@ == before@ + m@ + ")"@,
{
    let mut s = before.to_owned();
    push_str(&mut s, m.as_str());
    push_str(&mut s, ")");
    s
}

impl Error {
    /// The message this error displays.
    pub fn message(&self) -> (r: String)
        ensures
            r@ == error_message(self@),
    {
        match self {
            Error::Internal(m) => wrapped("internal error (", m),
            Error::External(m) => wrapped("external error (", m),
            Error::Format(m) => wrapped("bad envelope format (", m),
            Error::Invalid => "consumed invalid event in stream".to_owned(),
            Error::Conflict => "event transaction failed".to_owned(),
        }
    }
}

/// An alias type that always implies an event-sourcing error.
pub type Result<T> = core::result::Result<T, Error>;

} // verus!

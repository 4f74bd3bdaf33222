//! KurrentDB errors, as the store tells them apart.
use vstd::prelude::*;

use crate::error::{Error, ErrorView};

verus! {

/// The kinds of KurrentDB errors that the store treats on their own.
#[derive(Clone, Copy, Debug, PartialEq, Eq, Structural)]
pub enum KurrentErrorKind {
    /// An append found another last version than the expected one.
    WrongExpectedVersion,
    /// The resource asked for does not exist.
    ResourceNotFound,
    /// The resource to create already exists.
    ResourceAlreadyExists,
    /// Any other failure.
    Other,
}

/// A KurrentDB error: its kind and the message it displays.
#[derive(Debug)]
pub struct KurrentError {
    pub kind: KurrentErrorKind,
    pub message: String,
}

/// The error of the store for a KurrentDB error: a conflict for a wrong
/// expected version, else an internal error with its message.
pub open spec fn kurrent_error_view(e: KurrentError) -> ErrorView {
    match e.kind {
        KurrentErrorKind::WrongExpectedVersion => ErrorView::Conflict,
        _ => ErrorView::Internal(e.message@),
    }
}

impl From<KurrentError> for Error {
    fn from(value: KurrentError) -> (r: Error)
        ensures
            r@ == kurrent_error_view(value),
    {
        match value.kind {
            KurrentErrorKind::WrongExpectedVersion => Error::Conflict,
            _ => Error::Internal(value.message),
        }
    }
}

impl vstd::std_specs::convert::FromSpecImpl<KurrentError> for Error {
    open spec fn obeys_from_spec() -> bool {
        true
    }

    open spec fn from_spec(v: KurrentError) -> Error {
        match v.kind {
            KurrentErrorKind::WrongExpectedVersion => Error::Conflict,
            _ => Error::Internal(v.message),
        }
    }
}

} // verus!

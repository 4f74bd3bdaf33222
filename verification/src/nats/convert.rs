//! JetStream publish errors, as the store tells them apart.
use vstd::prelude::*;

use crate::error::{Error, ErrorView};

verus! {

/// A JetStream publish error: whether the subject's last sequence was not
/// the expected one, and the message it displays.
#[derive(Debug)]
pub struct PublishFailure {
    pub wrong_last_sequence: bool,
    pub message: String,
}

/// The error of the store for a failed publish: a conflict when the
/// subject's last sequence was not the expected one, else an internal error.
pub open spec fn publish_failure_view(f: PublishFailure) -> ErrorView {
    if f.wrong_last_sequence {
        ErrorView::Conflict
    } else {
        ErrorView::Internal(f.message@)
    }
}

impl From<PublishFailure> for Error {
    fn from(value: PublishFailure) -> (r: Error)
        ensures
            r@ == publish_failure_view(value),
            value.wrong_last_sequence ==> r@ == ErrorView::Conflict,
            !value.wrong_last_sequence ==> r@ == ErrorView::Internal(value.message@),
    {
        if value.wrong_last_sequence {
            Error::Conflict
        } else {
            Error::Internal(value.message)
        }
    }
}

impl vstd::std_specs::convert::FromSpecImpl<PublishFailure> for Error {
    open spec fn obeys_from_spec() -> bool {
        true
    }

    open spec fn from_spec(v: PublishFailure) -> Error {
        if v.wrong_last_sequence {
            Error::Conflict
        } else {
            Error::Internal(v.message)
        }
    }
}

/// Optimistic concurrency: a failed publish is a conflict exactly when the
/// subject's last sequence was not the expected one (another writer appended
/// first); every other failure is an internal error that keeps its message.
/// The conversion that `?` uses gives the same error.
pub proof fn lemma_wrong_last_sequence_is_a_conflict(f: PublishFailure)
    ensures
        f.wrong_last_sequence <==> publish_failure_view(f) == ErrorView::Conflict,
        f.wrong_last_sequence <==> publish_failure_view(f) is Conflict,
        !f.wrong_last_sequence ==> publish_failure_view(f) == ErrorView::Internal(f.message@),
        <Error as vstd::std_specs::convert::FromSpec<PublishFailure>>::from_spec(f)@
            == publish_failure_view(f),
{
}

} // verus!

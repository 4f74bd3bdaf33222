//! Process events and perform side effects for events outside of an aggregate.
use vstd::prelude::*;

use crate::envelope::{Envelope, TryFromEnvelope};
use crate::error::Error;
use crate::event::{EventGroup, Sequence};

verus! {

/// A type-safe wrapper for the decoded contents of an [`Envelope`].
///
/// Once an event (group) has been decoded, placing it inside a Context allows
/// the value to be accessed as normal (with `Deref`), while also preventing
/// the envelope from being decoded again. A Context also provides accessors
/// for fields like the ID and timestamp of the envelope.
pub struct Context<'de, E, G> {
    envelope: &'de E,
    event_group: G,
}

impl<'de, E, G> Context<'de, E, G> {
    /// The envelope a context refers to.
    pub closed spec fn envelope_of(self) -> &'de E {
        self.envelope
    }

    /// The decoded event group of a context.
    pub closed spec fn event_group_of(self) -> G {
        self.event_group
    }
}

/// Decode an envelope into an event group with `G::try_from_envelope`.
pub fn decode_group<E: Envelope, G: TryFromEnvelope>(envelope: &E) -> (r: Result<G, Error>) {
    G::try_from_envelope(envelope)
}

/// `r` is what decoding `envelope` into `G` gives.
pub open spec fn decodes_group<E: Envelope, G: TryFromEnvelope>(envelope: &E, r: Result<G, Error>) -> bool {
    call_ensures(decode_group::<E, G>, (envelope,), r)
}

impl<'de, E: Envelope, G: EventGroup + TryFromEnvelope> Context<'de, E, G> {
    /// Try to convert the given envelope into an instance of an event group.
    ///
    /// This uses the [`TryFromEnvelope`] trait to perform the conversion: the
    /// context refers to `envelope` and holds the value that
    /// `G::try_from_envelope` gave, and an error is the one it gave.
    pub fn try_with_envelope(envelope: &'de E) -> (r: Result<Self, Error>)
        ensures
            match r {
                Ok(c) => c.envelope_of() == envelope && decodes_group::<E, G>(envelope, Ok(c.event_group_of())),
                Err(e) => decodes_group::<E, G>(envelope, Err(e)),
            },
    {
        let decode = decode_group::<E, G>;
        match decode(envelope) {
            Ok(event_group) => Ok(Context { envelope, event_group }),
            Err(e) => Err(e),
        }
    }
}

impl<'de, E: Envelope, G> Context<'de, E, G> {
    /// The ID of the referenced envelope (see [`Envelope::id`]).
    pub fn id(this: &Self) -> (r: u128)
        ensures
            r == this.envelope_of()@.id,
    {
        this.envelope.id()
    }

    /// The sequence of the referenced envelope (see [`Envelope::sequence`]).
    pub fn sequence(this: &Self) -> (r: Sequence)
        ensures
            r.0 == this.envelope_of()@.sequence,
    {
        this.envelope.sequence()
    }

    /// The timestamp of the referenced envelope (see [`Envelope::timestamp`]).
    pub fn timestamp(this: &Self) -> (r: i64)
        ensures
            r == this.envelope_of()@.timestamp,
    {
        this.envelope.timestamp()
    }

    /// Get a metadata value from the referenced envelope (see
    /// [`Envelope::get_metadata`]).
    pub fn get_metadata<'a>(this: &'a Self, key: &str) -> (r: Option<&'a str>)
        ensures
            match r {
                Some(v) => this.envelope_of()@.metadata.contains_key(key@)
                    && this.envelope_of()@.metadata[key@] == v@,
                None => !this.envelope_of()@.metadata.contains_key(key@),
            },
    {
        this.envelope.get_metadata(key)
    }

    /// Unwrap the inner event group, and drop the envelope reference.
    pub fn into_inner(this: Self) -> (r: G)
        ensures
            r == this.event_group_of(),
    {
        this.event_group
    }
}

impl<'de, E, G> core::ops::Deref for Context<'de, E, G> {
    type Target = G;

    fn deref(&self) -> (r: &G)
        ensures
            *r == self.event_group_of(),
    {
        &self.event_group
    }
}

} // verus!

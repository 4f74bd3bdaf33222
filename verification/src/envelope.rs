//! Generic event wrappers that can be decoded safely into Event types.
use vstd::prelude::*;

use crate::error::{Error, ErrorView};
use crate::event::{reports_name, Event, Sequence};
use crate::version::DeserializeVersion;

verus! {

/// `d` is a result that `E::deserialize_version` gives for the payload and version.
pub open spec fn decodes_payload<E: DeserializeVersion>(
    payload: Seq<u8>,
    version: usize,
    d: Result<E, String>,
) -> bool {
    exists|p: &[u8]| p@ == payload && #[trigger] call_ensures(E::deserialize_version, (p, version), d)
}

/// A decoding result, with an error message turned into a `Format` error.
pub open spec fn format_view<E>(d: Result<E, String>) -> Result<E, ErrorView> {
    match d {
        Ok(v) => Ok(v),
        Err(m) => Err(ErrorView::Format(m@)),
    }
}

/// `r` is what decoding the envelope into `E` gives: `Invalid` when the
/// envelope holds another event type (by the name that `E` reports), else what
/// `E::deserialize_version` gives for the payload at the stored version (its
/// error becomes a `Format` error).
pub open spec fn decoded_from<E: DeserializeVersion + Event>(
    env: EnvelopeView,
    r: Result<E, ErrorView>,
) -> bool {
    exists|n: &'static str|
        #[trigger] reports_name::<E>(n) && if n@ != env.name {
            r == Err::<E, ErrorView>(ErrorView::Invalid)
        } else {
            exists|d: Result<E, String>|
                #[trigger] decodes_payload::<E>(env.payload, env.version, d) && r == format_view(d)
        }
}

/// The view of a decoding result.
pub open spec fn decoded_view<E>(r: Result<E, Error>) -> Result<E, ErrorView> {
    match r {
        Ok(v) => Ok(v),
        Err(e) => Err(e@),
    }
}

/// The observable content of an envelope.
pub struct EnvelopeView {
    /// The ID of the event stream (the aggregate) the envelope belongs to.
    pub id: u128,
    /// The position of the event in its event stream.
    pub sequence: u64,
    /// The time the event was published, in seconds since the Unix epoch.
    pub timestamp: i64,
    /// The name of the event stream the event belongs to.
    pub name: Seq<char>,
    /// The encoded event.
    pub payload: Seq<u8>,
    /// The version stored alongside the encoded event.
    pub version: usize,
    /// The metadata stored alongside the event.
    pub metadata: Map<Seq<char>, Seq<char>>,
}

/// Data associated with a single event in a stream.
///
/// This data is held in a generic structure that can be decoded into a
/// specific event type. Only used when reading from an event store.
pub trait Envelope: View<V = EnvelopeView> + Sized {
    /// The ID of the event stream this envelope belongs to.
    fn id(&self) -> (r: u128)
        ensures
            r == self@.id,
    ;

    /// The position of this event in its event stream.
    fn sequence(&self) -> (r: Sequence)
        ensures
            r.0 == self@.sequence,
    ;

    /// The approximate time that the event was published, in seconds since
    /// the Unix epoch.
    fn timestamp(&self) -> (r: i64)
        ensures
            r == self@.timestamp,
    ;

    /// The name of the event stream this event belongs to.
    fn name(&self) -> (r: &str)
        ensures
            r@ == self@.name,
    ;

    /// Get a metadata value by key.
    fn get_metadata(&self, key: &str) -> (r: Option<&str>)
        ensures
            match r {
                Some(v) => self@.metadata.contains_key(key@) && self@.metadata[key@] == v@,
                None => !self@.metadata.contains_key(key@),
            },
    ;

    /// Decode the inner [`Event`] type from this envelope.
    fn deserialize<E: DeserializeVersion + Event>(&self) -> (r: Result<E, Error>)
        ensures
            decoded_from::<E>(self@, decoded_view(r)),
    ;
}

/// Attempt to decode an Envelope into the implementing type.
///
/// Every decodable [`Event`] implements it; union types holding several events
/// can implement it to form an event group.
pub trait TryFromEnvelope: Sized {
    /// Attempt to decode the content of an Envelope and convert it.
    fn try_from_envelope<V: Envelope>(envelope: &V) -> Result<Self, Error>;
}

impl<E: DeserializeVersion + Event> TryFromEnvelope for E {
    fn try_from_envelope<V: Envelope>(envelope: &V) -> (r: Result<Self, Error>)
        ensures
            decoded_from::<E>(envelope@, decoded_view(r)),
    {
        envelope.deserialize()
    }
}

} // verus!

//! KurrentDB events read as envelopes.
use vstd::prelude::*;

use crate::envelope::{decoded_from, decoded_view, decodes_payload, format_view, Envelope, EnvelopeView};
use crate::error::{Error, ErrorView};
use crate::event::{reports_name, Event, Sequence};
use crate::kurrent::header::VERSION_KEY;
use crate::kurrent::subject::{parse_kurrent_subject, KurrentSubject};
use crate::nats::config::{distinct_keys, meta_lookup, pairs_map};
use crate::nats::subject::SubjectView;
use crate::text::{
    decimal, int_failure_message, lemma_parse_decimal, pair_views, parse_unsigned, parse_usize,
    str_eq,
};
use crate::version::DeserializeVersion;

use std::collections::HashMap;

verus! {

/// The parts of a recorded KurrentDB event that the store reads.
pub struct KurrentEvent {
    /// The name of the stream the event was appended to.
    pub stream_id: String,
    /// The caller metadata, as JSON.
    pub custom_metadata: Vec<u8>,
    /// The commit position of the event.
    pub commit: u64,
    /// When the event was created, in seconds since the Unix epoch.
    pub created: i64,
    /// The encoded event.
    pub data: Vec<u8>,
}

/// An event read from KurrentDB.
///
/// Fields derived from the stream name and the metadata are parsed upon
/// creation and stored alongside the payload.
pub struct KurrentEnvelope {
    id: u128,
    sequence: u64,
    timestamp: i64,
    name: String,
    version: usize,
    payload: Vec<u8>,
    metadata: Vec<(String, String)>,
}

impl View for KurrentEnvelope {
    type V = EnvelopeView;

    closed spec fn view(&self) -> EnvelopeView {
        EnvelopeView {
            id: self.id,
            sequence: self.sequence,
            timestamp: self.timestamp,
            name: self.name@,
            payload: self.payload@,
            version: self.version,
            metadata: pairs_map(pair_views(self.metadata@)),
        }
    }
}

/// What `serde_json` reads from bytes as a map of strings to strings, or the
/// message of the parse error.
pub uninterp spec fn json_string_map(bytes: Seq<u8>) -> Result<Map<Seq<char>, Seq<char>>, Seq<char>>;

/// Parse bytes as a JSON object of strings (`serde_json::from_slice` into a
/// `HashMap<String, String>`), listing its entries.
///
/// The contract claims that the entries, each key once, are the map that
/// `json_string_map` names, or that its error is the named error.
#[verifier::external_body]
fn parse_string_map(bytes: &[u8]) -> (r: Result<Vec<(String, String)>, String>)
    ensures
        match r {
            Ok(v) => json_string_map(bytes@) == Ok::<Map<Seq<char>, Seq<char>>, Seq<char>>(
                pairs_map(pair_views(v@)),
            ),
            Err(e) => json_string_map(bytes@) == Err::<Map<Seq<char>, Seq<char>>, Seq<char>>(e@),
        },
{
    match serde_json::from_slice::<HashMap<String, String>>(bytes) {
        Ok(m) => Ok(m.into_iter().collect()),
        Err(e) => Err(e.to_string()),
    }
}

/// A successfully decoded map.
pub open spec fn decoded_map(m: Map<Seq<char>, Seq<char>>) -> Result<Map<Seq<char>, Seq<char>>, Seq<char>> {
    Ok(m)
}

/// Encode a metadata list as a JSON object of strings (`serde_json::to_vec`
/// of the `HashMap<String, String>` that the list collects into), or give the
/// message of the encoding error.
///
/// The contract claims that encoding succeeds (`serde_json` fails only on a
/// failing `Serialize` impl or a map with keys that are not strings, neither
/// of which a map of strings has), and that the bytes of a list whose keys
/// are distinct read back with `serde_json::from_slice` as the list's map, as
/// `json_string_map` names it. The order of the keys in the text depends on
/// the hash map and is not stated.
#[verifier::external_body]
pub(crate) fn encode_string_map(m: &Vec<(String, String)>) -> (r: Result<Vec<u8>, String>)
    ensures
        r is Ok,
        r matches Ok(b) ==> (distinct_keys(pair_views(m@)) ==> json_string_map(b@) == decoded_map(
            pairs_map(pair_views(m@)),
        )),
{
    match serde_json::to_vec(&m.iter().cloned().collect::<HashMap<String, String>>()) {
        Ok(b) => Ok(b),
        Err(e) => Err(e.to_string()),
    }
}

/// What reading a recorded event as an envelope gives: its stream must be the
/// stream of one aggregate (else `Invalid`, or the stream name's own error),
/// its metadata must be a JSON object of strings (else `Format`) holding a
/// version (else `Invalid`) that is an unsigned integer (else `Format`).
pub open spec fn envelope_from_event(
    stream_id: Seq<char>,
    custom_metadata: Seq<u8>,
    commit: u64,
    created: i64,
    data: Seq<u8>,
) -> Result<EnvelopeView, ErrorView> {
    match parse_kurrent_subject(stream_id) {
        Err(e) => Err(e),
        Ok(SubjectView::Aggregate(name, id)) => match json_string_map(custom_metadata) {
            Err(m) => Err(ErrorView::Format(m)),
            Ok(metadata) => if !metadata.contains_key(VERSION_KEY@) {
                Err(ErrorView::Invalid)
            } else {
                match parse_unsigned(metadata[VERSION_KEY@], usize::MAX as nat) {
                    Err(f) => Err(ErrorView::Format(int_failure_message(f))),
                    Ok(version) => Ok(
                        EnvelopeView {
                            id,
                            sequence: commit,
                            timestamp: created,
                            name,
                            payload: data,
                            version: version as usize,
                            metadata,
                        },
                    ),
                }
            },
        },
        Ok(_) => Err(ErrorView::Invalid),
    }
}

/// The view of an envelope result.
pub open spec fn kurrent_result_view(r: Result<KurrentEnvelope, Error>) -> Result<EnvelopeView, ErrorView> {
    match r {
        Ok(e) => Ok(e@),
        Err(e) => Err(e@),
    }
}

impl KurrentEnvelope {
    /// Read a recorded KurrentDB event as an envelope.
    ///
    /// This requires the event to be appended to a stream named
    /// `<name>-<uuid>`, and to have an `Esrc-Version` metadata entry, which is
    /// used as the event's version.
    pub fn try_from_message(message: KurrentEvent) -> (r: Result<KurrentEnvelope, Error>)
        ensures
            kurrent_result_view(r) == envelope_from_event(
                message.stream_id@,
                message.custom_metadata@,
                message.commit,
                message.created,
                message.data@,
            ),
    {
        let (name, id) = match KurrentSubject::try_from_str(message.stream_id.as_str()) {
            Err(e) => {
                return Err(e);
            },
            Ok(KurrentSubject::Aggregate(name, id)) => (name, id),
            Ok(_) => {
                return Err(Error::Invalid);
            },
        };
        let metadata = match parse_string_map(message.custom_metadata.as_slice()) {
            Ok(m) => m,
            Err(e) => {
                return Err(Error::Format(e));
            },
        };
        let version = match meta_lookup(&metadata, VERSION_KEY) {
            None => {
                return Err(Error::Invalid);
            },
            Some(text) => match parse_usize(text.as_str()) {
                Err(f) => {
                    return Err(Error::Format(f.message()));
                },
                Ok(v) => v,
            },
        };
        Ok(
            KurrentEnvelope {
                id,
                sequence: message.commit,
                timestamp: message.created,
                name,
                version,
                payload: message.data,
                metadata,
            },
        )
    }
}

impl Envelope for KurrentEnvelope {
    fn id(&self) -> (r: u128) {
        self.id
    }

    fn sequence(&self) -> (r: Sequence) {
        Sequence(self.sequence)
    }

    fn timestamp(&self) -> (r: i64) {
        self.timestamp
    }

    fn name(&self) -> (r: &str) {
        self.name.as_str()
    }

    fn get_metadata(&self, key: &str) -> (r: Option<&str>) {
        match meta_lookup(&self.metadata, key) {
            Some(v) => Some(v.as_str()),
            None => None,
        }
    }

    fn deserialize<E: DeserializeVersion + Event>(&self) -> (r: Result<E, Error>) {
        let n = E::name();
        proof {
            assert(reports_name::<E>(n));
        }
        if !str_eq(self.name.as_str(), n) {
            return Err(Error::Invalid);
        }
        let bytes = self.payload.as_slice();
        let d = E::deserialize_version(bytes, self.version);
        proof {
            assert(decodes_payload::<E>(self.payload@, self.version, d));
        }
        let r = match d {
            Ok(v) => Ok(v),
            Err(m) => Err(Error::Format(m)),
        };
        proof {
            assert(decoded_view(r) == format_view(d));
            assert(n@ == self@.name);
            assert(self@.payload == self.payload@ && self@.version == self.version);
            assert(exists|d2: Result<E, String>|
                #[trigger] decodes_payload::<E>(self@.payload, self@.version, d2) && decoded_view(r)
                    == format_view(d2));
            assert(reports_name::<E>(n));
        }
        r
    }
}

/// A written event reads back with the version it was written with: a
/// recorded event on the stream of an aggregate, whose metadata decodes to a
/// map that holds the decimal version (as the metadata that publishing
/// writes does), reads as an envelope of that aggregate with that version and
/// metadata.
pub proof fn lemma_written_event_reads_back(
    stream_id: Seq<char>,
    name: Seq<char>,
    id: u128,
    custom_metadata: Seq<u8>,
    metadata: Map<Seq<char>, Seq<char>>,
    version: usize,
    commit: u64,
    created: i64,
    data: Seq<u8>,
)
    requires
        parse_kurrent_subject(stream_id) == Ok::<SubjectView, ErrorView>(SubjectView::Aggregate(name, id)),
        json_string_map(custom_metadata) == Ok::<Map<Seq<char>, Seq<char>>, Seq<char>>(metadata),
        metadata.contains_key(VERSION_KEY@),
        metadata[VERSION_KEY@] == decimal(version as nat),
    ensures
        envelope_from_event(stream_id, custom_metadata, commit, created, data) == Ok::<
            EnvelopeView,
            ErrorView,
        >(
            EnvelopeView {
                id,
                sequence: commit,
                timestamp: created,
                name,
                payload: data,
                version,
                metadata,
            },
        ),
{
    lemma_parse_decimal(version as nat, usize::MAX as nat);
}

} // verus!

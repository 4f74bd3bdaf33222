//! JetStream messages read as envelopes.
use vstd::prelude::*;

use crate::envelope::{decodes_payload, decoded_from, format_view, decoded_view, Envelope, EnvelopeView};
use crate::error::{Error, ErrorView};
use crate::event::{reports_name, Event, Sequence};
use crate::nats::config::{meta_get, pairs_map};
use crate::nats::header::{
    appended_values, get, groups, header_first, headers_view, lemma_appended_absent,
    lemma_appended_concat, lemma_appended_prefixed, lemma_grouped_first, prefixed,
    publish_headers_of, Headers, EVENT_TYPE, EXPECTED_LAST_SUBJECT_SEQUENCE, METADATA_PREFIX,
    VERSION_KEY,
};
use crate::nats::subject::{parse_subject, subject_result_view, NatsSubject, SubjectView};
use crate::text::{
    decimal, int_failure_message, lemma_parse_decimal, parse_unsigned, parse_usize, push_str,
    str_eq,
};
use crate::version::DeserializeVersion;

verus! {

/// The parts of a JetStream message that the store reads.
pub struct NatsMessage {
    /// The subject the message was published on.
    pub subject: String,
    /// The message headers.
    pub headers: Headers,
    /// The message payload.
    pub payload: Vec<u8>,
}

/// The JetStream delivery information of a message.
#[derive(Clone, Copy, Debug, PartialEq, Eq, Structural)]
pub struct MessageInfo {
    /// The position of the message in its stream.
    pub stream_sequence: u64,
    /// The publication time, in seconds since the Unix epoch.
    pub published: i64,
}

/// An event read from a JetStream message.
///
/// Fields derived from the subject name and the message headers are parsed
/// upon creation and stored alongside the payload.
pub struct NatsEnvelope {
    id: u128,
    sequence: u64,
    timestamp: i64,
    name: String,
    version: usize,
    payload: Vec<u8>,
    headers: Headers,
}

/// The caller metadata held in message headers (under the metadata prefix).
pub open spec fn metadata_of(h: Seq<(Seq<char>, Seq<Seq<char>>)>) -> Map<Seq<char>, Seq<char>> {
    Map::new(
        |k: Seq<char>| header_first(h, METADATA_PREFIX@ + k) is Some,
        |k: Seq<char>| header_first(h, METADATA_PREFIX@ + k)->Some_0,
    )
}

impl View for NatsEnvelope {
    type V = EnvelopeView;

    closed spec fn view(&self) -> EnvelopeView {
        EnvelopeView {
            id: self.id,
            sequence: self.sequence,
            timestamp: self.timestamp,
            name: self.name@,
            payload: self.payload@,
            version: self.version,
            metadata: metadata_of(headers_view(self.headers@)),
        }
    }
}

impl NatsEnvelope {
    /// The headers of the message an envelope was read from.
    pub closed spec fn message_headers(self) -> Seq<(Seq<char>, Seq<Seq<char>>)> {
        headers_view(self.headers@)
    }
}

/// What reading a message as an envelope gives: its subject must be an
/// aggregate subject under the prefix (else `Invalid`, or the subject's own
/// error), it must carry a version header (else `Invalid`) holding an
/// unsigned integer (else `Format`), and its delivery information must be
/// readable (else `Internal`).
pub open spec fn envelope_from_message(
    prefix: Seq<char>,
    subject: Seq<char>,
    headers: Seq<(Seq<char>, Seq<Seq<char>>)>,
    payload: Seq<u8>,
    info: Result<MessageInfo, Seq<char>>,
) -> Result<EnvelopeView, ErrorView> {
    match parse_subject(prefix, subject) {
        Err(e) => Err(e),
        Ok(SubjectView::Aggregate(name, id)) => match header_first(headers, VERSION_KEY@) {
            None => Err(ErrorView::Invalid),
            Some(text) => match parse_unsigned(text, usize::MAX as nat) {
                Err(f) => Err(ErrorView::Format(int_failure_message(f))),
                Ok(version) => match info {
                    Err(m) => Err(ErrorView::Internal(m)),
                    Ok(i) => Ok(
                        EnvelopeView {
                            id,
                            sequence: i.stream_sequence,
                            timestamp: i.published,
                            name,
                            payload,
                            version: version as usize,
                            metadata: metadata_of(headers),
                        },
                    ),
                },
            },
        },
        Ok(_) => Err(ErrorView::Invalid),
    }
}

/// The view of an envelope result.
pub open spec fn envelope_result_view(r: Result<NatsEnvelope, Error>) -> Result<EnvelopeView, ErrorView> {
    match r {
        Ok(e) => Ok(e@),
        Err(e) => Err(e@),
    }
}

/// The view of a message-information result.
pub open spec fn info_view(info: Result<MessageInfo, String>) -> Result<MessageInfo, Seq<char>> {
    match info {
        Ok(i) => Ok(i),
        Err(m) => Err(m@),
    }
}

impl NatsEnvelope {
    /// Read a JetStream message as an Envelope.
    ///
    /// This requires the message to be published onto a subject of the form
    /// `<expected_prefix>.<name>.<uuid>`, and to have an `Esrc-Version` header,
    /// which is used as the Event's version. `info` is the message's delivery
    /// information, or the message of the error that reading it gave.
    pub fn try_from_message(
        expected_prefix: &str,
        message: NatsMessage,
        info: Result<MessageInfo, String>,
    ) -> (r: Result<NatsEnvelope, Error>)
        ensures
            envelope_result_view(r) == envelope_from_message(
                expected_prefix@,
                message.subject@,
                headers_view(message.headers@),
                message.payload@,
                info_view(info),
            ),
            r matches Ok(e) ==> e.message_headers() == headers_view(message.headers@),
    {
        let parsed = NatsSubject::try_from_str(expected_prefix, message.subject.as_str());
        let (name, id) = match parsed {
            Err(e) => {
                return Err(e);
            },
            Ok(NatsSubject::Aggregate(name, id)) => (name, id),
            Ok(_) => {
                return Err(Error::Invalid);
            },
        };
        let version = match get(&message.headers, VERSION_KEY) {
            None => {
                return Err(Error::Invalid);
            },
            Some(text) => match parse_usize(text.as_str()) {
                Err(f) => {
                    return Err(Error::Format(f.message()));
                },
                Ok(v) => v,
            },
        };
        match info {
            Err(m) => Err(Error::Internal(m)),
            Ok(i) => {
                let env = NatsEnvelope {
                    id,
                    sequence: i.stream_sequence,
                    timestamp: i.published,
                    name,
                    version,
                    payload: message.payload,
                    headers: message.headers,
                };
                Ok(env)
            },
        }
    }

    /// Read a message fetched directly from a stream (with its sequence and
    /// publication time) as an Envelope.
    pub fn try_from_stream_message(
        expected_prefix: &str,
        message: NatsMessage,
        sequence: u64,
        published: i64,
    ) -> (r: Result<NatsEnvelope, Error>)
        ensures
            envelope_result_view(r) == envelope_from_message(
                expected_prefix@,
                message.subject@,
                headers_view(message.headers@),
                message.payload@,
                Ok(MessageInfo { stream_sequence: sequence, published }),
            ),
            r matches Ok(e) ==> e.message_headers() == headers_view(message.headers@),
    {
        NatsEnvelope::try_from_message(
            expected_prefix,
            message,
            Ok(MessageInfo { stream_sequence: sequence, published }),
        )
    }

    /// The message headers.
    pub fn headers(&self) -> (r: &Headers)
        ensures
            headers_view(r@) == self.message_headers(),
            self@.metadata == metadata_of(headers_view(r@)),
    {
        &self.headers
    }
}

impl Envelope for NatsEnvelope {
    fn id(&self) -> (r: u128) {
        self.id
    }

    fn sequence(&self) -> (r: Sequence) {
        Sequence(self.sequence)
    }

    fn timestamp(&self) -> (r: i64) {
        self.timestamp
    }

    fn name(&self) -> (r: &str) {
        self.name.as_str()
    }

    fn get_metadata(&self, key: &str) -> (r: Option<&str>) {
        let mut k = METADATA_PREFIX.to_owned();
        push_str(&mut k, key);
        match get(&self.headers, k.as_str()) {
            Some(v) => Some(v.as_str()),
            None => None,
        }
    }

    fn deserialize<E: DeserializeVersion + Event>(&self) -> (r: Result<E, Error>) {
        let n = E::name();
        proof {
            assert(reports_name::<E>(n));
        }
        if !str_eq(self.name.as_str(), n) {
            return Err(Error::Invalid);
        }
        let bytes = self.payload.as_slice();
        let d = E::deserialize_version(bytes, self.version);
        proof {
            assert(decodes_payload::<E>(self.payload@, self.version, d));
        }
        let r = match d {
            Ok(v) => Ok(v),
            Err(m) => Err(Error::Format(m)),
        };
        proof {
            assert(decoded_view(r) == format_view(d));
            assert(n@ == self@.name);
            assert(self@.payload == self.payload@ && self@.version == self.version);
            assert(exists|d2: Result<E, String>|
                #[trigger] decodes_payload::<E>(self@.payload, self@.version, d2) && decoded_view(r)
                    == format_view(d2));
            assert(reports_name::<E>(n));
        }
        r
    }
}

/// A published event reads back as itself: a message on the subject of an
/// aggregate, carrying the headers that publishing the event appends, reads as
/// an envelope of that aggregate and event name, with the published version,
/// payload and metadata, at the sequence and time that the store reports.
pub proof fn lemma_published_event_reads_back(
    prefix: Seq<char>,
    subject: Seq<char>,
    name: Seq<char>,
    id: u128,
    version: usize,
    last_sequence: Option<u64>,
    event_type: Seq<char>,
    metadata: Seq<(Seq<char>, Seq<char>)>,
    headers: Seq<(Seq<char>, Seq<Seq<char>>)>,
    payload: Seq<u8>,
    info: MessageInfo,
)
    requires
        parse_subject(prefix, subject) == Ok::<SubjectView, ErrorView>(SubjectView::Aggregate(name, id)),
        groups(headers, publish_headers_of(version, last_sequence, event_type, metadata)),
    ensures
        envelope_from_message(prefix, subject, headers, payload, Ok(info)) == Ok::<
            EnvelopeView,
            ErrorView,
        >(
            EnvelopeView {
                id,
                sequence: info.stream_sequence,
                timestamp: info.published,
                name,
                payload,
                version,
                metadata: pairs_map(metadata),
            },
        ),
{
    let p = publish_headers_of(version, last_sequence, event_type, metadata);
    let reserved = match last_sequence {
        Some(s) => seq![
            (VERSION_KEY@, decimal(version as nat)),
            (EXPECTED_LAST_SUBJECT_SEQUENCE@, decimal(s as nat)),
            (EVENT_TYPE@, event_type),
        ],
        None => seq![(VERSION_KEY@, decimal(version as nat)), (EVENT_TYPE@, event_type)],
    };
    assert(p == reserved + prefixed(metadata));
    assert(p[0] == (VERSION_KEY@, decimal(version as nat)));
    assert(appended_values(p, VERSION_KEY@)[0] == decimal(version as nat));
    lemma_grouped_first(headers, p, VERSION_KEY@);
    lemma_parse_decimal(version as nat, usize::MAX as nat);
    reveal_strlit("Esrc-Version");
    reveal_strlit("Nats-Expected-Last-Subject-Sequence");
    reveal_strlit("Esrc-Event-Type");
    reveal_strlit("xn-");
    assert forall|k: Seq<char>| #[trigger] header_first(headers, METADATA_PREFIX@ + k) == meta_get(metadata, k) by {
        let key = METADATA_PREFIX@ + k;
        assert(key[0] == 'x');
        assert forall|i: int| 0 <= i < reserved.len() implies reserved[i].0 != key by {
            assert(reserved[i].0[0] != 'x');
        }
        lemma_appended_absent(reserved, key);
        lemma_appended_concat(reserved, prefixed(metadata), key);
        assert(appended_values(p, key) =~= appended_values(prefixed(metadata), key));
        lemma_appended_prefixed(metadata, k);
        lemma_grouped_first(headers, p, key);
    }
    assert(metadata_of(headers) =~= pairs_map(metadata));
}

} // verus!

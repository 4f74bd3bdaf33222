//! Dead letters: messages that a consumer gave up on, recorded from the
//! advisories that JetStream publishes about them.
use vstd::prelude::*;

use crate::error::{Error, ErrorView};
use crate::nats::config::{
    string_views, AckPolicy, ConsumerSettings, DeliverPolicy, DiscardPolicy, RetentionPolicy,
    StorageType, StreamSettings,
};
use crate::nats::envelope::NatsMessage;
use crate::nats::header::{headers_view, Headers};
use crate::nats::{replica_count, NatsStoreOptions};
use crate::text::{chars_eq, chars_of, contains_seq, contains_str, pair_views, push_char, push_str};

verus! {

/// The reason why a message was added to the dead letter queue.
#[derive(Clone, Debug)]
pub enum DeadLetterReason {
    /// Message reached maximum delivery attempts.
    MaxDeliveriesReached,
    /// Message was manually terminated by client.
    MessageTerminated,
    /// Processing error occurred.
    ProcessingError(String),
}

/// A dead letter message with metadata about the failure.
#[derive(Clone, Debug)]
pub struct DeadLetterMessage {
    /// The original message subject.
    pub subject: String,
    /// The original message payload.
    pub payload: Vec<u8>,
    /// The original message headers (each name with its values joined by
    /// commas), if any.
    pub headers: Option<Vec<(String, String)>>,
    /// The stream name where the message originated.
    pub stream: String,
    /// The consumer name that failed to process the message.
    pub consumer: String,
    /// The sequence number of the message in the stream.
    pub stream_sequence: u64,
    /// The reason for the message being dead lettered.
    pub reason: DeadLetterReason,
    /// When the message was dead lettered, in nanoseconds since the Unix epoch.
    pub timestamp: i128,
    /// Number of delivery attempts before being dead lettered.
    pub delivery_count: u64,
}

/// The current time, in nanoseconds since the Unix epoch
/// (`time::OffsetDateTime::now_utc`).
///
/// Nothing is claimed of the result: it depends on the clock.
#[verifier::external_body]
fn now_utc_nanos() -> (r: i128) {
    time::OffsetDateTime::now_utc().unix_timestamp_nanos()
}

fn bytes_of(b: &[u8]) -> (r: Vec<u8>)
    ensures
        r@ == b@,
{
    let mut r: Vec<u8> = Vec::new();
    let mut i: usize = 0;
    while i < b.len()
        invariant
            i <= b@.len(),
            r@ == b@.take(i as int),
        decreases b@.len() - i,
    {
        r.push(b[i]);
        assert(b@.take(i + 1) =~= b@.take(i as int).push(b@[i as int]));
        i = i + 1;
    }
    assert(b@.take(i as int) =~= b@);
    r
}

/// Values joined with a comma between each two.
pub open spec fn comma_joined(vs: Seq<Seq<char>>) -> Seq<char>
    decreases vs.len(),
{
    if vs.len() == 0 {
        Seq::empty()
    } else if vs.len() == 1 {
        vs[0]
    } else {
        comma_joined(vs.drop_last()) + seq![','] + vs.last()
    }
}

/// Each header with its values joined by commas.
pub open spec fn joined_headers_of(h: Seq<(Seq<char>, Seq<Seq<char>>)>) -> Seq<(Seq<char>, Seq<char>)> {
    h.map_values(|e: (Seq<char>, Seq<Seq<char>>)| (e.0, comma_joined(e.1)))
}

fn join_values(vs: &Vec<String>) -> (r: String)
    ensures
        r@ == comma_joined(string_views(vs@)),
{
    let ghost sv = string_views(vs@);
    let mut s = String::new();
    let mut i: usize = 0;
    while i < vs.len()
        invariant
            i <= vs@.len(),
            sv == string_views(vs@),
            s@ == comma_joined(sv.take(i as int)),
        decreases vs@.len() - i,
    {
        if i > 0 {
            push_char(&mut s, ',');
        }
        push_str(&mut s, vs[i].as_str());
        proof {
            let t = sv.take(i + 1);
            assert(t.drop_last() =~= sv.take(i as int));
            assert(t.last() == vs@[i as int]@);
            if i == 0 {
                assert(comma_joined(sv.take(0)) =~= Seq::<char>::empty());
            }
        }
        i = i + 1;
    }
    assert(sv.take(i as int) =~= sv);
    s
}

/// Each header of a message with its values joined by commas.
pub fn joined_headers(h: &Headers) -> (r: Vec<(String, String)>)
    ensures
        pair_views(r@) == joined_headers_of(headers_view(h@)),
{
    let ghost hv = headers_view(h@);
    let mut r: Vec<(String, String)> = Vec::new();
    let mut i: usize = 0;
    while i < h.len()
        invariant
            i <= h@.len(),
            hv == headers_view(h@),
            pair_views(r@) == joined_headers_of(hv.take(i as int)),
        decreases h@.len() - i,
    {
        let name = h[i].0.clone();
        let value = join_values(&h[i].1);
        let ghost before = r@;
        proof {
            assert(hv[i as int] == (h@[i as int].0@, string_views(h@[i as int].1@)));
        }
        r.push((name, value));
        assert(pair_views(r@) =~= pair_views(before).push((hv[i as int].0, comma_joined(hv[i as int].1))));
        assert(hv.take(i + 1) =~= hv.take(i as int).push(hv[i as int]));
        assert(joined_headers_of(hv.take(i + 1)) =~= joined_headers_of(hv.take(i as int)).push(
            (hv[i as int].0, comma_joined(hv[i as int].1)),
        ));
        i = i + 1;
    }
    assert(hv.take(i as int) =~= hv);
    r
}

/// The view of optional joined headers.
pub open spec fn optional_pairs_view(h: Option<Vec<(String, String)>>) -> Option<Seq<(Seq<char>, Seq<char>)>> {
    match h {
        Some(v) => Some(pair_views(v@)),
        None => None,
    }
}

impl DeadLetterMessage {
    /// Create a dead letter message from a delivered message and advisory
    /// information. The timestamp is the message's publication time when its
    /// delivery information is readable, else the current time.
    pub fn new(
        subject: &str,
        payload: &[u8],
        headers: Option<&Headers>,
        published: Result<i128, String>,
        stream: String,
        consumer: String,
        stream_sequence: u64,
        reason: DeadLetterReason,
        delivery_count: u64,
    ) -> (r: Self)
        ensures
            r.subject@ == subject@,
            r.payload@ == payload@,
            optional_pairs_view(r.headers) == match headers {
                Some(h) => Some(joined_headers_of(headers_view(h@))),
                None => None,
            },
            r.stream == stream,
            r.consumer == consumer,
            r.stream_sequence == stream_sequence,
            r.reason == reason,
            published matches Ok(t) ==> r.timestamp == t,
            r.delivery_count == delivery_count,
    {
        let joined = match headers {
            Some(h) => Some(joined_headers(h)),
            None => None,
        };
        let timestamp = match published {
            Ok(t) => t,
            Err(_) => now_utc_nanos(),
        };
        DeadLetterMessage {
            subject: subject.to_owned(),
            payload: bytes_of(payload),
            headers: joined,
            stream,
            consumer,
            stream_sequence,
            reason,
            timestamp,
            delivery_count,
        }
    }

    /// Create a dead letter message from a message read from its stream and
    /// advisory information. Its headers are recorded when it has any.
    pub fn from_stream_message(
        message: &NatsMessage,
        time: i128,
        stream: String,
        consumer: String,
        stream_sequence: u64,
        reason: DeadLetterReason,
        delivery_count: u64,
    ) -> (r: Self)
        ensures
            r.subject@ == message.subject@,
            r.payload@ == message.payload@,
            optional_pairs_view(r.headers) == if message.headers@.len() == 0 {
                None
            } else {
                Some(joined_headers_of(headers_view(message.headers@)))
            },
            r.stream == stream,
            r.consumer == consumer,
            r.stream_sequence == stream_sequence,
            r.reason == reason,
            r.timestamp == time,
            r.delivery_count == delivery_count,
    {
        let headers = if message.headers.len() == 0 {
            None
        } else {
            Some(joined_headers(&message.headers))
        };
        DeadLetterMessage {
            subject: message.subject.clone(),
            payload: message.payload.clone(),
            headers,
            stream,
            consumer,
            stream_sequence,
            reason,
            timestamp: time,
            delivery_count,
        }
    }

    /// Create a dead letter message from advisory message data, timestamped
    /// with the current time.
    pub fn from_advisory(
        stream: String,
        consumer: String,
        stream_sequence: u64,
        reason: DeadLetterReason,
        delivery_count: u64,
        original_subject: String,
        payload: Vec<u8>,
        headers: Option<Vec<(String, String)>>,
    ) -> (r: Self)
        ensures
            r.subject == original_subject,
            r.payload == payload,
            r.headers == headers,
            r.stream == stream,
            r.consumer == consumer,
            r.stream_sequence == stream_sequence,
            r.reason == reason,
            r.delivery_count == delivery_count,
    {
        DeadLetterMessage {
            subject: original_subject,
            payload,
            headers,
            stream,
            consumer,
            stream_sequence,
            reason,
            timestamp: now_utc_nanos(),
            delivery_count,
        }
    }
}

/// `<stream>_DLQ_<consumer>`: the stream that keeps the advisories of a consumer.
pub open spec fn advisory_stream_name_of(stream: Seq<char>, consumer: Seq<char>) -> Seq<char> {
    stream + "_DLQ_"@ + consumer
}

/// The name of the stream that keeps the advisories of a consumer.
pub fn advisory_stream_name(source_stream_name: &str, source_consumer_name: &str) -> (r: String)
    ensures
        r@ == advisory_stream_name_of(source_stream_name@, source_consumer_name@),
{
    let mut s = source_stream_name.to_owned();
    push_str(&mut s, "_DLQ_");
    push_str(&mut s, source_consumer_name);
    s
}

/// The subject of the advisory that JetStream publishes when a consumer
/// reaches its maximum deliveries for a message.
pub open spec fn max_deliveries_subject(stream: Seq<char>, consumer: Seq<char>) -> Seq<char> {
    "$JS.EVENT.ADVISORY.CONSUMER.MAX_DELIVERIES."@ + stream + "."@ + consumer
}

/// The subject of the advisory that JetStream publishes when a consumer
/// terminates a message.
pub open spec fn terminated_subject(stream: Seq<char>, consumer: Seq<char>) -> Seq<char> {
    "$JS.EVENT.ADVISORY.CONSUMER.MSG_TERMINATED."@ + stream + "."@ + consumer
}

fn advisory_subject(kind: &str, stream: &str, consumer: &str) -> (r: String)
    ensures
        r@ == kind@ + "."@ + stream@ + "."@ + consumer@,
{
    let mut s = kind.to_owned();
    push_str(&mut s, ".");
    push_str(&mut s, stream);
    push_str(&mut s, ".");
    push_str(&mut s, consumer);
    s
}

/// The two advisory subjects of a consumer: maximum deliveries, then terminated.
pub fn advisory_subjects(source_stream_name: &str, source_consumer_name: &str) -> (r: Vec<String>)
    ensures
        string_views(r@) == seq![
            max_deliveries_subject(source_stream_name@, source_consumer_name@),
            terminated_subject(source_stream_name@, source_consumer_name@),
        ],
{
    let a = advisory_subject(
        "$JS.EVENT.ADVISORY.CONSUMER.MAX_DELIVERIES",
        source_stream_name,
        source_consumer_name,
    );
    let b = advisory_subject(
        "$JS.EVENT.ADVISORY.CONSUMER.MSG_TERMINATED",
        source_stream_name,
        source_consumer_name,
    );
    proof {
        reveal_strlit("$JS.EVENT.ADVISORY.CONSUMER.MAX_DELIVERIES");
        reveal_strlit("$JS.EVENT.ADVISORY.CONSUMER.MAX_DELIVERIES.");
        reveal_strlit("$JS.EVENT.ADVISORY.CONSUMER.MSG_TERMINATED");
        reveal_strlit("$JS.EVENT.ADVISORY.CONSUMER.MSG_TERMINATED.");
        reveal_strlit(".");
        assert(a@ =~= max_deliveries_subject(source_stream_name@, source_consumer_name@));
        assert(b@ =~= terminated_subject(source_stream_name@, source_consumer_name@));
    }
    let ghost (av, bv) = (a@, b@);
    let mut r = Vec::new();
    r.push(a);
    r.push(b);
    assert(string_views(r@) =~= seq![av, bv]);
    r
}

/// The stream that keeps the advisories of a consumer: a work queue on the two
/// advisory subjects that refuses new messages at its limits.
pub fn advisory_stream_config(
    source_stream_name: &str,
    source_consumer_name: &str,
    options: NatsStoreOptions,
) -> (r: StreamSettings)
    ensures
        r.name@ == advisory_stream_name_of(source_stream_name@, source_consumer_name@),
        string_views(r.subjects@) == seq![
            max_deliveries_subject(source_stream_name@, source_consumer_name@),
            terminated_subject(source_stream_name@, source_consumer_name@),
        ],
        r.mirror is None,
        r.retention == RetentionPolicy::WorkQueue,
        r.discard == DiscardPolicy::New,
        r.storage == StorageType::File,
        r.max_messages == 0,
        r.max_bytes == 0,
        r.max_messages_per_subject == 0,
        r.max_age == 0,
        r.num_replicas == replica_count(options@),
{
    StreamSettings {
        name: advisory_stream_name(source_stream_name, source_consumer_name),
        subjects: advisory_subjects(source_stream_name, source_consumer_name),
        mirror: None,
        retention: RetentionPolicy::WorkQueue,
        discard: DiscardPolicy::New,
        storage: StorageType::File,
        max_messages: 0,
        max_bytes: 0,
        max_messages_per_subject: 0,
        max_age: 0,
        num_replicas: options.stream_replicas().count(),
    }
}

/// An advisory stream can be used as is: it holds exactly the expected
/// subjects, is a work queue that refuses new messages at its limits, is kept
/// in files and has no limits.
pub open spec fn advisory_stream_compatible(actual: StreamSettings, expected_subjects: Seq<Seq<char>>) -> bool {
    &&& string_views(actual.subjects@) == expected_subjects
    &&& actual.retention == RetentionPolicy::WorkQueue
    &&& actual.discard == DiscardPolicy::New
    &&& actual.storage == StorageType::File
    &&& actual.max_messages <= 0
    &&& actual.max_bytes <= 0
    &&& actual.max_messages_per_subject <= 0
    &&& actual.max_age == 0
}

/// An advisory stream is accepted only when advisories stay until they are
/// recorded: it holds exactly the expected subjects, is a file-backed work
/// queue that refuses new messages at its limits, and has no age, message,
/// byte or per-subject limit. A stream as the store requests it (every limit
/// zero) is accepted as it is.
pub proof fn lemma_advisory_stream_keeps_every_advisory(
    actual: StreamSettings,
    expected_subjects: Seq<Seq<char>>,
)
    ensures
        advisory_stream_compatible(actual, expected_subjects) ==> {
            &&& string_views(actual.subjects@) == expected_subjects
            &&& actual.retention == RetentionPolicy::WorkQueue
            &&& actual.discard == DiscardPolicy::New
            &&& actual.storage == StorageType::File
            &&& actual.max_age == 0
            &&& actual.max_messages <= 0
            &&& actual.max_bytes <= 0
            &&& actual.max_messages_per_subject <= 0
        },
        actual.max_age != 0 ==> !advisory_stream_compatible(actual, expected_subjects),
        ({
            &&& string_views(actual.subjects@) == expected_subjects
            &&& actual.retention == RetentionPolicy::WorkQueue
            &&& actual.discard == DiscardPolicy::New
            &&& actual.storage == StorageType::File
            &&& actual.max_age == 0
            &&& actual.max_messages == 0
            &&& actual.max_bytes == 0
            &&& actual.max_messages_per_subject == 0
        }) ==> advisory_stream_compatible(actual, expected_subjects),
{
}

/// The message of an incompatible advisory stream.
pub open spec fn incompatible_advisory_message(name: Seq<char>) -> Seq<char> {
    "NATS dead-letter advisory stream `"@ + name
        + "` has incompatible subjects, retention, discard, storage, or limits"@
}

fn strings_eq(a: &Vec<String>, b: &Vec<String>) -> (r: bool)
    ensures
        r == (string_views(a@) == string_views(b@)),
{
    if a.len() != b.len() {
        assert(string_views(a@).len() != string_views(b@).len());
        return false;
    }
    let mut i: usize = 0;
    while i < a.len()
        invariant
            i <= a@.len(),
            a@.len() == b@.len(),
            forall|j: int| 0 <= j < i ==> string_views(a@)[j] == string_views(b@)[j],
        decreases a@.len() - i,
    {
        let x = chars_of(a[i].as_str());
        let y = chars_of(b[i].as_str());
        if !chars_eq(&x, &y) {
            assert(string_views(a@)[i as int] != string_views(b@)[i as int]);
            return false;
        }
        i = i + 1;
    }
    assert(string_views(a@) =~= string_views(b@));
    true
}

/// Check the settings that JetStream reports for an advisory stream.
pub fn check_advisory_stream(actual: &StreamSettings, expected_subjects: &Vec<String>) -> (r: Result<
    (),
    Error,
>)
    ensures
        r is Ok <==> advisory_stream_compatible(*actual, string_views(expected_subjects@)),
        r is Ok ==> actual.max_age == 0 && actual.max_messages <= 0 && actual.max_bytes <= 0
            && actual.max_messages_per_subject <= 0,
        r matches Err(e) ==> e@ == ErrorView::Internal(incompatible_advisory_message(actual.name@)),
{
    if !strings_eq(&actual.subjects, expected_subjects) || actual.retention != RetentionPolicy::WorkQueue
        || actual.discard != DiscardPolicy::New || actual.storage != StorageType::File
        || actual.max_messages > 0 || actual.max_bytes > 0 || actual.max_messages_per_subject > 0
        || actual.max_age != 0 {
        let mut m = "NATS dead-letter advisory stream `".to_owned();
        push_str(&mut m, actual.name.as_str());
        push_str(&mut m, "` has incompatible subjects, retention, discard, storage, or limits");
        return Err(Error::Internal(m));
    }
    Ok(())
}

/// The settings of the consumer that reads the advisories of a consumer: the
/// given settings, filtered on the two advisory subjects under `durable_name`,
/// from the first advisory, with explicit acknowledgements.
pub fn advisory_consumer_config(
    base: ConsumerSettings,
    durable_name: &str,
    stream_name: &str,
    consumer_name: &str,
) -> (r: ConsumerSettings)
    ensures
        r.durable_name matches Some(d) && d@ == durable_name@,
        r.filter_subject@ == Seq::<char>::empty(),
        string_views(r.filter_subjects@) == seq![
            max_deliveries_subject(stream_name@, consumer_name@),
            terminated_subject(stream_name@, consumer_name@),
        ],
        r.deliver_policy == DeliverPolicy::All,
        r.ack_policy == AckPolicy::Explicit,
        r.ack_wait == base.ack_wait,
        r.max_ack_pending == base.max_ack_pending,
        r.max_deliver == base.max_deliver,
        r.metadata == base.metadata,
        r.backoff == base.backoff,
{
    let mut c = base;
    c.filter_subject = String::new();
    c.filter_subjects = advisory_subjects(stream_name, consumer_name);
    c.durable_name = Some(durable_name.to_owned());
    c.deliver_policy = DeliverPolicy::All;
    c.ack_policy = AckPolicy::Explicit;
    c
}

/// `r` is the reason that an advisory with this subject records: maximum
/// deliveries when the subject says `MAX_DELIVERIES`, else termination when
/// it says `MSG_TERMINATED`, else an unknown advisory type.
pub open spec fn reason_from_subject(subject: Seq<char>, r: DeadLetterReason) -> bool {
    if contains_seq(subject, "MAX_DELIVERIES"@) {
        r == DeadLetterReason::MaxDeliveriesReached
    } else if contains_seq(subject, "MSG_TERMINATED"@) {
        r == DeadLetterReason::MessageTerminated
    } else {
        r matches DeadLetterReason::ProcessingError(m) && m@ == "Unknown advisory type"@
    }
}

/// The reason of an advisory, read from its subject.
pub fn advisory_reason(subject: &str) -> (r: DeadLetterReason)
    ensures
        contains_seq(subject@, "MAX_DELIVERIES"@) ==> r == DeadLetterReason::MaxDeliveriesReached,
        !contains_seq(subject@, "MAX_DELIVERIES"@) && contains_seq(subject@, "MSG_TERMINATED"@)
            ==> r == DeadLetterReason::MessageTerminated,
        !contains_seq(subject@, "MAX_DELIVERIES"@) && !contains_seq(subject@, "MSG_TERMINATED"@)
            ==> (r matches DeadLetterReason::ProcessingError(m) && m@ == "Unknown advisory type"@),
        reason_from_subject(subject@, r),
{
    if contains_str(subject, "MAX_DELIVERIES") {
        DeadLetterReason::MaxDeliveriesReached
    } else if contains_str(subject, "MSG_TERMINATED") {
        DeadLetterReason::MessageTerminated
    } else {
        DeadLetterReason::ProcessingError("Unknown advisory type".to_owned())
    }
}

/// What `serde_json` reads from an advisory payload: the unsigned integer
/// fields `stream_seq` and `deliveries` (each absent when missing or not an
/// unsigned integer), or the message of the parse error.
pub uninterp spec fn advisory_json(payload: Seq<u8>) -> Result<(Option<u64>, Option<u64>), Seq<char>>;

/// The view of a parsed advisory.
pub open spec fn advisory_json_view(r: Result<(Option<u64>, Option<u64>), String>) -> Result<
    (Option<u64>, Option<u64>),
    Seq<char>,
> {
    match r {
        Ok(v) => Ok(v),
        Err(m) => Err(m@),
    }
}

/// Parse an advisory payload as JSON (`serde_json::from_slice` into a
/// `serde_json::Value`) and read its `stream_seq` and `deliveries` fields as
/// unsigned integers.
///
/// The contract claims only that the result is `advisory_json` of the payload:
/// the same payload always reads the same.
#[verifier::external_body]
fn parse_advisory_json(payload: &[u8]) -> (r: Result<(Option<u64>, Option<u64>), String>)
    ensures
        advisory_json_view(r) == advisory_json(payload@),
{
    match serde_json::from_slice::<serde_json::Value>(payload) {
        Ok(v) => Ok((
            v.get("stream_seq").and_then(|x| x.as_u64()),
            v.get("deliveries").and_then(|x| x.as_u64()),
        )),
        Err(e) => Err(e.to_string()),
    }
}

/// What an advisory tells of a dead letter.
#[derive(Clone, Debug)]
pub struct AdvisoryRecord {
    /// The stream sequence of the dead-lettered message.
    pub stream_sequence: u64,
    /// How many times it was delivered.
    pub delivery_count: u64,
    /// Why it was dead-lettered.
    pub reason: DeadLetterReason,
}

/// The message of an advisory without a stream sequence.
pub open spec fn missing_stream_seq() -> Seq<char> {
    "Missing stream_seq in advisory message"@
}

/// Read an advisory from its subject and its parsed payload: the stream
/// sequence is required, the delivery count defaults to zero.
pub fn advisory_record(
    subject: &str,
    parsed: Result<(Option<u64>, Option<u64>), String>,
) -> (r: Result<AdvisoryRecord, String>)
    ensures
        match parsed {
            Err(m) => r matches Err(e) && e@ == m@,
            Ok((None, _)) => r matches Err(e) && e@ == missing_stream_seq(),
            Ok((Some(seq), deliveries)) => r matches Ok(rec) && rec.stream_sequence == seq
                && rec.delivery_count == match deliveries {
                Some(d) => d,
                None => 0,
            } && reason_from_subject(subject@, rec.reason),
        },
{
    match parsed {
        Err(m) => Err(m),
        Ok((None, _)) => Err("Missing stream_seq in advisory message".to_owned()),
        Ok((Some(stream_sequence), deliveries)) => {
            let delivery_count = match deliveries {
                Some(d) => d,
                None => 0,
            };
            Ok(AdvisoryRecord { stream_sequence, delivery_count, reason: advisory_reason(subject) })
        },
    }
}

/// Read an advisory message: parse its payload, then read the record.
pub fn read_advisory(subject: &str, payload: &[u8]) -> (r: Result<AdvisoryRecord, String>)
    ensures
        match advisory_json(payload@) {
            Err(m) => r matches Err(e) && e@ == m,
            Ok((None, _)) => r matches Err(e) && e@ == missing_stream_seq(),
            Ok((Some(seq), deliveries)) => r matches Ok(rec) && rec.stream_sequence == seq
                && rec.delivery_count == match deliveries {
                Some(d) => d,
                None => 0,
            } && reason_from_subject(subject@, rec.reason),
        },
{
    let parsed = parse_advisory_json(payload);
    advisory_record(subject, parsed)
}

/// The dead letter that an advisory records: from the original message when it
/// could be read from the source stream (with its time), else from the advisory
/// alone, with an `unknown` subject, no payload and no headers.
pub fn dead_letter_for(
    record: AdvisoryRecord,
    stream_name: &str,
    consumer_name: &str,
    original: Option<(NatsMessage, i128)>,
) -> (r: DeadLetterMessage)
    ensures
        r.stream@ == stream_name@,
        r.consumer@ == consumer_name@,
        r.stream_sequence == record.stream_sequence,
        r.delivery_count == record.delivery_count,
        r.reason == record.reason,
        match original {
            Some((m, time)) => {
                &&& r.subject@ == m.subject@
                &&& r.payload@ == m.payload@
                &&& optional_pairs_view(r.headers) == if m.headers@.len() == 0 {
                    None
                } else {
                    Some(joined_headers_of(headers_view(m.headers@)))
                }
                &&& r.timestamp == time
            },
            None => {
                &&& r.subject@ == "unknown"@
                &&& r.payload@.len() == 0
                &&& r.headers is None
            },
        },
{
    match original {
        Some((m, time)) => DeadLetterMessage::from_stream_message(
            &m,
            time,
            stream_name.to_owned(),
            consumer_name.to_owned(),
            record.stream_sequence,
            record.reason,
            record.delivery_count,
        ),
        None => DeadLetterMessage::from_advisory(
            stream_name.to_owned(),
            consumer_name.to_owned(),
            record.stream_sequence,
            record.reason,
            record.delivery_count,
            "unknown".to_owned(),
            Vec::new(),
            None,
        ),
    }
}

} // verus!

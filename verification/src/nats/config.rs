//! The stream and consumer settings that the store asks JetStream for, and
//! the checks it makes on the settings that JetStream reports back.
use vstd::prelude::*;
use vstd::relations::*;
use vstd::seq_lib::*;

use crate::event::event_model::ViewProjectorIdentity;
use crate::nats::subject::{subject_text, NatsSubject, SubjectView};
use crate::nats::{replica_count, NatsStoreOptions};
use crate::nats::{view_identity_mismatch, NatsViewConsumerIdentityMismatch};
use crate::nats::IdentityMismatchView;
use crate::text::{
    chars_eq, chars_of, decimal, decimal_string, lemma_lex_total, lex_order, pair_views, push_str,
    sort_strs, str_views,
};

verus! {

broadcast use group_to_multiset_ensures;

/// The acknowledgement wait that a view consumer uses when none is configured
/// (the server's own default), in nanoseconds.
pub const DEFAULT_ACK_WAIT: u64 = 30_000_000_000;

/// The consumer metadata key holding the view projector identifier.
pub const VIEW_PROJECTOR_ID_METADATA_KEY: &'static str = "esrc-view-projector-id";

/// The consumer metadata key holding the view projector version.
pub const VIEW_PROJECTOR_VERSION_METADATA_KEY: &'static str = "esrc-view-projector-version";

/// One millisecond, in nanoseconds.
pub const MILLISECOND: u64 = 1_000_000;

/// How a consumer acknowledges the messages it receives.
#[derive(Clone, Copy, Debug, PartialEq, Eq, Structural)]
pub enum AckPolicy {
    /// Each message is acknowledged on its own (the default).
    Explicit,
    /// Messages are not acknowledged (JetStream's `none`).
    NoAck,
    /// Acknowledging a message acknowledges all earlier ones.
    All,
    /// Like `All`, driven by the flow-control responses of a receiving server
    /// (for server-managed sourcing and mirroring consumers).
    FlowControl,
}

/// Where a consumer starts in its stream.
#[derive(Clone, Copy, Debug, PartialEq, Eq, Structural)]
pub enum DeliverPolicy {
    /// From the first message (the default).
    All,
    /// From the last message.
    Last,
    /// From the messages published after the consumer was created.
    New,
    /// From a stream sequence.
    ByStartSequence { start_sequence: u64 },
    /// From a time, in nanoseconds since the Unix epoch.
    ByStartTime { start_time: i128 },
    /// From the last message of each subject.
    LastPerSubject,
}

/// The settings of a JetStream consumer that the store reads and writes.
/// Durations are in nanoseconds; metadata is a list of distinct keys with
/// their values.
#[derive(Clone, Debug)]
pub struct ConsumerSettings {
    pub durable_name: Option<String>,
    pub filter_subject: String,
    pub filter_subjects: Vec<String>,
    pub deliver_policy: DeliverPolicy,
    pub ack_policy: AckPolicy,
    pub ack_wait: u64,
    pub max_ack_pending: i64,
    pub max_deliver: i64,
    pub metadata: Vec<(String, String)>,
    pub backoff: Vec<u64>,
}

impl Default for ConsumerSettings {
    /// JetStream's default consumer settings: not durable, no filter, from the
    /// first message, explicit acknowledgements, and the server's defaults
    /// (zero) for the waits and limits.
    fn default() -> (r: Self)
        ensures
            r.durable_name is None,
            r.filter_subject@ == Seq::<char>::empty(),
            r.filter_subjects@.len() == 0,
            r.deliver_policy == DeliverPolicy::All,
            r.ack_policy == AckPolicy::Explicit,
            r.ack_wait == 0,
            r.max_ack_pending == 0,
            r.max_deliver == 0,
            r.metadata@.len() == 0,
            r.backoff@.len() == 0,
    {
        ConsumerSettings {
            durable_name: None,
            filter_subject: String::new(),
            filter_subjects: Vec::new(),
            deliver_policy: DeliverPolicy::All,
            ack_policy: AckPolicy::Explicit,
            ack_wait: 0,
            max_ack_pending: 0,
            max_deliver: 0,
            metadata: Vec::new(),
            backoff: Vec::new(),
        }
    }
}

/// The views of a vector of strings.
pub open spec fn string_views(v: Seq<String>) -> Seq<Seq<char>> {
    v.map_values(|s: String| s@)
}

/// The value stored under `key` in a metadata list (its first entry with that key).
pub open spec fn meta_get(m: Seq<(Seq<char>, Seq<char>)>, key: Seq<char>) -> Option<Seq<char>>
    decreases m.len(),
{
    if m.len() == 0 {
        None
    } else if m[0].0 == key {
        Some(m[0].1)
    } else {
        meta_get(m.drop_first(), key)
    }
}

/// No key occurs twice in a metadata list.
pub open spec fn distinct_keys(m: Seq<(Seq<char>, Seq<char>)>) -> bool {
    forall|i: int, j: int| 0 <= i < j < m.len() ==> m[i].0 != m[j].0
}

/// The map that a metadata list stands for: each key with its first value.
pub open spec fn pairs_map(m: Seq<(Seq<char>, Seq<char>)>) -> Map<Seq<char>, Seq<char>> {
    Map::new(|k: Seq<char>| meta_get(m, k) is Some, |k: Seq<char>| meta_get(m, k)->Some_0)
}

proof fn lemma_meta_update(
    m: Seq<(Seq<char>, Seq<char>)>,
    i: int,
    k: Seq<char>,
    v: Seq<char>,
    key: Seq<char>,
)
    requires
        0 <= i < m.len(),
        m[i].0 == k,
        forall|j: int| 0 <= j < i ==> m[j].0 != k,
    ensures
        meta_get(m.update(i, (k, v)), key) == if key == k {
            Some(v)
        } else {
            meta_get(m, key)
        },
    decreases m.len(),
{
    if i > 0 {
        lemma_meta_update(m.drop_first(), i - 1, k, v, key);
        assert(m.update(i, (k, v))[0] == m[0]);
        assert(m.update(i, (k, v)).drop_first() =~= m.drop_first().update(i - 1, (k, v)));
    } else {
        assert(m.update(i, (k, v)).drop_first() =~= m.drop_first());
    }
}

proof fn lemma_meta_push(m: Seq<(Seq<char>, Seq<char>)>, k: Seq<char>, v: Seq<char>, key: Seq<char>)
    requires
        forall|j: int| 0 <= j < m.len() ==> m[j].0 != k,
    ensures
        meta_get(m.push((k, v)), key) == if key == k {
            Some(v)
        } else {
            meta_get(m, key)
        },
    decreases m.len(),
{
    if m.len() > 0 {
        lemma_meta_push(m.drop_first(), k, v, key);
        assert(m.push((k, v))[0] == m[0]);
        assert(m.push((k, v)).drop_first() =~= m.drop_first().push((k, v)));
    } else {
        assert(m.push((k, v)).drop_first() =~= m);
    }
}

/// Store `value` under `key` in a metadata list, as a map insert does: an
/// existing entry is overwritten in place, else one is appended.
pub fn insert_metadata(m: &mut Vec<(String, String)>, key: String, value: String)
    ensures
        forall|k: Seq<char>|
            #[trigger] meta_get(pair_views(final(m)@), k) == if k == key@ {
                Some(value@)
            } else {
                meta_get(pair_views(old(m)@), k)
            },
        distinct_keys(pair_views(old(m)@)) ==> distinct_keys(pair_views(final(m)@)),
{
    let kc = chars_of(key.as_str());
    let ghost mv = pair_views(m@);
    let mut i: usize = 0;
    while i < m.len()
        invariant
            i <= m@.len(),
            kc@ == key@,
            mv == pair_views(m@),
            mv == pair_views(old(m)@),
            forall|j: int| 0 <= j < i ==> mv[j].0 != key@,
        decreases m@.len() - i,
    {
        let ec = chars_of(m[i].0.as_str());
        if chars_eq(&ec, &kc) {
            let ghost k = key@;
            let ghost v = value@;
            m.set(i, (key, value));
            proof {
                assert(pair_views(m@) =~= mv.update(i as int, (k, v)));
                assert forall|q: Seq<char>| #[trigger]
                    meta_get(pair_views(m@), q) == if q == k {
                        Some(v)
                    } else {
                        meta_get(mv, q)
                    } by {
                    lemma_meta_update(mv, i as int, k, v, q);
                }
                assert(mv[i as int].0 == k);
            }
            return;
        }
        i = i + 1;
    }
    let ghost k = key@;
    let ghost v = value@;
    m.push((key, value));
    proof {
        assert(pair_views(m@) =~= mv.push((k, v)));
        assert forall|q: Seq<char>| #[trigger]
            meta_get(pair_views(m@), q) == if q == k {
                Some(v)
            } else {
                meta_get(mv, q)
            } by {
            lemma_meta_push(mv, k, v, q);
        }
    }
}

/// The settings of a durable consumer: the given settings, filtered on
/// `subjects` under the durable `name`.
pub fn durable_consumer_config(config: ConsumerSettings, name: String, subjects: Vec<String>) -> (r:
    ConsumerSettings)
    ensures
        r.durable_name == Some(name),
        r.filter_subjects == subjects,
        r.filter_subject == config.filter_subject,
        r.deliver_policy == config.deliver_policy,
        r.ack_policy == config.ack_policy,
        r.ack_wait == config.ack_wait,
        r.max_ack_pending == config.max_ack_pending,
        r.max_deliver == config.max_deliver,
        r.metadata == config.metadata,
        r.backoff == config.backoff,
{
    let mut c = config;
    c.filter_subjects = subjects;
    c.durable_name = Some(name);
    c
}

/// `<id>@<version>`: how a projector identity is shown.
pub open spec fn identity_label_of(id: Seq<char>, version: u32) -> Seq<char> {
    id + "@"@ + decimal(version as nat)
}

/// The label of a projector identity.
pub fn identity_label(identity: &ViewProjectorIdentity) -> (r: String)
    ensures
        r@ == identity_label_of(identity@.id, identity@.version),
{
    let mut s = identity.id().to_owned();
    push_str(&mut s, "@");
    let v = decimal_string(identity.version() as u64);
    push_str(&mut s, v.as_str());
    s
}

/// The settings of a live-view consumer: a durable consumer that handles one
/// message at a time, with explicit acknowledgements, retries without limit,
/// an explicit acknowledgement wait, and the projector identity in its
/// metadata.
pub fn view_consumer_config(
    config: ConsumerSettings,
    name: String,
    subjects: Vec<String>,
    projector_identity: &ViewProjectorIdentity,
) -> (r: ConsumerSettings)
    ensures
        r.durable_name == Some(name),
        r.filter_subjects == subjects,
        r.filter_subject == config.filter_subject,
        r.deliver_policy == config.deliver_policy,
        r.ack_policy == AckPolicy::Explicit,
        r.ack_wait == if config.ack_wait == 0 {
            DEFAULT_ACK_WAIT
        } else {
            config.ack_wait
        },
        r.max_ack_pending == 1,
        r.max_deliver == -1,
        r.backoff == config.backoff,
        forall|k: Seq<char>|
            #[trigger] meta_get(pair_views(r.metadata@), k) == if k
                == VIEW_PROJECTOR_ID_METADATA_KEY@ {
                Some(projector_identity@.id)
            } else if k == VIEW_PROJECTOR_VERSION_METADATA_KEY@ {
                Some(decimal(projector_identity@.version as nat))
            } else {
                meta_get(pair_views(config.metadata@), k)
            },
{
    let ghost old_metadata = config.metadata;
    let mut c = durable_consumer_config(config, name, subjects);
    c.ack_policy = AckPolicy::Explicit;
    c.max_ack_pending = 1;
    c.max_deliver = -1;
    if c.ack_wait == 0 {
        c.ack_wait = DEFAULT_ACK_WAIT;
    }
    let ghost m0 = c.metadata;
    insert_metadata(
        &mut c.metadata,
        VIEW_PROJECTOR_ID_METADATA_KEY.to_owned(),
        projector_identity.id().to_owned(),
    );
    let ghost m1 = c.metadata;
    let version = decimal_string(projector_identity.version() as u64);
    insert_metadata(&mut c.metadata, VIEW_PROJECTOR_VERSION_METADATA_KEY.to_owned(), version);
    proof {
        assert forall|k: Seq<char>|
            #[trigger] meta_get(pair_views(c.metadata@), k) == if k
                == VIEW_PROJECTOR_ID_METADATA_KEY@ {
                Some(projector_identity@.id)
            } else if k == VIEW_PROJECTOR_VERSION_METADATA_KEY@ {
                Some(decimal(projector_identity@.version as nat))
            } else {
                meta_get(pair_views(old_metadata@), k)
            } by {
            assert(meta_get(pair_views(m1@), k) == if k == VIEW_PROJECTOR_ID_METADATA_KEY@ {
                Some(projector_identity@.id)
            } else {
                meta_get(pair_views(m0@), k)
            });
            reveal_strlit("esrc-view-projector-id");
            reveal_strlit("esrc-view-projector-version");
            assert(VIEW_PROJECTOR_ID_METADATA_KEY@ != VIEW_PROJECTOR_VERSION_METADATA_KEY@) by {
                assert(VIEW_PROJECTOR_ID_METADATA_KEY@.len() != VIEW_PROJECTOR_VERSION_METADATA_KEY@.len());
            }
        }
    }
    c
}

/// The subject filters of a consumer: its filter list, and its single
/// filter when that is not empty.
pub open spec fn filters_of(c: ConsumerSettings) -> Seq<Seq<char>> {
    if c.filter_subject@.len() == 0 {
        string_views(c.filter_subjects@)
    } else {
        string_views(c.filter_subjects@).push(c.filter_subject@)
    }
}

/// The subject filters of a consumer, sorted.
pub fn normalized_filters(config: &ConsumerSettings) -> (r: Vec<&str>)
    ensures
        str_views(r@) == filters_of(*config).sort_by(lex_order()),
{
    let mut filters: Vec<&str> = Vec::new();
    let mut i: usize = 0;
    while i < config.filter_subjects.len()
        invariant
            i <= config.filter_subjects@.len(),
            str_views(filters@) == string_views(config.filter_subjects@).take(i as int),
        decreases config.filter_subjects@.len() - i,
    {
        let ghost before = filters@;
        let x = config.filter_subjects[i].as_str();
        filters.push(x);
        assert(string_views(config.filter_subjects@)[i as int] == x@);
        assert(str_views(filters@) =~= str_views(before).push(x@));
        assert(string_views(config.filter_subjects@).take(i + 1) =~= string_views(
            config.filter_subjects@,
        ).take(i as int).push(x@));
        i = i + 1;
    }
    assert(string_views(config.filter_subjects@).take(i as int) =~= string_views(
        config.filter_subjects@,
    ));
    if chars_of(config.filter_subject.as_str()).len() != 0 {
        filters.push(config.filter_subject.as_str());
        assert(str_views(filters@) =~= filters_of(*config));
    } else {
        assert(str_views(filters@) =~= filters_of(*config));
    }
    sort_strs(&filters)
}

fn strs_eq(a: &Vec<&str>, b: &Vec<&str>) -> (r: bool)
    ensures
        r == (str_views(a@) == str_views(b@)),
{
    if a.len() != b.len() {
        assert(str_views(a@).len() != str_views(b@).len());
        return false;
    }
    let mut i: usize = 0;
    while i < a.len()
        invariant
            i <= a@.len(),
            a@.len() == b@.len(),
            forall|j: int| 0 <= j < i ==> str_views(a@)[j] == str_views(b@)[j],
        decreases a@.len() - i,
    {
        let x = chars_of(a[i]);
        let y = chars_of(b[i]);
        if !chars_eq(&x, &y) {
            assert(str_views(a@)[i as int] != str_views(b@)[i as int]);
            return false;
        }
        i = i + 1;
    }
    assert(str_views(a@) =~= str_views(b@));
    true
}

/// The identity that a consumer's metadata records: `<id>@<version>` when it
/// holds both keys.
pub open spec fn recorded_identity(m: Seq<(Seq<char>, Seq<char>)>) -> Seq<char> {
    match (
        meta_get(m, VIEW_PROJECTOR_ID_METADATA_KEY@),
        meta_get(m, VIEW_PROJECTOR_VERSION_METADATA_KEY@),
    ) {
        (Some(id), Some(version)) => id + "@"@ + version,
        _ => "<missing stable projector identity>"@,
    }
}

/// A consumer's metadata records the projector identity.
pub open spec fn records_identity(m: Seq<(Seq<char>, Seq<char>)>, id: Seq<char>, version: u32) -> bool {
    &&& meta_get(m, VIEW_PROJECTOR_ID_METADATA_KEY@) == Some(id)
    &&& meta_get(m, VIEW_PROJECTOR_VERSION_METADATA_KEY@) == Some(decimal(version as nat))
}

/// What checking an existing view consumer gives: a mismatch when its metadata
/// records another identity (or none), else when its filters differ from the
/// expected ones as a multiset, else success.
pub open spec fn view_consumer_check(
    durable: Seq<char>,
    existing: ConsumerSettings,
    expected: ConsumerSettings,
    id: Seq<char>,
    version: u32,
) -> Result<(), IdentityMismatchView> {
    let label = identity_label_of(id, version);
    if !records_identity(pair_views(existing.metadata@), id, version) {
        Err(
            IdentityMismatchView {
                durable,
                expected: label,
                actual: recorded_identity(pair_views(existing.metadata@)),
            },
        )
    } else if filters_of(existing).to_multiset() != filters_of(expected).to_multiset() {
        Err(
            IdentityMismatchView {
                durable,
                expected: label,
                actual: label + " with different filters"@,
            },
        )
    } else {
        Ok(())
    }
}

/// The view of a consumer check.
pub open spec fn check_view(r: Result<(), NatsViewConsumerIdentityMismatch>) -> Result<
    (),
    IdentityMismatchView,
> {
    match r {
        Ok(()) => Ok(()),
        Err(m) => Err(m@),
    }
}

pub fn meta_lookup<'a>(m: &'a Vec<(String, String)>, key: &str) -> (r: Option<&'a String>)
    ensures
        match r {
            Some(v) => meta_get(pair_views(m@), key@) == Some(v@),
            None => meta_get(pair_views(m@), key@) is None,
        },
{
    let kc = chars_of(key);
    let ghost mv = pair_views(m@);
    let mut i: usize = 0;
    assert(mv.skip(0) =~= mv);
    while i < m.len()
        invariant
            i <= m@.len(),
            kc@ == key@,
            mv == pair_views(m@),
            meta_get(mv, key@) == meta_get(mv.skip(i as int), key@),
        decreases m@.len() - i,
    {
        let ec = chars_of(m[i].0.as_str());
        assert(mv.skip(i as int)[0] == mv[i as int]);
        if chars_eq(&ec, &kc) {
            return Some(&m[i].1);
        }
        assert(mv.skip(i as int).drop_first() =~= mv.skip(i + 1));
        i = i + 1;
    }
    None
}

proof fn lemma_sorted_equal_iff_same_multiset(a: Seq<Seq<char>>, b: Seq<Seq<char>>)
    ensures
        (a.sort_by(lex_order()) == b.sort_by(lex_order())) == (a.to_multiset()
            == b.to_multiset()),
{
    lemma_lex_total();
    a.lemma_sort_by_ensures(lex_order());
    b.lemma_sort_by_ensures(lex_order());
    if a.to_multiset() == b.to_multiset() {
        lemma_sorted_unique(a.sort_by(lex_order()), b.sort_by(lex_order()), lex_order());
    }
}

/// Check that an existing durable view consumer belongs to the expected
/// projector identity and version, and filters the expected subjects.
pub fn validate_view_consumer(
    durable: &str,
    existing: &ConsumerSettings,
    expected_config: &ConsumerSettings,
    expected_identity: &ViewProjectorIdentity,
) -> (r: Result<(), NatsViewConsumerIdentityMismatch>)
    ensures
        check_view(r) == view_consumer_check(
            durable@,
            *existing,
            *expected_config,
            expected_identity@.id,
            expected_identity@.version,
        ),
{
    let expected = identity_label(expected_identity);
    let expected_version = decimal_string(expected_identity.version() as u64);
    let actual_id = meta_lookup(&existing.metadata, VIEW_PROJECTOR_ID_METADATA_KEY);
    let actual_version = meta_lookup(&existing.metadata, VIEW_PROJECTOR_VERSION_METADATA_KEY);
    let id_matches = match actual_id {
        Some(id) => {
            let a = chars_of(id.as_str());
            let b = chars_of(expected_identity.id());
            chars_eq(&a, &b)
        },
        None => false,
    };
    let version_matches = match actual_version {
        Some(v) => {
            let a = chars_of(v.as_str());
            let b = chars_of(expected_version.as_str());
            chars_eq(&a, &b)
        },
        None => false,
    };
    if !id_matches || !version_matches {
        let actual = match (actual_id, actual_version) {
            (Some(id), Some(version)) => {
                let mut s = id.clone();
                push_str(&mut s, "@");
                push_str(&mut s, version.as_str());
                s
            },
            _ => "<missing stable projector identity>".to_owned(),
        };
        return Err(view_identity_mismatch(durable, expected.as_str(), actual));
    }
    let existing_filters = normalized_filters(existing);
    let expected_filters = normalized_filters(expected_config);
    proof {
        lemma_sorted_equal_iff_same_multiset(filters_of(*existing), filters_of(*expected_config));
    }
    if !strs_eq(&existing_filters, &expected_filters) {
        let mut actual = expected.clone();
        push_str(&mut actual, " with different filters");
        return Err(view_identity_mismatch(durable, expected.as_str(), actual));
    }
    Ok(())
}

/// A live-view consumer created with the settings that the store asked for
/// passes the store's own check: settings whose metadata records the
/// projector identity are accepted when compared with themselves.
pub proof fn lemma_requested_view_consumer_is_accepted(
    durable: Seq<char>,
    config: ConsumerSettings,
    id: Seq<char>,
    version: u32,
)
    requires
        meta_get(pair_views(config.metadata@), VIEW_PROJECTOR_ID_METADATA_KEY@) == Some(id),
        meta_get(pair_views(config.metadata@), VIEW_PROJECTOR_VERSION_METADATA_KEY@) == Some(
            decimal(version as nat),
        ),
    ensures
        view_consumer_check(durable, config, config, id, version) == Ok::<(), IdentityMismatchView>(()),
{
}

/// A consumer whose metadata records another projector identifier or version
/// is refused, whatever its filters.
pub proof fn lemma_other_identity_is_refused(
    durable: Seq<char>,
    existing: ConsumerSettings,
    expected: ConsumerSettings,
    id: Seq<char>,
    version: u32,
)
    requires
        !records_identity(pair_views(existing.metadata@), id, version),
    ensures
        view_consumer_check(durable, existing, expected, id, version) is Err,
{
}

/// The acknowledgement wait that a consumer effectively uses: its first
/// backoff step when it has one, else its acknowledgement wait.
pub fn effective_ack_wait(ack_wait: u64, backoff: &Vec<u64>) -> (r: u64)
    ensures
        r == if backoff@.len() > 0 {
            backoff@[0]
        } else {
            ack_wait
        },
{
    if backoff.len() > 0 {
        backoff[0]
    } else {
        ack_wait
    }
}

/// How often a live view renews the acknowledgement lease of the message it is
/// projecting: a third of the acknowledgement wait, and at least a millisecond.
pub fn progress_interval(ack_wait: u64) -> (r: u64)
    ensures
        r == if ack_wait / 3 > MILLISECOND {
            ack_wait / 3
        } else {
            MILLISECOND
        },
        r < ack_wait || ack_wait < 3 * MILLISECOND,
{
    let third = ack_wait / 3;
    if third > MILLISECOND {
        third
    } else {
        MILLISECOND
    }
}

/// How a stream retains its messages.
#[derive(Clone, Copy, Debug, PartialEq, Eq, Structural)]
pub enum RetentionPolicy {
    /// Until a limit is reached (the default).
    Limits,
    /// While a consumer is interested in them.
    Interest,
    /// Until the first consumer acknowledges them.
    WorkQueue,
}

/// What a stream does when a limit is reached.
#[derive(Clone, Copy, Debug, PartialEq, Eq, Structural)]
pub enum DiscardPolicy {
    /// Remove older messages (the default).
    Old,
    /// Refuse new messages.
    New,
}

/// Where a stream keeps its messages.
#[derive(Clone, Copy, Debug, PartialEq, Eq, Structural)]
pub enum StorageType {
    /// In files (the default).
    File,
    /// In memory only.
    Memory,
}

/// The settings of a JetStream stream that the store reads and writes. A
/// limit of zero is no limit; `max_age` is in nanoseconds.
#[derive(Clone, Debug)]
pub struct StreamSettings {
    pub name: String,
    pub subjects: Vec<String>,
    /// The name of the stream that this stream mirrors, if any.
    pub mirror: Option<String>,
    pub retention: RetentionPolicy,
    pub discard: DiscardPolicy,
    pub storage: StorageType,
    pub max_messages: i64,
    pub max_bytes: i64,
    pub max_messages_per_subject: i64,
    pub max_age: u64,
    pub num_replicas: usize,
}

/// A stream with default settings and the given name, subjects and replica count.
pub open spec fn stream_defaults(s: StreamSettings, name: Seq<char>, subjects: Seq<Seq<char>>, replicas: usize) -> bool {
    &&& s.name@ == name
    &&& string_views(s.subjects@) == subjects
    &&& s.retention == RetentionPolicy::Limits
    &&& s.storage == StorageType::File
    &&& s.max_messages == 0
    &&& s.max_bytes == 0
    &&& s.max_messages_per_subject == 0
    &&& s.max_age == 0
    &&& s.num_replicas == replicas
}

fn stream_config(name: String, subjects: Vec<String>, num_replicas: usize) -> (r: StreamSettings)
    ensures
        stream_defaults(r, name@, string_views(subjects@), num_replicas),
        r.mirror is None,
        r.discard == DiscardPolicy::Old,
{
    StreamSettings {
        name,
        subjects,
        mirror: None,
        retention: RetentionPolicy::Limits,
        discard: DiscardPolicy::Old,
        storage: StorageType::File,
        max_messages: 0,
        max_bytes: 0,
        max_messages_per_subject: 0,
        max_age: 0,
        num_replicas,
    }
}

/// The writer stream of a store: named by the prefix, holding every subject
/// under it, refusing new messages at its limits, with the requested replicas.
pub fn writer_stream_config(prefix: &str, options: NatsStoreOptions) -> (r: StreamSettings)
    ensures
        stream_defaults(
            r,
            prefix@,
            seq![subject_text(prefix@, SubjectView::Wildcard)],
            replica_count(options@),
        ),
        r.mirror is None,
        r.discard == DiscardPolicy::New,
{
    let subject = NatsSubject::Wildcard.into_string(prefix);
    let ghost sv = subject@;
    let mut subjects = Vec::new();
    subjects.push(subject);
    assert(string_views(subjects@) =~= seq![sv]);
    let mut r = stream_config(prefix.to_owned(), subjects, options.stream_replicas().count());
    r.discard = DiscardPolicy::New;
    r
}

/// A read stream that mirrors the whole writer stream of `prefix`.
pub fn mirror_stream_config(mirror_name: String, prefix: &str, options: NatsStoreOptions) -> (r:
    StreamSettings)
    ensures
        stream_defaults(r, mirror_name@, seq![], replica_count(options@)),
        r.mirror matches Some(m) && m@ == prefix@,
        r.discard == DiscardPolicy::New,
{
    let mut r = stream_config(mirror_name, Vec::new(), options.stream_replicas().count());
    assert(string_views(Seq::<String>::empty()) =~= Seq::<Seq<char>>::empty());
    r.mirror = Some(prefix.to_owned());
    r.discard = DiscardPolicy::New;
    r
}

/// The consumer settings a store starts with: default settings, delivering
/// only the messages published after the consumer is created.
pub fn default_durable_consumer_config() -> (r: ConsumerSettings)
    ensures
        r.durable_name is None,
        r.filter_subject@ == Seq::<char>::empty(),
        r.filter_subjects@.len() == 0,
        r.deliver_policy == DeliverPolicy::New,
        r.ack_policy == AckPolicy::Explicit,
        r.ack_wait == 0,
        r.max_ack_pending == 0,
        r.max_deliver == 0,
        r.metadata@.len() == 0,
        r.backoff@.len() == 0,
{
    let mut c = ConsumerSettings::default();
    c.deliver_policy = DeliverPolicy::New;
    c
}

/// Where an ordered replay consumer starts: at `start_sequence` when it is
/// positive, else at the first message.
pub fn ordered_deliver_policy(start_sequence: u64) -> (r: DeliverPolicy)
    ensures
        r == if start_sequence > 0 {
            DeliverPolicy::ByStartSequence { start_sequence }
        } else {
            DeliverPolicy::All
        },
{
    if start_sequence > 0 {
        DeliverPolicy::ByStartSequence { start_sequence }
    } else {
        DeliverPolicy::All
    }
}

} // verus!

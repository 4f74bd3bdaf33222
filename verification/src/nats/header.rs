//! NATS message headers written and read by the store, and the deterministic
//! message ID of a published event.
use vstd::prelude::*;
use vstd::relations::*;
use vstd::seq_lib::*;

use vstd::utf8::encode_utf8;

use crate::ids::hex_digit;
use crate::text::{
    chars_eq, chars_of, lemma_is_sort, lemma_pair_total, pair_order, pair_views, push_char,
    push_str, sort_pairs,
};

verus! {

/// The header holding the version of the published event.
pub const VERSION_KEY: &'static str = "Esrc-Version";

/// The header holding the type of the published event.
pub const EVENT_TYPE: &'static str = "Esrc-Event-Type";

/// The prefix of headers that hold caller metadata, so that it cannot
/// override the reserved headers.
pub const METADATA_PREFIX: &'static str = "xn-";

/// The JetStream header that makes a publish conditional on the last sequence
/// of its subject.
pub const EXPECTED_LAST_SUBJECT_SEQUENCE: &'static str = "Nats-Expected-Last-Subject-Sequence";

/// The headers of a message: each name with its values, names distinct.
pub type Headers = Vec<(String, Vec<String>)>;

/// The view of a header list.
pub open spec fn headers_view(h: Seq<(String, Vec<String>)>) -> Seq<(Seq<char>, Seq<Seq<char>>)> {
    h.map_values(|e: (String, Vec<String>)| (e.0@, e.1@.map_values(|v: String| v@)))
}

/// The first value of the first header named `key`, if any.
pub open spec fn header_first(h: Seq<(Seq<char>, Seq<Seq<char>>)>, key: Seq<char>) -> Option<
    Seq<char>,
>
    decreases h.len(),
{
    if h.len() == 0 {
        None
    } else if h[0].0 == key {
        if h[0].1.len() > 0 {
            Some(h[0].1[0])
        } else {
            None
        }
    } else {
        header_first(h.drop_first(), key)
    }
}

/// The values appended under `key` to a header map, in order.
pub open spec fn appended_values(pairs: Seq<(Seq<char>, Seq<char>)>, key: Seq<char>) -> Seq<Seq<char>>
    decreases pairs.len(),
{
    if pairs.len() == 0 {
        Seq::empty()
    } else if pairs[0].0 == key {
        seq![pairs[0].1] + appended_values(pairs.drop_first(), key)
    } else {
        appended_values(pairs.drop_first(), key)
    }
}

/// `h` is how a header map that was built by appending `pairs` reads: each
/// name once, with the values appended under it in order.
pub open spec fn groups(h: Seq<(Seq<char>, Seq<Seq<char>>)>, pairs: Seq<(Seq<char>, Seq<char>)>) -> bool {
    &&& forall|i: int, j: int| 0 <= i < j < h.len() ==> h[i].0 != h[j].0
    &&& forall|i: int| 0 <= i < h.len() ==> h[i].1 == appended_values(pairs, #[trigger] h[i].0)
    &&& forall|k: Seq<char>|
        #![trigger appended_values(pairs, k)]
        appended_values(pairs, k).len() > 0 ==> exists|i: int| 0 <= i < h.len() && h[i].0 == k
}

proof fn lemma_header_first_at(h: Seq<(Seq<char>, Seq<Seq<char>>)>, k: Seq<char>, i: int)
    requires
        0 <= i < h.len(),
        h[i].0 == k,
        forall|j: int| 0 <= j < i ==> h[j].0 != k,
    ensures
        header_first(h, k) == if h[i].1.len() > 0 {
            Some(h[i].1[0])
        } else {
            None
        },
    decreases i,
{
    if i > 0 {
        lemma_header_first_at(h.drop_first(), k, i - 1);
    }
}

proof fn lemma_header_first_absent(h: Seq<(Seq<char>, Seq<Seq<char>>)>, k: Seq<char>)
    requires
        forall|j: int| 0 <= j < h.len() ==> h[j].0 != k,
    ensures
        header_first(h, k) is None,
    decreases h.len(),
{
    if h.len() > 0 {
        lemma_header_first_absent(h.drop_first(), k);
    }
}

/// In a header map built by appending pairs, the first value of a name is the
/// first value appended under it.
pub proof fn lemma_grouped_first(h: Seq<(Seq<char>, Seq<Seq<char>>)>, pairs: Seq<(Seq<char>, Seq<char>)>, k: Seq<char>)
    requires
        groups(h, pairs),
    ensures
        header_first(h, k) == if appended_values(pairs, k).len() > 0 {
            Some(appended_values(pairs, k)[0])
        } else {
            None
        },
{
    if exists|i: int| 0 <= i < h.len() && h[i].0 == k {
        let i = choose|i: int| 0 <= i < h.len() && h[i].0 == k;
        assert(h[i].1 == appended_values(pairs, h[i].0));
        lemma_header_first_at(h, k, i);
    } else {
        lemma_header_first_absent(h, k);
    }
}

/// No value is appended under a key that no pair has.
pub proof fn lemma_appended_absent(pairs: Seq<(Seq<char>, Seq<char>)>, k: Seq<char>)
    requires
        forall|i: int| 0 <= i < pairs.len() ==> pairs[i].0 != k,
    ensures
        appended_values(pairs, k) == Seq::<Seq<char>>::empty(),
    decreases pairs.len(),
{
    if pairs.len() > 0 {
        lemma_appended_absent(pairs.drop_first(), k);
    }
}

/// The values appended under a key by two runs of appends, one after the other.
pub proof fn lemma_appended_concat(a: Seq<(Seq<char>, Seq<char>)>, b: Seq<(Seq<char>, Seq<char>)>, k: Seq<char>)
    ensures
        appended_values(a + b, k) == appended_values(a, k) + appended_values(b, k),
    decreases a.len(),
{
    if a.len() == 0 {
        assert(a + b =~= b);
    } else {
        lemma_appended_concat(a.drop_first(), b, k);
        assert((a + b).drop_first() =~= a.drop_first() + b);
        assert((a + b)[0] == a[0]);
    }
}

/// The values appended under a prefixed metadata key are those of the key;
/// the first of them is the key's first value.
pub proof fn lemma_appended_prefixed(m: Seq<(Seq<char>, Seq<char>)>, k: Seq<char>)
    ensures
        appended_values(prefixed(m), METADATA_PREFIX@ + k).len() > 0 <==> crate::nats::config::meta_get(m, k) is Some,
        appended_values(prefixed(m), METADATA_PREFIX@ + k).len() > 0 ==> appended_values(prefixed(m), METADATA_PREFIX@ + k)[0] == crate::nats::config::meta_get(m, k)->Some_0,
    decreases m.len(),
{
    if m.len() > 0 {
        lemma_appended_prefixed(m.drop_first(), k);
        assert(prefixed(m).drop_first() =~= prefixed(m.drop_first()));
        assert(prefixed(m)[0] == (METADATA_PREFIX@ + m[0].0, m[0].1));
        if m[0].0 != k {
            assert(METADATA_PREFIX@ + m[0].0 != METADATA_PREFIX@ + k) by {
                if METADATA_PREFIX@ + m[0].0 == METADATA_PREFIX@ + k {
                    assert((METADATA_PREFIX@ + m[0].0).skip(METADATA_PREFIX@.len() as int) =~= m[0].0);
                    assert((METADATA_PREFIX@ + k).skip(METADATA_PREFIX@.len() as int) =~= k);
                }
            }
        }
    } else {
        assert(prefixed(m) =~= Seq::<(Seq<char>, Seq<char>)>::empty());
    }
}

/// The first value of the header named `key`.
pub fn get<'a>(headers: &'a Headers, key: &str) -> (r: Option<&'a String>)
    ensures
        match r {
            Some(v) => header_first(headers_view(headers@), key@) == Some(v@),
            None => header_first(headers_view(headers@), key@) is None,
        },
{
    let kc = chars_of(key);
    let mut i: usize = 0;
    let ghost hv = headers_view(headers@);
    assert(hv.skip(0) =~= hv);
    while i < headers.len()
        invariant
            i <= headers@.len(),
            kc@ == key@,
            hv == headers_view(headers@),
            header_first(hv, key@) == header_first(hv.skip(i as int), key@),
        decreases headers@.len() - i,
    {
        let nc = chars_of(headers[i].0.as_str());
        assert(hv.skip(i as int)[0] == hv[i as int]);
        if chars_eq(&nc, &kc) {
            if headers[i].1.len() > 0 {
                return Some(&headers[i].1[0]);
            } else {
                return None;
            }
        }
        assert(hv.skip(i as int).drop_first() =~= hv.skip(i + 1));
        i = i + 1;
    }
    None
}

/// The headers that publishing an event writes, in order: its version, the
/// expected last sequence of its subject (for optimistic concurrency, when
/// given), its type, then each metadata entry under the metadata prefix.
pub open spec fn publish_headers_of(
    version: usize,
    last_sequence: Option<u64>,
    event_type: Seq<char>,
    metadata: Seq<(Seq<char>, Seq<char>)>,
) -> Seq<(Seq<char>, Seq<char>)> {
    let reserved = match last_sequence {
        Some(s) => seq![
            (VERSION_KEY@, crate::text::decimal(version as nat)),
            (EXPECTED_LAST_SUBJECT_SEQUENCE@, crate::text::decimal(s as nat)),
            (EVENT_TYPE@, event_type),
        ],
        None => seq![
            (VERSION_KEY@, crate::text::decimal(version as nat)),
            (EVENT_TYPE@, event_type),
        ],
    };
    reserved + prefixed(metadata)
}

/// Metadata entries with their keys under the metadata prefix.
pub open spec fn prefixed(metadata: Seq<(Seq<char>, Seq<char>)>) -> Seq<(Seq<char>, Seq<char>)> {
    metadata.map_values(|m: (Seq<char>, Seq<char>)| (METADATA_PREFIX@ + m.0, m.1))
}

/// The headers to write when publishing an event (each pair is appended).
pub fn publish_headers(
    version: usize,
    last_sequence: Option<u64>,
    event_type: &str,
    metadata: Option<&Vec<(String, String)>>,
) -> (r: Vec<(String, String)>)
    ensures
        pair_views(r@) == publish_headers_of(
            version,
            last_sequence,
            event_type@,
            match metadata {
                Some(m) => pair_views(m@),
                None => Seq::empty(),
            },
        ),
{
    let mut r: Vec<(String, String)> = Vec::new();
    r.push((VERSION_KEY.to_owned(), crate::text::decimal_string(version as u64)));
    match last_sequence {
        Some(s) => {
            r.push(
                (EXPECTED_LAST_SUBJECT_SEQUENCE.to_owned(), crate::text::decimal_string(s)),
            );
        },
        None => {},
    }
    r.push((EVENT_TYPE.to_owned(), event_type.to_owned()));
    let ghost reserved = pair_views(r@);
    let ghost mv = match metadata {
        Some(m) => pair_views(m@),
        None => Seq::<(Seq<char>, Seq<char>)>::empty(),
    };
    match metadata {
        Some(m) => {
            let mut i: usize = 0;
            while i < m.len()
                invariant
                    i <= m@.len(),
                    mv == pair_views(m@),
                    pair_views(r@) == reserved + prefixed(mv.take(i as int)),
                decreases m@.len() - i,
            {
                let mut k = METADATA_PREFIX.to_owned();
                push_str(&mut k, m[i].0.as_str());
                let v = m[i].1.clone();
                let ghost before = r@;
                let ghost entry = (k@, v@);
                assert(mv[i as int] == (m@[i as int].0@, m@[i as int].1@));
                assert(entry == (METADATA_PREFIX@ + mv[i as int].0, mv[i as int].1));
                r.push((k, v));
                assert(pair_views(r@) =~= pair_views(before).push(entry));
                assert(mv.take(i + 1) =~= mv.take(i as int).push(mv[i as int]));
                assert(prefixed(mv.take(i + 1)) =~= prefixed(mv.take(i as int)).push(
                    (METADATA_PREFIX@ + mv[i as int].0, mv[i as int].1),
                ));
                assert(pair_views(r@) =~= reserved + prefixed(mv.take(i + 1)));
                i = i + 1;
            }
            assert(mv.take(i as int) =~= mv);
        },
        None => {
            assert(prefixed(mv) =~= Seq::<(Seq<char>, Seq<char>)>::empty());
        },
    }
    assert(pair_views(r@) =~= publish_headers_of(version, last_sequence, event_type@, mv));
    r
}

// ---------------------------------------------------------------------------
// Message IDs
// ---------------------------------------------------------------------------

/// The SHA-256 digest of a byte string.
pub uninterp spec fn sha256_digest(data: Seq<u8>) -> Seq<u8>;

/// Hash a byte string with `sha2::Sha256`.
///
/// The contract claims that the result is `sha256_digest` of the input and is
/// 32 bytes long (the output size of SHA-256).
#[verifier::external_body]
fn sha256(data: &[u8]) -> (r: Vec<u8>)
    ensures
        r@ == sha256_digest(data@),
        r@.len() == 32,
{
    <sha2::Sha256 as sha2::Digest>::digest(data).to_vec()
}

/// The eight big-endian bytes of `n`.
pub open spec fn be_bytes(n: u64) -> Seq<u8> {
    seq![
        (n >> 56u64) as u8,
        (n >> 48u64) as u8,
        (n >> 40u64) as u8,
        (n >> 32u64) as u8,
        (n >> 24u64) as u8,
        (n >> 16u64) as u8,
        (n >> 8u64) as u8,
        n as u8,
    ]
}

/// A byte string framed by its length, so that consecutive fields cannot run together.
pub open spec fn frame(b: Seq<u8>) -> Seq<u8> {
    be_bytes(b.len() as u64) + b
}

/// The framed keys and values of a metadata list, in order.
pub open spec fn frame_pairs(ps: Seq<(Seq<char>, Seq<char>)>) -> Seq<u8>
    decreases ps.len(),
{
    if ps.len() == 0 {
        Seq::empty()
    } else {
        frame_pairs(ps.drop_last()) + frame(encode_utf8(ps.last().0)) + frame(
            encode_utf8(ps.last().1),
        )
    }
}

/// The tag that starts every hashed message-ID input.
pub open spec fn message_id_tag() -> Seq<char> {
    "esrc-nats-occ-event-v1"@
}

/// The bytes hashed into the message ID of a published event: the tag, the
/// subject, the expected last sequence, the version, the event type, the
/// payload, and the metadata sorted by key, each field framed by its length.
pub open spec fn message_id_input(
    subject: Seq<char>,
    last_sequence: u64,
    version: usize,
    event_type: Seq<char>,
    payload: Seq<u8>,
    metadata: Seq<(Seq<char>, Seq<char>)>,
) -> Seq<u8> {
    let sorted = metadata.sort_by(pair_order());
    frame(encode_utf8(message_id_tag())) + frame(encode_utf8(subject)) + frame(
        be_bytes(last_sequence),
    ) + frame(be_bytes(version as u64)) + frame(encode_utf8(event_type)) + frame(payload)
        + frame(be_bytes(sorted.len() as u64)) + frame_pairs(sorted)
}

/// Two lowercase hexadecimal digits per byte.
pub open spec fn hex_bytes(b: Seq<u8>) -> Seq<char>
    decreases b.len(),
{
    if b.len() == 0 {
        Seq::empty()
    } else {
        hex_bytes(b.drop_last()) + seq![
            hex_digit((b.last() / 16) as nat),
            hex_digit((b.last() % 16) as nat),
        ]
    }
}

/// The message ID of a published event: `esrc-v1-` and the hexadecimal
/// SHA-256 digest of its framed fields.
pub open spec fn message_id_text(
    subject: Seq<char>,
    last_sequence: u64,
    version: usize,
    event_type: Seq<char>,
    payload: Seq<u8>,
    metadata: Seq<(Seq<char>, Seq<char>)>,
) -> Seq<char> {
    "esrc-v1-"@ + hex_bytes(
        sha256_digest(
            message_id_input(subject, last_sequence, version, event_type, payload, metadata),
        ),
    )
}

fn append_bytes(v: &mut Vec<u8>, b: &[u8])
    ensures
        final(v)@ == old(v)@ + b@,
{
    let mut i: usize = 0;
    while i < b.len()
        invariant
            i <= b@.len(),
            v@ == old(v)@ + b@.take(i as int),
        decreases b@.len() - i,
    {
        v.push(b[i]);
        assert(b@.take(i + 1) =~= b@.take(i as int).push(b@[i as int]));
        i = i + 1;
    }
    assert(b@.take(i as int) =~= b@);
}

fn push_be_bytes(v: &mut Vec<u8>, n: u64)
    ensures
        final(v)@ == old(v)@ + be_bytes(n),
{
    v.push((n >> 56u64) as u8);
    v.push((n >> 48u64) as u8);
    v.push((n >> 40u64) as u8);
    v.push((n >> 32u64) as u8);
    v.push((n >> 24u64) as u8);
    v.push((n >> 16u64) as u8);
    v.push((n >> 8u64) as u8);
    v.push(n as u8);
    assert(v@ =~= old(v)@ + be_bytes(n));
}

fn push_frame(v: &mut Vec<u8>, b: &[u8])
    ensures
        final(v)@ == old(v)@ + frame(b@),
{
    push_be_bytes(v, b.len() as u64);
    append_bytes(v, b);
    assert(v@ =~= old(v)@ + frame(b@));
}

fn push_hex_digit(s: &mut String, n: u8)
    requires
        n < 16,
    ensures
        final(s)@ == old(s)@.push(hex_digit(n as nat)),
{
    if n < 10 {
        push_char(s, (48 + n) as char);
    } else {
        push_char(s, (87 + n) as char);
    }
}

/// A deterministic message ID for a published event.
///
/// The ID depends on the metadata only through its entries, not their order.
pub fn event_message_id(
    subject: &str,
    last_sequence: u64,
    version: usize,
    event_type: &str,
    payload: &[u8],
    metadata: Option<&Vec<(String, String)>>,
) -> (r: String)
    ensures
        r@ == message_id_text(
            subject@,
            last_sequence,
            version,
            event_type@,
            payload@,
            match metadata {
                Some(m) => pair_views(m@),
                None => Seq::empty(),
            },
        ),
{
    let ghost mv = match metadata {
        Some(m) => pair_views(m@),
        None => Seq::<(Seq<char>, Seq<char>)>::empty(),
    };
    let sorted: Vec<(String, String)> = match metadata {
        Some(m) => sort_pairs(m),
        None => Vec::new(),
    };
    proof {
        lemma_pair_total();
        if metadata is None {
            assert(pair_views(sorted@) =~= mv);
            lemma_is_sort(mv, mv, pair_order());
        }
    }
    let ghost sv = pair_views(sorted@);
    assert(sv == mv.sort_by(pair_order()));
    let mut input: Vec<u8> = Vec::new();
    push_frame(&mut input, "esrc-nats-occ-event-v1".as_bytes());
    push_frame(&mut input, subject.as_bytes());
    push_be_bytes(&mut input, 8);
    push_be_bytes(&mut input, last_sequence);
    push_be_bytes(&mut input, 8);
    push_be_bytes(&mut input, version as u64);
    push_frame(&mut input, event_type.as_bytes());
    push_frame(&mut input, payload);
    push_be_bytes(&mut input, 8);
    push_be_bytes(&mut input, sorted.len() as u64);
    let ghost head = input@;
    assert(head =~= frame(encode_utf8(message_id_tag())) + frame(encode_utf8(subject@)) + frame(
        be_bytes(last_sequence),
    ) + frame(be_bytes(version as u64)) + frame(encode_utf8(event_type@)) + frame(payload@)
        + frame(be_bytes(sv.len() as u64)));
    let mut i: usize = 0;
    while i < sorted.len()
        invariant
            i <= sorted@.len(),
            sv == pair_views(sorted@),
            input@ == head + frame_pairs(sv.take(i as int)),
        decreases sorted@.len() - i,
    {
        push_frame(&mut input, sorted[i].0.as_str().as_bytes());
        push_frame(&mut input, sorted[i].1.as_str().as_bytes());
        assert(sv.take(i + 1).drop_last() =~= sv.take(i as int));
        assert(input@ =~= head + frame_pairs(sv.take(i + 1)));
        i = i + 1;
    }
    assert(sv.take(i as int) =~= sv);
    let digest = sha256(input.as_slice());
    let mut id = "esrc-v1-".to_owned();
    let ghost start = id@;
    let mut j: usize = 0;
    while j < digest.len()
        invariant
            j <= digest@.len(),
            id@ == start + hex_bytes(digest@.take(j as int)),
        decreases digest@.len() - j,
    {
        let byte = digest[j];
        push_hex_digit(&mut id, byte / 16);
        push_hex_digit(&mut id, byte % 16);
        assert(digest@.take(j + 1).drop_last() =~= digest@.take(j as int));
        assert(id@ =~= start + hex_bytes(digest@.take(j + 1)));
        j = j + 1;
    }
    assert(digest@.take(j as int) =~= digest@);
    id
}

/// The message ID of a published event does not depend on the order in which
/// its metadata entries are given.
pub proof fn lemma_message_id_ignores_metadata_order(
    subject: Seq<char>,
    last_sequence: u64,
    version: usize,
    event_type: Seq<char>,
    payload: Seq<u8>,
    m1: Seq<(Seq<char>, Seq<char>)>,
    m2: Seq<(Seq<char>, Seq<char>)>,
)
    requires
        m1.to_multiset() == m2.to_multiset(),
    ensures
        message_id_text(subject, last_sequence, version, event_type, payload, m1)
            == message_id_text(subject, last_sequence, version, event_type, payload, m2),
{
    lemma_pair_total();
    m1.lemma_sort_by_ensures(pair_order());
    m2.lemma_sort_by_ensures(pair_order());
    lemma_sorted_unique(m1.sort_by(pair_order()), m2.sort_by(pair_order()), pair_order());
}

} // verus!

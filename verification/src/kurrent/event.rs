//! The decisions behind reading and writing event streams in KurrentDB.
use vstd::prelude::*;

use crate::error::{Error, ErrorView};
use crate::kurrent::convert::{kurrent_error_view, KurrentError, KurrentErrorKind};
use crate::kurrent::header::{EVENT_TYPE, VERSION_KEY};
use crate::kurrent::envelope::{decoded_map, encode_string_map, envelope_from_event, json_string_map, lemma_written_event_reads_back};
use crate::kurrent::subject::parse_kurrent_subject;
use crate::envelope::EnvelopeView;
use crate::nats::config::{distinct_keys, insert_metadata, meta_get, pairs_map, string_views};
use crate::nats::subject::SubjectView;
use crate::nats::event::{dash_joined, join_dash};
use crate::text::{decimal, decimal_string, lex_order, pair_views, sort_strs, str_views};

verus! {

/// The metadata written with an event: the caller's metadata, with the
/// reserved version and event type keys set (overriding any caller value).
pub fn publish_metadata(
    metadata: Option<Vec<(String, String)>>,
    version: usize,
    event_type: &str,
) -> (r: Vec<(String, String)>)
    ensures
        forall|k: Seq<char>|
            #[trigger] meta_get(pair_views(r@), k) == if k == VERSION_KEY@ {
                Some(decimal(version as nat))
            } else if k == EVENT_TYPE@ {
                Some(event_type@)
            } else {
                match metadata {
                    Some(m) => meta_get(pair_views(m@), k),
                    None => None,
                }
            },
        (metadata matches Some(m) ==> distinct_keys(pair_views(m@))) ==> distinct_keys(pair_views(r@)),
{
    let mut m = match metadata {
        Some(m) => m,
        None => Vec::new(),
    };
    let ghost m0 = m@;
    assert(metadata is None ==> pair_views(m0) =~= Seq::<(Seq<char>, Seq<char>)>::empty());
    insert_metadata(&mut m, VERSION_KEY.to_owned(), decimal_string(version as u64));
    let ghost m1 = m@;
    insert_metadata(&mut m, EVENT_TYPE.to_owned(), event_type.to_owned());
    proof {
        reveal_strlit("Esrc-Version");
        reveal_strlit("Esrc-Event-Type");
        assert(VERSION_KEY@ != EVENT_TYPE@) by {
            assert(VERSION_KEY@.len() != EVENT_TYPE@.len());
        }
        assert forall|k: Seq<char>|
            #[trigger] meta_get(pair_views(m@), k) == if k == VERSION_KEY@ {
                Some(decimal(version as nat))
            } else if k == EVENT_TYPE@ {
                Some(event_type@)
            } else {
                match metadata {
                    Some(mm) => meta_get(pair_views(mm@), k),
                    None => None,
                }
            } by {
            assert(meta_get(pair_views(m1), k) == if k == VERSION_KEY@ {
                Some(decimal(version as nat))
            } else {
                meta_get(pair_views(m0), k)
            });
            if metadata is None {
                assert(pair_views(m0) =~= Seq::<(Seq<char>, Seq<char>)>::empty());
            }
        }
    }
    m
}

/// What reading the next event of a stream gives: the event, the end of the
/// stream (also when the stream does not exist), or the error.
pub fn read_outcome<T>(r: Result<Option<T>, KurrentError>) -> (o: Option<Result<T, Error>>)
    ensures
        match r {
            Ok(Some(e)) => o == Some(Ok::<T, Error>(e)),
            Ok(None) => o is None,
            Err(e) => if e.kind == KurrentErrorKind::ResourceNotFound {
                o is None
            } else {
                o matches Some(Err(x)) && x@ == kurrent_error_view(e)
            },
        },
{
    match r {
        Ok(Some(e)) => Some(Ok(e)),
        Ok(None) => None,
        Err(e) => {
            if e.kind == KurrentErrorKind::ResourceNotFound {
                None
            } else {
                Some(Err(Error::from(e)))
            }
        },
    }
}

/// What creating a persistent subscription gives: success also when it
/// already exists.
pub fn subscription_outcome(r: Result<(), KurrentError>) -> (o: Result<(), Error>)
    ensures
        match r {
            Ok(()) => o is Ok,
            Err(e) => if e.kind == KurrentErrorKind::ResourceAlreadyExists {
                o is Ok
            } else {
                o matches Err(x) && x@ == kurrent_error_view(e)
            },
        },
{
    match r {
        Ok(()) => Ok(()),
        Err(e) => {
            if e.kind == KurrentErrorKind::ResourceAlreadyExists {
                Ok(())
            } else {
                Err(Error::from(e))
            }
        },
    }
}

/// What a durable subscription yields for a received event that it then
/// acknowledged: the event, or the error of receiving or acknowledging it.
pub fn acked_outcome<T>(m: Result<Result<T, KurrentError>, KurrentError>) -> (o: Result<T, Error>)
    ensures
        match m {
            Ok(Ok(v)) => o == Ok::<T, Error>(v),
            Ok(Err(e)) => o matches Err(x) && x@ == kurrent_error_view(e),
            Err(e) => o matches Err(x) && x@ == kurrent_error_view(e),
        },
{
    match m {
        Ok(Ok(v)) => Ok(v),
        Ok(Err(e)) => Err(Error::from(e)),
        Err(e) => Err(Error::from(e)),
    }
}

/// The persistent subscription name and stream name prefixes of a
/// subscription to an event group: the names sorted, joined by dashes, and
/// the sorted names themselves.
pub fn subscription_group(names: &Vec<&str>) -> (r: (String, Vec<String>))
    ensures
        r.0@ == dash_joined(str_views(names@).sort_by(lex_order())),
        string_views(r.1@) == str_views(names@).sort_by(lex_order()),
{
    let sorted = sort_strs(names);
    let topic = join_dash(&sorted);
    let mut prefixes: Vec<String> = Vec::new();
    let mut i: usize = 0;
    while i < sorted.len()
        invariant
            i <= sorted@.len(),
            string_views(prefixes@) == str_views(sorted@).take(i as int),
        decreases sorted@.len() - i,
    {
        let ghost before = prefixes@;
        let p = sorted[i].to_owned();
        prefixes.push(p);
        assert(string_views(prefixes@) =~= string_views(before).push(sorted@[i as int]@));
        assert(str_views(sorted@).take(i + 1) =~= str_views(sorted@).take(i as int).push(
            sorted@[i as int]@,
        ));
        i = i + 1;
    }
    assert(str_views(sorted@).take(i as int) =~= str_views(sorted@));
    (topic, prefixes)
}

/// The metadata map that publishing writes: the caller's metadata with the
/// version and the event type set.
pub open spec fn publish_metadata_map(
    metadata: Option<Seq<(Seq<char>, Seq<char>)>>,
    version: usize,
    event_type: Seq<char>,
) -> Map<Seq<char>, Seq<char>> {
    let given = match metadata {
        Some(m) => pairs_map(m),
        None => Map::empty(),
    };
    given.insert(VERSION_KEY@, decimal(version as nat)).insert(EVENT_TYPE@, event_type)
}

/// The view of optional metadata.
pub open spec fn optional_metadata_view(m: Option<Vec<(String, String)>>) -> Option<Seq<(Seq<char>, Seq<char>)>> {
    match m {
        Some(v) => Some(pair_views(v@)),
        None => None,
    }
}

/// The JSON metadata written with an event: the publish metadata, encoded.
/// Encoded metadata of a caller whose keys are distinct reads back as the
/// publish metadata map.
pub fn encoded_publish_metadata(
    metadata: Option<Vec<(String, String)>>,
    version: usize,
    event_type: &str,
) -> (r: Vec<u8>)
    ensures
        (metadata matches Some(m) ==> distinct_keys(pair_views(m@))) ==> json_string_map(r@)
            == decoded_map(
            publish_metadata_map(optional_metadata_view(metadata), version, event_type@),
        ),
{
    let ghost given = optional_metadata_view(metadata);
    let m = publish_metadata(metadata, version, event_type);
    proof {
        reveal_strlit("Esrc-Version");
        reveal_strlit("Esrc-Event-Type");
        assert(VERSION_KEY@ != EVENT_TYPE@) by {
            assert(VERSION_KEY@.len() != EVENT_TYPE@.len());
        }
        assert(pairs_map(pair_views(m@)) =~= publish_metadata_map(given, version, event_type@)) by {
            assert forall|k: Seq<char>| #[trigger] pairs_map(pair_views(m@)).contains_key(k)
                == publish_metadata_map(given, version, event_type@).contains_key(k) by {
                assert(meta_get(pair_views(m@), k) == meta_get(pair_views(m@), k));
            }
        }
    }
    match encode_string_map(&m) {
        Ok(b) => b,
        Err(_) => {
            proof {
                assert(false);
            }
            Vec::new()
        },
    }
}

/// A published Kurrent event reads back as itself: a recorded event on the
/// stream of an aggregate whose metadata is what publishing encoded reads as
/// an envelope of that aggregate with the published version and metadata.
pub proof fn lemma_published_event_reads_back(
    stream_id: Seq<char>,
    name: Seq<char>,
    id: u128,
    custom_metadata: Seq<u8>,
    metadata: Option<Seq<(Seq<char>, Seq<char>)>>,
    version: usize,
    event_type: Seq<char>,
    commit: u64,
    created: i64,
    data: Seq<u8>,
)
    requires
        parse_kurrent_subject(stream_id) == Ok::<SubjectView, ErrorView>(SubjectView::Aggregate(name, id)),
        json_string_map(custom_metadata) == Ok::<Map<Seq<char>, Seq<char>>, Seq<char>>(
            publish_metadata_map(metadata, version, event_type),
        ),
    ensures
        envelope_from_event(stream_id, custom_metadata, commit, created, data) == Ok::<
            EnvelopeView,
            ErrorView,
        >(
            EnvelopeView {
                id,
                sequence: commit,
                timestamp: created,
                name,
                payload: data,
                version,
                metadata: publish_metadata_map(metadata, version, event_type),
            },
        ),
{
    reveal_strlit("Esrc-Version");
    reveal_strlit("Esrc-Event-Type");
    assert(VERSION_KEY@ != EVENT_TYPE@) by {
        assert(VERSION_KEY@.len() != EVENT_TYPE@.len());
    }
    lemma_written_event_reads_back(
        stream_id,
        name,
        id,
        custom_metadata,
        publish_metadata_map(metadata, version, event_type),
        version,
        commit,
        created,
        data,
    );
}

} // verus!

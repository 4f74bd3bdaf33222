//! NATS subjects of event streams: `<prefix>.<event name>.<aggregate id>`.
use vstd::prelude::*;

use crate::error::{Error, ErrorView};
use crate::ids::{parse_uuid, uuid_parse, uuid_string, uuid_text, lemma_uuid_text_chars};
use crate::text::{
    chars_eq, chars_of, lacks, lemma_split_concat, lemma_split_nonempty, lemma_split_without_sep,
    push_char, push_str, split_chars, split_seq, string_of,
};

verus! {

/// A subject of the event store, relative to the store's prefix.
pub enum NatsSubject {
    /// Every event stream of the store (`<prefix>.>`).
    Wildcard,
    /// Every stream of one event type (`<prefix>.<name>.*`).
    Event(String),
    /// The stream of one aggregate (`<prefix>.<name>.<id>`).
    Aggregate(String, u128),
}

/// The mathematical value of a [`NatsSubject`].
pub enum SubjectView {
    Wildcard,
    Event(Seq<char>),
    Aggregate(Seq<char>, u128),
}

impl View for NatsSubject {
    type V = SubjectView;

    open spec fn view(&self) -> SubjectView {
        match self {
            NatsSubject::Wildcard => SubjectView::Wildcard,
            NatsSubject::Event(n) => SubjectView::Event(n@),
            NatsSubject::Aggregate(n, id) => SubjectView::Aggregate(n@, *id),
        }
    }
}

/// What a subject reads as under an expected prefix: the pieces between dots
/// are the prefix, then an optional event name, then an optional aggregate id
/// (pieces after the third are ignored).
pub open spec fn parse_subject(prefix: Seq<char>, subject: Seq<char>) -> Result<SubjectView, ErrorView> {
    let parts = split_seq(subject, '.');
    if parts[0] != prefix {
        Err(ErrorView::Invalid)
    } else if parts.len() >= 3 {
        match uuid_parse(parts[2]) {
            Ok(id) => Ok(SubjectView::Aggregate(parts[1], id)),
            Err(m) => Err(ErrorView::Format(m)),
        }
    } else if parts.len() == 2 {
        Ok(SubjectView::Event(parts[1]))
    } else {
        Ok(SubjectView::Wildcard)
    }
}

/// The text of a subject under a prefix.
pub open spec fn subject_text(prefix: Seq<char>, s: SubjectView) -> Seq<char> {
    match s {
        SubjectView::Wildcard => prefix + seq!['.', '>'],
        SubjectView::Event(n) => prefix + seq!['.'] + n + seq!['.', '*'],
        SubjectView::Aggregate(n, id) => prefix + seq!['.'] + n + seq!['.'] + uuid_text(id),
    }
}

/// The view of a parse result.
pub open spec fn subject_result_view(r: Result<NatsSubject, Error>) -> Result<SubjectView, ErrorView> {
    match r {
        Ok(s) => Ok(s@),
        Err(e) => Err(e@),
    }
}

impl NatsSubject {
    /// Read a subject that should start with `expected_prefix`.
    pub fn try_from_str(expected_prefix: &str, subject: &str) -> (r: Result<NatsSubject, Error>)
        ensures
            subject_result_view(r) == parse_subject(expected_prefix@, subject@),
    {
        let cs = chars_of(subject);
        let parts = split_chars(&cs, '.');
        let ghost pv = parts@.map_values(|p: Vec<char>| p@);
        proof {
            lemma_split_nonempty(subject@, '.');
        }
        assert(parts@[0]@ == pv[0]);
        let pc = chars_of(expected_prefix);
        if !chars_eq(&parts[0], &pc) {
            return Err(Error::Invalid);
        }
        if parts.len() >= 3 {
            assert(parts@[1]@ == pv[1] && parts@[2]@ == pv[2]);
            let id_text = string_of(&parts[2]);
            match parse_uuid(id_text.as_str()) {
                Ok(id) => Ok(NatsSubject::Aggregate(string_of(&parts[1]), id)),
                Err(m) => Err(Error::Format(m)),
            }
        } else if parts.len() == 2 {
            assert(parts@[1]@ == pv[1]);
            Ok(NatsSubject::Event(string_of(&parts[1])))
        } else {
            Ok(NatsSubject::Wildcard)
        }
    }

    /// The full subject under `prefix`.
    ///
    /// An aggregate subject reads back as itself when neither the prefix nor
    /// the event name holds a dot.
    pub fn into_string(self, prefix: &str) -> (r: String)
        ensures
            r@ == subject_text(prefix@, self@),
            (self@ matches SubjectView::Aggregate(n, id) && lacks(prefix@, '.') && lacks(n, '.'))
                ==> parse_subject(prefix@, r@) == Ok::<SubjectView, ErrorView>(self@),
    {
        let mut s = prefix.to_owned();
        push_char(&mut s, '.');
        match self {
            NatsSubject::Wildcard => {
                push_char(&mut s, '>');
                assert(s@ =~= subject_text(prefix@, SubjectView::Wildcard));
                s
            },
            NatsSubject::Event(name) => {
                push_str(&mut s, name.as_str());
                push_char(&mut s, '.');
                push_char(&mut s, '*');
                assert(s@ =~= subject_text(prefix@, SubjectView::Event(name@)));
                s
            },
            NatsSubject::Aggregate(name, id) => {
                push_str(&mut s, name.as_str());
                push_char(&mut s, '.');
                let text = uuid_string(id);
                push_str(&mut s, text.as_str());
                assert(s@ =~= subject_text(prefix@, SubjectView::Aggregate(name@, id)));
                proof {
                    if lacks(prefix@, '.') && lacks(name@, '.') {
                        lemma_aggregate_subject_parts(prefix@, name@, id);
                    }
                }
                s
            },
        }
    }
}

/// The pieces of an aggregate subject are its prefix, name and id text.
proof fn lemma_aggregate_subject_parts(prefix: Seq<char>, name: Seq<char>, id: u128)
    requires
        lacks(prefix, '.'),
        lacks(name, '.'),
    ensures
        split_seq(subject_text(prefix, SubjectView::Aggregate(name, id)), '.') == seq![
            prefix,
            name,
            uuid_text(id),
        ],
{
    lemma_uuid_text_chars(id);
    let t = uuid_text(id);
    assert(lacks(t, '.')) by {
        assert forall|i: int| 0 <= i < t.len() implies t[i] != '.' by {
            let c = t[i];
            assert(('0' <= c <= '9') || ('a' <= c <= 'f') || c == '-');
        }
    }
    let rest = name + seq!['.'] + t;
    lemma_split_concat(name, t, '.');
    lemma_split_without_sep(name, '.');
    lemma_split_without_sep(t, '.');
    lemma_split_concat(prefix, rest, '.');
    lemma_split_without_sep(prefix, '.');
    assert(subject_text(prefix, SubjectView::Aggregate(name, id)) =~= prefix + seq!['.'] + rest);
    assert(seq![prefix] + (seq![name] + seq![t]) =~= seq![prefix, name, t]);
}

} // verus!

//! KurrentDB stream names of event streams: `<event name>-<aggregate id>`.
use vstd::prelude::*;

use crate::error::{Error, ErrorView};
use crate::ids::{parse_uuid, uuid_parse, uuid_string, uuid_text};
use crate::nats::subject::SubjectView;
use crate::text::{chars_of, lacks, push_str, string_of};

verus! {

/// A stream name of the event store.
pub enum KurrentSubject {
    /// Every event stream of the store.
    Wildcard,
    /// Every stream of one event type.
    Event(String),
    /// The stream of one aggregate.
    Aggregate(String, u128),
}

impl View for KurrentSubject {
    type V = SubjectView;

    open spec fn view(&self) -> SubjectView {
        match self {
            KurrentSubject::Wildcard => SubjectView::Wildcard,
            KurrentSubject::Event(n) => SubjectView::Event(n@),
            KurrentSubject::Aggregate(n, id) => SubjectView::Aggregate(n@, *id),
        }
    }
}

/// `i` is the position of the first `c` in `s`.
pub open spec fn first_at(s: Seq<char>, c: char, i: int) -> bool {
    0 <= i < s.len() && s[i] == c && lacks(s.take(i), c)
}

/// The position of the first dash of a stream name that holds one.
pub open spec fn first_dash(s: Seq<char>) -> int {
    choose|i: int| first_at(s, '-', i)
}

/// What a stream name reads as: the text before its first dash is the event
/// name and the text after it is read as an aggregate ID; a name without a
/// dash is a stream of one event type.
pub open spec fn parse_kurrent_subject(subject: Seq<char>) -> Result<SubjectView, ErrorView> {
    if lacks(subject, '-') {
        Ok(SubjectView::Event(subject))
    } else {
        let i = first_dash(subject);
        match uuid_parse(subject.skip(i + 1)) {
            Ok(id) => Ok(SubjectView::Aggregate(subject.take(i), id)),
            Err(m) => Err(ErrorView::Format(m)),
        }
    }
}

/// A string holds at most one first position of a character.
proof fn lemma_first_at_unique(s: Seq<char>, c: char, i: int, j: int)
    requires
        first_at(s, c, i),
        first_at(s, c, j),
    ensures
        i == j,
{
    if i < j {
        assert(s.take(j)[i] == s[i]);
    } else if j < i {
        assert(s.take(i)[j] == s[j]);
    }
}

/// The stream name of one aggregate reads back as that aggregate, when its
/// event name holds no dash and its ID text reads back as the ID.
pub proof fn lemma_aggregate_stream_name_reads_back(name: Seq<char>, id: u128)
    requires
        lacks(name, '-'),
        uuid_parse(uuid_text(id)) == Ok::<u128, Seq<char>>(id),
    ensures
        parse_kurrent_subject(kurrent_subject_text(SubjectView::Aggregate(name, id)))
            == Ok::<SubjectView, ErrorView>(SubjectView::Aggregate(name, id)),
{
    let s = kurrent_subject_text(SubjectView::Aggregate(name, id));
    let i = name.len() as int;
    assert(s.take(i) =~= name);
    assert(s[i] == '-');
    assert(first_at(s, '-', i));
    assert(!lacks(s, '-'));
    lemma_first_at_unique(s, '-', first_dash(s), i);
    assert(s.skip(i + 1) =~= uuid_text(id));
}

/// The stream name of a subject other than the wildcard.
pub open spec fn kurrent_subject_text(s: SubjectView) -> Seq<char> {
    match s {
        SubjectView::Event(n) => n,
        SubjectView::Aggregate(n, id) => n + seq!['-'] + uuid_text(id),
        SubjectView::Wildcard => Seq::empty(),
    }
}

/// The view of a parse result.
pub open spec fn kurrent_subject_result_view(r: Result<KurrentSubject, Error>) -> Result<
    SubjectView,
    ErrorView,
> {
    match r {
        Ok(s) => Ok(s@),
        Err(e) => Err(e@),
    }
}

impl KurrentSubject {
    /// Read a stream name.
    pub fn try_from_str(subject: &str) -> (r: Result<KurrentSubject, Error>)
        ensures
            kurrent_subject_result_view(r) == parse_kurrent_subject(subject@),
    {
        let cs = chars_of(subject);
        let mut i: usize = 0;
        while i < cs.len()
            invariant
                i <= cs@.len(),
                cs@ == subject@,
                lacks(cs@.take(i as int), '-'),
            ensures
                i <= cs@.len(),
                cs@ == subject@,
                lacks(cs@.take(i as int), '-'),
                i < cs@.len() ==> cs@[i as int] == '-',
            decreases cs@.len() - i,
        {
            if cs[i] == '-' {
                break;
            }
            assert(cs@.take(i + 1) =~= cs@.take(i as int).push(cs@[i as int]));
            i = i + 1;
        }
        if i == cs.len() {
            assert(cs@.take(i as int) =~= cs@);
            return Ok(KurrentSubject::Event(string_of(&cs)));
        }
        proof {
            assert(first_at(subject@, '-', i as int));
            lemma_first_at_unique(subject@, '-', first_dash(subject@), i as int);
        }
        let mut name: Vec<char> = Vec::new();
        let mut j: usize = 0;
        while j < i
            invariant
                j <= i < cs@.len(),
                name@ == cs@.take(j as int),
            decreases i - j,
        {
            name.push(cs[j]);
            assert(cs@.take(j + 1) =~= cs@.take(j as int).push(cs@[j as int]));
            j = j + 1;
        }
        let mut rest: Vec<char> = Vec::new();
        let mut k: usize = i + 1;
        while k < cs.len()
            invariant
                i + 1 <= k <= cs@.len(),
                rest@ == cs@.subrange(i + 1, k as int),
            decreases cs@.len() - k,
        {
            rest.push(cs[k]);
            assert(cs@.subrange(i + 1, k + 1) =~= cs@.subrange(i + 1, k as int).push(cs@[k as int]));
            k = k + 1;
        }
        assert(rest@ =~= subject@.skip(i + 1));
        let id_text = string_of(&rest);
        match parse_uuid(id_text.as_str()) {
            Ok(id) => Ok(KurrentSubject::Aggregate(string_of(&name), id)),
            Err(m) => Err(Error::Format(m)),
        }
    }

    /// The stream name of this subject (there is none for the wildcard).
    pub fn into_string(self) -> (r: String)
        requires
            !(self is Wildcard),
        ensures
            r@ == kurrent_subject_text(self@),
            (self@ matches SubjectView::Aggregate(n, id) && lacks(n, '-')) ==> parse_kurrent_subject(r@)
                == Ok::<SubjectView, ErrorView>(self@),
    {
        match self {
            KurrentSubject::Event(name) => name,
            KurrentSubject::Aggregate(name, id) => {
                let ghost name_view = name@;
                let mut s = name;
                push_str(&mut s, "-");
                let t = uuid_string(id);
                push_str(&mut s, t.as_str());
                proof {
                    reveal_strlit("-");
                    assert(s@ =~= kurrent_subject_text(SubjectView::Aggregate(name_view, id)));
                    if lacks(name_view, '-') {
                        lemma_aggregate_stream_name_reads_back(name_view, id);
                    }
                }
                s
            },
            KurrentSubject::Wildcard => String::new(),
        }
    }
}

} // verus!

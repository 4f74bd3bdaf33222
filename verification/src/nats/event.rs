//! The decisions behind reading event streams from JetStream: which subjects
//! a read covers, where it starts, and how an aggregate replay walks its
//! stream one message at a time.
use vstd::prelude::*;
use vstd::relations::*;
use vstd::seq_lib::*;

use crate::error::{Error, ErrorView};
use crate::event::Sequence;
use crate::nats::config::string_views;
use crate::nats::envelope::{
    envelope_from_message, envelope_result_view, MessageInfo, NatsEnvelope, NatsMessage,
};
use crate::nats::header::headers_view;
use crate::nats::subject::{subject_text, NatsSubject, SubjectView};
use crate::text::{decimal, decimal_string, lemma_lex_total, lex_order, push_str, sort_strs, str_views};

verus! {

broadcast use group_to_multiset_ensures;

/// The first stream sequence a read after `first_sequence` asks for; there is
/// none after the last possible sequence.
pub fn replay_start_sequence(first_sequence: Sequence) -> (r: Result<u64, Error>)
    ensures
        first_sequence.0 < u64::MAX ==> r == Ok::<u64, Error>((first_sequence.0 + 1) as u64),
        first_sequence.0 == u64::MAX ==> (r matches Err(e) && e@ == ErrorView::Invalid),
{
    match first_sequence.value().checked_add(1) {
        Some(s) => Ok(s),
        None => Err(Error::Invalid),
    }
}

/// The event subjects of `names` under `prefix`, in order.
pub open spec fn event_subjects_of(prefix: Seq<char>, names: Seq<Seq<char>>) -> Seq<Seq<char>> {
    names.map_values(|n: Seq<char>| subject_text(prefix, SubjectView::Event(n)))
}

/// The subjects of every stream of the given event types.
pub fn event_subjects(prefix: &str, names: &Vec<&str>) -> (r: Vec<String>)
    ensures
        string_views(r@) == event_subjects_of(prefix@, str_views(names@)),
{
    let ghost nv = str_views(names@);
    let mut r: Vec<String> = Vec::new();
    let mut i: usize = 0;
    while i < names.len()
        invariant
            i <= names@.len(),
            nv == str_views(names@),
            string_views(r@) == event_subjects_of(prefix@, nv.take(i as int)),
        decreases names@.len() - i,
    {
        let s = NatsSubject::Event(names[i].to_owned()).into_string(prefix);
        let ghost before = r@;
        r.push(s);
        assert(string_views(r@) =~= string_views(before).push(s@));
        assert(nv.take(i + 1) =~= nv.take(i as int).push(nv[i as int]));
        assert(event_subjects_of(prefix@, nv.take(i + 1)) =~= event_subjects_of(
            prefix@,
            nv.take(i as int),
        ).push(subject_text(prefix@, SubjectView::Event(nv[i as int]))));
        i = i + 1;
    }
    assert(nv.take(i as int) =~= nv);
    r
}

/// Names joined with a dash between each two.
pub open spec fn dash_joined(vs: Seq<Seq<char>>) -> Seq<char>
    decreases vs.len(),
{
    if vs.len() == 0 {
        Seq::empty()
    } else if vs.len() == 1 {
        vs[0]
    } else {
        dash_joined(vs.drop_last()) + seq!['-'] + vs.last()
    }
}

pub fn join_dash(vs: &Vec<&str>) -> (r: String)
    ensures
        r@ == dash_joined(str_views(vs@)),
{
    let ghost sv = str_views(vs@);
    let mut s = String::new();
    let mut i: usize = 0;
    while i < vs.len()
        invariant
            i <= vs@.len(),
            sv == str_views(vs@),
            s@ == dash_joined(sv.take(i as int)),
        decreases vs@.len() - i,
    {
        if i > 0 {
            push_str(&mut s, "-");
            proof {
                reveal_strlit("-");
            }
        }
        push_str(&mut s, vs[i]);
        proof {
            let t = sv.take(i + 1);
            assert(t.drop_last() =~= sv.take(i as int));
            assert(t.last() == vs@[i as int]@);
            if i == 0 {
                assert(dash_joined(sv.take(0)) =~= Seq::<char>::empty());
            }
        }
        i = i + 1;
    }
    assert(sv.take(i as int) =~= sv);
    s
}

/// The durable topic and subjects of a subscription to an event group: the
/// names sorted, joined by dashes, and the subject of each sorted name.
pub fn group_subjects(prefix: &str, names: &Vec<&str>) -> (r: (String, Vec<String>))
    ensures
        r.0@ == dash_joined(str_views(names@).sort_by(lex_order())),
        string_views(r.1@) == event_subjects_of(prefix@, str_views(names@).sort_by(lex_order())),
{
    let sorted = sort_strs(names);
    let topic = join_dash(&sorted);
    let subjects = event_subjects(prefix, &sorted);
    (topic, subjects)
}

/// What looking up the last message of an aggregate subject gave.
pub enum LastMessage {
    /// The last message, at this stream sequence.
    Found(u64),
    /// The subject holds no message.
    NoMessageFound,
    /// The lookup failed, with this message.
    Failed(String),
}

/// The last stream sequence that an aggregate replay from `start_sequence`
/// covers: the subject's last sequence when it is not before the start, none
/// when there is nothing to read, and an `Internal` error when the lookup failed.
pub fn captured_last_sequence(start_sequence: u64, last: LastMessage) -> (r: Result<
    Option<u64>,
    Error,
>)
    ensures
        match last {
            LastMessage::Found(s) => r == Ok::<Option<u64>, Error>(
                if s >= start_sequence {
                    Some(s)
                } else {
                    None
                },
            ),
            LastMessage::NoMessageFound => r == Ok::<Option<u64>, Error>(None),
            LastMessage::Failed(m) => r matches Err(e) && e@ == ErrorView::Internal(m@),
        },
{
    match last {
        LastMessage::Found(s) => {
            if s >= start_sequence {
                Ok(Some(s))
            } else {
                Ok(None)
            }
        },
        LastMessage::NoMessageFound => Ok(None),
        LastMessage::Failed(m) => Err(Error::Internal(m)),
    }
}

/// The position of an aggregate replay that reads its subject one message at
/// a time, up to the last sequence captured when it started.
pub struct RawReplay {
    next_sequence: Option<u64>,
    last_sequence: Option<u64>,
}

/// The mathematical value of a [`RawReplay`]: the next sequence to ask for
/// and the last sequence to read.
pub struct RawReplayView {
    pub next_sequence: Option<u64>,
    pub last_sequence: Option<u64>,
}

impl View for RawReplay {
    type V = RawReplayView;

    closed spec fn view(&self) -> RawReplayView {
        RawReplayView { next_sequence: self.next_sequence, last_sequence: self.last_sequence }
    }
}

/// A replay position is consistent: it only has a next sequence before its
/// last one.
pub open spec fn replay_wf(v: RawReplayView) -> bool {
    v.next_sequence matches Some(n) ==> (v.last_sequence matches Some(l) && n <= l)
}

/// How many messages a replay can still read at most.
pub open spec fn replay_remaining(v: RawReplayView) -> nat {
    match (v.next_sequence, v.last_sequence) {
        (Some(n), Some(l)) => (l - n + 1) as nat,
        _ => 0,
    }
}

/// The position after reading the message at `s`: finished after the last
/// sequence, else just after `s`.
pub open spec fn advance(v: RawReplayView, s: u64) -> RawReplayView {
    RawReplayView {
        next_sequence: if v.last_sequence == Some(s) {
            None
        } else {
            Some((s + 1) as u64)
        },
        last_sequence: v.last_sequence,
    }
}

/// `seqs` is a run of stream sequences that a replay at `v` can read in turn:
/// each is between the position's next and last sequences.
pub open spec fn replay_run(v: RawReplayView, seqs: Seq<u64>) -> bool
    decreases seqs.len(),
{
    if seqs.len() == 0 {
        true
    } else {
        &&& v.next_sequence matches Some(n) && n <= seqs[0]
        &&& v.last_sequence matches Some(l) && seqs[0] <= l
        &&& replay_run(advance(v, seqs[0]), seqs.drop_first())
    }
}

/// The message of a replay that got a message outside its captured range.
pub open spec fn out_of_range_message(s: u64, next: u64, last: u64) -> Seq<char> {
    "aggregate replay returned stream sequence "@ + decimal(s as nat) + " outside the captured range "@
        + decimal(next as nat) + "..="@ + decimal(last as nat)
}

/// What one replay step gives, for the message fetched at the next sequence:
/// the envelope it reads as, with the advanced position.
pub open spec fn replay_step(
    v: RawReplayView,
    prefix: Seq<char>,
    fetched: Result<(Seq<char>, Seq<(Seq<char>, Seq<Seq<char>>)>, Seq<u8>, u64, i64), Seq<char>>,
) -> Result<Option<(crate::envelope::EnvelopeView, RawReplayView)>, ErrorView> {
    match (v.next_sequence, v.last_sequence) {
        (Some(n), Some(l)) => match fetched {
            Err(m) => Err(ErrorView::Internal(m)),
            Ok((subject, headers, payload, s, published)) => if s < n || s > l {
                Err(ErrorView::Internal(out_of_range_message(s, n, l)))
            } else {
                match envelope_from_message(
                    prefix,
                    subject,
                    headers,
                    payload,
                    Ok(MessageInfo { stream_sequence: s, published }),
                ) {
                    Ok(e) => Ok(Some((e, advance(v, s)))),
                    Err(e) => Err(e),
                }
            },
        },
        _ => Ok(None),
    }
}

/// A message fetched directly from a stream: the message, its stream sequence
/// and its publication time in seconds since the Unix epoch.
pub struct RawMessage {
    pub message: NatsMessage,
    pub sequence: u64,
    pub published: i64,
}

/// The view of a fetched raw message.
pub open spec fn fetched_view(f: Result<RawMessage, String>) -> Result<
    (Seq<char>, Seq<(Seq<char>, Seq<Seq<char>>)>, Seq<u8>, u64, i64),
    Seq<char>,
> {
    match f {
        Ok(m) => Ok(
            (
                m.message.subject@,
                headers_view(m.message.headers@),
                m.message.payload@,
                m.sequence,
                m.published,
            ),
        ),
        Err(e) => Err(e@),
    }
}

/// The view of a replay step result.
pub open spec fn step_view(r: Result<Option<(NatsEnvelope, RawReplay)>, Error>) -> Result<
    Option<(crate::envelope::EnvelopeView, RawReplayView)>,
    ErrorView,
> {
    match r {
        Ok(Some((e, s))) => Ok(Some((e@, s@))),
        Ok(None) => Ok(None),
        Err(e) => Err(e@),
    }
}

impl RawReplay {
    /// A replay from `start_sequence` up to the captured last sequence; one
    /// with nothing to read (no last sequence, or one before the start) is
    /// finished from the start.
    pub fn new(start_sequence: u64, last_sequence: Option<u64>) -> (r: Self)
        ensures
            r@.last_sequence == last_sequence,
            r@.next_sequence == match last_sequence {
                Some(l) => if start_sequence <= l {
                    Some(start_sequence)
                } else {
                    None
                },
                None => None,
            },
            replay_wf(r@),
    {
        let next_sequence = match last_sequence {
            Some(l) => if start_sequence <= l {
                Some(start_sequence)
            } else {
                None
            },
            None => None,
        };
        RawReplay { next_sequence, last_sequence }
    }

    /// The stream sequence to fetch next, or none when the replay is finished.
    pub fn next_request(&self) -> (r: Option<u64>)
        ensures
            r == match (self@.next_sequence, self@.last_sequence) {
                (Some(n), Some(_)) => Some(n),
                _ => None,
            },
    {
        match (self.next_sequence, self.last_sequence) {
            (Some(n), Some(_)) => Some(n),
            _ => None,
        }
    }

    /// Read the message fetched at the next sequence (the first message of
    /// the subject at or after it, or the message of the error that fetching
    /// gave): a message outside the captured range is an `Internal` error;
    /// else the replay moves past it, finishing after the last sequence.
    ///
    /// The replay reads each message of its range at most once, in stream
    /// order, and ends: each step leaves fewer messages to read.
    pub fn step(self, prefix: &str, fetched: Result<RawMessage, String>) -> (r: Result<
        Option<(NatsEnvelope, RawReplay)>,
        Error,
    >)
        requires
            replay_wf(self@),
        ensures
            step_view(r) == replay_step(self@, prefix@, fetched_view(fetched)),
            r matches Ok(Some((_, next))) ==> replay_wf(next@) && replay_remaining(next@)
                < replay_remaining(self@),
            r matches Ok(Some((_, next))) ==> fetched matches Ok(m) && next@.last_sequence
                == self@.last_sequence && (self@.last_sequence == Some(m.sequence)
                <==> next@.next_sequence is None) && (next@.next_sequence is Some
                ==> next@.next_sequence == Some((m.sequence + 1) as u64)),
    {
        let (n, l) = match (self.next_sequence, self.last_sequence) {
            (Some(n), Some(l)) => (n, l),
            _ => {
                return Ok(None);
            },
        };
        let raw = match fetched {
            Err(m) => {
                return Err(Error::Internal(m));
            },
            Ok(raw) => raw,
        };
        let s = raw.sequence;
        if s < n || s > l {
            let mut m = "aggregate replay returned stream sequence ".to_owned();
            let a = decimal_string(s);
            push_str(&mut m, a.as_str());
            push_str(&mut m, " outside the captured range ");
            let b = decimal_string(n);
            push_str(&mut m, b.as_str());
            push_str(&mut m, "..=");
            let c = decimal_string(l);
            push_str(&mut m, c.as_str());
            return Err(Error::Internal(m));
        }
        let next_sequence = if s == l {
            None
        } else {
            Some(s + 1)
        };
        let next = RawReplay { next_sequence, last_sequence: self.last_sequence };
        let ghost fv = fetched_view(Ok(raw));
        match NatsEnvelope::try_from_stream_message(prefix, raw.message, s, raw.published) {
            Ok(envelope) => Ok(Some((envelope, next))),
            Err(e) => Err(e),
        }
    }
}

/// The consecutive stream sequences `start..=last`.
pub open spec fn consecutive(start: u64, last: u64) -> Seq<u64> {
    Seq::new((last - start + 1) as nat, |i: int| (start + i) as u64)
}

/// A replay reads every message of its range: over the consecutive sequences
/// `start..=last` of a subject, a replay from `start` up to `last` can read
/// each of them in turn, `last - start + 1` messages in all.
pub proof fn lemma_replay_reads_every_sequence(start: u64, last: u64)
    requires
        start <= last,
    ensures
        replay_run(
            RawReplayView { next_sequence: Some(start), last_sequence: Some(last) },
            consecutive(start, last),
        ),
        consecutive(start, last).len() == last - start + 1,
    decreases last - start,
{
    let v = RawReplayView { next_sequence: Some(start), last_sequence: Some(last) };
    let seqs = consecutive(start, last);
    assert(seqs[0] == start);
    if start < last {
        let next = (start + 1) as u64;
        lemma_replay_reads_every_sequence(next, last);
        assert(seqs.drop_first() =~= consecutive(next, last));
        assert(advance(v, start) == RawReplayView { next_sequence: Some(next), last_sequence: Some(last) });
    } else {
        assert(seqs.drop_first() =~= Seq::<u64>::empty());
        assert(replay_run(advance(v, start), seqs.drop_first()));
    }
}

/// A replay step moves one message on and finishes only after the captured
/// last sequence: reading the message at `s` of a replay up to `l` leads to
/// `s + 1` while `s < l`, and to the end (no further request) at `s == l`;
/// the captured last sequence stays.
pub proof fn lemma_replay_finishes_only_after_its_last(
    v: RawReplayView,
    prefix: Seq<char>,
    fetched: Result<(Seq<char>, Seq<(Seq<char>, Seq<Seq<char>>)>, Seq<u8>, u64, i64), Seq<char>>,
)
    ensures
        replay_step(v, prefix, fetched) matches Ok(Some((_, next))) ==> {
            &&& fetched matches Ok((_, _, _, s, _))
            &&& v.next_sequence matches Some(n)
            &&& v.last_sequence matches Some(l)
            &&& n <= s <= l
            &&& next.last_sequence == Some(l)
            &&& s < l ==> next.next_sequence == Some((s + 1) as u64)
            &&& s == l ==> next.next_sequence is None
        },
{
}

/// Reading an aggregate stream is ordered, exclusive and finite: every run of
/// sequences that a replay from `start` up to `last` reads is strictly
/// increasing, stays within `start..=last`, and holds at most
/// `last - start + 1` messages.
pub proof fn lemma_replay_is_ordered_and_finite(start: u64, last: u64, seqs: Seq<u64>)
    requires
        start <= last,
        replay_run(RawReplayView { next_sequence: Some(start), last_sequence: Some(last) }, seqs),
    ensures
        forall|i: int, j: int| 0 <= i < j < seqs.len() ==> seqs[i] < seqs[j],
        forall|i: int| 0 <= i < seqs.len() ==> start <= #[trigger] seqs[i] <= last,
        seqs.len() <= last - start + 1,
    decreases seqs.len(),
{
    if seqs.len() > 0 {
        let s = seqs[0];
        let rest = seqs.drop_first();
        if s == last {
            assert(rest.len() == 0) by {
                if rest.len() > 0 {
                    assert(replay_run(
                        RawReplayView { next_sequence: None, last_sequence: Some(last) },
                        rest,
                    ));
                }
            }
        } else {
            lemma_replay_is_ordered_and_finite((s + 1) as u64, last, rest);
            assert forall|i: int, j: int| 0 <= i < j < seqs.len() implies seqs[i] < seqs[j] by {
                if i > 0 {
                    assert(seqs[i] == rest[i - 1] && seqs[j] == rest[j - 1]);
                } else {
                    assert(seqs[j] == rest[j - 1]);
                }
            }
            assert forall|i: int| 0 <= i < seqs.len() implies start <= #[trigger] seqs[i] <= last by {
                if i > 0 {
                    assert(seqs[i] == rest[i - 1]);
                }
            }
        }
    }
}

} // verus!

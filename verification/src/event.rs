//! Events, groups of events, and their positions in a stream.
use vstd::prelude::*;
use std::cmp::Ordering;
use vstd::std_specs::cmp::PartialOrdSpecImpl;

pub mod event_model;


verus! {

/// The relative order of an Event within a single event stream.
///
/// An Event published to a stream will always have a greater sequence number
/// than a previously published event. Tracking the last sequence in a stream is
/// important for implementing optimistic concurrency when publishing events.
#[derive(Clone, Copy, Debug, PartialEq, Eq, Structural)]
pub struct Sequence(pub u64);

impl Sequence {
    /// Create a starting sequence that is always valid in a new event stream.
    pub fn new() -> (s: Self)
        ensures
            s.0 == 0,
    {
        Sequence(0)
    }

    /// The sequence number as an integer.
    pub fn value(self) -> (v: u64)
        ensures
            v == self.0,
    {
        self.0
    }
}

/// How two sequences compare: by their numbers.
pub open spec fn sequence_order(a: Sequence, b: Sequence) -> Option<Ordering> {
    if a.0 < b.0 {
        Some(Ordering::Less)
    } else if a.0 == b.0 {
        Some(Ordering::Equal)
    } else {
        Some(Ordering::Greater)
    }
}

impl PartialOrd for Sequence {
    fn partial_cmp(&self, other: &Self) -> (r: Option<Ordering>) {
        if self.0 < other.0 {
            Some(Ordering::Less)
        } else if self.0 == other.0 {
            Some(Ordering::Equal)
        } else {
            Some(Ordering::Greater)
        }
    }
}

impl PartialOrdSpecImpl for Sequence {
    open spec fn obeys_partial_cmp_spec() -> bool {
        true
    }

    open spec fn partial_cmp_spec(&self, other: &Self) -> Option<Ordering> {
        sequence_order(*self, *other)
    }
}

impl Default for Sequence {
    /// The starting sequence, as [`Sequence::new`] gives it.
    fn default() -> (s: Self)
        ensures
            s.0 == 0,
    {
        Sequence(0)
    }
}

/// The starting sequence comes first: it is equal to the default sequence and
/// no sequence compares below it.
pub proof fn lemma_start_is_least(start: Sequence, default: Sequence, s: Sequence)
    requires
        start.0 == 0,
        default.0 == 0,
    ensures
        start == default,
        sequence_order(start, s) matches Some(Ordering::Less | Ordering::Equal),
{
}

impl From<u64> for Sequence {
    fn from(value: u64) -> (s: Sequence) {
        Sequence(value)
    }
}

impl vstd::std_specs::convert::FromSpecImpl<u64> for Sequence {
    open spec fn obeys_from_spec() -> bool {
        true
    }

    open spec fn from_spec(v: u64) -> Sequence {
        Sequence(v)
    }
}

impl From<Sequence> for u64 {
    fn from(value: Sequence) -> (v: u64) {
        value.0
    }
}

impl vstd::std_specs::convert::FromSpecImpl<Sequence> for u64 {
    open spec fn obeys_from_spec() -> bool {
        true
    }

    open spec fn from_spec(v: Sequence) -> u64 {
        v.0
    }
}

/// Data representing a state change in the event sourced system.
///
/// Most of an event's properties are up to the implementation; the library
/// only needs its name.
pub trait Event: Sized {
    /// A unique identifier to represent event streams of this type.
    ///
    /// The characters allowed for a name are backend specific, and are best
    /// kept to ASCII letters and numbers. Once used, the name of an event
    /// should stay the same, even if the data structure changes.
    fn name() -> &'static str;
}

/// `n` is a name that the event type `E` reports.
pub open spec fn reports_name<E: Event>(n: &'static str) -> bool {
    call_ensures(E::name, (), n)
}

/// Reference multiple event types in a single read stream.
///
/// Every [`Event`] is a group of one.
pub trait EventGroup {
    /// The names of all events within this group.
    fn names() -> Vec<&'static str>;
}

impl<E: Event> EventGroup for E {
    fn names() -> (r: Vec<&'static str>)
        ensures
            r@.len() == 1,
            reports_name::<E>(r@[0]),
    {
        let mut v: Vec<&'static str> = Vec::new();
        v.push(E::name());
        v
    }
}

} // verus!

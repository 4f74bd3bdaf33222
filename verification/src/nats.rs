//! An event store on top of NATS JetStream: the decisions that the store makes
//! about subjects, stream and consumer settings, envelopes and replies.
use vstd::prelude::*;

use crate::text::{decimal, decimal_string, push_str};

pub mod command_service;
pub mod config;
pub mod convert;
pub mod dead_letter;
pub mod envelope;
pub mod event;
pub mod header;
pub mod query_kv;
pub mod query_service;
pub mod subject;

verus! {

/// Supported replication policies for a NATS event stream.
///
/// A single replica preserves the historical behavior of the store; three
/// replicas are intended for a three-server JetStream cluster and let the
/// stream keep quorum when one server is unavailable.
#[derive(Clone, Copy, Debug, PartialEq, Eq, Structural)]
pub enum NatsStreamReplicas {
    /// Store one copy of each event.
    One,
    /// Store three copies of each event.
    Three,
}

/// The replica count of a policy.
pub open spec fn replica_count(r: NatsStreamReplicas) -> usize {
    match r {
        NatsStreamReplicas::One => 1,
        NatsStreamReplicas::Three => 3,
    }
}

impl NatsStreamReplicas {
    /// Return the replica count sent to JetStream.
    pub fn count(self) -> (r: usize)
        ensures
            r == replica_count(self),
    {
        match self {
            NatsStreamReplicas::One => 1,
            NatsStreamReplicas::Three => 3,
        }
    }
}

impl Default for NatsStreamReplicas {
    fn default() -> (r: Self)
        ensures
            r == NatsStreamReplicas::One,
    {
        NatsStreamReplicas::One
    }
}

/// Configuration used when opening or creating a NATS store.
///
/// The default retains the historical one-replica behavior. Applications using
/// a three-server production cluster should opt in with [`Self::replicated`].
#[derive(Clone, Copy, Debug, PartialEq, Eq, Structural)]
pub struct NatsStoreOptions {
    stream_replicas: NatsStreamReplicas,
}

impl View for NatsStoreOptions {
    type V = NatsStreamReplicas;

    closed spec fn view(&self) -> NatsStreamReplicas {
        self.stream_replicas
    }
}

impl Default for NatsStoreOptions {
    fn default() -> (r: Self)
        ensures
            r@ == NatsStreamReplicas::One,
    {
        NatsStoreOptions { stream_replicas: NatsStreamReplicas::One }
    }
}

impl NatsStoreOptions {
    /// Create options that request three replicas for writer and mirror streams.
    pub fn replicated() -> (r: Self)
        ensures
            r@ == NatsStreamReplicas::Three,
    {
        NatsStoreOptions { stream_replicas: NatsStreamReplicas::Three }
    }

    /// Return the requested stream replication policy.
    pub fn stream_replicas(self) -> (r: NatsStreamReplicas)
        ensures
            r == self@,
    {
        self.stream_replicas
    }
}

/// The requested replica policy does not match an existing stream.
///
/// The store does not mutate the existing authoritative stream automatically;
/// operators can inspect this error and perform a controlled migration.
#[derive(Debug)]
pub struct NatsStreamReplicaMismatch {
    stream: String,
    expected: usize,
    actual: usize,
}

/// The mathematical value of a [`NatsStreamReplicaMismatch`].
pub struct ReplicaMismatchView {
    pub stream: Seq<char>,
    pub expected: usize,
    pub actual: usize,
}

impl View for NatsStreamReplicaMismatch {
    type V = ReplicaMismatchView;

    closed spec fn view(&self) -> ReplicaMismatchView {
        ReplicaMismatchView { stream: self.stream@, expected: self.expected, actual: self.actual }
    }
}

/// `NATS stream `<stream>` has <actual> replicas, but the application requires <expected>`.
pub open spec fn replica_mismatch_message(m: ReplicaMismatchView) -> Seq<char> {
    "NATS stream `"@ + m.stream + "` has "@ + decimal(m.actual as nat)
        + " replicas, but the application requires "@ + decimal(m.expected as nat)
}

impl NatsStreamReplicaMismatch {
    /// Return the affected stream name.
    pub fn stream(&self) -> (r: &str)
        ensures
            r@ == self@.stream,
    {
        self.stream.as_str()
    }

    /// Return the replica count requested by the application.
    pub fn expected(&self) -> (r: usize)
        ensures
            r == self@.expected,
    {
        self.expected
    }

    /// Return the replica count reported by the existing stream.
    pub fn actual(&self) -> (r: usize)
        ensures
            r == self@.actual,
    {
        self.actual
    }

    /// The message this error displays.
    pub fn message(&self) -> (r: String)
        ensures
            r@ == replica_mismatch_message(self@),
    {
        let mut s = "NATS stream `".to_owned();
        push_str(&mut s, self.stream.as_str());
        push_str(&mut s, "` has ");
        let actual = decimal_string(self.actual as u64);
        push_str(&mut s, actual.as_str());
        push_str(&mut s, " replicas, but the application requires ");
        let expected = decimal_string(self.expected as u64);
        push_str(&mut s, expected.as_str());
        assert(s@ =~= replica_mismatch_message(self@));
        s
    }
}

/// Compare the replica count of an existing stream with the requested one.
pub fn check_stream_replicas(stream: &str, expected: usize, actual: usize) -> (r: Result<
    (),
    NatsStreamReplicaMismatch,
>)
    ensures
        r is Ok <==> actual == expected,
        r matches Err(m) ==> m@ == (ReplicaMismatchView { stream: stream@, expected, actual }),
{
    if actual != expected {
        Err(NatsStreamReplicaMismatch { stream: stream.to_owned(), expected, actual })
    } else {
        Ok(())
    }
}

/// A durable view consumer is assigned to another logical projector identity or version.
#[derive(Debug)]
pub struct NatsViewConsumerIdentityMismatch {
    durable: String,
    expected: String,
    actual: String,
}

/// The mathematical value of a [`NatsViewConsumerIdentityMismatch`].
pub struct IdentityMismatchView {
    pub durable: Seq<char>,
    pub expected: Seq<char>,
    pub actual: Seq<char>,
}

impl View for NatsViewConsumerIdentityMismatch {
    type V = IdentityMismatchView;

    closed spec fn view(&self) -> IdentityMismatchView {
        IdentityMismatchView {
            durable: self.durable@,
            expected: self.expected@,
            actual: self.actual@,
        }
    }
}

/// The mismatch of a durable view consumer that holds `actual` where
/// `expected` was required.
pub fn view_identity_mismatch(durable: &str, expected: &str, actual: String) -> (r:
    NatsViewConsumerIdentityMismatch)
    ensures
        r@ == (IdentityMismatchView { durable: durable@, expected: expected@, actual: actual@ }),
{
    NatsViewConsumerIdentityMismatch { durable: durable.to_owned(), expected: expected.to_owned(), actual }
}

/// `NATS view consumer `<durable>` is assigned to projector `<actual>`, not `<expected>``.
pub open spec fn identity_mismatch_message(m: IdentityMismatchView) -> Seq<char> {
    "NATS view consumer `"@ + m.durable + "` is assigned to projector `"@ + m.actual
        + "`, not `"@ + m.expected + "`"@
}

impl NatsViewConsumerIdentityMismatch {
    /// Return the durable consumer name that had the conflicting assignment.
    pub fn durable(&self) -> (r: &str)
        ensures
            r@ == self@.durable,
    {
        self.durable.as_str()
    }

    /// Return the projector identity required by this application instance.
    pub fn expected(&self) -> (r: &str)
        ensures
            r@ == self@.expected,
    {
        self.expected.as_str()
    }

    /// Return the projector identity stored on the durable consumer.
    pub fn actual(&self) -> (r: &str)
        ensures
            r@ == self@.actual,
    {
        self.actual.as_str()
    }

    /// The message this error displays.
    pub fn message(&self) -> (r: String)
        ensures
            r@ == identity_mismatch_message(self@),
    {
        let mut s = "NATS view consumer `".to_owned();
        push_str(&mut s, self.durable.as_str());
        push_str(&mut s, "` is assigned to projector `");
        push_str(&mut s, self.actual.as_str());
        push_str(&mut s, "`, not `");
        push_str(&mut s, self.expected.as_str());
        push_str(&mut s, "`");
        assert(s@ =~= identity_mismatch_message(self@));
        s
    }
}

} // verus!

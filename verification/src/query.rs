//! Traits and types for declaring and handling queries against read models.
use vstd::prelude::*;

use crate::event_modeling::{ComponentName, ComponentNameView};

pub mod in_memory;

verus! {

/// A query that can be executed against a read model.
///
/// Defines the association between a query enum, its target read model,
/// and the response type.
pub trait Query {
    /// The read model this query targets.
    type ReadModel;
    /// The response type returned by executing this query.
    type Response;
}

/// Transport mechanism for exposing queries remotely.
#[derive(Clone, Copy, Debug, PartialEq, Eq, Structural)]
pub enum QueryTransport {
    /// Expose queries via NATS request-reply.
    NatsRequestReply,
}

/// A normalized query declaration that can later be executed by infrastructure.
#[derive(Debug)]
pub struct QuerySpec<H> {
    name: ComponentName,
    transport: QueryTransport,
    handler: H,
}

/// The mathematical value of a [`QuerySpec`].
pub struct QuerySpecModel<H> {
    pub name: ComponentNameView,
    pub transport: QueryTransport,
    pub handler: H,
}

impl<H> View for QuerySpec<H> {
    type V = QuerySpecModel<H>;

    closed spec fn view(&self) -> QuerySpecModel<H> {
        QuerySpecModel { name: self.name@, transport: self.transport, handler: self.handler }
    }
}

impl<H: Clone> Clone for QuerySpec<H> {
    /// A copy with the same name and transport, and a clone of the handler.
    fn clone(&self) -> (r: Self)
        ensures
            r@.name == self@.name,
            r@.transport == self@.transport,
            cloned(self@.handler, r@.handler),
    {
        QuerySpec { name: self.name.duplicate(), transport: self.transport, handler: self.handler.clone() }
    }
}

impl<H> QuerySpec<H> {
    /// Create a new query specification.
    pub fn new(name: ComponentName, transport: QueryTransport, handler: H) -> (r: Self)
        ensures
            r@ == (QuerySpecModel { name: name@, transport, handler }),
    {
        QuerySpec { name, transport, handler }
    }

    /// Returns the structured component name for this query.
    pub fn name(&self) -> (r: &ComponentName)
        ensures
            r@ == self@.name,
    {
        &self.name
    }

    /// Returns the configured transport for this query.
    pub fn transport(&self) -> (r: QueryTransport)
        ensures
            r == self@.transport,
    {
        self.transport
    }

    /// Returns a reference to the configured query handler.
    pub fn handler(&self) -> (r: &H)
        ensures
            *r == self@.handler,
    {
        &self.handler
    }

    /// Returns a mutable reference to the configured query handler.
    pub fn handler_mut(&mut self) -> (r: &mut H)
        ensures
            *r == old(self)@.handler,
            final(self)@ == (QuerySpecModel { handler: *final(r), ..old(self)@ }),
        no_unwind
    {
        &mut self.handler
    }

    /// Consumes the specification and returns the configured query handler.
    pub fn into_handler(self) -> (r: H)
        ensures
            r == self@.handler,
    {
        self.handler
    }

    /// Override the transport for this query.
    pub fn with_transport(self, transport: QueryTransport) -> (r: Self)
        ensures
            r@ == (QuerySpecModel { transport, ..self@ }),
    {
        QuerySpec { name: self.name, transport, handler: self.handler }
    }
}

} // verus!

//! Primitives for implementing event sourcing and CQRS systems.

pub mod aggregate;
pub mod envelope;
pub mod error;
pub mod event;
pub mod event_modeling;
pub mod ids;
pub mod kurrent;
pub mod nats;
pub mod project;
pub mod query;
pub mod text;
pub mod version;

//! An event store on top of KurrentDB: the decisions that the store makes
//! about stream names, metadata, envelopes and errors.

pub mod convert;
pub mod envelope;

pub mod event;
pub mod header;
pub mod subject;

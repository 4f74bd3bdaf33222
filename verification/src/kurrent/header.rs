//! Metadata keys of events written to KurrentDB.
use vstd::prelude::*;

use crate::nats::config::{meta_get, meta_lookup};
use crate::text::pair_views;

verus! {

/// The metadata key holding the version of the published event.
pub const VERSION_KEY: &'static str = "Esrc-Version";

/// The metadata key holding the type of the published event.
pub const EVENT_TYPE: &'static str = "Esrc-Event-Type";

/// The value stored under `key` in an event's metadata.
pub fn get<'a>(metadata: &'a Vec<(String, String)>, key: &str) -> (r: Option<&'a str>)
    ensures
        match r {
            Some(v) => meta_get(pair_views(metadata@), key@) == Some(v@),
            None => meta_get(pair_views(metadata@), key@) is None,
        },
{
    match meta_lookup(metadata, key) {
        Some(v) => Some(v.as_str()),
        None => None,
    }
}

} // verus!

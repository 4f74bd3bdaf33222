//! Read models kept in a NATS key-value bucket.
use vstd::prelude::*;

use crate::event_modeling::{durable_name_of, ComponentName};
use crate::text::push_str;

verus! {

/// `rm_<durable name>`: the bucket that holds the read models of a component.
pub fn kv_bucket_name(name: &ComponentName) -> (r: String)
    ensures
        r@ == "rm_"@ + durable_name_of(name@),
{
    let mut s = "rm_".to_owned();
    let d = name.durable_name();
    push_str(&mut s, d.as_str());
    s
}

} // verus!

//! Event payloads with a version number stored alongside them, for upcasting.
use vstd::prelude::*;

verus! {

/// Decode a type from a payload written with a given version.
///
/// In this library a version is stored with every published event; when the
/// event is read back, the version lets the type upcast older payloads.
pub trait DeserializeVersion: Sized {
    /// Decode the implementing type from `payload`, written at `version`; an
    /// error is returned as its message.
    fn deserialize_version(payload: &[u8], version: usize) -> Result<Self, String>;
}

/// Give a type the version that is stored alongside its payload.
pub trait SerializeVersion {
    /// Specify a version to be encoded alongside the serialized type.
    fn version() -> usize;
}

} // verus!

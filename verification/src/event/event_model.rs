//! Declarations for automations and views that consume events.
use vstd::prelude::*;

verus! {

/// Default schema version for a view projector started without an explicit identity.
pub const DEFAULT_VIEW_PROJECTOR_VERSION: u32 = 1;

/// Stable logical identity stored on a durable view consumer.
///
/// The identifier describes the read model independently of its Rust module or type name. The
/// version should change only when resuming the same durable requires an explicit compatibility
/// or migration decision.
#[derive(Debug)]
pub struct ViewProjectorIdentity {
    id: String,
    version: u32,
}

/// The mathematical value of a [`ViewProjectorIdentity`].
pub struct ViewProjectorIdentityView {
    pub id: Seq<char>,
    pub version: u32,
}

impl View for ViewProjectorIdentity {
    type V = ViewProjectorIdentityView;

    closed spec fn view(&self) -> ViewProjectorIdentityView {
        ViewProjectorIdentityView { id: self.id@, version: self.version }
    }
}

impl ViewProjectorIdentity {
    /// Create a stable logical projector identity.
    pub fn new(id: &str, version: u32) -> (r: Self)
        ensures
            r@ == (ViewProjectorIdentityView { id: id@, version }),
    {
        ViewProjectorIdentity { id: id.to_owned(), version }
    }

    /// Return the stable logical projector identifier.
    pub fn id(&self) -> (r: &str)
        ensures
            r@ == self@.id,
    {
        self.id.as_str()
    }

    /// Return the projector schema/behavior version.
    pub fn version(&self) -> (r: u32)
        ensures
            r == self@.version,
    {
        self.version
    }
}

} // verus!

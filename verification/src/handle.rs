//! The surface handle itself: an owning, move-only wrapper around the opaque
//! token that names one surface of the registry.

use vstd::prelude::*;

verus! {

/// The numeric, process-wide name of a surface.
pub type IOSurfaceID = u32;

/// An owning handle to one surface of a `SurfaceRegistry`.
///
/// The handle carries the surface's numeric identifier as its opaque token.
/// A live handle owns exactly one retain count of the surface it names: the
/// count is taken at construction (creation, lookup, or cloning) and given
/// back exactly once, by `destroy`, which consumes the handle. Because the
/// type is move-only and `destroy` takes it by value, a double release of
/// the same ownership unit is ruled out by the type system.
pub struct IOSurface {
    token: IOSurfaceID,
}

impl View for IOSurface {
    type V = IOSurfaceID;

    closed spec fn view(&self) -> IOSurfaceID {
        self.token
    }
}

impl IOSurface {
    /// Wraps a token whose one retain count the caller already owns (the
    /// "create rule"): no extra retain is taken, so the caller must have
    /// obtained the token from an operation that handed over ownership of
    /// one count, such as creation or lookup.
    pub(crate) fn wrap_under_create_rule(token: IOSurfaceID) -> (s: IOSurface)
        ensures
            s@ == token,
    {
        IOSurface { token }
    }

    /// Returns the surface's numeric identifier, the name under which the
    /// registry knows it and other holders can look it up.
    pub fn get_id(&self) -> (id: IOSurfaceID)
        ensures
            id == self@,
    {
        self.token
    }
}

} // verus!

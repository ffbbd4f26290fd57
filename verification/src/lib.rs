//! A safety wrapper around shared, cross-process GPU surfaces.
//!
//! The library's core is the ownership discipline around an externally
//! reference-counted surface object: every live `IOSurface` handle owns
//! exactly one retain count, taken at construction and given back exactly
//! once at destruction. The external allocator and registry are modeled as
//! an explicit collaborator, `registry::SurfaceRegistry`, so the discipline
//! — together with the lock/copy/unlock protocol of raw pixel uploads and
//! the all-or-nothing outcome of GPU texture binding — is stated in
//! contracts and machine-checked.

use vstd::prelude::*;

mod gl;
mod handle;
mod laws;
mod registry;

verus! {

pub use crate::gl::BindError;
pub use crate::gl::GlDriver;
pub use crate::gl::SurfaceSize;
pub use crate::gl::TexImageRequest;
pub use crate::gl::BGRA;
pub use crate::gl::NO_ERROR;
pub use crate::gl::RGBA;
pub use crate::gl::TEXTURE_RECTANGLE_ARB;
pub use crate::gl::UNSIGNED_INT_8_8_8_8_REV;
pub use crate::handle::IOSurface;
pub use crate::handle::IOSurfaceID;
pub use crate::registry::SurfaceProperties;
pub use crate::registry::SurfaceRegistry;
pub use crate::registry::UploadError;

use crate::registry::count_of;
use crate::registry::fresh_surface;
use crate::registry::is_live;
use crate::registry::retained;

/// Creates a new surface described by `properties` in `registry` and hands
/// back an owning handle to it, wrapped under the create rule: the handle
/// takes over the one reference the allocator produced, with no extra
/// retain.
pub fn new(registry: &mut SurfaceRegistry, properties: &SurfaceProperties) -> (s: IOSurface)
    requires
        old(registry).wf(),
        old(registry)@.len() < u32::MAX as nat,
        properties.height * properties.bytes_per_row <= usize::MAX as int,
    ensures
        final(registry).wf(),
        final(registry)@ == old(registry)@.push(
            fresh_surface((old(registry)@.len() + 1) as IOSurfaceID, *properties),
        ),
        s@ as int == old(registry)@.len() + 1,
        is_live(final(registry)@, s@),
        count_of(final(registry)@, s@) == 1,
{
    registry.create(properties)
}

/// Looks an `IOSurface` up by its global identifier. A live identifier
/// yields an owning handle to the same surface (the registry retains it once
/// more); an identifier that names no live surface is reported as absent
/// rather than wrapped into an invalid handle.
pub fn lookup(registry: &mut SurfaceRegistry, csid: IOSurfaceID) -> (r: Option<IOSurface>)
    requires
        old(registry).wf(),
        count_of(old(registry)@, csid) < u32::MAX as int,
    ensures
        final(registry).wf(),
        r is Some <==> is_live(old(registry)@, csid),
        r matches Some(s) ==> s@ == csid && final(registry)@ == retained(old(registry)@, csid),
        r is None ==> final(registry)@ == old(registry)@,
{
    registry.lookup(csid)
}

} // verus!

//! GPU texture binding: the one driver call the wrapper issues, the fixed
//! parameters it issues it with, and the all-or-nothing treatment of the
//! driver's status code.
//!
//! The driver itself is external; it is modeled here as an explicit
//! collaborator, `GlDriver`, whose next status code and error description a
//! caller (or a test) can program, so the binding decision — success binds
//! the surface, any other status surfaces the driver's own description —
//! is stated and checked for every response the driver could give.

use vstd::prelude::*;

use crate::handle::IOSurface;
use crate::handle::IOSurfaceID;

verus! {

/// The rectangle texture target: a GPU texture addressing mode without a
/// power-of-two size requirement, suited to imaging an externally allocated
/// surface directly.
pub const TEXTURE_RECTANGLE_ARB: u32 = 0x84F5;

/// The RGBA internal format requested for the bound texture.
pub const RGBA: u32 = 0x1908;

/// The BGRA layout the surface's bytes are read as.
pub const BGRA: u32 = 0x80E1;

/// The reversed 8:8:8:8 packed pixel type the surface's bytes are read as.
pub const UNSIGNED_INT_8_8_8_8_REV: u32 = 0x8367;

/// The driver status code that reports success; every other code is an
/// error the driver can describe.
pub const NO_ERROR: i32 = 0;

/// A width and height in pixels.
#[derive(Clone, Copy, PartialEq, Eq, Structural, Debug)]
pub struct SurfaceSize {
    pub width: i32,
    pub height: i32,
}

/// The one texture-image call binding asks the driver for: image the given
/// surface as a rectangle-target RGBA texture of the given size, reading
/// the surface's plane zero as reversed BGRA bytes, in the calling thread's
/// current context.
#[derive(Clone, Copy, PartialEq, Eq, Structural, Debug)]
pub struct TexImageRequest {
    /// The texture target to bind to.
    pub target: u32,
    /// The internal format of the resulting texture.
    pub internal_format: u32,
    /// Width of the texture image in pixels.
    pub width: i32,
    /// Height of the texture image in pixels.
    pub height: i32,
    /// The format the surface's bytes are read as.
    pub format: u32,
    /// The packed pixel type the surface's bytes are read as.
    pub pixel_type: u32,
    /// The surface whose memory backs the texture.
    pub surface_id: IOSurfaceID,
    /// The plane of the surface that is imaged.
    pub plane: u32,
}

/// The parameters `bind_to_gl_texture` issues for surface `id` at `size`.
pub open spec fn spec_request(id: IOSurfaceID, size: SurfaceSize) -> TexImageRequest {
    TexImageRequest {
        target: TEXTURE_RECTANGLE_ARB,
        internal_format: RGBA,
        width: size.width,
        height: size.height,
        format: BGRA,
        pixel_type: UNSIGNED_INT_8_8_8_8_REV,
        surface_id: id,
        plane: 0,
    }
}

/// Mathematical model of the driver's observable state: what it will answer
/// next, how it describes that answer, and which request the current
/// context's rectangle texture is bound to.
pub struct GlDriverModel {
    /// The status code the next texture-image call returns.
    pub next_status: int,
    /// The description the driver gives for a failing status.
    pub error_description: Seq<char>,
    /// The request the current context's texture binding was last mutated
    /// by, if any.
    pub bound: Option<TexImageRequest>,
}

/// The GPU driver of the calling thread's current context, modeled as an
/// explicit collaborator. A fresh driver answers success; a test injects a
/// failure by programming the next status code together with the
/// description the driver would give for it.
pub struct GlDriver {
    next_status: i32,
    error_description: String,
    bound: Option<TexImageRequest>,
}

impl View for GlDriver {
    type V = GlDriverModel;

    closed spec fn view(&self) -> GlDriverModel {
        GlDriverModel {
            next_status: self.next_status as int,
            error_description: self.error_description@,
            bound: self.bound,
        }
    }
}

impl GlDriver {
    /// A driver whose calls succeed and whose context has no binding yet.
    pub fn new() -> (d: GlDriver)
        ensures
            d@.next_status == NO_ERROR as int,
            d@.error_description.len() == 0,
            d@.bound is None,
    {
        GlDriver { next_status: NO_ERROR, error_description: String::new(), bound: None }
    }

    /// Programs the status code the next texture-image call answers with,
    /// and the description the driver gives for it.
    pub fn set_next_status(&mut self, status: i32, description: String)
        ensures
            final(self)@.next_status == status as int,
            final(self)@.error_description == description@,
            final(self)@.bound == old(self)@.bound,
    {
        self.next_status = status;
        self.error_description = description;
    }

    /// One texture-image call: answers the programmed status code, and only
    /// on success mutates the context's texture binding to the request —
    /// binding is all-or-nothing per call.
    pub fn tex_image(&mut self, request: TexImageRequest) -> (status: i32)
        ensures
            status as int == old(self)@.next_status,
            final(self)@.next_status == old(self)@.next_status,
            final(self)@.error_description == old(self)@.error_description,
            status == NO_ERROR ==> final(self)@.bound == Some(request),
            status != NO_ERROR ==> final(self)@.bound == old(self)@.bound,
    {
        if self.next_status == NO_ERROR {
            self.bound = Some(request);
        }
        self.next_status
    }

    /// The driver's human-readable description of a failing status code.
    pub fn describe_error(&self) -> (d: String)
        ensures
            d@ == self@.error_description,
    {
        self.error_description.clone()
    }
}

/// The error binding reports when the driver answers a status other than
/// success: it carries the failing code and the driver's own description of
/// it, and the caller decides what to do — the failure is surfaced, not a
/// crash.
#[derive(Debug)]
pub struct BindError {
    /// The driver's failing status code.
    pub status: i32,
    /// The driver's description of that code.
    pub description: String,
}

impl IOSurface {
    /// The exact parameters binding issues for this surface at `size`:
    /// rectangle target, RGBA internal format, the surface's bytes read as
    /// reversed BGRA, plane zero.
    pub fn tex_image_request(&self, size: SurfaceSize) -> (req: TexImageRequest)
        ensures
            req == spec_request(self@, size),
    {
        let id = self.get_id();
        TexImageRequest {
            target: TEXTURE_RECTANGLE_ARB,
            internal_format: RGBA,
            width: size.width,
            height: size.height,
            format: BGRA,
            pixel_type: UNSIGNED_INT_8_8_8_8_REV,
            surface_id: id,
            plane: 0,
        }
    }

    /// Binds the surface's backing store as a rectangle-target texture of
    /// the given size in the driver's current context, without a pixel
    /// copy. The call is all-or-nothing: on success the context's binding
    /// is mutated to exactly this request; on any other status nothing is
    /// bound and the error carries the driver's status code and its own
    /// description of it.
    pub fn bind_to_gl_texture(&self, size: SurfaceSize, driver: &mut GlDriver) -> (r: Result<
        (),
        BindError,
    >)
        ensures
            final(driver)@.next_status == old(driver)@.next_status,
            final(driver)@.error_description == old(driver)@.error_description,
            r is Ok <==> old(driver)@.next_status == NO_ERROR as int,
            r is Ok ==> final(driver)@.bound == Some(spec_request(self@, size)),
            r matches Err(e) ==> e.status as int == old(driver)@.next_status
                && e.description@ == old(driver)@.error_description
                && final(driver)@.bound == old(driver)@.bound,
    {
        let request = self.tex_image_request(size);
        let status = driver.tex_image(request);
        if status == NO_ERROR {
            Ok(())
        } else {
            let description = driver.describe_error();
            Err(BindError { status, description })
        }
    }
}

} // verus!

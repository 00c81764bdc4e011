//! Solid-colour background brushes, owned through the resource-handle
//! discipline.

use vstd::prelude::*;

use crate::Error;
use crate::handle::{handle_wf, spec_created, spec_finalized, spec_transferred, ReleaseRequest,
    ResourceHandle, ResourceKind};

verus! {

/// The packed colour value a solid brush is requested with: red in the low
/// byte, then green, then blue.
pub open spec fn spec_rgb(r: u8, g: u8, b: u8) -> u32 {
    (r + g * 0x100 + b * 0x1_0000) as u32
}

/// An owned solid-colour brush.
#[derive(Debug)]
pub struct Brush {
    /// The owned raw brush handle.
    pub handle: ResourceHandle,
}

/// Well-formedness of a brush: a well-formed handle of the brush kind.
pub open spec fn brush_wf(b: Brush) -> bool {
    &&& handle_wf(b.handle)
    &&& b.handle.kind == ResourceKind::Brush
}

impl Brush {
    /// Packs a colour for the native solid-brush creation call.
    pub fn solid_rgb_color(r: u8, g: u8, b: u8) -> (c: u32)
        ensures
            c == spec_rgb(r, g, b),
    {
        let c: u32 = (r as u32) | ((g as u32) << 8) | ((b as u32) << 16);
        proof {
            assert((r as u32) | ((g as u32) << 8u32) | ((b as u32) << 16u32) == r + g * 0x100 + b
                * 0x1_0000) by (bit_vector);
        }
        c
    }

    /// Wraps the result of the native brush creation call: a zero raw value
    /// is mapped to an error carrying the last platform error code.
    pub fn from_creation(raw: usize, last_error: u32) -> (r: Result<Brush, Error>)
        ensures
            raw == 0 ==> r == Result::<Brush, Error>::Err(Error { code: last_error }),
            raw != 0 ==> r == Result::<Brush, Error>::Ok(Brush {
                handle: spec_created(ResourceKind::Brush, raw),
            }),
            r matches Ok(br) ==> brush_wf(br),
    {
        match ResourceHandle::create(ResourceKind::Brush, raw, last_error) {
            Ok(handle) => Ok(Brush { handle }),
            Err(e) => Err(e),
        }
    }

    /// The raw brush handle, without transferring ownership.
    pub fn as_raw(&self) -> (r: usize)
        ensures
            r == self.handle.raw,
    {
        self.handle.as_raw()
    }

    /// Transfers ownership of the brush to the caller, for a consuming native
    /// call; the wrapper will issue no release for it.
    pub fn into_raw(&mut self) -> (r: usize)
        requires
            old(self).handle.armed,
        ensures
            r == old(self).handle.raw,
            final(self).handle == spec_transferred(old(self).handle),
    {
        self.handle.into_raw()
    }

    /// Ends ownership, handing back the one release request of the brush's
    /// life if it is still owed.
    pub fn finalize(&mut self) -> (r: Option<ReleaseRequest>)
        requires
            brush_wf(*old(self)),
        ensures
            final(self).handle == spec_finalized(old(self).handle),
            r matches Some(req) ==> old(self).handle.armed && req == (ReleaseRequest {
                kind: ResourceKind::Brush,
                raw: old(self).handle.raw,
            }),
            r is None ==> !old(self).handle.armed,
    {
        self.handle.finalize()
    }
}

} // verus!

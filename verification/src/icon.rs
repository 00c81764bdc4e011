//! Loaded icons, owned through the resource-handle discipline.

use vstd::prelude::*;

use crate::Error;
use crate::handle::{handle_wf, spec_created, spec_transferred, ReleaseRequest, ResourceHandle,
    ResourceKind};

verus! {

/// An owned loaded icon.
#[derive(Debug)]
pub struct Icon {
    /// The owned raw icon handle.
    pub handle: ResourceHandle,
}

/// Well-formedness of an icon: a well-formed handle of the icon kind.
pub open spec fn icon_wf(i: Icon) -> bool {
    &&& handle_wf(i.handle)
    &&& i.handle.kind == ResourceKind::Icon
}

impl Icon {
    /// Wraps the result of the native icon-loading call: a zero raw value is
    /// mapped to an error carrying the last platform error code.
    pub fn from_creation(raw: usize, last_error: u32) -> (r: Result<Icon, Error>)
        ensures
            raw == 0 ==> r == Result::<Icon, Error>::Err(Error { code: last_error }),
            raw != 0 ==> r == Result::<Icon, Error>::Ok(Icon {
                handle: spec_created(ResourceKind::Icon, raw),
            }),
            r matches Ok(i) ==> icon_wf(i),
    {
        match ResourceHandle::create(ResourceKind::Icon, raw, last_error) {
            Ok(handle) => Ok(Icon { handle }),
            Err(e) => Err(e),
        }
    }

    /// The raw icon handle, without transferring ownership.
    pub fn as_raw(&self) -> (r: usize)
        ensures
            r == self.handle.raw,
    {
        self.handle.as_raw()
    }

    /// Transfers ownership of the icon to the caller, for a consuming native
    /// call; the wrapper will issue no release for it.
    pub fn into_raw(&mut self) -> (r: usize)
        requires
            old(self).handle.armed,
        ensures
            r == old(self).handle.raw,
            final(self).handle == spec_transferred(old(self).handle),
    {
        self.handle.into_raw()
    }

    /// Ends ownership, handing back the one release request of the icon's
    /// life if it is still owed.
    pub fn finalize(&mut self) -> (r: Option<ReleaseRequest>)
        requires
            icon_wf(*old(self)),
        ensures
            final(self).handle == crate::handle::spec_finalized(old(self).handle),
            r matches Some(req) ==> old(self).handle.armed && req == (ReleaseRequest {
                kind: ResourceKind::Icon,
                raw: old(self).handle.raw,
            }),
            r is None ==> !old(self).handle.armed,
    {
        self.handle.finalize()
    }
}

} // verus!

//! Owned native resources and their exactly-once release discipline.
//!
//! A `ResourceHandle` wraps one raw native handle of a specific kind. The
//! native release call is a collaborator: when the wrapper is finalized it
//! hands back the `ReleaseRequest` the caller must perform, at most once over
//! the wrapper's whole life. An explicit ownership transfer (`into_raw`)
//! disarms the wrapper, so a consuming native call can take the resource over
//! without a second release ever being issued.

use vstd::prelude::*;

use crate::Error;

verus! {

/// The kind of native object a resource handle owns, deciding which release
/// call its finalization requests.
#[derive(Clone, Copy, Debug, PartialEq, Eq, Structural)]
pub enum ResourceKind {
    /// A registered window-class atom.
    ClassAtom,
    /// A solid-colour background brush.
    Brush,
    /// A loaded icon.
    Icon,
    /// A menu.
    Menu,
}

/// A release call the caller owes the native layer: the matching release
/// function for `kind`, applied to `raw`.
#[derive(Clone, Copy, Debug, PartialEq, Eq, Structural)]
pub struct ReleaseRequest {
    /// The kind of object to release.
    pub kind: ResourceKind,
    /// The raw handle value to release.
    pub raw: usize,
}

/// An owned wrapper around one raw native handle.
///
/// `armed` says the wrapper still owns the object; `releases` counts the
/// release requests the wrapper has issued over its life.
#[derive(Debug)]
pub struct ResourceHandle {
    /// The wrapped raw handle value; never zero.
    pub raw: usize,
    /// The kind of object the handle names.
    pub kind: ResourceKind,
    /// Whether the wrapper still owns the object.
    pub armed: bool,
    /// How many release requests this wrapper has issued.
    pub releases: u32,
}

/// Well-formedness of a handle wrapper: the raw value is nonzero, at most one
/// release is ever issued, and an owning wrapper has not yet issued one.
pub open spec fn handle_wf(h: ResourceHandle) -> bool {
    &&& h.raw != 0
    &&& h.releases <= 1
    &&& h.armed ==> h.releases == 0
}

/// The state a fresh wrapper for `raw` of kind `kind` is created in.
pub open spec fn spec_created(kind: ResourceKind, raw: usize) -> ResourceHandle {
    ResourceHandle { raw, kind, armed: true, releases: 0 }
}

/// The state after an ownership transfer: disarmed, nothing released.
pub open spec fn spec_transferred(h: ResourceHandle) -> ResourceHandle {
    ResourceHandle { armed: false, ..h }
}

/// The state after finalization: disarmed, and one release issued if and only
/// if the wrapper still owned the object.
pub open spec fn spec_finalized(h: ResourceHandle) -> ResourceHandle {
    ResourceHandle {
        armed: false,
        releases: if h.armed {
            (h.releases + 1) as u32
        } else {
            h.releases
        },
        ..h
    }
}

impl ResourceHandle {
    /// Wraps the result of a native creation call: a zero raw value means the
    /// call failed and is mapped to an error carrying the platform's last
    /// error code; anything else becomes an owning, armed wrapper.
    pub fn create(kind: ResourceKind, raw: usize, last_error: u32) -> (r: Result<
        ResourceHandle,
        Error,
    >)
        ensures
            raw == 0 ==> r == Result::<ResourceHandle, Error>::Err(Error { code: last_error }),
            raw != 0 ==> r == Result::<ResourceHandle, Error>::Ok(spec_created(kind, raw)),
            r matches Ok(h) ==> handle_wf(h),
    {
        if raw == 0 {
            Err(Error::from_raw(last_error))
        } else {
            Ok(ResourceHandle { raw, kind, armed: true, releases: 0 })
        }
    }

    /// The raw handle value, for passing to other native calls without
    /// transferring ownership.
    pub fn as_raw(&self) -> (r: usize)
        ensures
            r == self.raw,
    {
        self.raw
    }

    /// Transfers ownership of the object to the caller: the wrapper is
    /// disarmed, so its finalization will issue no release, and the raw value
    /// is handed out for a consuming native call to take over.
    pub fn into_raw(&mut self) -> (r: usize)
        requires
            old(self).armed,
        ensures
            r == old(self).raw,
            *final(self) == spec_transferred(*old(self)),
    {
        self.armed = false;
        self.raw
    }

    /// Ends the wrapper's ownership, as destruction on scope exit would: if
    /// the wrapper still owns the object, the one release request of its life
    /// is handed back; otherwise nothing is owed. Safe to call again: a second
    /// call returns nothing.
    pub fn finalize(&mut self) -> (r: Option<ReleaseRequest>)
        requires
            handle_wf(*old(self)),
        ensures
            *final(self) == spec_finalized(*old(self)),
            handle_wf(*final(self)),
            r matches Some(req) ==> old(self).armed && req == (ReleaseRequest {
                kind: old(self).kind,
                raw: old(self).raw,
            }),
            r is None ==> !old(self).armed,
    {
        if self.armed {
            self.armed = false;
            self.releases = self.releases + 1;
            Some(ReleaseRequest { kind: self.kind, raw: self.raw })
        } else {
            None
        }
    }
}

/// Law: over a wrapper's whole life the release call is issued exactly once
/// on the drop path and never after an ownership transfer. A fresh wrapper
/// that is finalized has issued exactly one release, and finalizing it again
/// issues no more; a fresh wrapper whose ownership was transferred out has
/// issued none, even if it is finalized afterwards; a wrapper left alone has
/// issued none.
pub proof fn lemma_release_exactly_once(kind: ResourceKind, raw: usize)
    ensures
        spec_created(kind, raw).releases == 0,
        spec_finalized(spec_created(kind, raw)).releases == 1,
        spec_finalized(spec_finalized(spec_created(kind, raw))).releases == 1,
        spec_transferred(spec_created(kind, raw)).releases == 0,
        spec_finalized(spec_transferred(spec_created(kind, raw))).releases == 0,
{
}

/// Law: well-formedness is kept by both lifecycle steps, so no reachable
/// wrapper state ever issues a second release.
pub proof fn lemma_lifecycle_preserves_wf(h: ResourceHandle)
    requires
        handle_wf(h),
    ensures
        handle_wf(spec_transferred(h)),
        handle_wf(spec_finalized(h)),
        spec_finalized(h).releases <= 1,
{
}

} // verus!

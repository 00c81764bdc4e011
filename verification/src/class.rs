//! Window classes: a builder that assembles the registration descriptor, and
//! the registered class owned through the resource-handle discipline.

use vstd::prelude::*;

use crate::Error;
use crate::brush::Brush;
use crate::handle::{handle_wf, spec_created, ReleaseRequest, ResourceHandle, ResourceKind};
use crate::wide::{to_wide_null, wide_of};

verus! {

/// The bytes of extra per-window storage a class reserves: one pointer-sized
/// slot, holding the opaque pointer to the window's attached state.
pub const WINDOW_SLOT_BYTES: u32 = 8;

/// Everything the native class-registration call is given: the engine's fixed
/// choices, the caller's name, icon and background brush.
#[derive(Debug)]
pub struct ClassDescriptor {
    /// Class style bits; the engine requests none.
    pub style: u32,
    /// Extra per-window bytes, reserving the state slot.
    pub extra_window_bytes: u32,
    /// The raw icon handle, or zero for none.
    pub icon: usize,
    /// The raw background brush handle, or zero for none. Ownership of the
    /// brush passes to the registered class.
    pub background: usize,
    /// The class name, wide-encoded and zero-terminated.
    pub name: Vec<u16>,
}

/// A builder for a window class.
#[derive(Debug)]
pub struct ClassBuilder {
    /// The class name, wide-encoded and zero-terminated; empty until set.
    pub name: Vec<u16>,
    /// The background brush, if any.
    pub background: Option<Brush>,
    /// The raw icon handle, if any.
    pub icon: Option<usize>,
}

impl ClassBuilder {
    /// An empty builder: no name, no background, no icon.
    pub fn new() -> (r: ClassBuilder)
        ensures
            r.name@ == Seq::<u16>::empty(),
            r.background is None,
            r.icon is None,
    {
        ClassBuilder { name: Vec::new(), background: None, icon: None }
    }

    /// Sets the class name.
    pub fn name(self, name: &str) -> (r: ClassBuilder)
        ensures
            r.name@ == wide_of(name@).push(0),
            r.background == self.background,
            r.icon == self.icon,
    {
        ClassBuilder { name: to_wide_null(name), ..self }
    }

    /// Sets the background brush; its ownership passes to the builder.
    pub fn background(self, background: Brush) -> (r: ClassBuilder)
        ensures
            r.name == self.name,
            r.background == Some(background),
            r.icon == self.icon,
    {
        ClassBuilder { background: Some(background), ..self }
    }

    /// Sets the class icon by its raw handle.
    pub fn icon(self, icon: usize) -> (r: ClassBuilder)
        ensures
            r.name == self.name,
            r.background == self.background,
            r.icon == Some(icon),
    {
        ClassBuilder { icon: Some(icon), ..self }
    }

    /// Assembles the registration descriptor: no style bits, one reserved
    /// pointer-sized state slot per window, the caller's icon or zero, and
    /// the background brush's raw value with its ownership transferred to
    /// the class being registered.
    pub fn register(self) -> (r: ClassDescriptor)
        requires
            self.name@.len() > 0,
            self.background matches Some(b) ==> b.handle.armed,
        ensures
            r.style == 0,
            r.extra_window_bytes == WINDOW_SLOT_BYTES,
            r.icon == (match self.icon {
                Some(i) => i,
                None => 0,
            }),
            r.background == (match self.background {
                Some(b) => b.handle.raw,
                None => 0,
            }),
            r.name == self.name,
    {
        let ClassBuilder { name, background, icon } = self;
        let background_raw: usize = match background {
            Some(mut b) => b.into_raw(),
            None => 0,
        };
        let icon_raw: usize = match icon {
            Some(i) => i,
            None => 0,
        };
        ClassDescriptor {
            style: 0,
            extra_window_bytes: WINDOW_SLOT_BYTES,
            icon: icon_raw,
            background: background_raw,
            name,
        }
    }
}

/// A registered window class, owning its class atom.
#[derive(Debug)]
pub struct Class {
    /// The owned class atom, held as a handle.
    pub handle: ResourceHandle,
}

/// Well-formedness of a class: a well-formed handle of the class-atom kind
/// whose raw value fits an atom's 16 bits.
pub open spec fn class_wf(c: Class) -> bool {
    &&& handle_wf(c.handle)
    &&& c.handle.kind == ResourceKind::ClassAtom
    &&& c.handle.raw <= 0xffff
}

impl Class {
    /// Wraps the result of the native registration call: a zero atom is
    /// mapped to an error carrying the last platform error code.
    pub fn from_registration(atom: u16, last_error: u32) -> (r: Result<Class, Error>)
        ensures
            atom == 0 ==> r == Result::<Class, Error>::Err(Error { code: last_error }),
            atom != 0 ==> r == Result::<Class, Error>::Ok(Class {
                handle: spec_created(ResourceKind::ClassAtom, atom as usize),
            }),
            r matches Ok(c) ==> class_wf(c),
    {
        match ResourceHandle::create(ResourceKind::ClassAtom, atom as usize, last_error) {
            Ok(handle) => Ok(Class { handle }),
            Err(e) => Err(e),
        }
    }

    /// The class atom.
    pub fn as_raw(&self) -> (r: u16)
        requires
            class_wf(*self),
        ensures
            r == self.handle.raw,
    {
        self.handle.as_raw() as u16
    }

    /// The atom as the pointer-sized class-name value the native window
    /// creation call accepts in place of a name string.
    pub fn as_wstr(&self) -> (r: usize)
        ensures
            r == self.handle.raw,
    {
        self.handle.as_raw()
    }

    /// Ends ownership, handing back the one unregistration request of the
    /// class's life if it is still owed.
    pub fn finalize(&mut self) -> (r: Option<ReleaseRequest>)
        requires
            class_wf(*old(self)),
        ensures
            final(self).handle == crate::handle::spec_finalized(old(self).handle),
            class_wf(*final(self)),
            r matches Some(req) ==> old(self).handle.armed && req == (ReleaseRequest {
                kind: ResourceKind::ClassAtom,
                raw: old(self).handle.raw,
            }),
            r is None ==> !old(self).handle.armed,
    {
        self.handle.finalize()
    }
}

} // verus!

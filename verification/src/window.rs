//! Window identity, attachment and handle-reference safety.
//!
//! A `Registry` models one message-processing thread's window bookkeeping:
//! the side table from native window handle to attached `WindowState` (the
//! reserved per-window storage slot), and the thread's staging slot through
//! which the event handler reaches the first callback invocation, which fires
//! during native creation, before the creating code holds the handle.
//!
//! The owning thread works through `Window`; any other thread holds a
//! `WindowRef`, which must resolve against the registry before every use and
//! reports an invalid-handle error once the window is gone.

use std::collections::HashMap;
use vstd::prelude::*;

use crate::{Error, ERROR_INVALID_WINDOW_HANDLE};
use crate::class::Class;
use crate::event::WM_CLOSE;
use crate::wide::{to_wide_null, wide_of};

verus! {

broadcast use vstd::std_specs::hash::group_hash_axioms;

/// An unrecoverable logic error: a condition the design declares impossible
/// under correct use. It is reported, never recovered from.
#[derive(Clone, Copy, Debug, PartialEq, Eq, Structural)]
pub enum Violation {
    /// State was attached to a window whose slot already held state.
    AlreadyAttached,
    /// The first callback fired with no handler in the thread's staging slot.
    MissingStagedHandler,
    /// A menu command arrived with no pending one-shot menu handler.
    MenuCommandWithoutHandler,
    /// A notification-icon event arrived for an id no icon is registered under.
    UnknownIconId(u16),
}

/// The per-window state record, attached to the native handle for the
/// window's whole life. Handlers are carried as opaque tokens the application
/// assigns; the engine routes, the application invokes.
#[derive(Debug)]
pub struct WindowState {
    /// The native window handle this state belongs to.
    pub hwnd: usize,
    /// The token of the window's top-level event handler.
    pub handler: u64,
    /// The class resource, kept alive exactly as long as the window.
    pub class: Option<Class>,
    /// Icon id to handler token, for every registered notification icon.
    pub icons: HashMap<u16, u64>,
    /// The one-shot slot holding the active popup menu's result handler.
    pub menu_handler: Option<u64>,
}

/// The mathematical reading of a window's state record.
pub struct WindowModel {
    /// The native window handle.
    pub hwnd: usize,
    /// The top-level handler token.
    pub handler: u64,
    /// Whether the class resource has been moved in.
    pub has_class: bool,
    /// The notification-icon registry.
    pub icons: Map<u16, u64>,
    /// The pending one-shot menu handler.
    pub menu_handler: Option<u64>,
}

impl View for WindowState {
    type V = WindowModel;

    open spec fn view(&self) -> WindowModel {
        WindowModel {
            hwnd: self.hwnd,
            handler: self.handler,
            has_class: self.class is Some,
            icons: self.icons@,
            menu_handler: self.menu_handler,
        }
    }
}

/// The state a window carries the moment it is attached: no class yet, no
/// icons, no pending menu handler.
pub open spec fn spec_fresh_window(hwnd: usize, handler: u64) -> WindowModel {
    WindowModel {
        hwnd,
        handler,
        has_class: false,
        icons: Map::empty(),
        menu_handler: None,
    }
}

impl WindowState {
    /// A fresh state record for a window that has just been attached.
    pub fn new(hwnd: usize, handler: u64) -> (r: WindowState)
        ensures
            r@ == spec_fresh_window(hwnd, handler),
    {
        let r = WindowState {
            hwnd,
            handler,
            class: None,
            icons: HashMap::new(),
            menu_handler: None,
        };
        proof {
            assert(r@.icons =~= Map::<u16, u64>::empty());
        }
        r
    }

    /// Installs a one-shot menu-selection handler; a pending one is replaced,
    /// the last writer winning.
    pub fn set_menu_handler(&mut self, token: u64)
        ensures
            final(self)@ == (WindowModel { menu_handler: Some(token), ..old(self)@ }),
    {
        self.menu_handler = Some(token);
    }

    /// Registers a notification icon's handler under its id. Ids are assigned
    /// only by this engine: id zero is the no-icon sentinel and a duplicate id
    /// is a contract violation, so neither is admitted.
    pub fn add_icon(&mut self, id: u16, token: u64)
        requires
            id != 0,
            !old(self)@.icons.contains_key(id),
        ensures
            final(self)@ == (WindowModel { icons: old(self)@.icons.insert(id, token), ..old(self)@ }),
    {
        self.icons.insert(id, token);
    }
}

/// One thread's window bookkeeping: the handle-to-state side table and the
/// staging slot for the creation-time handler handoff.
#[derive(Debug)]
pub struct Registry {
    /// The side table: native handle to attached state.
    pub slots: HashMap<usize, WindowState>,
    /// The staging slot: the handler the next first callback will attach.
    pub staged: Option<u64>,
}

impl Registry {
    /// An empty registry: nothing attached, nothing staged.
    pub fn new() -> (r: Registry)
        ensures
            r.slots@ == Map::<usize, WindowState>::empty(),
            r.staged is None,
    {
        Registry { slots: HashMap::new(), staged: None }
    }

    /// Stores a handler in the staging slot, immediately before the blocking
    /// native creation call is issued.
    pub fn stage_handler(&mut self, token: u64)
        ensures
            final(self).staged == Some(token),
            final(self).slots@ == old(self).slots@,
    {
        self.staged = Some(token);
    }

    /// Whether state is attached to the given handle.
    pub fn is_attached(&self, hwnd: usize) -> (r: bool)
        ensures
            r == self.slots@.contains_key(hwnd),
    {
        self.slots.contains_key(&hwnd)
    }

    /// First-time attachment, performed by the dispatch callback when it
    /// observes a handle with no attached state: the staged handler is
    /// consumed and a fresh state record is stored in the handle's slot.
    /// Exactly one attachment may occur per native window: a handle whose
    /// slot already holds state is refused as a contract violation, as is a
    /// first callback that finds the staging slot empty; neither changes
    /// anything.
    pub fn initialize(&mut self, hwnd: usize) -> (r: Result<(), Violation>)
        ensures
            old(self).slots@.contains_key(hwnd) ==> r == Result::<(), Violation>::Err(
                Violation::AlreadyAttached,
            ) && final(self).slots@ == old(self).slots@ && final(self).staged == old(self).staged,
            !old(self).slots@.contains_key(hwnd) && old(self).staged is None ==> r == Result::<
                (),
                Violation,
            >::Err(Violation::MissingStagedHandler) && final(self).slots@ == old(self).slots@
                && final(self).staged == old(self).staged,
            (!old(self).slots@.contains_key(hwnd) && old(self).staged is Some) ==> {
                &&& r == Result::<(), Violation>::Ok(())
                &&& final(self).staged is None
                &&& final(self).slots@.contains_key(hwnd)
                &&& final(self).slots@[hwnd]@ == spec_fresh_window(hwnd, old(self).staged->0)
                &&& final(self).slots@ == old(self).slots@.insert(hwnd, final(self).slots@[hwnd])
            },
    {
        if self.slots.contains_key(&hwnd) {
            Err(Violation::AlreadyAttached)
        } else {
            match self.staged {
                None => Err(Violation::MissingStagedHandler),
                Some(token) => {
                    self.staged = None;
                    self.slots.insert(hwnd, WindowState::new(hwnd, token));
                    Ok(())
                },
            }
        }
    }

    /// Reclaims a window's state on the destroy notification: the slot is
    /// emptied, so the handle is dead to every reference from then on, and
    /// the state is handed back for its resources to be released.
    pub fn detach(&mut self, hwnd: usize) -> (r: Option<WindowState>)
        ensures
            final(self).staged == old(self).staged,
            old(self).slots@.contains_key(hwnd) ==> {
                &&& r == Some(old(self).slots@[hwnd])
                &&& final(self).slots@ == old(self).slots@.remove(hwnd)
            },
            !old(self).slots@.contains_key(hwnd) ==> r is None && final(self).slots@ == old(
                self,
            ).slots@,
    {
        self.slots.remove(&hwnd)
    }
}

/// A fire-and-forget message post the caller owes the native layer.
#[derive(Clone, Copy, Debug, PartialEq, Eq, Structural)]
pub struct PostRequest {
    /// The target window handle.
    pub hwnd: usize,
    /// The notification code to post.
    pub msg: u32,
    /// The first packed parameter.
    pub wparam: usize,
    /// The second packed parameter.
    pub lparam: usize,
}

/// The owning thread's reference to a live window.
#[derive(Clone, Copy, Debug, PartialEq, Eq, Structural)]
pub struct Window {
    /// The native window handle.
    pub hwnd: usize,
}

impl Window {
    /// The raw native handle.
    pub fn as_raw(&self) -> (r: usize)
        ensures
            r == self.hwnd,
    {
        self.hwnd
    }

    /// A weak reference, safe to hand to another thread: it re-resolves
    /// against the registry on every use.
    pub fn as_ref(&self) -> (r: WindowRef)
        ensures
            r.hwnd == self.hwnd,
    {
        WindowRef { hwnd: self.hwnd }
    }
}

/// A cross-thread-capable weak reference to a window. The native layer may
/// destroy the window at any time, so the reference never hands out the raw
/// handle without resolving it against the registry first.
#[derive(Clone, Copy, Debug, PartialEq, Eq, Structural)]
pub struct WindowRef {
    /// The native window handle the reference observes.
    pub hwnd: usize,
}

impl WindowRef {
    /// What resolving the reference against a registry yields: the handle
    /// while the window's state is attached, and the invalid-handle error
    /// from the moment it no longer is.
    pub open spec fn spec_resolve(self, reg: Registry) -> Result<usize, Error> {
        if reg.slots@.contains_key(self.hwnd) {
            Ok(self.hwnd)
        } else {
            Err(Error { code: ERROR_INVALID_WINDOW_HANDLE })
        }
    }

    /// Resolves the reference to the raw handle, failing with the
    /// invalid-handle error once the window is gone.
    pub fn as_raw(&self, reg: &Registry) -> (r: Result<usize, Error>)
        ensures
            r == self.spec_resolve(*reg),
    {
        if reg.is_attached(self.hwnd) {
            Ok(self.hwnd)
        } else {
            Err(Error::from_raw(ERROR_INVALID_WINDOW_HANDLE))
        }
    }

    /// A best-effort liveness probe. Racy by design: the window may be gone
    /// by the time the answer is read, which is why every use re-resolves.
    pub fn is_open(&self, reg: &Registry) -> (r: bool)
        ensures
            r == reg.slots@.contains_key(self.hwnd),
    {
        reg.is_attached(self.hwnd)
    }

    /// Resolves the reference and, while the window lives, hands back the
    /// post the caller owes the native layer; a dead window yields the
    /// invalid-handle error instead.
    pub fn post_message(&self, reg: &Registry, msg: u32, wparam: usize, lparam: usize) -> (r:
        Result<PostRequest, Error>)
        ensures
            reg.slots@.contains_key(self.hwnd) ==> r == Result::<PostRequest, Error>::Ok(
                PostRequest { hwnd: self.hwnd, msg, wparam, lparam },
            ),
            !reg.slots@.contains_key(self.hwnd) ==> r == Result::<PostRequest, Error>::Err(
                Error { code: ERROR_INVALID_WINDOW_HANDLE },
            ),
    {
        match self.as_raw(reg) {
            Ok(hwnd) => Ok(PostRequest { hwnd, msg, wparam, lparam }),
            Err(e) => Err(e),
        }
    }

    /// Requests that the window close, by posting the close notification.
    pub fn close(&self, reg: &Registry) -> (r: Result<PostRequest, Error>)
        ensures
            reg.slots@.contains_key(self.hwnd) ==> r == Result::<PostRequest, Error>::Ok(
                PostRequest { hwnd: self.hwnd, msg: WM_CLOSE, wparam: 0, lparam: 0 },
            ),
            !reg.slots@.contains_key(self.hwnd) ==> r == Result::<PostRequest, Error>::Err(
                Error { code: ERROR_INVALID_WINDOW_HANDLE },
            ),
    {
        self.post_message(reg, WM_CLOSE, 0, 0)
    }
}

/// The position-or-size value asking the native layer to choose a default.
pub const CW_USEDEFAULT: i32 = -2147483648;

/// The handler token a window built without a handler is staged with; the
/// application should route it to a handler that always declines.
pub const DEFAULT_HANDLER: u64 = 0;

/// The native window-creation call the caller owes: issued on the window's
/// own thread, immediately after the handler has been staged, so that the
/// callback firing inside the call can perform first-time attachment.
#[derive(Debug)]
pub struct CreateRequest {
    /// Extended style bits; the engine requests none.
    pub ex_style: u32,
    /// The class, as the atom-as-pointer value creation accepts for a name.
    pub class_name: usize,
    /// The window title, wide-encoded and zero-terminated.
    pub title: Vec<u16>,
    /// Style bits; the engine requests none.
    pub style: u32,
    /// The horizontal position; left to the native default.
    pub x: i32,
    /// The vertical position; left to the native default.
    pub y: i32,
    /// The width.
    pub width: i32,
    /// The height.
    pub height: i32,
    /// Whether the window is created as a message-only window.
    pub message_only: bool,
}

/// The class resource held between the creation request and its completion.
#[derive(Debug)]
pub struct PendingWindow {
    /// The class the window is created with; moved into the window's state
    /// when creation completes.
    pub class: Option<Class>,
}

/// A builder for a top-level message window.
#[derive(Debug)]
pub struct WindowBuilder {
    /// The token of the window's top-level event handler.
    pub handler: Option<u64>,
    /// The class to create the window with.
    pub class: Option<Class>,
}

impl WindowBuilder {
    /// An empty builder: no handler, no class.
    pub fn new() -> (r: WindowBuilder)
        ensures
            r.handler is None,
            r.class is None,
    {
        WindowBuilder { handler: None, class: None }
    }

    /// Sets the top-level handler token.
    pub fn handler(self, token: u64) -> (r: WindowBuilder)
        ensures
            r.handler == Some(token),
            r.class == self.class,
    {
        WindowBuilder { handler: Some(token), ..self }
    }

    /// Sets the class; its ownership passes to the builder.
    pub fn class(self, class: Class) -> (r: WindowBuilder)
        ensures
            r.handler == self.handler,
            r.class == Some(class),
    {
        WindowBuilder { class: Some(class), ..self }
    }

    /// Opens the synchronous creation handoff, on the window's own thread: a
    /// class must have been given; the handler — or the default token — is
    /// stored in the thread's staging slot, and the creation request the
    /// native layer is owed is handed back together with the class, which is
    /// kept until completion. The callback fires inside the native call and
    /// attaches the staged handler; `finish_create` then completes the
    /// handoff.
    pub fn begin_create(self, reg: &mut Registry) -> (r: (CreateRequest, PendingWindow))
        requires
            self.class is Some,
        ensures
            final(reg).staged == Some(
                match self.handler {
                    Some(t) => t,
                    None => DEFAULT_HANDLER,
                },
            ),
            final(reg).slots@ == old(reg).slots@,
            r.0.ex_style == 0,
            r.0.class_name == (match self.class {
                Some(c) => c.handle.raw,
                None => 0,
            }),
            r.0.title@ == wide_of("I'm a window!"@).push(0),
            r.0.style == 0,
            r.0.x == CW_USEDEFAULT,
            r.0.y == CW_USEDEFAULT,
            r.0.width == 0,
            r.0.height == 0,
            r.0.message_only,
            r.1.class == self.class,
    {
        let WindowBuilder { handler, class } = self;
        let token: u64 = match handler {
            Some(t) => t,
            None => DEFAULT_HANDLER,
        };
        reg.stage_handler(token);
        let class_name: usize = match &class {
            Some(c) => c.as_wstr(),
            None => 0,
        };
        let request = CreateRequest {
            ex_style: 0,
            class_name,
            title: to_wide_null("I'm a window!"),
            style: 0,
            x: CW_USEDEFAULT,
            y: CW_USEDEFAULT,
            width: 0,
            height: 0,
            message_only: true,
        };
        (request, PendingWindow { class })
    }
}

/// Completes the creation handoff with the native call's result: a zero
/// handle reports the creation failure with the last platform error code; a
/// live handle — to which the callback attached state during the call — has
/// the class moved into its state, so the class lives exactly as long as the
/// window, and yields the weak reference the controller thread is woken with.
pub fn finish_create(pending: &mut PendingWindow, reg: &mut Registry, hwnd: usize,
    last_error: u32) -> (r: Result<WindowRef, Error>)
    requires
        hwnd != 0 ==> old(reg).slots@.contains_key(hwnd),
        hwnd != 0 ==> old(pending).class is Some,
    ensures
        hwnd == 0 ==> {
            &&& r == Result::<WindowRef, Error>::Err(Error { code: last_error })
            &&& *final(pending) == *old(pending)
            &&& final(reg).slots@ == old(reg).slots@
            &&& final(reg).staged == old(reg).staged
        },
        hwnd != 0 ==> {
            &&& r == Result::<WindowRef, Error>::Ok(WindowRef { hwnd })
            &&& final(pending).class is None
            &&& final(reg).staged == old(reg).staged
            &&& final(reg).slots@.contains_key(hwnd)
            &&& final(reg).slots@[hwnd]@ == (WindowModel {
                has_class: true,
                ..old(reg).slots@[hwnd]@
            })
            &&& final(reg).slots@ == old(reg).slots@.insert(hwnd, final(reg).slots@[hwnd])
        },
{
    if hwnd == 0 {
        return Err(Error::from_raw(last_error));
    }
    let mut state = match reg.slots.remove(&hwnd) {
        Some(st) => st,
        None => {
            proof {
                assert(false);
            }
            return Err(Error::from_raw(last_error));
        },
    };
    state.class = pending.class.take();
    reg.slots.insert(hwnd, state);
    Ok(WindowRef { hwnd })
}

/// Law: a weak reference resolved after its window has been dropped from the
/// registry — as it is by teardown, and as the owner's drop clears the shared
/// cell — always yields the invalid-handle error, never a stale handle.
pub proof fn lemma_resolve_after_drop(reg: Registry, r: WindowRef)
    requires
        !reg.slots@.contains_key(r.hwnd),
    ensures
        r.spec_resolve(reg) == Result::<usize, Error>::Err(
            Error { code: ERROR_INVALID_WINDOW_HANDLE },
        ),
{
}

/// Law: teardown invalidates every weak reference to the window it reclaims:
/// whatever the registry held before, once the window's slot is emptied the
/// reference resolves to the invalid-handle error.
pub proof fn lemma_detach_invalidates(before: Map<usize, WindowState>, hwnd: usize, r: WindowRef)
    requires
        r.hwnd == hwnd,
    ensures
        !before.remove(hwnd).contains_key(hwnd),
        forall|reg: Registry| reg.slots@ == before.remove(hwnd) ==> #[trigger] r.spec_resolve(reg)
            == Result::<usize, Error>::Err(Error { code: ERROR_INVALID_WINDOW_HANDLE }),
{
}

} // verus!

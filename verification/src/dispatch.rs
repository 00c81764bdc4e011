//! Dispatch: the routing of each translated notification, the per-callback
//! window procedure, and the message loop's continuation decision.
//!
//! The engine decides; the application invokes. Every outcome names the
//! handler token to call, so routing is a pure function of the window's state
//! and the event, and the one-shot and registry disciplines are theorems.

use vstd::prelude::*;

use crate::{Error, ERROR_INVALID_WINDOW_HANDLE};
use crate::event::{spec_event, Event, NotifyIconEvent};
use crate::window::{spec_fresh_window, Registry, Violation, WindowModel, WindowState};

verus! {

broadcast use vstd::std_specs::hash::group_hash_axioms;

/// What one notification asks of the application, in priority order: invoke
/// the pending one-shot menu handler; tear the window down; invoke a
/// notification icon's handler; or invoke the window's top-level handler,
/// which may pre-empt default handling or decline.
#[derive(Clone, Copy, Debug, PartialEq, Eq, Structural)]
pub enum Dispatch {
    /// Invoke the one-shot menu handler (token) with the selected menu id.
    InvokeMenuHandler(u64, u16),
    /// The destroy notification: reclaim the window's state and quit the loop.
    Teardown,
    /// Invoke the handler (token) of the icon with the given id.
    InvokeIconHandler(u64, u16, NotifyIconEvent),
    /// Invoke the top-level handler (token) with the event.
    InvokeHandler(u64, Event),
    /// An unrecoverable logic error.
    Fatal(Violation),
}

/// Where a translated event is routed, given the window's state: a menu
/// command goes to the pending one-shot handler (its absence is a contract
/// violation); destroy becomes teardown; an icon event goes to the handler
/// registered under the carried id (an unknown id is a contract violation);
/// everything else goes to the top-level handler.
pub open spec fn route_decision(m: WindowModel, e: Event) -> Dispatch {
    match e {
        Event::MenuCommand(id) => match m.menu_handler {
            Some(t) => Dispatch::InvokeMenuHandler(t, id),
            None => Dispatch::Fatal(Violation::MenuCommandWithoutHandler),
        },
        Event::Destroy => Dispatch::Teardown,
        Event::NotifyIcon(id, sub) => if m.icons.contains_key(id) {
            Dispatch::InvokeIconHandler(m.icons[id], id, sub)
        } else {
            Dispatch::Fatal(Violation::UnknownIconId(id))
        },
        _ => Dispatch::InvokeHandler(m.handler, e),
    }
}

/// How routing changes the window's state: a menu command consumes the
/// one-shot slot; nothing else changes anything.
pub open spec fn route_state(m: WindowModel, e: Event) -> WindowModel {
    match e {
        Event::MenuCommand(_) => WindowModel { menu_handler: None, ..m },
        _ => m,
    }
}

impl WindowState {
    /// Translates one raw notification and routes it, consuming the one-shot
    /// menu slot when a menu command takes it.
    pub fn handle_event(&mut self, msg: u32, wparam: usize, lparam: usize) -> (r: Dispatch)
        ensures
            r == route_decision(old(self)@, spec_event(msg, wparam, lparam)),
            final(self)@ == route_state(old(self)@, spec_event(msg, wparam, lparam)),
    {
        let event = Event::from_raw(msg, wparam, lparam);
        match event {
            Event::MenuCommand(id) => {
                let pending = self.menu_handler;
                self.menu_handler = None;
                match pending {
                    Some(t) => Dispatch::InvokeMenuHandler(t, id),
                    None => Dispatch::Fatal(Violation::MenuCommandWithoutHandler),
                }
            },
            Event::Destroy => Dispatch::Teardown,
            Event::NotifyIcon(id, sub) => match self.icons.get(&id) {
                Some(t) => Dispatch::InvokeIconHandler(*t, id, sub),
                None => Dispatch::Fatal(Violation::UnknownIconId(id)),
            },
            _ => Dispatch::InvokeHandler(self.handler, event),
        }
    }
}

/// What one callback invocation asks of the application.
#[derive(Debug)]
pub enum ProcOutcome {
    /// Deliver the routed dispatch; if the invoked handler declines with no
    /// response, fall through to default native handling.
    Deliver(Dispatch),
    /// The window was destroyed: its reclaimed state, whose resources the
    /// caller must release, after posting the quit message for the thread's
    /// terminal window.
    Quit(WindowState),
    /// An unrecoverable logic error.
    Fatal(Violation),
}

/// Whether a callback for this handle would fail its bootstrap: no state is
/// attached and no handler is staged.
pub open spec fn proc_bootstrap_fails(reg: Registry, hwnd: usize) -> bool {
    !reg.slots@.contains_key(hwnd) && reg.staged is None
}

/// The state the callback works on: the attached state, or the fresh record
/// first-time attachment builds from the staged handler.
pub open spec fn proc_window_model(reg: Registry, hwnd: usize) -> WindowModel {
    if reg.slots@.contains_key(hwnd) {
        reg.slots@[hwnd]@
    } else {
        spec_fresh_window(hwnd, reg.staged->0)
    }
}

/// One invocation of the dispatch callback for a raw notification: performs
/// first-time attachment if the handle has no state yet (taking the staged
/// handler), translates and routes the notification, and on the destroy
/// notification reclaims the state and ends the window's life.
pub fn window_procedure(reg: &mut Registry, hwnd: usize, msg: u32, wparam: usize, lparam: usize)
    -> (r: ProcOutcome)
    ensures
        proc_bootstrap_fails(*old(reg), hwnd) ==> {
            &&& r matches ProcOutcome::Fatal(v) && v == Violation::MissingStagedHandler
            &&& final(reg).slots@ == old(reg).slots@
            &&& final(reg).staged == old(reg).staged
        },
        !proc_bootstrap_fails(*old(reg), hwnd) ==> {
            let e = spec_event(msg, wparam, lparam);
            let m = proc_window_model(*old(reg), hwnd);
            let d = route_decision(m, e);
            let m1 = route_state(m, e);
            &&& final(reg).staged == (if old(reg).slots@.contains_key(hwnd) {
                old(reg).staged
            } else {
                None
            })
            &&& (d is Teardown ==> {
                &&& r matches ProcOutcome::Quit(st) && st@ == m1
                &&& final(reg).slots@ == old(reg).slots@.remove(hwnd)
            })
            &&& (!(d is Teardown) ==> {
                &&& (match d {
                    Dispatch::Fatal(v) => r matches ProcOutcome::Fatal(w) && w == v,
                    _ => r matches ProcOutcome::Deliver(d2) && d2 == d,
                })
                &&& final(reg).slots@.contains_key(hwnd)
                &&& final(reg).slots@[hwnd]@ == m1
                &&& final(reg).slots@ == old(reg).slots@.insert(hwnd, final(reg).slots@[hwnd])
            })
        },
{
    if !reg.is_attached(hwnd) {
        match reg.initialize(hwnd) {
            Err(v) => {
                return ProcOutcome::Fatal(v);
            },
            Ok(()) => {},
        }
    }
    let mut state = match reg.detach(hwnd) {
        Some(st) => st,
        None => {
            proof {
                assert(false);
            }
            return ProcOutcome::Fatal(Violation::AlreadyAttached);
        },
    };
    let d = state.handle_event(msg, wparam, lparam);
    match d {
        Dispatch::Teardown => ProcOutcome::Quit(state),
        Dispatch::Fatal(v) => {
            reg.slots.insert(hwnd, state);
            ProcOutcome::Fatal(v)
        },
        _ => {
            reg.slots.insert(hwnd, state);
            ProcOutcome::Deliver(d)
        },
    }
}

/// Law: menu display round trip — with a one-shot handler registered, a menu
/// command is delivered to exactly that handler and the slot is cleared, so a
/// second menu command without re-registration is a contract violation.
pub proof fn lemma_menu_one_shot(m: WindowModel, t: u64, first: u16, second: u16)
    requires
        m.menu_handler == Some(t),
    ensures
        route_decision(m, Event::MenuCommand(first)) == Dispatch::InvokeMenuHandler(t, first),
        route_state(m, Event::MenuCommand(first)).menu_handler is None,
        route_decision(route_state(m, Event::MenuCommand(first)), Event::MenuCommand(second))
            == Dispatch::Fatal(Violation::MenuCommandWithoutHandler),
{
}

/// Law: a notification-icon event carrying icon id `n` is routed precisely to
/// the handler registered under `n` — never to any other — and to a contract
/// violation when nothing is registered under `n`; icon routing changes no
/// state.
pub proof fn lemma_icon_routing(m: WindowModel, n: u16, sub: NotifyIconEvent)
    ensures
        m.icons.contains_key(n) ==> route_decision(m, Event::NotifyIcon(n, sub))
            == Dispatch::InvokeIconHandler(m.icons[n], n, sub),
        !m.icons.contains_key(n) ==> route_decision(m, Event::NotifyIcon(n, sub))
            == Dispatch::Fatal(Violation::UnknownIconId(n)),
        route_state(m, Event::NotifyIcon(n, sub)) == m,
{
}

/// What the message loop does after one blocking retrieval, given the call's
/// return and the platform's last error code.
#[derive(Clone, Copy, Debug, PartialEq, Eq, Structural)]
pub enum LoopDecision {
    /// Translate and dispatch the retrieved notification, then retrieve again.
    Process,
    /// The quit notification was retrieved: end the loop cleanly.
    Quit,
    /// Retrieval failed because the window is already gone: end gracefully.
    WindowGone,
    /// Retrieval failed for any other reason: unrecoverable.
    Fatal(Error),
}

/// Decides the loop's continuation: a zero return is the clean quit; a
/// negative-one return with the invalid-handle code means the window is
/// already gone and the loop ends gracefully; any other negative-one return
/// is fatal; everything else is a notification to process.
pub fn loop_decision(ret: i32, last_error: u32) -> (r: LoopDecision)
    ensures
        ret == 0 ==> r == LoopDecision::Quit,
        ret == -1 && last_error == ERROR_INVALID_WINDOW_HANDLE ==> r == LoopDecision::WindowGone,
        ret == -1 && last_error != ERROR_INVALID_WINDOW_HANDLE ==> r == LoopDecision::Fatal(
            Error { code: last_error },
        ),
        ret != 0 && ret != -1 ==> r == LoopDecision::Process,
{
    if ret == 0 {
        LoopDecision::Quit
    } else if ret == -1 {
        if last_error == ERROR_INVALID_WINDOW_HANDLE {
            LoopDecision::WindowGone
        } else {
            LoopDecision::Fatal(Error::from_raw(last_error))
        }
    } else {
        LoopDecision::Process
    }
}

} // verus!

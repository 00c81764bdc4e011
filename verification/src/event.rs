//! The typed event model: a total, information-preserving classification of
//! raw native notification parameters.
//!
//! A notification arrives as a code and two pointer-sized packed parameters.
//! Translation never fails and never panics: a code outside the known set is
//! kept, with its parameters, in an `Unknown` variant.

use vstd::prelude::*;

verus! {

/// Notification code: a window has been created.
pub const WM_CREATE: u32 = 0x0001;

/// Notification code: a window is being destroyed.
pub const WM_DESTROY: u32 = 0x0002;

/// Notification code: a window is asked to close.
pub const WM_CLOSE: u32 = 0x0010;

/// Notification code: a window's size limits are being queried.
pub const WM_GETMINMAXINFO: u32 = 0x0024;

/// Notification sub-code: a context menu was requested.
pub const WM_CONTEXTMENU: u32 = 0x007B;

/// Notification code: a command, such as a menu selection, was issued.
pub const WM_COMMAND: u32 = 0x0111;

/// Notification sub-code: the cursor moved.
pub const WM_MOUSEMOVE: u32 = 0x0200;

/// Notification sub-code: a notification icon was selected.
pub const NIN_SELECT: u32 = 0x0400;

/// The first notification code in the application-defined range.
pub const WM_APP: u32 = 0x8000;

/// The application-range code under which notification-icon events arrive.
pub const WM_APP_NOTIFICATION_ICON: u32 = WM_APP + 1;

/// The low 16 bits of a packed parameter.
pub open spec fn spec_loword(l: usize) -> u16 {
    (l & 0xffff) as u16
}

/// Bits 16 to 31 of a packed parameter.
pub open spec fn spec_hiword(l: usize) -> u16 {
    ((l >> 16) & 0xffff) as u16
}

/// The signed reading of a 16-bit coordinate word.
pub open spec fn spec_coord(w: u16) -> i32 {
    if w < 0x8000 {
        w as i32
    } else {
        ((w as int) - 0x1_0000) as i32
    }
}

/// The low 16 bits of a packed parameter.
pub fn loword(l: usize) -> (r: u16)
    ensures
        r == spec_loword(l),
{
    proof {
        assert(l & 0xffff <= 0xffff) by (bit_vector);
    }
    (l & 0xffff) as u16
}

/// Bits 16 to 31 of a packed parameter.
pub fn hiword(l: usize) -> (r: u16)
    ensures
        r == spec_hiword(l),
{
    proof {
        assert((l >> 16) & 0xffff <= 0xffff) by (bit_vector);
    }
    ((l >> 16) & 0xffff) as u16
}

/// The signed reading of a 16-bit coordinate word.
pub fn coord(w: u16) -> (r: i32)
    ensures
        r == spec_coord(w),
{
    if w < 0x8000 {
        w as i32
    } else {
        (w as i32) - 0x1_0000
    }
}

/// A typed native notification. Raw creation and size-limit parameters are
/// carried as the pointer-sized values the native layer handed over; they
/// refer to transient data the native layer owns.
#[derive(Clone, Copy, Debug, PartialEq, Eq, Structural)]
pub enum Event {
    /// A menu item carrying the given identifier was selected.
    MenuCommand(u16),
    /// The window is being created; carries the raw creation-parameter value.
    Create(usize),
    /// The window is being destroyed.
    Destroy,
    /// The window's size limits are queried; carries the raw limit-record value.
    GetMinMaxInfo(usize),
    /// A code outside the known set, with its raw parameters preserved.
    Unknown(u32, usize, usize),
    /// A notification-icon event for the icon with the given identifier.
    NotifyIcon(u16, NotifyIconEvent),
}

/// A typed notification-icon sub-event, carrying cursor coordinates.
#[derive(Clone, Copy, Debug, PartialEq, Eq, Structural)]
pub enum NotifyIconEvent {
    /// The icon's context menu was requested at the given cursor position.
    ContextMenu(i32, i32),
    /// The cursor moved over the icon.
    MouseMove(i32, i32),
    /// The icon was selected.
    Select(i32, i32),
    /// A sub-code outside the known set, with its code and coordinates preserved.
    Unknown(u32, i32, i32),
}

/// The classification of a notification-icon sub-event: the cursor position is
/// packed into the first parameter, the sub-code into the low word of the second.
pub open spec fn spec_notify_icon_event(wparam: usize, lparam: usize) -> NotifyIconEvent {
    let x = spec_coord(spec_loword(wparam));
    let y = spec_coord(spec_hiword(wparam));
    let sub = spec_loword(lparam) as u32;
    if sub == NIN_SELECT {
        NotifyIconEvent::Select(x, y)
    } else if sub == WM_CONTEXTMENU {
        NotifyIconEvent::ContextMenu(x, y)
    } else if sub == WM_MOUSEMOVE {
        NotifyIconEvent::MouseMove(x, y)
    } else {
        NotifyIconEvent::Unknown(sub, x, y)
    }
}

/// The classification of a raw notification. A command whose high parameter
/// word is nonzero does not come from a menu and is kept raw.
pub open spec fn spec_event(msg: u32, wparam: usize, lparam: usize) -> Event {
    if msg == WM_COMMAND && spec_hiword(wparam) == 0 {
        Event::MenuCommand(spec_loword(wparam))
    } else if msg == WM_CREATE {
        Event::Create(lparam)
    } else if msg == WM_DESTROY {
        Event::Destroy
    } else if msg == WM_GETMINMAXINFO {
        Event::GetMinMaxInfo(lparam)
    } else if msg == WM_APP_NOTIFICATION_ICON {
        Event::NotifyIcon(spec_hiword(lparam), spec_notify_icon_event(wparam, lparam))
    } else {
        Event::Unknown(msg, wparam, lparam)
    }
}

/// Whether a notification code, with its first parameter, belongs to the set
/// the engine recognizes.
pub open spec fn known_code(msg: u32, wparam: usize) -> bool {
    ||| (msg == WM_COMMAND && spec_hiword(wparam) == 0)
    ||| msg == WM_CREATE
    ||| msg == WM_DESTROY
    ||| msg == WM_GETMINMAXINFO
    ||| msg == WM_APP_NOTIFICATION_ICON
}

impl NotifyIconEvent {
    /// Extracts cursor coordinates and the sub-code from the packed
    /// parameters and classifies the sub-event.
    pub fn from_raw(wparam: usize, lparam: usize) -> (r: NotifyIconEvent)
        ensures
            r == spec_notify_icon_event(wparam, lparam),
    {
        let x = coord(loword(wparam));
        let y = coord(hiword(wparam));
        let sub = loword(lparam) as u32;
        if sub == NIN_SELECT {
            NotifyIconEvent::Select(x, y)
        } else if sub == WM_CONTEXTMENU {
            NotifyIconEvent::ContextMenu(x, y)
        } else if sub == WM_MOUSEMOVE {
            NotifyIconEvent::MouseMove(x, y)
        } else {
            NotifyIconEvent::Unknown(sub, x, y)
        }
    }
}

impl Event {
    /// Translates a raw notification into its typed event. Total: every code
    /// is accepted, and an unrecognized one is preserved byte for byte.
    pub fn from_raw(msg: u32, wparam: usize, lparam: usize) -> (r: Event)
        ensures
            r == spec_event(msg, wparam, lparam),
    {
        if msg == WM_COMMAND && hiword(wparam) == 0 {
            Event::MenuCommand(loword(wparam))
        } else if msg == WM_CREATE {
            Event::Create(lparam)
        } else if msg == WM_DESTROY {
            Event::Destroy
        } else if msg == WM_GETMINMAXINFO {
            Event::GetMinMaxInfo(lparam)
        } else if msg == WM_APP_NOTIFICATION_ICON {
            Event::NotifyIcon(hiword(lparam), NotifyIconEvent::from_raw(wparam, lparam))
        } else {
            Event::Unknown(msg, wparam, lparam)
        }
    }
}

/// Law: every known notification code is translated to its matching typed
/// variant, and every other code is translated to `Unknown` with the original
/// code and parameters preserved unchanged.
pub proof fn lemma_event_translation_total(msg: u32, wparam: usize, lparam: usize)
    ensures
        msg == WM_COMMAND && spec_hiword(wparam) == 0 ==> spec_event(msg, wparam, lparam)
            == Event::MenuCommand(spec_loword(wparam)),
        msg == WM_CREATE ==> spec_event(msg, wparam, lparam) == Event::Create(lparam),
        msg == WM_DESTROY ==> spec_event(msg, wparam, lparam) == Event::Destroy,
        msg == WM_GETMINMAXINFO ==> spec_event(msg, wparam, lparam) == Event::GetMinMaxInfo(
            lparam,
        ),
        msg == WM_APP_NOTIFICATION_ICON ==> spec_event(msg, wparam, lparam) == Event::NotifyIcon(
            spec_hiword(lparam),
            spec_notify_icon_event(wparam, lparam),
        ),
        !known_code(msg, wparam) ==> spec_event(msg, wparam, lparam) == Event::Unknown(
            msg,
            wparam,
            lparam,
        ),
{
}

/// Law: a notification-icon sub-code outside the known set is preserved, with
/// its cursor coordinates, in the sub-event's `Unknown` variant.
pub proof fn lemma_notify_icon_translation_total(wparam: usize, lparam: usize)
    ensures
        ({
            let sub = spec_loword(lparam) as u32;
            let x = spec_coord(spec_loword(wparam));
            let y = spec_coord(spec_hiword(wparam));
            &&& sub == NIN_SELECT ==> spec_notify_icon_event(wparam, lparam)
                == NotifyIconEvent::Select(x, y)
            &&& sub == WM_CONTEXTMENU ==> spec_notify_icon_event(wparam, lparam)
                == NotifyIconEvent::ContextMenu(x, y)
            &&& sub == WM_MOUSEMOVE ==> spec_notify_icon_event(wparam, lparam)
                == NotifyIconEvent::MouseMove(x, y)
            &&& (sub != NIN_SELECT && sub != WM_CONTEXTMENU && sub != WM_MOUSEMOVE)
                ==> spec_notify_icon_event(wparam, lparam) == NotifyIconEvent::Unknown(sub, x, y)
        }),
{
}

/// An opaque wrapped return code for the native callback, constructed only by
/// a handler that wants to pre-empt default handling.
#[derive(Clone, Copy, Debug, PartialEq, Eq, Structural)]
pub struct EventResponse {
    pub code: isize,
}

impl EventResponse {
    /// Wraps a raw native result code.
    pub fn from_raw(x: isize) -> (r: EventResponse)
        ensures
            r.code == x,
    {
        EventResponse { code: x }
    }

    /// The raw native result code.
    pub fn as_raw(&self) -> (r: isize)
        ensures
            r == self.code,
    {
        self.code
    }
}

} // verus!

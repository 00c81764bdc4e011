//! Notification-tray icons: the shell descriptor, the builder protocol that
//! adds an icon and enables its messages, and tooltip updates.

use vstd::prelude::*;

use crate::{Error, ERROR_INVALID_PARAMETER};
use crate::event::WM_APP_NOTIFICATION_ICON;
use crate::icon::Icon;
use crate::wide::{to_wide, wide_of};
use crate::window::{WindowModel, WindowState};

verus! {

/// Shell call: add the icon described by the descriptor.
pub const NIM_ADD: u32 = 0x0000;

/// Shell call: modify the icon to match the descriptor.
pub const NIM_MODIFY: u32 = 0x0001;

/// Shell call: delete the icon.
pub const NIM_DELETE: u32 = 0x0002;

/// Shell call: adopt the behaviour version the descriptor carries.
pub const NIM_SETVERSION: u32 = 0x0004;

/// The behaviour version the engine requests.
pub const NOTIFYICON_VERSION_4: u32 = 4;

/// Descriptor flag: the callback-message field is in use.
pub const NIF_MESSAGE: u32 = 0x0001;

/// Descriptor flag: the icon-handle field is in use.
pub const NIF_ICON: u32 = 0x0002;

/// Descriptor flag: the tooltip field is in use.
pub const NIF_TIP: u32 = 0x0004;

/// Descriptor flag: show the standard tooltip.
pub const NIF_SHOWTIP: u32 = 0x0080;

/// The fixed length of the descriptor's tooltip buffer, in wide units.
pub const TIP_LEN: usize = 128;

/// A shell notification-icon call the caller owes: the operation, applied to
/// the icon's descriptor as it stands at that moment.
#[derive(Clone, Copy, Debug, PartialEq, Eq, Structural)]
pub enum IconOp {
    /// Add the icon.
    Add,
    /// Modify the icon to match the descriptor.
    Modify,
    /// Delete the icon.
    Delete,
    /// Adopt the descriptor's behaviour version.
    SetVersion,
}

/// The shell descriptor of one notification icon: what the engine fills of
/// the native record, keyed by (window handle, icon id).
#[derive(Debug)]
pub struct IconDescriptor {
    /// The owning window's native handle.
    pub hwnd: usize,
    /// The icon's id, unique within its window; zero is the no-icon sentinel.
    pub id: u16,
    /// Which descriptor fields are in use.
    pub flags: u32,
    /// The notification code icon events are delivered under.
    pub callback_message: u32,
    /// The raw handle of the displayed icon, or zero for none.
    pub icon: usize,
    /// The requested behaviour version.
    pub version: u32,
    /// The tooltip text, wide-encoded in a fixed-size zero-padded buffer.
    pub tip: Vec<u16>,
}

/// Well-formedness of a descriptor: the tooltip buffer has its fixed length.
pub open spec fn descriptor_wf(d: IconDescriptor) -> bool {
    d.tip@.len() == TIP_LEN
}

/// A wide string fitted to the tooltip buffer: truncated to the buffer's
/// fixed length and zero-padded to fill it.
pub open spec fn spec_tip(w: Seq<u16>) -> Seq<u16> {
    Seq::new(TIP_LEN as nat, |i: int| if i < w.len() { w[i] } else { 0 })
}

/// Fills a fresh tooltip buffer from a wide string, truncating and
/// zero-padding to the fixed length.
fn fill_tip(wide: &Vec<u16>) -> (r: Vec<u16>)
    ensures
        r@ == spec_tip(wide@),
{
    let mut tip: Vec<u16> = Vec::new();
    let mut i: usize = 0;
    while i < TIP_LEN
        invariant
            i <= TIP_LEN,
            tip@.len() == i,
            forall|j: int| 0 <= j < i ==> tip@[j] == (if j < wide@.len() {
                wide@[j]
            } else {
                0u16
            }),
        decreases TIP_LEN - i,
    {
        if i < wide.len() {
            let u = wide[i];
            tip.push(u);
        } else {
            tip.push(0);
        }
        i = i + 1;
    }
    proof {
        assert(tip@ =~= spec_tip(wide@));
    }
    tip
}

/// A notification icon: its shell descriptor, its handler token, and whether
/// the one delete request of its life is still owed.
#[derive(Debug)]
pub struct NotifyIcon {
    /// The shell descriptor.
    pub nid: IconDescriptor,
    /// The token of the handler its events are routed to.
    pub handler: u64,
    /// Whether the icon stands added in the shell, so that one delete is owed.
    pub armed: bool,
}

impl NotifyIcon {
    /// The icon's id.
    pub fn id(&self) -> (r: u16)
        ensures
            r == self.nid.id,
    {
        self.nid.id
    }

    /// The version-upgrade request of the creation protocol; the descriptor
    /// carries the engine's requested behaviour version.
    pub fn set_version(&self) -> (r: IconOp)
        requires
            self.nid.version == NOTIFYICON_VERSION_4,
        ensures
            r == IconOp::SetVersion,
    {
        IconOp::SetVersion
    }

    /// Enables message delivery for the icon: marks the callback-message
    /// field in use and owes the shell one modify request.
    pub fn enable_messages(&mut self) -> (r: IconOp)
        ensures
            final(self).nid == (IconDescriptor {
                flags: old(self).nid.flags | NIF_MESSAGE,
                ..old(self).nid
            }),
            final(self).handler == old(self).handler,
            final(self).armed == old(self).armed,
            r == IconOp::Modify,
    {
        self.nid.flags = self.nid.flags | NIF_MESSAGE;
        IconOp::Modify
    }

    /// Records the shell's answer to the addition request: failure is mapped
    /// to an error carrying the last platform error code and the icon stays
    /// unarmed; success arms it, so that exactly one delete is owed from then
    /// on.
    pub fn added(&mut self, ret: i32, last_error: u32) -> (r: Result<(), Error>)
        requires
            !old(self).armed,
        ensures
            ret == 0 ==> r == Result::<(), Error>::Err(Error { code: last_error }) && *final(self)
                == *old(self),
            ret != 0 ==> r == Result::<(), Error>::Ok(()) && final(self).nid == old(self).nid
                && final(self).handler == old(self).handler && final(self).armed,
    {
        if ret == 0 {
            Err(Error::from_raw(last_error))
        } else {
            self.armed = true;
            Ok(())
        }
    }

    /// Registers the icon's handler in its window's icon registry, under the
    /// icon's id.
    pub fn register(&self, window: &mut WindowState)
        requires
            self.nid.id != 0,
            !old(window)@.icons.contains_key(self.nid.id),
        ensures
            final(window)@ == (WindowModel {
                icons: old(window)@.icons.insert(self.nid.id, self.handler),
                ..old(window)@
            }),
    {
        window.add_icon(self.nid.id, self.handler);
    }

    /// Replaces the tooltip text: the buffer is rewritten with the new text,
    /// truncated and zero-padded to the fixed length, the tooltip flags are
    /// marked in use, and the shell is owed exactly one modify request.
    pub fn set_tooltip(&mut self, msg: &str) -> (r: IconOp)
        ensures
            final(self).nid == (IconDescriptor {
                tip: final(self).nid.tip,
                flags: old(self).nid.flags | NIF_TIP | NIF_SHOWTIP,
                ..old(self).nid
            }),
            final(self).nid.tip@ == spec_tip(wide_of(msg@)),
            descriptor_wf(final(self).nid),
            final(self).handler == old(self).handler,
            final(self).armed == old(self).armed,
            r == IconOp::Modify,
    {
        let wide = to_wide(msg);
        self.nid.tip = fill_tip(&wide);
        self.nid.flags = self.nid.flags | NIF_TIP | NIF_SHOWTIP;
        IconOp::Modify
    }

    /// Ends the icon's life, as destruction on scope exit would: while the
    /// icon stands added, the one delete request of its life is handed back;
    /// afterwards, and for an icon never added, nothing is owed.
    pub fn finalize(&mut self) -> (r: Option<IconOp>)
        ensures
            final(self).nid == old(self).nid,
            final(self).handler == old(self).handler,
            !final(self).armed,
            old(self).armed ==> r == Some(IconOp::Delete),
            !old(self).armed ==> r is None,
    {
        if self.armed {
            self.armed = false;
            Some(IconOp::Delete)
        } else {
            None
        }
    }
}

/// A builder for a notification icon.
#[derive(Debug)]
pub struct NotifyIconBuilder {
    /// The displayed icon, if any; its ownership passes to the shell entry.
    pub icon: Option<Icon>,
    /// The icon id; zero is the no-icon sentinel and is rejected.
    pub id: Option<u16>,
    /// The handler token icon events are routed to; zero when never set.
    pub handler: Option<u64>,
}

impl NotifyIconBuilder {
    /// An empty builder: no icon, no id, no handler.
    pub fn new() -> (r: NotifyIconBuilder)
        ensures
            r.icon is None,
            r.id is None,
            r.handler is None,
    {
        NotifyIconBuilder { icon: None, id: None, handler: None }
    }

    /// Sets the displayed icon; its ownership passes to the builder.
    pub fn icon(self, icon: Icon) -> (r: NotifyIconBuilder)
        ensures
            r.icon == Some(icon),
            r.id == self.id,
            r.handler == self.handler,
    {
        NotifyIconBuilder { icon: Some(icon), ..self }
    }

    /// Sets the icon id.
    pub fn id(self, id: u16) -> (r: NotifyIconBuilder)
        ensures
            r.icon == self.icon,
            r.id == Some(id),
            r.handler == self.handler,
    {
        NotifyIconBuilder { id: Some(id), ..self }
    }

    /// Sets the handler token icon events are routed to.
    pub fn handler(self, token: u64) -> (r: NotifyIconBuilder)
        ensures
            r.icon == self.icon,
            r.id == self.id,
            r.handler == Some(token),
    {
        NotifyIconBuilder { handler: Some(token), ..self }
    }

    /// Builds the icon and its shell descriptor for the given window: the id
    /// must have been set, and id zero — the no-icon sentinel — is rejected
    /// with an invalid-parameter error. The descriptor carries the engine's
    /// callback code and behaviour version, the displayed icon's raw handle
    /// with its ownership transferred, and an empty tooltip. The icon is not
    /// yet added: the caller owes the shell the addition request and records
    /// its outcome with `added`.
    pub fn build(self, hwnd: usize) -> (r: Result<NotifyIcon, Error>)
        requires
            self.id is Some,
            self.icon matches Some(i) ==> i.handle.armed,
        ensures
            self.id == Some(0u16) ==> r == Result::<NotifyIcon, Error>::Err(
                Error { code: ERROR_INVALID_PARAMETER },
            ),
            self.id != Some(0u16) ==> (r matches Ok(ni) && {
                &&& ni.nid.hwnd == hwnd
                &&& Some(ni.nid.id) == self.id
                &&& ni.nid.callback_message == WM_APP_NOTIFICATION_ICON
                &&& ni.nid.version == NOTIFYICON_VERSION_4
                &&& ni.nid.flags == (match self.icon {
                    Some(_) => NIF_ICON,
                    None => 0u32,
                })
                &&& ni.nid.icon == (match self.icon {
                    Some(i) => i.handle.raw,
                    None => 0usize,
                })
                &&& ni.nid.tip@ == spec_tip(Seq::<u16>::empty())
                &&& descriptor_wf(ni.nid)
                &&& ni.handler == (match self.handler {
                    Some(t) => t,
                    None => 0u64,
                })
                &&& !ni.armed
            }),
    {
        let NotifyIconBuilder { icon, id, handler } = self;
        let id = match id {
            Some(i) => i,
            None => 0,
        };
        if id == 0 {
            return Err(Error::from_raw(ERROR_INVALID_PARAMETER));
        }
        let (flags, icon_raw): (u32, usize) = match icon {
            Some(mut i) => (NIF_ICON, i.into_raw()),
            None => (0, 0),
        };
        let empty: Vec<u16> = Vec::new();
        let tip = fill_tip(&empty);
        let token: u64 = match handler {
            Some(t) => t,
            None => 0,
        };
        Ok(NotifyIcon {
            nid: IconDescriptor {
                hwnd,
                id,
                flags,
                callback_message: WM_APP_NOTIFICATION_ICON,
                icon: icon_raw,
                version: NOTIFYICON_VERSION_4,
                tip,
            },
            handler: token,
            armed: false,
        })
    }
}

} // verus!

//! Menus: building popup menus item by item and the display protocol that
//! installs a one-shot selection handler before the native tracking call.

use vstd::prelude::*;

use crate::Error;
use crate::handle::{handle_wf, spec_created, spec_finalized, spec_transferred, ReleaseRequest,
    ResourceHandle, ResourceKind};
use crate::wide::{to_wide_null, wide_of};
use crate::window::{WindowModel, WindowState};

verus! {

/// Item flag: the item is a text item.
pub const MF_STRING: u32 = 0x0000;

/// Item flag: the item is enabled.
pub const MF_ENABLED: u32 = 0x0000;

/// Item flag: the item is grayed out.
pub const MF_GRAYED: u32 = 0x0001;

/// Item flag: the item is disabled.
pub const MF_DISABLED: u32 = 0x0002;

/// Item flag: the item carries a check mark.
pub const MF_CHECKED: u32 = 0x0008;

/// Item flag: the item carries no check mark.
pub const MF_UNCHECKED: u32 = 0x0000;

/// Item flag: the item opens a child menu.
pub const MF_POPUP: u32 = 0x0010;

/// Item flag: the item is a separator.
pub const MF_SEPARATOR: u32 = 0x0800;

/// Whether a menu item can be selected.
#[derive(Clone, Copy, Debug, PartialEq, Eq, Structural)]
pub enum MenuStatus {
    /// Selectable.
    Enabled,
    /// Not selectable.
    Disabled,
    /// Not selectable and drawn gray.
    Grayed,
}

/// Whether a menu item carries a check mark.
#[derive(Clone, Copy, Debug, PartialEq, Eq, Structural)]
pub enum MenuCheck {
    /// With a check mark.
    Checked,
    /// Without one.
    Unchecked,
}

/// What selecting a menu item does: report an identifier, or open a child
/// menu whose ownership passes to the parent.
#[derive(Debug)]
pub enum MenuAction {
    /// Selecting the item reports this identifier.
    Id(u16),
    /// The item opens this child menu.
    ChildMenu(PopupMenu),
}

/// The status flag bits an item is appended with.
pub open spec fn spec_status_flag(s: MenuStatus) -> u32 {
    match s {
        MenuStatus::Enabled => MF_ENABLED,
        MenuStatus::Disabled => MF_DISABLED,
        MenuStatus::Grayed => MF_GRAYED,
    }
}

/// The check flag bits an item is appended with.
pub open spec fn spec_check_flag(c: MenuCheck) -> u32 {
    match c {
        MenuCheck::Checked => MF_CHECKED,
        MenuCheck::Unchecked => MF_UNCHECKED,
    }
}

/// An append call the caller owes the native layer: an item with these flags,
/// this identifier-or-child value, and this text, appended to this menu.
#[derive(Debug)]
pub struct AppendRequest {
    /// The raw handle of the menu appended to.
    pub menu: usize,
    /// The item's flag bits.
    pub flags: u32,
    /// The item's identifier, or the raw handle of its child menu.
    pub item: usize,
    /// The item's text, wide-encoded and zero-terminated; none for a separator.
    pub text: Option<Vec<u16>>,
}

/// An owned menu.
#[derive(Debug)]
pub struct Menu {
    /// The owned raw menu handle.
    pub handle: ResourceHandle,
}

/// Well-formedness of a menu: a well-formed handle of the menu kind.
pub open spec fn menu_wf(m: Menu) -> bool {
    &&& handle_wf(m.handle)
    &&& m.handle.kind == ResourceKind::Menu
}

impl Menu {
    /// Wraps a raw menu handle the caller owns.
    pub fn from_raw(handle: usize) -> (r: Menu)
        requires
            handle != 0,
        ensures
            r.handle == spec_created(ResourceKind::Menu, handle),
            menu_wf(r),
    {
        Menu { handle: ResourceHandle { raw: handle, kind: ResourceKind::Menu, armed: true, releases: 0 } }
    }

    /// The raw menu handle, without transferring ownership.
    pub fn as_raw(&self) -> (r: usize)
        ensures
            r == self.handle.raw,
    {
        self.handle.as_raw()
    }

    /// Transfers ownership of the menu to the caller, for a consuming native
    /// call; the wrapper will issue no release for it.
    pub fn into_raw(&mut self) -> (r: usize)
        requires
            old(self).handle.armed,
        ensures
            r == old(self).handle.raw,
            final(self).handle == spec_transferred(old(self).handle),
    {
        self.handle.into_raw()
    }

    /// Assembles the append call for a text item: the flags follow from the
    /// action, status and check choices, and a child menu's ownership passes
    /// to this menu with the request.
    pub fn append_string(&self, string: &str, action: MenuAction, status: MenuStatus,
        check: MenuCheck) -> (r: AppendRequest)
        requires
            action matches MenuAction::ChildMenu(m) ==> m.menu.handle.armed,
        ensures
            r.menu == self.handle.raw,
            r.text matches Some(t) && t@ == wide_of(string@).push(0),
            action matches MenuAction::Id(n) ==> r.item == n && r.flags == (MF_STRING
                | spec_status_flag(status) | spec_check_flag(check)),
            action matches MenuAction::ChildMenu(m) ==> r.item == m.menu.handle.raw && r.flags
                == (MF_STRING | MF_POPUP | spec_status_flag(status) | spec_check_flag(check)),
    {
        let mut flags: u32 = MF_STRING;
        let item: usize = match action {
            MenuAction::Id(n) => n as usize,
            MenuAction::ChildMenu(mut child) => {
                flags = flags | MF_POPUP;
                child.menu.into_raw()
            },
        };
        flags = flags | (match status {
            MenuStatus::Enabled => MF_ENABLED,
            MenuStatus::Disabled => MF_DISABLED,
            MenuStatus::Grayed => MF_GRAYED,
        });
        flags = flags | (match check {
            MenuCheck::Checked => MF_CHECKED,
            MenuCheck::Unchecked => MF_UNCHECKED,
        });
        AppendRequest { menu: self.handle.as_raw(), flags, item, text: Some(to_wide_null(string)) }
    }

    /// Assembles the append call for a separator item.
    pub fn append_separator(&self) -> (r: AppendRequest)
        ensures
            r.menu == self.handle.raw,
            r.flags == MF_SEPARATOR,
            r.item == 0,
            r.text is None,
    {
        AppendRequest { menu: self.handle.as_raw(), flags: MF_SEPARATOR, item: 0, text: None }
    }

    /// Ends ownership, handing back the one destroy request of the menu's
    /// life if it is still owed.
    pub fn finalize(&mut self) -> (r: Option<ReleaseRequest>)
        requires
            menu_wf(*old(self)),
        ensures
            final(self).handle == spec_finalized(old(self).handle),
            r matches Some(req) ==> old(self).handle.armed && req == (ReleaseRequest {
                kind: ResourceKind::Menu,
                raw: old(self).handle.raw,
            }),
            r is None ==> !old(self).handle.armed,
    {
        self.handle.finalize()
    }
}

/// The native tracking call the caller owes after a successful display
/// protocol: show this menu at these coordinates for this window, blocking
/// until the menu closes.
#[derive(Clone, Copy, Debug, PartialEq, Eq, Structural)]
pub struct TrackRequest {
    /// The raw menu handle to track.
    pub menu: usize,
    /// The horizontal position.
    pub x: i32,
    /// The vertical position.
    pub y: i32,
    /// The window the menu belongs to.
    pub hwnd: usize,
}

/// An owned popup menu.
#[derive(Debug)]
pub struct PopupMenu {
    /// The underlying menu.
    pub menu: Menu,
}

impl PopupMenu {
    /// Wraps the result of the native popup-menu creation call: a zero raw
    /// value is mapped to an error carrying the last platform error code.
    pub fn from_creation(raw: usize, last_error: u32) -> (r: Result<PopupMenu, Error>)
        ensures
            raw == 0 ==> r == Result::<PopupMenu, Error>::Err(Error { code: last_error }),
            raw != 0 ==> (r matches Ok(p) && p.menu.handle == spec_created(ResourceKind::Menu, raw)),
            r matches Ok(p) ==> menu_wf(p.menu),
    {
        if raw == 0 {
            Err(Error::from_raw(last_error))
        } else {
            Ok(PopupMenu { menu: Menu::from_raw(raw) })
        }
    }

    /// The display protocol: the window must first have been brought to the
    /// foreground — `foreground_ret` is that native call's return, and its
    /// failure surfaces as the error without installing anything — and only
    /// then is the one-shot selection handler installed and the blocking
    /// tracking call owed. The selection itself arrives later, as a menu
    /// command through the normal dispatch path.
    pub fn display(&self, state: &mut WindowState, x: i32, y: i32, on_select: u64,
        foreground_ret: i32, last_error: u32) -> (r: Result<TrackRequest, Error>)
        ensures
            foreground_ret == 0 ==> r == Result::<TrackRequest, Error>::Err(
                Error { code: last_error },
            ) && final(state)@ == old(state)@,
            foreground_ret != 0 ==> r == Result::<TrackRequest, Error>::Ok(TrackRequest {
                menu: self.menu.handle.raw,
                x,
                y,
                hwnd: old(state).hwnd,
            }) && final(state)@ == (WindowModel { menu_handler: Some(on_select), ..old(state)@ }),
    {
        if foreground_ret == 0 {
            return Err(Error::from_raw(last_error));
        }
        state.set_menu_handler(on_select);
        Ok(TrackRequest { menu: self.menu.as_raw(), x, y, hwnd: state.hwnd })
    }
}

} // verus!

use winkit::menu::{
    Menu, MenuAction, MenuCheck, MenuStatus, PopupMenu, TrackRequest, MF_CHECKED, MF_DISABLED,
    MF_GRAYED, MF_POPUP, MF_SEPARATOR,
};
use winkit::window::WindowState;

fn wide_null(s: &str) -> Vec<u16> {
    let mut v: Vec<u16> = s.encode_utf16().collect();
    v.push(0);
    v
}

#[test]
fn append_enabled_unchecked_id_item() {
    let m = Menu::from_raw(0x10);
    let r = m.append_string("Login", MenuAction::Id(1), MenuStatus::Enabled, MenuCheck::Unchecked);
    assert_eq!(r.menu, 0x10);
    assert_eq!(r.flags, 0);
    assert_eq!(r.item, 1);
    assert_eq!(r.text, Some(wide_null("Login")));
}

#[test]
fn append_flag_combinations() {
    let m = Menu::from_raw(0x10);
    let r = m.append_string("a", MenuAction::Id(2), MenuStatus::Disabled, MenuCheck::Unchecked);
    assert_eq!(r.flags, MF_DISABLED);
    let r = m.append_string("b", MenuAction::Id(3), MenuStatus::Grayed, MenuCheck::Checked);
    assert_eq!(r.flags, MF_GRAYED | MF_CHECKED);
}

#[test]
fn append_child_menu_transfers_ownership() {
    let m = Menu::from_raw(0x10);
    let child = PopupMenu::from_creation(0x20, 0).unwrap();
    let r = m.append_string(
        "Report",
        MenuAction::ChildMenu(child),
        MenuStatus::Enabled,
        MenuCheck::Unchecked,
    );
    assert_eq!(r.flags, MF_POPUP);
    assert_eq!(r.item, 0x20);
    assert_eq!(r.text, Some(wide_null("Report")));
}

#[test]
fn append_separator_item() {
    let m = Menu::from_raw(0x10);
    let r = m.append_separator();
    assert_eq!(r.menu, 0x10);
    assert_eq!(r.flags, MF_SEPARATOR);
    assert_eq!(r.item, 0);
    assert_eq!(r.text, None);
}

#[test]
fn menu_destroy_request_issued_once() {
    let mut m = Menu::from_raw(0x30);
    let req = m.finalize().unwrap();
    assert_eq!(req.raw, 0x30);
    assert_eq!(m.finalize(), None);
}

#[test]
fn popup_creation_failure() {
    assert_eq!(PopupMenu::from_creation(0, 120).unwrap_err().as_raw(), 120);
}

#[test]
fn display_failure_installs_nothing() {
    let p = PopupMenu::from_creation(0x40, 0).unwrap();
    let mut st = WindowState::new(77, 1);
    // The bring-to-foreground call failed: the error surfaces and no
    // one-shot handler is installed.
    let r = p.display(&mut st, 3, 4, 55, 0, 1402);
    assert_eq!(r.unwrap_err().as_raw(), 1402);
    assert!(st.menu_handler.is_none());
}

#[test]
fn display_installs_one_shot_handler_then_tracks() {
    let p = PopupMenu::from_creation(0x40, 0).unwrap();
    let mut st = WindowState::new(77, 1);
    let r = p.display(&mut st, 3, 4, 55, 1, 0).unwrap();
    assert_eq!(r, TrackRequest { menu: 0x40, x: 3, y: 4, hwnd: 77 });
    assert_eq!(st.menu_handler, Some(55));
}

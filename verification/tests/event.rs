use winkit::event::{
    coord, hiword, loword, Event, EventResponse, NotifyIconEvent, NIN_SELECT, WM_APP,
    WM_APP_NOTIFICATION_ICON, WM_COMMAND, WM_CONTEXTMENU, WM_CREATE, WM_DESTROY,
    WM_GETMINMAXINFO, WM_MOUSEMOVE,
};

#[test]
fn word_extraction_exact() {
    assert_eq!(loword(0xDEAD_BEEF), 0xBEEF);
    assert_eq!(hiword(0xDEAD_BEEF), 0xDEAD);
    assert_eq!(loword(5), 5);
    assert_eq!(hiword(5), 0);
}

#[test]
fn coord_sign_extension() {
    assert_eq!(coord(12), 12);
    assert_eq!(coord(0x7FFF), 32767);
    assert_eq!(coord(0x8000), -32768);
    assert_eq!(coord(0xFFFF), -1);
}

#[test]
fn event_menu_command() {
    let e = Event::from_raw(WM_COMMAND, 42, 0);
    assert_eq!(e, Event::MenuCommand(42));
}

#[test]
fn event_menu_command_high_word_is_unknown() {
    // A command whose high parameter word is nonzero is not a menu command.
    let e = Event::from_raw(WM_COMMAND, 0x0001_002A, 7);
    assert_eq!(e, Event::Unknown(WM_COMMAND, 0x0001_002A, 7));
}

#[test]
fn event_create_preserves_parameter() {
    let e = Event::from_raw(WM_CREATE, 0, 0xABCD);
    assert_eq!(e, Event::Create(0xABCD));
}

#[test]
fn event_destroy() {
    let e = Event::from_raw(WM_DESTROY, 9, 9);
    assert_eq!(e, Event::Destroy);
}

#[test]
fn event_get_min_max_info() {
    let e = Event::from_raw(WM_GETMINMAXINFO, 0, 0x1234);
    assert_eq!(e, Event::GetMinMaxInfo(0x1234));
}

#[test]
fn event_unknown_preserved_byte_for_byte() {
    let e = Event::from_raw(0x9999, 0xAAAA_BBBB, 0xCCCC_DDDD);
    assert_eq!(e, Event::Unknown(0x9999, 0xAAAA_BBBB, 0xCCCC_DDDD));
}

#[test]
fn event_app_range_unclaimed_code_is_unknown() {
    let e = Event::from_raw(WM_APP, 1, 2);
    assert_eq!(e, Event::Unknown(WM_APP, 1, 2));
}

#[test]
fn notify_icon_select_event() {
    // Cursor (10, 20) packed into wparam; icon id 7 and the select sub-code
    // packed into lparam.
    let wparam: usize = 10 | (20 << 16);
    let lparam: usize = (NIN_SELECT as usize) | (7 << 16);
    let e = Event::from_raw(WM_APP_NOTIFICATION_ICON, wparam, lparam);
    assert_eq!(e, Event::NotifyIcon(7, NotifyIconEvent::Select(10, 20)));
}

#[test]
fn notify_icon_context_menu_event() {
    let wparam: usize = 300 | (400 << 16);
    let lparam: usize = (WM_CONTEXTMENU as usize) | (9 << 16);
    let e = Event::from_raw(WM_APP_NOTIFICATION_ICON, wparam, lparam);
    assert_eq!(e, Event::NotifyIcon(9, NotifyIconEvent::ContextMenu(300, 400)));
}

#[test]
fn notify_icon_mouse_move_event() {
    let wparam: usize = 1 | (2 << 16);
    let lparam: usize = (WM_MOUSEMOVE as usize) | (3 << 16);
    let e = Event::from_raw(WM_APP_NOTIFICATION_ICON, wparam, lparam);
    assert_eq!(e, Event::NotifyIcon(3, NotifyIconEvent::MouseMove(1, 2)));
}

#[test]
fn notify_icon_unknown_sub_code_preserved() {
    let wparam: usize = 5 | (6 << 16);
    let lparam: usize = 0x0123 | (4 << 16);
    let e = Event::from_raw(WM_APP_NOTIFICATION_ICON, wparam, lparam);
    assert_eq!(e, Event::NotifyIcon(4, NotifyIconEvent::Unknown(0x0123, 5, 6)));
}

#[test]
fn notify_icon_negative_coordinates() {
    // 0xFFFF in a coordinate word is -1: a cursor left of the primary screen.
    let wparam: usize = 0xFFFF | (20 << 16);
    let lparam: usize = (NIN_SELECT as usize) | (1 << 16);
    let e = Event::from_raw(WM_APP_NOTIFICATION_ICON, wparam, lparam);
    assert_eq!(e, Event::NotifyIcon(1, NotifyIconEvent::Select(-1, 20)));
}

#[test]
fn event_response_round_trip() {
    let r = EventResponse::from_raw(-7);
    assert_eq!(r.as_raw(), -7);
    let z = EventResponse::from_raw(0);
    assert_eq!(z.as_raw(), 0);
}

use winkit::class::Class;
use winkit::event::WM_CLOSE;
use winkit::window::{
    finish_create, PostRequest, Registry, Violation, Window, WindowBuilder, WindowRef,
    CW_USEDEFAULT, DEFAULT_HANDLER,
};
use winkit::ERROR_INVALID_WINDOW_HANDLE;

#[test]
fn bootstrap_attaches_staged_handler() {
    let mut reg = Registry::new();
    reg.stage_handler(7);
    assert!(reg.initialize(100).is_ok());
    assert!(reg.is_attached(100));
    assert!(reg.staged.is_none());
    let st = reg.slots.get(&100).unwrap();
    assert_eq!(st.hwnd, 100);
    assert_eq!(st.handler, 7);
    assert!(st.class.is_none());
    assert!(st.menu_handler.is_none());
}

#[test]
fn double_initialize_is_contract_violation() {
    let mut reg = Registry::new();
    reg.stage_handler(7);
    assert!(reg.initialize(100).is_ok());
    // A simulated double-initialize: the slot already holds state.
    reg.stage_handler(8);
    assert_eq!(reg.initialize(100), Err(Violation::AlreadyAttached));
    // The first attachment is untouched.
    assert_eq!(reg.slots.get(&100).unwrap().handler, 7);
}

#[test]
fn initialize_without_staged_handler_is_violation() {
    let mut reg = Registry::new();
    assert_eq!(reg.initialize(100), Err(Violation::MissingStagedHandler));
    assert!(!reg.is_attached(100));
}

#[test]
fn weak_ref_resolves_while_window_lives() {
    let mut reg = Registry::new();
    reg.stage_handler(1);
    reg.initialize(500).unwrap();
    let w = Window { hwnd: 500 };
    assert_eq!(w.as_raw(), 500);
    let r = w.as_ref();
    assert_eq!(r.as_raw(&reg), Ok(500));
    assert!(r.is_open(&reg));
}

#[test]
fn weak_ref_after_drop_is_invalid_handle() {
    let mut reg = Registry::new();
    reg.stage_handler(1);
    reg.initialize(500).unwrap();
    let r = Window { hwnd: 500 }.as_ref();
    let state = reg.detach(500).unwrap();
    assert_eq!(state.hwnd, 500);
    // Every resolution now reports the invalid handle, never a stale one.
    assert_eq!(r.as_raw(&reg).unwrap_err().as_raw(), ERROR_INVALID_WINDOW_HANDLE);
    assert!(!r.is_open(&reg));
    assert_eq!(r.post_message(&reg, 1, 2, 3).unwrap_err().as_raw(), ERROR_INVALID_WINDOW_HANDLE);
    assert_eq!(r.close(&reg).unwrap_err().as_raw(), ERROR_INVALID_WINDOW_HANDLE);
}

#[test]
fn post_and_close_on_live_window() {
    let mut reg = Registry::new();
    reg.stage_handler(1);
    reg.initialize(42).unwrap();
    let r = WindowRef { hwnd: 42 };
    assert_eq!(
        r.post_message(&reg, 0x8001, 5, 6),
        Ok(PostRequest { hwnd: 42, msg: 0x8001, wparam: 5, lparam: 6 })
    );
    assert_eq!(
        r.close(&reg),
        Ok(PostRequest { hwnd: 42, msg: WM_CLOSE, wparam: 0, lparam: 0 })
    );
}

#[test]
fn begin_create_stages_and_requests() {
    let mut reg = Registry::new();
    let class = Class::from_registration(0xABC, 0).unwrap();
    let (req, pending) = WindowBuilder::new().handler(99).class(class).begin_create(&mut reg);
    assert_eq!(reg.staged, Some(99));
    assert_eq!(req.ex_style, 0);
    assert_eq!(req.style, 0);
    assert_eq!(req.class_name, 0xABC);
    assert_eq!(req.x, CW_USEDEFAULT);
    assert_eq!(req.y, CW_USEDEFAULT);
    assert_eq!(req.width, 0);
    assert_eq!(req.height, 0);
    assert!(req.message_only);
    let mut title: Vec<u16> = "I'm a window!".encode_utf16().collect();
    title.push(0);
    assert_eq!(req.title, title);
    assert!(pending.class.is_some());
}

#[test]
fn begin_create_without_handler_stages_default() {
    let mut reg = Registry::new();
    let class = Class::from_registration(2, 0).unwrap();
    let (_req, _pending) = WindowBuilder::new().class(class).begin_create(&mut reg);
    assert_eq!(reg.staged, Some(DEFAULT_HANDLER));
}

#[test]
fn finish_create_failure_reports_last_error() {
    let mut reg = Registry::new();
    let class = Class::from_registration(2, 0).unwrap();
    let (_req, mut pending) = WindowBuilder::new().handler(1).class(class).begin_create(&mut reg);
    let r = finish_create(&mut pending, &mut reg, 0, 1459);
    assert_eq!(r.unwrap_err().as_raw(), 1459);
    // The class is still held, for the caller to release.
    assert!(pending.class.is_some());
}

#[test]
fn finish_create_moves_class_into_state() {
    let mut reg = Registry::new();
    let class = Class::from_registration(2, 0).unwrap();
    let (_req, mut pending) = WindowBuilder::new().handler(1).class(class).begin_create(&mut reg);
    // The callback fired during creation and attached the staged handler.
    reg.initialize(600).unwrap();
    let r = finish_create(&mut pending, &mut reg, 600, 0).unwrap();
    assert_eq!(r, WindowRef { hwnd: 600 });
    assert!(pending.class.is_none());
    let st = reg.slots.get(&600).unwrap();
    assert_eq!(st.handler, 1);
    assert!(st.class.is_some());
}

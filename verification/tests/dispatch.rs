use winkit::dispatch::{
    loop_decision, window_procedure, Dispatch, LoopDecision, ProcOutcome,
};
use winkit::event::{
    Event, NotifyIconEvent, NIN_SELECT, WM_APP_NOTIFICATION_ICON, WM_COMMAND, WM_CREATE,
    WM_DESTROY,
};
use winkit::window::{Registry, Violation, WindowRef, WindowState};
use winkit::{Error, ERROR_INVALID_WINDOW_HANDLE};

#[test]
fn menu_round_trip_one_shot() {
    let mut st = WindowState::new(10, 1);
    st.set_menu_handler(77);
    // The synthetic menu command is delivered to the registered handler,
    // exactly once, and clears the pending slot.
    let d = st.handle_event(WM_COMMAND, 3, 0);
    assert_eq!(d, Dispatch::InvokeMenuHandler(77, 3));
    assert!(st.menu_handler.is_none());
    // A second menu command with no new handler is a contract violation.
    let d2 = st.handle_event(WM_COMMAND, 3, 0);
    assert_eq!(d2, Dispatch::Fatal(Violation::MenuCommandWithoutHandler));
}

#[test]
fn icon_event_routed_only_to_registered_id() {
    let mut st = WindowState::new(10, 1);
    st.add_icon(9, 700);
    st.add_icon(4, 400);
    let wparam: usize = 10 | (20 << 16);
    let lparam: usize = (NIN_SELECT as usize) | (9 << 16);
    let d = st.handle_event(WM_APP_NOTIFICATION_ICON, wparam, lparam);
    assert_eq!(d, Dispatch::InvokeIconHandler(700, 9, NotifyIconEvent::Select(10, 20)));
}

#[test]
fn icon_event_for_unknown_id_is_violation() {
    let mut st = WindowState::new(10, 1);
    st.add_icon(9, 700);
    let lparam: usize = (NIN_SELECT as usize) | (5 << 16);
    let d = st.handle_event(WM_APP_NOTIFICATION_ICON, 0, lparam);
    assert_eq!(d, Dispatch::Fatal(Violation::UnknownIconId(5)));
}

#[test]
fn other_events_go_to_top_level_handler() {
    let mut st = WindowState::new(10, 55);
    let d = st.handle_event(WM_CREATE, 0, 0x7777);
    assert_eq!(d, Dispatch::InvokeHandler(55, Event::Create(0x7777)));
    let u = st.handle_event(0x4242, 1, 2);
    assert_eq!(u, Dispatch::InvokeHandler(55, Event::Unknown(0x4242, 1, 2)));
}

#[test]
fn procedure_bootstraps_on_first_callback() {
    let mut reg = Registry::new();
    reg.stage_handler(31);
    // The first callback fires during native creation, before the creating
    // code holds the handle: it attaches the staged handler.
    let out = window_procedure(&mut reg, 800, WM_CREATE, 0, 0x1111);
    match out {
        ProcOutcome::Deliver(d) => assert_eq!(d, Dispatch::InvokeHandler(31, Event::Create(0x1111))),
        _ => panic!("expected delivery"),
    }
    assert!(reg.is_attached(800));
    assert!(reg.staged.is_none());
}

#[test]
fn procedure_without_staged_handler_is_fatal() {
    let mut reg = Registry::new();
    let out = window_procedure(&mut reg, 800, WM_CREATE, 0, 0);
    match out {
        ProcOutcome::Fatal(v) => assert_eq!(v, Violation::MissingStagedHandler),
        _ => panic!("expected fatal outcome"),
    }
    assert!(!reg.is_attached(800));
}

#[test]
fn destroy_tears_down_and_invalidates_refs() {
    let mut reg = Registry::new();
    reg.stage_handler(1);
    reg.initialize(900).unwrap();
    let weak = WindowRef { hwnd: 900 };
    let out = window_procedure(&mut reg, 900, WM_DESTROY, 0, 0);
    match out {
        ProcOutcome::Quit(state) => assert_eq!(state.hwnd, 900),
        _ => panic!("expected teardown"),
    }
    assert!(!reg.is_attached(900));
    assert_eq!(weak.as_raw(&reg).unwrap_err().as_raw(), ERROR_INVALID_WINDOW_HANDLE);
}

#[test]
fn loop_decision_cases() {
    assert_eq!(loop_decision(0, 0), LoopDecision::Quit);
    assert_eq!(loop_decision(-1, ERROR_INVALID_WINDOW_HANDLE), LoopDecision::WindowGone);
    assert_eq!(loop_decision(-1, 6), LoopDecision::Fatal(Error::from_raw(6)));
    assert_eq!(loop_decision(1, 0), LoopDecision::Process);
}

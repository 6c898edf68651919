use winhost::message_loop::{exit_code, next_action, LoopAction, WM_QUIT};
use winhost::procedure::{
    dispatch, fill_outcome, paint_reply, setup_reply, sys_color_brush, teardown, userdata_outcome,
    Handling, Teardown, COLOR_WINDOW, WM_CLOSE, WM_DESTROY, WM_NCCREATE, WM_PAINT,
};
use winhost::strings::str_to_wstr;
use winhost::window::{
    create_params, SetupError, SetupEvent, SetupPhase, WindowsWindow, CW_USEDEFAULT, INITIAL_PAYLOAD,
    SW_SHOW, WS_EX_RIGHTSCROLLBAR, WS_OVERLAPPEDWINDOW,
};

#[test]
fn wide_string_ascii() {
    assert_eq!(str_to_wstr("abc"), vec![97u16, 98, 99, 0]);
}

#[test]
fn wide_string_empty_is_terminator_only() {
    assert_eq!(str_to_wstr(""), vec![0u16]);
}

#[test]
fn wide_string_non_ascii_and_surrogate_pairs() {
    assert_eq!(str_to_wstr("é€𝄞"), vec![0xE9u16, 0x20AC, 0xD834, 0xDD1E, 0]);
}

#[test]
fn wide_string_matches_std_encoding() {
    let text = "Fenêtre 窓 🪟";
    let w = str_to_wstr(text);
    let expected: Vec<u16> = text.encode_utf16().collect();
    assert_eq!(&w[..w.len() - 1], &expected[..]);
    assert_eq!(String::from_utf16(&w[..w.len() - 1]).unwrap(), text);
}

#[test]
fn wide_string_single_terminator() {
    let w = str_to_wstr("héllo wörld");
    assert_eq!(*w.last().unwrap(), 0);
    assert!(w[..w.len() - 1].iter().all(|u| *u != 0));
}

#[test]
fn wide_string_keeps_embedded_null() {
    assert_eq!(str_to_wstr("a\0b"), vec![97u16, 0, 98, 0]);
}

#[test]
fn width_given_height_missing() {
    let p = create_params(Some(800), None);
    assert_eq!(p.width, 800);
    assert_eq!(p.height, 0);
}

#[test]
fn both_sizes_missing() {
    let p = create_params(None, None);
    assert_eq!(p.width, CW_USEDEFAULT);
    assert_eq!(p.width, i32::MIN);
    assert_eq!(p.height, 0);
    assert_eq!(p.x, CW_USEDEFAULT);
    assert_eq!(p.y, 0);
    assert_eq!(p.ex_style, WS_EX_RIGHTSCROLLBAR);
    assert_eq!(p.style, WS_OVERLAPPEDWINDOW);
    assert_eq!(p.style, 0x00CF0000);
    assert_eq!(p.show_cmd, SW_SHOW);
    assert_eq!(p.payload, INITIAL_PAYLOAD);
    assert_eq!(p.payload, 5);
}

#[test]
fn both_sizes_given() {
    let p = create_params(Some(640), Some(480));
    assert_eq!((p.width, p.height), (640, 480));
}

#[test]
fn new_window_buffers_and_phase() {
    let w = WindowsWindow::new("Hi", Some(800), None);
    assert_eq!(w.class_name, vec![119u16, 105, 110, 100, 111, 119, 0]);
    assert_eq!(w.title, vec![72u16, 105, 0]);
    assert_eq!(w.params.width, 800);
    assert_eq!(w.params.height, 0);
    assert_eq!(w.phase, SetupPhase::LoadCursor);
    assert!(!w.is_ready());
}

#[test]
fn setup_runs_to_ready() {
    let mut w = WindowsWindow::new("t", None, None);
    assert_eq!(w.advance(SetupEvent::CursorLoaded { valid: true }), Ok(()));
    assert_eq!(w.phase, SetupPhase::Register);
    assert_eq!(w.advance(SetupEvent::Registered { atom: 0xC001, last_error: 0 }), Ok(()));
    assert_eq!(w.phase, SetupPhase::Create);
    assert_eq!(w.advance(SetupEvent::Created { has_handle: true }), Ok(()));
    assert_eq!(w.phase, SetupPhase::Show);
    assert_eq!(w.advance(SetupEvent::Shown { status: 0, last_error: 0 }), Ok(()));
    assert_eq!(w.phase, SetupPhase::Update);
    assert_eq!(w.advance(SetupEvent::Updated { ok: true }), Ok(()));
    assert!(w.is_ready());
}

#[test]
fn setup_cursor_failure() {
    let mut w = WindowsWindow::new("t", None, None);
    let r = w.advance(SetupEvent::CursorLoaded { valid: false });
    assert_eq!(r, Err(SetupError::CursorUnavailable));
    assert!(!SetupError::CursorUnavailable.is_fatal());
}

#[test]
fn second_registration_refused() {
    let mut w = WindowsWindow::new("t", None, None);
    w.advance(SetupEvent::CursorLoaded { valid: true }).unwrap();
    let r = w.advance(SetupEvent::Registered { atom: 0, last_error: 1410 });
    assert_eq!(r, Err(SetupError::RegisterFailed(1410)));
    assert_eq!(w.phase, SetupPhase::Failed(SetupError::RegisterFailed(1410)));
    assert!(!SetupError::RegisterFailed(1410).is_fatal());
}

#[test]
fn setup_fatal_failures() {
    let mut w = WindowsWindow::new("t", None, None);
    w.advance(SetupEvent::CursorLoaded { valid: true }).unwrap();
    w.advance(SetupEvent::Registered { atom: 1, last_error: 0 }).unwrap();
    let mut c = WindowsWindow::new("t", None, None);
    c.phase = w.phase;
    assert_eq!(c.advance(SetupEvent::Created { has_handle: false }), Err(SetupError::CreateFailed));
    w.advance(SetupEvent::Created { has_handle: true }).unwrap();
    let mut s = WindowsWindow::new("t", None, None);
    s.phase = w.phase;
    assert_eq!(s.advance(SetupEvent::Shown { status: 1, last_error: 87 }), Err(SetupError::ShowFailed(87)));
    w.advance(SetupEvent::Shown { status: 0, last_error: 0 }).unwrap();
    assert_eq!(w.advance(SetupEvent::Updated { ok: false }), Err(SetupError::UpdateFailed));
    assert!(SetupError::CreateFailed.is_fatal());
    assert!(SetupError::ShowFailed(87).is_fatal());
    assert!(SetupError::UpdateFailed.is_fatal());
}

#[test]
fn setup_out_of_order_and_sticky_failure() {
    let mut w = WindowsWindow::new("t", None, None);
    assert_eq!(w.advance(SetupEvent::Created { has_handle: true }), Err(SetupError::OutOfOrder));
    assert_eq!(w.advance(SetupEvent::CursorLoaded { valid: true }), Err(SetupError::OutOfOrder));
    assert!(!SetupError::OutOfOrder.is_fatal());
}

#[test]
fn dispatch_by_message_code() {
    assert_eq!(dispatch(WM_NCCREATE), Handling::Setup);
    assert_eq!(dispatch(0x0081), Handling::Setup);
    assert_eq!(dispatch(WM_CLOSE), Handling::Close);
    assert_eq!(dispatch(WM_DESTROY), Handling::Teardown);
    assert_eq!(dispatch(WM_PAINT), Handling::Paint);
    assert_eq!(dispatch(0x0001), Handling::Default);
    assert_eq!(dispatch(WM_QUIT), Handling::Default);
}

#[test]
fn userdata_round_trip_values() {
    assert_eq!(userdata_outcome(0x1234, 0), Ok(0x1234));
    assert_eq!(userdata_outcome(0x1234, 5), Ok(0x1234));
    assert_eq!(userdata_outcome(0, 0), Ok(0));
    assert_eq!(userdata_outcome(0, 1400), Err(1400));
}

#[test]
fn setup_reply_values() {
    assert_eq!(setup_reply(true, &Ok(0)), 1);
    assert_eq!(setup_reply(true, &Err(5)), 0);
    assert_eq!(setup_reply(false, &Ok(0)), 0);
}

#[test]
fn teardown_releases_stored_pointer_once() {
    let first = teardown(userdata_outcome(0x5000, 0));
    assert_eq!(first, Teardown { release: Some(0x5000), clear_slot: true, report: None, quit_code: 0 });
    let second = teardown(userdata_outcome(0, 0));
    assert_eq!(second.release, None);
    assert!(!second.clear_slot);
    assert_eq!(second.quit_code, 0);
}

#[test]
fn teardown_reports_failed_read() {
    let t = teardown(userdata_outcome(0, 1400));
    assert_eq!(t, Teardown { release: None, clear_slot: false, report: Some(1400), quit_code: 0 });
}

#[test]
fn brush_and_fill() {
    assert_eq!(sys_color_brush(COLOR_WINDOW), 6);
    assert_eq!(sys_color_brush(0), 1);
    assert_eq!(fill_outcome(1), Ok(()));
    assert_eq!(fill_outcome(0), Err(()));
}

#[test]
fn paint_reply_ignores_fill_failure() {
    assert_eq!(paint_reply(&fill_outcome(0)), paint_reply(&fill_outcome(1)));
    assert_eq!(paint_reply(&Err(())), 0);
}

#[test]
fn quit_exit_codes() {
    assert_eq!(next_action(0, WM_QUIT, 0), LoopAction::Exit(0));
    assert_eq!(next_action(0, WM_QUIT, 42), LoopAction::Exit(42));
    assert_eq!(next_action(0, WM_QUIT, (-1i64) as usize), LoopAction::Exit(-1));
    assert_eq!(exit_code(0x1_0000_002A), 42);
    assert_eq!(exit_code(0x8000_0000), i32::MIN);
}

#[test]
fn loop_dispatch_and_abort() {
    assert_eq!(next_action(1, WM_PAINT, 0), LoopAction::Dispatch);
    assert_eq!(next_action(-1, WM_QUIT, 42), LoopAction::Abort);
    assert_eq!(next_action(-1, WM_PAINT, 0), LoopAction::Abort);
}

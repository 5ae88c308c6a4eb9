use mouse_speed_switcher::place::ScreenRect;
use mouse_speed_switcher::scroll::{ScrollCfg, ScrollEngine, TriggerBtn};
use mouse_speed_switcher::win32::host::closes_menu;
use mouse_speed_switcher::win32::scroll_hook::{
    arm_capture, cancel_capture, finish_capture, flush_pending_wheel, hook_installed,
    is_button_down_msg, is_capture_end_event, is_capturing, is_pt_in_menu, matches_down,
    matches_up, on_mouse_event, on_raw_input, post_failed, queue_wheel, raw_failed, set_enabled,
    set_menu_open, sync, trigger_from, HookState, MouseEvent, Verdict, WM_LBUTTONDOWN,
    WM_MBUTTONDOWN, WM_MOUSEMOVE, WM_RBUTTONDOWN, WM_XBUTTONDOWN, WM_XBUTTONUP,
};

fn ev(msg: u32, mouse_data: u32) -> MouseEvent {
    MouseEvent { msg, mouse_data, injected: false, time: 77 }
}

fn on() -> ScrollCfg {
    ScrollCfg { enabled: true, ..ScrollCfg::default() }
}

#[test]
fn holding_the_trigger_freezes_the_pointer() {
    let mut h = HookState::new();
    let mut e = ScrollEngine::default();
    let cfg = Some(on());
    assert_eq!(on_mouse_event(&mut h, &mut e, ev(WM_MOUSEMOVE, 0), false, cfg), Verdict::Pass);
    assert_eq!(
        on_mouse_event(&mut h, &mut e, ev(WM_XBUTTONDOWN, 0x10000), false, cfg),
        Verdict::ScrollOn
    );
    assert!(e.active);
    assert_eq!(on_mouse_event(&mut h, &mut e, ev(WM_MOUSEMOVE, 0), false, cfg), Verdict::Freeze);
    // Other buttons pass.
    assert_eq!(on_mouse_event(&mut h, &mut e, ev(WM_LBUTTONDOWN, 0), false, cfg), Verdict::Pass);
    assert_eq!(
        on_mouse_event(&mut h, &mut e, ev(WM_XBUTTONUP, 0x20000), false, cfg),
        Verdict::Pass
    );
    assert_eq!(
        on_mouse_event(&mut h, &mut e, ev(WM_XBUTTONUP, 0x10000), false, cfg),
        Verdict::ScrollOff
    );
    assert!(!e.active);
    // Off without settings, with a menu open, and for injected events.
    assert_eq!(
        on_mouse_event(&mut h, &mut e, ev(WM_XBUTTONDOWN, 0x10000), false, None),
        Verdict::Pass
    );
    set_menu_open(&mut h, true);
    assert_eq!(
        on_mouse_event(&mut h, &mut e, ev(WM_XBUTTONDOWN, 0x10000), false, cfg),
        Verdict::Pass
    );
    set_menu_open(&mut h, false);
    let injected = MouseEvent { injected: true, ..ev(WM_XBUTTONDOWN, 0x10000) };
    assert_eq!(on_mouse_event(&mut h, &mut e, injected, false, cfg), Verdict::Pass);
}

#[test]
fn recording_a_trigger() {
    let mut e = ScrollEngine::default();
    let mut h = HookState::new();
    assert!(!is_capture_end_event(&h, 0));
    assert!(arm_capture(&mut h));
    hook_installed(&mut h);
    assert!(is_capturing(&h));
    assert_eq!(on_mouse_event(&mut h, &mut e, ev(WM_MOUSEMOVE, 0), true, None), Verdict::Pass);
    // Inside the menu a side button records, the left and right cancel.
    assert_eq!(
        on_mouse_event(&mut h, &mut e, ev(WM_XBUTTONDOWN, 0x20000), true, None),
        Verdict::Record(TriggerBtn::X2)
    );
    assert!(!is_capturing(&h) && is_capture_end_event(&h, 77));
    assert!(!is_capture_end_event(&h, 78));
    assert!(!arm_capture(&mut h));
    assert_eq!(
        on_mouse_event(&mut h, &mut e, ev(WM_RBUTTONDOWN, 0), true, None),
        Verdict::CancelCapture
    );
    arm_capture(&mut h);
    assert_eq!(
        on_mouse_event(&mut h, &mut e, ev(WM_RBUTTONDOWN, 0), false, None),
        Verdict::Record(TriggerBtn::Right)
    );
    // A button that cannot be a trigger: cancels inside, passes outside.
    arm_capture(&mut h);
    assert_eq!(
        on_mouse_event(&mut h, &mut e, ev(WM_XBUTTONDOWN, 0x30000), false, None),
        Verdict::Pass
    );
    assert!(is_capturing(&h));
    assert_eq!(
        on_mouse_event(&mut h, &mut e, ev(WM_XBUTTONDOWN, 0x30000), true, None),
        Verdict::CancelCapture
    );
    arm_capture(&mut h);
    set_menu_open(&mut h, false);
    assert!(!is_capturing(&h));
    arm_capture(&mut h);
    cancel_capture(&mut h);
    assert!(!is_capturing(&h));
    finish_capture(&mut h, 5);
    assert!(is_capture_end_event(&h, 5));
}

#[test]
fn waiting_wheel_is_flushed_once() {
    let mut h = HookState::new();
    assert_eq!(flush_pending_wheel(&mut h), None);
    assert!(queue_wheel(&mut h, 240));
    assert!(!queue_wheel(&mut h, -120));
    assert_eq!(flush_pending_wheel(&mut h), Some(120));
    assert_eq!(flush_pending_wheel(&mut h), None);
    assert!(queue_wheel(&mut h, 40000));
    post_failed(&mut h);
    assert!(queue_wheel(&mut h, 1));
    assert_eq!(flush_pending_wheel(&mut h), Some(32760));
    queue_wheel(&mut h, -99999);
    assert_eq!(flush_pending_wheel(&mut h), Some(-32760));
    queue_wheel(&mut h, i32::MAX);
    queue_wheel(&mut h, 1);
    assert_eq!(flush_pending_wheel(&mut h), Some(-32760));
}

#[test]
fn raw_movement_turns_the_wheel() {
    let mut h = HookState::new();
    let mut e = ScrollEngine::default();
    assert!(!on_raw_input(&mut h, &mut e, false, -45, on(), 3));
    e.active = true;
    assert!(!on_raw_input(&mut h, &mut e, true, -45, on(), 3));
    assert!(!on_raw_input(&mut h, &mut e, false, -44, on(), 3));
    assert!(on_raw_input(&mut h, &mut e, false, -1, on(), 3));
    assert_eq!(flush_pending_wheel(&mut h), Some(120));
    // The sensitivity is kept within its range.
    let fine = ScrollCfg { px_per_line: 0, ..on() };
    assert!(on_raw_input(&mut h, &mut e, false, 4, fine, 1));
    assert_eq!(flush_pending_wheel(&mut h), Some(-240));
    h.menu_open = true;
    assert!(!on_raw_input(&mut h, &mut e, false, -450, on(), 3));
}

#[test]
fn switching_scroll_mode() {
    let mut h = HookState::new();
    let mut e = ScrollEngine::default();
    let w = sync(&mut h, &mut e, Some(on()));
    assert!(w.install_hook && w.register_raw && !w.remove_hook && !w.unregister_raw);
    hook_installed(&mut h);
    let w = set_enabled(&mut h, &mut e, true);
    assert!(!w.install_hook && !w.register_raw);
    raw_failed(&mut h);
    assert!(set_enabled(&mut h, &mut e, true).register_raw);
    e.active = true;
    queue_wheel(&mut h, 120);
    let w = sync(&mut h, &mut e, None);
    assert!(w.remove_hook && w.unregister_raw);
    assert!(!e.active && !h.installed && h.pending_wheel == 0 && !h.inject_posted);
}

#[test]
fn buttons_of_messages() {
    assert!(is_button_down_msg(WM_MBUTTONDOWN) && !is_button_down_msg(WM_MOUSEMOVE));
    assert_eq!(trigger_from(WM_LBUTTONDOWN, 0), Some(TriggerBtn::Left));
    assert_eq!(trigger_from(WM_XBUTTONDOWN, 0x10005), Some(TriggerBtn::X1));
    assert_eq!(trigger_from(WM_MOUSEMOVE, 0), None);
    assert!(matches_down(0x0207, 0, TriggerBtn::Middle));
    assert!(!matches_down(0x0208, 0, TriggerBtn::Middle));
    assert!(matches_up(0x0208, 0, TriggerBtn::Middle));
    assert!(matches_up(0x0202, 0, TriggerBtn::Left) && matches_up(0x0205, 0, TriggerBtn::Right));
    assert!(matches_up(WM_XBUTTONUP, 0x20000, TriggerBtn::X2));
}

#[test]
fn clicks_outside_close_the_menu() {
    let mut h = HookState::new();
    assert!(closes_menu(&h, WM_LBUTTONDOWN, 0, Some("Notepad")));
    h.capture_end_time = Some(9);
    assert!(closes_menu(&h, WM_LBUTTONDOWN, 8, Some("Notepad")));
    assert!(closes_menu(&h, WM_RBUTTONDOWN, 8, Some("Notepad")));
    assert!(!closes_menu(&h, WM_MBUTTONDOWN, 8, Some("Notepad")));
    assert!(!closes_menu(&h, WM_LBUTTONDOWN, 8, Some("MSS_Menu")));
    assert!(!closes_menu(&h, WM_LBUTTONDOWN, 8, Some("MSS_SubMenu")));
    assert!(!closes_menu(&h, WM_LBUTTONDOWN, 8, None));
    assert!(!closes_menu(&h, WM_LBUTTONDOWN, 9, Some("Notepad")));
    h.capturing = true;
    assert!(!closes_menu(&h, WM_LBUTTONDOWN, 8, Some("Notepad")));
    let r = ScreenRect { left: 0, top: 0, right: 10, bottom: 10 };
    assert!(is_pt_in_menu(9, 0, Some(r), None) && !is_pt_in_menu(10, 0, Some(r), None));
    assert!(is_pt_in_menu(1, 1, None, Some(r)) && !is_pt_in_menu(1, 1, None, None));
}

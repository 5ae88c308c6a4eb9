use mouse_speed_switcher::config::Config;
use mouse_speed_switcher::devices::Device;
use mouse_speed_switcher::menu_model::DevRow;
use mouse_speed_switcher::scroll::{KbTrigger, ScrollCfg, TriggerBtn};
use mouse_speed_switcher::speed::{SpeedWrite, SystemSpeed};
use mouse_speed_switcher::state::AppState;
use mouse_speed_switcher::win32::host::{
    is_mss_popup, needs_scan, tip_for, HostUi, SubLeft, TrayClick,
};
use mouse_speed_switcher::win32::layout::{
    autostart_top, device_top, exit_top, hover_at, menu_height, other_height, other_row_at,
    other_row_top, other_top, slot_at, sub_action_top, sub_height, sub_kb_top, sub_mode_top,
    sub_sens_rect, sub_store_rect, sub_trigger_top, Slot, Target,
};
use mouse_speed_switcher::win32::menu::{
    current_pal, menu_font_height, nudge_speed, on_pointer_slider, on_trackbar_message,
    on_wheel_slider, palette, run_action, slider_paint, speed_label, wheel_label, Back, HostAction,
    Ink, KeyWork, MenuOp, MenuText, SliderPaint, CDDS_ITEMPREPAINT, CDDS_PREPAINT, TBCD_CHANNEL,
    TBCD_THUMB, TB_ENDTRACK, TB_LINEUP, TB_THUMBPOSITION, TB_THUMBTRACK, VK_DOWN, VK_ESCAPE,
    VK_LEFT, VK_RETURN, VK_RIGHT, VK_UP, WM_CHAR, WM_ERASEBKGND, WM_KEYDOWN, WM_MOUSELEAVE,
};
use mouse_speed_switcher::win32::other_submenu::{OtherOp, OtherWork};
use mouse_speed_switcher::win32::submenu::{SubOp, SubSlider, SubText, SubWork, UpWork};

const SYS: SystemSpeed = SystemSpeed { speed: 6, wheel: 4 };

fn dev(id: &str, vid: Option<&str>, pid: Option<&str>) -> Device {
    Device {
        instance_id: id.into(),
        vid: vid.map(Into::into),
        pid: pid.map(Into::into),
        name: id.into(),
    }
}

/// A ruled device `b` between two others, and its menu.
fn fixture() -> (HostUi, AppState, Vec<Device>) {
    let mice = vec![
        dev("a", Some("1"), Some("2")),
        dev("b", Some("3"), Some("4")),
        dev("c", None, None),
    ];
    let mut cfg = Config::default();
    let scroll = ScrollCfg { enabled: true, ..ScrollCfg::default() };
    cfg.set_rule_with_scroll("3", "4", 7, None, Some(scroll), None);
    let (mut st, _) = AppState::new(cfg, &vec![]);
    let mut ui = HostUi::new(SYS, false);
    let w = ui.prepare_menu(&mut st, &mice, SYS, true);
    assert!(w.is_empty());
    assert_eq!((ui.model.speed_val, ui.model.wheel_val), (6, 4));
    (ui, st, mice)
}

#[test]
fn devices_are_split_by_rules() {
    let (ui, st, _) = fixture();
    assert_eq!(ui.ruled, vec![1]);
    assert_eq!(ui.other, vec![0, 2]);
    assert_eq!(ui.scrolls[1].map(|c| c.enabled), Some(true));
    assert!(ui.effective.is_none());
    assert_eq!(tip_for(&st, SYS), "鼠标灵敏度切换 - 指针: 6 · 滚轮: 4");
}

#[test]
fn native_layout_and_targets() {
    assert_eq!(device_top(0), 120 + 66 + 8);
    assert_eq!(other_top(0), other_top(1));
    assert_eq!(hover_at(300, 10, 1), Some(Target::Reset));
    assert_eq!(hover_at(20, device_top(0), 1), Some(Target::Device(0)));
    assert_eq!(hover_at(20, device_top(0), 0), None);
    assert_eq!(hover_at(20, other_top(1) + 25, 1), Some(Target::OtherDevices));
    assert_eq!(hover_at(20, autostart_top(1), 1), Some(Target::Autostart));
    assert_eq!(hover_at(20, exit_top(1), 1), Some(Target::Exit));
    assert_eq!(hover_at(20, exit_top(1) + 26, 1), None);
    assert_eq!(menu_height(1), exit_top(1) + 32);
    assert_eq!(slot_at(20, sub_mode_top()), Some(Slot::Mode));
    assert_eq!(slot_at(20, sub_trigger_top()), Some(Slot::Trigger));
    assert_eq!(slot_at(20, sub_kb_top()), Some(Slot::KbTrigger));
    assert_eq!(slot_at(20, sub_store_rect().1), Some(Slot::Store));
    assert_eq!(slot_at(2, sub_store_rect().1), None);
    assert_eq!(slot_at(20, sub_action_top(2)), Some(Slot::Action(2)));
    assert_eq!(slot_at(20, sub_sens_rect().1), None);
    assert_eq!(sub_height(), 362);
    assert_eq!((other_height(0), other_height(2)), (32, 62));
    assert_eq!(other_row_at(3, 2), None);
    assert_eq!(other_row_at(other_row_top(1), 2), Some(1));
    assert_eq!(other_row_at(other_row_top(2), 2), None);
}

#[test]
fn pointing_opens_and_closes_submenus() {
    let (mut ui, _, _) = fixture();
    assert!(ui.on_menu_move(20, device_top(0) + 1));
    assert!(!ui.on_menu_move(20, device_top(0) + 2));
    assert_eq!(ui.sync_other(), OtherWork::Nothing);
    assert_eq!(ui.sync_sub(), SubWork::Open { idx: 1, top: device_top(0) });
    ui.sub_opened(1, SYS);
    assert_eq!((ui.model.sub_slider, ui.model.sub_wheel), (Some(7), Some(4)));
    assert_eq!(ui.sync_sub(), SubWork::Nothing);
    // Into the list of other devices: the submenu goes, the list comes.
    assert!(ui.on_menu_move(20, other_top(1) + 1));
    assert!(ui.other_entry_hovered);
    assert_eq!(ui.sync_other(), OtherWork::Open);
    ui.other_opened();
    assert_eq!(ui.sync_sub(), SubWork::Close);
    assert!(!ui.sub_open && ui.model.sub_slider.is_none());
    assert_eq!(ui.sync_other(), OtherWork::Redraw);
    // A row of the list opens its device's submenu.
    assert!(ui.on_other_move(other_row_top(1) + 1));
    assert_eq!(ui.sync_sub(), SubWork::Open { idx: 2, top: other_row_top(1) });
    ui.sub_opened(2, SYS);
    assert_eq!((ui.model.sub_slider, ui.model.sub_wheel), (Some(6), Some(4)));
    ui.on_other_move(other_row_top(0) + 1);
    assert_eq!(ui.sync_sub(), SubWork::Reopen { idx: 0, top: other_row_top(0) });
    ui.sub_opened(0, SYS);
    // Leaving into the submenu keeps both; leaving for good asks for closing.
    ui.other_entry_hovered = false;
    assert_eq!(ui.on_other_leave(true, false), (false, false));
    assert_eq!(ui.on_other_leave(false, true), (true, false));
    assert_eq!(ui.on_other_leave(false, false), (true, true));
    assert_eq!(ui.sync_other(), OtherWork::Close { sub_too: true });
    assert!(!ui.other_open && !ui.sub_open);
    assert!(ui.on_other_down(other_row_top(0)));
    ui.on_other_up();
    assert!(ui.other_sub_pressed.is_none());
}

#[test]
fn leaving_the_menu() {
    let (mut ui, _, _) = fixture();
    ui.on_menu_move(20, device_top(0) + 1);
    ui.sub_opened(1, SYS);
    assert!(ui.on_menu_leave(false, true));
    assert!(ui.model.sub_hover.is_some() && ui.hover.is_none());
    assert!(!ui.on_menu_leave(false, false));
    assert!(ui.model.sub_hover.is_none());
    assert!(ui.follows_close_request());
}

#[test]
fn commands_need_press_and_release() {
    let (mut ui, _, _) = fixture();
    let exit = exit_top(1) + 1;
    let auto = autostart_top(1) + 1;
    assert!(ui.on_menu_down(20, exit));
    assert_eq!(ui.on_menu_up(20, auto), None);
    assert!(ui.on_menu_down(20, exit));
    assert_eq!(ui.on_menu_up(20, exit), Some(HostAction::Exit));
    assert_eq!(ui.on_menu_up(20, exit), None);
    assert!(!ui.on_menu_down(20, device_top(0)));
    assert_eq!(ui.on_menu_up(20, device_top(0)), None);
    ui.on_menu_down(300, 10);
    assert_eq!(ui.on_menu_up(300, 10), Some(HostAction::ResetDefault));
    ui.on_menu_down(20, auto);
    assert_eq!(ui.on_menu_up(20, auto), Some(HostAction::ToggleAutostart));
}

#[test]
fn keys_of_the_menu() {
    let (mut ui, mut st, _) = fixture();
    st.activate_rule("b", SYS);
    assert!(!st.global_active());
    assert_eq!(ui.on_menu_key(&mut st, VK_ESCAPE), KeyWork::CloseMenu);
    assert_eq!(ui.on_menu_key(&mut st, VK_RETURN), KeyWork::Run(HostAction::Exit));
    assert_eq!(ui.on_menu_key(&mut st, VK_DOWN), KeyWork::Redraw);
    assert_eq!(ui.model.kb_focus, Some(0));
    assert_eq!(ui.on_menu_key(&mut st, VK_RETURN), KeyWork::Ignore);
    ui.on_menu_key(&mut st, VK_UP);
    assert_eq!(ui.model.kb_focus, Some(3));
    assert_eq!(ui.activate_focus(), Some(HostAction::Exit));
    ui.on_menu_key(&mut st, VK_UP);
    assert_eq!(ui.on_menu_key(&mut st, VK_RETURN), KeyWork::Run(HostAction::ToggleAutostart));
    ui.on_menu_key(&mut st, VK_UP);
    assert_eq!(ui.activate_focus(), None);
    // Setting the speed by hand takes the rule out of force.
    assert!(!st.global_active());
    assert_eq!(ui.on_menu_key(&mut st, VK_RIGHT), KeyWork::Write(SpeedWrite::Pointer(7)));
    assert!(st.global_active() && st.applied_speed == 7);
    assert_eq!(ui.on_menu_key(&mut st, VK_LEFT), KeyWork::Write(SpeedWrite::Pointer(6)));
    ui.model.speed_val = 1;
    assert_eq!(ui.on_menu_key(&mut st, VK_LEFT), KeyWork::Ignore);
    assert_eq!(nudge_speed(&mut ui.model, &mut st, 100), Some(SpeedWrite::Pointer(20)));
    assert_eq!(ui.on_menu_key(&mut st, 0x41), KeyWork::Ignore);
}

#[test]
fn sliders_preview_and_apply() {
    let (mut ui, mut st, _) = fixture();
    st.activate_rule("b", SYS);
    let m = &mut ui.model;
    let w = on_pointer_slider(m, &mut st, TB_THUMBTRACK, 15);
    assert!(w.redraw && w.write.is_none());
    assert_eq!((m.speed_val, m.pending_speed), (6, Some(15)));
    assert_eq!(speed_label(m), "指针速度: 15");
    assert!(!st.global_active());
    let w = on_pointer_slider(m, &mut st, TB_THUMBPOSITION, 0);
    assert!(st.global_active() && st.applied_speed == 15);
    assert_eq!(w.write, Some(SpeedWrite::Pointer(15)));
    assert_eq!((m.speed_val, m.pending_speed), (15, None));
    let w = on_pointer_slider(m, &mut st, TB_ENDTRACK, 3);
    assert!(w.redraw && w.write.is_none());
    let w = on_pointer_slider(m, &mut st, TB_LINEUP, 99);
    assert_eq!(w.write, Some(SpeedWrite::Pointer(20)));
    assert_eq!(on_pointer_slider(m, &mut st, TB_LINEUP, 99).write, None);
    assert_eq!(on_pointer_slider(m, &mut st, 77, 5).write, None);
    let w = on_wheel_slider(m, &mut st, TB_THUMBTRACK, 500);
    assert!(w.redraw);
    assert_eq!(wheel_label(m), "滚轮: 100");
    assert_eq!(on_wheel_slider(m, &mut st, TB_ENDTRACK, 0).write, Some(SpeedWrite::Wheel(100)));
    assert_eq!(on_wheel_slider(m, &mut st, TB_LINEUP, 0).write, Some(SpeedWrite::Wheel(1)));
    assert_eq!(wheel_label(m), "滚轮: 1");
    assert_eq!(st.applied_wheel, 1);
}

#[test]
fn submenu_stores_its_values() {
    let (mut ui, mut st, mice) = fixture();
    ui.model.sub_hover = Some((0, 0));
    ui.sub_opened(0, SYS);
    assert!(ui.on_sub_move(20, sub_mode_top() + 1));
    assert!(ui.model.sub_pointer_inside && ui.sub_hover_row == Some(Slot::Mode));
    // Scroll mode off: its triggers cannot be recorded.
    assert!(ui.on_sub_down(20, sub_trigger_top()));
    assert_eq!(ui.on_sub_up(20, sub_trigger_top()), UpWork::Nothing);
    assert!(ui.on_sub_down(20, sub_mode_top()));
    assert_eq!(ui.on_sub_up(20, sub_mode_top()), UpWork::EnableSens(true));
    ui.on_sub_down(20, sub_trigger_top());
    assert_eq!(ui.on_sub_up(20, sub_trigger_top()), UpWork::Capture);
    assert!(ui.model.capturing);
    assert_eq!(ui.trigger_text(false), "触发键: 按下任意鼠标键…(Esc取消)");
    ui.on_sub_down(20, sub_kb_top());
    assert_eq!(ui.on_sub_up(20, sub_kb_top()), UpWork::Nothing);
    ui.model.capturing = false;
    ui.on_sub_down(20, sub_kb_top());
    assert_eq!(ui.on_sub_up(20, sub_kb_top()), UpWork::KbCapture);
    assert_eq!(ui.kb_trigger_text(true), "键盘触发: 按下单个键…(Esc取消)");
    ui.model.capturing = false;
    ui.on_sub_slider(SubSlider::Pointer, 12);
    ui.on_sub_slider(SubSlider::Wheel, 0);
    ui.on_sub_slider(SubSlider::Sens, 1);
    assert_eq!(ui.sub_speed_text(), "指针速度: 12");
    assert_eq!(ui.sub_wheel_text(), "滚轮速度: 1");
    assert_eq!(ui.sens_text(), "滚动灵敏度: 2 像素/行");
    assert_eq!(ui.trigger_text(false), "触发键: 鼠标侧键1");
    assert_eq!(ui.kb_trigger_text(false), "键盘触发: 无");
    let y = sub_store_rect().1 + 1;
    ui.on_sub_down(20, y);
    let scroll = ScrollCfg { enabled: true, px_per_line: 2, ..ScrollCfg::default() };
    let action = HostAction::SetRuleWithSpeed(0, 12, 1, Some(scroll));
    assert_eq!(ui.on_sub_up(20, y), UpWork::Run(action));
    let out = run_action(&mut ui.model, &mut st, action, SYS);
    assert!(out.save && out.sync_hook && !out.keep_open);
    let r = st.cfg.rule_for("1", "2").unwrap();
    assert_eq!((r.speed, r.wheel, r.scroll), (12, Some(1), Some(scroll)));
    ui.refresh(&mice, &st);
    assert_eq!(ui.ruled, vec![0, 1]);
    assert_eq!(ui.other, vec![2]);
}

#[test]
fn submenu_actions_respect_the_device() {
    let (mut ui, _, _) = fixture();
    ui.sub_opened(0, SYS);
    // No rule: deleting is greyed out.
    assert!(!ui.on_sub_down(20, sub_action_top(1)));
    assert_eq!(ui.on_sub_up(20, sub_action_top(1)), UpWork::Nothing);
    ui.on_sub_down(20, sub_action_top(0));
    assert_eq!(ui.on_sub_up(20, sub_action_top(0)), UpWork::Run(HostAction::SetRule(0)));
    ui.on_sub_down(20, sub_action_top(0));
    assert_eq!(ui.on_sub_up(20, sub_action_top(2)), UpWork::Nothing);
    ui.sub_opened(1, SYS);
    ui.on_sub_down(20, sub_action_top(1));
    assert_eq!(ui.on_sub_up(20, sub_action_top(1)), UpWork::Run(HostAction::DelRule(1)));
    // No ids: nothing can be done.
    ui.sub_opened(2, SYS);
    for y in [sub_action_top(0), sub_action_top(2), sub_mode_top(), sub_store_rect().1] {
        assert!(!ui.on_sub_down(20, y));
    }
    assert_eq!(ui.on_sub_leave(true), (false, false));
    assert_eq!(ui.on_sub_leave(false), (true, true));
    ui.hover = Some(Target::OtherDevices);
    assert_eq!(ui.on_sub_leave(false), (true, false));
}

#[test]
fn host_actions() {
    let (mut ui, mut st, _) = fixture();
    st.activate_rule("b", SYS);
    let out = run_action(&mut ui.model, &mut st, HostAction::ResetDefault, SYS);
    assert!(st.global_active() && (st.applied_speed, st.applied_wheel) == (10, 3));
    assert_eq!(out.writes, vec![SpeedWrite::Pointer(10), SpeedWrite::Wheel(3)]);
    assert!(out.keep_open && ui.model.speed_val == 10 && ui.model.wheel_val == 3);
    let out = run_action(&mut ui.model, &mut st, HostAction::SetSpeed(99), SYS);
    assert_eq!(out.writes, vec![SpeedWrite::Pointer(20)]);
    assert_eq!(ui.model.speed_val, 20);
    assert!(out.sync_hook && st.applied_speed == 20);
    let out = run_action(&mut ui.model, &mut st, HostAction::SetRule(0), SYS);
    assert!(out.save);
    let r = st.cfg.rule_for("1", "2").unwrap();
    assert_eq!((r.speed, r.wheel, r.note.as_deref()), (6, Some(4), Some("a")));
    let out = run_action(&mut ui.model, &mut st, HostAction::SetRule(2), SYS);
    assert!(!out.save && !out.sync_hook && out.writes.is_empty());
    let out = run_action(&mut ui.model, &mut st, HostAction::DelRule(0), SYS);
    assert!(out.save && st.cfg.rule_for("1", "2").is_none());
    let out = run_action(&mut ui.model, &mut st, HostAction::Reapply(0), SYS);
    assert!(out.sync_hook && !out.save);
    assert_eq!(out.writes, vec![SpeedWrite::Pointer(7)]);
    assert!(run_action(&mut ui.model, &mut st, HostAction::Exit, SYS).exit);
    let out = run_action(&mut ui.model, &mut st, HostAction::ToggleAutostart, SYS);
    assert!(out.toggle_autostart && out.keep_open);
}

#[test]
fn opening_and_closing_the_menu() {
    let (mut ui, _, _) = fixture();
    assert_eq!(ui.toggle_menu(), TrayClick::OpenMenu);
    ui.begin_open();
    assert_eq!(ui.toggle_menu(), TrayClick::Ignore);
    assert!(!ui.close_menu());
    ui.end_open(true);
    assert_eq!(ui.toggle_menu(), TrayClick::CloseMenu);
    assert!(!ui.on_activate(false));
    assert!(!ui.on_activate(true));
    assert!(ui.on_activate(false));
    ui.sub_opened(1, SYS);
    assert!(ui.close_menu());
    assert!(!ui.menu_open && !ui.sub_open && ui.sub_dev.is_none());
    assert!(!ui.close_menu());
    ui.begin_open();
    ui.end_open(false);
    assert_eq!(ui.toggle_menu(), TrayClick::OpenMenu);
}

#[test]
fn leaving_a_submenu_slider() {
    let (mut ui, _, _) = fixture();
    ui.on_menu_move(20, device_top(0));
    ui.sub_opened(1, SYS);
    assert_eq!(ui.on_sub_left(true), SubLeft::Stay);
    assert!(ui.model.sub_pointer_inside);
    assert_eq!(ui.on_sub_left(false), SubLeft::Redraw);
    ui.hover = None;
    assert_eq!(ui.on_sub_left(false), SubLeft::CloseSub);
    assert!(ui.close_sub());
    assert!(!ui.close_sub());
    assert_eq!(ui.on_sub_left(true), SubLeft::CloseSub);
}

#[test]
fn settings_and_devices_change() {
    let (mut ui, mut st, mut mice) = fixture();
    let mut sys = SYS;
    sys.write_all(&st.activate_global());
    assert!(!ui.on_setting_change(&mut st, sys).foreign);
    sys.write_all(&st.activate_rule("b", sys));
    let w = ui.on_setting_change(&mut st, sys);
    assert!(w.pointer == Some(7) && w.tip && !w.foreign && !st.global_active());
    let w = ui.on_setting_change(&mut st, sys);
    assert!(w.pointer.is_none() && w.wheel.is_none() && !w.tip);
    // Someone else changes the speed: the rule lapses.
    let w = ui.on_setting_change(&mut st, SystemSpeed { speed: 8, wheel: sys.wheel });
    assert_eq!((w.pointer, w.wheel, w.tip, w.foreign), (Some(8), None, true, true));
    assert!(st.global_active());
    ui.sub_opened(1, SYS);
    ui.model.sub_hover = Some((1, 5));
    let w = ui.debounced_scan(&mut st, &mice);
    assert!(!w.close_sub && ui.sub_open && ui.model.sub_hover.is_some());
    mice.pop();
    let w = ui.debounced_scan(&mut st, &mice);
    assert!(w.close_sub && !ui.sub_open && ui.model.sub_hover.is_none());
    assert_eq!(ui.model.devs.len(), 2);
    assert!(needs_scan(0x8000) && needs_scan(0x8004) && needs_scan(7) && !needs_scan(1));
    assert!(is_mss_popup("MSS_SubMenu") && !is_mss_popup("mss_menu"));
}

#[test]
fn drawing_the_native_menu() {
    let (mut ui, mut st, mice) = fixture();
    let _ = st.activate_rule("b", SYS);
    ui.refresh(&mice, &st);
    let info = ui.effective.as_ref().unwrap();
    assert_eq!(info.name_line(), "生效规则: b");
    assert_eq!(info.speeds_line(), "指针: 7 · 滚轮: 保持");
    assert_eq!(
        info.scroll_mode_line(),
        "滚轮模式: 开 · 鼠标侧键1 · 无 · 15 像素/行"
    );
    ui.hover = Some(Target::Device(0));
    ui.pressed = Some(Target::Exit);
    ui.model.kb_focus = Some(2);
    ui.model.pending_speed = Some(9);
    let top = device_top(0);
    let ink = Ink::HlText;
    assert_eq!(
        ui.draw_menu(),
        vec![
            MenuOp::Text { id: MenuText::Speed, x: 8, cy: 13, ink: Ink::Gray },
            MenuOp::ResetButton { fill: None, ink: Ink::Text },
            MenuOp::Text { id: MenuText::Wheel, x: 8, cy: 71, ink: Ink::Text },
            MenuOp::Separator { y: 116 },
            MenuOp::Text { id: MenuText::EffName, x: 8, cy: 131, ink: Ink::Gray },
            MenuOp::Text { id: MenuText::EffSpeeds, x: 8, cy: 153, ink: Ink::Gray },
            MenuOp::Text { id: MenuText::EffScroll, x: 8, cy: 175, ink: Ink::Gray },
            MenuOp::Separator { y: 190 },
            MenuOp::RowBack { top, back: Back::Hovered },
            MenuOp::Check { cy: top + 13, ink },
            MenuOp::Gear { cy: top + 13, ink },
            MenuOp::ScrollMark { cy: top + 13, ink },
            MenuOp::Text { id: MenuText::Device(1), x: 62, cy: top + 13, ink },
            MenuOp::Arrow { right: 312, cy: top + 13, ink },
            MenuOp::Text { id: MenuText::Other, x: 26, cy: other_top(1) + 13, ink: Ink::Text },
            MenuOp::Arrow { right: 312, cy: other_top(1) + 13, ink: Ink::Text },
            MenuOp::Separator { y: autostart_top(1) - 4 },
            MenuOp::RowBack { top: autostart_top(1), back: Back::Focused },
            MenuOp::Check { cy: autostart_top(1) + 13, ink: Ink::Text },
            MenuOp::Text {
                id: MenuText::Autostart,
                x: 26,
                cy: autostart_top(1) + 13,
                ink: Ink::Text
            },
            MenuOp::Separator { y: exit_top(1) - 4 },
            MenuOp::RowBack { top: exit_top(1), back: Back::Pressed },
            MenuOp::Text { id: MenuText::Exit, x: 26, cy: exit_top(1) + 13, ink },
        ]
    );
    st.cfg.rules.clear();
    let _ = st.activate_global();
    ui.refresh(&mice, &st);
    let ops = ui.draw_menu();
    assert_eq!(ops[4], MenuOp::Text { id: MenuText::EffNone, x: 8, cy: 153, ink: Ink::Gray });
    assert_eq!(
        ops[6],
        MenuOp::Text { id: MenuText::NoDevices, x: 8, cy: device_top(0) + 11, ink: Ink::Gray }
    );
}

#[test]
fn drawing_the_submenu_and_the_list() {
    let (mut ui, _, _) = fixture();
    assert!(ui.draw_sub().is_empty());
    ui.sub_opened(1, SYS);
    ui.sub_hover_row = Some(Slot::Store);
    ui.sub_pressed = Some(Slot::Action(1));
    let ops = ui.draw_sub();
    assert_eq!(ops[0], SubOp::Text { id: SubText::Info, x: 8, cy: 16, ink: Ink::Gray });
    assert_eq!(ops[3], SubOp::Check { cy: sub_mode_top() + 12, ink: Ink::Text });
    assert_eq!(
        ops[4],
        SubOp::Text { id: SubText::Mode, x: 26, cy: sub_mode_top() + 12, ink: Ink::Text }
    );
    assert_eq!(ops[8], SubOp::StoreButton { fill: Some(Ink::BtnHover), ink: Ink::HlText });
    assert_eq!(ops[10], SubOp::Fill { top: sub_action_top(1), ink: Ink::RowPressed });
    assert_eq!(ops.len(), 13);
    ui.sub_opened(2, SYS);
    let ops = ui.draw_sub();
    assert_eq!(ops[7], SubOp::StoreButton { fill: None, ink: Ink::Gray });

    ui.other_sub_hover = Some(1);
    assert_eq!(
        ui.draw_other(),
        vec![
            OtherOp::Text { dev: 0, x: 8, cy: 17, ink: Ink::Text },
            OtherOp::RowBack { top: 30, back: Back::Hovered },
            OtherOp::Text { dev: 2, x: 8, cy: 43, ink: Ink::HlText },
        ]
    );
    ui.other.clear();
    assert_eq!(ui.draw_other(), vec![OtherOp::Empty { x: 8, cy: 15 }]);
}

#[test]
fn colours_fonts_and_slider_messages() {
    assert_eq!(palette(true).bg, 0x2C2C2C);
    assert_eq!(palette(false).row_pressed, 0x9E5A00);
    assert_eq!(current_pal(None, true), palette(true));
    assert_eq!(current_pal(Some(palette(true)), false), palette(true));
    assert_eq!((menu_font_height(96), menu_font_height(144), menu_font_height(10)), (-13, -19, -8));
    assert_eq!(on_trackbar_message(1, WM_ERASEBKGND, 0).answer, Some(1));
    let w = on_trackbar_message(3, WM_MOUSELEAVE, 0);
    assert!(w.tell_left && w.answer.is_none());
    assert!(!on_trackbar_message(1, WM_MOUSELEAVE, 0).tell_left);
    let w = on_trackbar_message(2, WM_KEYDOWN, VK_ESCAPE);
    assert!(w.close_menu && w.answer == Some(0));
    assert!(on_trackbar_message(2, WM_CHAR, 0x51).quit);
    assert!(on_trackbar_message(2, WM_CHAR, 0x71).quit);
    assert!(!on_trackbar_message(2, WM_CHAR, 0x72).quit);
    assert_eq!(slider_paint(CDDS_PREPAINT, 0, true, false), SliderPaint::Background);
    assert_eq!(slider_paint(CDDS_ITEMPREPAINT, TBCD_CHANNEL, true, false), SliderPaint::Channel);
    assert_eq!(
        slider_paint(CDDS_ITEMPREPAINT, TBCD_THUMB, false, false),
        SliderPaint::Thumb { gray: true }
    );
    assert_eq!(
        slider_paint(CDDS_ITEMPREPAINT, TBCD_THUMB, true, false),
        SliderPaint::Thumb { gray: false }
    );
    assert_eq!(slider_paint(CDDS_ITEMPREPAINT, 1, true, false), SliderPaint::Skip);
    assert_eq!(slider_paint(2, 0, true, false), SliderPaint::Default);
    let row = DevRow {
        name: "x".into(),
        vid: None,
        pid: None,
        rule_speed: None,
        rule_wheel: None,
        is_effective: false,
    };
    assert_eq!(row.clone().row_text(), "x  [----:----]");
    assert_eq!(KbTrigger { vk: 0x41 }.label(), "A");
    assert_eq!(TriggerBtn::Right.code(), 3);
}

#[test]
fn recorded_triggers_show_in_the_open_submenu() {
    let (mut ui, _, _) = fixture();
    ui.model.capturing = true;
    ui.on_capture_done(true, TriggerBtn::Middle.code());
    assert!(!ui.model.capturing && ui.sub_scroll.is_none());

    ui.sub_opened(1, SYS);
    ui.model.capturing = true;
    ui.on_capture_done(true, TriggerBtn::Middle.code());
    assert!(!ui.model.capturing);
    assert_eq!(ui.sub_scroll.map(|c| (c.enabled, c.trigger)), Some((true, TriggerBtn::Middle)));
    ui.on_capture_done(false, TriggerBtn::Left.code());
    ui.on_capture_done(true, 9);
    assert_eq!(ui.sub_scroll.map(|c| c.trigger), Some(TriggerBtn::Middle));

    // Either Control key is the Control key.
    ui.model.capturing = true;
    ui.on_key_captured(0xA3);
    assert!(!ui.model.capturing);
    assert_eq!(ui.sub_scroll.and_then(|c| c.kb_trigger), Some(KbTrigger { vk: 0x11 }));
    ui.model.capturing = true;
    ui.on_key_captured(VK_ESCAPE);
    assert!(!ui.model.capturing);
    assert_eq!(ui.sub_scroll.and_then(|c| c.kb_trigger), Some(KbTrigger { vk: 0x11 }));
}

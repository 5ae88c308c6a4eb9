use mouse_speed_switcher::baselines::Baselines;
use mouse_speed_switcher::config::Config;
use mouse_speed_switcher::devices::Device;
use mouse_speed_switcher::menu_model::{
    autostart_row_top, build_dev_rows, device_row_top, eff_row_top, effective_name, exit_row_top,
    hover_at, menu_height, reset_btn_rect, row_at, scroll_mode_top, scroll_sens_label_top,
    scroll_sens_slider_top, scroll_trigger_top, sub_action_top, sub_btn_at, sub_btn_rect,
    sub_btn_top, sub_height, sub_ptr_label_top, sub_ptr_slider_top, sub_row_at, sub_slider_rect,
    sub_wheel_label_top, sub_wheel_rect, sub_wheel_slider_top, tip_text, wheel_label_top,
    wheel_slider_top, DevRow, Dip, Hover, MenuAction, MenuModel, RowHit, INFO_ROW_H, PAD, ROW_H,
    SEP_H, SLIDER_H, SUB_INFO_TOP, SUB_ROW_H, SUB_SLIDER_H, SUB_W, TITLE_H,
};
use mouse_speed_switcher::scroll::TriggerBtn;
use mouse_speed_switcher::speed::SystemSpeed;
use mouse_speed_switcher::state::AppState;

/// The point in which a position between two points lies.
fn at(v: f32) -> Dip {
    v.floor() as Dip
}

fn dev(name: &str, vid: Option<&str>, pid: Option<&str>, rule: Option<u32>) -> DevRow {
    DevRow {
        name: name.into(),
        vid: vid.map(Into::into),
        pid: pid.map(Into::into),
        rule_speed: rule,
        rule_wheel: None,
        is_effective: false,
    }
}

#[test]
fn menu_model_device_row_text() {
    let d = dev("轨迹球", Some("046D"), Some("C52B"), Some(4));
    assert_eq!(d.row_text(), "轨迹球  [046D:C52B]");
    assert!(d.can_rule());

    let blind = dev("盲设备", None, None, None);
    assert_eq!(blind.row_text(), "盲设备  [----:----]");
    assert!(!blind.can_rule());
}

#[test]
fn menu_model_effective_tip_and_header() {
    assert_eq!(tip_text(7, 3, None), "鼠标灵敏度切换 - 指针: 7 · 滚轮: 3");
    assert_eq!(
        tip_text(4, 9, Some(("轨迹球", 4))),
        "鼠标灵敏度切换 - 指针: 4 · 滚轮: 9 · 生效规则: 轨迹球 (速度 4)"
    );
}

#[test]
fn menu_model_sub_action_enable_rules() {
    let full = dev("轨迹球", Some("046D"), Some("C52B"), Some(4));
    let a = full.sub_actions();
    assert_eq!(a[0], ("用当前速度保存规则", true));
    assert_eq!(a[1], ("删除此设备规则", true));
    assert_eq!(a[2], ("重新应用规则", true));
    assert_eq!(full.sub_info(), "VID:046D  PID:C52B");

    let no_rule = dev("鼠标", Some("1"), Some("2"), None);
    let a = no_rule.sub_actions();
    assert!(a[0].1, "保存规则仍可点");
    assert!(!a[1].1, "无规则时删除置灰");
    assert!(a[2].1);

    let blind = dev("盲设备", None, None, None);
    let a = blind.sub_actions();
    assert!(!a[0].1 && !a[1].1 && !a[2].1, "无 VID/PID 全部置灰");
    assert!(blind.sub_info().contains("----"));
}

#[test]
fn menu_model_menu_height_monotonic() {
    let h0 = menu_height(0) as f32;
    let h1 = menu_height(1) as f32;
    let h4 = menu_height(4) as f32;
    assert!(h0 < h1 && h1 < h4);
    assert!((h1 - h0 - (ROW_H - INFO_ROW_H) as f32).abs() < 1e-3);
    assert!((h4 - h1 - 3.0 * ROW_H as f32).abs() < 1e-3);
    assert!(device_row_top(0) > wheel_slider_top() + SLIDER_H);
    assert!(((wheel_slider_top() - wheel_label_top() - TITLE_H) as f32).abs() < 1e-3);
}

#[test]
fn row_hit_test_bounds() {
    let n = 4;
    assert_eq!(row_at(device_row_top(0) + 1, n), RowHit::Device(0));
    assert_eq!(
        row_at(at(device_row_top(3) as f32 + ROW_H as f32 - 0.5), n),
        RowHit::Device(3)
    );
    assert_eq!(row_at(scroll_mode_top() + 1, n), RowHit::ScrollMode);
    assert_eq!(row_at(scroll_trigger_top() + 1, n), RowHit::ScrollTrigger);
    assert_eq!(
        row_at(scroll_mode_top() - 1, n),
        RowHit::Other,
        "滚轮滑块与模式行之间的分隔带不是命令区"
    );
    assert_eq!(row_at(autostart_row_top(n) + 1, n), RowHit::Autostart);
    assert_eq!(row_at(exit_row_top(n) + 1, n), RowHit::Exit);
    assert_eq!(row_at(1, n), RowHit::Other);
    assert_eq!(row_at(wheel_label_top() + 1, n), RowHit::Other);
    assert_eq!(row_at(scroll_sens_label_top() + 1, n), RowHit::Other);
    assert_eq!(row_at(eff_row_top() + 1, n), RowHit::Other);
    assert_eq!(
        row_at(at(device_row_top(n) as f32 + SEP_H as f32 / 2.0), n),
        RowHit::Other
    );
    assert_eq!(row_at(menu_height(n) - 1, n), RowHit::Other);
    assert_eq!(row_at(device_row_top(0) + 1, 0), RowHit::Other);
}

#[test]
fn scroll_rows_layout_order() {
    assert!(scroll_mode_top() >= wheel_slider_top() + SLIDER_H);
    assert!(scroll_trigger_top() >= scroll_mode_top() + ROW_H);
    assert!(scroll_sens_slider_top() >= scroll_sens_label_top() + TITLE_H);
    assert!(eff_row_top() >= scroll_sens_slider_top() + SLIDER_H);
    assert!(device_row_top(0) > eff_row_top());
}

fn model() -> MenuModel {
    MenuModel {
        devs: vec![dev("A", Some("1"), Some("2"), None), dev("B", None, None, None)],
        effective: None,
        autostart_on: false,
        speed_val: 10,
        pending_speed: None,
        wheel_val: 3,
        pending_wheel: None,
        scroll_on: false,
        scroll_trigger: TriggerBtn::X1,
        scroll_px: 40,
        pending_scroll_px: None,
        capturing: false,
        sub_hover: None,
        sub_slider: None,
        sub_wheel: None,
        sub_pointer_inside: false,
        kb_focus: None,
    }
}

#[test]
fn hover_state_machine() {
    let mut m = model();
    m.update_hover(Some(0));
    assert_eq!(m.sub_hover, Some((0, device_row_top(0))));

    m.sub_pointer_inside = true;
    m.update_hover(None);
    assert!(m.sub_hover.is_some(), "移入子菜单不应关闭");

    m.sub_pointer_inside = false;
    m.update_hover(None);
    assert!(m.sub_hover.is_none(), "指针离开后应关闭");

    m.update_hover(None);
    assert!(m.sub_hover.is_none());
    m.update_hover(Some(1));
    assert_eq!(m.sub_hover, Some((1, device_row_top(1))));
}

#[test]
fn click_rows_produce_actions() {
    let n = 2;
    let m = model();
    assert_eq!(m.click_at(60, scroll_mode_top() + 5), vec![MenuAction::ToggleScrollMode]);
    assert_eq!(m.click_at(60, scroll_trigger_top() + 5), vec![MenuAction::CaptureTrigger]);
    assert_eq!(m.click_at(60, autostart_row_top(n) + 5), vec![MenuAction::ToggleAutostart]);
    assert_eq!(m.click_at(60, exit_row_top(n) + 5), vec![MenuAction::Exit]);
    assert!(m.click_at(60, device_row_top(0) + 5).is_empty());
    assert!(m.click_at(60, 1).is_empty());
}

#[test]
fn hover_and_click_reset_button() {
    let n = 2;
    let m = model();
    let (l, t, r, b) = reset_btn_rect();
    let cx = at((l + r) as f32 / 2.0);
    let cy = at((t + b) as f32 / 2.0);
    assert_eq!(hover_at(cx, cy, n), Some(Hover::Reset));
    assert_eq!(m.click_at(cx, cy), vec![MenuAction::ResetDefault]);
    assert_eq!(hover_at(l - 10, cy, n), None);
    assert_eq!(hover_at(60, device_row_top(0) + 5, n), Some(Hover::Device(0)));
}

#[test]
fn kb_focus_navigation_and_activation() {
    let mut m = model();
    assert_eq!(m.kb_activate(), vec![MenuAction::Exit], "无焦点时 Enter 退出（保底）");
    m.kb_focus_next();
    assert_eq!(m.kb_focus, Some(0));
    assert_eq!(m.kb_activate(), vec![MenuAction::ToggleScrollMode]);
    m.kb_focus_next();
    assert_eq!(m.kb_focus, Some(1));
    assert_eq!(m.kb_activate(), vec![MenuAction::CaptureTrigger]);
    m.kb_focus_next();
    assert_eq!(m.kb_focus, Some(2));
    assert!(m.kb_activate().is_empty(), "设备行 Enter 无动作");
    m.kb_focus_next();
    assert_eq!(m.kb_focus, Some(3));
    assert!(m.kb_activate().is_empty(), "设备行 Enter 无动作");
    m.kb_focus_next();
    assert_eq!(m.kb_activate(), vec![MenuAction::ToggleAutostart]);
    m.kb_focus_next();
    assert_eq!(m.kb_activate(), vec![MenuAction::Exit]);
    m.kb_focus_next();
    assert_eq!(m.kb_focus, Some(0));
    m.kb_focus_prev();
    assert_eq!(m.kb_focus, Some(5));
    m.kb_focus_prev();
    m.kb_focus_prev();
    assert_eq!(m.kb_focus, Some(3));
}

#[test]
fn slider_preview_then_commit() {
    let mut m = model();
    m.preview_speed(15);
    assert_eq!(m.pending_speed, Some(15));
    assert_eq!(m.speed_val, 10);
    assert_eq!(m.display_speed(), 15);
    m.preview_speed(0);
    assert_eq!(m.pending_speed, Some(1));
    m.preview_speed(99);
    assert_eq!(m.pending_speed, Some(20));
    assert_eq!(m.commit_speed(), Some(20));
    assert_eq!(m.speed_val, 20);
    assert_eq!(m.pending_speed, None);
    m.preview_speed(20);
    assert_eq!(m.commit_speed(), None);
    assert_eq!(m.speed_val, 20);
    assert_eq!(m.commit_speed(), None);
}

#[test]
fn wheel_slider_preview_then_commit() {
    let mut m = model();
    m.preview_wheel(0);
    assert_eq!(m.pending_wheel, Some(1), "下界夹取 1");
    m.preview_wheel(150);
    assert_eq!(m.pending_wheel, Some(100), "上界夹取 100");
    assert_eq!(m.display_wheel(), 100);
    assert_eq!(m.wheel_val, 3);
    assert_eq!(m.commit_wheel(), Some(100));
    assert_eq!(m.wheel_val, 100);
    m.preview_wheel(100);
    assert_eq!(m.commit_wheel(), None);
    assert_eq!(m.commit_wheel(), None);
}

#[test]
fn scroll_px_preview_then_commit() {
    let mut m = model();
    m.preview_scroll_px(0);
    assert_eq!(m.pending_scroll_px, Some(5), "下界夹取 5");
    m.preview_scroll_px(999);
    assert_eq!(m.pending_scroll_px, Some(200), "上界夹取 200");
    assert_eq!(m.display_scroll_px(), 200);
    assert_eq!(m.scroll_px, 40);
    assert_eq!(m.commit_scroll_px(), Some(200));
    assert_eq!(m.scroll_px, 200);
    m.preview_scroll_px(200);
    assert_eq!(m.commit_scroll_px(), None);
    assert_eq!(m.commit_scroll_px(), None);
}

#[test]
fn sub_slider_preview_clamped() {
    let mut m = model();
    assert_eq!(m.sub_slider, None);
    m.preview_sub_slider(7);
    assert_eq!(m.sub_slider, Some(7));
    m.preview_sub_slider(-3);
    assert_eq!(m.sub_slider, Some(1));
    m.preview_sub_slider(50);
    assert_eq!(m.sub_slider, Some(20));
    m.preview_sub_wheel(0);
    assert_eq!(m.sub_wheel, Some(1));
    m.preview_sub_wheel(150);
    assert_eq!(m.sub_wheel, Some(100));
    m.preview_sub_wheel(9);
    assert_eq!(m.sub_wheel, Some(9));
    assert_eq!(m.sub_slider, Some(20), "滚轮预览不影响指针预览");
}

#[test]
fn sub_layout_hit_tests() {
    assert!(sub_ptr_label_top() > SUB_INFO_TOP);
    assert!(sub_ptr_slider_top() >= sub_ptr_label_top() + SUB_ROW_H);
    assert!(sub_wheel_slider_top() >= sub_wheel_label_top() + SUB_ROW_H);
    assert!(sub_btn_top() >= sub_wheel_slider_top() + SUB_SLIDER_H);
    assert!(sub_action_top(0) >= sub_btn_top() + SUB_ROW_H);
    assert_eq!(sub_row_at(sub_action_top(0) + 1), Some(0));
    assert_eq!(
        sub_row_at(at(sub_action_top(2) as f32 + SUB_ROW_H as f32 - 0.5)),
        Some(2)
    );
    assert_eq!(sub_row_at(SUB_INFO_TOP + 1), None, "信息行不是操作行");
    assert_eq!(sub_row_at(sub_ptr_slider_top() + 1), None, "滑块行不是操作行");
    assert_eq!(sub_row_at(sub_height() - 1), None);
    let (bl, bt, br, bb) = sub_btn_rect();
    assert!(sub_btn_at(at((bl + br) as f32 / 2.0), at((bt + bb) as f32 / 2.0)));
    assert!(!sub_btn_at(at((bl + br) as f32 / 2.0), bt - 1));
    assert!(((br - bl - (SUB_W - 2 * PAD)) as f32).abs() < 0.5, "按钮为整行宽");
    let (sl, _st, sr, sb) = sub_slider_rect();
    let (wl, _wt, wr, _wb) = sub_wheel_rect();
    assert!(sb <= sub_wheel_label_top(), "指针滑块在滚轮标签之上");
    assert!(((sr - sl - (SUB_W - 2 * PAD)) as f32).abs() < 0.5);
    assert!(((wr - wl - (SUB_W - 2 * PAD)) as f32).abs() < 0.5);
}

#[test]
fn dev_row_rule_wheel() {
    let mut m = model();
    m.devs[0].rule_wheel = Some(9);
    assert_eq!(m.devs[0].rule_wheel, Some(9));
    assert_eq!(m.devs[1].rule_wheel, None);
}

#[test]
fn fresh_model_is_within_ranges() {
    let m = MenuModel::new(0, 0, true, true, TriggerBtn::Left, 2);
    assert_eq!((m.speed_val, m.wheel_val, m.scroll_px), (1, 1, 5));
    let m = MenuModel::new(50, 500, false, false, TriggerBtn::X2, 999);
    assert_eq!((m.speed_val, m.wheel_val, m.scroll_px), (20, 100, 200));
    assert!(m.devs.is_empty() && m.kb_focus.is_none() && m.scroll_trigger == TriggerBtn::X2);
}

#[test]
fn exact_layout() {
    assert_eq!(wheel_label_top(), 58);
    assert_eq!(wheel_slider_top(), 84);
    assert_eq!(scroll_mode_top(), 120);
    assert_eq!(eff_row_top(), 234);
    assert_eq!(device_row_top(2), 316);
    assert_eq!(autostart_row_top(0), autostart_row_top(1));
    assert_eq!(exit_row_top(3), 384);
    assert_eq!(menu_height(3), 416);
    assert_eq!(menu_height(0), 360);
    assert_eq!(sub_height(), 236);
}

#[test]
fn rows_of_devices_show_their_rules() {
    let mut cfg = Config::default();
    cfg.set_rule("046D", "C52B", 4, Some(9), None);
    let mice = vec![
        Device {
            instance_id: "I".into(),
            vid: Some("046D".into()),
            pid: Some("C52B".into()),
            name: "ball".into(),
        },
        Device { instance_id: "J".into(), vid: None, pid: None, name: "blind".into() },
        Device {
            instance_id: "K".into(),
            vid: Some("046d".into()),
            pid: Some("c52b".into()),
            name: "lower".into(),
        },
    ];
    let (mut st, _) = AppState::new(cfg, &mice);
    assert!(effective_name(&st).is_none());
    let _ = st.activate_rule("I", SystemSpeed { speed: 10, wheel: 3 });
    let rows = build_dev_rows(&mice, &st);
    assert_eq!((rows[0].rule_speed, rows[0].rule_wheel, rows[0].is_effective), (Some(4), Some(9), true));
    assert_eq!((rows[1].rule_speed, rows[1].rule_wheel, rows[1].is_effective), (None, None, false));
    // The same kind under other letters has the rule, but is not the one in force.
    assert_eq!((rows[2].rule_speed, rows[2].is_effective), (Some(4), false));
    assert_eq!(effective_name(&st), Some(("ball".to_string(), 4)));
    assert!(Baselines::new().is_empty());
}

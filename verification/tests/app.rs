use mouse_speed_switcher::app::{
    autostart_row_top, device_row_top, exit_row_top, menu_height, slot_rect, sub_height, tip_text,
    DevRow, FrameInput, Ink, MenuAction, MenuModel, Op, Shell, ShellInput, Target, TextId, SUB_W,
};
use mouse_speed_switcher::config::Config;
use mouse_speed_switcher::devices::Device;
use mouse_speed_switcher::menu_model::{Dip, INFO_ROW_H, ROW_H, SEP_H, SUB_ROW_H};
use mouse_speed_switcher::speed::{SpeedWrite, SystemSpeed};
use mouse_speed_switcher::state::AppState;

fn dev(name: &str, vid: Option<&str>, pid: Option<&str>, rule: Option<u32>) -> DevRow {
    DevRow {
        name: name.into(),
        vid: vid.map(Into::into),
        pid: pid.map(Into::into),
        rule_speed: rule,
        is_effective: false,
    }
}

#[test]
fn app_device_row_text() {
    let d = dev("轨迹球", Some("046D"), Some("C52B"), Some(4));
    assert_eq!(d.row_text(), "轨迹球  [046D:C52B]  · 规则 4");
    assert!(d.can_rule());

    let blind = dev("盲设备", None, None, None);
    assert_eq!(blind.row_text(), "盲设备  [----:----]");
    assert!(!blind.can_rule());
}

#[test]
fn app_effective_tip_and_header() {
    assert_eq!(tip_text(7, None), "鼠标灵敏度切换 - 当前指针速度: 7");
    assert_eq!(
        tip_text(4, Some(("轨迹球", 4))),
        "鼠标灵敏度切换 - 当前指针速度: 4 · 生效规则: 轨迹球 (速度 4)"
    );
}

#[test]
fn app_sub_action_enable_rules() {
    let full = dev("轨迹球", Some("046D"), Some("C52B"), Some(4));
    let a = full.sub_actions();
    assert_eq!(a[0], ("用当前速度保存规则", true));
    assert_eq!(a[1], ("删除此设备规则", true));
    assert_eq!(a[2], ("重新应用规则", true));
    assert_eq!(full.sub_info(), "VID:046D  PID:C52B");

    let no_rule = dev("鼠标", Some("1"), Some("2"), None);
    let a = no_rule.sub_actions();
    assert!(a[0].1, "保存规则仍可点");
    assert!(!a[1].1, "无规则时删除置灰");
    assert!(a[2].1);

    let blind = dev("盲设备", None, None, None);
    let a = blind.sub_actions();
    assert!(!a[0].1 && !a[1].1 && !a[2].1, "无 VID/PID 全部置灰");
    assert!(blind.sub_info().contains("----"));
}

#[test]
fn app_menu_height_monotonic() {
    let h0 = menu_height(0) as f32;
    let h1 = menu_height(1) as f32;
    let h4 = menu_height(4) as f32;
    assert!(h0 < h1 && h1 < h4);
    assert!((h1 - h0 - (ROW_H - INFO_ROW_H) as f32).abs() < 1e-3);
    assert!((h4 - h1 - 3.0 * ROW_H as f32).abs() < 1e-3);
}

fn model_4devs() -> MenuModel {
    MenuModel {
        devs: vec![
            dev("鼠标A", Some("1111"), Some("2222"), Some(4)),
            dev("鼠标B", Some("3333"), Some("4444"), None),
            dev("盲设备", None, None, None),
            dev("鼠标C", Some("5555"), Some("6666"), Some(7)),
        ],
        effective: Some(("鼠标A".into(), 4)),
        autostart_on: true,
        speed_val: 10,
        sub_hover: None,
        sub_pointer_inside: false,
    }
}

fn rect(l: Dip, t: Dip, r: Dip, b: Dip) -> egui::Rect {
    egui::Rect::from_min_max(egui::pos2(l as f32, t as f32), egui::pos2(r as f32, b as f32))
}

/// One frame of the toolkit on a screen of the given size.
fn in_frame<R>(
    ctx: &egui::Context,
    size: (Dip, Dip),
    events: Vec<egui::Event>,
    f: impl FnOnce(&mut egui::Ui) -> R,
) -> R {
    let screen = rect(0, 0, size.0, size.1);
    ctx.begin_pass(egui::RawInput {
        screen_rect: Some(screen),
        time: Some(1.0),
        events,
        ..Default::default()
    });
    let mut ui =
        egui::Ui::new(ctx.clone(), egui::Id::NULL, egui::UiBuilder::new().max_rect(screen));
    let r = f(&mut ui);
    let mut out = ctx.end_pass();
    out.textures_delta.clear();
    r
}

/// One frame of the menu: its slider and rows are put to the toolkit.
fn frame(m: &mut MenuModel, ctx: &egui::Context, events: Vec<egui::Event>) -> Vec<MenuAction> {
    in_frame(ctx, (600, 400), events, |ui| {
        let n = m.devs.len();
        ui.allocate_rect(rect(8, 30, 312, 58), egui::Sense::drag());
        let mut rows: Vec<(Target, Dip)> =
            (0..n).map(|i| (Target::Device(i), device_row_top(i))).collect();
        rows.push((Target::Autostart, autostart_row_top(n)));
        rows.push((Target::Exit, exit_row_top(n)));
        let (mut hovered, mut clicked) = (None, None);
        for (t, top) in rows {
            let sense = match t {
                Target::Device(_) => egui::Sense::hover(),
                _ => egui::Sense::click(),
            };
            let resp = ui.allocate_rect(rect(0, top, 320, top + ROW_H), sense);
            if resp.hovered() {
                hovered = Some(t);
            }
            if resp.clicked() {
                clicked = Some(t);
            }
        }
        m.draw(FrameInput { hovered, clicked, reset_clicked: false, slider: None })
    })
}

/// One frame of a submenu.
fn sub_frame(
    m: &MenuModel,
    ctx: &egui::Context,
    idx: usize,
    events: Vec<egui::Event>,
) -> (Vec<MenuAction>, bool) {
    in_frame(ctx, (SUB_W, sub_height()), events, |ui| {
        let inside = ui.input(|i| i.pointer.latest_pos().is_some());
        let mut clicked = None;
        for (slot, (_, enabled)) in m.devs[idx].sub_actions().into_iter().enumerate() {
            let (l, t, r, b) = slot_rect(slot);
            let sense = if enabled { egui::Sense::click() } else { egui::Sense::hover() };
            if ui.allocate_rect(rect(l, t, r, b), sense).clicked() {
                clicked = Some(slot);
            }
        }
        m.draw_submenu(idx, inside, clicked)
    })
}

fn moved_to(x: Dip, y: Dip) -> egui::Event {
    egui::Event::PointerMoved(egui::pos2(x as f32, y as f32))
}

fn button(x: Dip, y: Dip, pressed: bool) -> egui::Event {
    egui::Event::PointerButton {
        pos: egui::pos2(x as f32, y as f32),
        button: egui::PointerButton::Primary,
        pressed,
        modifiers: Default::default(),
    }
}

fn click_events(x: Dip, y: Dip) -> Vec<egui::Event> {
    vec![moved_to(x, y), button(x, y, true), button(x, y, false)]
}

#[test]
fn sim_hover_device_opens_submenu_and_moves_close_it() {
    let ctx = egui::Context::default();
    let mut m = model_4devs();
    frame(&mut m, &ctx, vec![]);
    frame(&mut m, &ctx, vec![]);

    frame(&mut m, &ctx, vec![moved_to(60, 109)]);
    assert!(m.sub_hover.is_some(), "悬停设备行应打开子菜单");
    assert_eq!(m.sub_hover.unwrap().0, 0);

    m.sub_pointer_inside = true;
    frame(&mut m, &ctx, vec![egui::Event::PointerGone]);
    assert!(m.sub_hover.is_some(), "移入子菜单不应关闭");

    m.sub_pointer_inside = false;
    frame(&mut m, &ctx, vec![egui::Event::PointerGone]);
    assert!(m.sub_hover.is_none(), "指针离开子菜单且不在设备行应关闭");

    let auto_y = device_row_top(4) + 8 + ROW_H / 2;
    frame(&mut m, &ctx, vec![moved_to(60, auto_y)]);
    assert!(m.sub_hover.is_none(), "非设备行无子菜单");
}

#[test]
fn sim_click_sub_actions_respect_enabled() {
    let ctx = egui::Context::default();
    let m = model_4devs();
    sub_frame(&m, &ctx, 1, vec![]);
    sub_frame(&m, &ctx, 1, vec![]);

    let del_y = (4.0 + SUB_ROW_H as f32 * 2.5) as Dip;
    let (a, _) = sub_frame(&m, &ctx, 1, click_events(90, del_y));
    assert!(
        !a.iter().any(|x| matches!(x, MenuAction::DelRule(_))),
        "置灰的删除规则不应产生动作: {a:?}"
    );

    sub_frame(&m, &ctx, 0, vec![]);
    let (a, _) = sub_frame(&m, &ctx, 0, click_events(90, del_y));
    assert!(a.contains(&MenuAction::DelRule(0)), "有规则时删除规则应可点: {a:?}");

    let (a, _) =
        sub_frame(&m, &ctx, 2, click_events(90, (4.0 + SUB_ROW_H as f32 * 1.5) as Dip));
    assert!(
        !a.iter().any(|x| matches!(
            x,
            MenuAction::SetRule(_) | MenuAction::DelRule(_) | MenuAction::Reapply(_)
        )),
        "盲设备不应产生任何动作: {a:?}"
    );
}

#[test]
fn sim_click_rows() {
    let ctx = egui::Context::default();
    let mut m = model_4devs();
    frame(&mut m, &ctx, vec![]);
    frame(&mut m, &ctx, vec![]);

    let auto_y = device_row_top(4) + 8 + ROW_H / 2;
    let a = frame(&mut m, &ctx, click_events(60, auto_y));
    assert!(a.contains(&MenuAction::ToggleAutostart), "自启行点击: {a:?}");

    let exit_y = auto_y + ROW_H + SEP_H + ROW_H / 2;
    let a = frame(&mut m, &ctx, click_events(60, exit_y));
    assert!(a.contains(&MenuAction::Exit), "退出行点击: {a:?}");

    let a = frame(&mut m, &ctx, click_events(60, device_row_top(2) + 13));
    assert!(
        !a.iter().any(|x| matches!(
            x,
            MenuAction::SetRule(_) | MenuAction::DelRule(_) | MenuAction::Reapply(_)
        )),
        "设备标题行点击不应产生设备命令: {a:?}"
    );
    assert!(m.sub_hover.is_some(), "但应悬停展开子菜单");
}

#[test]
fn dragging_the_slider_over_a_row_opens_nothing() {
    let ctx = egui::Context::default();
    let mut m = model_4devs();
    frame(&mut m, &ctx, vec![]);
    frame(&mut m, &ctx, vec![]);
    frame(&mut m, &ctx, vec![moved_to(60, 44), button(60, 44, true)]);
    frame(&mut m, &ctx, vec![moved_to(60, 109)]);
    frame(&mut m, &ctx, vec![]);
    assert!(m.sub_hover.is_none());
    frame(&mut m, &ctx, vec![button(60, 109, false)]);
    frame(&mut m, &ctx, vec![]);
    assert_eq!(m.sub_hover, Some((0, 96)));
}

#[test]
fn slider_and_reset_ask_in_order() {
    let mut m = model_4devs();
    let a = m.draw(FrameInput {
        hovered: None,
        clicked: None,
        reset_clicked: true,
        slider: Some(33),
    });
    assert_eq!(a, vec![MenuAction::ResetSpeed, MenuAction::SetSpeed(20)]);
    assert_eq!(m.speed_val, 20);
}

#[test]
fn submenu_actions_and_pointer() {
    let m = model_4devs();
    assert_eq!(m.draw_submenu(0, false, None), (vec![], false));
    assert_eq!(m.draw_submenu(0, true, None), (vec![], true));
    assert_eq!(m.draw_submenu(0, true, Some(0)), (vec![MenuAction::SetRule(0)], true));
    assert_eq!(m.draw_submenu(0, true, Some(1)).0, vec![MenuAction::DelRule(0)]);
    assert_eq!(m.draw_submenu(3, true, Some(2)).0, vec![MenuAction::Reapply(3)]);
    assert_eq!(m.draw_submenu(1, true, Some(1)).0, vec![]);
    assert_eq!(m.draw_submenu(0, true, Some(3)).0, vec![]);
    assert_eq!(m.draw_submenu(9, true, Some(0)), (vec![], true));
    assert_eq!(sub_height(), 104);
    assert_eq!(slot_rect(0), (2, 28, 178, 52));
    assert_eq!(slot_rect(2), (2, 76, 178, 100));
    assert_eq!((autostart_row_top(4), exit_row_top(4)), (208, 242));
    assert_eq!((autostart_row_top(0), exit_row_top(0)), (126, 160));
}

#[test]
fn drawing_rows() {
    let mut m = model_4devs();
    m.devs[0].is_effective = true;
    let ops = m.paint(Some(Target::Device(0)));
    assert_eq!(ops[0], Op::Separator { y: 62 });
    assert_eq!(ops[1], Op::Text { id: TextId::Effective, x: 8, cy: 77, ink: Ink::Gray });
    assert_eq!(ops[3], Op::Highlight { left: 0, top: 96, right: 320, bottom: 122 });
    assert_eq!(ops[4], Op::Check { cy: 109, ink: Ink::OnHighlight });
    assert_eq!(ops[5], Op::Text { id: TextId::Device(0), x: 26, cy: 109, ink: Ink::OnHighlight });
    assert_eq!(ops[6], Op::Text { id: TextId::Device(1), x: 26, cy: 135, ink: Ink::Normal });
    assert_eq!(
        ops.last(),
        Some(&Op::Text { id: TextId::Exit, x: 26, cy: 255, ink: Ink::Normal })
    );
    assert_eq!(m.effective_row_text(), "生效规则: 鼠标A (速度 4)");
    m.effective = None;
    assert_eq!(m.effective_row_text(), "生效规则: 无");
    m.devs.clear();
    let ops = m.paint(None);
    assert_eq!(ops[3], Op::Text { id: TextId::NoDevice, x: 8, cy: 107, ink: Ink::Gray });
    assert!(m.paint_submenu(0, None).is_empty());
    let m = model_4devs();
    let ops = m.paint_submenu(1, Some(1));
    assert_eq!(ops[0], Op::Text { id: TextId::Info, x: 8, cy: 16, ink: Ink::Gray });
    // Greyed out actions are never highlighted.
    assert_eq!(ops[2], Op::Text { id: TextId::Action(1), x: 8, cy: 64, ink: Ink::Gray });
    assert_eq!(ops.len(), 4);
}

fn mice() -> Vec<Device> {
    vec![
        Device {
            instance_id: "I".into(),
            vid: Some("1111".into()),
            pid: Some("2222".into()),
            name: "鼠标A".into(),
        },
        Device { instance_id: "J".into(), vid: None, pid: None, name: "盲设备".into() },
    ]
}

#[test]
fn actions_change_the_state() {
    let sys = SystemSpeed { speed: 6, wheel: 4 };
    let (mut st, _) = AppState::new(Config::default(), &mice());
    let mut m = model_4devs();
    m.refresh_data(&mice(), &st);
    assert_eq!(m.devs.len(), 2);
    assert!(m.effective.is_none() && m.devs[0].rule_speed.is_none());

    let out = m.run_action(&mut st, MenuAction::SetRule(0), sys);
    assert!(out.save && out.close && out.tip && !out.exit);
    assert_eq!(out.writes, vec![SpeedWrite::Pointer(6)]);
    m.refresh_data(&mice(), &st);
    assert_eq!((m.devs[0].rule_speed, m.devs[0].is_effective), (Some(6), true));
    assert_eq!(m.effective, Some(("鼠标A".to_string(), 6)));

    // A device without ids stores nothing, though the menu closes.
    let out = m.run_action(&mut st, MenuAction::SetRule(1), sys);
    assert!(!out.save && out.close && out.writes.is_empty());

    let out = m.run_action(&mut st, MenuAction::DelRule(0), sys);
    assert!(out.save);
    assert_eq!(out.writes, vec![SpeedWrite::Pointer(10), SpeedWrite::Wheel(3)]);

    let out = m.run_action(&mut st, MenuAction::ResetSpeed, sys);
    assert_eq!((m.speed_val, out.writes), (10, vec![SpeedWrite::Pointer(10)]));
    let out = m.run_action(&mut st, MenuAction::SetSpeed(3), sys);
    assert_eq!(out.writes, vec![SpeedWrite::Pointer(3)]);
    assert!(!out.close);
    assert!(m.run_action(&mut st, MenuAction::ToggleAutostart, sys).toggle_autostart);
    assert!(m.run_action(&mut st, MenuAction::Exit, sys).exit);
    assert!(m.run_action(&mut st, MenuAction::Reapply(0), sys).close);
}

fn quiet() -> ShellInput {
    ShellInput { tips: vec![], dirty: false, tray_click: false, escape: false, focused: None }
}

#[test]
fn shell_opens_and_closes() {
    let mut s = Shell {
        menu_open: false,
        ever_focused: false,
        last_tip: "a".into(),
        debug: false,
        debug_opened: false,
    };
    let mut m = model_4devs();
    let w = s.poll(&ShellInput {
        tips: vec!["a".into(), "b".into(), "b".into(), "a".into()],
        dirty: true,
        tray_click: true,
        ..quiet()
    });
    assert_eq!(w.tips, vec!["b".to_string(), "a".to_string()]);
    assert!(w.open && w.took_click && !w.refresh && !w.close);
    s.opened(&mut m, 5, false);
    assert!(s.menu_open && m.speed_val == 5 && !m.autostart_on);

    // Without having had the focus, losing it means nothing.
    assert!(!s.poll(&ShellInput { focused: Some(false), ..quiet() }).close);
    assert!(!s.poll(&ShellInput { focused: Some(true), dirty: true, ..quiet() }).close);
    assert!(s.ever_focused);
    assert!(s.poll(&ShellInput { focused: Some(false), ..quiet() }).close);
    assert!(s.poll(&ShellInput { escape: true, ..quiet() }).close);
    assert!(s.poll(&ShellInput { dirty: true, ..quiet() }).refresh);
    s.closed(&mut m);
    assert!(!s.poll(&ShellInput { escape: true, ..quiet() }).close);

    s.debug = true;
    assert!(s.poll(&quiet()).open && s.debug_opened);
    assert!(!s.poll(&quiet()).open);
}

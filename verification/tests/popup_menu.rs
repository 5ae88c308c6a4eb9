use mouse_speed_switcher::commands::IDM_AUTOSTART;
use mouse_speed_switcher::place::ScreenRect;
use mouse_speed_switcher::popup_menu::{
    build_items, hit_test, layout_items, makelparam, on_tray_click, scale, DevMenu, ItemKind, MenuHeader, MenuState, PopupClick, PopupInk, PopupOp,
};
use mouse_speed_switcher::speed::SpeedWrite;

fn dev(name: &str, vid: Option<&str>, pid: Option<&str>, rule: Option<u32>) -> DevMenu {
    DevMenu {
        name: name.into(),
        vid: vid.map(Into::into),
        pid: pid.map(Into::into),
        rule_speed: rule,
        is_effective: false,
        cmds: [100, 101, 102],
    }
}

fn empty_header() -> MenuHeader {
    MenuHeader { effective_text: None, autostart_on: false }
}

#[test]
fn collapsed_no_subitems() {
    let items = build_items(
        &vec![dev("轨迹球", Some("046d"), Some("c52b"), Some(4))],
        None,
        &empty_header(),
    );
    assert_eq!(items.len(), 3);
    assert_eq!(items[0].kind, ItemKind::DeviceTitle);
    assert!(items[0].clickable(), "设备标题可悬停触发展开");
    assert_eq!(items[0].cmd(), None, "设备标题点击无命令");
    assert_eq!(items[0].device_idx, 0);
}

#[test]
fn expanded_shows_subitems() {
    let items = build_items(
        &vec![dev("轨迹球", Some("046d"), Some("c52b"), Some(4))],
        Some(0),
        &empty_header(),
    );
    assert_eq!(items.len(), 7);
    assert_eq!(items[0].kind, ItemKind::DeviceTitle);
    assert_eq!(items[1].kind, ItemKind::Info, "展开区第一行是 VID/PID 信息");
    assert_eq!(items[2].text, "用当前速度保存规则");
    let del = &items[3];
    assert!(del.clickable(), "有规则时删除规则可点");
}

#[test]
fn device_row_carries_rule_marker() {
    let mut d = dev("ELECOM 轨迹球", Some("046d"), Some("c52b"), Some(4));
    d.is_effective = true;
    let items = build_items(&vec![d], None, &empty_header());
    let title = &items[0];
    assert!(title.text.contains("· 规则 4"), "设备行带规则标记: {}", title.text);
    assert!(title.text.contains("✓生效中"), "生效中带勾选文本: {}", title.text);
    assert!(title.checked, "生效设备行画勾选标记");
}

#[test]
fn delete_rule_disabled_without_rule() {
    let items =
        build_items(&vec![dev("鼠标", Some("1"), Some("2"), None)], Some(0), &empty_header());
    assert!(!items[3].clickable(), "无规则时删除规则置灰");
    assert!(items[2].clickable());
    assert!(items[4].clickable());
}

#[test]
fn all_disabled_without_vid_pid() {
    let items = build_items(&vec![dev("盲设备", None, None, None)], Some(0), &empty_header());
    assert!(!items[2].clickable());
    assert!(!items[3].clickable());
    assert!(!items[4].clickable());
    assert!(items[1].text.contains("----"));
}

#[test]
fn empty_devices_placeholder() {
    let items = build_items(&vec![], None, &empty_header());
    assert_eq!(items.len(), 3);
    assert_eq!(items[0].kind, ItemKind::Info);
    assert!(!items[0].clickable());
}

#[test]
fn header_effective_line_when_multiple_rules() {
    let h = MenuHeader {
        effective_text: Some("生效规则: a (速度 4)".into()),
        autostart_on: false,
    };
    let items = build_items(
        &vec![dev("a", Some("v"), Some("p"), Some(4)), dev("b", Some("v"), Some("p"), Some(7))],
        None,
        &h,
    );
    assert_eq!(items[0].kind, ItemKind::Info);
    assert!(items[0].text.contains("生效规则: a"));
    assert_eq!(items[1].kind, ItemKind::Separator);
}

#[test]
fn no_header_line_for_single_rule() {
    let h = MenuHeader { effective_text: None, autostart_on: false };
    let items = build_items(&vec![dev("a", Some("v"), Some("p"), Some(4))], None, &h);
    assert_eq!(items[0].kind, ItemKind::DeviceTitle, "单规则时无顶部说明行");
}

#[test]
fn layout_monotonic_and_totals() {
    let mut items = build_items(
        &vec![dev("a", Some("v"), Some("p"), Some(4)), dev("b", Some("v"), Some("p"), None)],
        None,
        &MenuHeader { effective_text: None, autostart_on: true },
    );
    let bottom = layout_items(&mut items, 100, 26, 9);
    let rows = items.iter().filter(|i| i.kind != ItemKind::Separator).count() as i32;
    let seps = (items.len() as i32) - rows;
    assert_eq!(bottom, 100 + rows * 26 + seps * 9);
    let mut prev = 100;
    for it in &items {
        assert_eq!(it.y, prev);
        prev += it.h;
    }
}

#[test]
fn hit_test_skips_disabled() {
    let mut items =
        build_items(&vec![dev("鼠标", Some("1"), Some("2"), None)], Some(0), &empty_header());
    layout_items(&mut items, 0, 26, 9);
    let it = &items[3];
    assert_eq!(hit_test(&items, it.y + 1), None);
    let it = &items[2];
    assert_eq!(hit_test(&items, it.y + 1), Some(2));
    let it = &items[0];
    assert_eq!(hit_test(&items, it.y + 1), Some(0));
}

#[test]
fn autostart_checked() {
    let h = MenuHeader { effective_text: None, autostart_on: true };
    let items = build_items(&vec![dev("a", Some("v"), Some("p"), None)], None, &h);
    let last = items.last().unwrap();
    assert_eq!(last.kind, ItemKind::Checkable { cmd: IDM_AUTOSTART, checked: true });
    assert!(last.text == "开机自启");
    assert!(last.checked);
}

fn two_devices() -> Vec<DevMenu> {
    let mut b = dev("b", Some("3"), Some("4"), Some(5));
    b.cmds = [103, 104, 105];
    b.is_effective = true;
    vec![dev("a", Some("1"), Some("2"), None), b]
}

const WORK: ScreenRect = ScreenRect { left: 0, top: 0, right: 1920, bottom: 1040 };

fn opened() -> (MenuState, i32) {
    let (st, p) =
        MenuState::open(two_devices(), empty_header(), 96, (1900, 1030), Some(WORK), 1000, 7);
    assert_eq!((p.w, p.x, p.y), (320, 1600, 1040 - p.h));
    (st, p.h)
}

#[test]
fn menu_opens_collapsed_inside_the_work_area() {
    let (st, h) = opened();
    // Slider, two titles with separators, autostart, margin.
    assert_eq!(h, 72 + 2 * (26 + 9) + 26 + 4);
    assert_eq!(st.speed_label, "指针速度: 7");
    assert_eq!(st.items[0].y, 72);
    assert!(st.expanded_device.is_none() && st.hover.is_none());
    let (_, p) = MenuState::open(vec![], empty_header(), 144, (5, 6), None, 0, 1);
    assert_eq!((p.x, p.y, p.w), (5, 6, 480));
}

#[test]
fn pointing_at_a_title_expands_it() {
    let (mut st, h) = opened();
    let y = st.items[2].y + 1;
    let out = st.on_mouse_move(y, 96, h);
    assert!(out.track_leave && out.redraw_all);
    assert_eq!(out.redraw, vec![(st.items[2].y, st.items[2].y + 26)]);
    assert_eq!(out.resize, Some(h + 4 * 26));
    assert_eq!(st.expanded_device, Some(1));
    assert_eq!(st.hover, None);
    // Again: now only the highlight changes.
    let out = st.on_mouse_move(y, 96, h + 4 * 26);
    assert!(!out.redraw_all && out.resize.is_none());
    assert_eq!(st.hover, Some(2));
    // The store command of the second device closes the menu.
    let item = &st.items[4];
    assert_eq!(st.on_click(item.y + 1), Some((103, true)));
    // A title runs nothing; autostart keeps the menu open.
    assert_eq!(st.on_click(st.items[2].y + 1), None);
    let last = st.items.last().unwrap();
    assert_eq!(st.on_click(last.y), Some((901, false)));
    st.on_mouse_leave();
    assert_eq!(st.hover, None);
}

#[test]
fn losing_the_focus_closes_after_a_grace() {
    let (st, _) = opened();
    assert!(!st.closes_on_deactivate(1500));
    assert!(st.closes_on_deactivate(1501));
    assert!(!st.closes_on_deactivate(3));
}

#[test]
fn slider_sets_the_speed_within_range() {
    let (mut st, _) = opened();
    assert_eq!(st.apply_speed(0), SpeedWrite::Pointer(1));
    assert_eq!(st.speed_label, "指针速度: 1");
    assert_eq!(st.apply_speed(12), SpeedWrite::Pointer(12));
    assert_eq!(st.apply_speed(99), SpeedWrite::Pointer(20));
    assert_eq!(st.speed_label, "指针速度: 20");
    assert_eq!(st.on_reset(), SpeedWrite::Pointer(10));
    assert_eq!(st.speed_label, "指针速度: 10");
    assert_eq!(on_tray_click(true), PopupClick::BringToFront);
    assert_eq!(on_tray_click(false), PopupClick::Open);
}

#[test]
fn drawing_the_menu() {
    let (mut st, _) = opened();
    st.hover = Some(0);
    let ops = st.paint(320, 96);
    assert_eq!(ops[0], PopupOp::Title { left: 8, top: 4, right: 210, bottom: 20 });
    assert_eq!(ops[1], PopupOp::Fill { top: 72, bottom: 98 });
    assert_eq!(
        ops[2],
        PopupOp::Text { item: 0, left: 8, top: 72, right: 296, bottom: 98, ink: PopupInk::Highlighted }
    );
    assert_eq!(ops[3], PopupOp::Line { left: 8, right: 312, y: 102 });
    // The device whose rule is in force has a check mark.
    assert_eq!(ops[4], PopupOp::Check { x0: 304, y0: 120, x1: 307, y1: 124, x2: 312, y2: 116 });
    assert_eq!(
        ops.last(),
        Some(&PopupOp::Text {
            item: 4,
            left: 22,
            top: 142,
            right: 296,
            bottom: 168,
            ink: PopupInk::Normal
        })
    );
}

#[test]
fn scaling_rounds_to_the_nearest_pixel() {
    assert_eq!(scale(26, 96), 26);
    assert_eq!(scale(26, 120), 33);
    assert_eq!(scale(9, 120), 11);
    assert_eq!(scale(0, 200), 0);
    assert_eq!(makelparam(1, 20), 20 * 65536 + 1);
}

use mouse_speed_switcher::autostart::run_value;
use mouse_speed_switcher::config::Rule;
use mouse_speed_switcher::devices::Device;
use mouse_speed_switcher::diag::{device_line, rule_line};
use mouse_speed_switcher::icon::icon_rgba;
use mouse_speed_switcher::input_probe::{key_line, key_name, mouse_line, mouse_msg_name};
use mouse_speed_switcher::place::{
    clamp_to_work_area, cursor_inside_window, dip_from_px, makelong, place_submenu,
    point_from_lparam, px_from_dip, ScreenRect,
};
use mouse_speed_switcher::speed::{clamp_speed, clamp_wheel, SpeedWrite, SystemSpeed};
use mouse_speed_switcher::text::{
    eq_ignore_case, find_chars, chars_of, to_dec, to_dec_signed, to_hex2, to_hex_padded, to_upper,
};
use mouse_speed_switcher::win32::focus::{
    is_user_window, restore, Restore, WindowInfo, WS_EX_APPWINDOW, WS_EX_NOACTIVATE,
    WS_EX_TOOLWINDOW,
};
use mouse_speed_switcher::win32::tray::{tray_icon_size, uid, wide, Tray};

#[test]
fn numerals_and_letters() {
    assert_eq!(to_dec(0), "0");
    assert_eq!(to_dec(u32::MAX), u32::MAX.to_string());
    assert_eq!(to_dec_signed(i32::MIN), i32::MIN.to_string());
    assert_eq!(to_dec_signed(7), "7");
    assert_eq!(to_hex2(5, true), "05");
    assert_eq!(to_hex2(0xABC, false), "abc");
    assert_eq!(to_hex_padded(0x20B, 4, false), "020b");
    assert_eq!(to_upper("aZ轨é1"), "AZ轨é1");
    assert!(eq_ignore_case("aB", "Ab") && !eq_ignore_case("a", "ab"));
    assert_eq!(find_chars(&chars_of("xVID_VID_"), &chars_of("VID_")), Some(1));
    assert_eq!(find_chars(&chars_of("ab"), &chars_of("abc")), None);
    assert_eq!(find_chars(&chars_of("ab"), &chars_of("")), Some(0));
}

#[test]
fn system_settings_keep_to_their_ranges() {
    assert_eq!((clamp_speed(0), clamp_speed(21), clamp_speed(7)), (1, 20, 7));
    assert_eq!((clamp_wheel(0), clamp_wheel(u32::MAX), clamp_wheel(7)), (1, 100, 7));
    let mut s = SystemSpeed { speed: 10, wheel: 3 };
    s.write_all(&vec![SpeedWrite::Pointer(99), SpeedWrite::Wheel(0), SpeedWrite::Pointer(4)]);
    assert_eq!(s, SystemSpeed { speed: 4, wheel: 1 });
}

#[test]
fn windows_are_placed_inside_the_work_area() {
    let work = ScreenRect { left: -100, top: 0, right: 500, bottom: 300 };
    assert_eq!(clamp_to_work_area(490, 290, 200, 100, Some(work)), (300, 200));
    assert_eq!(clamp_to_work_area(-500, 5, 200, 100, Some(work)), (-100, 5));
    assert_eq!(clamp_to_work_area(3, 4, 900, 900, Some(work)), (-100, 0));
    assert_eq!(clamp_to_work_area(3, 4, 900, 900, None), (3, 4));
    let owner = ScreenRect { left: 200, top: 50, right: 420, bottom: 250 };
    assert_eq!(place_submenu(owner, 420, 30, 70, 100, work), (420, 80));
    assert_eq!(place_submenu(owner, 420, 230, 100, 100, work), (100, 200));
    let wide_owner = ScreenRect { left: -90, ..owner };
    assert_eq!(place_submenu(wide_owner, 420, 30, 100, 100, work), (420, 80));
    assert!(cursor_inside_window(200, 50, Some(owner)));
    assert!(!cursor_inside_window(420, 50, Some(owner)) && !cursor_inside_window(0, 0, None));
}

#[test]
fn points_and_pixels() {
    assert_eq!(px_from_dip(26, 120), 33);
    assert_eq!(px_from_dip(22, 144), 33);
    assert_eq!(px_from_dip(1, 144), 2);
    assert_eq!(dip_from_px(33, 120), 26);
    assert_eq!(dip_from_px(32, 120), 25);
    assert_eq!(dip_from_px(-1, 96), -1);
    assert_eq!(dip_from_px(-1, 192), -1);
    assert_eq!(dip_from_px(-4, 192), -2);
    assert_eq!(point_from_lparam(0xFFFE_0003), (3, -2));
    assert_eq!(makelong(1, 20), 0x0014_0001);
    assert_eq!(makelong(-1, -2), 0xFFFE_FFFF);
}

#[test]
fn icon_is_a_disc_with_a_pointer() {
    let p = icon_rgba();
    assert_eq!(p.len(), 32 * 32 * 4);
    let at = |x: usize, y: usize| {
        let i = (y * 32 + x) * 4;
        [p[i], p[i + 1], p[i + 2], p[i + 3]]
    };
    let c = 15.5f32;
    for y in 0..32usize {
        for x in 0..32usize {
            let dx = x as f32 - c;
            let dy = y as f32 - c;
            let want = if (dx * dx + dy * dy).sqrt() > c {
                [0, 0, 0, 0]
            } else if dy > -2.0 && dy < 8.0 && dx > -6.0 + dy * 0.45 && dx < -1.0 + dy * 0.45 {
                [0xFF, 0xFF, 0xFF, 0xFF]
            } else {
                [0x00, 0x78, 0xD7, 0xFF]
            };
            assert_eq!(at(x, y), want, "{x},{y}");
        }
    }
}

#[test]
fn autostart_value_is_quoted() {
    assert_eq!(run_value(""), None);
    let want: Vec<u16> = "\"C:\\a b.exe\"\0".encode_utf16().collect();
    assert_eq!(run_value("C:\\a b.exe"), Some(want));
}

#[test]
fn probe_lines() {
    assert_eq!(mouse_msg_name(0x020A), "WHEEL");
    assert_eq!(mouse_msg_name(0), "OTHER");
    assert_eq!(key_name(3), "mouse-ish");
    assert_eq!(key_name(0xA5), "AltGr");
    assert_eq!(key_name(0x0C), "vk=0x0c");
    assert_eq!(mouse_line(0x0200, 0, 0), None);
    assert_eq!(
        mouse_line(0x020A, 0xFF88_0000, 1).unwrap(),
        "mouse msg=0x020a (WHEEL) xbtn_hi=65416 wheel_hi=-120 flags=0x1 injected=true"
    );
    assert_eq!(
        mouse_line(0x020B, 0x10000, 0).unwrap(),
        "mouse msg=0x020b (X1/X2-DOWN) xbtn_hi=1 wheel_hi=1 flags=0x0 injected=false"
    );
    assert_eq!(
        key_line(0x0100, 0xA4, 0x30),
        "key Alt down=true injected=true flags=0x30"
    );
    assert_eq!(
        key_line(0x0101, 0x41, 0x80),
        "key vk=0x41 down=false injected=false flags=0x80"
    );
}

#[test]
fn diagnosis_lines() {
    let mut r = Rule {
        vid: "046D".into(),
        pid: "C52B".into(),
        speed: 4,
        wheel: None,
        scroll: None,
        note: Some("ball".into()),
        alias: None,
    };
    assert_eq!(rule_line(&r), "  VID:046D PID:C52B -> 速度 4 ball");
    r.note = None;
    assert_eq!(rule_line(&r), "  VID:046D PID:C52B -> 速度 4 ");
    let d = Device {
        instance_id: "HID\\1".into(),
        vid: None,
        pid: Some("C52B".into()),
        name: "n".into(),
    };
    assert_eq!(device_line(&d), "  n  | VID:----  PID:C52B  | 实例:HID\\1");
}

fn window(pid: u32, class: &str) -> WindowInfo {
    WindowInfo {
        valid: true,
        visible: true,
        pid,
        ex_style: 0,
        has_owner: false,
        class: class.into(),
        cloaked: 0,
    }
}

#[test]
fn focus_goes_back_to_the_user() {
    assert!(is_user_window(&window(2, "Notepad"), 1));
    assert!(!is_user_window(&window(1, "Notepad"), 1));
    assert!(!is_user_window(&window(2, "shell_traywnd"), 1));
    assert!(!is_user_window(&WindowInfo { cloaked: 2, ..window(2, "x") }, 1));
    assert!(!is_user_window(&WindowInfo { visible: false, ..window(2, "x") }, 1));
    assert!(!is_user_window(&WindowInfo { valid: false, ..window(2, "x") }, 1));
    assert!(!is_user_window(&WindowInfo { has_owner: true, ..window(2, "x") }, 1));
    assert!(!is_user_window(&WindowInfo { ex_style: WS_EX_TOOLWINDOW, ..window(2, "x") }, 1));
    assert!(!is_user_window(&WindowInfo { ex_style: WS_EX_NOACTIVATE, ..window(2, "x") }, 1));
    assert!(is_user_window(
        &WindowInfo { ex_style: WS_EX_APPWINDOW, has_owner: true, ..window(2, "x") },
        1
    ));
    let list = vec![window(1, "MSS_Menu"), window(3, "Progman"), window(4, "App"), window(5, "B")];
    assert_eq!(restore(&window(2, "Notepad"), &list, 1), Restore::Leave);
    assert_eq!(restore(&window(1, "MSS_Menu"), &list, 1), Restore::Give(2));
    assert_eq!(restore(&window(1, "MSS_Menu"), &vec![], 1), Restore::NoTarget);
}

#[test]
fn tray_icon_and_tool_tip() {
    assert_eq!(uid(), 1);
    assert!(Tray::is_click_up(0x0202) && Tray::is_click_up(0x7_0205));
    assert!(!Tray::is_click_up(0x0201));
    assert!(Tray::is_click_up(-0x10000 + 0x0205));
    assert!(!Tray::is_click_up(-1));
    let mut t = Tray { added: false, tip: String::new() };
    assert!(!t.set_tip("a"));
    t.add("a", false);
    assert!(!t.added && t.last_tip() == "a");
    t.add("a", true);
    assert!(!t.set_tip("a"));
    assert!(t.set_tip("b") && t.last_tip() == "b");
    assert!(t.remove() && !t.remove());
    let mut buf = vec![9u16; 4];
    wide(&mut buf, "ab");
    assert_eq!(buf, vec![97, 98, 0, 9]);
    wide(&mut buf, "abcdef");
    assert_eq!(buf, vec![97, 98, 99, 0]);
    assert_eq!((tray_icon_size(24), tray_icon_size(0)), (24, 16));
}

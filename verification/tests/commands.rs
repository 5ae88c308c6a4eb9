use mouse_speed_switcher::commands::{
    decode, effective_text, loword, run_device_command, tray_menu, Command, DevSlot, IDM_AUTOSTART,
    IDM_DEV_BASE, IDM_DEV_MAX, IDM_EXIT, IDM_RELOAD,
};
use mouse_speed_switcher::config::Config;
use mouse_speed_switcher::devices::Device;
use mouse_speed_switcher::speed::{SpeedWrite, SystemSpeed};
use mouse_speed_switcher::state::AppState;

fn dev(id: &str, vid: Option<&str>, pid: Option<&str>) -> Device {
    Device {
        instance_id: id.into(),
        vid: vid.map(Into::into),
        pid: pid.map(Into::into),
        name: id.into(),
    }
}

const SYS: SystemSpeed = SystemSpeed { speed: 6, wheel: 4 };

#[test]
fn numbers_of_commands() {
    assert_eq!(decode(IDM_RELOAD), Command::Reload);
    assert_eq!(decode(IDM_AUTOSTART), Command::Autostart);
    assert_eq!(decode(IDM_EXIT), Command::Exit);
    assert_eq!(decode(99), Command::Unknown);
    assert_eq!(decode(IDM_DEV_MAX), Command::Unknown);
    assert_eq!(decode(IDM_DEV_BASE), Command::Device { idx: 0, slot: DevSlot::SetRule });
    assert_eq!(decode(IDM_DEV_BASE + 7), Command::Device { idx: 2, slot: DevSlot::DelRule });
    assert_eq!(decode(IDM_DEV_MAX - 1), Command::Device { idx: 999, slot: DevSlot::Reapply });
    assert_eq!(loword(0x12345678), 0x5678);
}

#[test]
fn tray_menu_lists_devices_and_names_the_rule_in_force() {
    let mut cfg = Config::default();
    cfg.set_rule("1", "2", 4, None, None);
    cfg.set_rule("3", "4", 7, None, None);
    let mice = vec![
        dev("a", Some("1"), Some("2")),
        dev("b", Some("3"), Some("4")),
        dev("c", None, None),
    ];
    let (mut st, _) = AppState::new(cfg, &mice);
    let (devs, header) = tray_menu(&mice, &st, true);
    assert_eq!(devs[1].cmds, [103, 104, 105]);
    assert_eq!(devs[1].rule_speed, Some(7));
    assert!(!devs[1].is_effective && header.autostart_on);
    assert_eq!(header.effective_text, None);
    let _ = st.activate_rule("b", SYS);
    let (devs, header) = tray_menu(&mice, &st, false);
    assert!(devs[1].is_effective && !devs[0].is_effective && !devs[2].is_effective);
    assert_eq!(header.effective_text.as_deref(), Some("生效规则: b (速度 7)"));
    assert_eq!(effective_text("b", 7), "生效规则: b (速度 7)");
    // With a single rule there is no such line.
    let _ = st.cfg.remove_rule("1", "2");
    assert_eq!(tray_menu(&mice, &st, false).1.effective_text, None);
}

#[test]
fn device_commands_edit_rules() {
    let a = dev("a", Some("1"), Some("2"));
    let blind = dev("c", None, None);
    let (mut st, _) = AppState::new(Config::default(), &vec![a.clone(), blind.clone()]);
    let out = run_device_command(&mut st, Some(&a), DevSlot::SetRule, SYS);
    assert!(out.save && out.tip);
    assert_eq!(out.writes, vec![SpeedWrite::Pointer(6)]);
    assert_eq!(st.cfg.rules[0].note.as_deref(), Some("a"));
    let out = run_device_command(&mut st, Some(&a), DevSlot::Reapply, SYS);
    assert!(!out.save && out.tip);
    let out = run_device_command(&mut st, Some(&blind), DevSlot::SetRule, SYS);
    assert!(!out.save && !out.tip && out.writes.is_empty());
    let out = run_device_command(&mut st, None, DevSlot::DelRule, SYS);
    assert!(!out.save && out.tip && out.writes.is_empty());
    let out = run_device_command(&mut st, Some(&a), DevSlot::DelRule, SYS);
    assert!(out.save && st.cfg.rules.is_empty());
    assert_eq!(out.writes, vec![SpeedWrite::Pointer(10), SpeedWrite::Wheel(3)]);
}

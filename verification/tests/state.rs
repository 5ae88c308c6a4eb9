use mouse_speed_switcher::baselines::Baselines;
use mouse_speed_switcher::config::{Config, Rule};
use mouse_speed_switcher::devices::Device;
use mouse_speed_switcher::scroll::{KbTrigger, ScrollCfg, TriggerBtn};
use mouse_speed_switcher::speed::{
    SpeedWrite, SystemSpeed, SPEED_DEFAULT, WHEEL_DEFAULT,
};
use mouse_speed_switcher::state::AppState;

fn rule(vid: &str, pid: &str, speed: u32) -> Rule {
    Rule {
        vid: vid.into(),
        pid: pid.into(),
        speed,
        wheel: None,
        scroll: None,
        note: None,
        alias: None,
    }
}

fn rule_with_wheel(vid: &str, pid: &str, speed: u32, wheel: u32) -> Rule {
    Rule { wheel: Some(wheel), ..rule(vid, pid, speed) }
}

fn dev(id: &str, vid: &str, pid: &str) -> Device {
    Device {
        instance_id: id.into(),
        vid: Some(vid.into()),
        pid: Some(pid.into()),
        name: id.into(),
    }
}

const ORIGINAL: SystemSpeed = SystemSpeed { speed: 11, wheel: 5 };

/// A state with the rule of a trackball (056E:01C5 -> 4), and the system.
fn state_with_rule() -> (AppState, SystemSpeed) {
    let cfg = Config {
        rules: vec![rule("056E", "01C5", 4)],
        speed: ORIGINAL.speed,
        wheel: ORIGINAL.wheel,
        scroll: None,
    };
    let st = AppState {
        cfg,
        active: Vec::new(),
        saved: Baselines::new(),
        applied_speed: ORIGINAL.speed,
        applied_wheel: ORIGINAL.wheel,
        in_force: None,
    };
    (st, ORIGINAL)
}

fn scan(st: &mut AppState, sys: &mut SystemSpeed, now: Vec<Device>) {
    let w = st.apply_diff(&now);
    sys.write_all(&w);
}

fn activate(st: &mut AppState, sys: &mut SystemSpeed, id: &str) {
    let w = st.activate_rule(id, *sys);
    sys.write_all(&w);
}

fn toggle(st: &mut AppState, sys: &mut SystemSpeed, id: &str) {
    let w = st.toggle_rule(id, *sys);
    sys.write_all(&w);
}

fn effective_id(st: &AppState) -> Option<String> {
    st.effective_rule().map(|(d, _)| d.instance_id.clone())
}

#[test]
fn insert_only_tracks_device_does_not_apply_rule() {
    let (mut st, sys) = state_with_rule();
    let tb = dev("ID-A", "056E", "01C5");
    st.on_device_inserted(&tb);
    assert_eq!(st.active.len(), 1);
    assert_eq!(st.applied_speed, ORIGINAL.speed);
    assert_eq!(sys.speed, ORIGINAL.speed);
    assert_eq!(st.applied_wheel, ORIGINAL.wheel);
    assert!(st.saved.is_empty());
    assert!(st.effective_rule().is_none());
}

#[test]
fn removing_effective_device_returns_to_global() {
    let (mut st, mut sys) = state_with_rule();
    scan(&mut st, &mut sys, vec![dev("ID-A", "056E", "01C5")]);
    activate(&mut st, &mut sys, "ID-A");
    assert_eq!(sys.speed, 4);

    scan(&mut st, &mut sys, vec![]);
    assert_eq!(st.active.len(), 0);
    assert!(st.global_active());
    assert_eq!(sys.speed, ORIGINAL.speed);
    assert_eq!(st.applied_wheel, ORIGINAL.wheel);
}

#[test]
fn activate_rule_applies_and_marks_effective() {
    let (mut st, mut sys) = state_with_rule();
    st.cfg.rules.push(rule("AAAA", "BBBB", 7));
    let a = dev("ID-A", "056E", "01C5");
    let b = dev("ID-B", "AAAA", "BBBB");

    scan(&mut st, &mut sys, vec![a, b]);
    assert_eq!(sys.speed, ORIGINAL.speed);
    assert!(st.effective_rule().is_none());

    activate(&mut st, &mut sys, "ID-A");
    assert_eq!(sys.speed, 4);
    assert_eq!(st.applied_wheel, ORIGINAL.wheel);
    assert_eq!(effective_id(&st).as_deref(), Some("ID-A"));
    assert_eq!(st.active.len(), 2);
    assert_eq!(st.active[1].0, "ID-A");

    activate(&mut st, &mut sys, "ID-B");
    assert_eq!(sys.speed, 7);
    assert_eq!(effective_id(&st).as_deref(), Some("ID-B"));
}

#[test]
fn manual_speed_overrides_effective_rule() {
    let (mut st, mut sys) = state_with_rule();
    scan(&mut st, &mut sys, vec![dev("ID-A", "056E", "01C5")]);
    activate(&mut st, &mut sys, "ID-A");
    assert_eq!(sys.speed, 4);
    assert!(st.effective_rule().is_some());

    sys.write_all(&st.set_speed_manual(10));
    assert_eq!(sys.speed, 10);
    assert!(st.effective_rule().is_none());

    // The echo of one's own change is not one by someone else.
    assert!(!st.on_speed_observed(10, ORIGINAL.wheel));
    assert!(st.effective_rule().is_none());

    activate(&mut st, &mut sys, "ID-A");
    assert_eq!(sys.speed, 4);
    assert_eq!(effective_id(&st).as_deref(), Some("ID-A"));

    sys.write_all(&st.set_wheel_manual(20));
    assert_eq!(sys.wheel, 20);
    assert!(st.effective_rule().is_none());
}

#[test]
fn apply_diff_tracks_devices_without_switching() {
    let (mut st, mut sys) = state_with_rule();
    scan(&mut st, &mut sys, vec![dev("ID-A", "056E", "01C5")]);
    assert_eq!(st.active.len(), 1);
    assert_eq!(sys.speed, ORIGINAL.speed);

    scan(&mut st, &mut sys, vec![dev("ID-B", "1234", "5678")]);
    assert_eq!(st.active.len(), 1);
    assert_eq!(sys.speed, ORIGINAL.speed);
    assert_eq!(sys.wheel, ORIGINAL.wheel);
}

#[test]
fn reapply_manually_applies_active_rules() {
    let (mut st, mut sys) = state_with_rule();
    st.cfg.rules.push(rule("AAAA", "BBBB", 7));
    let a = dev("ID-A", "056E", "01C5");
    let b = dev("ID-B", "AAAA", "BBBB");

    scan(&mut st, &mut sys, vec![a, b]);
    assert!(st.effective_rule().is_none());

    let w = st.reapply(sys);
    sys.write_all(&w);
    assert_eq!(sys.speed, 7);
    assert_eq!(effective_id(&st).as_deref(), Some("ID-B"));
}

#[test]
fn rule_wheel_switches_and_restores_on_activate() {
    let (mut st, mut sys) = state_with_rule();
    st.cfg.rules[0] = rule_with_wheel("056E", "01C5", 4, 9);

    scan(&mut st, &mut sys, vec![dev("ID-A", "056E", "01C5")]);
    assert_eq!(sys.speed, ORIGINAL.speed);

    activate(&mut st, &mut sys, "ID-A");
    assert_eq!(st.applied_speed, 4);
    assert_eq!(sys.speed, 4);
    assert_eq!(st.applied_wheel, 9);
    assert_eq!(sys.wheel, 9);

    scan(&mut st, &mut sys, vec![]);
    assert!(st.global_active());
    assert_eq!(sys.speed, ORIGINAL.speed);
    assert_eq!(sys.wheel, st.cfg.wheel);
}

#[test]
fn global_scroll_applies_when_no_rule_effective() {
    let (mut st, mut sys) = state_with_rule();
    let global = ScrollCfg {
        enabled: true,
        trigger: TriggerBtn::Middle,
        ..Default::default()
    };
    st.cfg.scroll = Some(global.clone());
    assert_eq!(st.effective_scroll(), Some(global.clone()));

    // A rule in force without scroll mode: no falling back.
    scan(&mut st, &mut sys, vec![dev("ID-A", "056E", "01C5")]);
    activate(&mut st, &mut sys, "ID-A");
    assert!(st.effective_rule().is_some());
    assert_eq!(st.effective_scroll(), None);

    st.cfg.rules[0].scroll = Some(ScrollCfg {
        enabled: true,
        trigger: TriggerBtn::Right,
        ..Default::default()
    });
    assert_eq!(st.effective_scroll().map(|s| s.trigger), Some(TriggerBtn::Right));

    let _ = st.set_speed_manual(10);
    assert!(st.effective_rule().is_none());
    assert_eq!(st.effective_scroll(), Some(global));
}

#[test]
fn editing_global_config_does_not_switch_active_device() {
    let (mut st, mut sys) = state_with_rule();
    scan(&mut st, &mut sys, vec![dev("ID-A", "056E", "01C5")]);
    activate(&mut st, &mut sys, "ID-A");
    assert!(st.effective_rule().is_some());

    st.update_global_scroll(|c| ScrollCfg { enabled: true, ..c });
    sys.write_all(&st.set_global_speed(12));
    sys.write_all(&st.set_global_wheel(8));
    assert_eq!(sys.speed, 4);
    assert_eq!(effective_id(&st).as_deref(), Some("ID-A"));
    assert!(st.effective_scroll().is_none());
    assert_eq!(st.cfg.scroll.map(|c| c.enabled), Some(true));
}

#[test]
fn active_device_item_toggles_back_to_global() {
    let (mut st, mut sys) = state_with_rule();
    scan(&mut st, &mut sys, vec![dev("ID-A", "056E", "01C5")]);

    toggle(&mut st, &mut sys, "ID-A");
    assert_eq!(sys.speed, 4);
    assert!(!st.global_active());

    toggle(&mut st, &mut sys, "ID-A");
    assert!(st.global_active());
    assert_eq!(sys.speed, ORIGINAL.speed);
    assert_eq!(sys.wheel, ORIGINAL.wheel);
}

#[test]
fn reset_global_clears_scroll_shortcuts() {
    let (mut st, _sys) = state_with_rule();
    st.cfg.speed = 17;
    st.cfg.wheel = 11;
    st.cfg.scroll = Some(ScrollCfg {
        enabled: true,
        trigger: TriggerBtn::Right,
        kb_trigger: Some(KbTrigger { vk: 0x12 }),
        px_per_line: 80,
    });

    let _ = st.reset_global();
    assert_eq!(st.cfg.speed, SPEED_DEFAULT);
    assert_eq!(st.cfg.wheel, WHEEL_DEFAULT);
    assert_eq!(st.cfg.scroll, None);
}

#[test]
fn new_state_applies_the_global_settings_within_range() {
    let cfg = Config { speed: 0, wheel: 500, ..Config::default() };
    let found = vec![dev("ID-A", "1", "2"), dev("ID-A", "1", "2"), dev("ID-B", "3", "4")];
    let (st, w) = AppState::new(cfg, &found);
    assert_eq!(w, vec![SpeedWrite::Pointer(1), SpeedWrite::Wheel(100)]);
    assert_eq!((st.applied_speed, st.applied_wheel), (1, 100));
    assert_eq!((st.cfg.speed, st.cfg.wheel), (1, 100));
    assert_eq!(st.active.len(), 2);
    assert!(st.global_active() && st.saved.is_empty());
}

#[test]
fn activating_records_the_settings_before() {
    let (mut st, mut sys) = state_with_rule();
    scan(&mut st, &mut sys, vec![dev("ID-A", "056e", "01c5"), dev("ID-B", "9", "9")]);
    activate(&mut st, &mut sys, "ID-A");
    assert_eq!(st.saved.get("ID-A"), Some((ORIGINAL.speed, ORIGINAL.wheel)));
    assert_eq!(st.saved.get("ID-B"), None);
    // Already last and in force: nothing to do.
    assert!(st.activate_rule("ID-A", sys).is_empty());
    // A device without a rule only moves.
    assert!(st.activate_rule("ID-B", sys).is_empty());
    assert_eq!(st.active[1].0, "ID-B");
    assert_eq!(effective_id(&st).as_deref(), Some("ID-A"));
    // An unknown device changes nothing.
    assert!(st.activate_rule("ID-X", sys).is_empty());
    // Pulling it out forgets its baseline.
    scan(&mut st, &mut sys, vec![]);
    assert!(st.saved.is_empty());
}

#[test]
fn reapplying_records_each_step() {
    let (mut st, mut sys) = state_with_rule();
    st.cfg.rules[0] = rule_with_wheel("056E", "01C5", 4, 9);
    st.cfg.rules.push(rule("AAAA", "BBBB", 7));
    scan(
        &mut st,
        &mut sys,
        vec![dev("A", "056E", "01C5"), dev("N", "0", "0"), dev("B", "aaaa", "bbbb")],
    );
    assert_eq!(st.active_rule_count(), 2);
    let w = st.reapply(sys);
    assert_eq!(
        w,
        vec![SpeedWrite::Pointer(4), SpeedWrite::Wheel(9), SpeedWrite::Pointer(7)]
    );
    assert_eq!(st.saved.get("A"), Some((11, 5)));
    assert_eq!(st.saved.get("B"), Some((4, 9)));
    assert_eq!((st.applied_speed, st.applied_wheel), (7, 9));
    // Without any rule left the global settings come back.
    st.cfg.rules.clear();
    let w = st.reapply(sys);
    assert_eq!(w, vec![SpeedWrite::Pointer(11), SpeedWrite::Wheel(5)]);
    assert!(st.global_active() && st.saved.is_empty());
}

#[test]
fn foreign_change_takes_rules_out_of_force() {
    let (mut st, mut sys) = state_with_rule();
    scan(&mut st, &mut sys, vec![dev("ID-A", "056E", "01C5")]);
    activate(&mut st, &mut sys, "ID-A");
    assert!(!st.on_speed_observed(4, 5));
    assert!(st.effective_rule().is_some());
    assert!(st.on_speed_observed(9, 5));
    assert!(st.effective_rule().is_none());
    assert_eq!(st.applied_speed, 9);
}

#[test]
fn scan_keeps_the_order_and_the_rule_in_force() {
    let (mut st, mut sys) = state_with_rule();
    scan(&mut st, &mut sys, vec![dev("A", "1", "1"), dev("B", "056E", "01C5"), dev("C", "2", "2")]);
    activate(&mut st, &mut sys, "B");
    scan(&mut st, &mut sys, vec![dev("D", "3", "3"), dev("B", "056E", "01C5"), dev("C", "2", "2")]);
    let ids: Vec<&str> = st.active.iter().map(|e| e.0.as_str()).collect();
    assert_eq!(ids, vec!["C", "B", "D"]);
    assert_eq!(effective_id(&st).as_deref(), Some("B"));
    assert_eq!(sys.speed, 4);
}

#[test]
fn global_edits_apply_while_the_global_settings_are_in_force() {
    let (mut st, mut sys) = state_with_rule();
    sys.write_all(&st.set_global_speed(99));
    sys.write_all(&st.set_global_wheel(0));
    assert_eq!(sys, SystemSpeed { speed: 20, wheel: 1 });
    sys.write_all(&st.reset_global());
    assert_eq!(sys, SystemSpeed { speed: 10, wheel: 3 });
}

#[test]
fn stored_and_deleted_rules_are_applied_at_once() {
    let (mut st, mut sys) = state_with_rule();
    scan(&mut st, &mut sys, vec![dev("N", "9999", "8888")]);
    let w = st.store_rule("9999", "8888", 6, Some(2), &"N".to_string(), sys);
    sys.write_all(&w);
    assert_eq!(sys, SystemSpeed { speed: 6, wheel: 2 });
    assert_eq!(effective_id(&st).as_deref(), Some("N"));
    let scroll = ScrollCfg { enabled: true, ..ScrollCfg::default() };
    let w = st.store_rule_with_scroll("9999", "8888", 3, None, Some(scroll), &"N".to_string(), sys);
    sys.write_all(&w);
    assert_eq!(sys, SystemSpeed { speed: 3, wheel: 2 });
    assert_eq!(st.effective_scroll(), Some(scroll));
    let w = st.delete_rule("9999", "8888", sys);
    sys.write_all(&w);
    assert_eq!(sys, ORIGINAL);
    assert!(st.global_active());
}

#[test]
fn plugging_in_never_switches() {
    let (mut st, mut sys) = state_with_rule();
    let fast = ScrollCfg { enabled: true, ..ScrollCfg::default() };
    st.cfg.rules.push(Rule { scroll: Some(fast), ..rule("AAAA", "BBBB", 7) });
    let a = || dev("ID-A", "056E", "01C5");
    let b = || dev("ID-B", "AAAA", "BBBB");
    scan(&mut st, &mut sys, vec![a()]);
    activate(&mut st, &mut sys, "ID-A");

    // A new device with a rule is listed last and changes nothing.
    scan(&mut st, &mut sys, vec![b(), a()]);
    let ids: Vec<&str> = st.active.iter().map(|(id, _)| id.as_str()).collect();
    assert_eq!(ids, vec!["ID-A", "ID-B"]);
    assert_eq!(effective_id(&st).as_deref(), Some("ID-A"));
    assert!(st.effective_scroll().is_none());
    assert_eq!(sys.speed, 4);

    // Switching to it applies its rule and takes the baseline.
    toggle(&mut st, &mut sys, "ID-B");
    assert_eq!(effective_id(&st).as_deref(), Some("ID-B"));
    assert_eq!(sys.speed, 7);
    assert_eq!(st.saved.get("ID-B"), Some((4, ORIGINAL.wheel)));
    assert!(st.effective_scroll().is_some());

    // Already last and in force: nothing to do.
    assert!(st.activate_rule("ID-B", sys).is_empty());

    // Pulling out another device leaves it in force.
    scan(&mut st, &mut sys, vec![b()]);
    assert_eq!(effective_id(&st).as_deref(), Some("ID-B"));
    assert!(st.on_device_removed("ID-X").is_empty());
    let w = st.on_device_removed("ID-B");
    sys.write_all(&w);
    assert!(st.global_active());
    assert_eq!(sys, ORIGINAL);
}

#[test]
fn switching_again_moves_to_the_end() {
    let (mut st, mut sys) = state_with_rule();
    scan(&mut st, &mut sys, vec![dev("ID-A", "056E", "01C5")]);
    activate(&mut st, &mut sys, "ID-A");
    scan(&mut st, &mut sys, vec![dev("ID-A", "056E", "01C5"), dev("ID-C", "1", "2")]);
    assert_eq!(st.activate_rule("ID-A", sys), vec![SpeedWrite::Pointer(4)]);
    assert_eq!(st.active[1].0, "ID-A");
    assert_eq!(effective_id(&st).as_deref(), Some("ID-A"));
}

#[test]
fn rules_out_of_range_are_not_taken_for_foreign() {
    let (mut st, mut sys) = state_with_rule();
    st.cfg.rules.push(rule_with_wheel("AAAA", "BBBB", 50, 0));
    scan(&mut st, &mut sys, vec![dev("ID-A", "056E", "01C5"), dev("ID-B", "AAAA", "BBBB")]);
    activate(&mut st, &mut sys, "ID-B");
    assert_eq!((sys.speed, sys.wheel), (20, 1));
    assert_eq!((st.applied_speed, st.applied_wheel), (20, 1));
    assert!(!st.on_speed_observed(sys.speed, sys.wheel));
    assert_eq!(effective_id(&st).as_deref(), Some("ID-B"));

    st.cfg.rules[0].speed = 0;
    let w = st.reapply(sys);
    sys.write_all(&w);
    assert!(!st.on_speed_observed(sys.speed, sys.wheel));
    assert_eq!(st.saved.get("ID-B"), Some((1, 1)));
    assert_eq!(effective_id(&st).as_deref(), Some("ID-B"));

    let w = st.delete_rule("AAAA", "BBBB", sys);
    sys.write_all(&w);
    assert!(!st.on_speed_observed(sys.speed, sys.wheel));
    assert_eq!(effective_id(&st).as_deref(), Some("ID-A"));
}

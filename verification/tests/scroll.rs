use mouse_speed_switcher::scroll::{
    canonicalize_vk, vk_label, KbTrigger, ScrollCfg, ScrollEngine, TriggerBtn, WheelAccum,
    SCROLL_PX_DEFAULT,
};

#[test]
fn trigger_btn_roundtrip_and_labels() {
    for c in 1..=5u32 {
        let t = TriggerBtn::from_code(c).unwrap();
        assert_eq!(t.code(), c);
        assert!(!t.label().is_empty());
    }
    assert_eq!(TriggerBtn::from_code(0), None);
    assert_eq!(TriggerBtn::from_code(6), None);
    // The form in which the configuration file stores it.
    assert_eq!(serde_json::to_string(TriggerBtn::X1.config_name()).unwrap(), "\"x1\"");
    assert_eq!(
        TriggerBtn::from_config_name(&serde_json::from_str::<String>("\"middle\"").unwrap())
            .unwrap(),
        TriggerBtn::Middle
    );
}

#[test]
fn stored_names_are_read_back() {
    for t in [
        TriggerBtn::Left,
        TriggerBtn::Middle,
        TriggerBtn::Right,
        TriggerBtn::X1,
        TriggerBtn::X2,
    ] {
        assert_eq!(TriggerBtn::from_config_name(t.config_name()), Some(t));
    }
    assert_eq!(TriggerBtn::from_config_name("X1"), None);
    assert_eq!(TriggerBtn::from_config_name(""), None);
    assert_eq!(TriggerBtn::X2.label(), "鼠标侧键2");
    assert_eq!(TriggerBtn::Left.config_name(), "left");
}

#[test]
fn default_trigger_is_x1() {
    assert_eq!(TriggerBtn::default(), TriggerBtn::X1);
}

#[test]
fn accumulates_subnotch_and_emits_whole_notches() {
    let mut a = WheelAccum::default();
    // Ten pixels per line and four lines per notch: forty pixels per notch.
    assert_eq!(a.feed(-15, 10, 4), 0);
    assert_eq!(a.feed(-15, 10, 4), 0);
    assert_eq!(a.feed(-15, 10, 4), 120);
    assert_eq!(a.feed(-15, 10, 4), 0);
    assert_eq!(a.feed(-15, 10, 4), 0);
    assert_eq!(a.feed(-15, 10, 4), 120);
}

#[test]
fn direction_down_is_negative() {
    let mut a = WheelAccum::default();
    assert_eq!(a.feed(80, 10, 4), -240);
}

#[test]
fn lines_per_notch_scales_pixels_per_step() {
    let mut a = WheelAccum::default();
    assert_eq!(a.feed(-15, 15, 1), 120);
    let mut b = WheelAccum::default();
    assert_eq!(b.feed(-15, 15, 3), 0);
    assert_eq!(b.feed(-45, 15, 3), 120);
}

#[test]
fn large_move_emits_multiple_notches() {
    let mut a = WheelAccum::default();
    assert_eq!(a.feed(-190, 10, 4), 480);
    assert_eq!(a.feed(-10, 10, 4), 120);
    assert_eq!(a.feed(-1, 10, 4), 0);
}

#[test]
fn reset_clears_pending() {
    let mut a = WheelAccum::default();
    a.feed(-10, 15, 3);
    a.reset();
    assert_eq!(a.feed(-5, 15, 3), 0);
}

#[test]
fn invalid_params_are_ignored() {
    let mut a = WheelAccum::default();
    assert_eq!(a.feed(-100, 0, 3), 0);
    assert_eq!(a.feed(-100, -5, 3), 0);
    assert_eq!(a.feed(-100, 15, 0), 0);
}

#[test]
fn kb_trigger_canonicalizes_sides() {
    let raw = KbTrigger { vk: 0xA4 };
    assert_eq!(raw.vk_canonical(), 0x12);
    let right = KbTrigger { vk: 0xA5 };
    assert_eq!(right.vk_canonical(), 0x12);
    assert_eq!(right.label(), "Alt");
    assert_eq!(KbTrigger { vk: 0xA0 }.label(), "Shift");
    assert_eq!(KbTrigger { vk: 0x5C }.label(), "Win");
    assert_eq!(KbTrigger { vk: 0x70 }.label(), "F1");
}

#[test]
fn scroll_engine_sync_active_handles_both_sources() {
    let mut e = ScrollEngine {
        enabled: true,
        active: false,
        mouse_held: false,
        kb_held: false,
        accum: WheelAccum::default(),
        trigger: TriggerBtn::X1,
        kb_trigger: Some(KbTrigger { vk: 0xA4 }),
        px_per_line: SCROLL_PX_DEFAULT,
    };
    e.mouse_held = true;
    e.sync_active();
    assert!(e.active);
    e.mouse_held = false;
    e.sync_active();
    assert!(!e.active);
    e.kb_held = true;
    e.sync_active();
    assert!(e.active);
    e.enabled = false;
    e.sync_active();
    assert!(!e.active);
}

#[test]
fn entering_scroll_mode_starts_from_no_travel() {
    let mut e = ScrollEngine::default();
    assert_eq!(e.accum.feed(-39, 10, 4), 0);
    e.enabled = true;
    e.mouse_held = true;
    e.sync_active();
    assert_eq!(e.accum.feed(-39, 10, 4), 0);
    // Staying in the mode keeps what was collected.
    e.sync_active();
    assert_eq!(e.accum.feed(-1, 10, 4), 120);
}

#[test]
fn notches_of_one_feed_are_capped() {
    let mut a = WheelAccum::default();
    assert_eq!(a.feed(-1000, 1, 1), 273 * 120);
    assert_eq!(a.feed(1000, 1, 1), -273 * 120);
    assert_eq!(a.feed(0, 1, 1), 0);
}

#[test]
fn pieces_of_a_movement_give_the_notches_of_the_whole() {
    let mut whole = WheelAccum::default();
    let all = whole.feed(-1234, 7, 3);
    let mut pieces = WheelAccum::default();
    let mut sum = 0;
    for _ in 0..1234 {
        sum += pieces.feed(-1, 7, 3);
    }
    assert_eq!(all, 1234 / 21 * 120);
    assert_eq!(sum, all);
}

#[test]
fn labels_of_keys() {
    // The names tell keys apart; the two Win keys share theirs.
    for a in 0..0x200u32 {
        for b in 0..a {
            assert_eq!(vk_label(a) == vk_label(b), (b, a) == (0x5B, 0x5C));
        }
    }
    assert_eq!(vk_label(0x08), "Backspace");
    assert_eq!(vk_label(0x35), "5");
    assert_eq!(vk_label(0x51), "Q");
    assert_eq!(vk_label(0x69), "Num 9");
    assert_eq!(vk_label(0x87), "F24");
    assert_eq!(vk_label(0xA4), "LAlt");
    assert_eq!(vk_label(0x07), "VK 0x07");
    assert_eq!(vk_label(0xE2), "VK 0xE2");
    assert_eq!(vk_label(0x1234), "VK 0x1234");
    assert_eq!(canonicalize_vk(0xA3), 0x11);
    assert_eq!(canonicalize_vk(0x41), 0x41);
}

#[test]
fn fresh_scroll_settings() {
    assert_eq!(
        ScrollCfg::default(),
        ScrollCfg {
            enabled: false,
            trigger: TriggerBtn::X1,
            kb_trigger: None,
            px_per_line: 15,
        }
    );
}

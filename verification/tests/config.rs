use mouse_speed_switcher::config::{default_speed, Config, Rule};
use mouse_speed_switcher::scroll::ScrollCfg;

#[test]
fn stored_rules_are_found_in_any_case() {
    let mut c = Config::default();
    assert!(c.rule_for("056E", "01C5").is_none());
    c.set_rule("056e", "01c5", 4, Some(9), Some("ball".into()));
    assert_eq!(c.rules[0].vid, "056E");
    assert_eq!(c.rules[0].pid, "01C5");
    let r = c.rule_for("056E", "01c5").unwrap();
    assert_eq!((r.speed, r.wheel, r.note.as_deref()), (4, Some(9), Some("ball")));
    // An update keeps the rule's place, name and scroll mode.
    c.rules[0].alias = Some("mine".into());
    c.rules[0].scroll = Some(ScrollCfg::default());
    assert_eq!(c.set_rule("056E", "01C5", 7, None, None), 7);
    assert_eq!(c.rules.len(), 1);
    let r = c.rule_for("056e", "01c5").unwrap();
    assert_eq!((r.speed, r.wheel, r.note.as_deref()), (7, None, None));
    assert_eq!(r.alias.as_deref(), Some("mine"));
    assert_eq!(r.scroll, Some(ScrollCfg::default()));
}

#[test]
fn storing_leaves_other_rules() {
    let mut c = Config::default();
    c.set_rule("1", "2", 3, None, None);
    c.set_rule("1", "3", 5, None, None);
    c.set_rule("1", "2", 9, None, None);
    assert_eq!(c.rule_for("1", "3").unwrap().speed, 5);
    assert_eq!(c.rule_for("1", "2").unwrap().speed, 9);
    assert_eq!(c.rules.len(), 2);
}

#[test]
fn removing_drops_every_matching_rule() {
    let mut c = Config::default();
    let r = Rule {
        vid: "ab".into(),
        pid: "CD".into(),
        speed: 1,
        wheel: None,
        scroll: None,
        note: None,
        alias: None,
    };
    c.rules.push(r.clone());
    c.set_rule("X", "Y", 2, None, None);
    c.rules.push(r);
    assert!(c.remove_rule("AB", "cd"));
    assert!(!c.remove_rule("AB", "cd"));
    assert!(c.rule_for("ab", "CD").is_none());
    assert_eq!(c.rules.len(), 1);
    assert_eq!(c.rule_for("x", "y").unwrap().speed, 2);
}

#[test]
fn only_ascii_letters_are_folded() {
    let mut c = Config::default();
    c.set_rule("é", "z", 1, None, None);
    assert_eq!(c.rules[0].vid, "é");
    assert_eq!(c.rules[0].pid, "Z");
    assert!(c.rule_for("É", "z").is_none());
}

#[test]
fn fresh_configuration() {
    let c = Config::default();
    assert_eq!(default_speed(), 10);
    assert_eq!((c.rules.len(), c.speed, c.wheel, c.scroll), (0, 10, 3, None));
}

#[test]
fn scroll_settings_are_stored_with_the_rule() {
    let mut c = Config::default();
    let s = ScrollCfg { enabled: true, ..ScrollCfg::default() };
    c.set_rule_with_scroll("a", "b", 4, None, Some(s), None);
    assert_eq!(c.rule_for("A", "B").unwrap().scroll, Some(s));
    c.set_rule_with_scroll("A", "B", 4, None, None, None);
    assert_eq!(c.rule_for("A", "B").unwrap().scroll, None);
    assert_eq!(c.rules.len(), 1);
}

//! The native menu: its colours, what its messages mean, what its actions do,
//! and how it is drawn.

use crate::menu_model::{
    dragged_speed, dragged_wheel, focus_after, focus_before, to_apply, wheel_label_top,
    wheel_label_y, wheel_slider_top, wheel_slider_y, Dip, MenuModel, CHECK_W, MENU_W, PAD,
    RULE_ICON_W, SEP_H, SLIDER_H,
};
use crate::scroll::{
    canonical, clamp_int, key_label, law_button_labels_are_distinct, KbTrigger, ScrollCfg,
    TriggerBtn,
};
use crate::speed::{
    clamp_speed, clamp_wheel, clamped, valid_speed, valid_wheel, SpeedWrite, SystemSpeed,
    SPEED_DEFAULT, SPEED_MAX, SPEED_MIN, WHEEL_DEFAULT, WHEEL_MAX, WHEEL_MIN,
};
use crate::state::{
    rule_deleted, rule_stored, rule_stored_with_scroll, AppState, StateModel,
};
use crate::state_laws::{
    law_deleted_rule_is_not_read, law_stored_rule_is_read_in_the_state,
    law_stored_scroll_is_read_in_the_state, rule_read,
};
use crate::text::{dec, law_decimal_numerals, lemma_dec_value, push_dec};
use crate::win32::host::{law_pointing_wants_the_submenu, EffectiveInfo, HostUi};
use crate::win32::layout::{
    autostart_top, autostart_y, device_top, device_y, eff_top, eff_y, exit_top, exit_y, hover_at,
    is_target_at, law_one_target, other_top, other_y, Target, EFF_INFO_H,
};
use crate::win32::scroll_hook::WM_MOUSEMOVE;
use vstd::prelude::*;
use vstd::string::StringExecFns;

verus! {

/// The colours of a menu, each with blue, green and red from the highest byte
/// down.
#[derive(Debug, Clone, Copy, PartialEq, Eq, Structural)]
pub struct Pal {
    pub bg: u32,
    pub border: u32,
    pub sep: u32,
    pub text: u32,
    pub gray: u32,
    pub highlight: u32,
    /// Behind a row that is pressed.
    pub row_pressed: u32,
    /// Text on the highlight.
    pub hl_text: u32,
    pub btn_hover: u32,
    pub btn_pressed: u32,
}

/// The colours for light or dark surroundings.
pub open spec fn pal_for(dark: bool) -> Pal {
    if dark {
        Pal {
            bg: 0x2C2C2C,
            border: 0x5A5A5A,
            sep: 0x3F3F3F,
            text: 0xF3F3F3,
            gray: 0xA0A0A0,
            highlight: 0xD77800,
            row_pressed: 0x774500,
            hl_text: 0xFFFFFF,
            btn_hover: 0xD77800,
            btn_pressed: 0x774500,
        }
    } else {
        Pal {
            bg: 0xF0F0F0,
            border: 0x9A9A9A,
            sep: 0xD9D9D9,
            text: 0x1F1F1F,
            gray: 0x6D6D6D,
            highlight: 0xD77800,
            row_pressed: 0x9E5A00,
            hl_text: 0xFFFFFF,
            btn_hover: 0xD77800,
            btn_pressed: 0x9E5A00,
        }
    }
}

/// The colours for light or dark surroundings.
pub fn palette(dark: bool) -> (r: Pal)
    ensures
        r == pal_for(dark),
{
    if dark {
        Pal {
            bg: 0x2C2C2C,
            border: 0x5A5A5A,
            sep: 0x3F3F3F,
            text: 0xF3F3F3,
            gray: 0xA0A0A0,
            highlight: 0xD77800,
            row_pressed: 0x774500,
            hl_text: 0xFFFFFF,
            btn_hover: 0xD77800,
            btn_pressed: 0x774500,
        }
    } else {
        Pal {
            bg: 0xF0F0F0,
            border: 0x9A9A9A,
            sep: 0xD9D9D9,
            text: 0x1F1F1F,
            gray: 0x6D6D6D,
            highlight: 0xD77800,
            row_pressed: 0x9E5A00,
            hl_text: 0xFFFFFF,
            btn_hover: 0xD77800,
            btn_pressed: 0x9E5A00,
        }
    }
}

/// The colours in use: those of the system under high contrast, else by theme.
pub fn current_pal(high_contrast: Option<Pal>, dark: bool) -> (r: Pal)
    ensures
        r == (match high_contrast {
            Some(p) => p,
            None => pal_for(dark),
        }),
{
    match high_contrast {
        Some(p) => p,
        None => palette(dark),
    }
}

/// The height of the characters of the menu font at `dpi` dots per inch.
pub open spec fn font_px(dpi: int) -> int {
    if 13 * dpi / 96 < 8 {
        8
    } else {
        13 * dpi / 96
    }
}

/// The height of the menu font at `dpi` dots per inch: thirteen points, at
/// least eight pixels; negative, as the system wants the height of characters.
pub fn menu_font_height(dpi: u32) -> (r: i32)
    requires
        13 * dpi <= i32::MAX,
    ensures
        r == -font_px(dpi as int),
{
    let h: i32 = 13 * dpi as i32 / 96;
    if h < 8 {
        -8
    } else {
        -h
    }
}

/// The codes of slider messages: one step up.
pub const TB_LINEUP: u32 = 0;

pub const TB_LINEDOWN: u32 = 1;

pub const TB_PAGEUP: u32 = 2;

pub const TB_PAGEDOWN: u32 = 3;

/// The slider was let go after dragging.
pub const TB_THUMBPOSITION: u32 = 4;

/// The slider is being dragged.
pub const TB_THUMBTRACK: u32 = 5;

pub const TB_TOP: u32 = 6;

pub const TB_BOTTOM: u32 = 7;

/// The slider was let go in any way.
pub const TB_ENDTRACK: u32 = 8;

/// The message is a single step of the slider.
pub open spec fn is_step(notify: u32) -> bool {
    notify == TB_LINEUP || notify == TB_LINEDOWN || notify == TB_PAGEUP || notify == TB_PAGEDOWN
        || notify == TB_TOP || notify == TB_BOTTOM
}

/// The message is letting the slider go.
pub open spec fn is_release(notify: u32) -> bool {
    notify == TB_THUMBPOSITION || notify == TB_ENDTRACK
}

/// What becomes of a slider by a message.
pub struct SliderStep {
    /// The value that is applied.
    pub applied: u32,
    /// The value under the slider while it is dragged.
    pub pending: Option<u32>,
    /// The change to make in the system.
    pub write: Option<u32>,
    /// The menu is to be drawn anew.
    pub redraw: bool,
}

/// What becomes of a slider with the given values and range by a message at `at`.
pub open spec fn slider_step(
    applied: u32,
    pending: Option<u32>,
    notify: u32,
    at: u32,
    lo: u32,
    hi: u32,
) -> SliderStep {
    if notify == TB_THUMBTRACK {
        SliderStep { applied, pending: Some(at), write: None, redraw: true }
    } else if is_release(notify) {
        match to_apply(applied, pending) {
            Some(v) => SliderStep {
                applied: clamped(v, lo, hi),
                pending: None,
                write: Some(clamped(v, lo, hi)),
                redraw: false,
            },
            None => SliderStep { applied, pending: None, write: None, redraw: true },
        }
    } else if is_step(notify) {
        SliderStep {
            applied: at,
            pending: None,
            write: to_apply(applied, Some(at)),
            redraw: false,
        }
    } else {
        SliderStep { applied, pending, write: None, redraw: false }
    }
}

/// What follows from a slider message.
#[derive(Debug, Clone, Copy, PartialEq, Eq, Structural)]
pub struct SliderWork {
    /// The change to make in the system; the slider, the tool tip and scroll mode
    /// follow.
    pub write: Option<SpeedWrite>,
    /// The menu is to be drawn anew.
    pub redraw: bool,
}

/// A pointer speed set by hand: the change to make, with the menu following it.
/// No rule is in force any more.
pub fn speed_set(model: &mut MenuModel, st: &mut AppState, v: u32) -> (w: SpeedWrite)
    ensures
        w == SpeedWrite::Pointer(valid_speed(v)),
        final(st)@ == old(st)@.with_manual_speed(v),
        final(st).saved == old(st).saved,
        *final(model) == (MenuModel {
            speed_val: valid_speed(v),
            pending_speed: None,
            ..*old(model)
        }),
{
    model.speed_val = clamp_speed(v);
    model.pending_speed = None;
    st.set_speed_manual(v)[0]
}

/// A number of wheel lines set by hand: the change to make, with the menu
/// following it. No rule is in force any more.
pub fn wheel_set(model: &mut MenuModel, st: &mut AppState, v: u32) -> (w: SpeedWrite)
    ensures
        w == SpeedWrite::Wheel(valid_wheel(v)),
        final(st)@ == old(st)@.with_manual_wheel(v),
        final(st).saved == old(st).saved,
        *final(model) == (MenuModel {
            wheel_val: valid_wheel(v),
            pending_wheel: None,
            ..*old(model)
        }),
{
    model.wheel_val = clamp_wheel(v);
    model.pending_wheel = None;
    st.set_wheel_manual(v)[0]
}

/// A message of the pointer speed slider at `pos`. Dragging only shows the
/// value; letting go applies it where it differs; a single step is applied at
/// once. What is applied is set by hand, so no rule is in force any more.
pub fn on_pointer_slider(
    model: &mut MenuModel,
    st: &mut AppState,
    notify: u32,
    pos: i32,
) -> (r: SliderWork)
    ensures
        final(st).saved == old(st).saved,
        r.write is None ==> final(st)@ == old(st)@,
        ({
            let step = slider_step(
                old(model).speed_val,
                old(model).pending_speed,
                notify,
                dragged_speed(pos as int),
                SPEED_MIN,
                SPEED_MAX,
            );
            &&& final(model).speed_val == step.applied
            &&& final(model).pending_speed == step.pending
            &&& r.redraw == step.redraw
            &&& r.write == (match step.write {
                Some(v) => Some(SpeedWrite::Pointer(v)),
                None => None,
            })
        }),
        ({
            let at = dragged_speed(pos as int);
            let before = *old(model);
            if notify == TB_THUMBTRACK {
                &&& r == (SliderWork { write: None, redraw: true })
                &&& *final(model) == (MenuModel { pending_speed: Some(at), ..before })
            } else if is_release(notify) {
                match before.pending_speed {
                    Some(v) => if v != before.speed_val {
                        &&& r == (SliderWork {
                            write: Some(SpeedWrite::Pointer(valid_speed(v))),
                            redraw: false,
                        })
                        &&& final(st)@ == old(st)@.with_manual_speed(v)
                        &&& *final(model) == (MenuModel {
                            pending_speed: None,
                            speed_val: valid_speed(v),
                            ..before
                        })
                    } else {
                        &&& r == (SliderWork { write: None, redraw: true })
                        &&& *final(model) == (MenuModel { pending_speed: None, ..before })
                    },
                    None => r == (SliderWork { write: None, redraw: true }) && *final(model)
                        == before,
                }
            } else if is_step(notify) {
                &&& r == (SliderWork {
                    write: if at != before.speed_val {
                        Some(SpeedWrite::Pointer(at))
                    } else {
                        None
                    },
                    redraw: false,
                })
                &&& at != before.speed_val ==> final(st)@ == old(st)@.with_manual_speed(at)
                &&& *final(model) == (MenuModel { pending_speed: None, speed_val: at, ..before })
            } else {
                r == (SliderWork { write: None, redraw: false }) && *final(model) == before
            }
        }),
{
    if notify == TB_THUMBTRACK {
        model.preview_speed(pos);
        return SliderWork { write: None, redraw: true };
    }
    if notify == TB_THUMBPOSITION || notify == TB_ENDTRACK {
        return match model.commit_speed() {
            Some(v) => {
                let w = speed_set(model, st, v);
                SliderWork { write: Some(w), redraw: false }
            },
            None => SliderWork { write: None, redraw: true },
        };
    }
    if notify == TB_LINEUP || notify == TB_LINEDOWN || notify == TB_PAGEUP || notify
        == TB_PAGEDOWN || notify == TB_TOP || notify == TB_BOTTOM {
        model.preview_speed(pos);
        let at: u32 = model.display_speed();
        model.pending_speed = None;
        if at != model.speed_val {
            let w = speed_set(model, st, at);
            return SliderWork { write: Some(w), redraw: false };
        }
    }
    SliderWork { write: None, redraw: false }
}

/// A message of the wheel slider at `pos`, likewise.
pub fn on_wheel_slider(
    model: &mut MenuModel,
    st: &mut AppState,
    notify: u32,
    pos: i32,
) -> (r: SliderWork)
    ensures
        final(st).saved == old(st).saved,
        r.write is None ==> final(st)@ == old(st)@,
        ({
            let step = slider_step(
                old(model).wheel_val,
                old(model).pending_wheel,
                notify,
                dragged_wheel(pos as int),
                WHEEL_MIN,
                WHEEL_MAX,
            );
            &&& final(model).wheel_val == step.applied
            &&& final(model).pending_wheel == step.pending
            &&& r.redraw == step.redraw
            &&& r.write == (match step.write {
                Some(v) => Some(SpeedWrite::Wheel(v)),
                None => None,
            })
        }),
        ({
            let at = dragged_wheel(pos as int);
            let before = *old(model);
            if notify == TB_THUMBTRACK {
                &&& r == (SliderWork { write: None, redraw: true })
                &&& *final(model) == (MenuModel { pending_wheel: Some(at), ..before })
            } else if is_release(notify) {
                match before.pending_wheel {
                    Some(v) => if v != before.wheel_val {
                        &&& r == (SliderWork {
                            write: Some(SpeedWrite::Wheel(valid_wheel(v))),
                            redraw: false,
                        })
                        &&& final(st)@ == old(st)@.with_manual_wheel(v)
                        &&& *final(model) == (MenuModel {
                            pending_wheel: None,
                            wheel_val: valid_wheel(v),
                            ..before
                        })
                    } else {
                        &&& r == (SliderWork { write: None, redraw: true })
                        &&& *final(model) == (MenuModel { pending_wheel: None, ..before })
                    },
                    None => r == (SliderWork { write: None, redraw: true }) && *final(model)
                        == before,
                }
            } else if is_step(notify) {
                &&& r == (SliderWork {
                    write: if at != before.wheel_val {
                        Some(SpeedWrite::Wheel(at))
                    } else {
                        None
                    },
                    redraw: false,
                })
                &&& at != before.wheel_val ==> final(st)@ == old(st)@.with_manual_wheel(at)
                &&& *final(model) == (MenuModel { pending_wheel: None, wheel_val: at, ..before })
            } else {
                r == (SliderWork { write: None, redraw: false }) && *final(model) == before
            }
        }),
{
    if notify == TB_THUMBTRACK {
        model.preview_wheel(pos);
        return SliderWork { write: None, redraw: true };
    }
    if notify == TB_THUMBPOSITION || notify == TB_ENDTRACK {
        return match model.commit_wheel() {
            Some(v) => {
                let w = wheel_set(model, st, v);
                SliderWork { write: Some(w), redraw: false }
            },
            None => SliderWork { write: None, redraw: true },
        };
    }
    if notify == TB_LINEUP || notify == TB_LINEDOWN || notify == TB_PAGEUP || notify
        == TB_PAGEDOWN || notify == TB_TOP || notify == TB_BOTTOM {
        model.preview_wheel(pos);
        let at: u32 = model.display_wheel();
        model.pending_wheel = None;
        if at != model.wheel_val {
            let w = wheel_set(model, st, at);
            return SliderWork { write: Some(w), redraw: false };
        }
    }
    SliderWork { write: None, redraw: false }
}

/// The speed one step from `cur`, within the range of the system.
pub open spec fn nudged(cur: u32, delta: int) -> u32 {
    clamp_int(cur + delta, SPEED_MIN as int, SPEED_MAX as int) as u32
}

/// An arrow key moves the pointer speed by `delta`, which counts as setting it by
/// hand; at an end nothing changes.
pub fn nudge_speed(model: &mut MenuModel, st: &mut AppState, delta: i32) -> (w: Option<SpeedWrite>)
    ensures
        final(st).saved == old(st).saved,
        ({
            let v = nudged(old(model).speed_val, delta as int);
            if v != old(model).speed_val {
                &&& w == Some(SpeedWrite::Pointer(v))
                &&& final(st)@ == old(st)@.with_manual_speed(v)
                &&& *final(model) == (MenuModel {
                    speed_val: v,
                    pending_speed: None,
                    ..*old(model)
                })
            } else {
                w is None && *final(model) == *old(model) && final(st)@ == old(st)@
            }
        }),
{
    let sum: i64 = model.speed_val as i64 + delta as i64;
    let v: u32 = if sum < SPEED_MIN as i64 {
        SPEED_MIN
    } else if sum > SPEED_MAX as i64 {
        SPEED_MAX
    } else {
        sum as u32
    };
    if v != model.speed_val {
        Some(speed_set(model, st, v))
    } else {
        None
    }
}

/// What the native menus ask for.
#[derive(Debug, Clone, Copy, PartialEq, Eq, Structural)]
pub enum HostAction {
    SetSpeed(u32),
    ResetDefault,
    ToggleAutostart,
    /// Store what the system has set as the rule of a device.
    SetRule(usize),
    /// Store the submenu's values as the rule of a device.
    SetRuleWithSpeed(usize, u32, u32, Option<ScrollCfg>),
    DelRule(usize),
    Reapply(usize),
    Exit,
}

/// What is left to do after an action.
#[derive(Debug)]
pub struct ActionWork {
    /// The system settings to change.
    pub writes: Vec<SpeedWrite>,
    /// The configuration is to be saved.
    pub save: bool,
    /// Scroll mode is to be brought in line with the rule in force.
    pub sync_hook: bool,
    /// Starting with the system is to be switched.
    pub toggle_autostart: bool,
    /// The menu stays open.
    pub keep_open: bool,
    /// The tool is to end.
    pub exit: bool,
}

/// The menu stays open after the action.
pub open spec fn keeps_open(action: HostAction) -> bool {
    action is SetSpeed || action is ResetDefault || action is ToggleAutostart
}

/// The ids of the device at `i`, if there is one and it has both.
pub open spec fn ids_at(model: MenuModel, i: usize) -> Option<(String, String)> {
    if i < model.devs@.len() {
        match (model.devs@[i as int].vid, model.devs@[i as int].pid) {
            (Some(v), Some(p)) => Some((v, p)),
            _ => None,
        }
    } else {
        None
    }
}

/// `after` is `before` once an action on the rule of the given ids was carried out:
/// what the system has, or what the submenu shows, is stored, or the rule is
/// deleted.
pub open spec fn rule_action_done(
    before: StateModel,
    after: StateModel,
    vid: Seq<char>,
    pid: Seq<char>,
    name: String,
    action: HostAction,
    sys: SystemSpeed,
    w: Seq<SpeedWrite>,
) -> bool {
    match action {
        HostAction::SetRule(_) => rule_stored(
            before,
            after,
            vid,
            pid,
            sys.speed,
            Some(sys.wheel),
            name,
            sys,
            w,
        ),
        HostAction::SetRuleWithSpeed(_, sp, wh, scroll) => rule_stored_with_scroll(
            before,
            after,
            vid,
            pid,
            sp,
            Some(wh),
            scroll,
            name,
            sys,
            w,
        ),
        HostAction::DelRule(_) => rule_deleted(before, after, vid, pid, sys, w),
        _ => true,
    }
}

/// Nothing was done to the rules.
pub open spec fn no_rule_work(before: AppState, after: AppState, r: ActionWork) -> bool {
    after@ == before@ && !r.save && !r.sync_hook && r.writes@.len() == 0
}

/// Carries an action out. `sys` is what the system has set. Setting or resetting
/// the speed is done by hand, so no rule is in force after it. Actions on rules
/// close the menu, and so does the exit.
pub fn run_action(model: &mut MenuModel, st: &mut AppState, action: HostAction, sys: SystemSpeed) -> (r:
    ActionWork)
    requires
        old(st).wf(),
    ensures
        final(st).wf(),
        r.toggle_autostart == (action == HostAction::ToggleAutostart),
        r.exit == (action == HostAction::Exit),
        r.keep_open == keeps_open(action),
        *final(model) == (match action {
            HostAction::SetSpeed(v) => MenuModel {
                speed_val: valid_speed(v),
                pending_speed: None,
                ..*old(model)
            },
            HostAction::ResetDefault => MenuModel {
                speed_val: SPEED_DEFAULT,
                pending_speed: None,
                wheel_val: WHEEL_DEFAULT,
                pending_wheel: None,
                ..*old(model)
            },
            _ => *old(model),
        }),
        match action {
            HostAction::SetSpeed(v) => final(st)@ == old(st)@.with_manual_speed(v) && !r.save
                && r.sync_hook && r.writes@ == seq![SpeedWrite::Pointer(valid_speed(v))],
            HostAction::ResetDefault => final(st)@ == old(st)@.with_manual_speed(
                SPEED_DEFAULT,
            ).with_manual_wheel(WHEEL_DEFAULT) && !r.save && r.sync_hook && r.writes@ == seq![
                SpeedWrite::Pointer(SPEED_DEFAULT),
                SpeedWrite::Wheel(WHEEL_DEFAULT),
            ],
            HostAction::SetRule(i) => match ids_at(*old(model), i) {
                Some((v, p)) => r.save && r.sync_hook && rule_action_done(
                    old(st)@,
                    final(st)@,
                    v@,
                    p@,
                    old(model).devs@[i as int].name,
                    action,
                    sys,
                    r.writes@,
                ),
                None => no_rule_work(*old(st), *final(st), r),
            },
            HostAction::SetRuleWithSpeed(i, _, _, _) => match ids_at(*old(model), i) {
                Some((v, p)) => r.save && r.sync_hook && rule_action_done(
                    old(st)@,
                    final(st)@,
                    v@,
                    p@,
                    old(model).devs@[i as int].name,
                    action,
                    sys,
                    r.writes@,
                ),
                None => no_rule_work(*old(st), *final(st), r),
            },
            HostAction::DelRule(i) => match ids_at(*old(model), i) {
                Some((v, p)) => r.save && r.sync_hook && rule_action_done(
                    old(st)@,
                    final(st)@,
                    v@,
                    p@,
                    old(model).devs@[i as int].name,
                    action,
                    sys,
                    r.writes@,
                ),
                None => no_rule_work(*old(st), *final(st), r),
            },
            HostAction::Reapply(_) => final(st)@ == old(st)@.reapplied(sys) && !r.save
                && r.sync_hook && r.writes@ == old(st)@.reapplied_writes(),
            HostAction::ToggleAutostart | HostAction::Exit => no_rule_work(
                *old(st),
                *final(st),
                r,
            ),
        },
{
    let mut out = ActionWork {
        writes: Vec::new(),
        save: false,
        sync_hook: false,
        toggle_autostart: false,
        keep_open: false,
        exit: false,
    };
    match action {
        HostAction::SetSpeed(v) => {
            out.writes.push(speed_set(model, st, v));
            out.sync_hook = true;
            out.keep_open = true;
        },
        HostAction::ResetDefault => {
            out.writes.push(speed_set(model, st, SPEED_DEFAULT));
            out.writes.push(wheel_set(model, st, WHEEL_DEFAULT));
            out.sync_hook = true;
            out.keep_open = true;
        },
        HostAction::ToggleAutostart => {
            out.toggle_autostart = true;
            out.keep_open = true;
        },
        HostAction::SetRule(i) => {
            if i < model.devs.len() {
                let d = &model.devs[i];
                if let (Some(v), Some(p)) = (&d.vid, &d.pid) {
                    out.writes = st.store_rule(
                        v.as_str(),
                        p.as_str(),
                        sys.speed,
                        Some(sys.wheel),
                        &d.name,
                        sys,
                    );
                    out.save = true;
                    out.sync_hook = true;
                }
            }
        },
        HostAction::SetRuleWithSpeed(i, sp, wh, scroll) => {
            if i < model.devs.len() {
                let d = &model.devs[i];
                if let (Some(v), Some(p)) = (&d.vid, &d.pid) {
                    out.writes = st.store_rule_with_scroll(
                        v.as_str(),
                        p.as_str(),
                        sp,
                        Some(wh),
                        scroll,
                        &d.name,
                        sys,
                    );
                    out.save = true;
                    out.sync_hook = true;
                }
            }
        },
        HostAction::DelRule(i) => {
            if i < model.devs.len() {
                let d = &model.devs[i];
                if let (Some(v), Some(p)) = (&d.vid, &d.pid) {
                    out.writes = st.delete_rule(v.as_str(), p.as_str(), sys);
                    out.save = true;
                    out.sync_hook = true;
                }
            }
        },
        HostAction::Reapply(_) => {
            out.writes = st.reapply(sys);
            out.sync_hook = true;
        },
        HostAction::Exit => {
            out.exit = true;
        },
    }
    out
}


pub const VK_RETURN: u32 = 0x0D;

pub const VK_ESCAPE: u32 = 0x1B;

pub const VK_SPACE: u32 = 0x20;

pub const VK_LEFT: u32 = 0x25;

pub const VK_UP: u32 = 0x26;

pub const VK_RIGHT: u32 = 0x27;

pub const VK_DOWN: u32 = 0x28;

/// What follows from a key.
#[derive(Debug, Clone, Copy, PartialEq, Eq, Structural)]
pub enum KeyWork {
    /// Nothing.
    Ignore,
    CloseMenu,
    /// Carry this out.
    Run(HostAction),
    /// The focus moved; draw the menu anew.
    Redraw,
    /// Make this change in the system.
    Write(SpeedWrite),
}

/// What clicking on something in the menu asks for; device rows and the entry
/// for the other devices ask for nothing.
pub open spec fn click_action(t: Target) -> Option<HostAction> {
    match t {
        Target::Reset => Some(HostAction::ResetDefault),
        Target::Autostart => Some(HostAction::ToggleAutostart),
        Target::Exit => Some(HostAction::Exit),
        _ => None,
    }
}

/// What is pressed when the button goes down over `t`: only commands are.
pub open spec fn press(t: Option<Target>) -> Option<Target> {
    if t is Some && click_action(t->0) is Some {
        t
    } else {
        None
    }
}

/// What runs when the button comes up over `t` with `pressed` pressed.
pub open spec fn fired(pressed: Option<Target>, t: Option<Target>) -> Option<HostAction> {
    if t is Some && t == pressed {
        click_action(t->0)
    } else {
        None
    }
}

fn action_of(t: Target) -> (r: Option<HostAction>)
    ensures
        r == click_action(t),
{
    match t {
        Target::Reset => Some(HostAction::ResetDefault),
        Target::Autostart => Some(HostAction::ToggleAutostart),
        Target::Exit => Some(HostAction::Exit),
        _ => None,
    }
}

fn same_target(a: Option<Target>, b: Option<Target>) -> (r: bool)
    ensures
        r == (a == b),
{
    match (a, b) {
        (Some(x), Some(y)) => x == y,
        (None, None) => true,
        _ => false,
    }
}

impl HostUi {
    /// The target in the menu at a position.
    pub open spec fn target_is(&self, x: Dip, y: Dip, t: Option<Target>) -> bool {
        is_target_at(x as int, y as int, self.ruled@.len() as int, t)
    }

    /// The state once `t` is pointed at: a device row wants its submenu, the
    /// entry for the other devices their list.
    pub open spec fn pointing_at(&self, t: Option<Target>) -> HostUi {
        match t {
            Some(Target::Device(l)) => self.pointing_at_ruled(Some(l)),
            Some(Target::OtherDevices) => HostUi {
                other_entry_hovered: true,
                ..self.pointing_at_ruled(None)
            },
            _ => self.pointing_at_ruled(None),
        }
    }

    /// The pointer moved in the menu; returns whether to draw it anew.
    pub fn on_menu_move(&mut self, x: Dip, y: Dip) -> (redraw: bool)
        ensures
            forall|t: Option<Target>| #[trigger]
                old(self).target_is(x, y, t) ==> {
                    &&& redraw == (t != old(self).hover)
                    &&& *final(self) == (HostUi { hover: t, ..old(self).pointing_at(t) })
                },
    {
        let h = hover_at(x, y, self.ruled.len());
        let redraw = !same_target(h, self.hover);
        self.hover = h;
        match h {
            Some(Target::Device(l)) => {
                self.update_hover_ruled(Some(l));
            },
            Some(Target::OtherDevices) => {
                self.update_hover_ruled(None);
                self.other_entry_hovered = true;
            },
            _ => {
                self.update_hover_ruled(None);
            },
        }
        proof {
            assert forall|t: Option<Target>| #[trigger] old(self).target_is(x, y, t) implies t
                == h by {
                law_one_target(x as int, y as int, old(self).ruled@.len() as int, t, h);
            }
        }
        redraw
    }

    /// The state once the pointer left the menu.
    pub open spec fn left_menu(&self, inside_other: bool, inside_sub: bool) -> HostUi {
        let left = HostUi { pressed: None, hover: None, ..*self };
        if (inside_other && self.other_open) || (inside_sub && self.sub_open) {
            left
        } else {
            left.pointing_at_ruled(None)
        }
    }

    /// The pointer left the menu; returns whether to draw it anew. Inside the
    /// submenu or the list of other devices, what is open stays wanted.
    pub fn on_menu_leave(&mut self, inside_other: bool, inside_sub: bool) -> (redraw: bool)
        ensures
            redraw == old(self).hover is Some,
            *final(self) == old(self).left_menu(inside_other, inside_sub),
    {
        let redraw = self.hover.is_some();
        self.pressed = None;
        self.hover = None;
        if !(inside_other && self.other_open) && !(inside_sub && self.sub_open) {
            self.update_hover_ruled(None);
        }
        redraw
    }

    /// The button went down in the menu: a command under it is pressed. Returns
    /// whether to draw the menu anew.
    pub fn on_menu_down(&mut self, x: Dip, y: Dip) -> (redraw: bool)
        ensures
            forall|t: Option<Target>| #[trigger]
                old(self).target_is(x, y, t) ==> redraw == press(t) is Some && *final(self) == (
                HostUi { pressed: press(t), ..*old(self) }),
    {
        let h = hover_at(x, y, self.ruled.len());
        self.pressed = match h {
            Some(t) => if action_of(t).is_some() {
                Some(t)
            } else {
                None
            },
            None => None,
        };
        proof {
            assert forall|t: Option<Target>| #[trigger] old(self).target_is(x, y, t) implies t
                == h by {
                law_one_target(x as int, y as int, old(self).ruled@.len() as int, t, h);
            }
        }
        self.pressed.is_some()
    }

    /// The button went up in the menu: the command that is pressed runs, if the
    /// pointer is still over it.
    pub fn on_menu_up(&mut self, x: Dip, y: Dip) -> (r: Option<HostAction>)
        ensures
            forall|t: Option<Target>| #[trigger]
                old(self).target_is(x, y, t) ==> r == fired(old(self).pressed, t),
            *final(self) == (HostUi { pressed: None, ..*old(self) }),
    {
        let h = hover_at(x, y, self.ruled.len());
        let pressed = self.pressed;
        self.pressed = None;
        proof {
            assert forall|t: Option<Target>| #[trigger] old(self).target_is(x, y, t) implies t
                == h by {
                law_one_target(x as int, y as int, old(self).ruled@.len() as int, t, h);
            }
        }
        match h {
            Some(t) => if same_target(h, pressed) {
                action_of(t)
            } else {
                None
            },
            None => None,
        }
    }

    /// How many rows can have the keyboard focus: the devices with rules, the
    /// entry for the other devices, autostart and exit.
    pub open spec fn focus_rows(&self) -> int {
        self.ruled@.len() + 3int
    }

    /// What activating the row with the focus asks for; without a focus it is
    /// the exit.
    pub open spec fn focus_action(&self) -> Option<HostAction> {
        match self.model.kb_focus {
            Some(i) => if i < self.ruled@.len() + 1 {
                None
            } else if i == self.ruled@.len() + 1 {
                Some(HostAction::ToggleAutostart)
            } else {
                Some(HostAction::Exit)
            },
            None => Some(HostAction::Exit),
        }
    }

    /// The keyboard focus, and nothing pointed at.
    pub open spec fn with_focus(&self, i: int) -> HostUi {
        HostUi {
            model: MenuModel { kb_focus: Some(i as usize), ..self.model },
            hover: None,
            ..*self
        }
    }

    /// What activating the row with the focus asks for.
    pub fn activate_focus(&self) -> (r: Option<HostAction>)
        requires
            self.focus_rows() <= usize::MAX,
        ensures
            r == self.focus_action(),
    {
        let n: usize = self.ruled.len();
        match self.model.kb_focus {
            Some(i) => if i < n + 1 {
                None
            } else if i == n + 1 {
                Some(HostAction::ToggleAutostart)
            } else {
                Some(HostAction::Exit)
            },
            None => Some(HostAction::Exit),
        }
    }

    /// Moves the keyboard focus to the next row.
    pub fn focus_next(&mut self)
        requires
            old(self).focus_rows() <= usize::MAX,
            old(self).model.kb_focus matches Some(i) ==> i < usize::MAX,
        ensures
            *final(self) == old(self).with_focus(
                focus_after(old(self).model.kb_focus, old(self).focus_rows()),
            ),
    {
        let n: usize = self.ruled.len() + 3;
        self.model.kb_focus = Some(
            match self.model.kb_focus {
                Some(i) => (i + 1) % n,
                None => 0,
            },
        );
        self.hover = None;
    }

    /// Moves the keyboard focus to the row before.
    pub fn focus_prev(&mut self)
        requires
            old(self).focus_rows() <= usize::MAX,
        ensures
            *final(self) == old(self).with_focus(
                focus_before(old(self).model.kb_focus, old(self).focus_rows()),
            ),
    {
        let n: usize = self.ruled.len() + 3;
        self.model.kb_focus = Some(
            match self.model.kb_focus {
                Some(i) => if i == 0 {
                    n - 1
                } else {
                    i - 1
                },
                None => n - 1,
            },
        );
        self.hover = None;
    }

    /// What follows from a key in the menu.
    pub open spec fn key_work(&self, vk: u32) -> KeyWork {
        let v = nudged(self.model.speed_val, if vk == VK_RIGHT {
            1
        } else {
            -1
        });
        if vk == VK_ESCAPE {
            KeyWork::CloseMenu
        } else if vk == VK_RETURN || vk == VK_SPACE {
            match self.focus_action() {
                Some(a) => KeyWork::Run(a),
                None => KeyWork::Ignore,
            }
        } else if vk == VK_DOWN || vk == VK_UP {
            KeyWork::Redraw
        } else if (vk == VK_RIGHT || vk == VK_LEFT) && v != self.model.speed_val {
            KeyWork::Write(SpeedWrite::Pointer(v))
        } else {
            KeyWork::Ignore
        }
    }

    /// The row with the focus after a key in the menu.
    pub open spec fn focus_by_key(&self, vk: u32) -> Option<int> {
        if vk == VK_DOWN {
            Some(focus_after(self.model.kb_focus, self.focus_rows()))
        } else if vk == VK_UP {
            Some(focus_before(self.model.kb_focus, self.focus_rows()))
        } else {
            match self.model.kb_focus {
                Some(i) => Some(i as int),
                None => None,
            }
        }
    }

    /// The state after a key in the menu.
    pub open spec fn keyed(&self, vk: u32) -> HostUi {
        if vk == VK_DOWN || vk == VK_UP {
            self.with_focus(self.focus_by_key(vk)->0)
        } else {
            match self.key_work(vk) {
                KeyWork::Write(SpeedWrite::Pointer(v)) => HostUi {
                    model: MenuModel { speed_val: v, pending_speed: None, ..self.model },
                    ..*self
                },
                _ => *self,
            }
        }
    }

    /// A key went down in the menu: Escape closes it, Return and Space activate
    /// the row with the focus, up and down move the focus, left and right the
    /// pointer speed.
    pub fn on_menu_key(&mut self, st: &mut AppState, vk: u32) -> (r: KeyWork)
        requires
            old(self).focus_rows() <= usize::MAX,
            old(self).model.kb_focus matches Some(i) ==> i < usize::MAX,
        ensures
            final(st).saved == old(st).saved,
            r == old(self).key_work(vk),
            final(st)@ == (match r {
                KeyWork::Write(SpeedWrite::Pointer(v)) => old(st)@.with_manual_speed(v),
                _ => old(st)@,
            }),
            *final(self) == old(self).keyed(vk),
    {
        if vk == VK_ESCAPE {
            return KeyWork::CloseMenu;
        }
        if vk == VK_RETURN || vk == VK_SPACE {
            return match self.activate_focus() {
                Some(a) => KeyWork::Run(a),
                None => KeyWork::Ignore,
            };
        }
        if vk == VK_DOWN {
            self.focus_next();
            return KeyWork::Redraw;
        }
        if vk == VK_UP {
            self.focus_prev();
            return KeyWork::Redraw;
        }
        if vk == VK_RIGHT || vk == VK_LEFT {
            let delta: i32 = if vk == VK_RIGHT { 1 } else { -1 };
            return match nudge_speed(&mut self.model, st, delta) {
                Some(w) => KeyWork::Write(w),
                None => KeyWork::Ignore,
            };
        }
        KeyWork::Ignore
    }
}

/// A command runs only where the button both went down and came up, and then
/// it is the command there.
pub proof fn law_command_needs_press_and_release(down: Option<Target>, up: Option<Target>)
    ensures
        fired(press(down), up) is Some ==> down == up,
        down == up && down is Some ==> fired(press(down), up) == click_action(down->0),
{
}

/// What follows from a message of a slider's own window.
#[derive(Debug, Clone, Copy, PartialEq, Eq, Structural)]
pub struct TrackbarWork {
    /// Ask to be told when the pointer leaves.
    pub track_leave: bool,
    /// Tell the host that the pointer left.
    pub tell_left: bool,
    pub close_menu: bool,
    /// The tool is to end.
    pub quit: bool,
    /// The answer to the message; `None` leaves it to the system.
    pub answer: Option<i32>,
}

pub const WM_ERASEBKGND: u32 = 0x0014;

pub const WM_KEYDOWN: u32 = 0x0100;

pub const WM_CHAR: u32 = 0x0102;

pub const WM_MOUSELEAVE: u32 = 0x02A3;

/// The slider is one of the submenu's.
pub open spec fn is_sub_slider(uid: usize) -> bool {
    uid == 3 || uid == 4 || uid == 5
}

/// What follows from a message of the slider numbered `uid`.
pub open spec fn trackbar_work(uid: usize, msg: u32, key: u32) -> TrackbarWork {
    let escape = msg == WM_KEYDOWN && key == VK_ESCAPE;
    let letter_q = msg == WM_CHAR && (key % 256 == 0x71 || key % 256 == 0x51);
    TrackbarWork {
        track_leave: is_sub_slider(uid) && msg == WM_MOUSEMOVE,
        tell_left: is_sub_slider(uid) && msg == WM_MOUSELEAVE,
        close_menu: escape,
        quit: letter_q,
        answer: if msg == WM_ERASEBKGND {
            Some(1i32)
        } else if escape || letter_q {
            Some(0i32)
        } else {
            None
        },
    }
}

/// A message of the slider numbered `uid`. Its background is drawn elsewhere;
/// Escape closes the menu and the letter Q ends the tool, since the menu does
/// not get keys while a slider has the focus; the submenu's sliders report the
/// pointer leaving them.
pub fn on_trackbar_message(uid: usize, msg: u32, key: u32) -> (r: TrackbarWork)
    ensures
        r == trackbar_work(uid, msg, key),
{
    let mut work = TrackbarWork {
        track_leave: false,
        tell_left: false,
        close_menu: false,
        quit: false,
        answer: None,
    };
    if msg == WM_ERASEBKGND {
        work.answer = Some(1);
        return work;
    }
    if uid == 3 || uid == 4 || uid == 5 {
        if msg == WM_MOUSEMOVE {
            work.track_leave = true;
        }
        if msg == WM_MOUSELEAVE {
            work.tell_left = true;
        }
    }
    if msg == WM_KEYDOWN && key == VK_ESCAPE {
        work.close_menu = true;
        work.answer = Some(0);
    } else if msg == WM_CHAR && (key % 256 == 0x71 || key % 256 == 0x51) {
        work.quit = true;
        work.answer = Some(0);
    }
    work
}

/// Stages of drawing a slider.
pub const CDDS_PREPAINT: u32 = 0x0001;

pub const CDDS_ITEMPREPAINT: u32 = 0x10001;

/// Parts of a slider.
pub const TBCD_THUMB: usize = 2;

pub const TBCD_CHANNEL: usize = 3;

/// How a part of a slider is drawn.
#[derive(Debug, Clone, Copy, PartialEq, Eq, Structural)]
pub enum SliderPaint {
    /// Leave it to the system.
    Default,
    /// Fill the background, then ask for the parts.
    Background,
    /// The channel, rounded, in the colour of the border.
    Channel,
    /// The thumb, as an ellipse; in grey while the slider is disabled.
    Thumb { gray: bool },
    /// Nothing.
    Skip,
}

/// How a part of a slider is drawn at a stage.
pub open spec fn part_paint(
    stage: u32,
    item: usize,
    enabled: bool,
    disabled_part: bool,
) -> SliderPaint {
    if stage == CDDS_PREPAINT {
        SliderPaint::Background
    } else if stage != CDDS_ITEMPREPAINT {
        SliderPaint::Default
    } else if item == TBCD_CHANNEL {
        SliderPaint::Channel
    } else if item == TBCD_THUMB {
        SliderPaint::Thumb { gray: !enabled || disabled_part }
    } else {
        SliderPaint::Skip
    }
}

/// How a part of a slider is drawn.
pub fn slider_paint(stage: u32, item: usize, enabled: bool, disabled_part: bool) -> (r: SliderPaint)
    ensures
        r == part_paint(stage, item, enabled, disabled_part),
{
    if stage == CDDS_PREPAINT {
        return SliderPaint::Background;
    }
    if stage == CDDS_ITEMPREPAINT {
        if item == TBCD_CHANNEL {
            return SliderPaint::Channel;
        }
        if item == TBCD_THUMB {
            return SliderPaint::Thumb { gray: !(enabled && !disabled_part) };
        }
        return SliderPaint::Skip;
    }
    SliderPaint::Default
}

/// A text of the menu.
#[derive(Debug, Clone, Copy, PartialEq, Eq, Structural)]
pub enum MenuText {
    Speed,
    Wheel,
    /// The name of the device whose rule is in force.
    EffName,
    /// The speeds of the rule in force.
    EffSpeeds,
    /// The scroll mode of the rule in force.
    EffScroll,
    /// No rule is in force.
    EffNone,
    /// No device has a rule.
    NoDevices,
    /// The device at this place.
    Device(usize),
    Other,
    Autostart,
    Exit,
}

/// A colour of the palette.
#[derive(Debug, Clone, Copy, PartialEq, Eq, Structural)]
pub enum Ink {
    Text,
    Gray,
    HlText,
    BtnHover,
    BtnPressed,
    RowPressed,
    Highlight,
}

/// What is behind a row.
#[derive(Debug, Clone, Copy, PartialEq, Eq, Structural)]
pub enum Back {
    Pressed,
    Hovered,
    /// The frame of the keyboard focus.
    Focused,
}

/// One stroke of drawing the menu.
#[derive(Debug, Clone, Copy, PartialEq, Eq, Structural)]
pub enum MenuOp {
    /// A text that begins at `x`, in the middle at `cy`.
    Text { id: MenuText, x: Dip, cy: Dip, ink: Ink },
    /// The reset button: what fills it, and the colour of its text.
    ResetButton { fill: Option<Ink>, ink: Ink },
    /// A line across the menu.
    Separator { y: Dip },
    RowBack { top: Dip, back: Back },
    /// A check mark.
    Check { cy: Dip, ink: Ink },
    /// The mark of a device with a rule.
    Gear { cy: Dip, ink: Ink },
    /// The mark of a device with scroll mode.
    ScrollMark { cy: Dip, ink: Ink },
    /// The mark of a row with a submenu.
    Arrow { right: Dip, cy: Dip, ink: Ink },
}

/// What is behind a row: pressed comes before pointed at, and the focus shows
/// only without both.
pub open spec fn row_back(top: int, hovered: bool, pressed: bool, focused: bool) -> Seq<MenuOp> {
    if pressed {
        seq![MenuOp::RowBack { top: top as Dip, back: Back::Pressed }]
    } else if hovered {
        seq![MenuOp::RowBack { top: top as Dip, back: Back::Hovered }]
    } else if focused {
        seq![MenuOp::RowBack { top: top as Dip, back: Back::Focused }]
    } else {
        seq![]
    }
}

/// The stroke, where it is made.
pub open spec fn op_if(yes: bool, op: MenuOp) -> Seq<MenuOp> {
    if yes {
        seq![op]
    } else {
        seq![]
    }
}

/// The row has the keyboard focus.
pub open spec fn has_focus(focus: Option<usize>, row: int) -> bool {
    focus is Some && focus->0 == row
}

/// How the row of a device with a rule is drawn: check mark while its rule is
/// in force, the marks of its rule and of its scroll mode, its text, and the
/// mark of its submenu.
pub open spec fn device_row_ops(ui: HostUi, l: int) -> Seq<MenuOp> {
    let g = ui.ruled@[l];
    let d = ui.model.devs@[g as int];
    let scroll = ui.scrolls@[g as int];
    let top = device_y(l);
    let cy = (top + 13) as Dip;
    let hovered = ui.hover == Some(Target::Device(l as usize));
    let ink = if hovered {
        Ink::HlText
    } else {
        Ink::Text
    };
    row_back(top, hovered, false, has_focus(ui.model.kb_focus, l)) + op_if(
        d.is_effective && d.rule_speed is Some,
        MenuOp::Check { cy, ink },
    ) + op_if(d.rule_speed is Some, MenuOp::Gear { cy, ink }) + op_if(
        scroll is Some && (scroll->0).enabled,
        MenuOp::ScrollMark { cy, ink },
    ) + seq![
        MenuOp::Text {
            id: MenuText::Device(g),
            x: (PAD + CHECK_W + RULE_ICON_W + (if scroll is Some {
                RULE_ICON_W as int
            } else {
                0
            })) as Dip,
            cy,
            ink,
        },
    ] + seq![MenuOp::Arrow { right: (MENU_W - PAD) as Dip, cy, ink }]
}

/// How the first `k` device rows are drawn.
pub open spec fn device_rows_ops(ui: HostUi, k: int) -> Seq<MenuOp>
    decreases k,
{
    if k <= 0 {
        seq![]
    } else {
        device_rows_ops(ui, k - 1) + device_row_ops(ui, k - 1)
    }
}

/// How the entry for the other devices is drawn.
pub open spec fn other_row_ops(ui: HostUi) -> Seq<MenuOp> {
    let n = ui.ruled@.len() as int;
    let top = other_y(n);
    let hovered = ui.hover == Some(Target::OtherDevices);
    let focused = has_focus(ui.model.kb_focus, n);
    let ink = if hovered || focused {
        Ink::HlText
    } else {
        Ink::Text
    };
    let cy = (top + 13) as Dip;
    row_back(top, hovered, false, focused) + seq![
        MenuOp::Text { id: MenuText::Other, x: (PAD + CHECK_W) as Dip, cy, ink },
    ] + seq![MenuOp::Arrow { right: (MENU_W - PAD) as Dip, cy, ink }]
}

/// How the autostart row or the exit row is drawn.
pub open spec fn command_row_ops(
    ui: HostUi,
    t: Target,
    id: MenuText,
    top: int,
    row: int,
    checked: bool,
) -> Seq<MenuOp> {
    let hovered = ui.hover == Some(t);
    let pressed = ui.pressed == Some(t);
    let ink = if hovered || pressed {
        Ink::HlText
    } else {
        Ink::Text
    };
    let cy = (top + 13) as Dip;
    row_back(top, hovered, pressed, has_focus(ui.model.kb_focus, row)) + op_if(
        checked,
        MenuOp::Check { cy, ink },
    ) + seq![MenuOp::Text { id, x: (PAD + CHECK_W) as Dip, cy, ink }]
}

/// The colour of a value: grey while it is dragged and not yet applied.
pub open spec fn value_ink(pending: Option<u32>) -> Ink {
    if pending is Some {
        Ink::Gray
    } else {
        Ink::Text
    }
}

/// How the reset button is drawn.
pub open spec fn reset_op(ui: HostUi) -> MenuOp {
    let hovered = ui.hover == Some(Target::Reset);
    let pressed = ui.pressed == Some(Target::Reset);
    MenuOp::ResetButton {
        fill: if pressed {
            Some(Ink::BtnPressed)
        } else if hovered {
            Some(Ink::BtnHover)
        } else {
            None
        },
        ink: if pressed || hovered {
            Ink::HlText
        } else {
            Ink::Text
        },
    }
}

/// How the part above the rule in force is drawn.
pub open spec fn head_ops(ui: HostUi) -> Seq<MenuOp> {
    seq![
        MenuOp::Text {
            id: MenuText::Speed,
            x: PAD,
            cy: 13,
            ink: value_ink(ui.model.pending_speed),
        },
        reset_op(ui),
        MenuOp::Text {
            id: MenuText::Wheel,
            x: PAD,
            cy: (wheel_label_y() + 13) as Dip,
            ink: value_ink(ui.model.pending_wheel),
        },
        MenuOp::Separator { y: (wheel_slider_y() + SLIDER_H + 4) as Dip },
    ]
}

/// A grey line of text about the rule in force.
pub open spec fn eff_op(id: MenuText, down: int) -> MenuOp {
    MenuOp::Text { id, x: PAD, cy: (eff_y() + down) as Dip, ink: Ink::Gray }
}

/// How the lines about the rule in force are drawn.
pub open spec fn eff_ops(known: bool) -> Seq<MenuOp> {
    if known {
        seq![
            eff_op(MenuText::EffName, 11),
            eff_op(MenuText::EffSpeeds, 33),
            eff_op(MenuText::EffScroll, 55),
        ]
    } else {
        seq![eff_op(MenuText::EffNone, 33)]
    }
}

/// How the whole menu is drawn.
pub open spec fn menu_ops(ui: HostUi) -> Seq<MenuOp> {
    let n = ui.ruled@.len() as int;
    head_ops(ui) + eff_ops(ui.effective is Some) + seq![
        MenuOp::Separator { y: (eff_y() + EFF_INFO_H + 4) as Dip },
    ] + op_if(
        n == 0,
        MenuOp::Text {
            id: MenuText::NoDevices,
            x: PAD,
            cy: (device_y(0) + 11) as Dip,
            ink: Ink::Gray,
        },
    ) + device_rows_ops(ui, n) + other_row_ops(ui) + seq![
        MenuOp::Separator { y: (autostart_y(n) - SEP_H + 4) as Dip },
    ] + command_row_ops(
        ui,
        Target::Autostart,
        MenuText::Autostart,
        autostart_y(n),
        n + 1,
        ui.model.autostart_on,
    ) + seq![MenuOp::Separator { y: (exit_y(n) - SEP_H + 4) as Dip }] + command_row_ops(
        ui,
        Target::Exit,
        MenuText::Exit,
        exit_y(n),
        n + 2,
        false,
    )
}

fn push_op(ops: &mut Vec<MenuOp>, op: MenuOp)
    ensures
        final(ops)@ == old(ops)@ + seq![op],
{
    ops.push(op);
    assert(ops@ =~= old(ops)@ + seq![op]);
}

fn push_op_if(ops: &mut Vec<MenuOp>, yes: bool, op: MenuOp)
    ensures
        final(ops)@ == old(ops)@ + op_if(yes, op),
{
    if yes {
        ops.push(op);
    }
    assert(ops@ =~= old(ops)@ + op_if(yes, op));
}

fn push_back(ops: &mut Vec<MenuOp>, top: Dip, hovered: bool, pressed: bool, focused: bool)
    ensures
        final(ops)@ == old(ops)@ + row_back(top as int, hovered, pressed, focused),
{
    if pressed {
        ops.push(MenuOp::RowBack { top, back: Back::Pressed });
    } else if hovered {
        ops.push(MenuOp::RowBack { top, back: Back::Hovered });
    } else if focused {
        ops.push(MenuOp::RowBack { top, back: Back::Focused });
    }
    assert(ops@ =~= old(ops)@ + row_back(top as int, hovered, pressed, focused));
}

fn focus_is(focus: Option<usize>, row: usize) -> (r: bool)
    ensures
        r == has_focus(focus, row as int),
{
    match focus {
        Some(i) => i == row,
        None => false,
    }
}

fn row_ink(lit: bool) -> (r: Ink)
    ensures
        r == (if lit {
            Ink::HlText
        } else {
            Ink::Text
        }),
{
    if lit {
        Ink::HlText
    } else {
        Ink::Text
    }
}

proof fn lemma_add_assoc(a: Seq<MenuOp>, b: Seq<MenuOp>, c: Seq<MenuOp>)
    ensures
        (a + b) + c == a + (b + c),
{
    assert((a + b) + c =~= a + (b + c));
}

impl HostUi {
    fn push_device_row(&self, ops: &mut Vec<MenuOp>, l: usize)
        requires
            self.wf(),
            l < self.ruled@.len(),
        ensures
            final(ops)@ == old(ops)@ + device_row_ops(*self, l as int),
    {
        proof {
            self.lemma_places(l as int);
        }
        let g: usize = self.ruled[l];
        let d = &self.model.devs[g];
        let scroll = self.scrolls[g];
        let top: Dip = device_top(l);
        let cy: Dip = top + 13;
        let hovered = same_target(self.hover, Some(Target::Device(l)));
        let ink = row_ink(hovered);
        let icon: Dip = if scroll.is_some() { RULE_ICON_W } else { 0 };
        let scrolls = match scroll {
            Some(c) => c.enabled,
            None => false,
        };
        let mut row: Vec<MenuOp> = Vec::new();
        push_back(&mut row, top, hovered, false, focus_is(self.model.kb_focus, l));
        assert(row@ =~= row_back(top as int, hovered, false, has_focus(self.model.kb_focus, l as int)));
        push_op_if(
            &mut row,
            d.is_effective && d.rule_speed.is_some(),
            MenuOp::Check { cy, ink },
        );
        push_op_if(&mut row, d.rule_speed.is_some(), MenuOp::Gear { cy, ink });
        push_op_if(&mut row, scrolls, MenuOp::ScrollMark { cy, ink });
        push_op(
            &mut row,
            MenuOp::Text {
                id: MenuText::Device(g),
                x: PAD + CHECK_W + RULE_ICON_W + icon,
                cy,
                ink,
            },
        );
        push_op(&mut row, MenuOp::Arrow { right: MENU_W - PAD, cy, ink });
        ops.append(&mut row);
    }

    fn push_other_row(&self, ops: &mut Vec<MenuOp>)
        ensures
            final(ops)@ == old(ops)@ + other_row_ops(*self),
    {
        let n: usize = self.ruled.len();
        let top: Dip = other_top(n);
        let cy: Dip = top + 13;
        let hovered = same_target(self.hover, Some(Target::OtherDevices));
        let focused = focus_is(self.model.kb_focus, n);
        let ink = row_ink(hovered || focused);
        let mut row: Vec<MenuOp> = Vec::new();
        push_back(&mut row, top, hovered, false, focused);
        assert(row@ =~= row_back(top as int, hovered, false, focused));
        push_op(
            &mut row,
            MenuOp::Text { id: MenuText::Other, x: PAD + CHECK_W, cy, ink },
        );
        push_op(&mut row, MenuOp::Arrow { right: MENU_W - PAD, cy, ink });
        ops.append(&mut row);
    }

    fn push_command_row(
        &self,
        ops: &mut Vec<MenuOp>,
        t: Target,
        id: MenuText,
        top: Dip,
        focused: bool,
        checked: bool,
        Ghost(place): Ghost<int>,
    )
        requires
            0 <= top < 0x1000_0000_0000_0000_0000_0000,
            focused == has_focus(self.model.kb_focus, place),
        ensures
            final(ops)@ == old(ops)@ + command_row_ops(*self, t, id, top as int, place, checked),
    {
        let cy: Dip = top + 13;
        let hovered = same_target(self.hover, Some(t));
        let pressed = same_target(self.pressed, Some(t));
        let ink = row_ink(hovered || pressed);
        let mut row: Vec<MenuOp> = Vec::new();
        push_back(&mut row, top, hovered, pressed, focused);
        assert(row@ =~= row_back(top as int, hovered, pressed, focused));
        push_op_if(&mut row, checked, MenuOp::Check { cy, ink });
        push_op(&mut row, MenuOp::Text { id, x: PAD + CHECK_W, cy, ink });
        ops.append(&mut row);
    }

    fn push_head(&self, ops: &mut Vec<MenuOp>)
        ensures
            final(ops)@ == old(ops)@ + head_ops(*self),
    {
        let hovered = same_target(self.hover, Some(Target::Reset));
        let pressed = same_target(self.pressed, Some(Target::Reset));
        let fill = if pressed {
            Some(Ink::BtnPressed)
        } else if hovered {
            Some(Ink::BtnHover)
        } else {
            None
        };
        let speed_ink = if self.model.pending_speed.is_some() {
            Ink::Gray
        } else {
            Ink::Text
        };
        let wheel_ink = if self.model.pending_wheel.is_some() {
            Ink::Gray
        } else {
            Ink::Text
        };
        ops.push(MenuOp::Text { id: MenuText::Speed, x: PAD, cy: 13, ink: speed_ink });
        ops.push(MenuOp::ResetButton { fill, ink: row_ink(pressed || hovered) });
        ops.push(
            MenuOp::Text {
                id: MenuText::Wheel,
                x: PAD,
                cy: wheel_label_top() + 13,
                ink: wheel_ink,
            },
        );
        ops.push(MenuOp::Separator { y: wheel_slider_top() + SLIDER_H + 4 });
        assert(ops@ =~= old(ops)@ + head_ops(*self));
    }

    fn push_eff(&self, ops: &mut Vec<MenuOp>)
        ensures
            final(ops)@ == old(ops)@ + eff_ops(self.effective is Some),
    {
        let y: Dip = eff_top();
        if self.effective.is_some() {
            ops.push(MenuOp::Text { id: MenuText::EffName, x: PAD, cy: y + 11, ink: Ink::Gray });
            ops.push(MenuOp::Text { id: MenuText::EffSpeeds, x: PAD, cy: y + 33, ink: Ink::Gray });
            ops.push(MenuOp::Text { id: MenuText::EffScroll, x: PAD, cy: y + 55, ink: Ink::Gray });
        } else {
            ops.push(MenuOp::Text { id: MenuText::EffNone, x: PAD, cy: y + 33, ink: Ink::Gray });
        }
        assert(ops@ =~= old(ops)@ + eff_ops(self.effective is Some));
    }

    /// How the menu is drawn, from the bottom layer up.
    pub fn draw_menu(&self) -> (r: Vec<MenuOp>)
        requires
            self.wf(),
        ensures
            r@ == menu_ops(*self),
    {
        let n: usize = self.ruled.len();
        let mut ops: Vec<MenuOp> = Vec::new();
        self.push_head(&mut ops);
        assert(ops@ =~= head_ops(*self));
        self.push_eff(&mut ops);
        push_op(&mut ops, MenuOp::Separator { y: eff_top() + EFF_INFO_H + 4 });
        push_op_if(
            &mut ops,
            n == 0,
            MenuOp::Text {
                id: MenuText::NoDevices,
                x: PAD,
                cy: device_top(0) + 11,
                ink: Ink::Gray,
            },
        );
        let ghost above = ops@;
        assert(ops@ =~= above + device_rows_ops(*self, 0));
        for l in 0..n
            invariant
                self.wf(),
                n == self.ruled@.len(),
                ops@ == above + device_rows_ops(*self, l as int),
        {
            self.push_device_row(&mut ops, l);
            proof {
                lemma_add_assoc(
                    above,
                    device_rows_ops(*self, l as int),
                    device_row_ops(*self, l as int),
                );
            }
        }
        self.push_other_row(&mut ops);
        let auto: Dip = autostart_top(n);
        push_op(&mut ops, MenuOp::Separator { y: auto - SEP_H + 4 });
        let on_auto = match self.model.kb_focus {
            Some(i) => i >= n && i - n == 1,
            None => false,
        };
        self.push_command_row(
            &mut ops,
            Target::Autostart,
            MenuText::Autostart,
            auto,
            on_auto,
            self.model.autostart_on,
            Ghost(n + 1),
        );
        let exit: Dip = exit_top(n);
        push_op(&mut ops, MenuOp::Separator { y: exit - SEP_H + 4 });
        let on_exit = match self.model.kb_focus {
            Some(i) => i >= n && i - n == 2,
            None => false,
        };
        self.push_command_row(
            &mut ops,
            Target::Exit,
            MenuText::Exit,
            exit,
            on_exit,
            false,
            Ghost(n + 2),
        );
        ops
    }
}

/// The line about the speeds of a rule.
pub open spec fn speeds_text(speed: u32, wheel: Option<u32>) -> Seq<char> {
    "指针: "@ + dec(speed as nat) + " · 滚轮: "@ + wheel_word(wheel)
}

/// The wheel lines of a rule as shown; a rule may leave them alone.
pub open spec fn wheel_word(wheel: Option<u32>) -> Seq<char> {
    match wheel {
        Some(w) => dec(w as nat),
        None => "保持"@,
    }
}

/// The trigger key as shown.
pub open spec fn kb_word(kb: Option<KbTrigger>) -> Seq<char> {
    match kb {
        Some(k) => "键盘 "@ + key_label(canonical(k.vk)),
        None => "无"@,
    }
}

/// The line about the scroll mode of a rule; without settings, fresh ones.
pub open spec fn scroll_line(scroll: Option<ScrollCfg>) -> Seq<char> {
    let c = match scroll {
        Some(c) => c,
        None => ScrollCfg::initial(),
    };
    (if c.enabled {
        "滚轮模式: 开 · "@
    } else {
        "滚轮模式: 关 · "@
    }) + c.trigger.label_text() + " · "@ + kb_word(c.kb_trigger) + " · "@ + dec(
        c.px_per_line as nat,
    ) + " 像素/行"@
}

impl EffectiveInfo {
    /// The line that names the device.
    pub fn name_line(&self) -> (r: String)
        ensures
            r@ == "生效规则: "@ + self.name@,
    {
        "生效规则: ".to_owned().concat(self.name.as_str())
    }

    /// The line about its speeds.
    pub fn speeds_line(&self) -> (r: String)
        ensures
            r@ == speeds_text(self.speed, self.wheel),
    {
        let mut s = "指针: ".to_owned();
        push_dec(&mut s, self.speed);
        s.append(" · 滚轮: ");
        match self.wheel {
            Some(w) => push_dec(&mut s, w),
            None => s.append("保持"),
        }
        s
    }

    /// The line about its scroll mode.
    pub fn scroll_mode_line(&self) -> (r: String)
        ensures
            r@ == scroll_line(self.scroll),
    {
        let c = match self.scroll {
            Some(c) => c,
            None => ScrollCfg::default(),
        };
        let kb = match c.kb_trigger {
            Some(k) => "键盘 ".to_owned().concat(k.label().as_str()),
            None => "无".to_owned(),
        };
        let mut s = if c.enabled {
            "滚轮模式: 开 · ".to_owned()
        } else {
            "滚轮模式: 关 · ".to_owned()
        };
        s.append(c.trigger.label());
        s.append(" · ");
        s.append(kb.as_str());
        s.append(" · ");
        push_dec(&mut s, c.px_per_line);
        s.append(" 像素/行");
        s
    }
}

/// The title above the pointer speed slider.
pub fn speed_label(model: &MenuModel) -> (r: String)
    ensures
        r@ == "指针速度: "@ + dec(
            (match model.pending_speed {
                Some(v) => v,
                None => model.speed_val,
            }) as nat,
        ),
{
    let mut s = "指针速度: ".to_owned();
    push_dec(&mut s, model.display_speed());
    s
}

/// The title above the wheel slider.
pub fn wheel_label(model: &MenuModel) -> (r: String)
    ensures
        r@ == "滚轮: "@ + dec(
            (match model.pending_wheel {
                Some(v) => v,
                None => model.wheel_val,
            }) as nat,
        ),
{
    let mut s = "滚轮: ".to_owned();
    push_dec(&mut s, model.display_wheel());
    s
}

/// The characters of the font are at least eight pixels high, thirteen at the
/// ordinary 96 dots per inch, and never smaller on a finer screen.
pub proof fn law_font_scales_with_the_screen(dpi: int, more: int)
    requires
        0 <= dpi <= more,
    ensures
        font_px(dpi) >= 8,
        font_px(96) == 13,
        font_px(192) == 26,
        font_px(dpi) <= font_px(more),
        dpi >= 96 ==> 96 * font_px(dpi) <= 13 * dpi < 96 * (font_px(dpi) + 1),
{
}

/// A slider message is a drag, letting go, a single step, or nothing to the menu,
/// and only one of these.
pub proof fn law_slider_messages_are_told_apart(notify: u32)
    ensures
        is_release(notify) <==> notify == 4 || notify == 8,
        is_step(notify) <==> notify <= 3 || notify == 6 || notify == 7,
        !(is_release(notify) && is_step(notify)),
        !is_release(TB_THUMBTRACK) && !is_step(TB_THUMBTRACK),
        TB_THUMBTRACK == 5,
{
}

/// Dragging a slider changes nothing that is applied, however often it is moved;
/// letting go applies where it was last dragged to, just where that is something
/// new, and only once. Letting go without dragging applies nothing.
pub proof fn law_slider_applies_when_let_go(
    applied: u32,
    first: Option<u32>,
    at: u32,
    release: u32,
    lo: u32,
    hi: u32,
)
    requires
        lo <= at <= hi,
        lo <= applied <= hi,
        release == 4 || release == 8,
    ensures
        ({
            let drag = slider_step(applied, first, 5, at, lo, hi);
            let done = slider_step(drag.applied, drag.pending, release, at, lo, hi);
            let again = slider_step(done.applied, done.pending, release, at, lo, hi);
            &&& drag.applied == applied && drag.write is None && drag.redraw
            &&& drag.pending == Some(at)
            &&& done.applied == at && done.pending is None
            &&& done.write is Some <==> at != applied
            &&& done.write matches Some(v) ==> v == at
            &&& again.write is None && again.applied == at && again.pending is None
        }),
{
}

/// A single step of a slider is applied at once, just where it is something new;
/// a message that is none of a slider's changes nothing.
pub proof fn law_slider_steps_apply_at_once(
    applied: u32,
    pending: Option<u32>,
    notify: u32,
    at: u32,
    lo: u32,
    hi: u32,
)
    ensures
        ({
            let s = slider_step(applied, pending, notify, at, lo, hi);
            &&& notify <= 3 || notify == 6 || notify == 7 ==> s.applied == at && s.pending is None
                && (s.write is Some <==> at != applied) && (s.write is Some ==> s.write
                == Some(at))
            &&& notify > 8 ==> s.applied == applied && s.pending == pending && s.write is None
                && !s.redraw
            &&& s.write matches Some(v) ==> s.applied == v && s.pending is None
            &&& s.write is None && notify <= 8 ==> s.applied == applied || s.applied == at
        }),
{
}

/// An arrow key moves the speed by one within the range, and the other arrow moves
/// it back; at the ends it stays.
pub proof fn law_arrows_move_by_one(cur: u32)
    ensures
        1 <= cur < 20 ==> nudged(cur, 1) == cur + 1,
        1 < cur <= 20 ==> nudged(cur, -1) == cur - 1,
        1 <= cur < 20 ==> nudged(nudged(cur, 1), -1) == cur,
        nudged(20, 1) == 20,
        nudged(1, -1) == 1,
        forall|d: int| 1 <= #[trigger] nudged(cur, d) <= 20,
{
}

/// Setting the speed, the reset and switching the start keep the menu open;
/// what is done with rules, and the exit, close it.
pub proof fn law_actions_that_keep_open(v: u32, w: u32, i: usize, c: Option<ScrollCfg>)
    ensures
        keeps_open(HostAction::SetSpeed(v)) && keeps_open(HostAction::ResetDefault) && keeps_open(
            HostAction::ToggleAutostart,
        ),
        !keeps_open(HostAction::SetRule(i)) && !keeps_open(HostAction::DelRule(i)) && !keeps_open(
            HostAction::Reapply(i),
        ) && !keeps_open(HostAction::SetRuleWithSpeed(i, v, w, c)) && !keeps_open(
            HostAction::Exit,
        ),
{
}

/// An action on a device is done just where the device is there and has both ids.
pub proof fn law_rules_need_both_ids(model: MenuModel, i: usize)
    ensures
        ids_at(model, i) is Some <==> i < model.devs@.len() && model.devs@[i as int].vid is Some
            && model.devs@[i as int].pid is Some,
        ids_at(model, i) matches Some((v, p)) ==> model.devs@[i as int].vid == Some(v)
            && model.devs@[i as int].pid == Some(p),
{
}

/// The reset button resets, the row for starting with the system switches that,
/// and the exit row ends the tool; rows that open something ask for nothing and
/// cannot be pressed.
pub proof fn law_each_target_asks_for_its_own(i: usize)
    ensures
        click_action(Target::Reset) == Some(HostAction::ResetDefault),
        click_action(Target::Autostart) == Some(HostAction::ToggleAutostart),
        click_action(Target::Exit) == Some(HostAction::Exit),
        click_action(Target::Device(i)) is None && click_action(Target::OtherDevices) is None,
        press(Some(Target::Device(i))) is None && press(Some(Target::OtherDevices)) is None
            && press(None) is None,
        press(Some(Target::Exit)) == Some(Target::Exit) && press(Some(Target::Reset)) == Some(
            Target::Reset,
        ) && press(Some(Target::Autostart)) == Some(Target::Autostart),
        fired(None, Some(Target::Exit)) is None,
        fired(Some(Target::Exit), None) is None,
        fired(Some(Target::Exit), Some(Target::Reset)) is None,
{
}

/// What has the keyboard focus in the menu, as the pointer would name it: the rows
/// in their order from top to bottom.
pub open spec fn focused_target(i: int, n: int) -> Target {
    if i < n {
        Target::Device(i as usize)
    } else if i == n {
        Target::OtherDevices
    } else if i == n + 1 {
        Target::Autostart
    } else {
        Target::Exit
    }
}

/// Activating a row with the keyboard asks for what clicking it asks for; without
/// a focus it asks for the exit. Moving the focus touches nothing but what is
/// pointed at.
pub proof fn law_keyboard_does_what_clicking_does(ui: HostUi, i: usize)
    requires
        i < ui.focus_rows() <= usize::MAX,
    ensures
        ui.with_focus(i as int).focus_action() == click_action(
            focused_target(i as int, ui.ruled@.len() as int),
        ),
        ui.model.kb_focus is None ==> ui.focus_action() == Some(HostAction::Exit),
        ui.with_focus(i as int).model.kb_focus == Some(i),
        ui.with_focus(i as int).hover is None,
        ui.with_focus(i as int).pressed == ui.pressed,
        ui.with_focus(i as int).model.speed_val == ui.model.speed_val,
        ui.with_focus(i as int).menu_open == ui.menu_open,
        ui.focus_rows() == ui.ruled@.len() + 3,
{
}

/// Escape closes the menu; Return and Space do the same; down and up move the
/// focus by a row, and no other key does; left and right move the speed by one;
/// any other key is ignored.
pub proof fn law_keys_in_the_menu(ui: HostUi, vk: u32)
    requires
        1 <= ui.model.speed_val <= 20,
    ensures
        ui.key_work(0x1B) == KeyWork::CloseMenu,
        ui.key_work(0x0D) == ui.key_work(0x20),
        ui.focus_action() matches Some(a) ==> ui.key_work(0x0D) == KeyWork::Run(a),
        ui.focus_action() is None ==> ui.key_work(0x0D) == KeyWork::Ignore,
        ui.key_work(0x28) == KeyWork::Redraw && ui.key_work(0x26) == KeyWork::Redraw,
        ui.model.speed_val < 20 ==> ui.key_work(0x27) == KeyWork::Write(
            SpeedWrite::Pointer((ui.model.speed_val + 1) as u32),
        ),
        ui.model.speed_val > 1 ==> ui.key_work(0x25) == KeyWork::Write(
            SpeedWrite::Pointer((ui.model.speed_val - 1) as u32),
        ),
        ui.model.speed_val == 20 ==> ui.key_work(0x27) == KeyWork::Ignore,
        ui.model.speed_val == 1 ==> ui.key_work(0x25) == KeyWork::Ignore,
        vk != 0x1B && vk != 0x0D && vk != 0x20 && !(0x25 <= vk <= 0x28) ==> ui.key_work(vk)
            == KeyWork::Ignore,
        vk != 0x28 && vk != 0x26 ==> (ui.focus_by_key(vk) is None <==> ui.model.kb_focus is None),
        vk != 0x28 && vk != 0x26 && ui.model.kb_focus is Some ==> ui.focus_by_key(vk) == Some(
            ui.model.kb_focus->0 as int,
        ),
        ui.model.kb_focus is None ==> ui.focus_by_key(0x28) == Some(0int) && ui.focus_by_key(0x26)
            == Some(ui.ruled@.len() + 2int),
        ui.model.kb_focus matches Some(i) ==> (i < ui.ruled@.len() + 2 ==> ui.focus_by_key(0x28)
            == Some(i + 1)),
        ui.model.kb_focus matches Some(i) ==> (i > 0 ==> ui.focus_by_key(0x26) == Some(i - 1)),
        ui.model.kb_focus matches Some(i) ==> (i == ui.ruled@.len() + 2 ==> ui.focus_by_key(0x28)
            == Some(0int)),
        ui.model.kb_focus == Some(0usize) ==> ui.focus_by_key(0x26) == Some(ui.ruled@.len() + 2int),
        ui.key_work(vk) matches KeyWork::Write(w) ==> w == SpeedWrite::Pointer(
            ui.keyed(vk).model.speed_val,
        ) && ui.keyed(vk).model.pending_speed is None && ui.keyed(vk).hover == ui.hover
            && ui.keyed(vk).model.kb_focus == ui.model.kb_focus,
        !(ui.key_work(vk) is Write) && vk != 0x28 && vk != 0x26 ==> ui.keyed(vk) == ui,
{
    let n = ui.focus_rows();
    vstd::arithmetic::div_mod::lemma_mod_self_0(n);
    if let Some(i) = ui.model.kb_focus {
        if i + 1 < n {
            vstd::arithmetic::div_mod::lemma_small_mod((i + 1) as nat, n as nat);
        }
    }
}

/// Pointing at the entry for the other devices wants their list, and pointing at
/// anything else in the menu does not; pointing at a device wants its submenu.
pub proof fn law_pointing_in_the_menu(ui: HostUi, l: usize)
    requires
        ui.wf(),
        l < ui.ruled@.len(),
    ensures
        ui.pointing_at(Some(Target::OtherDevices)).other_entry_hovered,
        !ui.pointing_at(Some(Target::Device(l))).other_entry_hovered,
        !ui.pointing_at(Some(Target::Exit)).other_entry_hovered,
        !ui.pointing_at(None).other_entry_hovered,
        ui.pointing_at(Some(Target::Device(l))).model.sub_hover is Some && (ui.pointing_at(
            Some(Target::Device(l)),
        ).model.sub_hover->0).0 == ui.ruled@[l as int],
        !ui.model.sub_pointer_inside ==> ui.pointing_at(None).model.sub_hover is None
            && ui.pointing_at(Some(Target::OtherDevices)).model.sub_hover is None
            && ui.pointing_at(Some(Target::Exit)).model.sub_hover is None,
        ui.pointing_at(Some(Target::Reset)) == ui.pointing_at(None),
        ui.pointing_at(Some(Target::Autostart)) == ui.pointing_at(None),
{
    law_pointing_wants_the_submenu(ui, l);
}

/// Leaving the menu leaves nothing pointed at or pressed in it. Going into the
/// open list or the open submenu keeps what is wanted; going elsewhere drops it.
pub proof fn law_leaving_the_menu(ui: HostUi, inside_other: bool, inside_sub: bool)
    ensures
        ({
            let l = ui.left_menu(inside_other, inside_sub);
            &&& l.hover is None && l.pressed is None
            &&& l.menu_open == ui.menu_open && l.sub_open == ui.sub_open && l.other_open
                == ui.other_open
            &&& inside_other && ui.other_open ==> l.model.sub_hover == ui.model.sub_hover
                && l.other_entry_hovered == ui.other_entry_hovered
            &&& inside_sub && ui.sub_open ==> l.model.sub_hover == ui.model.sub_hover
                && l.other_entry_hovered == ui.other_entry_hovered
            &&& !inside_other && !inside_sub ==> !l.other_entry_hovered && (
            !ui.model.sub_pointer_inside ==> l.model.sub_hover is None)
            &&& !ui.other_open && !ui.sub_open ==> !l.other_entry_hovered
        }),
{
}

/// Escape in any slider closes the menu and the letter Q, small or capital, ends
/// the tool; only the sliders of the submenu report the pointer leaving them. The
/// background is never erased, and messages that mean nothing go to the system.
pub proof fn law_messages_of_sliders(uid: usize, msg: u32, key: u32)
    ensures
        ({
            let w = trackbar_work(uid, msg, key);
            &&& w.close_menu <==> msg == 0x0100 && key == 0x1B
            &&& w.quit ==> msg == 0x0102
            &&& msg == 0x0102 && (key == 'q' as u32 || key == 'Q' as u32) ==> w.quit
            &&& w.track_leave || w.tell_left ==> 3 <= uid <= 5
            &&& 3 <= uid <= 5 && msg == 0x0200 ==> w.track_leave
            &&& 3 <= uid <= 5 && msg == 0x02A3 ==> w.tell_left
            &&& msg == 0x0014 ==> w.answer == Some(1i32)
            &&& msg != 0x0014 && !w.close_menu && !w.quit ==> w.answer is None
            &&& w.close_menu || w.quit ==> w.answer == Some(0i32)
            &&& !(w.close_menu && w.quit)
        }),
{
}

/// A slider draws its background first and then its channel and its thumb, which
/// is grey just where the slider or that part is disabled; other parts are not
/// drawn, and other stages are left to the system.
pub proof fn law_sliders_are_drawn_in_parts(item: usize, enabled: bool, off: bool, stage: u32)
    ensures
        part_paint(1, item, enabled, off) == SliderPaint::Background,
        part_paint(0x10001, 3, enabled, off) == SliderPaint::Channel,
        part_paint(0x10001, 2, true, false) == (SliderPaint::Thumb { gray: false }),
        part_paint(0x10001, 2, false, off) == (SliderPaint::Thumb { gray: true }),
        part_paint(0x10001, 2, enabled, true) == (SliderPaint::Thumb { gray: true }),
        item != 2 && item != 3 ==> part_paint(0x10001, item, enabled, off) == SliderPaint::Skip,
        stage != 1 && stage != 0x10001 ==> part_paint(stage, item, enabled, off)
            == SliderPaint::Default,
{
}

/// A row has one back at most: pressed comes before pointed at, and that before
/// the focus.
pub proof fn law_row_has_one_back(top: int, hovered: bool, focused: bool)
    requires
        0 <= top <= 0x1000_0000,
    ensures
        row_back(top, hovered, true, focused) == seq![
            MenuOp::RowBack { top: top as Dip, back: Back::Pressed },
        ],
        row_back(top, true, false, focused) == seq![
            MenuOp::RowBack { top: top as Dip, back: Back::Hovered },
        ],
        row_back(top, false, false, true) == seq![
            MenuOp::RowBack { top: top as Dip, back: Back::Focused },
        ],
        row_back(top, false, false, false).len() == 0,
{
}

/// The row of a device shows that device. It is checked just where its rule is in
/// force, marked with scroll mode just where its rule has it on, and ends with the
/// mark of its submenu.
pub proof fn law_device_rows_are_drawn_as_they_are(ui: HostUi, l: int, op: MenuOp)
    requires
        ui.wf(),
        0 <= l < ui.ruled@.len(),
    ensures
        ({
            let ops = device_row_ops(ui, l);
            let g = ui.ruled@[l];
            let d = ui.model.devs@[g as int];
            let scroll = ui.scrolls@[g as int];
            &&& ops.len() >= 2
            &&& ops.last() is Arrow
            &&& ops[ops.len() - 2] is Text && ops[ops.len() - 2]->id == MenuText::Device(g)
            &&& ops.contains(op) && op is Check ==> d.is_effective && d.rule_speed is Some
            &&& d.is_effective && d.rule_speed is Some ==> exists|k: int|
                0 <= k < ops.len() && #[trigger] ops[k] is Check
            &&& ops.contains(op) && op is ScrollMark ==> scroll is Some && (scroll->0).enabled
            &&& scroll is Some && (scroll->0).enabled ==> ops[ops.len() - 3] is ScrollMark
            &&& ops.contains(op) && op is Gear ==> d.rule_speed is Some
            &&& ops.last()->Arrow_ink == (if ui.hover == Some(Target::Device(l as usize)) {
                Ink::HlText
            } else {
                Ink::Text
            })
        }),
{
    let ops = device_row_ops(ui, l);
    let g = ui.ruled@[l];
    let d = ui.model.devs@[g as int];
    let back = row_back(
        device_y(l),
        ui.hover == Some(Target::Device(l as usize)),
        false,
        has_focus(ui.model.kb_focus, l),
    );
    if d.is_effective && d.rule_speed is Some {
        assert(ops[back.len() as int] is Check);
    }
}

/// Every device row is drawn, in order.
pub proof fn law_all_device_rows_are_drawn(ui: HostUi, k: int, l: int)
    requires
        0 <= l < k <= ui.ruled@.len(),
    ensures
        ({
            let ops = device_rows_ops(ui, k);
            let at = device_rows_ops(ui, l).len();
            let mine = device_row_ops(ui, l);
            at + mine.len() <= ops.len() && ops.subrange(at as int, (at + mine.len()) as int)
                == mine
        }),
    decreases k,
{
    let ops = device_rows_ops(ui, k);
    let before = device_rows_ops(ui, k - 1);
    let at = device_rows_ops(ui, l).len() as int;
    let mine = device_row_ops(ui, l);
    if l < k - 1 {
        law_all_device_rows_are_drawn(ui, k - 1, l);
        assert(ops.subrange(at, at + mine.len()) =~= before.subrange(at, at + mine.len()));
    } else {
        assert(ops.subrange(at, at + mine.len()) =~= mine);
    }
}

/// A command row ends with its text, which stands out while the row is pointed at
/// or pressed, with a check mark before it just where there is one.
pub proof fn law_command_rows_are_drawn_as_they_are(
    ui: HostUi,
    t: Target,
    id: MenuText,
    top: int,
    row: int,
    checked: bool,
)
    ensures
        ({
            let ops = command_row_ops(ui, t, id, top, row, checked);
            let over = ui.hover == Some(t);
            let down = ui.pressed == Some(t);
            &&& ops.last() is Text && ops.last()->id == id
            &&& ops.last()->Text_ink == (if over || down {
                Ink::HlText
            } else {
                Ink::Text
            })
            &&& ops.len() == 1 + (if checked {
                1int
            } else {
                0
            }) + (if over || down || has_focus(ui.model.kb_focus, row) {
                1int
            } else {
                0
            })
            &&& checked ==> ops[ops.len() - 2] is Check
            &&& down ==> ops[0] is RowBack && ops[0]->back == Back::Pressed
            &&& over && !down ==> ops[0] is RowBack && ops[0]->back == Back::Hovered
        }),
        has_focus(Some(row as usize), row) <==> 0 <= row <= usize::MAX,
        !has_focus(None, row),
{
}

/// The entry for the other devices stands out while it is pointed at or has the
/// focus.
pub proof fn law_other_entry_is_drawn_as_it_is(ui: HostUi)
    ensures
        ({
            let ops = other_row_ops(ui);
            let lit = ui.hover == Some(Target::OtherDevices) || has_focus(
                ui.model.kb_focus,
                ui.ruled@.len() as int,
            );
            &&& ops.last() is Arrow
            &&& ops[ops.len() - 2] is Text && ops[ops.len() - 2]->id == MenuText::Other
            &&& ops[ops.len() - 2]->Text_ink == (if lit {
                Ink::HlText
            } else {
                Ink::Text
            })
            &&& ops.len() == (if lit {
                3int
            } else {
                2
            })
        }),
{
}

/// A value that is dragged and not yet applied is grey. The reset button is filled
/// just while it is pointed at or pressed, pressed before pointed at.
pub proof fn law_head_is_drawn_as_it_is(ui: HostUi, v: u32)
    ensures
        value_ink(Some(v)) == Ink::Gray,
        value_ink(None) == Ink::Text,
        reset_op(ui) matches MenuOp::ResetButton { fill, ink } && {
            let over = ui.hover == Some(Target::Reset);
            let down = ui.pressed == Some(Target::Reset);
            &&& down ==> fill == Some(Ink::BtnPressed)
            &&& over && !down ==> fill == Some(Ink::BtnHover)
            &&& !over && !down ==> fill is None
            &&& ink == Ink::HlText <==> over || down
        },
        head_ops(ui).len() == 4,
        head_ops(ui)[0]->id == MenuText::Speed,
        head_ops(ui)[0]->Text_ink == value_ink(ui.model.pending_speed),
        head_ops(ui)[2]->id == MenuText::Wheel,
        head_ops(ui)[2]->Text_ink == value_ink(ui.model.pending_wheel),
        eff_ops(true).len() == 3 && eff_ops(false).len() == 1,
        eff_ops(false)[0]->id == MenuText::EffNone,
        forall|i: int| 0 <= i < 3 ==> (#[trigger] eff_ops(true)[i])->id != MenuText::EffNone,
{
}

/// The line about the speeds of a rule tells rules apart: another speed, other
/// wheel lines, or leaving them alone reads differently.
pub proof fn law_speeds_line_tells_rules_apart(a: u32, b: u32, v: Option<u32>, w: Option<u32>)
    ensures
        speeds_text(a, v) == speeds_text(b, v) ==> a == b,
        speeds_text(a, v) == speeds_text(a, w) ==> v == w,
{
    let head = "指针: "@;
    let mid = " · 滚轮: "@;
    let da = dec(a as nat);
    let db = dec(b as nat);
    if speeds_text(a, v) == speeds_text(b, v) {
        let s = speeds_text(a, v);
        let t = speeds_text(b, v);
        assert(s.len() == head.len() + da.len() + mid.len() + wheel_word(v).len());
        assert(t.len() == head.len() + db.len() + mid.len() + wheel_word(v).len());
        assert(s.subrange(head.len() as int, head.len() as int + da.len()) =~= da);
        assert(t.subrange(head.len() as int, head.len() as int + db.len()) =~= db);
        law_decimal_numerals(a as nat, b as nat);
    }
    if speeds_text(a, v) == speeds_text(a, w) {
        let at = (head.len() + da.len() + mid.len()) as int;
        assert(speeds_text(a, v).skip(at) =~= wheel_word(v));
        assert(speeds_text(a, w).skip(at) =~= wheel_word(w));
        lemma_wheel_words_differ(v, w);
    }
}

proof fn lemma_wheel_words_differ(v: Option<u32>, w: Option<u32>)
    requires
        wheel_word(v) == wheel_word(w),
    ensures
        v == w,
{
    reveal_strlit("保持");
    if let Some(x) = v {
        law_decimal_numerals(x as nat, x as nat);
        lemma_dec_value(x as nat);
        assert('0' <= dec(x as nat)[0] <= '9');
    }
    if let Some(y) = w {
        law_decimal_numerals(y as nat, y as nat);
        lemma_dec_value(y as nat);
        assert('0' <= dec(y as nat)[0] <= '9');
    }
    if v is Some && w is Some {
        law_decimal_numerals((v->0) as nat, (w->0) as nat);
    }
}

/// The line about scroll mode tells settings apart: whether it is on, the button
/// and the sensitivity. Without settings it is that of fresh ones.
pub proof fn law_scroll_line_tells_settings_apart(c: ScrollCfg, t: TriggerBtn, px: u32)
    ensures
        scroll_line(Some(c)) != scroll_line(Some(ScrollCfg { enabled: !c.enabled, ..c })),
        scroll_line(Some(c)) == scroll_line(Some(ScrollCfg { trigger: t, ..c })) ==> t
            == c.trigger,
        scroll_line(Some(c)) == scroll_line(Some(ScrollCfg { px_per_line: px, ..c })) ==> px
            == c.px_per_line,
        scroll_line(None) == scroll_line(Some(ScrollCfg::initial())),
{
    reveal_strlit("滚轮模式: 开 · ");
    reveal_strlit("滚轮模式: 关 · ");
    let head = if c.enabled {
        "滚轮模式: 开 · "@
    } else {
        "滚轮模式: 关 · "@
    };
    let dot = " · "@;
    let end = " 像素/行"@;
    let kb = kb_word(c.kb_trigger);
    let btn = c.trigger.label_text();
    let num = dec(c.px_per_line as nat);
    let s = scroll_line(Some(c));
    assert(s[6] == head[6]);
    let flipped = scroll_line(Some(ScrollCfg { enabled: !c.enabled, ..c }));
    assert("滚轮模式: 开 · "@[6] != "滚轮模式: 关 · "@[6]);
    assert(s[6] != flipped[6]);
    let o = scroll_line(Some(ScrollCfg { trigger: t, ..c }));
    if s == o {
        let other = t.label_text();
        assert(s.len() == o.len());
        assert(btn.len() == other.len());
        assert(s.subrange(head.len() as int, head.len() as int + btn.len()) =~= btn);
        assert(o.subrange(head.len() as int, head.len() as int + other.len()) =~= other);
        law_button_labels_are_distinct(c.trigger, t);
    }
    let q = scroll_line(Some(ScrollCfg { px_per_line: px, ..c }));
    if s == q {
        let at = (head.len() + btn.len() + dot.len() + kb.len() + dot.len()) as int;
        assert(s.subrange(at, s.len() - end.len()) =~= num);
        assert(q.subrange(at, q.len() - end.len()) =~= dec(px as nat));
        law_decimal_numerals(c.px_per_line as nat, px as nat);
    }
}

/// After storing what the system has, the rule read for the device has its pointer
/// speed and its wheel lines; after storing what the submenu shows, it has the
/// values shown, scroll mode included; after deleting, none is read. Neither the
/// list of devices nor the global settings change, and the system reporting the
/// outcome back is no foreign change.
pub proof fn law_rule_actions_do_their_work(
    before: StateModel,
    after: StateModel,
    vid: Seq<char>,
    pid: Seq<char>,
    name: String,
    action: HostAction,
    sys: SystemSpeed,
    w: Seq<SpeedWrite>,
)
    requires
        rule_action_done(before, after, vid, pid, name, action, sys, w),
        action is SetRule || action is SetRuleWithSpeed || action is DelRule,
    ensures
        action is SetRule ==> {
            &&& rule_read(after, vid, pid) is Some
            &&& rule_read(after, vid, pid)->0.speed == sys.speed
            &&& rule_read(after, vid, pid)->0.wheel == Some(sys.wheel)
            &&& rule_read(after, vid, pid)->0.note == Some(name)
        },
        action matches HostAction::SetRuleWithSpeed(_, sp, wh, scroll) ==> {
            &&& rule_read(after, vid, pid) is Some
            &&& rule_read(after, vid, pid)->0.speed == sp
            &&& rule_read(after, vid, pid)->0.wheel == Some(wh)
            &&& rule_read(after, vid, pid)->0.scroll == scroll
            &&& rule_read(after, vid, pid)->0.note == Some(name)
        },
        action is DelRule ==> rule_read(after, vid, pid) is None,
        after.active == before.active,
        after.cfg.speed == before.cfg.speed && after.cfg.wheel == before.cfg.wheel
            && after.cfg.scroll == before.cfg.scroll,
        !after.is_foreign(sys.after_all(w)),
{
    match action {
        HostAction::SetRule(_) => {
            law_stored_rule_is_read_in_the_state(
                before,
                after,
                vid,
                pid,
                sys.speed,
                Some(sys.wheel),
                name,
                sys,
                w,
                vid,
                pid,
            );
        },
        HostAction::SetRuleWithSpeed(_, sp, wh, scroll) => {
            law_stored_scroll_is_read_in_the_state(
                before,
                after,
                vid,
                pid,
                sp,
                Some(wh),
                scroll,
                name,
                sys,
                w,
                vid,
                pid,
            );
        },
        _ => {
            law_deleted_rule_is_not_read(before, after, vid, pid, sys, w, vid, pid);
        },
    }
}

/// In dark surroundings texts are lighter than what is behind them, in light ones
/// darker, and grey ones lie between; what is pressed is darker than what is
/// pointed at.
pub proof fn law_texts_stand_out(dark: bool)
    ensures
        ({
            let p = pal_for(dark);
            &&& dark ==> p.bg < p.sep < p.border < p.gray < p.text
            &&& !dark ==> p.text < p.gray < p.border < p.sep < p.bg
            &&& p.row_pressed < p.highlight < p.hl_text
            &&& p.btn_pressed == p.row_pressed && p.btn_hover == p.highlight
        }),
{
}

/// Where nothing is done to the rules, the state stays as it was and nothing is
/// saved, written or brought in line.
pub proof fn law_no_rule_work_changes_nothing(before: AppState, after: AppState, r: ActionWork)
    requires
        no_rule_work(before, after, r),
    ensures
        after@ == before@,
        !r.save && !r.sync_hook,
        r.writes@.len() == 0,
{
}

} // verus!

//! The submenu of a device: when it is open, what its messages mean, and how it
//! is drawn. What is set in it is stored only by its button.

use crate::menu_model::{
    dragged_speed, dragged_wheel, sub_ptr_label_top, sub_ptr_label_y, sub_wheel_label_top, sub_wheel_label_y, DevRow, Dip,
    MenuModel, PAD, SUB_INFO_TOP,
};
use crate::scroll::{
    canonical, canonicalize_vk, clamp_int, key_label, law_codes_are_distinct, KbTrigger, ScrollCfg,
    TriggerBtn, SCROLL_PX_MAX, SCROLL_PX_MIN,
};
use crate::speed::SystemSpeed;
use crate::text::{dec, push_dec};
use crate::win32::host::HostUi;
use crate::win32::layout::{
    is_slot_at, law_one_slot, slot_at, sub_action_top, sub_action_y, sub_kb_top, sub_kb_y,
    sub_mode_top, sub_mode_y, sub_sens_label_top, sub_sens_label_y, sub_trigger_top,
    sub_trigger_y, Slot, Target,
};
use crate::win32::menu::{HostAction, Ink, VK_ESCAPE};
use vstd::prelude::*;
use vstd::string::StringExecFns;

verus! {

/// What is to be done about the submenu's window.
#[derive(Debug, Clone, Copy, PartialEq, Eq, Structural)]
pub enum SubWork {
    Nothing,
    Close,
    /// Open it for this device, beside a row with this top.
    Open { idx: usize, top: Dip },
    /// Close it and open it for another device.
    Reopen { idx: usize, top: Dip },
}

/// What follows from letting the button go in the submenu.
#[derive(Debug, Clone, Copy, PartialEq, Eq, Structural)]
pub enum UpWork {
    Nothing,
    /// Carry this out.
    Run(HostAction),
    /// Enable or disable the sensitivity slider.
    EnableSens(bool),
    /// Begin recording the trigger button.
    Capture,
    /// Begin recording the trigger key.
    KbCapture,
}

/// A slider of the submenu.
#[derive(Debug, Clone, Copy, PartialEq, Eq, Structural)]
pub enum SubSlider {
    Pointer,
    Wheel,
    Sens,
}

/// A text of the submenu.
#[derive(Debug, Clone, Copy, PartialEq, Eq, Structural)]
pub enum SubText {
    Info,
    Speed,
    Wheel,
    Mode,
    Trigger,
    KbTrigger,
    Sens,
    Action(usize),
}

/// One stroke of drawing the submenu.
#[derive(Debug, Clone, Copy, PartialEq, Eq, Structural)]
pub enum SubOp {
    /// A text that begins at `x`, in the middle at `cy`.
    Text { id: SubText, x: Dip, cy: Dip, ink: Ink },
    /// What is behind a row.
    Fill { top: Dip, ink: Ink },
    /// A check mark.
    Check { cy: Dip, ink: Ink },
    /// The button that stores the rule: what fills it, and the colour of its
    /// text.
    StoreButton { fill: Option<Ink>, ink: Ink },
}

fn same_slot(a: Option<Slot>, b: Option<Slot>) -> (r: bool)
    ensures
        r == (a == b),
{
    match (a, b) {
        (Some(x), Some(y)) => x == y,
        (None, None) => true,
        _ => false,
    }
}

/// Scroll mode is on in these settings.
pub open spec fn is_on(c: Option<ScrollCfg>) -> bool {
    c is Some && (c->0).enabled
}

fn scroll_is_on(c: &Option<ScrollCfg>) -> (r: bool)
    ensures
        r == is_on(*c),
{
    match c {
        Some(x) => x.enabled,
        None => false,
    }
}

/// The settings with scroll mode switched; without settings, fresh ones.
pub open spec fn toggled(c: Option<ScrollCfg>) -> ScrollCfg {
    match c {
        Some(x) => ScrollCfg { enabled: !x.enabled, ..x },
        None => ScrollCfg { enabled: true, ..ScrollCfg::initial() },
    }
}

/// The settings with another sensitivity; without settings, fresh ones.
pub open spec fn with_sens(c: Option<ScrollCfg>, px: u32) -> ScrollCfg {
    match c {
        Some(x) => ScrollCfg { px_per_line: px, ..x },
        None => ScrollCfg { px_per_line: px, ..ScrollCfg::initial() },
    }
}

/// What pressing a part of the submenu of device `d` can do: the button and the
/// scroll mode rows need ids, the actions what each of them needs.
pub open spec fn slot_enabled(d: DevRow, s: Slot) -> bool {
    match s {
        Slot::Action(i) => d.has_ids() && (i == 1 ==> d.rule_speed is Some),
        _ => d.has_ids(),
    }
}

fn slot_is_enabled(d: &DevRow, s: Slot) -> (r: bool)
    ensures
        r == slot_enabled(*d, s),
{
    match s {
        Slot::Action(i) => d.can_rule() && (i != 1 || d.rule_speed.is_some()),
        _ => d.can_rule(),
    }
}

impl HostUi {
    /// What is to be done about the submenu's window: it is to be open for the
    /// device that is wanted.
    pub open spec fn sub_work(&self) -> SubWork {
        match self.model.sub_hover {
            Some((idx, top)) => if !self.sub_open {
                SubWork::Open { idx, top }
            } else if self.sub_dev == Some(idx) {
                SubWork::Nothing
            } else {
                SubWork::Reopen { idx, top }
            },
            None => if self.sub_open && self.sub_dev is Some {
                SubWork::Close
            } else {
                SubWork::Nothing
            },
        }
    }

    /// Brings the submenu in line with what is wanted; a window that is to be
    /// closed is closed already in the state.
    pub fn sync_sub(&mut self) -> (r: SubWork)
        ensures
            r == old(self).sub_work(),
            *final(self) == (if r is Close || r is Reopen {
                old(self).without_sub()
            } else {
                *old(self)
            }),
    {
        match self.model.sub_hover {
            Some((idx, top)) => {
                if !self.sub_open {
                    return SubWork::Open { idx, top };
                }
                let same = match self.sub_dev {
                    Some(d) => d == idx,
                    None => false,
                };
                if same {
                    return SubWork::Nothing;
                }
                let _ = self.close_sub();
                SubWork::Reopen { idx, top }
            },
            None => if self.sub_open && self.sub_dev.is_some() {
                let _ = self.close_sub();
                SubWork::Close
            } else {
                SubWork::Nothing
            },
        }
    }

    /// The speeds that the submenu of device `idx` starts from: those of its
    /// rule, else what the system has set.
    pub open spec fn sub_start(&self, idx: usize, sys: SystemSpeed) -> (u32, u32) {
        if idx < self.model.devs@.len() {
            let d = self.model.devs@[idx as int];
            (
                match d.rule_speed {
                    Some(v) => v,
                    None => sys.speed,
                },
                match d.rule_wheel {
                    Some(v) => v,
                    None => sys.wheel,
                },
            )
        } else {
            (sys.speed, sys.wheel)
        }
    }

    /// The submenu of device `idx` was opened: its values start from the
    /// device's rule, or from what the system has set.
    pub fn sub_opened(&mut self, idx: usize, sys: SystemSpeed)
        requires
            old(self).wf(),
        ensures
            *final(self) == old(self).with_sub(idx, sys),
    {
        let known = idx < self.model.devs.len();
        let speed: u32 = if known {
            match self.model.devs[idx].rule_speed {
                Some(v) => v,
                None => sys.speed,
            }
        } else {
            sys.speed
        };
        let wheel: u32 = if known {
            match self.model.devs[idx].rule_wheel {
                Some(v) => v,
                None => sys.wheel,
            }
        } else {
            sys.wheel
        };
        self.sub_scroll = if known {
            self.scrolls[idx]
        } else {
            None
        };
        self.model.sub_slider = Some(speed);
        self.model.sub_wheel = Some(wheel);
        self.sub_open = true;
        self.sub_dev = Some(idx);
        self.sub_hover_row = None;
    }

    /// The pointer moved in the submenu; returns whether to draw it anew.
    pub fn on_sub_move(&mut self, x: Dip, y: Dip) -> (redraw: bool)
        ensures
            forall|s: Option<Slot>| #[trigger]
                is_slot_at(x as int, y as int, s) ==> {
                    &&& redraw == (s != old(self).sub_hover_row)
                    &&& *final(self) == (HostUi {
                        model: MenuModel { sub_pointer_inside: true, ..old(self).model },
                        sub_hover_row: s,
                        ..*old(self)
                    })
                },
    {
        let slot = slot_at(x, y);
        let redraw = !same_slot(slot, self.sub_hover_row);
        self.model.sub_pointer_inside = true;
        self.sub_hover_row = slot;
        proof {
            assert forall|s: Option<Slot>| #[trigger]
                is_slot_at(x as int, y as int, s) implies s == slot by {
                law_one_slot(x as int, y as int, s, slot);
            }
        }
        redraw
    }

    /// Something that keeps the submenu open is pointed at: a device row, the
    /// entry for the other devices, or their list.
    pub open spec fn keeps_sub(&self) -> bool {
        self.other_pointer_inside || (self.hover is Some && (self.hover->0 is Device
            || self.hover->0 is OtherDevices))
    }

    /// The pointer left the submenu, or went onto one of its sliders: `inside`
    /// is whether it is still inside. Returns whether to draw the submenu anew,
    /// and whether to ask for closing it.
    pub fn on_sub_leave(&mut self, inside: bool) -> (r: (bool, bool))
        ensures
            r.0 == !inside,
            r.1 == (!inside && !old(self).keeps_sub()),
            *final(self) == old(self).left_sub(inside),
    {
        self.sub_pressed = None;
        if inside {
            return (false, false);
        }
        let keep = self.other_pointer_inside || match self.hover {
            Some(Target::Device(_)) => true,
            Some(Target::OtherDevices) => true,
            _ => false,
        };
        self.model.sub_pointer_inside = false;
        self.sub_hover_row = None;
        if !keep {
            self.model.sub_hover = None;
        }
        (true, !keep)
    }

    /// A part of the submenu can be pressed.
    pub open spec fn can_press(&self, s: Option<Slot>) -> bool {
        &&& s is Some
        &&& self.sub_dev is Some
        &&& self.sub_dev->0 < self.model.devs@.len()
        &&& slot_enabled(self.model.devs@[self.sub_dev->0 as int], s->0)
    }

    /// The button went down in the submenu; returns whether to draw it anew.
    pub fn on_sub_down(&mut self, x: Dip, y: Dip) -> (redraw: bool)
        ensures
            forall|s: Option<Slot>| #[trigger]
                is_slot_at(x as int, y as int, s) ==> {
                    &&& redraw == old(self).can_press(s)
                    &&& *final(self) == (HostUi {
                        sub_pressed: if old(self).can_press(s) {
                            s
                        } else {
                            None
                        },
                        ..*old(self)
                    })
                },
    {
        let slot = slot_at(x, y);
        let enabled = match (self.sub_dev, slot) {
            (Some(dev), Some(s)) => dev < self.model.devs.len() && slot_is_enabled(
                &self.model.devs[dev],
                s,
            ),
            _ => false,
        };
        self.sub_pressed = if enabled {
            slot
        } else {
            None
        };
        proof {
            assert forall|s: Option<Slot>| #[trigger]
                is_slot_at(x as int, y as int, s) implies s == slot by {
                law_one_slot(x as int, y as int, s, slot);
            }
        }
        enabled
    }

    /// A pressed part does its work: the trigger rows for any open submenu, the
    /// other parts where they can still be pressed.
    pub open spec fn can_release(&self, s: Option<Slot>) -> bool {
        if s == Some(Slot::Trigger) || s == Some(Slot::KbTrigger) {
            self.sub_dev is Some
        } else {
            self.can_press(s)
        }
    }

    /// What letting the button go on the pressed part `s` does: the button
    /// stores the values of the submenu; the switch turns scroll mode; the
    /// trigger rows begin recording while scroll mode is on and nothing is
    /// being recorded; an action runs.
    pub open spec fn slot_work(&self, s: Slot) -> UpWork {
        let dev = self.sub_dev->0;
        match s {
            Slot::Store => match (self.model.sub_slider, self.model.sub_wheel) {
                (Some(sp), Some(wh)) => UpWork::Run(
                    HostAction::SetRuleWithSpeed(dev, sp, wh, self.sub_scroll),
                ),
                _ => UpWork::Nothing,
            },
            Slot::Mode => UpWork::EnableSens(toggled(self.sub_scroll).enabled),
            Slot::Trigger => if is_on(self.sub_scroll) && !self.model.capturing {
                UpWork::Capture
            } else {
                UpWork::Nothing
            },
            Slot::KbTrigger => if is_on(self.sub_scroll) && !self.model.capturing {
                UpWork::KbCapture
            } else {
                UpWork::Nothing
            },
            Slot::Action(i) => UpWork::Run(
                if i == 0 {
                    HostAction::SetRule(dev)
                } else if i == 1 {
                    HostAction::DelRule(dev)
                } else {
                    HostAction::Reapply(dev)
                },
            ),
        }
    }

    /// The state after that.
    pub open spec fn after_slot(&self, w: UpWork) -> HostUi {
        match w {
            UpWork::EnableSens(_) => HostUi {
                sub_scroll: Some(toggled(self.sub_scroll)),
                ..*self
            },
            UpWork::Capture | UpWork::KbCapture => HostUi {
                model: MenuModel { capturing: true, ..self.model },
                ..*self
            },
            _ => *self,
        }
    }

    fn run_slot(&mut self, dev: usize, s: Slot) -> (r: UpWork)
        requires
            old(self).sub_dev == Some(dev),
            old(self).can_release(Some(s)),
        ensures
            r == old(self).slot_work(s),
            *final(self) == old(self).after_slot(r),
    {
        match s {
            Slot::Store => match (self.model.sub_slider, self.model.sub_wheel) {
                (Some(sp), Some(wh)) => UpWork::Run(
                    HostAction::SetRuleWithSpeed(dev, sp, wh, self.sub_scroll),
                ),
                _ => UpWork::Nothing,
            },
            Slot::Mode => {
                let c = match self.sub_scroll {
                    Some(x) => ScrollCfg { enabled: !x.enabled, ..x },
                    None => ScrollCfg { enabled: true, ..ScrollCfg::default() },
                };
                self.sub_scroll = Some(c);
                UpWork::EnableSens(c.enabled)
            },
            Slot::Trigger => if scroll_is_on(&self.sub_scroll) && !self.model.capturing {
                self.model.capturing = true;
                UpWork::Capture
            } else {
                UpWork::Nothing
            },
            Slot::KbTrigger => if scroll_is_on(&self.sub_scroll) && !self.model.capturing {
                self.model.capturing = true;
                UpWork::KbCapture
            } else {
                UpWork::Nothing
            },
            Slot::Action(i) => UpWork::Run(
                match i {
                    0 => HostAction::SetRule(dev),
                    1 => HostAction::DelRule(dev),
                    _ => HostAction::Reapply(dev),
                },
            ),
        }
    }

    /// The button came up in the submenu: the pressed part does its work if the
    /// pointer is still over it.
    pub fn on_sub_up(&mut self, x: Dip, y: Dip) -> (r: UpWork)
        ensures
            forall|s: Option<Slot>| #[trigger]
                is_slot_at(x as int, y as int, s) ==> {
                    let before = HostUi { sub_pressed: None, ..*old(self) };
                    if s is Some && s == old(self).sub_pressed && before.can_release(s) {
                        r == before.slot_work(s->0) && *final(self) == before.after_slot(r)
                    } else {
                        r == UpWork::Nothing && *final(self) == before
                    }
                },
    {
        let slot = slot_at(x, y);
        let pressed = self.sub_pressed;
        self.sub_pressed = None;
        proof {
            assert forall|s: Option<Slot>| #[trigger]
                is_slot_at(x as int, y as int, s) implies s == slot by {
                law_one_slot(x as int, y as int, s, slot);
            }
        }
        if !same_slot(pressed, slot) {
            return UpWork::Nothing;
        }
        match (self.sub_dev, slot) {
            (Some(dev), Some(s)) => {
                let free = s == Slot::Trigger || s == Slot::KbTrigger;
                if free || (dev < self.model.devs.len() && slot_is_enabled(
                    &self.model.devs[dev],
                    s,
                )) {
                    self.run_slot(dev, s)
                } else {
                    UpWork::Nothing
                }
            },
            _ => UpWork::Nothing,
        }
    }

    /// The settings with another trigger button; without settings, fresh ones.
    pub open spec fn with_trigger(&self, t: TriggerBtn) -> ScrollCfg {
        match self.sub_scroll {
            Some(x) => ScrollCfg { trigger: t, ..x },
            None => ScrollCfg { trigger: t, ..ScrollCfg::initial() },
        }
    }

    /// The recording of the trigger button ended: the button numbered `code` is
    /// the trigger shown in the open submenu. A number of no button, and a
    /// recording that was cancelled, leave the trigger as it is.
    pub fn on_capture_done(&mut self, recorded: bool, code: u32)
        ensures
            *final(self) == (HostUi {
                model: MenuModel { capturing: false, ..old(self).model },
                sub_scroll: if recorded && old(self).sub_open && 1 <= code <= 5 {
                    final(self).sub_scroll
                } else {
                    old(self).sub_scroll
                },
                ..*old(self)
            }),
            forall|t: TriggerBtn|
                recorded && old(self).sub_open && #[trigger] t.number() == code
                    ==> final(self).sub_scroll == Some(old(self).with_trigger(t)),
    {
        self.model.capturing = false;
        if !recorded || !self.sub_open {
            return;
        }
        if let Some(t) = TriggerBtn::from_code(code) {
            proof {
                assert forall|u: TriggerBtn| #[trigger] u.number() == code implies u == t by {
                    law_codes_are_distinct(u, t);
                }
            }
            self.sub_scroll = Some(
                match self.sub_scroll {
                    Some(x) => ScrollCfg { trigger: t, ..x },
                    None => ScrollCfg { trigger: t, ..ScrollCfg::default() },
                },
            );
        }
    }

    /// The settings after the recording of the trigger key ended with `vk`.
    pub open spec fn after_key(&self, vk: u32) -> Option<ScrollCfg> {
        match self.sub_scroll {
            Some(x) => if vk == VK_ESCAPE {
                Some(x)
            } else {
                Some(ScrollCfg { kb_trigger: Some(KbTrigger { vk: canonical(vk) }), ..x })
            },
            None => None,
        }
    }

    /// The state after a slider of the submenu was moved to `pos`.
    pub open spec fn slid(&self, which: SubSlider, pos: int) -> HostUi {
        match which {
            SubSlider::Pointer => HostUi {
                model: MenuModel { sub_slider: Some(dragged_speed(pos)), ..self.model },
                ..*self
            },
            SubSlider::Wheel => HostUi {
                model: MenuModel { sub_wheel: Some(dragged_wheel(pos)), ..self.model },
                ..*self
            },
            SubSlider::Sens => HostUi {
                sub_scroll: Some(
                    with_sens(
                        self.sub_scroll,
                        clamp_int(pos, SCROLL_PX_MIN as int, SCROLL_PX_MAX as int) as u32,
                    ),
                ),
                ..*self
            },
        }
    }

    /// The state after the pointer left the submenu.
    pub open spec fn left_sub(&self, inside: bool) -> HostUi {
        if inside {
            HostUi { sub_pressed: None, ..*self }
        } else {
            HostUi {
                model: MenuModel {
                    sub_pointer_inside: false,
                    sub_hover: if self.keeps_sub() {
                        self.model.sub_hover
                    } else {
                        None
                    },
                    ..self.model
                },
                sub_pressed: None,
                sub_hover_row: None,
                ..*self
            }
        }
    }

    /// The state after the submenu of device `idx` was opened.
    pub open spec fn with_sub(&self, idx: usize, sys: SystemSpeed) -> HostUi {
        HostUi {
            model: MenuModel {
                sub_slider: Some(self.sub_start(idx, sys).0),
                sub_wheel: Some(self.sub_start(idx, sys).1),
                ..self.model
            },
            sub_scroll: if idx < self.model.devs@.len() {
                self.scrolls@[idx as int]
            } else {
                None
            },
            sub_open: true,
            sub_dev: Some(idx),
            sub_hover_row: None,
            ..*self
        }
    }

    /// The recording of the trigger key ended: the key `vk`, with its left and
    /// right variant taken as one, is the key shown in the open submenu. Escape
    /// cancels the recording and leaves the key as it is.
    pub fn on_key_captured(&mut self, vk: u32)
        ensures
            *final(self) == (HostUi {
                model: MenuModel { capturing: false, ..old(self).model },
                sub_scroll: old(self).after_key(vk),
                ..*old(self)
            }),
    {
        self.model.capturing = false;
        if vk != VK_ESCAPE {
            if let Some(x) = self.sub_scroll {
                let key = KbTrigger { vk: canonicalize_vk(vk) };
                self.sub_scroll = Some(ScrollCfg { kb_trigger: Some(key), ..x });
            }
        }
    }

    /// A slider of the submenu was moved to `pos`. Nothing is applied: the value
    /// is only shown, until it is stored.
    pub fn on_sub_slider(&mut self, which: SubSlider, pos: i32)
        ensures
            *final(self) == old(self).slid(which, pos as int),
    {
        match which {
            SubSlider::Pointer => {
                self.model.preview_sub_slider(pos);
            },
            SubSlider::Wheel => {
                self.model.preview_sub_wheel(pos);
            },
            SubSlider::Sens => {
                let px: u32 = if pos < SCROLL_PX_MIN as i32 {
                    SCROLL_PX_MIN
                } else if pos > SCROLL_PX_MAX as i32 {
                    SCROLL_PX_MAX
                } else {
                    pos as u32
                };
                self.sub_scroll = Some(
                    match self.sub_scroll {
                        Some(x) => ScrollCfg { px_per_line: px, ..x },
                        None => ScrollCfg { px_per_line: px, ..ScrollCfg::default() },
                    },
                );
            },
        }
    }
}

/// A part is lit: it can be used, and is pointed at.
pub open spec fn lit(usable: bool, at: Option<Slot>, s: Slot) -> bool {
    usable && at == Some(s)
}

/// What is behind a row: pressed comes before pointed at.
pub open spec fn fill_ops(top: int, hovered: bool, pressed: bool) -> Seq<SubOp> {
    if pressed {
        seq![SubOp::Fill { top: top as Dip, ink: Ink::RowPressed }]
    } else if hovered {
        seq![SubOp::Fill { top: top as Dip, ink: Ink::Highlight }]
    } else {
        seq![]
    }
}

/// The colour of a text: grey where it cannot be used.
pub open spec fn part_ink(usable: bool, lit: bool) -> Ink {
    if !usable {
        Ink::Gray
    } else if lit {
        Ink::HlText
    } else {
        Ink::Text
    }
}

/// How a row that can be chosen is drawn.
pub open spec fn slot_row_ops(
    ui: HostUi,
    s: Slot,
    id: SubText,
    top: int,
    usable: bool,
) -> Seq<SubOp> {
    let hovered = lit(usable, ui.sub_hover_row, s);
    let pressed = lit(usable, ui.sub_pressed, s);
    fill_ops(top, hovered, pressed) + seq![
        SubOp::Text {
            id,
            x: PAD,
            cy: (top + 12) as Dip,
            ink: part_ink(usable, hovered || pressed),
        },
    ]
}

/// How the scroll mode switch is drawn: checked while scroll mode is on.
pub open spec fn mode_ops(ui: HostUi, usable: bool) -> Seq<SubOp> {
    let hovered = lit(usable, ui.sub_hover_row, Slot::Mode);
    let pressed = lit(usable, ui.sub_pressed, Slot::Mode);
    let cy = (sub_mode_y() + 12) as Dip;
    fill_ops(sub_mode_y(), hovered, pressed) + (if is_on(ui.sub_scroll) {
        seq![SubOp::Check { cy, ink: Ink::Text }]
    } else {
        seq![]
    }) + seq![
        SubOp::Text {
            id: SubText::Mode,
            x: (PAD + 18) as Dip,
            cy,
            ink: part_ink(usable, hovered || pressed),
        },
    ]
}

/// How the button that stores the rule is drawn.
pub open spec fn store_op(ui: HostUi, usable: bool) -> SubOp {
    let hovered = lit(usable, ui.sub_hover_row, Slot::Store);
    let pressed = lit(usable, ui.sub_pressed, Slot::Store);
    SubOp::StoreButton {
        fill: if pressed {
            Some(Ink::BtnPressed)
        } else if hovered {
            Some(Ink::BtnHover)
        } else {
            None
        },
        ink: part_ink(usable, hovered || pressed),
    }
}

/// How the labels above the scroll mode switch are drawn.
pub open spec fn label_ops() -> Seq<SubOp> {
    seq![
        SubOp::Text {
            id: SubText::Info,
            x: PAD,
            cy: (SUB_INFO_TOP + 12) as Dip,
            ink: Ink::Gray,
        },
        SubOp::Text {
            id: SubText::Speed,
            x: PAD,
            cy: (sub_ptr_label_y() + 12) as Dip,
            ink: Ink::Text,
        },
        SubOp::Text {
            id: SubText::Wheel,
            x: PAD,
            cy: (sub_wheel_label_y() + 12) as Dip,
            ink: Ink::Text,
        },
    ]
}

/// How the submenu of device `d` is drawn.
pub open spec fn sub_ops(ui: HostUi, d: DevRow) -> Seq<SubOp> {
    let ids = d.has_ids();
    let on = is_on(ui.sub_scroll);
    label_ops() + mode_ops(ui, ids) + slot_row_ops(
        ui,
        Slot::Trigger,
        SubText::Trigger,
        sub_trigger_y(),
        ids && on,
    ) + slot_row_ops(ui, Slot::KbTrigger, SubText::KbTrigger, sub_kb_y(), ids && on) + seq![
        SubOp::Text {
            id: SubText::Sens,
            x: PAD,
            cy: (sub_sens_label_y() + 12) as Dip,
            ink: if on {
                Ink::Text
            } else {
                Ink::Gray
            },
        },
    ] + seq![store_op(ui, ids)] + slot_row_ops(
        ui,
        Slot::Action(0),
        SubText::Action(0),
        sub_action_y(0),
        slot_enabled(d, Slot::Action(0)),
    ) + slot_row_ops(
        ui,
        Slot::Action(1),
        SubText::Action(1),
        sub_action_y(1),
        slot_enabled(d, Slot::Action(1)),
    ) + slot_row_ops(
        ui,
        Slot::Action(2),
        SubText::Action(2),
        sub_action_y(2),
        slot_enabled(d, Slot::Action(2)),
    )
}

fn push_sub(ops: &mut Vec<SubOp>, op: SubOp)
    ensures
        final(ops)@ == old(ops)@ + seq![op],
{
    ops.push(op);
    assert(ops@ =~= old(ops)@ + seq![op]);
}

fn push_fill(ops: &mut Vec<SubOp>, top: Dip, hovered: bool, pressed: bool)
    ensures
        final(ops)@ == old(ops)@ + fill_ops(top as int, hovered, pressed),
{
    if pressed {
        ops.push(SubOp::Fill { top, ink: Ink::RowPressed });
    } else if hovered {
        ops.push(SubOp::Fill { top, ink: Ink::Highlight });
    }
    assert(ops@ =~= old(ops)@ + fill_ops(top as int, hovered, pressed));
}

fn ink_of(usable: bool, lit: bool) -> (r: Ink)
    ensures
        r == part_ink(usable, lit),
{
    if !usable {
        Ink::Gray
    } else if lit {
        Ink::HlText
    } else {
        Ink::Text
    }
}

impl HostUi {
    fn push_slot_row(&self, ops: &mut Vec<SubOp>, s: Slot, id: SubText, top: Dip, usable: bool)
        requires
            0 <= top <= 100_000,
        ensures
            final(ops)@ == old(ops)@ + slot_row_ops(*self, s, id, top as int, usable),
    {
        let hovered = usable && same_slot(self.sub_hover_row, Some(s));
        let pressed = usable && same_slot(self.sub_pressed, Some(s));
        let mut row: Vec<SubOp> = Vec::new();
        push_fill(&mut row, top, hovered, pressed);
        assert(row@ =~= fill_ops(top as int, hovered, pressed));
        push_sub(
            &mut row,
            SubOp::Text { id, x: PAD, cy: top + 12, ink: ink_of(usable, hovered || pressed) },
        );
        ops.append(&mut row);
    }

    fn push_mode(&self, ops: &mut Vec<SubOp>, usable: bool)
        ensures
            final(ops)@ == old(ops)@ + mode_ops(*self, usable),
    {
        let hovered = usable && same_slot(self.sub_hover_row, Some(Slot::Mode));
        let pressed = usable && same_slot(self.sub_pressed, Some(Slot::Mode));
        let top: Dip = sub_mode_top();
        let mut row: Vec<SubOp> = Vec::new();
        push_fill(&mut row, top, hovered, pressed);
        assert(row@ =~= fill_ops(top as int, hovered, pressed));
        let ghost before = row@;
        if scroll_is_on(&self.sub_scroll) {
            push_sub(&mut row, SubOp::Check { cy: top + 12, ink: Ink::Text });
        } else {
            assert(row@ =~= before + seq![]);
        }
        push_sub(
            &mut row,
            SubOp::Text {
                id: SubText::Mode,
                x: PAD + 18,
                cy: top + 12,
                ink: ink_of(usable, hovered || pressed),
            },
        );
        ops.append(&mut row);
    }

    /// How the submenu is drawn. Without a device there is nothing in it.
    pub fn draw_sub(&self) -> (r: Vec<SubOp>)
        ensures
            r@ == (if self.sub_dev is Some && self.sub_dev->0 < self.model.devs@.len() {
                sub_ops(*self, self.model.devs@[self.sub_dev->0 as int])
            } else {
                seq![]
            }),
    {
        let mut ops: Vec<SubOp> = Vec::new();
        let dev: usize = match self.sub_dev {
            Some(i) => i,
            None => {
                return ops;
            },
        };
        if dev >= self.model.devs.len() {
            return ops;
        }
        let d = &self.model.devs[dev];
        let ids = d.can_rule();
        let on = scroll_is_on(&self.sub_scroll);
        ops.push(
            SubOp::Text { id: SubText::Info, x: PAD, cy: SUB_INFO_TOP + 12, ink: Ink::Gray },
        );
        ops.push(
            SubOp::Text {
                id: SubText::Speed,
                x: PAD,
                cy: sub_ptr_label_top() + 12,
                ink: Ink::Text,
            },
        );
        ops.push(
            SubOp::Text {
                id: SubText::Wheel,
                x: PAD,
                cy: sub_wheel_label_top() + 12,
                ink: Ink::Text,
            },
        );
        assert(ops@ =~= label_ops());
        self.push_mode(&mut ops, ids);
        self.push_slot_row(
            &mut ops,
            Slot::Trigger,
            SubText::Trigger,
            sub_trigger_top(),
            ids && on,
        );
        self.push_slot_row(
            &mut ops,
            Slot::KbTrigger,
            SubText::KbTrigger,
            sub_kb_top(),
            ids && on,
        );
        push_sub(
            &mut ops,
            SubOp::Text {
                id: SubText::Sens,
                x: PAD,
                cy: sub_sens_label_top() + 12,
                ink: if on {
                    Ink::Text
                } else {
                    Ink::Gray
                },
            },
        );
        let hovered = ids && same_slot(self.sub_hover_row, Some(Slot::Store));
        let pressed = ids && same_slot(self.sub_pressed, Some(Slot::Store));
        let fill = if pressed {
            Some(Ink::BtnPressed)
        } else if hovered {
            Some(Ink::BtnHover)
        } else {
            None
        };
        push_sub(
            &mut ops,
            SubOp::StoreButton { fill, ink: ink_of(ids, hovered || pressed) },
        );
        self.push_slot_row(
            &mut ops,
            Slot::Action(0),
            SubText::Action(0),
            sub_action_top(0),
            slot_is_enabled(d, Slot::Action(0)),
        );
        self.push_slot_row(
            &mut ops,
            Slot::Action(1),
            SubText::Action(1),
            sub_action_top(1),
            slot_is_enabled(d, Slot::Action(1)),
        );
        self.push_slot_row(
            &mut ops,
            Slot::Action(2),
            SubText::Action(2),
            sub_action_top(2),
            slot_is_enabled(d, Slot::Action(2)),
        );
        ops
    }

    /// The label above the pointer speed slider.
    pub fn sub_speed_text(&self) -> (r: String)
        ensures
            r@ == "指针速度: "@ + dec(
                (match self.model.sub_slider {
                    Some(v) => v,
                    None => 10,
                }) as nat,
            ),
    {
        let mut s = "指针速度: ".to_owned();
        push_dec(
            &mut s,
            match self.model.sub_slider {
                Some(v) => v,
                None => 10,
            },
        );
        s
    }

    /// The label above the wheel slider.
    pub fn sub_wheel_text(&self) -> (r: String)
        ensures
            r@ == "滚轮速度: "@ + dec(
                (match self.model.sub_wheel {
                    Some(v) => v,
                    None => 3,
                }) as nat,
            ),
    {
        let mut s = "滚轮速度: ".to_owned();
        push_dec(
            &mut s,
            match self.model.sub_wheel {
                Some(v) => v,
                None => 3,
            },
        );
        s
    }

    /// The settings to show for scroll mode; without any, fresh ones.
    pub open spec fn shown_scroll(&self) -> ScrollCfg {
        match self.sub_scroll {
            Some(c) => c,
            None => ScrollCfg::initial(),
        }
    }

    /// The text of the row of the trigger button: which it is, or that one is
    /// being recorded. `kb_capturing` is whether a key is being recorded.
    pub fn trigger_text(&self, kb_capturing: bool) -> (r: String)
        ensures
            r@ == (if self.model.capturing && !kb_capturing {
                "触发键: 按下任意鼠标键…(Esc取消)"@
            } else {
                "触发键: "@ + self.shown_scroll().trigger.label_text()
            }),
    {
        if self.model.capturing && !kb_capturing {
            return "触发键: 按下任意鼠标键…(Esc取消)".to_owned();
        }
        let c = match self.sub_scroll {
            Some(c) => c,
            None => ScrollCfg::default(),
        };
        "触发键: ".to_owned().concat(c.trigger.label())
    }

    /// The text of the row of the trigger key, likewise.
    pub fn kb_trigger_text(&self, kb_capturing: bool) -> (r: String)
        ensures
            r@ == (if self.model.capturing && kb_capturing {
                "键盘触发: 按下单个键…(Esc取消)"@
            } else {
                match self.shown_scroll().kb_trigger {
                    Some(k) => "键盘触发: "@ + key_label(canonical(k.vk)),
                    None => "键盘触发: 无"@,
                }
            }),
    {
        if self.model.capturing && kb_capturing {
            return "键盘触发: 按下单个键…(Esc取消)".to_owned();
        }
        let c = match self.sub_scroll {
            Some(c) => c,
            None => ScrollCfg::default(),
        };
        match c.kb_trigger {
            Some(k) => "键盘触发: ".to_owned().concat(k.label().as_str()),
            None => "键盘触发: 无".to_owned(),
        }
    }

    /// The label above the sensitivity slider.
    pub fn sens_text(&self) -> (r: String)
        ensures
            r@ == "滚动灵敏度: "@ + dec(self.shown_scroll().px_per_line as nat) + " 像素/行"@,
    {
        let c = match self.sub_scroll {
            Some(c) => c,
            None => ScrollCfg::default(),
        };
        let mut s = "滚动灵敏度: ".to_owned();
        push_dec(&mut s, c.px_per_line);
        s.append(" 像素/行");
        s
    }
}

/// A device without ids can do nothing in its submenu.
pub proof fn law_device_without_ids_has_no_actions(d: DevRow, s: Slot)
    requires
        !d.has_ids(),
    ensures
        !slot_enabled(d, s),
{
}

/// Switching scroll mode twice leaves the settings as they were.
pub proof fn law_switching_twice_changes_nothing(c: ScrollCfg)
    ensures
        toggled(Some(toggled(Some(c)))) == c,
{
}

/// A device with both ids can use every part of its submenu, but for deleting a
/// rule that it does not have.
pub proof fn law_device_with_ids_can_do_all(d: DevRow, s: Slot)
    requires
        d.vid is Some,
        d.pid is Some,
    ensures
        s != Slot::Action(1) ==> slot_enabled(d, s),
        s == Slot::Action(1) ==> (slot_enabled(d, s) <==> d.rule_speed is Some),
{
}

/// Switching scroll mode, and setting its sensitivity, changes that and nothing
/// else. Where there are no settings yet, switching makes fresh ones that are on,
/// and setting the sensitivity fresh ones that are off.
pub proof fn law_scroll_edits_change_one_thing(c: ScrollCfg, px: u32)
    ensures
        toggled(Some(c)).enabled == !c.enabled,
        toggled(Some(c)).trigger == c.trigger,
        toggled(Some(c)).kb_trigger == c.kb_trigger,
        toggled(Some(c)).px_per_line == c.px_per_line,
        toggled(None).enabled,
        !toggled(Some(toggled(None))).enabled,
        toggled(None).trigger == TriggerBtn::X1,
        toggled(None).kb_trigger is None,
        toggled(None).px_per_line == 15,
        with_sens(Some(c), px).px_per_line == px,
        with_sens(Some(c), px).enabled == c.enabled,
        with_sens(Some(c), px).trigger == c.trigger,
        with_sens(Some(c), px).kb_trigger == c.kb_trigger,
        with_sens(None, px).px_per_line == px,
        !with_sens(None, px).enabled,
        with_sens(None, px).trigger == TriggerBtn::X1,
        is_on(Some(c)) == c.enabled,
        !is_on(None),
        is_on(Some(toggled(Some(c)))) == !is_on(Some(c)),
{
}

/// A recorded button becomes the trigger and nothing else changes; without
/// settings, fresh ones with that trigger are made, which are off.
pub proof fn law_recorded_button_is_the_trigger(ui: HostUi, t: TriggerBtn)
    ensures
        ui.with_trigger(t).trigger == t,
        ui.sub_scroll matches Some(c) ==> ui.with_trigger(t).enabled == c.enabled
            && ui.with_trigger(t).kb_trigger == c.kb_trigger && ui.with_trigger(t).px_per_line
            == c.px_per_line,
        ui.sub_scroll is None ==> !ui.with_trigger(t).enabled && ui.with_trigger(
            t,
        ).kb_trigger is None,
{
}

/// A recorded key becomes the trigger key, the left and right variant taken as
/// one, and nothing else changes. Escape changes nothing, and neither does a key
/// where there are no settings.
pub proof fn law_recorded_key_is_the_trigger_key(ui: HostUi, vk: u32, c: ScrollCfg)
    ensures
        ui.after_key(0x1B) == ui.sub_scroll,
        ui.sub_scroll is None ==> ui.after_key(vk) is None,
        ui.sub_scroll == Some(c) && vk != 0x1B ==> {
            &&& ui.after_key(vk) is Some
            &&& (ui.after_key(vk)->0).kb_trigger is Some
            &&& canonical(((ui.after_key(vk)->0).kb_trigger->0).vk) == canonical(vk)
            &&& ui.after_key(vk)->0 == (ScrollCfg {
                kb_trigger: (ui.after_key(vk)->0).kb_trigger,
                ..c
            })
        },
        ui.sub_scroll is Some ==> ui.after_key(0xA0) == ui.after_key(0xA1) && ui.after_key(0xA2)
            == ui.after_key(0xA3),
{
}

/// The submenu is brought to the device that is wanted: it opens where it is not
/// open, stays where it shows that device, and opens anew where it shows another.
/// Where none is wanted, an open one closes. Once that is done nothing is left to
/// do.
pub proof fn law_submenu_is_brought_to_the_device(
    ui: HostUi,
    idx: usize,
    top: Dip,
    sys: SystemSpeed,
)
    ensures
        ui.model.sub_hover == Some((idx, top)) ==> {
            &&& !ui.sub_open ==> ui.sub_work() == (SubWork::Open { idx, top })
            &&& ui.sub_open && ui.sub_dev == Some(idx) ==> ui.sub_work() == SubWork::Nothing
            &&& ui.sub_open && ui.sub_dev != Some(idx) ==> ui.sub_work() == (SubWork::Reopen {
                idx,
                top,
            })
            &&& ui.with_sub(idx, sys).sub_work() == SubWork::Nothing
            &&& ui.without_sub().sub_work() == (SubWork::Open { idx, top })
        },
        ui.model.sub_hover is None ==> {
            &&& ui.sub_open && ui.sub_dev is Some ==> ui.sub_work() == SubWork::Close
            &&& !ui.sub_open ==> ui.sub_work() == SubWork::Nothing
            &&& ui.without_sub().sub_work() == SubWork::Nothing
        },
{
}

/// A submenu starts from the rule of its device, wherever that says something, and
/// else from what the system has set; its scroll mode settings are those of the
/// rule. Nothing in the menu changes by opening it.
pub proof fn law_submenu_starts_from_the_rule(ui: HostUi, idx: usize, sys: SystemSpeed)
    requires
        ui.wf(),
    ensures
        ({
            let o = ui.with_sub(idx, sys);
            &&& o.sub_open && o.sub_dev == Some(idx) && o.sub_hover_row is None
            &&& o.model.sub_slider is Some && o.model.sub_wheel is Some
            &&& idx < ui.model.devs@.len() ==> {
                let d = ui.model.devs@[idx as int];
                &&& d.rule_speed is Some ==> o.model.sub_slider == d.rule_speed
                &&& d.rule_wheel is Some ==> o.model.sub_wheel == d.rule_wheel
                &&& d.rule_speed is None ==> o.model.sub_slider == Some(sys.speed)
                &&& d.rule_wheel is None ==> o.model.sub_wheel == Some(sys.wheel)
                &&& o.sub_scroll == ui.scrolls@[idx as int]
            }
            &&& idx >= ui.model.devs@.len() ==> o.model.sub_slider == Some(sys.speed)
                && o.model.sub_wheel == Some(sys.wheel) && o.sub_scroll is None
            &&& o.model.devs == ui.model.devs && o.model.speed_val == ui.model.speed_val
                && o.model.wheel_val == ui.model.wheel_val && o.menu_open == ui.menu_open
        }),
{
}

/// Moving a slider of the submenu shows its value, within its range, and changes
/// neither what the others show nor anything that is applied.
pub proof fn law_submenu_sliders_only_show(ui: HostUi, pos: int)
    ensures
        ({
            let a = ui.slid(SubSlider::Pointer, pos);
            let b = ui.slid(SubSlider::Wheel, pos);
            let c = ui.slid(SubSlider::Sens, pos);
            &&& a.model.sub_slider is Some && 1 <= a.model.sub_slider->0 <= 20
            &&& 1 <= pos <= 20 ==> a.model.sub_slider->0 == pos
            &&& a.model.sub_wheel == ui.model.sub_wheel && a.sub_scroll == ui.sub_scroll
            &&& b.model.sub_wheel is Some && 1 <= b.model.sub_wheel->0 <= 100
            &&& 1 <= pos <= 100 ==> b.model.sub_wheel->0 == pos
            &&& b.model.sub_slider == ui.model.sub_slider && b.sub_scroll == ui.sub_scroll
            &&& c.sub_scroll is Some && 2 <= (c.sub_scroll->0).px_per_line <= 200
            &&& 2 <= pos <= 200 ==> (c.sub_scroll->0).px_per_line == pos
            &&& is_on(c.sub_scroll) == is_on(ui.sub_scroll)
            &&& c.model == ui.model
            &&& a.model.speed_val == ui.model.speed_val && a.model.wheel_val == ui.model.wheel_val
            &&& b.model.speed_val == ui.model.speed_val && b.model.wheel_val == ui.model.wheel_val
        }),
{
}

/// What the submenu shows is what its button stores: the values under both
/// sliders and the scroll mode settings, for the device of the submenu. Moving a
/// slider before storing stores the moved value.
pub proof fn law_button_stores_what_is_shown(ui: HostUi, dev: usize, pos: int, v: u32, w: u32)
    requires
        ui.sub_dev == Some(dev),
        ui.model.sub_slider == Some(v),
        ui.model.sub_wheel == Some(w),
    ensures
        ui.slot_work(Slot::Store) == UpWork::Run(
            HostAction::SetRuleWithSpeed(dev, v, w, ui.sub_scroll),
        ),
        1 <= pos <= 20 ==> ui.slid(SubSlider::Pointer, pos).slot_work(Slot::Store) == UpWork::Run(
            HostAction::SetRuleWithSpeed(dev, pos as u32, w, ui.sub_scroll),
        ),
        1 <= pos <= 100 ==> ui.slid(SubSlider::Wheel, pos).slot_work(Slot::Store) == UpWork::Run(
            HostAction::SetRuleWithSpeed(dev, v, pos as u32, ui.sub_scroll),
        ),
        ui.after_slot(ui.slot_work(Slot::Mode)).slot_work(Slot::Store) == UpWork::Run(
            HostAction::SetRuleWithSpeed(dev, v, w, Some(toggled(ui.sub_scroll))),
        ),
        ui.after_slot(ui.slot_work(Slot::Store)) == ui,
{
}

/// Each action runs for the device of the submenu: the first stores, the second
/// deletes and the third applies. The switch turns scroll mode, and the slider for
/// the sensitivity can be used just while it is on.
pub proof fn law_submenu_actions_run_for_its_device(ui: HostUi, dev: usize)
    requires
        ui.sub_dev == Some(dev),
    ensures
        ui.slot_work(Slot::Action(0)) == UpWork::Run(HostAction::SetRule(dev)),
        ui.slot_work(Slot::Action(1)) == UpWork::Run(HostAction::DelRule(dev)),
        ui.slot_work(Slot::Action(2)) == UpWork::Run(HostAction::Reapply(dev)),
        ui.slot_work(Slot::Mode) == UpWork::EnableSens(!is_on(ui.sub_scroll)),
        is_on(ui.after_slot(ui.slot_work(Slot::Mode)).sub_scroll) == !is_on(ui.sub_scroll),
{
}

/// A trigger can be recorded just while scroll mode is on in the submenu and
/// nothing is being recorded; while one is, neither trigger row begins another.
pub proof fn law_one_recording_at_a_time(ui: HostUi)
    ensures
        ui.slot_work(Slot::Trigger) == UpWork::Capture <==> is_on(ui.sub_scroll)
            && !ui.model.capturing,
        ui.slot_work(Slot::KbTrigger) == UpWork::KbCapture <==> is_on(ui.sub_scroll)
            && !ui.model.capturing,
        !is_on(ui.sub_scroll) || ui.model.capturing ==> ui.slot_work(Slot::Trigger)
            == UpWork::Nothing && ui.slot_work(Slot::KbTrigger) == UpWork::Nothing,
        ui.after_slot(UpWork::Capture).model.capturing,
        ui.after_slot(UpWork::KbCapture).model.capturing,
        ui.after_slot(UpWork::Capture).slot_work(Slot::KbTrigger) == UpWork::Nothing,
        ui.after_slot(UpWork::KbCapture).slot_work(Slot::Trigger) == UpWork::Nothing,
        ui.after_slot(UpWork::Capture).sub_scroll == ui.sub_scroll,
        ui.after_slot(UpWork::Nothing) == ui,
{
}

/// Only what is enabled for the device of the submenu can be pressed, and what
/// can be pressed does its work when it is let go. Without a submenu nothing can.
pub proof fn law_pressing_needs_a_device(ui: HostUi, s: Slot)
    ensures
        ui.sub_dev is None ==> !ui.can_press(Some(s)) && !ui.can_release(Some(s)),
        !ui.can_press(None),
        ui.can_press(Some(s)) ==> ui.can_release(Some(s)),
        ui.sub_dev is Some ==> ui.can_release(Some(Slot::Trigger)) && ui.can_release(
            Some(Slot::KbTrigger),
        ),
        s != Slot::Trigger && s != Slot::KbTrigger ==> ui.can_release(Some(s)) == ui.can_press(
            Some(s),
        ),
        !ui.can_release(None),
        ui.sub_dev matches Some(i) ==> (i < ui.model.devs@.len() ==> (ui.can_press(Some(s))
            <==> slot_enabled(ui.model.devs@[i as int], s))),
        ui.sub_dev matches Some(i) ==> (i >= ui.model.devs@.len() ==> !ui.can_press(Some(s))),
{
}

/// Leaving the submenu keeps it wanted just where a device row, the entry for the
/// other devices or their list is pointed at. Going onto one of its sliders is not
/// leaving it.
pub proof fn law_leaving_the_submenu(ui: HostUi)
    ensures
        ui.left_sub(true).model == ui.model,
        ui.left_sub(true).sub_pressed is None && ui.left_sub(false).sub_pressed is None,
        !ui.left_sub(false).model.sub_pointer_inside,
        ui.left_sub(false).sub_hover_row is None,
        ui.keeps_sub() ==> ui.left_sub(false).model.sub_hover == ui.model.sub_hover,
        !ui.keeps_sub() ==> ui.left_sub(false).model.sub_hover is None,
        ui.other_pointer_inside ==> ui.keeps_sub(),
        forall|i: usize| #[trigger]
            (HostUi { hover: Some(Target::Device(i)), ..ui }).keeps_sub(),
        (HostUi { hover: Some(Target::OtherDevices), ..ui }).keeps_sub(),
        !ui.other_pointer_inside ==> !(HostUi { hover: None, ..ui }).keeps_sub() && !(HostUi {
            hover: Some(Target::Exit),
            ..ui
        }).keeps_sub() && !(HostUi { hover: Some(Target::Autostart), ..ui }).keeps_sub() && !(
        HostUi { hover: Some(Target::Reset), ..ui }).keeps_sub(),
{
}

/// A part that cannot be used is grey, and never lit; one that can be used is lit
/// while it is pointed at or pressed, pressed before pointed at.
pub proof fn law_submenu_rows_are_drawn_as_they_are(
    ui: HostUi,
    s: Slot,
    id: SubText,
    top: int,
    usable: bool,
)
    requires
        0 <= top <= 100_000,
    ensures
        ({
            let ops = slot_row_ops(ui, s, id, top, usable);
            let over = ui.sub_hover_row == Some(s);
            let down = ui.sub_pressed == Some(s);
            &&& ops.last() is Text && ops.last()->id == id
            &&& ops.last()->Text_ink == Ink::Gray <==> !usable
            &&& ops.last()->Text_ink == Ink::HlText <==> usable && (over || down)
            &&& ops.len() == (if usable && (over || down) {
                2int
            } else {
                1
            })
            &&& usable && down ==> ops[0] == (SubOp::Fill {
                top: top as Dip,
                ink: Ink::RowPressed,
            })
            &&& usable && over && !down ==> ops[0] == (SubOp::Fill {
                top: top as Dip,
                ink: Ink::Highlight,
            })
            &&& top <= ops.last()->Text_cy < top + 24
        }),
{
}

/// The switch shows a check mark just while scroll mode is on in the submenu, and
/// the button is filled just while it can be used and is pointed at or pressed.
pub proof fn law_switch_and_button_are_drawn_as_they_are(ui: HostUi, usable: bool)
    ensures
        ({
            let ops = mode_ops(ui, usable);
            let over = ui.sub_hover_row == Some(Slot::Mode);
            let down = ui.sub_pressed == Some(Slot::Mode);
            &&& ops.last() is Text && ops.last()->id == SubText::Mode
            &&& ops.last()->Text_ink == Ink::Gray <==> !usable
            &&& ops.len() == 1 + (if is_on(ui.sub_scroll) {
                1int
            } else {
                0
            }) + (if usable && (over || down) {
                1int
            } else {
                0
            })
            &&& is_on(ui.sub_scroll) ==> ops[ops.len() - 2] is Check
        }),
        ({
            let over = ui.sub_hover_row == Some(Slot::Store);
            let down = ui.sub_pressed == Some(Slot::Store);
            store_op(ui, usable) matches SubOp::StoreButton { fill, ink } && {
                &&& fill is Some <==> usable && (over || down)
                &&& usable && down ==> fill == Some(Ink::BtnPressed)
                &&& ink == Ink::Gray <==> !usable
            }
        }),
{
}

/// The submenu shows the settings it holds, and fresh ones that are off where it
/// holds none.
pub proof fn law_submenu_shows_its_settings(ui: HostUi, c: ScrollCfg)
    ensures
        ui.sub_scroll == Some(c) ==> ui.shown_scroll() == c,
        ui.sub_scroll is None ==> !ui.shown_scroll().enabled && ui.shown_scroll().trigger
            == TriggerBtn::X1 && ui.shown_scroll().kb_trigger is None
            && ui.shown_scroll().px_per_line == 15,
{
}

} // verus!

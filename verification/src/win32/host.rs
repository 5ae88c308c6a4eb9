//! The host of the native windows: which are open, what is pointed at and
//! pressed in them, and what the messages of the system mean.

use crate::devices::Device;
use crate::menu_model::{
    build_dev_rows, effective_name, is_row_of, law_row_shows_its_device, tip, tip_text, DevRow,
    Dip, MenuModel,
};
use crate::scroll::{ScrollCfg, TriggerBtn, SCROLL_PX_DEFAULT};
use crate::speed::{valid_speed, valid_wheel, SpeedWrite, SystemSpeed};
use crate::state::{lemma_effective, rule_of, AppState, StateModel};
use crate::text::same_text;
use crate::win32::layout::{device_top, device_y, Slot, Target};
use crate::win32::scroll_hook::{
    is_capture_end_event, is_capturing, HookState, WM_LBUTTONDOWN, WM_RBUTTONDOWN,
};
use vstd::prelude::*;

verus! {

/// What the menu tells of the rule in force.
#[derive(Debug)]
pub struct EffectiveInfo {
    pub name: String,
    pub speed: u32,
    pub wheel: Option<u32>,
    pub scroll: Option<ScrollCfg>,
}

/// What the menu tells of the rule in force.
pub fn effective_info(st: &AppState) -> (r: Option<EffectiveInfo>)
    ensures
        match st@.effective() {
            Some(i) => {
                let rule = rule_of(st@.cfg.rules@, st@.active[i].1)->0;
                r is Some && r->0 == (EffectiveInfo {
                    name: st@.active[i].1.name,
                    speed: rule.speed,
                    wheel: rule.wheel,
                    scroll: rule.scroll,
                })
            },
            None => r is None,
        },
{
    match st.effective_rule() {
        Some((d, rule)) => Some(
            EffectiveInfo {
                name: d.name.clone(),
                speed: rule.speed,
                wheel: rule.wheel,
                scroll: rule.scroll,
            },
        ),
        None => None,
    }
}

/// The scroll mode settings of a device's rule.
pub open spec fn scroll_of(m: StateModel, d: Device) -> Option<ScrollCfg> {
    match rule_of(m.cfg.rules@, d) {
        Some(r) => r.scroll,
        None => None,
    }
}

fn device_scrolls(mice: &Vec<Device>, st: &AppState) -> (r: Vec<Option<ScrollCfg>>)
    ensures
        r@.len() == mice@.len(),
        forall|i: int| 0 <= i < mice@.len() ==> #[trigger] r@[i] == scroll_of(st@, mice@[i]),
{
    let mut out: Vec<Option<ScrollCfg>> = Vec::new();
    for i in 0..mice.len()
        invariant
            out@.len() == i,
            forall|j: int| 0 <= j < i ==> #[trigger] out@[j] == scroll_of(st@, mice@[j]),
    {
        out.push(
            match st.rule_for(&mice[i]) {
                Some(r) => r.scroll,
                None => None,
            },
        );
    }
    out
}

/// The places, among the first `k` devices, of those with a rule or of those
/// without one.
pub open spec fn picked(devs: Seq<DevRow>, with_rule: bool, k: int) -> Seq<usize>
    decreases k,
{
    if k <= 0 {
        seq![]
    } else if devs[k - 1].rule_speed is Some == with_rule {
        picked(devs, with_rule, k - 1).push((k - 1) as usize)
    } else {
        picked(devs, with_rule, k - 1)
    }
}

/// Every device is in exactly one of the two lists, by whether it has a rule,
/// and the lists name nothing else.
pub proof fn law_every_device_is_in_one_list(devs: Seq<DevRow>, with_rule: bool, k: int, i: usize)
    requires
        0 <= k <= devs.len() <= usize::MAX,
    ensures
        picked(devs, with_rule, k).contains(i) <==> i < k && devs[i as int].rule_speed is Some
            == with_rule,
        picked(devs, with_rule, k).len() <= k,
        forall|j: int|
            0 <= j < picked(devs, with_rule, k).len() ==> (#[trigger] picked(
                devs,
                with_rule,
                k,
            )[j]) < k,
    decreases k,
{
    if k > 0 {
        law_every_device_is_in_one_list(devs, with_rule, k - 1, i);
        let before = picked(devs, with_rule, k - 1);
        let after = picked(devs, with_rule, k);
        if devs[k - 1].rule_speed is Some == with_rule {
            let x = (k - 1) as usize;
            assert(after[before.len() as int] == x);
            if before.contains(i) {
                let j = before.index_of(i);
                assert(after[j] == i);
            }
            if after.contains(i) {
                let j = after.index_of(i);
                if j < before.len() {
                    assert(before[j] == i);
                }
            }
        }
    }
}

fn pick(devs: &Vec<DevRow>, with_rule: bool) -> (r: Vec<usize>)
    ensures
        r@ == picked(devs@, with_rule, devs@.len() as int),
{
    let mut out: Vec<usize> = Vec::new();
    for i in 0..devs.len()
        invariant
            out@ == picked(devs@, with_rule, i as int),
    {
        if devs[i].rule_speed.is_some() == with_rule {
            out.push(i);
        }
    }
    out
}

/// The state of the native windows.
#[derive(Debug)]
pub struct HostUi {
    pub model: MenuModel,
    /// The scroll mode settings of each device's rule.
    pub scrolls: Vec<Option<ScrollCfg>>,
    /// The places of the devices with a rule.
    pub ruled: Vec<usize>,
    /// The places of the devices without one.
    pub other: Vec<usize>,
    pub effective: Option<EffectiveInfo>,
    /// The scroll mode settings in the open submenu.
    pub sub_scroll: Option<ScrollCfg>,
    /// The entry for the other devices is pointed at.
    pub other_entry_hovered: bool,
    /// The row of the other devices that is pointed at.
    pub other_dev_hover: Option<usize>,
    /// The pointer is inside the list of other devices.
    pub other_pointer_inside: bool,
    pub menu_open: bool,
    /// The open menu has been active.
    pub menu_ever_active: bool,
    /// The menu is being opened.
    pub menu_opening: bool,
    /// What is pointed at in the menu.
    pub hover: Option<Target>,
    /// What is pressed in the menu.
    pub pressed: Option<Target>,
    pub sub_open: bool,
    /// The device of the open submenu.
    pub sub_dev: Option<usize>,
    pub sub_hover_row: Option<Slot>,
    pub sub_pressed: Option<Slot>,
    /// The list of other devices is open.
    pub other_open: bool,
    pub other_sub_hover: Option<usize>,
    pub other_sub_pressed: Option<usize>,
}

/// What a click of the tray icon does.
#[derive(Debug, Clone, Copy, PartialEq, Eq, Structural)]
pub enum TrayClick {
    /// Nothing: the menu is just being opened.
    Ignore,
    CloseMenu,
    OpenMenu,
}

/// What follows from the pointer leaving a slider of the submenu.
#[derive(Debug, Clone, Copy, PartialEq, Eq, Structural)]
pub enum SubLeft {
    /// It is still inside the submenu.
    Stay,
    CloseSub,
    /// The submenu stays, since its device is pointed at; the menu is to be
    /// drawn anew.
    Redraw,
}

/// What follows from a change of the system settings.
#[derive(Debug, Clone, Copy, PartialEq, Eq, Structural)]
pub struct SettingWork {
    /// The pointer slider moves here.
    pub pointer: Option<u32>,
    /// The wheel slider moves here.
    pub wheel: Option<u32>,
    /// The tool tip is to be brought up to date.
    pub tip: bool,
    /// Someone else made the change; scroll mode and the rows are to be brought in
    /// line with the global settings.
    pub foreign: bool,
}

/// What follows from a scan for devices.
#[derive(Debug)]
pub struct ScanWork {
    /// The system settings to change.
    pub writes: Vec<SpeedWrite>,
    /// The submenu's window is to be closed.
    pub close_sub: bool,
}

/// A device arrived.
pub const DBT_DEVICEARRIVAL: u32 = 0x8000;

/// A device is gone.
pub const DBT_DEVICEREMOVECOMPLETE: u32 = 0x8004;

/// The devices changed in some way.
pub const DBT_DEVNODES_CHANGED: u32 = 0x0007;

/// How long to wait after a change of the devices before scanning for them, in
/// milliseconds: one plug makes several messages.
pub const DEV_DEBOUNCE_MS: u32 = 350;

/// The device message can mean that a device came or went.
pub open spec fn is_device_change(event: u32) -> bool {
    event == DBT_DEVICEARRIVAL || event == DBT_DEVICEREMOVECOMPLETE || event
        == DBT_DEVNODES_CHANGED
}

/// Whether a device message can mean that a device came or went.
pub fn needs_scan(event: u32) -> (r: bool)
    ensures
        r == is_device_change(event),
{
    event == DBT_DEVICEARRIVAL || event == DBT_DEVICEREMOVECOMPLETE || event == DBT_DEVNODES_CHANGED
}

/// The class is one of the tool's menus.
pub open spec fn is_popup_class(name: Seq<char>) -> bool {
    name == "MSS_Menu"@ || name == "MSS_SubMenu"@ || name == "MSS_OtherSubMenu"@
}

/// Whether the class is one of the tool's menus.
pub fn is_mss_popup(name: &str) -> (r: bool)
    ensures
        r == is_popup_class(name@),
{
    same_text(name, "MSS_Menu") || same_text(name, "MSS_SubMenu") || same_text(
        name,
        "MSS_OtherSubMenu",
    )
}

/// A mouse event closes the menu.
pub open spec fn is_closing_click(
    hook: HookState,
    msg: u32,
    time: u32,
    root_class: Option<Seq<char>>,
) -> bool {
    &&& msg == WM_LBUTTONDOWN || msg == WM_RBUTTONDOWN
    &&& root_class is Some
    &&& !is_popup_class(root_class->0)
    &&& !hook.capturing
    &&& hook.capture_end_time != Some(time)
}

/// Where a slider that shows `shown` moves when `now` is set; `None` where it
/// stays.
pub open spec fn slider_moves(shown: u32, now: u32) -> Option<u32> {
    if now != shown {
        Some(now)
    } else {
        None
    }
}

/// Whether a mouse event outside closes the menu: the left or right button
/// going down over a window that is not one of the tool's menus. `root_class`
/// is the class of the window under it. The press that records a trigger does
/// not close the menu.
pub fn closes_menu(hook: &HookState, msg: u32, time: u32, root_class: Option<&str>) -> (r: bool)
    ensures
        r == is_closing_click(
            *hook,
            msg,
            time,
            match root_class {
                Some(c) => Some(c@),
                None => None,
            },
        ),
{
    if msg != WM_LBUTTONDOWN && msg != WM_RBUTTONDOWN {
        return false;
    }
    if is_capturing(hook) || is_capture_end_event(hook, time) {
        return false;
    }
    match root_class {
        Some(name) => !is_mss_popup(name),
        None => false,
    }
}

/// The name of the device whose rule is in force, and the speed of that rule.
pub open spec fn named_rule(m: StateModel) -> Option<(Seq<char>, u32)> {
    match m.effective() {
        Some(i) => Some((m.active[i].1.name@, rule_of(m.cfg.rules@, m.active[i].1)->0.speed)),
        None => None,
    }
}

/// The tool tip for the state and the system settings.
pub fn tip_for(st: &AppState, sys: SystemSpeed) -> (r: String)
    ensures
        r@ == tip(sys.speed, sys.wheel, named_rule(st@)),
{
    match effective_name(st) {
        Some((name, speed)) => tip_text(sys.speed, sys.wheel, Some((name.as_str(), speed))),
        None => tip_text(sys.speed, sys.wheel, None),
    }
}

impl HostUi {
    /// The lists fit the devices.
    pub open spec fn wf(&self) -> bool {
        &&& self.scrolls@.len() == self.model.devs@.len()
        &&& self.ruled@ == picked(self.model.devs@, true, self.model.devs@.len() as int)
        &&& self.other@ == picked(self.model.devs@, false, self.model.devs@.len() as int)
    }

    /// The place of a listed device is one of a device.
    pub proof fn lemma_places(&self, l: int)
        requires
            self.wf(),
        ensures
            0 <= l < self.ruled@.len() ==> self.ruled@[l] < self.model.devs@.len(),
            0 <= l < self.other@.len() ==> self.other@[l] < self.model.devs@.len(),
    {
        assert(self.model.devs.len() == self.model.devs@.len());
        law_every_device_is_in_one_list(
            self.model.devs@,
            true,
            self.model.devs@.len() as int,
            0,
        );
        law_every_device_is_in_one_list(
            self.model.devs@,
            false,
            self.model.devs@.len() as int,
            0,
        );
    }

    /// All windows closed and no devices.
    pub fn new(sys: SystemSpeed, autostart_on: bool) -> (r: HostUi)
        ensures
            r.wf(),
            r.model.devs@.len() == 0,
            r == (HostUi {
                model: MenuModel {
                    devs: r.model.devs,
                    effective: None,
                    autostart_on,
                    speed_val: valid_speed(sys.speed),
                    pending_speed: None,
                    wheel_val: valid_wheel(sys.wheel),
                    pending_wheel: None,
                    scroll_on: false,
                    scroll_trigger: TriggerBtn::X1,
                    scroll_px: SCROLL_PX_DEFAULT,
                    pending_scroll_px: None,
                    capturing: false,
                    sub_hover: None,
                    sub_slider: None,
                    sub_wheel: None,
                    sub_pointer_inside: false,
                    kb_focus: None,
                },
                scrolls: r.scrolls,
                ruled: r.ruled,
                other: r.other,
                effective: None,
                sub_scroll: None,
                other_entry_hovered: false,
                other_dev_hover: None,
                other_pointer_inside: false,
                menu_open: false,
                menu_ever_active: false,
                menu_opening: false,
                hover: None,
                pressed: None,
                sub_open: false,
                sub_dev: None,
                sub_hover_row: None,
                sub_pressed: None,
                other_open: false,
                other_sub_hover: None,
                other_sub_pressed: None,
            }),
    {
        HostUi {
            model: MenuModel::new(
                sys.speed,
                sys.wheel,
                autostart_on,
                false,
                TriggerBtn::X1,
                SCROLL_PX_DEFAULT,
            ),
            scrolls: Vec::new(),
            ruled: Vec::new(),
            other: Vec::new(),
            effective: None,
            sub_scroll: None,
            other_entry_hovered: false,
            other_dev_hover: None,
            other_pointer_inside: false,
            menu_open: false,
            menu_ever_active: false,
            menu_opening: false,
            hover: None,
            pressed: None,
            sub_open: false,
            sub_dev: None,
            sub_hover_row: None,
            sub_pressed: None,
            other_open: false,
            other_sub_hover: None,
            other_sub_pressed: None,
        }
    }

    /// The rows, lists and rule in force are those of the devices and state.
    pub open spec fn shows(&self, mice: Seq<Device>, m: StateModel) -> bool {
        &&& self.wf()
        &&& self.model.devs@.len() == mice.len()
        &&& forall|i: int|
            0 <= i < mice.len() ==> is_row_of(#[trigger] self.model.devs@[i], mice[i], m)
        &&& forall|i: int| 0 <= i < mice.len() ==> #[trigger] self.scrolls@[i] == scroll_of(m, mice[i])
        &&& match m.effective() {
            Some(i) => {
                let rule = rule_of(m.cfg.rules@, m.active[i].1)->0;
                self.effective is Some && self.effective->0 == (EffectiveInfo {
                    name: m.active[i].1.name,
                    speed: rule.speed,
                    wheel: rule.wheel,
                    scroll: rule.scroll,
                })
            },
            None => self.effective is None,
        }
    }

    /// Everything but the rows, the lists and the rule in force is as in `o`.
    pub open spec fn same_but_rows(&self, o: HostUi) -> bool {
        *self == (HostUi {
            model: MenuModel { devs: self.model.devs, ..o.model },
            scrolls: self.scrolls,
            ruled: self.ruled,
            other: self.other,
            effective: self.effective,
            ..o
        })
    }

    /// Brings the rows, the lists and the rule in force up to date.
    pub fn refresh(&mut self, mice: &Vec<Device>, st: &AppState)
        ensures
            final(self).shows(mice@, st@),
            final(self).same_but_rows(*old(self)),
    {
        let rows = build_dev_rows(mice, st);
        self.ruled = pick(&rows, true);
        self.other = pick(&rows, false);
        self.scrolls = device_scrolls(mice, st);
        self.model.devs = rows;
        self.effective = effective_info(st);
    }

    /// A fresh menu: nothing dragged, pointed at, recorded or focused.
    pub open spec fn cleared(&self, sys: SystemSpeed, autostart_on: bool) -> HostUi {
        HostUi {
            model: MenuModel {
                speed_val: sys.speed,
                wheel_val: sys.wheel,
                pending_speed: None,
                pending_wheel: None,
                sub_slider: None,
                sub_wheel: None,
                autostart_on,
                capturing: false,
                kb_focus: None,
                ..self.model
            },
            sub_scroll: None,
            hover: None,
            ..*self
        }
    }

    /// Gets everything ready for opening the menu: scans for devices, and
    /// starts from the settings of the system.
    pub fn prepare_menu(
        &mut self,
        st: &mut AppState,
        mice: &Vec<Device>,
        sys: SystemSpeed,
        autostart_on: bool,
    ) -> (w: Vec<SpeedWrite>)
        requires
            old(st).wf(),
        ensures
            final(st).wf(),
            final(st)@ == old(st)@.scanned(mice@),
            w@ == old(st)@.scanned_writes(mice@),
            final(self).shows(mice@, final(st)@),
            final(self).same_but_rows(old(self).cleared(sys, autostart_on)),
    {
        let w = st.apply_diff(mice);
        self.refresh(mice, st);
        self.model.speed_val = sys.speed;
        self.model.wheel_val = sys.wheel;
        self.model.pending_speed = None;
        self.model.pending_wheel = None;
        self.model.sub_slider = None;
        self.model.sub_wheel = None;
        self.sub_scroll = None;
        self.model.autostart_on = autostart_on;
        self.model.capturing = false;
        self.model.kb_focus = None;
        self.hover = None;
        w
    }

    /// What a click of the tray icon does.
    pub open spec fn tray_click(&self) -> TrayClick {
        if self.menu_opening {
            TrayClick::Ignore
        } else if self.menu_open {
            TrayClick::CloseMenu
        } else {
            TrayClick::OpenMenu
        }
    }

    /// The state after a request to close the menu.
    pub open spec fn closed(&self) -> HostUi {
        if self.menu_opening {
            *self
        } else if self.menu_open {
            HostUi {
                pressed: None,
                sub_pressed: None,
                menu_open: false,
                hover: None,
                sub_open: false,
                sub_dev: None,
                sub_hover_row: None,
                other_open: false,
                other_sub_hover: None,
                other_sub_pressed: None,
                menu_ever_active: false,
                ..*self
            }
        } else {
            HostUi { pressed: None, sub_pressed: None, menu_ever_active: false, ..*self }
        }
    }

    /// The state after opening the menu, or failing to.
    pub open spec fn after_opening(&self, opened: bool) -> HostUi {
        if opened {
            HostUi {
                menu_opening: false,
                menu_open: true,
                menu_ever_active: false,
                pressed: None,
                sub_pressed: None,
                ..*self
            }
        } else {
            HostUi { menu_opening: false, ..*self }
        }
    }

    /// Becoming active or inactive closes the menu.
    pub open spec fn closes_on_activate(&self, active: bool) -> bool {
        !active && self.menu_ever_active
    }

    /// What follows from the pointer leaving a slider of the submenu.
    pub open spec fn sub_left(&self, inside: bool) -> SubLeft {
        if inside && self.sub_open {
            SubLeft::Stay
        } else if self.kept_sub_hover() is None {
            SubLeft::CloseSub
        } else {
            SubLeft::Redraw
        }
    }

    /// What a click of the tray icon does.
    pub fn toggle_menu(&self) -> (r: TrayClick)
        ensures
            r == self.tray_click(),
    {
        if self.menu_opening {
            TrayClick::Ignore
        } else if self.menu_open {
            TrayClick::CloseMenu
        } else {
            TrayClick::OpenMenu
        }
    }

    /// The menu is about to be opened; until it is, requests to close it are
    /// not followed.
    pub fn begin_open(&mut self)
        ensures
            *final(self) == (HostUi { menu_opening: true, ..*old(self) }),
    {
        self.menu_opening = true;
    }

    /// The menu was opened, or could not be.
    pub fn end_open(&mut self, opened: bool)
        ensures
            *final(self) == old(self).after_opening(opened),
    {
        self.menu_opening = false;
        if opened {
            self.menu_open = true;
            self.menu_ever_active = false;
            self.pressed = None;
            self.sub_pressed = None;
        }
    }

    /// The menu is to be closed; returns whether there is a window to close. Its
    /// submenus go with it. While it is being opened nothing happens.
    pub fn close_menu(&mut self) -> (destroy: bool)
        ensures
            destroy == (old(self).menu_open && !old(self).menu_opening),
            *final(self) == old(self).closed(),
    {
        if self.menu_opening {
            return false;
        }
        self.pressed = None;
        self.sub_pressed = None;
        let destroy = self.menu_open;
        if destroy {
            self.menu_open = false;
            self.hover = None;
            self.sub_open = false;
            self.sub_dev = None;
            self.sub_hover_row = None;
            self.other_open = false;
            self.other_sub_hover = None;
            self.other_sub_pressed = None;
        }
        self.menu_ever_active = false;
        destroy
    }

    /// The menu became active or inactive; returns whether it is to be closed.
    /// It is on becoming inactive once it has been active.
    pub fn on_activate(&mut self, active: bool) -> (close: bool)
        ensures
            close == old(self).closes_on_activate(active),
            *final(self) == (HostUi {
                menu_ever_active: old(self).menu_ever_active || active,
                ..*old(self)
            }),
    {
        if active {
            self.menu_ever_active = true;
            false
        } else {
            self.menu_ever_active
        }
    }

    /// The submenu's own request to close it arrived: whether to follow it. The
    /// pointer may be back over its device.
    pub fn follows_close_request(&self) -> (r: bool)
        ensures
            r == (self.model.sub_hover is None),
    {
        self.model.sub_hover.is_none()
    }

    /// A device row is pointed at.
    pub open spec fn over_device(&self) -> bool {
        self.hover is Some && self.hover->0 is Device
    }

    /// The submenu stays wanted only where its device is pointed at.
    pub open spec fn kept_sub_hover(&self) -> Option<(usize, Dip)> {
        if self.over_device() {
            self.model.sub_hover
        } else {
            None
        }
    }

    /// The pointer left a slider of the submenu; `inside` is whether it is
    /// still inside the submenu.
    pub fn on_sub_left(&mut self, inside: bool) -> (r: SubLeft)
        ensures
            r == old(self).sub_left(inside),
            r is Stay ==> *final(self) == (HostUi {
                model: MenuModel { sub_pointer_inside: true, ..old(self).model },
                ..*old(self)
            }),
            !(r is Stay) ==> *final(self) == (HostUi {
                model: MenuModel {
                    sub_pointer_inside: false,
                    sub_hover: old(self).kept_sub_hover(),
                    ..old(self).model
                },
                sub_pressed: None,
                sub_hover_row: None,
                ..*old(self)
            }),
    {
        if inside && self.sub_open {
            self.model.sub_pointer_inside = true;
            return SubLeft::Stay;
        }
        let kept = match self.hover {
            Some(Target::Device(_)) => self.model.sub_hover,
            _ => None,
        };
        self.sub_pressed = None;
        self.model.sub_pointer_inside = false;
        self.sub_hover_row = None;
        self.model.sub_hover = kept;
        if kept.is_none() {
            SubLeft::CloseSub
        } else {
            SubLeft::Redraw
        }
    }

    /// The system settings changed: the sliders follow what is set now, and the
    /// tool tip where that is something new. When someone else changed them, no
    /// rule is in force any more.
    pub fn on_setting_change(&mut self, st: &mut AppState, sys: SystemSpeed) -> (r: SettingWork)
        ensures
            final(st)@ == old(st)@.observed(sys),
            final(st).saved == old(st).saved,
            r.foreign == old(st)@.is_foreign(sys),
            r.pointer == slider_moves(old(self).model.speed_val, sys.speed),
            r.wheel == slider_moves(old(self).model.wheel_val, sys.wheel),
            r.tip == (r.pointer is Some || r.wheel is Some || r.foreign),
            *final(self) == (HostUi {
                model: MenuModel {
                    speed_val: sys.speed,
                    wheel_val: sys.wheel,
                    ..old(self).model
                },
                ..*old(self)
            }),
    {
        let foreign = st.on_speed_observed(sys.speed, sys.wheel);
        let mut work = SettingWork { pointer: None, wheel: None, tip: foreign, foreign };
        if sys.speed != self.model.speed_val {
            self.model.speed_val = sys.speed;
            work.pointer = Some(sys.speed);
            work.tip = true;
        }
        if sys.wheel != self.model.wheel_val {
            self.model.wheel_val = sys.wheel;
            work.wheel = Some(sys.wheel);
            work.tip = true;
        }
        work
    }

    /// The submenu's state once its window is gone.
    pub open spec fn without_sub(&self) -> HostUi {
        if self.sub_open {
            HostUi {
                model: MenuModel {
                    sub_slider: None,
                    sub_wheel: None,
                    capturing: false,
                    sub_pointer_inside: false,
                    ..self.model
                },
                sub_scroll: None,
                sub_open: false,
                sub_dev: None,
                sub_hover_row: None,
                sub_pressed: None,
                ..*self
            }
        } else {
            *self
        }
    }

    /// Closes the submenu; returns whether there is a window to close.
    pub fn close_sub(&mut self) -> (destroy: bool)
        ensures
            destroy == old(self).sub_open,
            *final(self) == old(self).without_sub(),
    {
        if !self.sub_open {
            return false;
        }
        self.sub_open = false;
        self.sub_dev = None;
        self.sub_hover_row = None;
        self.sub_pressed = None;
        self.model.sub_slider = None;
        self.model.sub_wheel = None;
        self.sub_scroll = None;
        self.model.capturing = false;
        self.model.sub_pointer_inside = false;
        true
    }

    /// The devices may have changed: scans for them. When their number changed,
    /// the open submenu is closed, since its device may be another one now.
    pub fn debounced_scan(&mut self, st: &mut AppState, mice: &Vec<Device>) -> (r: ScanWork)
        requires
            old(st).wf(),
        ensures
            final(st).wf(),
            final(st)@ == old(st)@.scanned(mice@),
            r.writes@ == old(st)@.scanned_writes(mice@),
            final(self).shows(mice@, final(st)@),
            ({
                let changed = old(self).model.devs@.len() != mice@.len();
                let closed = old(self).without_sub();
                &&& r.close_sub == (changed && old(self).sub_open)
                &&& final(self).same_but_rows(
                    if changed {
                        HostUi { model: MenuModel { sub_hover: None, ..closed.model }, ..closed }
                    } else {
                        *old(self)
                    },
                )
            }),
    {
        let writes = st.apply_diff(mice);
        let changed = self.model.devs.len() != mice.len();
        self.refresh(mice, st);
        let mut close_sub = false;
        if changed {
            close_sub = self.close_sub();
            self.model.sub_hover = None;
        }
        ScanWork { writes, close_sub }
    }

    /// A device row of the menu is pointed at, or none.
    pub open spec fn pointing_at_ruled(&self, local: Option<usize>) -> HostUi {
        HostUi {
            model: MenuModel {
                sub_hover: match local {
                    Some(l) => Some((self.ruled@[l as int], device_y(l as int) as Dip)),
                    None => if self.model.sub_pointer_inside {
                        self.model.sub_hover
                    } else {
                        None
                    },
                },
                ..self.model
            },
            other_entry_hovered: false,
            ..*self
        }
    }

    /// A device row of the menu is pointed at: its submenu is wanted. Without
    /// one, the submenu is wanted as long as the pointer is inside it.
    pub fn update_hover_ruled(&mut self, local: Option<usize>)
        requires
            local matches Some(l) ==> l < old(self).ruled@.len(),
        ensures
            *final(self) == old(self).pointing_at_ruled(local),
    {
        self.model.sub_hover = match local {
            Some(l) => Some((self.ruled[l], device_top(l))),
            None => if self.model.sub_pointer_inside {
                self.model.sub_hover
            } else {
                None
            },
        };
        self.other_entry_hovered = false;
        proof {
            if let Some(l) = local {
                assert(device_y(l as int) as Dip == device_y(l as int));
            }
        }
    }
}

/// A menu closes on the left or right button going down over a window that is not
/// one of the tool's menus, and on no other event. While a trigger is recorded,
/// and by the very press that ended the recording, it does not close.
pub proof fn law_clicks_that_close(hook: HookState, msg: u32, time: u32, class: Seq<char>)
    ensures
        is_closing_click(hook, msg, time, Some(class)) ==> msg == 0x0201 || msg == 0x0204,
        !is_closing_click(hook, msg, time, None),
        is_popup_class(class) ==> !is_closing_click(hook, msg, time, Some(class)),
        hook.capturing ==> !is_closing_click(hook, msg, time, Some(class)),
        !is_closing_click(hook.recorded_at(time), msg, time, Some(class)),
        !is_popup_class(class) && !hook.capturing && hook.capture_end_time is None && (msg == 0x0201
            || msg == 0x0204) ==> is_closing_click(hook, msg, time, Some(class)),
        forall|ended: u32|
            ended != time && !is_popup_class(class) && (msg == 0x0201 || msg == 0x0204)
                ==> is_closing_click(#[trigger] hook.recorded_at(ended), msg, time, Some(class)),
{
}

/// A slider moves to what is set just where it shows something else.
pub proof fn law_sliders_follow_the_system(shown: u32, now: u32)
    ensures
        slider_moves(shown, now) is Some <==> shown != now,
        slider_moves(shown, now) matches Some(v) ==> v == now,
        slider_moves(now, now) is None,
{
}

/// The devices of a list come in the order of the menu, and none twice.
pub proof fn law_lists_keep_the_order(devs: Seq<DevRow>, with_rule: bool, k: int)
    requires
        0 <= k <= devs.len() <= usize::MAX,
    ensures
        forall|i: int, j: int|
            0 <= i < j < picked(devs, with_rule, k).len() ==> (#[trigger] picked(
                devs,
                with_rule,
                k,
            )[i]) < (#[trigger] picked(devs, with_rule, k)[j]),
        picked(devs, true, k).len() + picked(devs, false, k).len() == k,
    decreases k,
{
    if k > 0 {
        law_lists_keep_the_order(devs, with_rule, k - 1);
        law_every_device_is_in_one_list(devs, with_rule, k - 1, 0);
    }
}

/// A click of the tray icon while the menu is being opened does nothing; else it
/// closes an open menu and opens a closed one.
pub proof fn law_tray_click_toggles(ui: HostUi)
    ensures
        ui.menu_opening <==> ui.tray_click() == TrayClick::Ignore,
        !ui.menu_opening && ui.menu_open ==> ui.tray_click() == TrayClick::CloseMenu,
        !ui.menu_opening && !ui.menu_open ==> ui.tray_click() == TrayClick::OpenMenu,
        ui.after_opening(true).tray_click() == TrayClick::CloseMenu,
        !ui.menu_opening ==> ui.closed().tray_click() == TrayClick::OpenMenu,
{
}

/// Opening a menu leaves nothing pressed, and it has not been active yet, so
/// becoming inactive before it was active does not close it. Failing to open it
/// changes nothing but that it is not being opened any more.
pub proof fn law_opened_menu_is_fresh(ui: HostUi, active: bool)
    ensures
        ({
            let o = ui.after_opening(true);
            let f = ui.after_opening(false);
            &&& o.menu_open && !o.menu_opening
            &&& o.pressed is None && o.sub_pressed is None
            &&& !o.closes_on_activate(active)
            &&& o.model == ui.model && o.ruled == ui.ruled && o.other == ui.other && o.scrolls
                == ui.scrolls && o.effective == ui.effective && o.hover == ui.hover
            &&& !f.menu_opening && f.menu_open == ui.menu_open && f.menu_ever_active
                == ui.menu_ever_active
            &&& f == (HostUi { menu_opening: f.menu_opening, ..ui })
        }),
        !ui.closes_on_activate(true),
        ui.menu_ever_active ==> ui.closes_on_activate(false),
        !ui.menu_ever_active ==> !ui.closes_on_activate(false),
{
}

/// After closing, no window is open and nothing is pointed at or pressed; the
/// rows, the lists and what is applied stay. Closing again changes nothing, and a
/// menu that is being opened is not closed.
pub proof fn law_closed_menu_is_gone(ui: HostUi)
    ensures
        ui.menu_opening ==> ui.closed() == ui,
        !ui.menu_opening ==> {
            let c = ui.closed();
            &&& !c.menu_open && !c.menu_ever_active
            &&& c.pressed is None && c.sub_pressed is None
            &&& ui.menu_open ==> !c.sub_open && !c.other_open && c.hover is None && c.sub_dev is None
                && c.sub_hover_row is None && c.other_sub_hover is None
                && c.other_sub_pressed is None
            &&& c.model == ui.model && c.ruled == ui.ruled && c.other == ui.other && c.scrolls
                == ui.scrolls && c.effective == ui.effective && c.sub_scroll == ui.sub_scroll
            &&& c.closed() == c
        },
{
}

/// The submenu stays while the pointer is inside it. Else it closes unless its
/// device is pointed at in the menu.
pub proof fn law_submenu_stays_while_wanted(ui: HostUi, inside: bool)
    ensures
        ui.sub_open ==> ui.sub_left(true) == SubLeft::Stay,
        ui.sub_left(inside) == SubLeft::Stay ==> inside && ui.sub_open,
        !inside && !ui.over_device() ==> ui.sub_left(inside) == SubLeft::CloseSub,
        !inside && ui.model.sub_hover is None ==> ui.sub_left(inside) == SubLeft::CloseSub,
        !inside && ui.over_device() && ui.model.sub_hover is Some ==> ui.sub_left(inside)
            == SubLeft::Redraw,
        forall|i: usize| #[trigger]
            (HostUi { hover: Some(Target::Device(i)), ..ui }).over_device(),
        !(HostUi { hover: None, ..ui }).over_device(),
{
}

/// Closing the submenu leaves nothing of it: no device, no values under its
/// sliders, no recording. The menu and its rows stay, and closing it again
/// changes nothing.
pub proof fn law_closed_submenu_is_gone(ui: HostUi)
    ensures
        ({
            let c = ui.without_sub();
            &&& !c.sub_open
            &&& ui.sub_open ==> c.sub_dev is None && c.sub_hover_row is None && c.sub_pressed is None
                && c.sub_scroll is None && c.model.sub_slider is None && c.model.sub_wheel is None
                && !c.model.capturing && !c.model.sub_pointer_inside
            &&& c.without_sub() == c
            &&& c.menu_open == ui.menu_open && c.other_open == ui.other_open && c.hover == ui.hover
                && c.pressed == ui.pressed
            &&& c.model.devs == ui.model.devs && c.model.speed_val == ui.model.speed_val
                && c.model.wheel_val == ui.model.wheel_val && c.model.sub_hover
                == ui.model.sub_hover
            &&& c.ruled == ui.ruled && c.other == ui.other && c.scrolls == ui.scrolls
        }),
{
}

/// A menu made ready shows what the system has set, with nothing dragged, pointed
/// at, recorded or focused; which windows are open stays.
pub proof fn law_ready_menu_starts_from_the_system(ui: HostUi, sys: SystemSpeed, autostart_on: bool)
    ensures
        ({
            let c = ui.cleared(sys, autostart_on);
            &&& c.model.speed_val == sys.speed && c.model.wheel_val == sys.wheel
            &&& c.model.pending_speed is None && c.model.pending_wheel is None
            &&& c.model.sub_slider is None && c.model.sub_wheel is None && c.sub_scroll is None
            &&& c.model.autostart_on == autostart_on
            &&& !c.model.capturing && c.model.kb_focus is None && c.hover is None
            &&& c.menu_open == ui.menu_open && c.sub_open == ui.sub_open && c.other_open
                == ui.other_open && c.menu_opening == ui.menu_opening
            &&& c.model.devs == ui.model.devs
        }),
{
}

/// Pointing at a row of the menu wants the submenu of the device in that row,
/// which has a rule; pointing at none keeps the submenu only while the pointer is
/// inside it. The entry for the other devices is not pointed at meanwhile.
pub proof fn law_pointing_wants_the_submenu(ui: HostUi, l: usize)
    requires
        ui.wf(),
        l < ui.ruled@.len(),
    ensures
        ({
            let p = ui.pointing_at_ruled(Some(l));
            let i = ui.ruled@[l as int];
            &&& p.model.sub_hover is Some
            &&& (p.model.sub_hover->0).0 == i
            &&& (p.model.sub_hover->0).1 == device_y(l as int)
            &&& i < ui.model.devs@.len()
            &&& ui.model.devs@[i as int].rule_speed is Some
            &&& !p.other_entry_hovered
        }),
        ui.model.sub_pointer_inside ==> ui.pointing_at_ruled(None).model.sub_hover
            == ui.model.sub_hover,
        !ui.model.sub_pointer_inside ==> ui.pointing_at_ruled(None).model.sub_hover is None,
        !ui.pointing_at_ruled(None).other_entry_hovered,
{
    let n = ui.model.devs@.len() as int;
    let i = ui.ruled@[l as int];
    assert(ui.model.devs.len() == n);
    assert(ui.ruled@.contains(i));
    law_every_device_is_in_one_list(ui.model.devs@, true, n, i);
    assert(ui.ruled.len() == ui.ruled@.len());
    assert(device_y(l as int) as Dip == device_y(l as int));
}

/// The device messages that lead to a scan are arrivals, removals and changes of
/// the list.
pub proof fn law_device_changes_are_scanned(event: u32)
    ensures
        is_device_change(event) <==> event == 0x8000 || event == 0x8004 || event == 7,
{
}

/// What is shown is what holds: every device with its rule and its scroll mode
/// settings, and the rule in force just while one is.
pub proof fn law_shown_is_what_holds(ui: HostUi, mice: Seq<Device>, m: StateModel, i: int)
    requires
        ui.shows(mice, m),
        m.wf(),
        0 <= i < mice.len(),
    ensures
        ui.effective is Some <==> m.effective() is Some,
        m.global_active() ==> ui.effective is None,
        ui.effective matches Some(e) ==> {
            let d = m.active[m.effective()->0].1;
            let r = rule_of(m.cfg.rules@, d)->0;
            &&& e.name@ == d.name@
            &&& e.speed == r.speed
            &&& e.wheel == r.wheel
            &&& e.scroll == r.scroll
            &&& named_rule(m) == Some((e.name@, e.speed))
        },
        ui.effective is None ==> named_rule(m) is None,
        ui.model.devs@[i].name@ == mice[i].name@,
        ui.model.devs@[i].rule_speed is Some <==> rule_of(m.cfg.rules@, mice[i]) is Some,
        ui.scrolls@[i] is Some ==> ui.model.devs@[i].rule_speed is Some,
        ui.scrolls@[i] == scroll_of(m, mice[i]),
        rule_of(m.cfg.rules@, mice[i]) matches Some(r) ==> ui.scrolls@[i] == r.scroll,
{
    lemma_effective(m);
    assert(is_row_of(ui.model.devs@[i], mice[i], m));
    law_row_shows_its_device(ui.model.devs@[i], mice[i], m);
}

/// The tool knows its own three menus by their classes, and takes no window of
/// another name for one of them.
pub proof fn law_own_menus_are_known(name: Seq<char>)
    ensures
        is_popup_class("MSS_Menu"@),
        is_popup_class("MSS_SubMenu"@),
        is_popup_class("MSS_OtherSubMenu"@),
        is_popup_class(name) ==> name.len() >= 8 && name[0] == 'M' && name[1] == 'S' && name[2]
            == 'S' && name[3] == '_',
        name != "MSS_Menu"@ && name != "MSS_SubMenu"@ && name != "MSS_OtherSubMenu"@
            ==> !is_popup_class(name),
{
    reveal_strlit("MSS_Menu");
    reveal_strlit("MSS_SubMenu");
    reveal_strlit("MSS_OtherSubMenu");
}

/// Bringing the rows up to date touches nothing else: what is applied, dragged,
/// pointed at, pressed and open stays.
pub proof fn law_new_rows_change_nothing_else(after: HostUi, before: HostUi)
    requires
        after.same_but_rows(before),
    ensures
        after.menu_open == before.menu_open && after.sub_open == before.sub_open
            && after.other_open == before.other_open && after.menu_opening == before.menu_opening,
        after.hover == before.hover && after.pressed == before.pressed && after.sub_dev
            == before.sub_dev && after.sub_scroll == before.sub_scroll,
        after.model.speed_val == before.model.speed_val && after.model.wheel_val
            == before.model.wheel_val,
        after.model.pending_speed == before.model.pending_speed && after.model.pending_wheel
            == before.model.pending_wheel,
        after.model.sub_hover == before.model.sub_hover && after.model.sub_slider
            == before.model.sub_slider && after.model.sub_wheel == before.model.sub_wheel,
        after.model.capturing == before.model.capturing && after.model.kb_focus
            == before.model.kb_focus && after.model.autostart_on == before.model.autostart_on,
{
}

} // verus!

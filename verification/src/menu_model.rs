//! The menu without its window: device rows, texts, layout in logical points,
//! and what moving, clicking and typing in it mean.
//!
//! A coordinate is a whole number of points. A pointer position between two
//! points counts as the point before it: every edge is at a whole point, so
//! this decides nothing.

use crate::devices::Device;
use crate::scroll::{clamp_int, TriggerBtn, SCROLL_PX_MAX};
use crate::speed::{clamp, valid_speed, valid_wheel, SPEED_MAX, SPEED_MIN, WHEEL_MAX, WHEEL_MIN};
use crate::state::{lemma_effective, rule_of, AppState, StateModel};
use crate::text::{clone_text, dec, law_decimal_numerals, push_dec, same_opt_text, view_opt};
use vstd::prelude::*;
use vstd::string::StringExecFns;

verus! {

/// A distance or position in logical points.
pub type Dip = i128;

pub const MENU_W: Dip = 320;

pub const SUB_W: Dip = 240;

pub const ROW_H: Dip = 26;

pub const SUB_ROW_H: Dip = 24;

/// Height of a slider row in the submenu.
pub const SUB_SLIDER_H: Dip = 30;

pub const SEP_H: Dip = 8;

pub const TITLE_H: Dip = 26;

pub const SLIDER_H: Dip = 28;

pub const INFO_ROW_H: Dip = 22;

pub const TOP_PAD: Dip = 4;

pub const BOTTOM_PAD: Dip = 6;

pub const PAD: Dip = 8;

/// Width of the column of check marks.
pub const CHECK_W: Dip = 18;

/// Width of the column of rule icons.
pub const RULE_ICON_W: Dip = 18;

/// Width of the button that resets to the defaults.
pub const RESET_BTN_W: Dip = 64;

/// Top of the information row of the submenu.
pub const SUB_INFO_TOP: Dip = 4;

/// Smallest scroll sensitivity that the menu offers.
pub const MENU_SCROLL_PX_MIN: u32 = 5;

/// One device in the menu.
#[derive(Debug)]
pub struct DevRow {
    pub name: String,
    pub vid: Option<String>,
    pub pid: Option<String>,
    /// The speed of the device's rule; `None` without a rule.
    pub rule_speed: Option<u32>,
    /// The wheel lines of the device's rule, if it has them.
    pub rule_wheel: Option<u32>,
    /// The device's rule is in force.
    pub is_effective: bool,
}

/// An id as shown: four dashes stand for a missing one.
pub open spec fn shown_id(id: Option<String>) -> Seq<char> {
    match id {
        Some(s) => s@,
        None => "----"@,
    }
}

/// An id as shown: four dashes stand for a missing one.
pub fn show_id(id: &Option<String>) -> (r: String)
    ensures
        r@ == shown_id(*id),
{
    match id {
        Some(s) => s.clone(),
        None => "----".to_owned(),
    }
}

impl Clone for DevRow {
    fn clone(&self) -> (r: Self)
        ensures
            r == *self,
    {
        DevRow {
            name: self.name.clone(),
            vid: clone_text(&self.vid),
            pid: clone_text(&self.pid),
            rule_speed: self.rule_speed,
            rule_wheel: self.rule_wheel,
            is_effective: self.is_effective,
        }
    }
}

impl DevRow {
    /// The device has both ids, so rules can be made for it.
    pub open spec fn has_ids(&self) -> bool {
        self.vid is Some && self.pid is Some
    }

    /// Which of the three actions of the submenu can be chosen.
    pub open spec fn offers(&self) -> (bool, bool, bool) {
        (self.has_ids(), self.has_ids() && self.rule_speed is Some, self.has_ids())
    }

    /// The text of the row.
    pub fn row_text(&self) -> (r: String)
        ensures
            r@ == self.name@ + "  ["@ + shown_id(self.vid) + ":"@ + shown_id(self.pid) + "]"@,
    {
        let mut s = self.name.clone();
        s.append("  [");
        s.append(show_id(&self.vid).as_str());
        s.append(":");
        s.append(show_id(&self.pid).as_str());
        s.append("]");
        s
    }

    /// Whether rules can be made for the device.
    pub fn can_rule(&self) -> (r: bool)
        ensures
            r == self.has_ids(),
    {
        self.vid.is_some() && self.pid.is_some()
    }

    /// The three actions of the submenu, each with whether it can be chosen.
    pub fn sub_actions(&self) -> (r: [(&'static str, bool); 3])
        ensures
            r@[0].0@ == "用当前速度保存规则"@ && r@[0].1 == self.offers().0,
            r@[1].0@ == "删除此设备规则"@ && r@[1].1 == self.offers().1,
            r@[2].0@ == "重新应用规则"@ && r@[2].1 == self.offers().2,
    {
        [
            ("用当前速度保存规则", self.can_rule()),
            ("删除此设备规则", self.can_rule() && self.rule_speed.is_some()),
            ("重新应用规则", self.can_rule()),
        ]
    }

    /// The information row of the submenu.
    pub fn sub_info(&self) -> (r: String)
        ensures
            r@ == "VID:"@ + shown_id(self.vid) + "  PID:"@ + shown_id(self.pid),
    {
        let mut s = "VID:".to_owned();
        s.append(show_id(&self.vid).as_str());
        s.append("  PID:");
        s.append(show_id(&self.pid).as_str());
        s
    }
}

/// The row is the one for device `d` in state `m`: its rule, and whether the
/// rule in force is that of a device with the same ids.
pub open spec fn is_row_of(row: DevRow, d: Device, m: StateModel) -> bool {
    let rule = rule_of(m.cfg.rules@, d);
    &&& row.name == d.name
    &&& row.vid == d.vid
    &&& row.pid == d.pid
    &&& row.rule_speed == (match rule {
        Some(r) => Some(r.speed),
        None => None,
    })
    &&& row.rule_wheel == (match rule {
        Some(r) => r.wheel,
        None => None,
    })
    &&& row.is_effective == (rule is Some && (m.effective() is Some && {
        let e = m.active[m.effective()->0].1;
        view_opt(e.vid) == view_opt(d.vid) && view_opt(e.pid) == view_opt(d.pid)
    }))
}

/// The rows for the devices found, in their order.
pub fn build_dev_rows(mice: &Vec<Device>, st: &AppState) -> (r: Vec<DevRow>)
    ensures
        r@.len() == mice@.len(),
        forall|i: int| 0 <= i < mice@.len() ==> is_row_of(#[trigger] r@[i], mice@[i], st@),
{
    let mut rows: Vec<DevRow> = Vec::new();
    for i in 0..mice.len()
        invariant
            rows@.len() == i,
            forall|j: int| 0 <= j < i ==> is_row_of(#[trigger] rows@[j], mice@[j], st@),
    {
        let dev = &mice[i];
        let (rule_speed, rule_wheel) = match st.rule_for(dev) {
            Some(r) => (Some(r.speed), r.wheel),
            None => (None, None),
        };
        let is_effective = rule_speed.is_some() && match st.effective_rule() {
            Some((e, _)) => same_opt_text(&e.vid, &dev.vid) && same_opt_text(&e.pid, &dev.pid),
            None => false,
        };
        rows.push(
            DevRow {
                name: dev.name.clone(),
                vid: clone_text(&dev.vid),
                pid: clone_text(&dev.pid),
                rule_speed,
                rule_wheel,
                is_effective,
            },
        );
    }
    rows
}

/// The name of the device whose rule is in force, and the speed of that rule.
pub fn effective_name(st: &AppState) -> (r: Option<(String, u32)>)
    ensures
        match st@.effective() {
            Some(i) => r is Some && (r->0).0 == st@.active[i].1.name && Some((r->0).1) == (
            match rule_of(st@.cfg.rules@, st@.active[i].1) {
                Some(x) => Some(x.speed),
                None => None,
            }),
            None => r is None,
        },
{
    match st.effective_rule() {
        Some((d, rule)) => Some((d.name.clone(), rule.speed)),
        None => None,
    }
}

/// The text of the tray icon's tool tip.
pub open spec fn tip(cur: u32, wheel: u32, rule: Option<(Seq<char>, u32)>) -> Seq<char> {
    let base = "鼠标灵敏度切换 - 指针: "@ + dec(cur as nat) + " · 滚轮: "@ + dec(wheel as nat);
    match rule {
        Some((name, sp)) => base + " · 生效规则: "@ + name + " (速度 "@ + dec(sp as nat) + ")"@,
        None => base,
    }
}

/// The text of the tray icon's tool tip.
pub fn tip_text(cur: u32, wheel: u32, rule: Option<(&str, u32)>) -> (r: String)
    ensures
        r@ == tip(
            cur,
            wheel,
            match rule {
                Some((name, sp)) => Some((name@, sp)),
                None => None,
            },
        ),
{
    let mut s = "鼠标灵敏度切换 - 指针: ".to_owned();
    push_dec(&mut s, cur);
    s.append(" · 滚轮: ");
    push_dec(&mut s, wheel);
    if let Some((name, sp)) = rule {
        s.append(" · 生效规则: ");
        s.append(name);
        s.append(" (速度 ");
        push_dec(&mut s, sp);
        s.append(")");
    }
    s
}

/// Top of the submenu's pointer speed label, below the information row.
pub open spec fn sub_ptr_label_y() -> int {
    SUB_INFO_TOP + SUB_ROW_H
}

/// Top of the submenu's pointer speed label, below the information row.
pub fn sub_ptr_label_top() -> (r: Dip)
    ensures
        r == sub_ptr_label_y(),
{
    SUB_INFO_TOP + SUB_ROW_H
}

/// Top of the submenu's pointer speed slider.
pub open spec fn sub_ptr_slider_y() -> int {
    sub_ptr_label_y() + SUB_ROW_H
}

/// Top of the submenu's pointer speed slider.
pub fn sub_ptr_slider_top() -> (r: Dip)
    ensures
        r == sub_ptr_slider_y(),
{
    sub_ptr_label_top() + SUB_ROW_H
}

/// Top of the submenu's wheel label.
pub open spec fn sub_wheel_label_y() -> int {
    sub_ptr_slider_y() + SUB_SLIDER_H
}

/// Top of the submenu's wheel label.
pub fn sub_wheel_label_top() -> (r: Dip)
    ensures
        r == sub_wheel_label_y(),
{
    sub_ptr_slider_top() + SUB_SLIDER_H
}

/// Top of the submenu's wheel slider.
pub open spec fn sub_wheel_slider_y() -> int {
    sub_wheel_label_y() + SUB_ROW_H
}

/// Top of the submenu's wheel slider.
pub fn sub_wheel_slider_top() -> (r: Dip)
    ensures
        r == sub_wheel_slider_y(),
{
    sub_wheel_label_top() + SUB_ROW_H
}

/// Top of the submenu's button that stores a rule.
pub open spec fn sub_btn_y() -> int {
    sub_wheel_slider_y() + SUB_SLIDER_H
}

/// Top of the submenu's button that stores a rule.
pub fn sub_btn_top() -> (r: Dip)
    ensures
        r == sub_btn_y(),
{
    sub_wheel_slider_top() + SUB_SLIDER_H
}

/// Top of the `i`-th action row of the submenu, below the button.
pub open spec fn sub_action_y(i: int) -> int {
    sub_btn_y() + SUB_ROW_H + i * SUB_ROW_H
}

/// Top of the `i`-th action row of the submenu, below the button.
pub fn sub_action_top(i: usize) -> (r: Dip)
    ensures
        r == sub_action_y(i as int),
{
    sub_btn_top() + SUB_ROW_H + i as i128 * SUB_ROW_H
}

/// Height of the submenu: three action rows and a margin of four points.
pub open spec fn sub_menu_h() -> int {
    sub_action_y(3) + 4
}

/// Height of the submenu: three action rows and a margin of four points.
pub fn sub_height() -> (r: Dip)
    ensures
        r == sub_menu_h(),
{
    sub_action_top(3) + 4
}

/// Left, top, right and bottom of the submenu's pointer speed slider.
pub fn sub_slider_rect() -> (r: (Dip, Dip, Dip, Dip))
    ensures
        r.0 == PAD && r.1 == sub_ptr_slider_y() && r.2 == SUB_W - PAD && r.3 == sub_ptr_slider_y()
            + SUB_SLIDER_H,
{
    (PAD, sub_ptr_slider_top(), SUB_W - PAD, sub_ptr_slider_top() + SUB_SLIDER_H)
}

/// Left, top, right and bottom of the submenu's wheel slider.
pub fn sub_wheel_rect() -> (r: (Dip, Dip, Dip, Dip))
    ensures
        r.0 == PAD && r.1 == sub_wheel_slider_y() && r.2 == SUB_W - PAD && r.3
            == sub_wheel_slider_y() + SUB_SLIDER_H,
{
    (PAD, sub_wheel_slider_top(), SUB_W - PAD, sub_wheel_slider_top() + SUB_SLIDER_H)
}

/// Left, top, right and bottom of the submenu's button: a whole row.
pub fn sub_btn_rect() -> (r: (Dip, Dip, Dip, Dip))
    ensures
        r.0 == PAD && r.1 == sub_btn_y() && r.2 == SUB_W - PAD && r.3 == sub_btn_y() + SUB_ROW_H,
{
    (PAD, sub_btn_top(), SUB_W - PAD, sub_btn_top() + SUB_ROW_H)
}

/// The action row of the submenu at height `y`, if there is one.
pub fn sub_row_at(y: Dip) -> (r: Option<usize>)
    ensures
        r is Some <==> sub_action_y(0) <= y < sub_action_y(3),
        r matches Some(i) ==> i < 3 && sub_action_y(i as int) <= y < sub_action_y(i + 1),
{
    let top: Dip = sub_action_top(0);
    if y < top {
        None
    } else if y < sub_action_top(1) {
        Some(0)
    } else if y < sub_action_top(2) {
        Some(1)
    } else if y < sub_action_top(3) {
        Some(2)
    } else {
        None
    }
}

/// Whether a position in the submenu is on its button.
pub fn sub_btn_at(x: Dip, y: Dip) -> (r: bool)
    ensures
        r == (PAD <= x < SUB_W - PAD && sub_btn_y() <= y < sub_btn_y() + SUB_ROW_H),
{
    let (left, top, right, bottom) = sub_btn_rect();
    x >= left && x < right && y >= top && y < bottom
}

/// Top of the wheel label, below the pointer speed's title and slider.
pub open spec fn wheel_label_y() -> int {
    TOP_PAD + TITLE_H + SLIDER_H
}

/// Top of the wheel label, below the pointer speed's title and slider.
pub fn wheel_label_top() -> (r: Dip)
    ensures
        r == wheel_label_y(),
{
    TOP_PAD + TITLE_H + SLIDER_H
}

/// Top of the wheel slider.
pub open spec fn wheel_slider_y() -> int {
    wheel_label_y() + TITLE_H
}

/// Top of the wheel slider.
pub fn wheel_slider_top() -> (r: Dip)
    ensures
        r == wheel_slider_y(),
{
    wheel_label_top() + TITLE_H
}

/// Top of the scroll mode row, below a separator.
pub open spec fn scroll_mode_y() -> int {
    wheel_slider_y() + SLIDER_H + SEP_H
}

/// Top of the scroll mode row, below a separator.
pub fn scroll_mode_top() -> (r: Dip)
    ensures
        r == scroll_mode_y(),
{
    wheel_slider_top() + SLIDER_H + SEP_H
}

/// Top of the trigger row.
pub open spec fn scroll_trigger_y() -> int {
    scroll_mode_y() + ROW_H
}

/// Top of the trigger row.
pub fn scroll_trigger_top() -> (r: Dip)
    ensures
        r == scroll_trigger_y(),
{
    scroll_mode_top() + ROW_H
}

/// Top of the sensitivity label.
pub open spec fn scroll_sens_label_y() -> int {
    scroll_trigger_y() + ROW_H
}

/// Top of the sensitivity label.
pub fn scroll_sens_label_top() -> (r: Dip)
    ensures
        r == scroll_sens_label_y(),
{
    scroll_trigger_top() + ROW_H
}

/// Top of the sensitivity slider.
pub open spec fn scroll_sens_slider_y() -> int {
    scroll_sens_label_y() + TITLE_H
}

/// Top of the sensitivity slider.
pub fn scroll_sens_slider_top() -> (r: Dip)
    ensures
        r == scroll_sens_slider_y(),
{
    scroll_sens_label_top() + TITLE_H
}

/// Top of the row that names the rule in force, below a separator.
pub open spec fn eff_row_y() -> int {
    scroll_sens_slider_y() + SLIDER_H + SEP_H
}

/// Top of the row that names the rule in force, below a separator.
pub fn eff_row_top() -> (r: Dip)
    ensures
        r == eff_row_y(),
{
    scroll_sens_slider_top() + SLIDER_H + SEP_H
}

/// Top of the `idx`-th device row, below a separator.
pub open spec fn device_row_y(idx: int) -> int {
    eff_row_y() + INFO_ROW_H + SEP_H + idx * ROW_H
}

/// Top of the row that switches starting with the system, below the devices
/// (one row stands for none) and a separator.
pub open spec fn autostart_row_y(n_devs: int) -> int {
    device_row_y(if n_devs < 1 { 1 } else { n_devs }) + SEP_H
}

/// Top of the exit row, below a separator.
pub open spec fn exit_row_y(n_devs: int) -> int {
    autostart_row_y(n_devs) + ROW_H + SEP_H
}

/// Height of the rows for the devices; a line of text stands for none.
pub open spec fn devices_h(n_devs: int) -> int {
    if n_devs == 0 {
        INFO_ROW_H as int
    } else {
        n_devs * ROW_H
    }
}

/// Height of the menu: two titled sliders, the scroll mode rows with their
/// slider, the rule in force, the devices, two command rows, the separators
/// between them, and the margins.
pub open spec fn menu_h(n_devs: int) -> int {
    TOP_PAD + 2 * (TITLE_H + SLIDER_H) + SEP_H + 2 * ROW_H + TITLE_H + SLIDER_H + SEP_H + INFO_ROW_H
        + SEP_H + devices_h(n_devs) + SEP_H + ROW_H + SEP_H + ROW_H + BOTTOM_PAD
}

/// Height of the menu with `n_devs` devices.
pub fn menu_height(n_devs: usize) -> (r: Dip)
    ensures
        r == menu_h(n_devs as int),
{
    let dev_rows: Dip = if n_devs == 0 { INFO_ROW_H } else { n_devs as i128 * ROW_H };
    TOP_PAD + TITLE_H + SLIDER_H + TITLE_H + SLIDER_H + SEP_H + ROW_H + ROW_H + TITLE_H + SLIDER_H
        + SEP_H + INFO_ROW_H + SEP_H + dev_rows + SEP_H + ROW_H + SEP_H + ROW_H + BOTTOM_PAD
}

/// Top of the `idx`-th device row.
pub fn device_row_top(idx: usize) -> (r: Dip)
    ensures
        r == device_row_y(idx as int),
{
    eff_row_top() + INFO_ROW_H + SEP_H + idx as i128 * ROW_H
}

/// Top of the row that switches starting with the system.
pub fn autostart_row_top(n_devs: usize) -> (r: Dip)
    ensures
        r == autostart_row_y(n_devs as int),
{
    device_row_top(if n_devs < 1 { 1 } else { n_devs }) + SEP_H
}

/// Top of the exit row.
pub fn exit_row_top(n_devs: usize) -> (r: Dip)
    ensures
        r == exit_row_y(n_devs as int),
{
    autostart_row_top(n_devs) + ROW_H + SEP_H
}

/// What is at some height in the menu.
#[derive(Debug, Clone, Copy, PartialEq, Eq, Structural)]
pub enum RowHit {
    /// The row of a device.
    Device(usize),
    /// The row that switches scroll mode.
    ScrollMode,
    /// The row that records the trigger.
    ScrollTrigger,
    Autostart,
    Exit,
    /// No command: titles, sliders, separators, margins.
    Other,
}

/// Height `y` is within the row that begins at `top`.
pub open spec fn in_row(y: int, top: int) -> bool {
    top <= y < top + ROW_H
}

/// The row at height `y` is `hit`.
pub open spec fn is_row_at(y: int, n_devs: int, hit: RowHit) -> bool {
    match hit {
        RowHit::Device(i) => i < n_devs && in_row(y, device_row_y(i as int)),
        RowHit::ScrollMode => in_row(y, scroll_mode_y()),
        RowHit::ScrollTrigger => in_row(y, scroll_trigger_y()),
        RowHit::Autostart => in_row(y, autostart_row_y(n_devs)),
        RowHit::Exit => in_row(y, exit_row_y(n_devs)),
        RowHit::Other => {
            &&& !(device_row_y(0) <= y < device_row_y(n_devs))
            &&& !in_row(y, scroll_mode_y())
            &&& !in_row(y, scroll_trigger_y())
            &&& !in_row(y, autostart_row_y(n_devs))
            &&& !in_row(y, exit_row_y(n_devs))
        },
    }
}

/// The row at height `y` of a menu with `n_devs` devices.
pub fn row_at(y: Dip, n_devs: usize) -> (r: RowHit)
    ensures
        is_row_at(y as int, n_devs as int, r),
{
    let top: Dip = device_row_top(0);
    if y >= top && y < device_row_top(n_devs) {
        let i: i128 = (y - top) / ROW_H;
        return RowHit::Device(i as usize);
    }
    let mode: Dip = scroll_mode_top();
    if y >= mode && y < mode + ROW_H {
        return RowHit::ScrollMode;
    }
    let trigger: Dip = scroll_trigger_top();
    if y >= trigger && y < trigger + ROW_H {
        return RowHit::ScrollTrigger;
    }
    let auto: Dip = autostart_row_top(n_devs);
    if y >= auto && y < auto + ROW_H {
        return RowHit::Autostart;
    }
    let exit: Dip = exit_row_top(n_devs);
    if y >= exit && y < exit + ROW_H {
        return RowHit::Exit;
    }
    RowHit::Other
}

/// Left, top, right and bottom of the reset button, at the right of the title.
pub fn reset_btn_rect() -> (r: (Dip, Dip, Dip, Dip))
    ensures
        r.0 == MENU_W - PAD - RESET_BTN_W && r.1 == TOP_PAD && r.2 == MENU_W - PAD && r.3 == TOP_PAD
            + TITLE_H,
{
    (MENU_W - PAD - RESET_BTN_W, TOP_PAD, MENU_W - PAD, TOP_PAD + TITLE_H)
}

/// The position is on the reset button.
pub open spec fn on_reset(x: int, y: int) -> bool {
    MENU_W - PAD - RESET_BTN_W <= x < MENU_W - PAD && TOP_PAD <= y < TOP_PAD + TITLE_H
}

/// What the pointer is over.
#[derive(Debug, Clone, Copy, PartialEq, Eq, Structural)]
pub enum Hover {
    Reset,
    Device(usize),
    ScrollMode,
    ScrollTrigger,
    Autostart,
    Exit,
}

/// The pointer at (`x`, `y`) is over `h`; `None` is no command.
pub open spec fn is_hover_at(x: int, y: int, n_devs: int, h: Option<Hover>) -> bool {
    if on_reset(x, y) {
        h == Some(Hover::Reset)
    } else {
        match h {
            Some(Hover::Reset) => false,
            Some(Hover::Device(i)) => is_row_at(y, n_devs, RowHit::Device(i)),
            Some(Hover::ScrollMode) => is_row_at(y, n_devs, RowHit::ScrollMode),
            Some(Hover::ScrollTrigger) => is_row_at(y, n_devs, RowHit::ScrollTrigger),
            Some(Hover::Autostart) => is_row_at(y, n_devs, RowHit::Autostart),
            Some(Hover::Exit) => is_row_at(y, n_devs, RowHit::Exit),
            None => is_row_at(y, n_devs, RowHit::Other),
        }
    }
}

/// What the pointer at (`x`, `y`) is over; `None` is no command.
pub fn hover_at(x: Dip, y: Dip, n_devs: usize) -> (r: Option<Hover>)
    ensures
        is_hover_at(x as int, y as int, n_devs as int, r),
{
    let (left, top, right, bottom) = reset_btn_rect();
    if x >= left && x < right && y >= top && y < bottom {
        return Some(Hover::Reset);
    }
    match row_at(y, n_devs) {
        RowHit::Device(i) => Some(Hover::Device(i)),
        RowHit::ScrollMode => Some(Hover::ScrollMode),
        RowHit::ScrollTrigger => Some(Hover::ScrollTrigger),
        RowHit::Autostart => Some(Hover::Autostart),
        RowHit::Exit => Some(Hover::Exit),
        RowHit::Other => None,
    }
}

/// A height is in one row at most: the row at a height is unique.
pub proof fn law_one_row_at_a_height(y: int, n_devs: int, a: RowHit, b: RowHit)
    requires
        n_devs >= 0,
        is_row_at(y, n_devs, a),
        is_row_at(y, n_devs, b),
    ensures
        a == b,
{
    if let RowHit::Device(i) = a {
        assert(in_row(y, device_row_y(i as int)));
    }
    if let RowHit::Device(i) = b {
        assert(in_row(y, device_row_y(i as int)));
    }
}

/// The row that a target stands for.
spec fn row_of_target(h: Option<Hover>) -> RowHit {
    match h {
        Some(Hover::Device(i)) => RowHit::Device(i),
        Some(Hover::ScrollMode) => RowHit::ScrollMode,
        Some(Hover::ScrollTrigger) => RowHit::ScrollTrigger,
        Some(Hover::Autostart) => RowHit::Autostart,
        Some(Hover::Exit) => RowHit::Exit,
        _ => RowHit::Other,
    }
}

/// The pointer is over one thing at most.
pub proof fn law_one_target_at_a_position(
    x: int,
    y: int,
    n_devs: int,
    a: Option<Hover>,
    b: Option<Hover>,
)
    requires
        n_devs >= 0,
        is_hover_at(x, y, n_devs, a),
        is_hover_at(x, y, n_devs, b),
    ensures
        a == b,
{
    if !on_reset(x, y) {
        law_one_row_at_a_height(y, n_devs, row_of_target(a), row_of_target(b));
    }
}

/// The rows follow each other from top to bottom without overlap, and the menu
/// ends below the last one, with devices by exactly its margin.
pub proof fn law_rows_are_in_order(n_devs: int, i: int)
    requires
        0 <= i < n_devs || (i == 0 && n_devs == 0),
    ensures
        TOP_PAD + TITLE_H + SLIDER_H <= wheel_label_y(),
        wheel_label_y() + TITLE_H <= wheel_slider_y(),
        wheel_slider_y() + SLIDER_H < scroll_mode_y(),
        scroll_mode_y() + ROW_H <= scroll_trigger_y(),
        scroll_trigger_y() + ROW_H <= scroll_sens_label_y(),
        scroll_sens_label_y() + TITLE_H <= scroll_sens_slider_y(),
        scroll_sens_slider_y() + SLIDER_H < eff_row_y(),
        eff_row_y() + INFO_ROW_H < device_row_y(0) <= device_row_y(i),
        device_row_y(i) + ROW_H == device_row_y(i + 1),
        device_row_y(i) + ROW_H < autostart_row_y(n_devs),
        autostart_row_y(n_devs) + ROW_H < exit_row_y(n_devs),
        exit_row_y(n_devs) + ROW_H < menu_h(n_devs),
        n_devs > 0 ==> menu_h(n_devs) == exit_row_y(n_devs) + ROW_H + BOTTOM_PAD,
{
}

/// Each further device makes the menu one row higher; the first replaces the
/// line that stands for none.
pub proof fn law_menu_grows_by_rows(n_devs: int)
    requires
        n_devs >= 0,
    ensures
        menu_h(n_devs + 1) == menu_h(n_devs) + (if n_devs == 0 {
            ROW_H - INFO_ROW_H
        } else {
            ROW_H as int
        }),
        menu_h(n_devs) < menu_h(n_devs + 1),
{
}

/// The parts of the submenu follow each other from top to bottom without
/// overlap, and fit into it.
pub proof fn law_submenu_is_in_order()
    ensures
        SUB_INFO_TOP < sub_ptr_label_y(),
        sub_ptr_label_y() + SUB_ROW_H <= sub_ptr_slider_y(),
        sub_ptr_slider_y() + SUB_SLIDER_H <= sub_wheel_label_y(),
        sub_wheel_label_y() + SUB_ROW_H <= sub_wheel_slider_y(),
        sub_wheel_slider_y() + SUB_SLIDER_H <= sub_btn_y(),
        sub_btn_y() + SUB_ROW_H <= sub_action_y(0),
        sub_action_y(0) + SUB_ROW_H <= sub_action_y(1),
        sub_action_y(1) + SUB_ROW_H <= sub_action_y(2),
        sub_action_y(2) + SUB_ROW_H < sub_menu_h(),
{
}

/// What the menu asks its host to do.
#[derive(Debug, Clone, Copy, PartialEq, Eq, Structural)]
pub enum MenuAction {
    SetSpeed(u32),
    /// Back to the defaults of a fresh system, pointer and wheel.
    ResetDefault,
    /// Store the submenu's slider values as the rule of a device.
    SetRuleWithSpeed(usize, u32, u32),
    ToggleAutostart,
    ToggleScrollMode,
    /// Record a trigger, or stop recording one.
    CaptureTrigger,
    SetScrollSens(u32),
    SetRule(usize),
    DelRule(usize),
    Reapply(usize),
    Exit,
}

/// The state of the menu.
#[derive(Debug)]
pub struct MenuModel {
    pub devs: Vec<DevRow>,
    /// The name and speed of the rule in force.
    pub effective: Option<(String, u32)>,
    pub autostart_on: bool,
    /// The pointer speed that is applied.
    pub speed_val: u32,
    /// The pointer speed under the slider while it is dragged.
    pub pending_speed: Option<u32>,
    /// The wheel lines that are applied.
    pub wheel_val: u32,
    /// The wheel lines under the slider while it is dragged.
    pub pending_wheel: Option<u32>,
    pub scroll_on: bool,
    pub scroll_trigger: TriggerBtn,
    /// The sensitivity that is applied.
    pub scroll_px: u32,
    /// The sensitivity under the slider while it is dragged.
    pub pending_scroll_px: Option<u32>,
    /// A trigger is being recorded.
    pub capturing: bool,
    /// The device whose submenu is open, and the top of its row.
    pub sub_hover: Option<(usize, Dip)>,
    /// The pointer speed under the submenu's slider.
    pub sub_slider: Option<u32>,
    /// The wheel lines under the submenu's slider.
    pub sub_wheel: Option<u32>,
    /// The pointer is inside the submenu.
    pub sub_pointer_inside: bool,
    /// The row with the keyboard focus: scroll mode, trigger, the devices,
    /// autostart, exit.
    pub kb_focus: Option<usize>,
}

fn clamp_signed(v: i32, lo: u32, hi: u32) -> (r: u32)
    requires
        lo <= hi <= i32::MAX,
    ensures
        r == clamp_int(v as int, lo as int, hi as int),
{
    if v < lo as i32 {
        lo
    } else if v > hi as i32 {
        hi
    } else {
        v as u32
    }
}

/// The pointer speed under a slider dragged to `v`.
pub open spec fn dragged_speed(v: int) -> u32 {
    clamp_int(v, SPEED_MIN as int, SPEED_MAX as int) as u32
}

/// The wheel lines under a slider dragged to `v`.
pub open spec fn dragged_wheel(v: int) -> u32 {
    clamp_int(v, WHEEL_MIN as int, WHEEL_MAX as int) as u32
}

/// The sensitivity under a slider dragged to `v`.
pub open spec fn dragged_px(v: int) -> u32 {
    clamp_int(v, MENU_SCROLL_PX_MIN as int, SCROLL_PX_MAX as int) as u32
}

/// The device whose submenu is open.
pub open spec fn sub_device(sub: Option<(usize, Dip)>) -> Option<usize> {
    match sub {
        Some((i, _)) => Some(i),
        None => None,
    }
}

/// The device whose submenu is open after the pointer moved.
pub open spec fn sub_device_after(
    hovered: Option<usize>,
    inside: bool,
    before: Option<usize>,
) -> Option<usize> {
    match hovered {
        Some(i) => Some(i),
        None => if inside {
            before
        } else {
            None
        },
    }
}

/// The value once a slider is let go: the one under it, if it was dragged.
pub open spec fn committed(applied: u32, pending: Option<u32>) -> u32 {
    match pending {
        Some(v) => v,
        None => applied,
    }
}

/// The value to apply when a slider is let go: the one under it, where it
/// differs from the one applied.
pub open spec fn to_apply(applied: u32, pending: Option<u32>) -> Option<u32> {
    match pending {
        Some(v) => if v != applied {
            Some(v)
        } else {
            None
        },
        None => None,
    }
}

/// Dragging a slider to `v` and letting it go ends at `v`, within the range,
/// and applies it just once and only where that is a change; letting go without
/// dragging applies nothing.
pub proof fn law_dragging_applies_on_release(applied: u32, v: int, lo: u32, hi: u32)
    requires
        lo <= hi,
    ensures
        ({
            let shown = clamp_int(v, lo as int, hi as int) as u32;
            let after = committed(applied, Some(shown));
            &&& after == shown
            &&& to_apply(applied, Some(shown)) is Some <==> shown != applied
            &&& to_apply(applied, Some(shown)) matches Some(w) ==> w == shown
            &&& to_apply(after, None) is None
            &&& committed(after, None) == after
        }),
{
}

/// The row after `focus` among `n` rows, from the last back to the first.
pub open spec fn focus_after(focus: Option<usize>, n: int) -> int {
    match focus {
        Some(i) => (i + 1) % n,
        None => 0,
    }
}

/// The row before `focus` among `n` rows, from the first back to the last.
pub open spec fn focus_before(focus: Option<usize>, n: int) -> int {
    match focus {
        Some(i) => if i == 0 {
            n - 1
        } else {
            i - 1
        },
        None => n - 1,
    }
}

/// Moving the focus on and back, or back and on, leaves it where it was, and
/// it never leaves the rows.
pub proof fn law_focus_moves_undo_each_other(i: usize, n: int)
    requires
        i < n <= usize::MAX,
    ensures
        0 <= focus_after(Some(i), n) < n,
        0 <= focus_before(Some(i), n) < n,
        focus_before(Some(focus_after(Some(i), n) as usize), n) == i,
        focus_after(Some(focus_before(Some(i), n) as usize), n) == i,
{
    if i + 1 < n {
        vstd::arithmetic::div_mod::lemma_small_mod((i + 1) as nat, n as nat);
    } else {
        vstd::arithmetic::div_mod::lemma_mod_self_0(n);
    }
    vstd::arithmetic::div_mod::lemma_small_mod(i as nat, n as nat);
    vstd::arithmetic::div_mod::lemma_mod_self_0(n);
}

impl MenuModel {
    /// The rows that can have the keyboard focus.
    pub open spec fn focus_rows(&self) -> int {
        (self.devs@.len() + 4) as int
    }

    /// A menu without devices, with nothing dragged, open or recorded.
    pub fn new(
        speed_val: u32,
        wheel_val: u32,
        autostart_on: bool,
        scroll_on: bool,
        scroll_trigger: TriggerBtn,
        scroll_px: u32,
    ) -> (r: MenuModel)
        ensures
            r.devs@.len() == 0,
            r == (MenuModel {
                devs: r.devs,
                effective: None,
                autostart_on,
                speed_val: valid_speed(speed_val),
                pending_speed: None,
                wheel_val: valid_wheel(wheel_val),
                pending_wheel: None,
                scroll_on,
                scroll_trigger,
                scroll_px: clamp_int(
                    scroll_px as int,
                    MENU_SCROLL_PX_MIN as int,
                    SCROLL_PX_MAX as int,
                ) as u32,
                pending_scroll_px: None,
                capturing: false,
                sub_hover: None,
                sub_slider: None,
                sub_wheel: None,
                sub_pointer_inside: false,
                kb_focus: None,
            }),
    {
        MenuModel {
            devs: Vec::new(),
            effective: None,
            autostart_on,
            speed_val: clamp(speed_val, SPEED_MIN, SPEED_MAX),
            pending_speed: None,
            wheel_val: clamp(wheel_val, WHEEL_MIN, WHEEL_MAX),
            pending_wheel: None,
            scroll_on,
            scroll_trigger,
            scroll_px: clamp(scroll_px, MENU_SCROLL_PX_MIN, SCROLL_PX_MAX),
            pending_scroll_px: None,
            capturing: false,
            sub_hover: None,
            sub_slider: None,
            sub_wheel: None,
            sub_pointer_inside: false,
            kb_focus: None,
        }
    }

    /// The pointer speed to show: the one under the slider while it is dragged.
    pub fn display_speed(&self) -> (r: u32)
        ensures
            r == committed(self.speed_val, self.pending_speed),
    {
        match self.pending_speed {
            Some(v) => v,
            None => self.speed_val,
        }
    }

    /// The slider was dragged to `v`; what is applied does not change.
    pub fn preview_speed(&mut self, v: i32)
        ensures
            *final(self) == (MenuModel {
                pending_speed: Some(dragged_speed(v as int)),
                ..*old(self)
            }),
    {
        self.pending_speed = Some(clamp_signed(v, SPEED_MIN, SPEED_MAX));
    }

    /// The slider was let go: the value under it becomes the one applied, and is
    /// returned when it differs from it.
    pub fn commit_speed(&mut self) -> (r: Option<u32>)
        ensures
            r == to_apply(old(self).speed_val, old(self).pending_speed),
            *final(self) == (MenuModel {
                pending_speed: None,
                speed_val: committed(old(self).speed_val, old(self).pending_speed),
                ..*old(self)
            }),
    {
        match self.pending_speed.take() {
            Some(v) => if v != self.speed_val {
                self.speed_val = v;
                Some(v)
            } else {
                None
            },
            None => None,
        }
    }

    /// The number of wheel lines to show: the one under the slider while it is dragged.
    pub fn display_wheel(&self) -> (r: u32)
        ensures
            r == committed(self.wheel_val, self.pending_wheel),
    {
        match self.pending_wheel {
            Some(v) => v,
            None => self.wheel_val,
        }
    }

    /// The slider was dragged to `v`; what is applied does not change.
    pub fn preview_wheel(&mut self, v: i32)
        ensures
            *final(self) == (MenuModel {
                pending_wheel: Some(dragged_wheel(v as int)),
                ..*old(self)
            }),
    {
        self.pending_wheel = Some(clamp_signed(v, WHEEL_MIN, WHEEL_MAX));
    }

    /// The slider was let go: the value under it becomes the one applied, and is
    /// returned when it differs from it.
    pub fn commit_wheel(&mut self) -> (r: Option<u32>)
        ensures
            r == to_apply(old(self).wheel_val, old(self).pending_wheel),
            *final(self) == (MenuModel {
                pending_wheel: None,
                wheel_val: committed(old(self).wheel_val, old(self).pending_wheel),
                ..*old(self)
            }),
    {
        match self.pending_wheel.take() {
            Some(v) => if v != self.wheel_val {
                self.wheel_val = v;
                Some(v)
            } else {
                None
            },
            None => None,
        }
    }

    /// The sensitivity to show: the one under the slider while it is dragged.
    pub fn display_scroll_px(&self) -> (r: u32)
        ensures
            r == committed(self.scroll_px, self.pending_scroll_px),
    {
        match self.pending_scroll_px {
            Some(v) => v,
            None => self.scroll_px,
        }
    }

    /// The slider was dragged to `v`; what is applied does not change.
    pub fn preview_scroll_px(&mut self, v: i32)
        ensures
            *final(self) == (MenuModel {
                pending_scroll_px: Some(dragged_px(v as int)),
                ..*old(self)
            }),
    {
        self.pending_scroll_px = Some(clamp_signed(v, MENU_SCROLL_PX_MIN, SCROLL_PX_MAX));
    }

    /// The slider was let go: the value under it becomes the one applied, and is
    /// returned when it differs from it.
    pub fn commit_scroll_px(&mut self) -> (r: Option<u32>)
        ensures
            r == to_apply(old(self).scroll_px, old(self).pending_scroll_px),
            *final(self) == (MenuModel {
                pending_scroll_px: None,
                scroll_px: committed(old(self).scroll_px, old(self).pending_scroll_px),
                ..*old(self)
            }),
    {
        match self.pending_scroll_px.take() {
            Some(v) => if v != self.scroll_px {
                self.scroll_px = v;
                Some(v)
            } else {
                None
            },
            None => None,
        }
    }

    /// The submenu's pointer speed slider was dragged to `v`.
    pub fn preview_sub_slider(&mut self, v: i32)
        ensures
            *final(self) == (MenuModel {
                sub_slider: Some(dragged_speed(v as int)),
                ..*old(self)
            }),
    {
        self.sub_slider = Some(clamp_signed(v, SPEED_MIN, SPEED_MAX));
    }

    /// The submenu's wheel slider was dragged to `v`.
    pub fn preview_sub_wheel(&mut self, v: i32)
        ensures
            *final(self) == (MenuModel {
                sub_wheel: Some(dragged_wheel(v as int)),
                ..*old(self)
            }),
    {
        self.sub_wheel = Some(clamp_signed(v, WHEEL_MIN, WHEEL_MAX));
    }

    /// The pointer moved. Over a device row its submenu opens; inside the open
    /// submenu it stays open; elsewhere it closes.
    pub fn update_hover(&mut self, hovered_dev: Option<usize>)
        ensures
            match hovered_dev {
                Some(i) => final(self).sub_hover matches Some((j, top)) && j == i && top
                    == device_row_y(i as int),
                None => final(self).sub_hover == (if old(self).sub_pointer_inside {
                    old(self).sub_hover
                } else {
                    None
                }),
            },
            sub_device(final(self).sub_hover) == sub_device_after(
                hovered_dev,
                old(self).sub_pointer_inside,
                sub_device(old(self).sub_hover),
            ),
            *final(self) == (MenuModel { sub_hover: final(self).sub_hover, ..*old(self) }),
    {
        self.sub_hover = match hovered_dev {
            Some(i) => Some((i, device_row_top(i))),
            None => if self.sub_pointer_inside {
                self.sub_hover
            } else {
                None
            },
        };
    }

    /// What clicking at (`x`, `y`) asks for. A device row asks for nothing: it
    /// only opens its submenu.
    pub fn click_at(&self, x: Dip, y: Dip) -> (r: Vec<MenuAction>)
        ensures
            forall|h: Option<Hover>| #[trigger]
                is_hover_at(x as int, y as int, self.devs@.len() as int, h) ==> r@ == click_actions(
                    h,
                ),
    {
        let h = hover_at(x, y, self.devs.len());
        let mut out: Vec<MenuAction> = Vec::new();
        match h {
            Some(Hover::Reset) => {
                out.push(MenuAction::ResetDefault);
            },
            Some(Hover::ScrollMode) => {
                out.push(MenuAction::ToggleScrollMode);
            },
            Some(Hover::ScrollTrigger) => {
                out.push(MenuAction::CaptureTrigger);
            },
            Some(Hover::Autostart) => {
                out.push(MenuAction::ToggleAutostart);
            },
            Some(Hover::Exit) => {
                out.push(MenuAction::Exit);
            },
            _ => {},
        }
        proof {
            assert(out@ =~= click_actions(h));
            assert forall|g: Option<Hover>| #[trigger]
                is_hover_at(x as int, y as int, self.devs@.len() as int, g) implies out@
                == click_actions(g) by {
                law_one_target_at_a_position(x as int, y as int, self.devs@.len() as int, g, h);
            }
        }
        out
    }

    /// Moves the keyboard focus to the next row.
    pub fn kb_focus_next(&mut self)
        requires
            old(self).focus_rows() <= usize::MAX,
            old(self).kb_focus matches Some(i) ==> i < usize::MAX,
        ensures
            *final(self) == (MenuModel {
                kb_focus: Some(focus_after(old(self).kb_focus, old(self).focus_rows()) as usize),
                ..*old(self)
            }),
    {
        let n: usize = self.devs.len() + 4;
        self.kb_focus = Some(
            match self.kb_focus {
                Some(i) => (i + 1) % n,
                None => 0,
            },
        );
    }

    /// Moves the keyboard focus to the row before.
    pub fn kb_focus_prev(&mut self)
        requires
            old(self).focus_rows() <= usize::MAX,
        ensures
            *final(self) == (MenuModel {
                kb_focus: Some(focus_before(old(self).kb_focus, old(self).focus_rows()) as usize),
                ..*old(self)
            }),
    {
        let n: usize = self.devs.len() + 4;
        self.kb_focus = Some(
            match self.kb_focus {
                Some(i) => if i == 0 {
                    n - 1
                } else {
                    i - 1
                },
                None => n - 1,
            },
        );
    }

    /// What the row with the keyboard focus asks for when it is activated; a
    /// device row asks for nothing, and without a focus it is the exit.
    pub fn kb_activate(&self) -> (r: Vec<MenuAction>)
        ensures
            r@ == focus_actions(self.kb_focus, self.devs@.len() as int),
    {
        let n: usize = self.devs.len();
        let mut out: Vec<MenuAction> = Vec::new();
        match self.kb_focus {
            Some(i) => if i == 0 {
                out.push(MenuAction::ToggleScrollMode);
            } else if i == 1 {
                out.push(MenuAction::CaptureTrigger);
            } else if i - 2 < n {
            } else if i - 2 == n {
                out.push(MenuAction::ToggleAutostart);
            } else {
                out.push(MenuAction::Exit);
            },
            None => {
                out.push(MenuAction::Exit);
            },
        }
        assert(out@ =~= focus_actions(self.kb_focus, n as int));
        out
    }
}

/// What clicking on something asks for.
pub open spec fn click_actions(h: Option<Hover>) -> Seq<MenuAction> {
    match h {
        Some(Hover::Reset) => seq![MenuAction::ResetDefault],
        Some(Hover::ScrollMode) => seq![MenuAction::ToggleScrollMode],
        Some(Hover::ScrollTrigger) => seq![MenuAction::CaptureTrigger],
        Some(Hover::Autostart) => seq![MenuAction::ToggleAutostart],
        Some(Hover::Exit) => seq![MenuAction::Exit],
        Some(Hover::Device(_)) => seq![],
        None => seq![],
    }
}

/// What activating the row with the focus asks for, with `n` devices.
pub open spec fn focus_actions(focus: Option<usize>, n: int) -> Seq<MenuAction> {
    match focus {
        Some(i) => if i == 0 {
            seq![MenuAction::ToggleScrollMode]
        } else if i == 1 {
            seq![MenuAction::CaptureTrigger]
        } else if i < 2 + n {
            seq![]
        } else if i == 2 + n {
            seq![MenuAction::ToggleAutostart]
        } else {
            seq![MenuAction::Exit]
        },
        None => seq![MenuAction::Exit],
    }
}

/// The row of a device shows the rule of that device, speed and wheel. A row
/// without a rule is never shown as in force, nor is any while the global
/// settings are; the row of the device switched to is.
pub proof fn law_row_shows_its_device(row: DevRow, d: Device, m: StateModel)
    requires
        is_row_of(row, d, m),
        m.wf(),
    ensures
        row.name@ == d.name@,
        view_opt(row.vid) == view_opt(d.vid),
        view_opt(row.pid) == view_opt(d.pid),
        row.rule_speed is Some <==> rule_of(m.cfg.rules@, d) is Some,
        row.rule_speed matches Some(v) ==> v == rule_of(m.cfg.rules@, d)->0.speed,
        row.rule_wheel matches Some(v) ==> row.rule_speed is Some && rule_of(
            m.cfg.rules@,
            d,
        )->0.wheel == Some(v),
        row.rule_speed is Some && row.rule_wheel is None ==> rule_of(
            m.cfg.rules@,
            d,
        )->0.wheel is None,
        row.is_effective ==> row.rule_speed is Some && !m.global_active(),
        m.effective() matches Some(k) ==> (m.active[k].1 == d ==> row.is_effective),
        row.rule_speed is Some ==> row.has_ids(),
{
    lemma_effective(m);
}

/// A device without both ids is offered nothing; one with both can have its rule
/// stored and applied, and deleted just where it has one.
pub proof fn law_submenu_offers_what_can_be_done(row: DevRow)
    ensures
        row.vid is None || row.pid is None ==> row.offers() == (false, false, false),
        row.vid is Some && row.pid is Some ==> row.offers().0 && row.offers().2 && (row.offers().1
            <==> row.rule_speed is Some),
        shown_id(None).len() == 4,
        row.vid is Some ==> shown_id(row.vid) == (row.vid->0)@,
{
    reveal_strlit("----");
}

/// The tool tip shows the pointer speed first, then the wheel lines, and behind
/// them the rule in force, if there is one, with its name before its speed; other
/// values make another tip.
pub proof fn law_tip_shows_the_values(
    cur: u32,
    wheel: u32,
    name: Seq<char>,
    sp: u32,
    other: u32,
)
    ensures
        ({
            let plain = tip(cur, wheel, None);
            let ruled = tip(cur, wheel, Some((name, sp)));
            let front = "鼠标灵敏度切换 - 指针: "@ + dec(cur as nat);
            &&& plain.len() >= front.len() + dec(wheel as nat).len()
            &&& plain.take(front.len() as int) == front
            &&& plain.skip(plain.len() - dec(wheel as nat).len()) == dec(wheel as nat)
            &&& ruled.len() > plain.len() + name.len()
            &&& ruled.take(plain.len() as int) == plain
            &&& ruled == tip(cur, wheel, Some((name, other))) ==> sp == other
            &&& plain == tip(other, wheel, None) ==> cur == other
            &&& plain == tip(cur, other, None) ==> wheel == other
        }),
{
    let head = "鼠标灵敏度切换 - 指针: "@;
    let mid = " · 滚轮: "@;
    let lead = " · 生效规则: "@;
    let open = " (速度 "@;
    let end = ")"@;
    reveal_strlit(")");
    let c = dec(cur as nat);
    let w = dec(wheel as nat);
    let plain = tip(cur, wheel, None);
    let ruled = tip(cur, wheel, Some((name, sp)));
    let front = head + c;
    assert(plain.take(front.len() as int) =~= front);
    assert(plain.skip(plain.len() - w.len()) =~= w);
    assert(ruled.take(plain.len() as int) =~= plain);
    let ruled2 = tip(cur, wheel, Some((name, other)));
    if ruled == ruled2 {
        let at = plain.len() + lead.len() + name.len() + open.len();
        assert(ruled.subrange(at as int, ruled.len() - 1) =~= dec(sp as nat));
        assert(ruled2.subrange(at as int, ruled2.len() - 1) =~= dec(other as nat));
        law_decimal_numerals(sp as nat, other as nat);
    }
    let o = dec(other as nat);
    if plain == tip(other, wheel, None) {
        let t = tip(other, wheel, None);
        assert(plain.subrange(head.len() as int, head.len() as int + c.len()) =~= c);
        assert(t.subrange(head.len() as int, head.len() as int + o.len()) =~= o);
        assert(plain.len() == t.len());
        assert(c.len() == o.len());
        law_decimal_numerals(cur as nat, other as nat);
    }
    if plain == tip(cur, other, None) {
        let t = tip(cur, other, None);
        let at = (front.len() + mid.len()) as int;
        assert(plain.skip(at) =~= w);
        assert(t.skip(at) =~= o);
        law_decimal_numerals(wheel as nat, other as nat);
    }
}

/// Every row reaches from its top to the top of what follows it, and every height
/// is in some row or beside all of them.
pub proof fn law_rows_reach_to_the_next(y: int, n: int, i: usize)
    requires
        n >= 0,
    ensures
        is_row_at(y, n, RowHit::ScrollMode) <==> scroll_mode_y() <= y < scroll_trigger_y(),
        is_row_at(y, n, RowHit::ScrollTrigger) <==> scroll_trigger_y() <= y
            < scroll_sens_label_y(),
        is_row_at(y, n, RowHit::Device(i)) <==> i < n && device_row_y(i as int) <= y
            < device_row_y(i + 1),
        is_row_at(y, n, RowHit::Autostart) <==> autostart_row_y(n) <= y < exit_row_y(n) - SEP_H,
        n > 0 ==> (is_row_at(y, n, RowHit::Exit) <==> exit_row_y(n) <= y < menu_h(n) - BOTTOM_PAD),
        y < scroll_mode_y() || y >= menu_h(n) ==> is_row_at(y, n, RowHit::Other),
        scroll_sens_label_y() <= y < device_row_y(0) ==> is_row_at(y, n, RowHit::Other),
{
}

/// The submenu holds an information row, two labels with their sliders, the
/// button and three actions, and nothing between them.
pub proof fn law_submenu_parts_add_up()
    ensures
        sub_ptr_label_y() == SUB_INFO_TOP + SUB_ROW_H,
        sub_wheel_label_y() - sub_ptr_label_y() == SUB_ROW_H + SUB_SLIDER_H,
        sub_btn_y() - sub_wheel_label_y() == SUB_ROW_H + SUB_SLIDER_H,
        sub_action_y(3) - sub_btn_y() == 4 * SUB_ROW_H,
        sub_menu_h() == SUB_INFO_TOP + 7 * SUB_ROW_H + 2 * SUB_SLIDER_H + 4,
{
}

/// The reset button ends where the margin at the right begins, is as high as the
/// title, and lies beside every row.
pub proof fn law_reset_lies_in_the_title(x: int, y: int, n: int, h: Option<Hover>)
    requires
        n >= 0,
    ensures
        on_reset(x, y) ==> is_row_at(y, n, RowHit::Other),
        on_reset(x, y) ==> 0 <= x < MENU_W - PAD && 0 <= y,
        on_reset(MENU_W - PAD - 1, TOP_PAD as int),
        on_reset(MENU_W - PAD - RESET_BTN_W, TOP_PAD + TITLE_H - 1),
        !on_reset(MENU_W - PAD, y),
        !on_reset(x, TOP_PAD + TITLE_H),
        is_hover_at(x, y, n, h) ==> (h == Some(Hover::Reset) <==> on_reset(x, y)),
{
}

/// What the pointer is over is the row at its height, whatever its distance from
/// the left edge, but for the reset button.
pub proof fn law_pointer_is_over_the_row(x: int, y: int, n: int, i: usize)
    requires
        n >= 0,
        !on_reset(x, y),
    ensures
        is_hover_at(x, y, n, Some(Hover::Device(i))) <==> is_row_at(y, n, RowHit::Device(i)),
        is_hover_at(x, y, n, Some(Hover::ScrollMode)) <==> is_row_at(y, n, RowHit::ScrollMode),
        is_hover_at(x, y, n, Some(Hover::ScrollTrigger)) <==> is_row_at(
            y,
            n,
            RowHit::ScrollTrigger,
        ),
        is_hover_at(x, y, n, Some(Hover::Autostart)) <==> is_row_at(y, n, RowHit::Autostart),
        is_hover_at(x, y, n, Some(Hover::Exit)) <==> is_row_at(y, n, RowHit::Exit),
        is_hover_at(x, y, n, None) <==> is_row_at(y, n, RowHit::Other),
{
}

/// What has the keyboard focus, as the pointer would name it: the rows in their
/// order from top to bottom.
pub open spec fn focused_target(i: usize, n: int) -> Hover {
    if i == 0 {
        Hover::ScrollMode
    } else if i == 1 {
        Hover::ScrollTrigger
    } else if i < n + 2 {
        Hover::Device((i - 2) as usize)
    } else if i == n + 2 {
        Hover::Autostart
    } else {
        Hover::Exit
    }
}

/// Activating a row with the keyboard asks for what clicking it asks for, and the
/// focus goes through the rows from top to bottom.
pub proof fn law_keyboard_does_what_clicking_does(i: usize, n: int, x: int, y: int)
    requires
        0 <= n,
        i < n + 4,
        is_hover_at(x, y, n, Some(focused_target(i, n))),
    ensures
        focus_actions(Some(i), n) == click_actions(Some(focused_target(i, n))),
        i + 1 < n + 4 ==> focus_after(Some(i), n + 4) == i + 1,
        i > 0 ==> focus_before(Some(i), n + 4) == i - 1,
{
    if i + 1 < n + 4 {
        vstd::arithmetic::div_mod::lemma_small_mod((i + 1) as nat, (n + 4) as nat);
    }
}

/// Each row asks for one thing, which no other row asks for; a device row and
/// what is no command ask for nothing. Without a focus the keyboard begins at the
/// ends of the list, and activating asks for the exit.
pub proof fn law_each_row_asks_for_its_own(i: usize, n: int)
    requires
        n > 0,
    ensures
        click_actions(Some(Hover::Reset)) == seq![MenuAction::ResetDefault],
        click_actions(Some(Hover::ScrollMode)) == seq![MenuAction::ToggleScrollMode],
        click_actions(Some(Hover::ScrollTrigger)) == seq![MenuAction::CaptureTrigger],
        click_actions(Some(Hover::Autostart)) == seq![MenuAction::ToggleAutostart],
        click_actions(Some(Hover::Exit)) == seq![MenuAction::Exit],
        click_actions(Some(Hover::Device(i))).len() == 0,
        click_actions(None).len() == 0,
        focus_actions(None, n) == seq![MenuAction::Exit],
        focus_after(None, n) == 0,
        focus_before(None, n) == n - 1,
        focus_before(Some(0), n) == n - 1,
        i == n - 1 ==> focus_after(Some(i), n) == 0,
{
    vstd::arithmetic::div_mod::lemma_mod_self_0(n);
}

/// A slider stops at the ends of its range, and in between it is where it was
/// dragged to.
pub proof fn law_sliders_stop_at_their_ends(v: int)
    ensures
        1 <= dragged_speed(v) <= 20,
        1 <= dragged_wheel(v) <= 100,
        5 <= dragged_px(v) <= 200,
        1 <= v <= 20 ==> dragged_speed(v) == v,
        1 <= v <= 100 ==> dragged_wheel(v) == v,
        5 <= v <= 200 ==> dragged_px(v) == v,
        v <= 1 ==> dragged_speed(v) == 1 && dragged_wheel(v) == 1 && dragged_px(v) == 5,
        v >= 200 ==> dragged_speed(v) == 20 && dragged_wheel(v) == 100 && dragged_px(v) == 200,
{
}

/// Pointing at a device opens its submenu, whichever was open; pointing elsewhere
/// closes it, unless the pointer is inside it.
pub proof fn law_submenu_follows_the_pointer(i: usize, inside: bool, before: Option<usize>)
    ensures
        sub_device_after(Some(i), inside, before) == Some(i),
        sub_device_after(None, true, before) == before,
        sub_device_after(None, false, before) is None,
{
}

} // verus!

//! Where everything is in the native menu, its device submenu and its list of
//! other devices, in logical points.

use crate::menu_model::{
    on_reset, sub_wheel_slider_top, sub_wheel_slider_y, wheel_slider_top, wheel_slider_y, Dip,
    BOTTOM_PAD, INFO_ROW_H, MENU_W, PAD, RESET_BTN_W, ROW_H, SEP_H, SLIDER_H, SUB_ROW_H,
    SUB_SLIDER_H, SUB_W, TITLE_H, TOP_PAD,
};
use vstd::prelude::*;

verus! {

/// Height of the three lines about the rule in force.
pub const EFF_INFO_H: Dip = 66;

/// Width of the list of other devices.
pub const OTHER_SUB_W: Dip = 320;

/// Top of the lines about the rule in force, below the sliders.
pub open spec fn eff_y() -> int {
    wheel_slider_y() + SLIDER_H + SEP_H
}

/// Top of the `idx`-th row of the devices with rules.
pub open spec fn device_y(idx: int) -> int {
    eff_y() + EFF_INFO_H + SEP_H + idx * ROW_H
}

/// Top of the entry for the other devices; one row stands for no device.
pub open spec fn other_y(n: int) -> int {
    device_y(if n < 1 { 1 } else { n })
}

/// Top of the row that switches starting with the system.
pub open spec fn autostart_y(n: int) -> int {
    other_y(n) + ROW_H + SEP_H
}

/// Top of the exit row.
pub open spec fn exit_y(n: int) -> int {
    autostart_y(n) + ROW_H + SEP_H
}

/// Height of the menu.
pub open spec fn menu_h(n: int) -> int {
    exit_y(n) + ROW_H + BOTTOM_PAD
}

/// Top of the lines about the rule in force.
pub fn eff_top() -> (r: Dip)
    ensures
        r == eff_y(),
{
    wheel_slider_top() + SLIDER_H + SEP_H
}

/// Top of the `idx`-th row of the devices with rules.
pub fn device_top(idx: usize) -> (r: Dip)
    ensures
        r == device_y(idx as int),
{
    eff_top() + EFF_INFO_H + SEP_H + idx as i128 * ROW_H
}

/// Top of the entry for the other devices.
pub fn other_top(n: usize) -> (r: Dip)
    ensures
        r == other_y(n as int),
{
    device_top(if n < 1 { 1 } else { n })
}

/// Top of the row that switches starting with the system.
pub fn autostart_top(n: usize) -> (r: Dip)
    ensures
        r == autostart_y(n as int),
{
    other_top(n) + ROW_H + SEP_H
}

/// Top of the exit row.
pub fn exit_top(n: usize) -> (r: Dip)
    ensures
        r == exit_y(n as int),
{
    autostart_top(n) + ROW_H + SEP_H
}

/// Height of the menu with `n` devices with rules.
pub fn menu_height(n: usize) -> (r: Dip)
    ensures
        r == menu_h(n as int),
{
    exit_top(n) + ROW_H + BOTTOM_PAD
}

/// What the pointer can be over in the menu.
#[derive(Debug, Clone, Copy, PartialEq, Eq, Structural)]
pub enum Target {
    Reset,
    /// The row of a device with a rule.
    Device(usize),
    /// The entry for the other devices.
    OtherDevices,
    Autostart,
    Exit,
}

/// Height `y` is in the row that begins at `top`.
pub open spec fn in_row(y: int, top: int) -> bool {
    top <= y < top + ROW_H
}

/// The pointer at (`x`, `y`) is over `t`; `None` is no command.
pub open spec fn is_target_at(x: int, y: int, n: int, t: Option<Target>) -> bool {
    if on_reset(x, y) {
        t == Some(Target::Reset)
    } else {
        match t {
            Some(Target::Reset) => false,
            Some(Target::Device(i)) => i < n && in_row(y, device_y(i as int)),
            Some(Target::OtherDevices) => in_row(y, other_y(n)),
            Some(Target::Autostart) => in_row(y, autostart_y(n)),
            Some(Target::Exit) => in_row(y, exit_y(n)),
            None => {
                &&& !(device_y(0) <= y < device_y(n))
                &&& !in_row(y, other_y(n))
                &&& !in_row(y, autostart_y(n))
                &&& !in_row(y, exit_y(n))
            },
        }
    }
}

/// What the pointer at (`x`, `y`) is over.
pub fn hover_at(x: Dip, y: Dip, n: usize) -> (r: Option<Target>)
    ensures
        is_target_at(x as int, y as int, n as int, r),
{
    if x >= MENU_W - PAD - RESET_BTN_W && x < MENU_W - PAD && y >= TOP_PAD && y < TOP_PAD
        + TITLE_H {
        return Some(Target::Reset);
    }
    let top: Dip = device_top(0);
    if y >= top && y < device_top(n) {
        let i: i128 = (y - top) / ROW_H;
        return Some(Target::Device(i as usize));
    }
    let other: Dip = other_top(n);
    if y >= other && y < other + ROW_H {
        return Some(Target::OtherDevices);
    }
    let auto: Dip = autostart_top(n);
    if y >= auto && y < auto + ROW_H {
        return Some(Target::Autostart);
    }
    let exit: Dip = exit_top(n);
    if y >= exit && y < exit + ROW_H {
        return Some(Target::Exit);
    }
    None
}

/// The pointer is over one thing at most.
pub proof fn law_one_target(x: int, y: int, n: int, a: Option<Target>, b: Option<Target>)
    requires
        n >= 0,
        is_target_at(x, y, n, a),
        is_target_at(x, y, n, b),
    ensures
        a == b,
{
    if let Some(Target::Device(i)) = a {
        assert(in_row(y, device_y(i as int)));
    }
    if let Some(Target::Device(i)) = b {
        assert(in_row(y, device_y(i as int)));
    }
}

/// A part of the submenu that the pointer can be over.
#[derive(Debug, Clone, Copy, PartialEq, Eq, Structural)]
pub enum Slot {
    /// One of the three actions.
    Action(usize),
    /// The button that stores the rule.
    Store,
    /// The scroll mode switch.
    Mode,
    /// The trigger button.
    Trigger,
    /// The trigger key.
    KbTrigger,
}

/// Top of the scroll mode switch, below the wheel slider.
pub open spec fn sub_mode_y() -> int {
    sub_wheel_slider_y() + SUB_SLIDER_H
}

/// Top of the row of the trigger button.
pub open spec fn sub_trigger_y() -> int {
    sub_mode_y() + SUB_ROW_H
}

/// Top of the row of the trigger key.
pub open spec fn sub_kb_y() -> int {
    sub_trigger_y() + SUB_ROW_H
}

/// Top of the sensitivity label.
pub open spec fn sub_sens_label_y() -> int {
    sub_kb_y() + SUB_ROW_H
}

/// Top of the sensitivity slider.
pub open spec fn sub_sens_slider_y() -> int {
    sub_sens_label_y() + SUB_ROW_H
}

/// Top of the button that stores the rule.
pub open spec fn sub_store_y() -> int {
    sub_sens_slider_y() + SUB_SLIDER_H
}

/// Top of the `i`-th action.
pub open spec fn sub_action_y(i: int) -> int {
    sub_store_y() + SUB_ROW_H + i * SUB_ROW_H
}

/// Height of the submenu.
pub open spec fn sub_h() -> int {
    sub_action_y(3) + 4
}

/// Top of the scroll mode switch.
pub fn sub_mode_top() -> (r: Dip)
    ensures
        r == sub_mode_y(),
{
    sub_wheel_slider_top() + SUB_SLIDER_H
}

/// Top of the row of the trigger button.
pub fn sub_trigger_top() -> (r: Dip)
    ensures
        r == sub_trigger_y(),
{
    sub_mode_top() + SUB_ROW_H
}

/// Top of the row of the trigger key.
pub fn sub_kb_top() -> (r: Dip)
    ensures
        r == sub_kb_y(),
{
    sub_trigger_top() + SUB_ROW_H
}

/// Top of the sensitivity label.
pub fn sub_sens_label_top() -> (r: Dip)
    ensures
        r == sub_sens_label_y(),
{
    sub_kb_top() + SUB_ROW_H
}

/// Left, top, right and bottom of the sensitivity slider.
pub fn sub_sens_rect() -> (r: (Dip, Dip, Dip, Dip))
    ensures
        r.0 == PAD && r.1 == sub_sens_slider_y() && r.2 == SUB_W - PAD && r.3 == sub_sens_slider_y()
            + SUB_SLIDER_H,
{
    let top: Dip = sub_sens_label_top() + SUB_ROW_H;
    (PAD, top, SUB_W - PAD, top + SUB_SLIDER_H)
}

/// Left, top, right and bottom of the button that stores the rule.
pub fn sub_store_rect() -> (r: (Dip, Dip, Dip, Dip))
    ensures
        r.0 == PAD && r.1 == sub_store_y() && r.2 == SUB_W - PAD && r.3 == sub_store_y()
            + SUB_ROW_H,
{
    let top: Dip = sub_sens_label_top() + SUB_ROW_H + SUB_SLIDER_H;
    (PAD, top, SUB_W - PAD, top + SUB_ROW_H)
}

/// Top of the `i`-th action.
pub fn sub_action_top(i: usize) -> (r: Dip)
    ensures
        r == sub_action_y(i as int),
{
    sub_store_rect().1 + SUB_ROW_H + i as i128 * SUB_ROW_H
}

/// Height of the submenu.
pub fn sub_height() -> (r: Dip)
    ensures
        r == sub_h(),
{
    sub_action_top(3) + 4
}

/// Height `y` is in the submenu row that begins at `top`.
pub open spec fn in_sub_row(y: int, top: int) -> bool {
    top <= y < top + SUB_ROW_H
}

/// The position is on `s`; `None` is nothing that can be chosen.
pub open spec fn is_slot_at(x: int, y: int, s: Option<Slot>) -> bool {
    match s {
        Some(Slot::Action(i)) => i < 3 && in_sub_row(y, sub_action_y(i as int)),
        Some(Slot::Store) => PAD <= x < SUB_W - PAD && in_sub_row(y, sub_store_y()),
        Some(Slot::Mode) => 0 <= x < SUB_W && in_sub_row(y, sub_mode_y()),
        Some(Slot::Trigger) => 0 <= x < SUB_W && in_sub_row(y, sub_trigger_y()),
        Some(Slot::KbTrigger) => 0 <= x < SUB_W && in_sub_row(y, sub_kb_y()),
        None => {
            &&& !(sub_action_y(0) <= y < sub_action_y(3))
            &&& !(PAD <= x < SUB_W - PAD && in_sub_row(y, sub_store_y()))
            &&& !(0 <= x < SUB_W && sub_mode_y() <= y < sub_sens_label_y())
        },
    }
}

/// The part of the submenu at (`x`, `y`) that can be chosen.
pub fn slot_at(x: Dip, y: Dip) -> (r: Option<Slot>)
    ensures
        is_slot_at(x as int, y as int, r),
{
    let actions: Dip = sub_action_top(0);
    if y >= actions && y < sub_action_top(3) {
        if y < sub_action_top(1) {
            return Some(Slot::Action(0));
        }
        if y < sub_action_top(2) {
            return Some(Slot::Action(1));
        }
        return Some(Slot::Action(2));
    }
    let (left, top, right, bottom) = sub_store_rect();
    if x >= left && x < right && y >= top && y < bottom {
        return Some(Slot::Store);
    }
    if x >= 0 && x < SUB_W {
        let mode: Dip = sub_mode_top();
        if y >= mode && y < mode + SUB_ROW_H {
            return Some(Slot::Mode);
        }
        let trigger: Dip = sub_trigger_top();
        if y >= trigger && y < trigger + SUB_ROW_H {
            return Some(Slot::Trigger);
        }
        let kb: Dip = sub_kb_top();
        if y >= kb && y < kb + SUB_ROW_H {
            return Some(Slot::KbTrigger);
        }
    }
    None
}

/// A position is on one part of the submenu at most.
pub proof fn law_one_slot(x: int, y: int, a: Option<Slot>, b: Option<Slot>)
    requires
        is_slot_at(x, y, a),
        is_slot_at(x, y, b),
    ensures
        a == b,
{
}

/// Top of the `i`-th row of the other devices.
pub open spec fn other_row_y(i: int) -> int {
    TOP_PAD + i * ROW_H
}

/// Top of the `i`-th row of the other devices.
pub fn other_row_top(i: usize) -> (r: Dip)
    ensures
        r == other_row_y(i as int),
{
    TOP_PAD + i as i128 * ROW_H
}

/// Height of the list of other devices; a line of text stands for none.
pub fn other_height(n: usize) -> (r: Dip)
    ensures
        r == TOP_PAD + (if n == 0 {
            INFO_ROW_H as int
        } else {
            n * ROW_H
        }) + BOTTOM_PAD,
{
    let rows: Dip = if n == 0 { INFO_ROW_H } else { n as i128 * ROW_H };
    TOP_PAD + rows + BOTTOM_PAD
}

/// The row of the other devices at height `y`.
pub fn other_row_at(y: Dip, n: usize) -> (r: Option<usize>)
    ensures
        r is Some <==> other_row_y(0) <= y < other_row_y(n as int),
        r matches Some(i) ==> i < n && in_row(y as int, other_row_y(i as int)),
{
    if y >= TOP_PAD && y < other_row_top(n) {
        let i: i128 = (y - TOP_PAD) / ROW_H;
        Some(i as usize)
    } else {
        None
    }
}

/// The rows of the menu follow each other from top to bottom without overlap, one
/// row or more per device, and the menu ends a margin below the last one.
pub proof fn law_menu_rows_follow_each_other(n: int, i: int)
    requires
        0 <= i < n,
    ensures
        wheel_slider_y() + SLIDER_H + SEP_H == eff_y(),
        eff_y() + EFF_INFO_H + SEP_H == device_y(0),
        device_y(i) + ROW_H == device_y(i + 1),
        device_y(n) == other_y(n),
        other_y(0) == other_y(1),
        other_y(n) + ROW_H + SEP_H == autostart_y(n),
        autostart_y(n) + ROW_H + SEP_H == exit_y(n),
        exit_y(n) + ROW_H + BOTTOM_PAD == menu_h(n),
        menu_h(n + 1) == menu_h(n) + ROW_H,
        menu_h(0) == menu_h(1),
{
}

/// Every row reaches from its top to the top of what follows it, whatever the
/// distance from the left edge.
pub proof fn law_menu_rows_reach_to_the_next(x: int, y: int, n: int, i: usize)
    requires
        n > 0,
        !on_reset(x, y),
    ensures
        is_target_at(x, y, n, Some(Target::Device(i))) <==> i < n && device_y(i as int) <= y
            < device_y(i + 1),
        is_target_at(x, y, n, Some(Target::OtherDevices)) <==> device_y(n) <= y < autostart_y(n)
            - SEP_H,
        is_target_at(x, y, n, Some(Target::Autostart)) <==> autostart_y(n) <= y < exit_y(n)
            - SEP_H,
        is_target_at(x, y, n, Some(Target::Exit)) <==> exit_y(n) <= y < menu_h(n) - BOTTOM_PAD,
        y < device_y(0) || y >= menu_h(n) ==> is_target_at(x, y, n, None),
{
}

/// Without devices, pointing at the line that stands for them finds nothing.
pub proof fn law_no_device_is_no_target(x: int, y: int)
    requires
        !on_reset(x, y),
        device_y(0) <= y < device_y(1),
    ensures
        is_target_at(x, y, 0, None),
{
}

/// The reset button lies above all rows.
pub proof fn law_reset_lies_above_the_rows(x: int, y: int, n: int)
    requires
        on_reset(x, y),
        n >= 0,
    ensures
        is_target_at(x, y, n, Some(Target::Reset)),
        y < device_y(0),
{
}

/// The parts of the submenu follow each other from top to bottom with nothing
/// between them.
pub proof fn law_sub_rows_follow_each_other(i: int)
    requires
        0 <= i < 3,
    ensures
        sub_wheel_slider_y() + SUB_SLIDER_H == sub_mode_y(),
        sub_mode_y() + SUB_ROW_H == sub_trigger_y(),
        sub_trigger_y() + SUB_ROW_H == sub_kb_y(),
        sub_kb_y() + SUB_ROW_H == sub_sens_label_y(),
        sub_sens_label_y() + SUB_ROW_H == sub_sens_slider_y(),
        sub_sens_slider_y() + SUB_SLIDER_H == sub_store_y(),
        sub_store_y() + SUB_ROW_H == sub_action_y(0),
        sub_action_y(i) + SUB_ROW_H == sub_action_y(i + 1),
        sub_action_y(2) + SUB_ROW_H + 4 == sub_h(),
{
}

/// Each part of the submenu that can be chosen reaches from its top to the top of
/// what follows it; the button keeps a margin at both sides, and the labels and
/// sliders cannot be chosen.
pub proof fn law_slots_reach_to_the_next(x: int, y: int, i: usize)
    requires
        0 <= x < SUB_W,
    ensures
        is_slot_at(x, y, Some(Slot::Mode)) <==> sub_mode_y() <= y < sub_trigger_y(),
        is_slot_at(x, y, Some(Slot::Trigger)) <==> sub_trigger_y() <= y < sub_kb_y(),
        is_slot_at(x, y, Some(Slot::KbTrigger)) <==> sub_kb_y() <= y < sub_sens_label_y(),
        is_slot_at(x, y, Some(Slot::Store)) <==> sub_store_y() <= y < sub_action_y(0) && 8 <= x
            < SUB_W - 8,
        is_slot_at(x, y, Some(Slot::Action(i))) <==> i < 3 && sub_action_y(i as int) <= y
            < sub_action_y(i + 1),
        y < sub_mode_y() ==> is_slot_at(x, y, None),
        sub_sens_label_y() <= y < sub_store_y() ==> is_slot_at(x, y, None),
        y >= sub_h() ==> is_slot_at(x, y, None),
{
}

/// The rows of the list of other devices follow each other.
pub proof fn law_other_rows_follow_each_other(i: int)
    ensures
        other_row_y(i) + ROW_H == other_row_y(i + 1),
        other_row_y(0) == TOP_PAD,
{
}

} // verus!

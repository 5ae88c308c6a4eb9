//! The menu as drawn by an immediate mode toolkit: one call per frame takes in
//! what the pointer did and gives out what is to be done and drawn.

use crate::commands::{effective_line, effective_text, slot_done, DevSlot};
use crate::devices::Device;
use crate::menu_model::{
    devices_h, show_id, shown_id, Dip, BOTTOM_PAD, CHECK_W, INFO_ROW_H, MENU_W, PAD, ROW_H, SEP_H,
    SLIDER_H, SUB_ROW_H, TITLE_H, TOP_PAD,
};
use crate::scroll::clamp_int;
use crate::speed::{SpeedWrite, SystemSpeed, SPEED_DEFAULT, SPEED_MAX, SPEED_MIN};
use crate::state::{lemma_effective, rule_of, AppState, StateModel};
use crate::text::{
    clone_text, dec, law_decimal_numerals, push_dec, same_opt_text, same_text, view_opt, views,
};
use vstd::prelude::*;
use vstd::string::StringExecFns;

verus! {

/// Width of the submenu.
pub const SUB_W: Dip = 180;

/// One device in the menu.
#[derive(Debug)]
pub struct DevRow {
    pub name: String,
    pub vid: Option<String>,
    pub pid: Option<String>,
    /// The speed of the device's rule; `None` without a rule.
    pub rule_speed: Option<u32>,
    /// The device's rule is in force.
    pub is_effective: bool,
}

impl Clone for DevRow {
    fn clone(&self) -> (r: Self)
        ensures
            r == *self,
    {
        DevRow {
            name: self.name.clone(),
            vid: clone_text(&self.vid),
            pid: clone_text(&self.pid),
            rule_speed: self.rule_speed,
            is_effective: self.is_effective,
        }
    }
}

impl DevRow {
    /// The device has both ids, so rules can be made for it.
    pub open spec fn has_ids(&self) -> bool {
        self.vid is Some && self.pid is Some
    }

    /// The action at the given place of the submenu can be chosen.
    pub open spec fn offers(&self, slot: int) -> bool {
        self.has_ids() && (slot == 1 ==> self.rule_speed is Some)
    }

    /// The text of the row: the name, the ids, and the speed of the rule.
    pub fn row_text(&self) -> (r: String)
        ensures
            r@ == self.name@ + "  ["@ + shown_id(self.vid) + ":"@ + shown_id(self.pid) + "]"@ + (
            match self.rule_speed {
                Some(sp) => "  · 规则 "@ + dec(sp as nat),
                None => seq![],
            }),
    {
        let mut s = self.name.clone();
        s.append("  [");
        s.append(show_id(&self.vid).as_str());
        s.append(":");
        s.append(show_id(&self.pid).as_str());
        s.append("]");
        let ghost base = s@;
        if let Some(sp) = self.rule_speed {
            s.append("  · 规则 ");
            push_dec(&mut s, sp);
            assert(s@ =~= base + ("  · 规则 "@ + dec(sp as nat)));
        } else {
            assert(s@ =~= base + seq![]);
        }
        s
    }

    /// Whether rules can be made for the device.
    pub fn can_rule(&self) -> (r: bool)
        ensures
            r == self.has_ids(),
    {
        self.vid.is_some() && self.pid.is_some()
    }

    /// The three actions of the submenu, each with whether it can be chosen.
    pub fn sub_actions(&self) -> (r: [(&'static str, bool); 3])
        ensures
            r@[0].0@ == "用当前速度保存规则"@ && r@[0].1 == self.offers(0),
            r@[1].0@ == "删除此设备规则"@ && r@[1].1 == self.offers(1),
            r@[2].0@ == "重新应用规则"@ && r@[2].1 == self.offers(2),
    {
        [
            ("用当前速度保存规则", self.can_rule()),
            ("删除此设备规则", self.can_rule() && self.rule_speed.is_some()),
            ("重新应用规则", self.can_rule()),
        ]
    }

    /// The information row of the submenu.
    pub fn sub_info(&self) -> (r: String)
        ensures
            r@ == "VID:"@ + shown_id(self.vid) + "  PID:"@ + shown_id(self.pid),
    {
        let mut s = "VID:".to_owned();
        s.append(show_id(&self.vid).as_str());
        s.append("  PID:");
        s.append(show_id(&self.pid).as_str());
        s
    }
}

/// The text of the tray icon's tool tip.
pub open spec fn tip(cur: u32, rule: Option<(Seq<char>, u32)>) -> Seq<char> {
    let base = "鼠标灵敏度切换 - 当前指针速度: "@ + dec(cur as nat);
    match rule {
        Some((name, sp)) => base + " · 生效规则: "@ + name + " (速度 "@ + dec(sp as nat) + ")"@,
        None => base,
    }
}

/// The text of the tray icon's tool tip.
pub fn tip_text(cur: u32, rule: Option<(&str, u32)>) -> (r: String)
    ensures
        r@ == tip(
            cur,
            match rule {
                Some((name, sp)) => Some((name@, sp)),
                None => None,
            },
        ),
{
    let mut s = "鼠标灵敏度切换 - 当前指针速度: ".to_owned();
    push_dec(&mut s, cur);
    if let Some((name, sp)) = rule {
        s.append(" · 生效规则: ");
        s.append(name);
        s.append(" (速度 ");
        push_dec(&mut s, sp);
        s.append(")");
    }
    s
}

/// Top of the `idx`-th device row: below the title, the slider and the rule in
/// force.
pub open spec fn device_row_y(idx: int) -> int {
    TOP_PAD + TITLE_H + SLIDER_H + SEP_H + INFO_ROW_H + SEP_H + idx * ROW_H
}

/// Top of the row that switches starting with the system.
pub open spec fn autostart_row_y(n_devs: int) -> int {
    device_row_y(0) + devices_h(n_devs) + SEP_H
}

/// Top of the exit row.
pub open spec fn exit_row_y(n_devs: int) -> int {
    autostart_row_y(n_devs) + ROW_H + SEP_H
}

/// Top of the action at a place of the submenu, below the information row.
pub open spec fn slot_y(slot: int) -> int {
    4 + SUB_ROW_H * (slot + 1)
}

/// Height of the menu.
pub open spec fn menu_h(n_devs: int) -> int {
    TOP_PAD + TITLE_H + SLIDER_H + SEP_H + INFO_ROW_H + SEP_H + devices_h(n_devs) + SEP_H + ROW_H
        + SEP_H + ROW_H + BOTTOM_PAD
}

/// Height of the menu with `n_devs` devices.
pub fn menu_height(n_devs: usize) -> (r: Dip)
    ensures
        r == menu_h(n_devs as int),
{
    let dev_rows: Dip = if n_devs == 0 { INFO_ROW_H } else { n_devs as i128 * ROW_H };
    TOP_PAD + TITLE_H + SLIDER_H + SEP_H + INFO_ROW_H + SEP_H + dev_rows + SEP_H + ROW_H + SEP_H
        + ROW_H + BOTTOM_PAD
}

/// Height of the submenu: the information row and three actions.
pub fn sub_height() -> (r: Dip)
    ensures
        r == 4 + 4 * SUB_ROW_H + 4,
{
    4 + SUB_ROW_H * 4 + 4
}

/// Top of the `idx`-th device row.
pub fn device_row_top(idx: usize) -> (r: Dip)
    ensures
        r == device_row_y(idx as int),
{
    TOP_PAD + TITLE_H + SLIDER_H + SEP_H + INFO_ROW_H + SEP_H + idx as i128 * ROW_H
}

/// Top of the row that switches starting with the system.
pub fn autostart_row_top(n_devs: usize) -> (r: Dip)
    ensures
        r == autostart_row_y(n_devs as int),
{
    menu_height(n_devs) - BOTTOM_PAD - ROW_H - SEP_H - ROW_H
}

/// Top of the exit row.
pub fn exit_row_top(n_devs: usize) -> (r: Dip)
    ensures
        r == exit_row_y(n_devs as int),
{
    menu_height(n_devs) - BOTTOM_PAD - ROW_H
}

/// Where the action at a place of the submenu is: left, top, right, bottom.
pub fn slot_rect(slot: usize) -> (r: (Dip, Dip, Dip, Dip))
    ensures
        r.0 == 2,
        r.1 == slot_y(slot as int),
        r.2 == SUB_W - 2,
        r.3 == slot_y(slot as int) + SUB_ROW_H,
{
    let top: Dip = 4 + SUB_ROW_H * (slot as i128 + 1);
    (2, top, SUB_W - 2, top + SUB_ROW_H)
}

/// The rows end a margin above the bottom of the menu, and each device makes
/// the menu one row higher.
pub proof fn law_rows_fit_the_menu(n_devs: int)
    requires
        n_devs >= 0,
    ensures
        menu_h(n_devs) == exit_row_y(n_devs) + ROW_H + BOTTOM_PAD,
        menu_h(n_devs) < menu_h(n_devs + 1),
        n_devs > 0 ==> menu_h(n_devs + 1) == menu_h(n_devs) + ROW_H,
        menu_h(1) == menu_h(0) + ROW_H - INFO_ROW_H,
        n_devs > 0 ==> device_row_y(n_devs) + SEP_H == autostart_row_y(n_devs),
{
}

/// What the menu asks its host to do.
#[derive(Debug, Clone, Copy, PartialEq, Eq, Structural)]
pub enum MenuAction {
    SetSpeed(u32),
    ResetSpeed,
    ToggleAutostart,
    SetRule(usize),
    DelRule(usize),
    Reapply(usize),
    Exit,
}

/// A row that the pointer can be over.
#[derive(Debug, Clone, Copy, PartialEq, Eq, Structural)]
pub enum Target {
    Device(usize),
    Autostart,
    Exit,
}

/// What happened since the last frame, as the toolkit reports it.
#[derive(Debug, Clone, Copy)]
pub struct FrameInput {
    /// The row that the pointer is over. The toolkit reports none while
    /// something else is dragged.
    pub hovered: Option<Target>,
    /// The row that was clicked.
    pub clicked: Option<Target>,
    /// The reset button was clicked.
    pub reset_clicked: bool,
    /// The slider was moved to this value.
    pub slider: Option<i32>,
}

/// No two rows overlap: device rows follow each other, and the rows below them
/// are set off.
pub proof fn law_rows_do_not_overlap(n_devs: int, i: int, j: int)
    requires
        0 <= i < j < n_devs,
    ensures
        device_row_y(i) + ROW_H <= device_row_y(j),
        device_row_y(j) + ROW_H < autostart_row_y(n_devs),
        autostart_row_y(n_devs) + ROW_H < exit_row_y(n_devs),
        slot_y(0) + SUB_ROW_H == slot_y(1),
        slot_y(1) + SUB_ROW_H == slot_y(2),
{
}

/// The value of a slider that was moved to `v`.
pub open spec fn slid_to(v: int) -> u32 {
    clamp_int(v, SPEED_MIN as int, SPEED_MAX as int) as u32
}

/// The submenu that is open after a frame: the device and the top of its row.
pub open spec fn sub_after(
    hovered: Option<Target>,
    inside: bool,
    before: Option<(usize, Dip)>,
) -> Option<(usize, Dip)> {
    match hovered {
        Some(Target::Device(i)) => Some((i, device_row_y(i as int) as Dip)),
        _ => if inside {
            before
        } else {
            None
        },
    }
}

/// Carrying the action out closes the menu.
pub open spec fn closes_menu(action: MenuAction) -> bool {
    action is SetRule || action is DelRule || action is Reapply
}

/// The actions of a frame: those of the reset button, the slider, and the row
/// that was clicked.
pub open spec fn frame_actions(input: FrameInput) -> Seq<MenuAction> {
    let reset = if input.reset_clicked {
        seq![MenuAction::ResetSpeed]
    } else {
        seq![]
    };
    let slid = match input.slider {
        Some(v) => seq![
            MenuAction::SetSpeed(slid_to(v as int)),
        ],
        None => seq![],
    };
    let row = if input.clicked == Some(Target::Autostart) {
        seq![MenuAction::ToggleAutostart]
    } else if input.clicked == Some(Target::Exit) {
        seq![MenuAction::Exit]
    } else {
        seq![]
    };
    reset + slid + row
}

/// The state of the menu.
#[derive(Debug)]
pub struct MenuModel {
    pub devs: Vec<DevRow>,
    /// The name and speed of the rule in force.
    pub effective: Option<(String, u32)>,
    pub autostart_on: bool,
    pub speed_val: u32,
    /// The device whose submenu is open, and the top of its row.
    pub sub_hover: Option<(usize, Dip)>,
    /// The pointer is inside the submenu.
    pub sub_pointer_inside: bool,
}

/// What choosing an action of a device's submenu asks for.
pub open spec fn slot_action(slot: int, idx: usize) -> MenuAction {
    if slot == 0 {
        MenuAction::SetRule(idx)
    } else if slot == 1 {
        MenuAction::DelRule(idx)
    } else {
        MenuAction::Reapply(idx)
    }
}

/// What clicking at `clicked` in the submenu of device `idx` asks for.
pub open spec fn submenu_actions(
    devs: Seq<DevRow>,
    idx: usize,
    clicked: Option<usize>,
) -> Seq<MenuAction> {
    match clicked {
        Some(s) => if s < 3 && idx < devs.len() && devs[idx as int].offers(s as int) {
            seq![slot_action(s as int, idx)]
        } else {
            seq![]
        },
        None => seq![],
    }
}

/// A text of the menu.
#[derive(Debug, Clone, Copy, PartialEq, Eq, Structural)]
pub enum TextId {
    /// The rule in force.
    Effective,
    /// There is no device.
    NoDevice,
    Device(usize),
    Autostart,
    Exit,
    /// The ids of a device, in its submenu.
    Info,
    /// An action of the submenu.
    Action(usize),
}

/// The colour of a text or mark.
#[derive(Debug, Clone, Copy, PartialEq, Eq, Structural)]
pub enum Ink {
    Normal,
    Gray,
    OnHighlight,
}

/// One stroke of drawing.
#[derive(Debug, Clone, Copy, PartialEq, Eq, Structural)]
pub enum Op {
    /// A line across the menu at this height.
    Separator { y: Dip },
    /// The highlight behind a row.
    Highlight { left: Dip, top: Dip, right: Dip, bottom: Dip },
    /// A check mark in the middle of a row.
    Check { cy: Dip, ink: Ink },
    /// A text that begins at `x`, in the middle at `cy`.
    Text { id: TextId, x: Dip, cy: Dip, ink: Ink },
}

/// How a row of the menu is drawn.
pub open spec fn row_ops(id: TextId, top: int, lit: bool, checked: bool) -> Seq<Op> {
    let ink = if lit {
        Ink::OnHighlight
    } else {
        Ink::Normal
    };
    let cy = (top + 13) as i128;
    let back = if lit {
        seq![
            Op::Highlight {
                left: 0,
                top: top as i128,
                right: MENU_W,
                bottom: (top + ROW_H) as i128,
            },
        ]
    } else {
        seq![]
    };
    let check = if checked {
        seq![Op::Check { cy, ink }]
    } else {
        seq![]
    };
    back + check + seq![Op::Text { id, x: (PAD + CHECK_W) as i128, cy, ink }]
}

/// How the first `k` device rows are drawn.
pub open spec fn device_ops(devs: Seq<DevRow>, over: Option<Target>, k: int) -> Seq<Op>
    decreases k,
{
    if k <= 0 {
        seq![]
    } else {
        device_ops(devs, over, k - 1) + row_ops(
            TextId::Device((k - 1) as usize),
            device_row_y(k - 1),
            over == Some(Target::Device((k - 1) as usize)),
            devs[k - 1].is_effective && devs[k - 1].rule_speed is Some,
        )
    }
}

/// A separator below height `y`.
pub open spec fn separator(y: int) -> Op {
    Op::Separator { y: (y + 4) as i128 }
}

/// How the menu is drawn below its slider.
pub open spec fn menu_ops(devs: Seq<DevRow>, autostart_on: bool, over: Option<Target>) -> Seq<Op> {
    let n = devs.len() as int;
    let eff = TOP_PAD + TITLE_H + SLIDER_H + SEP_H;
    let none = if n == 0 {
        seq![
            Op::Text {
                id: TextId::NoDevice,
                x: PAD,
                cy: (device_row_y(0) + 11) as i128,
                ink: Ink::Gray,
            },
        ]
    } else {
        seq![]
    };
    seq![
        separator(TOP_PAD + TITLE_H + SLIDER_H),
        Op::Text { id: TextId::Effective, x: PAD, cy: (eff + 11) as i128, ink: Ink::Gray },
        separator(eff + INFO_ROW_H),
    ] + none + device_ops(devs, over, n) + seq![separator(autostart_row_y(n) - SEP_H)] + row_ops(
        TextId::Autostart,
        autostart_row_y(n),
        over == Some(Target::Autostart),
        autostart_on,
    ) + seq![separator(exit_row_y(n) - SEP_H)] + row_ops(
        TextId::Exit,
        exit_row_y(n),
        over == Some(Target::Exit),
        false,
    )
}

fn push_op(ops: &mut Vec<Op>, op: Op)
    ensures
        final(ops)@ == old(ops)@ + seq![op],
{
    ops.push(op);
    assert(ops@ =~= old(ops)@ + seq![op]);
}

fn push_row_ops(ops: &mut Vec<Op>, id: TextId, top: Dip, lit: bool, checked: bool)
    requires
        0 <= top <= 0x1000_0000_0000_0000_0000_0000,
    ensures
        final(ops)@ == old(ops)@ + row_ops(id, top as int, lit, checked),
{
    let ink = if lit {
        Ink::OnHighlight
    } else {
        Ink::Normal
    };
    let cy: Dip = top + 13;
    if lit {
        ops.push(Op::Highlight { left: 0, top, right: MENU_W, bottom: top + ROW_H });
    }
    if checked {
        ops.push(Op::Check { cy, ink });
    }
    ops.push(Op::Text { id, x: PAD + CHECK_W, cy, ink });
    assert(ops@ =~= old(ops)@ + row_ops(id, top as int, lit, checked));
}

/// How an action of the submenu is drawn.
pub open spec fn slot_ops(slot: int, enabled: bool, over: bool) -> Seq<Op> {
    let top = slot_y(slot);
    let lit = enabled && over;
    let back = if lit {
        seq![
            Op::Highlight {
                left: 2,
                top: top as i128,
                right: (SUB_W - 2) as i128,
                bottom: (top + SUB_ROW_H) as i128,
            },
        ]
    } else {
        seq![]
    };
    back + seq![
        Op::Text {
            id: TextId::Action(slot as usize),
            x: PAD,
            cy: (top + 12) as i128,
            ink: if lit {
                Ink::OnHighlight
            } else if !enabled {
                Ink::Gray
            } else {
                Ink::Normal
            },
        },
    ]
}

fn push_slot_ops(ops: &mut Vec<Op>, slot: usize, enabled: bool, over: bool)
    requires
        slot < 3,
    ensures
        final(ops)@ == old(ops)@ + slot_ops(slot as int, enabled, over),
{
    let top: Dip = slot_rect(slot).1;
    let lit = enabled && over;
    if lit {
        ops.push(
            Op::Highlight { left: 2, top, right: SUB_W - 2, bottom: top + SUB_ROW_H },
        );
    }
    let ink = if lit {
        Ink::OnHighlight
    } else if !enabled {
        Ink::Gray
    } else {
        Ink::Normal
    };
    ops.push(Op::Text { id: TextId::Action(slot), x: PAD, cy: top + 12, ink });
    assert(ops@ =~= old(ops)@ + slot_ops(slot as int, enabled, over));
}

fn clamp_slider(v: i32) -> (r: u32)
    ensures
        r == clamp_int(v as int, SPEED_MIN as int, SPEED_MAX as int),
{
    if v < SPEED_MIN as i32 {
        SPEED_MIN
    } else if v > SPEED_MAX as i32 {
        SPEED_MAX
    } else {
        v as u32
    }
}

/// What is left to do after an action.
#[derive(Debug)]
pub struct ActionOutcome {
    /// The system settings to change.
    pub writes: Vec<SpeedWrite>,
    /// The configuration is to be saved.
    pub save: bool,
    /// Starting with the system is to be switched.
    pub toggle_autostart: bool,
    /// The menu is to be closed.
    pub close: bool,
    /// The tool tip is to be brought up to date.
    pub tip: bool,
    /// The tool is to end.
    pub exit: bool,
}

/// The row is the one for device `d` in state `m`.
pub open spec fn is_row_of(row: DevRow, d: Device, m: StateModel) -> bool {
    let rule = rule_of(m.cfg.rules@, d);
    &&& row.name == d.name
    &&& row.vid == d.vid
    &&& row.pid == d.pid
    &&& row.rule_speed == (match rule {
        Some(r) => Some(r.speed),
        None => None,
    })
    &&& row.is_effective == (rule is Some && (m.effective() is Some && {
        let e = m.active[m.effective()->0].1;
        view_opt(e.vid) == view_opt(d.vid) && view_opt(e.pid) == view_opt(d.pid)
    }))
}

impl MenuModel {
    /// Takes in a frame: which submenu is open, and the actions asked for.
    /// Pointing at a device row opens its submenu; inside the open submenu it
    /// stays open; elsewhere it closes.
    pub fn draw(&mut self, input: FrameInput) -> (r: Vec<MenuAction>)
        ensures
            r@ == frame_actions(input),
            *final(self) == (MenuModel {
                speed_val: match input.slider {
                    Some(v) => slid_to(v as int),
                    None => old(self).speed_val,
                },
                sub_hover: sub_after(
                    input.hovered,
                    old(self).sub_pointer_inside,
                    old(self).sub_hover,
                ),
                ..*old(self)
            }),
    {
        let mut actions: Vec<MenuAction> = Vec::new();
        if input.reset_clicked {
            actions.push(MenuAction::ResetSpeed);
        }
        if let Some(v) = input.slider {
            self.speed_val = clamp_slider(v);
            actions.push(MenuAction::SetSpeed(self.speed_val));
        }
        match input.clicked {
            Some(Target::Autostart) => {
                actions.push(MenuAction::ToggleAutostart);
            },
            Some(Target::Exit) => {
                actions.push(MenuAction::Exit);
            },
            _ => {},
        }
        self.sub_hover = match input.hovered {
            Some(Target::Device(i)) => Some((i, device_row_top(i))),
            _ => if self.sub_pointer_inside {
                self.sub_hover
            } else {
                None
            },
        };
        assert(actions@ =~= frame_actions(input));
        actions
    }

    /// How the menu is drawn below its slider, with the row `over` under the
    /// pointer.
    pub fn paint(&self, over: Option<Target>) -> (r: Vec<Op>)
        ensures
            r@ == menu_ops(self.devs@, self.autostart_on, over),
    {
        let n: usize = self.devs.len();
        let eff: Dip = TOP_PAD + TITLE_H + SLIDER_H + SEP_H;
        let mut ops: Vec<Op> = Vec::new();
        ops.push(Op::Separator { y: eff - SEP_H + 4 });
        ops.push(Op::Text { id: TextId::Effective, x: PAD, cy: eff + 11, ink: Ink::Gray });
        ops.push(Op::Separator { y: eff + INFO_ROW_H + 4 });
        let ghost top = ops@;
        assert(top =~= seq![
            separator(TOP_PAD + TITLE_H + SLIDER_H),
            Op::Text { id: TextId::Effective, x: PAD, cy: (eff + 11) as i128, ink: Ink::Gray },
            separator(eff + INFO_ROW_H),
        ]);
        if n == 0 {
            push_op(
                &mut ops,
                Op::Text {
                    id: TextId::NoDevice,
                    x: PAD,
                    cy: device_row_top(0) + 11,
                    ink: Ink::Gray,
                },
            );
        } else {
            assert(ops@ =~= top + seq![]);
        }
        let ghost head = ops@;
        assert(ops@ =~= head + device_ops(self.devs@, over, 0));
        for i in 0..n
            invariant
                n == self.devs@.len(),
                ops@ == head + device_ops(self.devs@, over, i as int),
        {
            let d = &self.devs[i];
            let lit = match over {
                Some(Target::Device(j)) => i == j,
                _ => false,
            };
            let ghost before = device_ops(self.devs@, over, i as int);
            push_row_ops(
                &mut ops,
                TextId::Device(i),
                device_row_top(i),
                lit,
                d.is_effective && d.rule_speed.is_some(),
            );
            proof {
                let more = row_ops(
                    TextId::Device(i),
                    device_row_y(i as int),
                    over == Some(Target::Device(i)),
                    d.is_effective && d.rule_speed is Some,
                );
                assert((head + before) + more =~= head + (before + more));
            }
        }
        let auto: Dip = autostart_row_top(n);
        let exit: Dip = exit_row_top(n);
        let on_auto = match over {
            Some(Target::Autostart) => true,
            _ => false,
        };
        let on_exit = match over {
            Some(Target::Exit) => true,
            _ => false,
        };
        push_op(&mut ops, Op::Separator { y: auto - SEP_H + 4 });
        push_row_ops(&mut ops, TextId::Autostart, auto, on_auto, self.autostart_on);
        push_op(&mut ops, Op::Separator { y: exit - SEP_H + 4 });
        push_row_ops(&mut ops, TextId::Exit, exit, on_exit, false);
        ops
    }

    /// Takes in a frame of the submenu of device `idx`, in which the action at
    /// `clicked` was clicked: the action asked for, and whether the pointer is
    /// inside. Greyed out actions ask for nothing.
    pub fn draw_submenu(&self, idx: usize, pointer_inside: bool, clicked: Option<usize>) -> (r: (
        Vec<MenuAction>,
        bool,
    ))
        ensures
            r.1 == pointer_inside,
            r.0@ == submenu_actions(self.devs@, idx, clicked),
    {
        let mut actions: Vec<MenuAction> = Vec::new();
        if let Some(slot) = clicked {
            if slot < 3 && idx < self.devs.len() {
                let offered = self.devs[idx].sub_actions();
                if offered[slot].1 {
                    actions.push(
                        match slot {
                            0 => MenuAction::SetRule(idx),
                            1 => MenuAction::DelRule(idx),
                            _ => MenuAction::Reapply(idx),
                        },
                    );
                }
                assert(offered@[slot as int].1 == self.devs@[idx as int].offers(slot as int));
            }
        }
        (actions, pointer_inside)
    }

    /// How the submenu of device `idx` is drawn, with the action `over` under
    /// the pointer.
    pub fn paint_submenu(&self, idx: usize, over: Option<usize>) -> (r: Vec<Op>)
        ensures
            r@ == (if idx < self.devs@.len() {
                let d = self.devs@[idx as int];
                seq![Op::Text { id: TextId::Info, x: PAD, cy: 16, ink: Ink::Gray }] + slot_ops(
                    0,
                    d.offers(0),
                    over == Some(0usize),
                ) + slot_ops(1, d.offers(1), over == Some(1usize)) + slot_ops(
                    2,
                    d.offers(2),
                    over == Some(2usize),
                )
            } else {
                seq![]
            }),
    {
        let mut ops: Vec<Op> = Vec::new();
        if idx < self.devs.len() {
            let offered = self.devs[idx].sub_actions();
            let at: usize = match over {
                Some(s) => s,
                None => 3,
            };
            ops.push(Op::Text { id: TextId::Info, x: PAD, cy: 16, ink: Ink::Gray });
            push_slot_ops(&mut ops, 0, offered[0].1, at == 0);
            push_slot_ops(&mut ops, 1, offered[1].1, at == 1);
            push_slot_ops(&mut ops, 2, offered[2].1, at == 2);
        }
        ops
    }

    /// The line that names the rule in force.
    pub fn effective_row_text(&self) -> (r: String)
        ensures
            r@ == (match self.effective {
                Some((name, sp)) => effective_line(name@, sp),
                None => "生效规则: 无"@,
            }),
    {
        match &self.effective {
            Some((name, sp)) => effective_text(name.as_str(), *sp),
            None => "生效规则: 无".to_owned(),
        }
    }

    /// Brings the rows and the rule in force up to date with the devices found.
    pub fn refresh_data(&mut self, mice: &Vec<Device>, st: &AppState)
        ensures
            final(self).devs@.len() == mice@.len(),
            forall|i: int|
                0 <= i < mice@.len() ==> is_row_of(
                    #[trigger] final(self).devs@[i],
                    mice@[i],
                    st@,
                ),
            match st@.effective() {
                Some(i) => final(self).effective is Some && (final(self).effective->0).0
                    == st@.active[i].1.name && (final(self).effective->0).1 == rule_of(
                    st@.cfg.rules@,
                    st@.active[i].1,
                )->0.speed,
                None => final(self).effective is None,
            },
            *final(self) == (MenuModel {
                devs: final(self).devs,
                effective: final(self).effective,
                ..*old(self)
            }),
    {
        let mut rows: Vec<DevRow> = Vec::new();
        for i in 0..mice.len()
            invariant
                rows@.len() == i,
                forall|j: int| 0 <= j < i ==> is_row_of(#[trigger] rows@[j], mice@[j], st@),
        {
            let dev = &mice[i];
            let rule_speed = match st.rule_for(dev) {
                Some(r) => Some(r.speed),
                None => None,
            };
            let is_effective = rule_speed.is_some() && match st.effective_rule() {
                Some((e, _)) => same_opt_text(&e.vid, &dev.vid) && same_opt_text(
                    &e.pid,
                    &dev.pid,
                ),
                None => false,
            };
            rows.push(
                DevRow {
                    name: dev.name.clone(),
                    vid: clone_text(&dev.vid),
                    pid: clone_text(&dev.pid),
                    rule_speed,
                    is_effective,
                },
            );
        }
        self.devs = rows;
        self.effective = match st.effective_rule() {
            Some((d, rule)) => Some((d.name.clone(), rule.speed)),
            None => None,
        };
    }

    /// The ids of the device at `i`, if there is one and it has both.
    pub open spec fn ids_at(&self, i: usize) -> Option<(String, String)> {
        if i < self.devs@.len() {
            match (self.devs@[i as int].vid, self.devs@[i as int].pid) {
                (Some(v), Some(p)) => Some((v, p)),
                _ => None,
            }
        } else {
            None
        }
    }

    /// Carries an action out on the state. `sys` is what the system has set.
    pub fn run_action(&mut self, st: &mut AppState, action: MenuAction, sys: SystemSpeed) -> (r:
        ActionOutcome)
        requires
            old(st).wf(),
        ensures
            final(st).wf(),
            *final(self) == (if action == MenuAction::ResetSpeed {
                MenuModel { speed_val: SPEED_DEFAULT, ..*old(self) }
            } else {
                *old(self)
            }),
            r.toggle_autostart == (action == MenuAction::ToggleAutostart),
            r.exit == (action == MenuAction::Exit),
            r.close == closes_menu(action),
            r.tip == r.close,
            match action {
                MenuAction::SetSpeed(v) => final(st)@ == old(st)@ && !r.save && r.writes@
                    == seq![SpeedWrite::Pointer(v)],
                MenuAction::ResetSpeed => final(st)@ == old(st)@ && !r.save && r.writes@
                    == seq![SpeedWrite::Pointer(SPEED_DEFAULT)],
                MenuAction::SetRule(i) => match old(self).ids_at(i) {
                    Some((v, p)) => r.save && slot_done(
                        old(st)@,
                        final(st)@,
                        v@,
                        p@,
                        old(self).devs@[i as int].name,
                        DevSlot::SetRule,
                        sys,
                        r.writes@,
                    ),
                    None => final(st)@ == old(st)@ && !r.save && r.writes@.len() == 0,
                },
                MenuAction::DelRule(i) => match old(self).ids_at(i) {
                    Some((v, p)) => r.save && slot_done(
                        old(st)@,
                        final(st)@,
                        v@,
                        p@,
                        old(self).devs@[i as int].name,
                        DevSlot::DelRule,
                        sys,
                        r.writes@,
                    ),
                    None => final(st)@ == old(st)@ && !r.save && r.writes@.len() == 0,
                },
                MenuAction::Reapply(_) => final(st)@ == old(st)@.reapplied(sys) && !r.save
                    && r.writes@ == old(st)@.reapplied_writes(),
                MenuAction::ToggleAutostart | MenuAction::Exit => final(st)@ == old(st)@ && !r.save
                    && r.writes@.len() == 0,
            },
    {
        let mut out = ActionOutcome {
            writes: Vec::new(),
            save: false,
            toggle_autostart: false,
            close: false,
            tip: false,
            exit: false,
        };
        match action {
            MenuAction::SetSpeed(v) => {
                out.writes.push(SpeedWrite::Pointer(v));
            },
            MenuAction::ResetSpeed => {
                self.speed_val = SPEED_DEFAULT;
                out.writes.push(SpeedWrite::Pointer(SPEED_DEFAULT));
            },
            MenuAction::ToggleAutostart => {
                out.toggle_autostart = true;
            },
            MenuAction::SetRule(i) => {
                if i < self.devs.len() {
                    let d = &self.devs[i];
                    if let (Some(v), Some(p)) = (&d.vid, &d.pid) {
                        out.writes = st.store_rule(
                            v.as_str(),
                            p.as_str(),
                            sys.speed,
                            None,
                            &d.name,
                            sys,
                        );
                        out.save = true;
                    }
                }
                out.close = true;
                out.tip = true;
            },
            MenuAction::DelRule(i) => {
                if i < self.devs.len() {
                    let d = &self.devs[i];
                    if let (Some(v), Some(p)) = (&d.vid, &d.pid) {
                        out.writes = st.delete_rule(v.as_str(), p.as_str(), sys);
                        out.save = true;
                    }
                }
                out.close = true;
                out.tip = true;
            },
            MenuAction::Reapply(_) => {
                out.writes = st.reapply(sys);
                out.close = true;
                out.tip = true;
            },
            MenuAction::Exit => {
                out.exit = true;
            },
        }
        out
    }
}

/// The shell around the menu: whether it is open, and the tool tip shown.
#[derive(Debug)]
pub struct Shell {
    pub menu_open: bool,
    /// The open menu has had the focus.
    pub ever_focused: bool,
    pub last_tip: String,
    /// Keep the menu open without the focus, and open it at the start.
    pub debug: bool,
    /// The menu was opened at the start.
    pub debug_opened: bool,
}

/// What happened since the last look.
#[derive(Debug)]
pub struct ShellInput {
    /// Tool tips that came in, in order.
    pub tips: Vec<String>,
    /// The devices changed.
    pub dirty: bool,
    /// The tray icon was clicked.
    pub tray_click: bool,
    pub escape: bool,
    /// Whether the menu has the focus, if that is known.
    pub focused: Option<bool>,
}

/// What is to be done about it.
#[derive(Debug)]
pub struct ShellWork {
    /// Tool tips to set, in order.
    pub tips: Vec<String>,
    /// The change of the devices was taken note of, and the rows are to be
    /// brought up to date.
    pub refresh: bool,
    /// The click of the tray icon was taken note of.
    pub took_click: bool,
    pub open: bool,
    pub close: bool,
}

/// Those of the first `k` texts that differ from the one before them, where
/// `last` is the one before the first.
pub open spec fn news(last: Seq<char>, tips: Seq<Seq<char>>, k: int) -> Seq<Seq<char>>
    decreases k,
{
    if k <= 0 {
        seq![]
    } else {
        let before = if k == 1 {
            last
        } else {
            tips[k - 2]
        };
        if tips[k - 1] == before {
            news(last, tips, k - 1)
        } else {
            news(last, tips, k - 1).push(tips[k - 1])
        }
    }
}

impl Shell {
    /// The menu opens at the start, to look at it without clicking.
    pub open spec fn opens_for_debug(&self) -> bool {
        self.debug && !self.debug_opened
    }

    /// The open menu closes.
    pub open spec fn closes_on(
        &self,
        tray_click: bool,
        escape: bool,
        focused: Option<bool>,
    ) -> bool {
        self.menu_open && !tray_click && (escape || (focused == Some(false) && self.ever_focused
            && !self.debug))
    }

    /// The open menu has had the focus.
    pub open spec fn focused_by(
        &self,
        tray_click: bool,
        escape: bool,
        focused: Option<bool>,
    ) -> bool {
        self.ever_focused || (self.menu_open && !tray_click && !escape && focused == Some(true))
    }

    /// Looks at what happened. Each new tool tip is set; a click of the tray
    /// icon opens the menu; an open menu closes on Escape, and on losing the
    /// focus once it has had it.
    pub fn poll(&mut self, input: &ShellInput) -> (r: ShellWork)
        ensures
            old(self).opens_for_debug() ==> {
                &&& r.open && !r.close && !r.refresh && !r.took_click && r.tips@.len() == 0
                &&& *final(self) == (Shell { debug_opened: true, ..*old(self) })
            },
            !old(self).opens_for_debug() ==> {
                &&& views(r.tips@) == news(
                    old(self).last_tip@,
                    views(input.tips@),
                    input.tips@.len() as int,
                )
                &&& r.refresh == (old(self).menu_open && input.dirty)
                &&& r.open == input.tray_click
                &&& r.took_click == input.tray_click
                &&& r.close == old(self).closes_on(input.tray_click, input.escape, input.focused)
                &&& final(self).ever_focused == old(self).focused_by(
                    input.tray_click,
                    input.escape,
                    input.focused,
                )
                &&& final(self).last_tip@ == (if input.tips@.len() > 0 {
                    input.tips@.last()@
                } else {
                    old(self).last_tip@
                })
                &&& final(self).menu_open == old(self).menu_open
                &&& final(self).debug == old(self).debug
                &&& final(self).debug_opened == old(self).debug_opened
            },
    {
        let mut work = ShellWork {
            tips: Vec::new(),
            refresh: false,
            took_click: false,
            open: false,
            close: false,
        };
        if self.debug && !self.debug_opened {
            self.debug_opened = true;
            work.open = true;
            return work;
        }
        let ghost all = views(input.tips@);
        let ghost last = self.last_tip@;
        assert(views(work.tips@) =~= news(last, all, 0));
        let mut k: usize = 0;
        while k < input.tips.len()
            invariant
                k <= input.tips@.len(),
                all == views(input.tips@),
                views(work.tips@) == news(last, all, k as int),
                self.last_tip@ == (if k == 0 {
                    last
                } else {
                    all[k - 1]
                }),
                self.menu_open == old(self).menu_open,
                self.ever_focused == old(self).ever_focused,
                self.debug == old(self).debug,
                self.debug_opened == old(self).debug_opened,
                !work.refresh && !work.took_click && !work.open && !work.close,
            decreases input.tips@.len() - k,
        {
            assert(all[k as int] == input.tips@[k as int]@);
            if !same_text(input.tips[k].as_str(), self.last_tip.as_str()) {
                let ghost before = views(work.tips@);
                work.tips.push(input.tips[k].clone());
                self.last_tip = input.tips[k].clone();
                assert(views(work.tips@) =~= before.push(all[k as int]));
            }
            k = k + 1;
        }
        work.refresh = self.menu_open && input.dirty;
        if input.tray_click {
            work.took_click = true;
            work.open = true;
            return work;
        }
        if self.menu_open {
            if input.escape {
                work.close = true;
                return work;
            }
            match input.focused {
                Some(true) => {
                    self.ever_focused = true;
                },
                Some(false) => {
                    if self.ever_focused && !self.debug {
                        work.close = true;
                    }
                },
                None => {},
            }
        }
        work
    }

    /// The menu opened: nothing is pointed at, and it has not had the focus.
    pub fn opened(&mut self, model: &mut MenuModel, speed: u32, autostart_on: bool)
        ensures
            *final(self) == (Shell { menu_open: true, ever_focused: false, ..*old(self) }),
            *final(model) == (MenuModel {
                speed_val: speed,
                autostart_on,
                sub_hover: None,
                sub_pointer_inside: false,
                ..*old(model)
            }),
    {
        model.speed_val = speed;
        model.autostart_on = autostart_on;
        model.sub_hover = None;
        model.sub_pointer_inside = false;
        self.ever_focused = false;
        self.menu_open = true;
    }

    /// The menu closed.
    pub fn closed(&mut self, model: &mut MenuModel)
        ensures
            *final(self) == (Shell { menu_open: false, ..*old(self) }),
            *final(model) == (MenuModel {
                sub_hover: None,
                sub_pointer_inside: false,
                ..*old(model)
            }),
    {
        self.menu_open = false;
        model.sub_hover = None;
        model.sub_pointer_inside = false;
    }
}

/// A device without both ids is offered nothing; one with both can have its rule
/// stored and applied, and deleted just where it has one. Choosing what is
/// offered asks for that, for that device, and for nothing else; choosing what is
/// greyed out asks for nothing.
pub proof fn law_submenu_does_what_it_offers(devs: Seq<DevRow>, idx: usize, slot: usize)
    requires
        idx < devs.len(),
    ensures
        ({
            let d = devs[idx as int];
            let asked = submenu_actions(devs, idx, Some(slot));
            let ids = d.vid is Some && d.pid is Some;
            &&& !ids ==> asked.len() == 0
            &&& ids && slot == 0 ==> asked == seq![MenuAction::SetRule(idx)]
            &&& ids && slot == 1 ==> asked == (if d.rule_speed is Some {
                seq![MenuAction::DelRule(idx)]
            } else {
                seq![]
            })
            &&& ids && slot == 2 ==> asked == seq![MenuAction::Reapply(idx)]
            &&& slot > 2 ==> asked.len() == 0
            &&& submenu_actions(devs, idx, None).len() == 0
            &&& forall|s: int| 0 <= s < 3 && !ids ==> !#[trigger] d.offers(s)
        }),
{
}

/// A device that is not there is offered nothing.
pub proof fn law_submenu_of_no_device(devs: Seq<DevRow>, idx: usize, clicked: Option<usize>)
    requires
        idx >= devs.len(),
    ensures
        submenu_actions(devs, idx, clicked).len() == 0,
{
}

/// The row of a device shows the rule of that device. A row without a rule is
/// never shown as in force, nor is any while the global settings are; the row of
/// the device switched to is.
pub proof fn law_row_shows_its_device(row: DevRow, d: Device, m: StateModel)
    requires
        is_row_of(row, d, m),
        m.wf(),
    ensures
        row.name@ == d.name@,
        view_opt(row.vid) == view_opt(d.vid),
        view_opt(row.pid) == view_opt(d.pid),
        row.rule_speed is Some <==> rule_of(m.cfg.rules@, d) is Some,
        row.rule_speed matches Some(v) ==> v == rule_of(m.cfg.rules@, d)->0.speed,
        row.is_effective ==> row.rule_speed is Some && !m.global_active(),
        m.effective() matches Some(k) ==> (m.active[k].1 == d ==> row.is_effective),
{
    lemma_effective(m);
}

/// The tool tip begins with the pointer speed, and behind it stands the rule in
/// force, if there is one; other values make another tip.
pub proof fn law_tip_shows_the_values(cur: u32, name: Seq<char>, sp: u32, other: u32)
    ensures
        ({
            let plain = tip(cur, None);
            let ruled = tip(cur, Some((name, sp)));
            &&& plain.len() >= dec(cur as nat).len()
            &&& plain.skip(plain.len() - dec(cur as nat).len()) == dec(cur as nat)
            &&& ruled.len() > plain.len() + name.len()
            &&& ruled.take(plain.len() as int) == plain
            &&& ruled == tip(cur, Some((name, other))) ==> sp == other
            &&& plain == tip(other, None) ==> cur == other
        }),
{
    let head = "鼠标灵敏度切换 - 当前指针速度: "@;
    let lead = " · 生效规则: "@;
    let open = " (速度 "@;
    reveal_strlit(")");
    let c = dec(cur as nat);
    let plain = tip(cur, None);
    let ruled = tip(cur, Some((name, sp)));
    assert(plain.skip(plain.len() - c.len()) =~= c);
    assert(ruled.take(plain.len() as int) =~= plain);
    let ruled2 = tip(cur, Some((name, other)));
    if ruled == ruled2 {
        let at = plain.len() + lead.len() + name.len() + open.len();
        assert(ruled.subrange(at as int, ruled.len() - 1) =~= dec(sp as nat));
        assert(ruled2.subrange(at as int, ruled2.len() - 1) =~= dec(other as nat));
        law_decimal_numerals(sp as nat, other as nat);
    }
    if plain == tip(other, None) {
        let at = head.len() as int;
        assert(plain.skip(at) =~= c);
        assert(tip(other, None).skip(at) =~= dec(other as nat));
        law_decimal_numerals(cur as nat, other as nat);
    }
}

/// A frame asks for a reset just where the button was clicked, for a speed just
/// where the slider was moved, which is that speed within its range, for
/// switching the start just where that row was clicked, and for the exit just
/// where that one was. Nothing else is asked for, so pointing never does.
pub proof fn law_frames_ask_for_what_was_done(input: FrameInput)
    ensures
        ({
            let asked = frame_actions(input);
            &&& asked.contains(MenuAction::ResetSpeed) <==> input.reset_clicked
            &&& asked.contains(MenuAction::ToggleAutostart) <==> input.clicked == Some(
                Target::Autostart,
            )
            &&& asked.contains(MenuAction::Exit) <==> input.clicked == Some(Target::Exit)
            &&& input.slider matches Some(v) ==> asked.contains(
                MenuAction::SetSpeed(slid_to(v as int)),
            )
            &&& asked.len() == (if input.reset_clicked {
                1int
            } else {
                0
            }) + (if input.slider is Some {
                1int
            } else {
                0
            }) + (if input.clicked == Some(Target::Autostart) || input.clicked == Some(
                Target::Exit,
            ) {
                1int
            } else {
                0
            })
        }),
{
    let asked = frame_actions(input);
    if input.reset_clicked {
        assert(asked[0] == MenuAction::ResetSpeed);
    }
    if input.slider is Some {
        let at: int = if input.reset_clicked { 1 } else { 0 };
        assert(asked[at] == MenuAction::SetSpeed(slid_to(input.slider->0 as int)));
    }
    if input.clicked == Some(Target::Autostart) {
        assert(asked[asked.len() - 1] == MenuAction::ToggleAutostart);
    }
    if input.clicked == Some(Target::Exit) {
        assert(asked[asked.len() - 1] == MenuAction::Exit);
    }
}

/// The slider stops at the ends of its range, and in between it is where it was
/// moved to.
pub proof fn law_slider_stops_at_its_ends(v: int)
    ensures
        1 <= slid_to(v) <= 20,
        1 <= v <= 20 ==> slid_to(v) == v,
        v <= 1 ==> slid_to(v) == 1,
        v >= 20 ==> slid_to(v) == 20,
{
}

/// Pointing at a device opens its submenu at its row, whichever was open;
/// pointing elsewhere closes it, unless the pointer is inside it.
pub proof fn law_submenu_follows_the_pointer(
    i: usize,
    inside: bool,
    before: Option<(usize, Dip)>,
)
    ensures
        sub_after(Some(Target::Device(i)), inside, before) matches Some((j, top)) && j == i && top
            == device_row_y(i as int),
        sub_after(None, true, before) == before,
        sub_after(None, false, before) is None,
        sub_after(Some(Target::Exit), inside, before) == sub_after(None, inside, before),
        sub_after(Some(Target::Autostart), inside, before) == sub_after(None, inside, before),
{
}

/// Changing or applying rules closes the menu; setting the speed, switching the
/// start and the exit do not.
pub proof fn law_actions_that_close(i: usize, v: u32)
    ensures
        closes_menu(MenuAction::SetRule(i)) && closes_menu(MenuAction::DelRule(i)) && closes_menu(
            MenuAction::Reapply(i),
        ),
        !closes_menu(MenuAction::SetSpeed(v)) && !closes_menu(MenuAction::ResetSpeed)
            && !closes_menu(MenuAction::ToggleAutostart) && !closes_menu(MenuAction::Exit),
{
}

/// A row is drawn with its text in its middle, which stands out just where the
/// row is highlighted; the highlight covers the row, and a check mark is drawn
/// just where there is one.
pub proof fn law_rows_are_drawn_as_they_are(id: TextId, top: int, lit: bool, checked: bool)
    requires
        0 <= top <= 0x1000_0000,
    ensures
        ({
            let ops = row_ops(id, top, lit, checked);
            &&& ops.len() == 1 + (if lit {
                1int
            } else {
                0
            }) + (if checked {
                1int
            } else {
                0
            })
            &&& ops.last() is Text && ops.last()->id == id
            &&& 2 * ops.last()->Text_cy == 2 * top + ROW_H
            &&& ops.last()->Text_ink == (if lit {
                Ink::OnHighlight
            } else {
                Ink::Normal
            })
            &&& lit ==> ops[0] is Highlight && ops[0]->top == top && ops[0]->bottom == top + ROW_H
            &&& checked ==> ops[ops.len() - 2] is Check && ops[ops.len() - 2]->Check_cy
                == ops.last()->Text_cy && ops[ops.len() - 2]->Check_ink == ops.last()->Text_ink
        }),
{
}

/// Every device row is drawn, in order, highlighted just where the pointer is
/// over it, and marked just where its rule is in force.
pub proof fn law_all_device_rows_are_drawn(
    devs: Seq<DevRow>,
    over: Option<Target>,
    k: int,
    i: int,
)
    requires
        0 <= i < k <= devs.len(),
        devs.len() <= usize::MAX,
    ensures
        ({
            let ops = device_ops(devs, over, k);
            let at = device_ops(devs, over, i).len();
            let mine = row_ops(
                TextId::Device(i as usize),
                device_row_y(i),
                over == Some(Target::Device(i as usize)),
                devs[i].is_effective && devs[i].rule_speed is Some,
            );
            at + mine.len() <= ops.len() && ops.subrange(at as int, (at + mine.len()) as int)
                == mine
        }),
    decreases k,
{
    let ops = device_ops(devs, over, k);
    let before = device_ops(devs, over, k - 1);
    let at = device_ops(devs, over, i).len() as int;
    let mine = row_ops(
        TextId::Device(i as usize),
        device_row_y(i),
        over == Some(Target::Device(i as usize)),
        devs[i].is_effective && devs[i].rule_speed is Some,
    );
    if i < k - 1 {
        law_all_device_rows_are_drawn(devs, over, k - 1, i);
        assert(ops.subrange(at, at + mine.len()) =~= before.subrange(at, at + mine.len()));
    } else {
        assert(ops.subrange(at, at + mine.len()) =~= mine);
    }
}

/// The menu ends with the row of the exit, and the note that there is no device is
/// drawn just where there is none.
pub proof fn law_menu_is_drawn_to_its_end(
    devs: Seq<DevRow>,
    autostart_on: bool,
    over: Option<Target>,
)
    requires
        devs.len() <= 0x1_0000,
    ensures
        ({
            let ops = menu_ops(devs, autostart_on, over);
            &&& ops.len() >= 5
            &&& ops[0] is Separator && ops[2] is Separator
            &&& ops[1] is Text && ops[1]->id == TextId::Effective && ops[1]->Text_ink == Ink::Gray
            &&& devs.len() == 0 ==> ops[3] is Text && ops[3]->id == TextId::NoDevice
            &&& ops.last() is Text && ops.last()->id == TextId::Exit
            &&& ops.last()->Text_ink == (if over == Some(Target::Exit) {
                Ink::OnHighlight
            } else {
                Ink::Normal
            })
        }),
{
}

/// An action of the submenu that cannot be chosen is grey and never highlighted;
/// one that can be chosen is highlighted just while the pointer is over it.
pub proof fn law_greyed_out_actions_stay_grey(slot: int, enabled: bool, over: bool)
    requires
        0 <= slot < 3,
    ensures
        ({
            let ops = slot_ops(slot, enabled, over);
            &&& ops.last() is Text && ops.last()->id == TextId::Action(slot as usize)
            &&& ops.last()->Text_ink == Ink::Gray <==> !enabled
            &&& ops.last()->Text_ink == Ink::OnHighlight <==> enabled && over
            &&& ops.len() == (if enabled && over {
                2int
            } else {
                1
            })
            &&& slot_y(slot) <= ops.last()->Text_cy < slot_y(slot + 1)
            &&& enabled && over ==> ops[0] is Highlight && ops[0]->top == slot_y(slot)
                && ops[0]->bottom == slot_y(slot + 1)
        }),
{
}

/// A tool tip is set only where it differs from the one shown, and in the end the
/// last one that came in is shown.
pub proof fn law_last_tip_is_shown(last: Seq<char>, tips: Seq<Seq<char>>, k: int)
    requires
        0 <= k <= tips.len(),
    ensures
        ({
            let set = news(last, tips, k);
            &&& set.len() <= k
            &&& k > 0 && set.len() > 0 ==> set.last() == tips[k - 1]
            &&& k > 0 && set.len() == 0 ==> tips[k - 1] == last
            &&& set.len() > 0 ==> set[0] != last
            &&& forall|i: int| 0 < i < set.len() ==> #[trigger] set[i] != set[i - 1]
        }),
    decreases k,
{
    if k > 0 {
        law_last_tip_is_shown(last, tips, k - 1);
        let set = news(last, tips, k);
        let before = news(last, tips, k - 1);
        assert forall|i: int| 0 < i < set.len() implies #[trigger] set[i] != set[i - 1] by {
            if i < before.len() {
                assert(set[i] == before[i] && set[i - 1] == before[i - 1]);
            }
        }
    }
}

/// An open menu closes on Escape, and on losing a focus that it has had, but for
/// one kept open to look at it; a click of the tray icon, an unknown focus, and a
/// focus that it never had close nothing, and a closed menu does not close.
pub proof fn law_when_the_menu_closes(
    s: Shell,
    tray_click: bool,
    escape: bool,
    focused: Option<bool>,
)
    ensures
        !s.menu_open || tray_click ==> !s.closes_on(tray_click, escape, focused),
        s.menu_open ==> s.closes_on(false, true, focused),
        !s.closes_on(tray_click, false, None),
        !s.closes_on(tray_click, false, Some(true)),
        s.menu_open && s.ever_focused && !s.debug ==> s.closes_on(false, false, Some(false)),
        !s.ever_focused || s.debug ==> !s.closes_on(tray_click, false, Some(false)),
        s.ever_focused ==> s.focused_by(tray_click, escape, focused),
        s.menu_open ==> s.focused_by(false, false, Some(true)),
        s.focused_by(tray_click, escape, None) == s.ever_focused,
        s.focused_by(tray_click, escape, Some(false)) == s.ever_focused,
        !s.menu_open ==> s.focused_by(tray_click, escape, focused) == s.ever_focused,
{
}

/// The menu is opened at the start just once, and only to look at it.
pub proof fn law_opened_at_the_start_once(s: Shell)
    ensures
        s.opens_for_debug() ==> s.debug,
        !(Shell { debug_opened: true, ..s }).opens_for_debug(),
        s.debug ==> (Shell { debug_opened: false, ..s }).opens_for_debug(),
{
}

/// A separator lies in the middle of the gap between two groups.
pub proof fn law_separators_lie_in_the_middle(y: int)
    requires
        0 <= y <= 0x1000_0000,
    ensures
        separator(y) is Separator,
        2 * (separator(y)->y - y) == SEP_H,
{
}

/// An action on a device is done just where the device is there and has both ids.
pub proof fn law_rules_need_both_ids(m: MenuModel, i: usize)
    ensures
        m.ids_at(i) is Some <==> i < m.devs@.len() && m.devs@[i as int].vid is Some
            && m.devs@[i as int].pid is Some,
        m.ids_at(i) matches Some((v, p)) ==> m.devs@[i as int].vid == Some(v)
            && m.devs@[i as int].pid == Some(p),
{
}

} // verus!

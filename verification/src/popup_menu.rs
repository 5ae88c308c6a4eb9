//! The popup menu that opens at the tray icon: a speed slider above a list of
//! items. Everything is in physical pixels.

use crate::commands::{command_of, decode, Command, IDM_AUTOSTART};
use crate::menu_model::{show_id, shown_id};
use crate::place::ScreenRect;
use crate::search::{first_where, is_first, lemma_first_is, lemma_first_where};
use crate::speed::{SpeedWrite, clamp_speed, valid_speed, SPEED_DEFAULT};
use crate::text::{dec, law_decimal_numerals, push_dec, view_opt};
use vstd::prelude::*;
use vstd::string::StringExecFns;

verus! {

/// Width of the menu at 96 dots per inch, as all sizes here.
pub const WIN_W: i32 = 320;

/// Height of the title above the slider.
pub const HDR_H: i32 = 34;

/// Height of the slider.
pub const TBAR_H: i32 = 34;

/// Height of an item.
pub const ROW_H: i32 = 26;

/// Height of a separator.
pub const SEP_H: i32 = 9;

/// Margin at the left and right.
pub const PAD_X: i32 = 8;

/// Height of the gap between the slider and the items.
pub const DIVIDER_H: i32 = 4;

/// What kind of line an item is.
#[derive(Debug, Clone, Copy, PartialEq, Eq, Structural)]
pub enum ItemKind {
    /// The title of a device: pointing at it expands the device.
    DeviceTitle,
    /// Information only.
    Info,
    /// A command; greyed out unless enabled.
    Action { cmd: u32, enabled: bool },
    /// A command that switches something on or off.
    Checkable { cmd: u32, checked: bool },
    Separator,
}

/// One line of the menu.
#[derive(Debug)]
pub struct Item {
    pub kind: ItemKind,
    pub text: String,
    /// Top of the line.
    pub y: i32,
    /// Height of the line.
    pub h: i32,
    /// The device that a title is for.
    pub device_idx: usize,
    /// The line has a check mark.
    pub checked: bool,
}

/// What a line means, apart from where it is.
pub struct Line {
    pub kind: ItemKind,
    pub text: Seq<char>,
    pub device_idx: int,
    pub checked: bool,
}

impl View for Item {
    type V = Line;

    open spec fn view(&self) -> Line {
        Line {
            kind: self.kind,
            text: self.text@,
            device_idx: self.device_idx as int,
            checked: self.checked,
        }
    }
}

/// A line without device or check mark.
pub open spec fn plain_line(kind: ItemKind, text: Seq<char>) -> Line {
    Line { kind, text, device_idx: 0, checked: false }
}

/// The lines of a list of items.
pub open spec fn lines(items: Seq<Item>) -> Seq<Line> {
    items.map_values(|it: Item| it@)
}

/// A line of this kind reacts to the pointer.
pub open spec fn is_clickable(kind: ItemKind) -> bool {
    match kind {
        ItemKind::DeviceTitle => true,
        ItemKind::Action { enabled, .. } => enabled,
        ItemKind::Checkable { .. } => true,
        _ => false,
    }
}

impl Item {
    fn new(kind: ItemKind, text: String) -> (r: Item)
        ensures
            r@ == plain_line(kind, text@),
            r.y == 0,
            r.h == 0,
    {
        Item { kind, text, y: 0, h: 0, device_idx: 0, checked: false }
    }

    /// Whether the line reacts to the pointer. A device title does: it expands,
    /// though clicking it runs no command.
    pub fn clickable(&self) -> (r: bool)
        ensures
            r == is_clickable(self.kind),
    {
        match self.kind {
            ItemKind::DeviceTitle => true,
            ItemKind::Action { enabled, .. } => enabled,
            ItemKind::Checkable { .. } => true,
            _ => false,
        }
    }

    /// The command of the line.
    pub fn cmd(&self) -> (r: Option<u32>)
        ensures
            r == kind_cmd(self.kind),
    {
        match self.kind {
            ItemKind::Action { cmd, .. } => Some(cmd),
            ItemKind::Checkable { cmd, .. } => Some(cmd),
            _ => None,
        }
    }

    /// The device of a title.
    pub fn device_index(&self) -> (r: Option<usize>)
        ensures
            r == (if self.kind == ItemKind::DeviceTitle {
                Some(self.device_idx)
            } else {
                None
            }),
    {
        match self.kind {
            ItemKind::DeviceTitle => Some(self.device_idx),
            _ => None,
        }
    }

    /// Height `y` is on the line, and the line reacts to the pointer.
    pub open spec fn reacts_at(self, y: i32) -> bool {
        self.y <= y < self.y + self.h && is_clickable(self.kind)
    }
}

/// A device in the menu.
#[derive(Debug)]
pub struct DevMenu {
    pub name: String,
    pub vid: Option<String>,
    pub pid: Option<String>,
    /// The speed of the device's rule; `None` without a rule.
    pub rule_speed: Option<u32>,
    /// The device's rule is in force.
    pub is_effective: bool,
    /// The commands that store, delete and apply the rule.
    pub cmds: [u32; 3],
}

/// What stands above and below the devices.
#[derive(Debug)]
pub struct MenuHeader {
    /// The line that names the rule in force when several devices have one.
    pub effective_text: Option<String>,
    pub autostart_on: bool,
}

/// The text of a device's title: its name and ids, and its rule.
pub open spec fn title_text(d: DevMenu) -> Seq<char> {
    let base = d.name@ + "  ["@ + shown_id(d.vid) + ":"@ + shown_id(d.pid) + "]"@;
    match d.rule_speed {
        Some(sp) => {
            let ruled = base + "  · 规则 "@ + dec(sp as nat);
            if d.is_effective {
                ruled + "  ✓生效中"@
            } else {
                ruled
            }
        },
        None => base,
    }
}

/// The line of a device's title.
pub open spec fn title_line(d: DevMenu, i: int) -> Line {
    Line {
        kind: ItemKind::DeviceTitle,
        text: title_text(d),
        device_idx: i,
        checked: d.is_effective && d.rule_speed is Some,
    }
}

/// The lines of an expanded device: its ids and what can be done with its rule.
pub open spec fn detail_lines(d: DevMenu) -> Seq<Line> {
    let ids = d.vid is Some && d.pid is Some;
    seq![
        plain_line(ItemKind::Info, "VID:"@ + shown_id(d.vid) + "  PID:"@ + shown_id(d.pid)),
        plain_line(ItemKind::Action { cmd: d.cmds@[0], enabled: ids }, "用当前速度保存规则"@),
        plain_line(
            ItemKind::Action { cmd: d.cmds@[1], enabled: ids && d.rule_speed is Some },
            "删除此设备规则"@,
        ),
        plain_line(ItemKind::Action { cmd: d.cmds@[2], enabled: ids }, "重新应用规则"@),
    ]
}

/// The line between two groups.
pub open spec fn separator_line() -> Line {
    plain_line(ItemKind::Separator, ""@)
}

/// All lines of one device.
pub open spec fn device_lines(d: DevMenu, i: int, expanded: bool) -> Seq<Line> {
    let title = seq![title_line(d, i)];
    if expanded {
        title + detail_lines(d) + seq![separator_line()]
    } else {
        title + seq![separator_line()]
    }
}

/// The device at `i` is the expanded one.
pub open spec fn is_expanded(expanded: Option<usize>, i: int) -> bool {
    expanded is Some && expanded->0 == i
}

/// The lines of the first `k` devices.
pub open spec fn devices_lines(devs: Seq<DevMenu>, expanded: Option<usize>, k: int) -> Seq<Line>
    decreases k,
{
    if k <= 0 {
        seq![]
    } else {
        devices_lines(devs, expanded, k - 1) + device_lines(
            devs[k - 1],
            k - 1,
            is_expanded(expanded, k - 1),
        )
    }
}

/// The lines above the devices.
pub open spec fn top_lines(no_devs: bool, effective_text: Option<Seq<char>>) -> Seq<Line> {
    let head = match effective_text {
        Some(t) => seq![plain_line(ItemKind::Info, t), separator_line()],
        None => seq![],
    };
    let none = if no_devs {
        seq![plain_line(ItemKind::Info, "未检测到鼠标设备"@), separator_line()]
    } else {
        seq![]
    };
    head + none
}

/// The last line: whether the tool starts with the system.
pub open spec fn autostart_line(on: bool) -> Line {
    Line {
        kind: ItemKind::Checkable { cmd: IDM_AUTOSTART, checked: on },
        text: "开机自启"@,
        device_idx: 0,
        checked: on,
    }
}

/// All lines of the menu.
pub open spec fn menu_lines(
    devs: Seq<DevMenu>,
    expanded: Option<usize>,
    header: MenuHeader,
) -> Seq<Line> {
    top_lines(devs.len() == 0, view_opt(header.effective_text)) + devices_lines(
        devs,
        expanded,
        devs.len() as int,
    ) + seq![autostart_line(header.autostart_on)]
}

/// No item has a place yet.
pub open spec fn unplaced(items: Seq<Item>) -> bool {
    forall|i: int| 0 <= i < items.len() ==> (#[trigger] items[i]).y == 0 && items[i].h == 0
}

/// Without both ids, nothing can be done with a device's rule; without a rule,
/// it cannot be deleted.
pub proof fn law_what_cannot_be_done_is_greyed_out(d: DevMenu, i: int)
    requires
        0 <= i < detail_lines(d).len(),
    ensures
        d.vid is None || d.pid is None ==> !is_clickable(detail_lines(d)[i].kind),
        d.rule_speed is None ==> !is_clickable(detail_lines(d)[2].kind),
{
}

fn push_item(items: &mut Vec<Item>, it: Item)
    requires
        unplaced(old(items)@),
        it.y == 0,
        it.h == 0,
    ensures
        final(items)@ == old(items)@.push(it),
        unplaced(final(items)@),
        lines(final(items)@) == lines(old(items)@).push(it@),
{
    items.push(it);
    assert(lines(items@) =~= lines(old(items)@).push(it@));
}

fn device_title(d: &DevMenu, i: usize) -> (r: Item)
    ensures
        r@ == title_line(*d, i as int),
        r.y == 0,
        r.h == 0,
{
    let mut text = d.name.clone();
    text.append("  [");
    text.append(show_id(&d.vid).as_str());
    text.append(":");
    text.append(show_id(&d.pid).as_str());
    text.append("]");
    if let Some(sp) = d.rule_speed {
        text.append("  · 规则 ");
        push_dec(&mut text, sp);
        if d.is_effective {
            text.append("  ✓生效中");
        }
    }
    Item {
        kind: ItemKind::DeviceTitle,
        text,
        y: 0,
        h: 0,
        device_idx: i,
        checked: d.is_effective && d.rule_speed.is_some(),
    }
}

fn push_details(items: &mut Vec<Item>, d: &DevMenu)
    requires
        unplaced(old(items)@),
    ensures
        unplaced(final(items)@),
        lines(final(items)@) == lines(old(items)@) + detail_lines(*d),
        final(items)@.len() == old(items)@.len() + 4,
{
    let mut info = "VID:".to_owned();
    info.append(show_id(&d.vid).as_str());
    info.append("  PID:");
    info.append(show_id(&d.pid).as_str());
    push_item(items, Item::new(ItemKind::Info, info));
    let ids = d.vid.is_some() && d.pid.is_some();
    push_item(
        items,
        Item::new(
            ItemKind::Action { cmd: d.cmds[0], enabled: ids },
            "用当前速度保存规则".to_owned(),
        ),
    );
    push_item(
        items,
        Item::new(
            ItemKind::Action { cmd: d.cmds[1], enabled: ids && d.rule_speed.is_some() },
            "删除此设备规则".to_owned(),
        ),
    );
    push_item(
        items,
        Item::new(
            ItemKind::Action { cmd: d.cmds[2], enabled: ids },
            "重新应用规则".to_owned(),
        ),
    );
    assert(lines(items@) =~= lines(old(items)@) + detail_lines(*d));
}

/// The items of the menu, not yet laid out. Only the expanded device shows more
/// than its title.
pub fn build_items(
    devs: &Vec<DevMenu>,
    expanded_device: Option<usize>,
    header: &MenuHeader,
) -> (r: Vec<Item>)
    ensures
        lines(r@) == menu_lines(devs@, expanded_device, *header),
        unplaced(r@),
        r@.len() <= 5 + 6 * devs@.len(),
{
    let mut items: Vec<Item> = Vec::new();
    if let Some(t) = &header.effective_text {
        push_item(&mut items, Item::new(ItemKind::Info, t.clone()));
        push_item(&mut items, Item::new(ItemKind::Separator, "".to_owned()));
    }
    if devs.len() == 0 {
        push_item(&mut items, Item::new(ItemKind::Info, "未检测到鼠标设备".to_owned()));
        push_item(&mut items, Item::new(ItemKind::Separator, "".to_owned()));
    }
    let ghost top = top_lines(devs@.len() == 0, view_opt(header.effective_text));
    assert(lines(items@) =~= top + devices_lines(devs@, expanded_device, 0));
    for i in 0..devs.len()
        invariant
            lines(items@) == top + devices_lines(devs@, expanded_device, i as int),
            unplaced(items@),
            items@.len() <= 4 + 6 * i,
    {
        let d = &devs[i];
        let ghost before = lines(items@);
        push_item(&mut items, device_title(d, i));
        if expanded_device.is_some() && expanded_device.unwrap() == i {
            push_details(&mut items, d);
        }
        push_item(&mut items, Item::new(ItemKind::Separator, "".to_owned()));
        proof {
            assert(lines(items@) =~= before + device_lines(
                *d,
                i as int,
                is_expanded(expanded_device, i as int),
            ));
            assert(lines(items@) =~= top + devices_lines(devs@, expanded_device, i + 1));
        }
    }
    push_item(
        &mut items,
        Item {
            kind: ItemKind::Checkable { cmd: IDM_AUTOSTART, checked: header.autostart_on },
            text: "开机自启".to_owned(),
            y: 0,
            h: 0,
            device_idx: 0,
            checked: header.autostart_on,
        },
    );
    assert(lines(items@) =~= menu_lines(devs@, expanded_device, *header));
    items
}

/// The height of a line.
pub open spec fn line_h(kind: ItemKind, row_h: i32, sep_h: i32) -> int {
    if kind == ItemKind::Separator {
        sep_h as int
    } else {
        row_h as int
    }
}

/// Where line `k` begins when the first one begins at `y0`: below all the
/// lines before it.
pub open spec fn line_top(items: Seq<Line>, y0: int, row_h: i32, sep_h: i32, k: int) -> int
    decreases k,
{
    if k <= 0 {
        y0
    } else {
        line_top(items, y0, row_h, sep_h, k - 1) + line_h(items[k - 1].kind, row_h, sep_h)
    }
}

/// The items are laid out from `y0` on, one below the other.
pub open spec fn laid_out(items: Seq<Item>, y0: int, row_h: i32, sep_h: i32) -> bool {
    forall|i: int|
        0 <= i < items.len() ==> {
            &&& (#[trigger] items[i]).y == line_top(lines(items), y0, row_h, sep_h, i)
            &&& items[i].h == line_h(items[i].kind, row_h, sep_h)
        }
}

/// Lays the items out from `y0` on, one below the other; returns where the
/// last one ends.
pub fn layout_items(items: &mut Vec<Item>, y0: i32, row_h: i32, sep_h: i32) -> (r: i32)
    requires
        forall|k: int|
            0 <= k <= old(items)@.len() ==> i32::MIN <= #[trigger] line_top(
                lines(old(items)@),
                y0 as int,
                row_h,
                sep_h,
                k,
            ) <= i32::MAX,
    ensures
        lines(final(items)@) == lines(old(items)@),
        laid_out(final(items)@, y0 as int, row_h, sep_h),
        r == line_top(
            lines(old(items)@),
            y0 as int,
            row_h,
            sep_h,
            old(items)@.len() as int,
        ),
{
    let ghost all = lines(items@);
    let mut y: i32 = y0;
    let mut i: usize = 0;
    while i < items.len()
        invariant
            i <= items@.len(),
            items@.len() == all.len(),
            lines(items@) == all,
            y == line_top(all, y0 as int, row_h, sep_h, i as int),
            forall|k: int|
                0 <= k <= all.len() ==> i32::MIN <= #[trigger] line_top(
                    all,
                    y0 as int,
                    row_h,
                    sep_h,
                    k,
                ) <= i32::MAX,
            forall|j: int|
                0 <= j < i ==> {
                    &&& (#[trigger] items@[j]).y == line_top(all, y0 as int, row_h, sep_h, j)
                    &&& items@[j].h == line_h(items@[j].kind, row_h, sep_h)
                },
        decreases items@.len() - i,
    {
        let ghost before = items@;
        assert(all[i as int] == before[i as int]@);
        let h: i32 = match items[i].kind {
            ItemKind::Separator => sep_h,
            _ => row_h,
        };
        let it = &mut items[i];
        it.y = y;
        it.h = h;
        proof {
            assert(line_top(all, y0 as int, row_h, sep_h, i + 1) == y + h);
            assert(lines(items@) =~= all);
        }
        y = y + h;
        i = i + 1;
    }
    y
}

/// The item at height `y` that reacts to the pointer.
pub fn hit_test(items: &Vec<Item>, y: i32) -> (r: Option<usize>)
    ensures
        match first_where(items@, |it: Item| it.reacts_at(y)) {
            Some(i) => r is Some && r->0 == i && is_first(
                items@,
                |it: Item| it.reacts_at(y),
                i,
            ),
            None => r is None && forall|j: int|
                0 <= j < items@.len() ==> !(#[trigger] items@[j]).reacts_at(y),
        },
{
    let ghost p = |it: Item| it.reacts_at(y);
    let mut i: usize = 0;
    while i < items.len()
        invariant
            i <= items@.len(),
            p == (|it: Item| it.reacts_at(y)),
            forall|j: int| 0 <= j < i ==> !p(#[trigger] items@[j]),
        decreases items@.len() - i,
    {
        let it = &items[i];
        if y >= it.y && (y as i64) < it.y as i64 + it.h as i64 && it.clickable() {
            proof {
                lemma_first_is(items@, p, i as int);
            }
            return Some(i);
        }
        i = i + 1;
    }
    proof {
        lemma_first_where(items@, p);
        assert forall|j: int| 0 <= j < items@.len() implies !(#[trigger] items@[j]).reacts_at(
            y,
        ) by {
            assert(!p(items@[j]));
        }
    }
    None
}


proof fn lemma_line_top(items: Seq<Line>, y0: int, row_h: i32, sep_h: i32, most: int, k: int)
    requires
        0 <= k,
        0 <= row_h <= most,
        0 <= sep_h <= most,
    ensures
        y0 <= line_top(items, y0, row_h, sep_h, k) <= y0 + k * most,
    decreases k,
{
    if k > 0 {
        lemma_line_top(items, y0, row_h, sep_h, most, k - 1);
        assert((k - 1) * most + most == k * most) by (nonlinear_arith);
    } else {
        assert(k * most == 0) by (nonlinear_arith)
            requires
                k == 0,
        ;
    }
}

proof fn lemma_line_top_grows(items: Seq<Line>, y0: int, row_h: i32, sep_h: i32, i: int, j: int)
    requires
        0 <= i <= j,
        0 <= row_h,
        0 <= sep_h,
    ensures
        line_top(items, y0, row_h, sep_h, i) <= line_top(items, y0, row_h, sep_h, j),
    decreases j,
{
    if i < j {
        lemma_line_top_grows(items, y0, row_h, sep_h, i, j - 1);
    }
}

/// How many of the first `k` lines are separators.
pub open spec fn separators(items: Seq<Line>, k: int) -> int
    decreases k,
{
    if k <= 0 {
        0
    } else {
        separators(items, k - 1) + (if items[k - 1].kind == ItemKind::Separator {
            1int
        } else {
            0
        })
    }
}

/// The layout is as high as all its lines together.
pub proof fn law_layout_adds_up(items: Seq<Line>, y0: int, row_h: i32, sep_h: i32, k: int)
    requires
        0 <= k <= items.len(),
    ensures
        line_top(items, y0, row_h, sep_h, k) == y0 + (k - separators(items, k)) * row_h
            + separators(items, k) * sep_h,
    decreases k,
{
    if k > 0 {
        law_layout_adds_up(items, y0, row_h, sep_h, k - 1);
        let s = separators(items, k - 1);
        assert((k - 1 - s) * row_h + row_h == (k - s) * row_h) by (nonlinear_arith);
        assert(s * sep_h + sep_h == (s + 1) * sep_h) by (nonlinear_arith);
    } else {
        assert(separators(items, 0) == 0);
        assert((k - 0) * row_h + 0 * sep_h == 0) by (nonlinear_arith)
            requires
                k == 0,
        ;
    }
}

/// In a laid out menu, pointing at a line that reacts finds that line, and
/// pointing at one that does not finds none.
pub proof fn law_pointing_finds_the_line(
    items: Seq<Item>,
    y0: int,
    row_h: i32,
    sep_h: i32,
    i: int,
    y: i32,
)
    requires
        laid_out(items, y0, row_h, sep_h),
        0 <= row_h,
        0 <= sep_h,
        0 <= i < items.len(),
        items[i].y <= y < items[i].y + items[i].h,
    ensures
        first_where(items, |it: Item| it.reacts_at(y)) == (if is_clickable(items[i].kind) {
            Some(i)
        } else {
            None
        }),
{
    let p = |it: Item| it.reacts_at(y);
    let all = lines(items);
    assert forall|j: int| 0 <= j < items.len() && j != i implies !p(#[trigger] items[j]) by {
        assert(all[j] == items[j]@ && all[i] == items[i]@);
        if j < i {
            lemma_line_top_grows(all, y0, row_h, sep_h, j + 1, i);
        } else {
            lemma_line_top_grows(all, y0, row_h, sep_h, i + 1, j);
        }
    }
    lemma_first_where(items, p);
    if is_clickable(items[i].kind) {
        lemma_first_is(items, p, i);
    }
}

/// A size at `dpi` dots per inch, rounded to the nearest pixel.
pub open spec fn px(v: int, dpi: int) -> int {
    (v * dpi + 48) / 96
}

/// A size at `dpi` dots per inch, rounded to the nearest pixel.
pub fn scale(v: i32, dpi: u32) -> (r: i32)
    requires
        0 <= v,
        v * dpi + 48 <= i32::MAX,
    ensures
        r == px(v as int, dpi as int),
        0 <= r,
{
    assert(0 <= v * dpi) by (nonlinear_arith)
        requires
            0 <= v,
            0 <= dpi,
    ;
    ((v as i64 * dpi as i64 + 48) / 96) as i32
}

/// The command closes the menu: the exit and the commands of devices do.
pub open spec fn closes(cmd: u32) -> bool {
    command_of(cmd) is Exit || command_of(cmd) is Device
}

/// What a click of the tray icon does.
#[derive(Debug, Clone, Copy, PartialEq, Eq, Structural)]
pub enum PopupClick {
    Open,
    /// The menu is open already.
    BringToFront,
}

/// What a click of the tray icon does: an open menu only comes to the front.
pub fn on_tray_click(open: bool) -> (r: PopupClick)
    ensures
        r == (if open {
            PopupClick::BringToFront
        } else {
            PopupClick::Open
        }),
{
    if open {
        PopupClick::BringToFront
    } else {
        PopupClick::Open
    }
}

/// How long after opening the menu ignores losing the focus, in milliseconds.
pub const ACTIVATE_GRACE_MS: u64 = 500;

/// Losing the focus at `now_ms` closes a menu that opened at `created_ms`.
pub open spec fn past_grace(created_ms: int, now_ms: int) -> bool {
    now_ms - created_ms > ACTIVATE_GRACE_MS
}

/// The command that a click on a line of this kind runs.
pub open spec fn kind_cmd(kind: ItemKind) -> Option<u32> {
    match kind {
        ItemKind::Action { cmd, .. } => Some(cmd),
        ItemKind::Checkable { cmd, .. } => Some(cmd),
        _ => None,
    }
}

/// The state of an open menu.
#[derive(Debug)]
pub struct MenuState {
    pub items: Vec<Item>,
    pub devs: Vec<DevMenu>,
    pub header: MenuHeader,
    /// Height of the slider above the items.
    pub slider_zone: i32,
    pub row_h: i32,
    pub sep_h: i32,
    /// The device that is expanded.
    pub expanded_device: Option<usize>,
    /// The item under the pointer.
    pub hover: Option<usize>,
    /// When the menu was opened, in milliseconds.
    pub created_ms: u64,
    /// The title above the slider.
    pub speed_label: String,
}

/// Where and how large a new menu is.
#[derive(Debug, Clone, Copy, PartialEq, Eq, Structural)]
pub struct Placement {
    pub x: i32,
    pub y: i32,
    pub w: i32,
    pub h: i32,
}

/// What is left to do after the pointer moved.
#[derive(Debug)]
pub struct MoveOutcome {
    /// Ask to be told when the pointer leaves.
    pub track_leave: bool,
    /// Tops and bottoms of the rows to draw anew.
    pub redraw: Vec<(i32, i32)>,
    /// The whole menu is to be drawn anew.
    pub redraw_all: bool,
    /// The new height of the window, when it changed.
    pub resize: Option<i32>,
}

/// One stroke of drawing the menu.
#[derive(Debug, Clone, Copy, PartialEq, Eq, Structural)]
pub enum PopupOp {
    /// The title above the slider, in the text colour.
    Title { left: i64, top: i64, right: i64, bottom: i64 },
    /// A separator line.
    Line { left: i64, right: i64, y: i64 },
    /// The highlight behind an item.
    Fill { top: i64, bottom: i64 },
    /// A check mark, through three points.
    Check { x0: i64, y0: i64, x1: i64, y1: i64, x2: i64, y2: i64 },
    /// The text of an item.
    Text { item: usize, left: i64, top: i64, right: i64, bottom: i64, ink: PopupInk },
}

/// The colour of a text.
#[derive(Debug, Clone, Copy, PartialEq, Eq, Structural)]
pub enum PopupInk {
    Normal,
    Gray,
    Highlighted,
}

/// The check mark at the right of the row from `top` to `bottom`.
pub open spec fn check_op(top: int, bottom: int, right: int, check_w: int, pad: int) -> PopupOp {
    let cx = right - check_w / 2 - pad / 2;
    let cy = (top + bottom) / 2;
    let u = check_w / 4;
    PopupOp::Check {
        x0: (cx - u) as i64,
        y0: cy as i64,
        x1: (cx - u / 3) as i64,
        y1: (cy + u) as i64,
        x2: (cx + u) as i64,
        y2: (cy - u) as i64,
    }
}

/// How one item is drawn in a window `right` pixels wide: a separator as a line
/// through its middle; another item as its highlight, its check mark and its
/// text, which is indented unless it is a title.
pub open spec fn item_ops(it: Item, i: int, hovered: bool, right: int, dpi: int) -> Seq<PopupOp> {
    let pad = px(PAD_X as int, dpi);
    let indent = px(14, dpi);
    let check_w = px(16, dpi);
    let bottom = it.y + it.h;
    if it.kind == ItemKind::Separator {
        seq![
            PopupOp::Line {
                left: pad as i64,
                right: (right - pad) as i64,
                y: (it.y + it.h / 2) as i64,
            },
        ]
    } else {
        let lit = hovered && is_clickable(it.kind);
        let fill = if lit {
            seq![PopupOp::Fill { top: it.y as i64, bottom: bottom as i64 }]
        } else {
            seq![]
        };
        let check = if it.checked {
            seq![check_op(it.y as int, bottom, right, check_w, pad)]
        } else {
            seq![]
        };
        let text = PopupOp::Text {
            item: i as usize,
            left: (pad + (if it.kind == ItemKind::DeviceTitle {
                0
            } else {
                indent
            })) as i64,
            top: it.y as i64,
            right: (right - (pad + check_w)) as i64,
            bottom: bottom as i64,
            ink: if lit {
                PopupInk::Highlighted
            } else if !is_clickable(it.kind) {
                PopupInk::Gray
            } else {
                PopupInk::Normal
            },
        };
        fill + check + seq![text]
    }
}

/// How the first `k` items are drawn.
pub open spec fn items_ops(
    items: Seq<Item>,
    hover: Option<usize>,
    right: int,
    dpi: int,
    k: int,
) -> Seq<PopupOp>
    decreases k,
{
    if k <= 0 {
        seq![]
    } else {
        items_ops(items, hover, right, dpi, k - 1) + item_ops(
            items[k - 1],
            k - 1,
            hover is Some && hover->0 == k - 1,
            right,
            dpi,
        )
    }
}

/// How the title is drawn; an empty one is not.
pub open spec fn title_ops(label: Seq<char>, right: int, dpi: int) -> Seq<PopupOp> {
    if label.len() == 0 {
        seq![]
    } else {
        seq![
            PopupOp::Title {
                left: px(PAD_X as int, dpi) as i64,
                top: px(4, dpi) as i64,
                right: (right - px(110, dpi)) as i64,
                bottom: (px(4, dpi) + px(16, dpi)) as i64,
            },
        ]
    }
}

/// The title above the slider.
pub open spec fn speed_title(v: u32) -> Seq<char> {
    "指针速度: "@ + dec(v as nat)
}

fn speed_title_text(v: u32) -> (r: String)
    ensures
        r@ == speed_title(v),
{
    let mut s = "指针速度: ".to_owned();
    push_dec(&mut s, v);
    s
}

/// Both heights together can be at most this for a menu of `n_devs` devices.
pub open spec fn tallest(n_devs: int, slider_zone: int, row_h: int, sep_h: int) -> int {
    slider_zone + (5 + 6 * n_devs) * (if row_h < sep_h {
        sep_h
    } else {
        row_h
    })
}

/// The height of a menu with all devices collapsed.
pub open spec fn collapsed_h(devs: Seq<DevMenu>, header: MenuHeader, dpi: int) -> int {
    let all = menu_lines(devs, None, header);
    line_top(
        all,
        px(HDR_H + TBAR_H + DIVIDER_H, dpi),
        px(ROW_H as int, dpi) as i32,
        px(SEP_H as int, dpi) as i32,
        all.len() as int,
    ) + px(4, dpi)
}

fn laid_out_items(
    devs: &Vec<DevMenu>,
    expanded: Option<usize>,
    header: &MenuHeader,
    slider_zone: i32,
    row_h: i32,
    sep_h: i32,
) -> (r: (Vec<Item>, i32))
    requires
        0 <= slider_zone,
        0 <= row_h,
        0 <= sep_h,
        tallest(devs@.len() as int, slider_zone as int, row_h as int, sep_h as int) <= i32::MAX,
    ensures
        lines(r.0@) == menu_lines(devs@, expanded, *header),
        laid_out(r.0@, slider_zone as int, row_h, sep_h),
        r.1 == line_top(lines(r.0@), slider_zone as int, row_h, sep_h, r.0@.len() as int),
        slider_zone <= r.1 <= tallest(
            devs@.len() as int,
            slider_zone as int,
            row_h as int,
            sep_h as int,
        ),
{
    let mut items = build_items(devs, expanded, header);
    proof {
        let most: int = if row_h < sep_h { sep_h as int } else { row_h as int };
        let n = 5 + 6 * devs@.len();
        assert forall|k: int| 0 <= k <= items@.len() implies slider_zone
            <= #[trigger] line_top(lines(items@), slider_zone as int, row_h, sep_h, k)
            <= slider_zone + n * most by {
            lemma_line_top(lines(items@), slider_zone as int, row_h, sep_h, most, k);
            assert(k * most <= n * most) by (nonlinear_arith)
                requires
                    0 <= k <= n,
                    0 <= most,
            ;
        }
    }
    let bottom: i32 = layout_items(&mut items, slider_zone, row_h, sep_h);
    assert(lines(items@).len() == items@.len());
    (items, bottom)
}

fn push_item_ops(ops: &mut Vec<PopupOp>, it: &Item, i: usize, hovered: bool, right: i32, dpi: u32)
    requires
        0 <= it.y,
        0 <= it.h,
        it.y + it.h <= i32::MAX,
        110 * dpi + 48 <= i32::MAX,
    ensures
        final(ops)@ == old(ops)@ + item_ops(*it, i as int, hovered, right as int, dpi as int),
{
    let pad: i64 = scale(PAD_X, dpi) as i64;
    let indent: i64 = scale(14, dpi) as i64;
    let check_w: i64 = scale(16, dpi) as i64;
    let edge: i64 = right as i64;
    let top: i64 = it.y as i64;
    let bottom: i64 = it.y as i64 + it.h as i64;
    match it.kind {
        ItemKind::Separator => {
            ops.push(PopupOp::Line { left: pad, right: edge - pad, y: top + it.h as i64 / 2 });
        },
        _ => {
            let clickable = it.clickable();
            let lit = hovered && clickable;
            if lit {
                ops.push(PopupOp::Fill { top, bottom });
            }
            if it.checked {
                let cx: i64 = edge - check_w / 2 - pad / 2;
                let cy: i64 = (top + bottom) / 2;
                let u: i64 = check_w / 4;
                ops.push(
                    PopupOp::Check {
                        x0: cx - u,
                        y0: cy,
                        x1: cx - u / 3,
                        y1: cy + u,
                        x2: cx + u,
                        y2: cy - u,
                    },
                );
            }
            let shift: i64 = match it.kind {
                ItemKind::DeviceTitle => 0,
                _ => indent,
            };
            let ink = if lit {
                PopupInk::Highlighted
            } else if !clickable {
                PopupInk::Gray
            } else {
                PopupInk::Normal
            };
            ops.push(
                PopupOp::Text {
                    item: i,
                    left: pad + shift,
                    top,
                    right: edge - (pad + check_w),
                    bottom,
                    ink,
                },
            );
        },
    }
    assert(ops@ =~= old(ops)@ + item_ops(*it, i as int, hovered, right as int, dpi as int));
}

impl MenuState {
    /// The items are those of the devices, laid out below the slider.
    pub open spec fn wf(&self) -> bool {
        &&& 0 <= self.slider_zone
        &&& 0 <= self.row_h
        &&& 0 <= self.sep_h
        &&& tallest(
            self.devs@.len() as int,
            self.slider_zone as int,
            self.row_h as int,
            self.sep_h as int,
        ) <= i32::MAX
        &&& lines(self.items@) == menu_lines(self.devs@, self.expanded_device, self.header)
        &&& laid_out(self.items@, self.slider_zone as int, self.row_h, self.sep_h)
    }

    /// Where the last item ends.
    pub open spec fn bottom(&self) -> int {
        line_top(
            lines(self.items@),
            self.slider_zone as int,
            self.row_h,
            self.sep_h,
            self.items@.len() as int,
        )
    }

    proof fn lemma_item_range(&self, i: int)
        requires
            self.wf(),
            0 <= i < self.items@.len(),
        ensures
            0 <= self.items@[i].y,
            0 <= self.items@[i].h,
            self.items@[i].y + self.items@[i].h <= self.bottom() <= i32::MAX,
    {
        let all = lines(self.items@);
        let n = self.items@.len() as int;
        let most: int = if self.row_h < self.sep_h { self.sep_h as int } else { self.row_h as int };
        assert(all[i] == self.items@[i]@);
        lemma_line_top(all, self.slider_zone as int, self.row_h, self.sep_h, most, i);
        lemma_line_top_grows(all, self.slider_zone as int, self.row_h, self.sep_h, i + 1, n);
        lemma_line_count(self.devs@, self.expanded_device, self.header);
        lemma_line_top(all, self.slider_zone as int, self.row_h, self.sep_h, most, n);
        let m = 5 + 6 * self.devs@.len();
        assert(n * most <= m * most) by (nonlinear_arith)
            requires
                0 <= n <= m,
                0 <= most,
        ;
    }

    /// A new menu at the pointer, moved into the work area, with all devices
    /// collapsed. `speed` is the pointer speed that the system has set.
    pub fn open(
        devs: Vec<DevMenu>,
        header: MenuHeader,
        dpi: u32,
        cursor: (i32, i32),
        work: Option<ScreenRect>,
        now_ms: u64,
        speed: u32,
    ) -> (r: (MenuState, Placement))
        requires
            WIN_W * dpi + 48 <= i32::MAX,
            tallest(
                devs@.len() as int,
                px(HDR_H + TBAR_H + DIVIDER_H, dpi as int),
                px(ROW_H as int, dpi as int),
                px(SEP_H as int, dpi as int),
            ) + px(4, dpi as int) <= i32::MAX,
            work matches Some(a) ==> a.left <= a.right - px(WIN_W as int, dpi as int) && a.top
                <= a.bottom - collapsed_h(devs@, header, dpi as int),
        ensures
            r.0.wf(),
            r.0.devs == devs,
            r.0.header == header,
            r.0.expanded_device is None,
            r.0.hover is None,
            r.0.created_ms == now_ms,
            r.0.speed_label@ == speed_title(speed),
            r.0.slider_zone == px(HDR_H + TBAR_H + DIVIDER_H, dpi as int),
            r.0.row_h == px(ROW_H as int, dpi as int),
            r.0.sep_h == px(SEP_H as int, dpi as int),
            r.1.w == px(WIN_W as int, dpi as int),
            r.1.h == collapsed_h(devs@, header, dpi as int),
            match work {
                Some(a) => {
                    &&& r.1.x == crate::scroll::clamp_int(
                        cursor.0 as int,
                        a.left as int,
                        a.right - r.1.w,
                    )
                    &&& r.1.y == crate::scroll::clamp_int(
                        cursor.1 as int,
                        a.top as int,
                        a.bottom - r.1.h,
                    )
                },
                None => r.1.x == cursor.0 && r.1.y == cursor.1,
            },
    {
        let w: i32 = scale(WIN_W, dpi);
        let above: i32 = HDR_H + TBAR_H + DIVIDER_H;
        assert(above * dpi <= WIN_W * dpi) by (nonlinear_arith)
            requires
                above <= WIN_W,
                0 <= dpi,
        ;
        let slider_zone: i32 = scale(above, dpi);
        let row_h: i32 = scale(ROW_H, dpi);
        let sep_h: i32 = scale(SEP_H, dpi);
        let (items, bottom) = laid_out_items(&devs, None, &header, slider_zone, row_h, sep_h);
        let h: i32 = bottom + scale(4, dpi);
        let (x, y) = match work {
            Some(a) => (
                clamp_i32(cursor.0, a.left, a.right - w),
                clamp_i32(cursor.1, a.top, a.bottom - h),
            ),
            None => cursor,
        };
        let state = MenuState {
            items,
            devs,
            header,
            slider_zone,
            row_h,
            sep_h,
            expanded_device: None,
            hover: None,
            created_ms: now_ms,
            speed_label: speed_title_text(speed),
        };
        (state, Placement { x, y, w, h })
    }

    /// The item under height `y`, if it reacts to the pointer.
    pub open spec fn target(&self, y: i32) -> Option<int> {
        first_where(self.items@, |it: Item| it.reacts_at(y))
    }

    /// The device whose title is under height `y`.
    pub open spec fn target_device(&self, y: i32) -> Option<usize> {
        match self.target(y) {
            Some(i) => if self.items@[i].kind == ItemKind::DeviceTitle {
                Some(self.items@[i].device_idx)
            } else {
                None
            },
            None => None,
        }
    }

    /// The command that a click at height `y` runs, and whether the menu closes
    /// after it.
    pub open spec fn clicked(&self, y: i32) -> Option<(u32, bool)> {
        match self.target(y) {
            Some(i) => match kind_cmd(self.items@[i].kind) {
                Some(cmd) => Some((cmd, closes(cmd))),
                None => None,
            },
            None => None,
        }
    }

    /// The pointer moved to height `y`. The item under it is highlighted; over
    /// the title of a device that device is expanded, and elsewhere none is.
    /// `old_h` is the height of the window.
    pub fn on_mouse_move(&mut self, y: i32, dpi: u32, old_h: i32) -> (r: MoveOutcome)
        requires
            old(self).wf(),
            4 * dpi + 48 <= i32::MAX,
            tallest(
                old(self).devs@.len() as int,
                old(self).slider_zone as int,
                old(self).row_h as int,
                old(self).sep_h as int,
            ) + px(4, dpi as int) <= i32::MAX,
        ensures
            final(self).wf(),
            final(self).devs == old(self).devs,
            final(self).header == old(self).header,
            final(self).slider_zone == old(self).slider_zone,
            final(self).row_h == old(self).row_h,
            final(self).sep_h == old(self).sep_h,
            final(self).created_ms == old(self).created_ms,
            final(self).speed_label == old(self).speed_label,
            final(self).expanded_device == old(self).target_device(y),
            r.track_leave == (old(self).hover is None && old(self).target(y) is Some),
            r.redraw_all == (old(self).target_device(y) != old(self).expanded_device),
            r.redraw@ == old(self).hover_rows(y),
            if r.redraw_all {
                &&& final(self).hover is None
                &&& r.resize == (if final(self).bottom() + px(4, dpi as int) != old_h {
                    Some((final(self).bottom() + px(4, dpi as int)) as i32)
                } else {
                    None
                })
            } else {
                &&& final(self).items == old(self).items
                &&& r.resize is None
                &&& match old(self).target(y) {
                    Some(i) => final(self).hover is Some && final(self).hover->0 == i,
                    None => final(self).hover is None,
                }
            },
    {
        let ghost before = *self;
        let new_hover = hit_test(&self.items, y);
        let track_leave = self.hover.is_none() && new_hover.is_some();
        let mut redraw: Vec<(i32, i32)> = Vec::new();
        let changed = match (new_hover, self.hover) {
            (Some(a), Some(b)) => a != b,
            (None, None) => false,
            _ => true,
        };
        if changed {
            if let Some(i) = self.hover {
                if i < self.items.len() {
                    proof {
                        before.lemma_item_range(i as int);
                    }
                    redraw.push((self.items[i].y, self.items[i].y + self.items[i].h));
                }
            }
            if let Some(i) = new_hover {
                proof {
                    before.lemma_item_range(i as int);
                }
                redraw.push((self.items[i].y, self.items[i].y + self.items[i].h));
            }
            self.hover = new_hover;
        }
        assert(redraw@ =~= before.hover_rows(y));
        let dev = match new_hover {
            Some(i) => self.items[i].device_index(),
            None => None,
        };
        let same = match (dev, self.expanded_device) {
            (Some(a), Some(b)) => a == b,
            (None, None) => true,
            _ => false,
        };
        if same {
            return MoveOutcome { track_leave, redraw, redraw_all: false, resize: None };
        }
        let (items, bottom) = laid_out_items(
            &self.devs,
            dev,
            &self.header,
            self.slider_zone,
            self.row_h,
            self.sep_h,
        );
        self.items = items;
        self.expanded_device = dev;
        self.hover = None;
        let new_h: i32 = bottom + scale(4, dpi);
        let resize = if new_h != old_h {
            Some(new_h)
        } else {
            None
        };
        MoveOutcome { track_leave, redraw, redraw_all: true, resize }
    }

    /// The rows whose highlight changes when the pointer moves to height `y`.
    pub open spec fn hover_rows(&self, y: i32) -> Seq<(i32, i32)> {
        let row = |i: int|
            (self.items@[i].y, (self.items@[i].y + self.items@[i].h) as i32);
        let same = match self.target(y) {
            Some(i) => self.hover is Some && self.hover->0 == i,
            None => self.hover is None,
        };
        if same {
            seq![]
        } else {
            let left = if self.hover is Some && self.hover->0 < self.items@.len() {
                seq![row(self.hover->0 as int)]
            } else {
                seq![]
            };
            let entered = match self.target(y) {
                Some(i) => seq![row(i)],
                None => seq![],
            };
            left + entered
        }
    }

    /// The pointer left the menu.
    pub fn on_mouse_leave(&mut self)
        ensures
            *final(self) == (MenuState { hover: None, ..*old(self) }),
    {
        self.hover = None;
    }

    /// A click at height `y`: the command to run, and whether the menu closes
    /// after it. A click on a device title, or on an item that is greyed out,
    /// runs nothing.
    pub fn on_click(&self, y: i32) -> (r: Option<(u32, bool)>)
        ensures
            r == self.clicked(y),
    {
        match hit_test(&self.items, y) {
            Some(i) => match self.items[i].cmd() {
                Some(cmd) => {
                    let close = match decode(cmd) {
                        Command::Exit => true,
                        Command::Device { .. } => true,
                        _ => false,
                    };
                    Some((cmd, close))
                },
                None => None,
            },
            None => None,
        }
    }

    /// The slider was moved to `pos`: the change to make, with the title
    /// following it.
    pub fn apply_speed(&mut self, pos: u32) -> (w: SpeedWrite)
        ensures
            w == SpeedWrite::Pointer(valid_speed(pos)),
            final(self).speed_label@ == speed_title(valid_speed(pos)),
            *final(self) == (MenuState { speed_label: final(self).speed_label, ..*old(self) }),
    {
        let v: u32 = clamp_speed(pos);
        self.speed_label = speed_title_text(v);
        SpeedWrite::Pointer(v)
    }

    /// The reset button was clicked: the speed of a fresh system is set and shown.
    pub fn on_reset(&mut self) -> (w: SpeedWrite)
        ensures
            w == SpeedWrite::Pointer(SPEED_DEFAULT),
            final(self).speed_label@ == speed_title(SPEED_DEFAULT),
            *final(self) == (MenuState { speed_label: final(self).speed_label, ..*old(self) }),
    {
        self.apply_speed(SPEED_DEFAULT)
    }

    /// The menu lost the focus: whether it closes. Right after opening it does
    /// not, since the system may take the focus back for a moment.
    pub fn closes_on_deactivate(&self, now_ms: u64) -> (r: bool)
        ensures
            r == past_grace(self.created_ms as int, now_ms as int),
    {
        now_ms.saturating_sub(self.created_ms) > ACTIVATE_GRACE_MS
    }

    /// How the menu is drawn in a window `right` pixels wide.
    pub fn paint(&self, right: i32, dpi: u32) -> (r: Vec<PopupOp>)
        requires
            self.wf(),
            110 * dpi + 48 <= i32::MAX,
        ensures
            r@ == title_ops(self.speed_label@, right as int, dpi as int) + items_ops(
                self.items@,
                self.hover,
                right as int,
                dpi as int,
                self.items@.len() as int,
            ),
    {
        let mut ops: Vec<PopupOp> = Vec::new();
        if !self.speed_label.as_str().is_empty() {
            let top: i64 = scale(4, dpi) as i64;
            ops.push(
                PopupOp::Title {
                    left: scale(PAD_X, dpi) as i64,
                    top,
                    right: right as i64 - scale(110, dpi) as i64,
                    bottom: top + scale(16, dpi) as i64,
                },
            );
        }
        let ghost head = title_ops(self.speed_label@, right as int, dpi as int);
        assert(ops@ =~= head + items_ops(self.items@, self.hover, right as int, dpi as int, 0));
        for i in 0..self.items.len()
            invariant
                self.wf(),
                110 * dpi + 48 <= i32::MAX,
                ops@ == head + items_ops(
                    self.items@,
                    self.hover,
                    right as int,
                    dpi as int,
                    i as int,
                ),
        {
            let ghost before = ops@;
            proof {
                self.lemma_item_range(i as int);
            }
            let hovered = self.hover.is_some() && self.hover.unwrap() == i;
            push_item_ops(&mut ops, &self.items[i], i, hovered, right, dpi);
            assert(ops@ =~= head + items_ops(
                self.items@,
                self.hover,
                right as int,
                dpi as int,
                i + 1,
            ));
        }
        ops
    }
}

fn clamp_i32(v: i32, lo: i32, hi: i32) -> (r: i32)
    ensures
        r == crate::scroll::clamp_int(v as int, lo as int, hi as int),
{
    if v < lo {
        lo
    } else if v > hi {
        hi
    } else {
        v
    }
}

proof fn lemma_devices_count(devs: Seq<DevMenu>, expanded: Option<usize>, k: int)
    requires
        0 <= k <= devs.len(),
    ensures
        devices_lines(devs, expanded, k).len() <= 6 * k,
    decreases k,
{
    if k > 0 {
        lemma_devices_count(devs, expanded, k - 1);
    }
}

proof fn lemma_line_count(devs: Seq<DevMenu>, expanded: Option<usize>, header: MenuHeader)
    ensures
        menu_lines(devs, expanded, header).len() <= 5 + 6 * devs.len(),
{
    lemma_devices_count(devs, expanded, devs.len() as int);
}

/// The low and the high half of a message parameter, put together.
pub fn makelparam(low: u16, high: u16) -> (r: isize)
    requires
        high * 0x10000 + low <= isize::MAX,
    ensures
        r == high * 0x10000 + low,
{
    high as isize * 0x10000 + low as isize
}

/// Titles and switches always react to the pointer, commands just when they are
/// enabled, and information and separators never; only commands and switches run
/// anything.
pub proof fn law_lines_that_react(cmd: u32, on: bool, kind: ItemKind)
    ensures
        is_clickable(ItemKind::DeviceTitle),
        is_clickable(ItemKind::Checkable { cmd, checked: on }),
        is_clickable(ItemKind::Action { cmd, enabled: on }) == on,
        !is_clickable(ItemKind::Info),
        !is_clickable(ItemKind::Separator),
        kind_cmd(ItemKind::Action { cmd, enabled: on }) == Some(cmd),
        kind_cmd(ItemKind::Checkable { cmd, checked: on }) == Some(cmd),
        kind == ItemKind::DeviceTitle || kind == ItemKind::Info || kind == ItemKind::Separator
            ==> kind_cmd(kind) is None,
{
}

/// A device with both ids can have its rule stored and applied, and deleted where
/// it has one; each of the three lines runs the command of its own kind.
pub proof fn law_what_can_be_done_is_offered(d: DevMenu)
    requires
        d.vid is Some,
        d.pid is Some,
    ensures
        ({
            let ls = detail_lines(d);
            &&& ls.len() == 4
            &&& !is_clickable(ls[0].kind)
            &&& is_clickable(ls[1].kind) && kind_cmd(ls[1].kind) == Some(d.cmds@[0])
            &&& is_clickable(ls[2].kind) == (d.rule_speed is Some) && kind_cmd(ls[2].kind)
                == Some(d.cmds@[1])
            &&& is_clickable(ls[3].kind) && kind_cmd(ls[3].kind) == Some(d.cmds@[2])
            &&& forall|i: int| 0 <= i < 4 ==> !(#[trigger] ls[i]).checked
        }),
{
}

/// The title of a device begins with its name and is marked just where its rule
/// is in force. It shows the speed of the rule: with another speed, with no rule,
/// or not in force, it reads differently.
pub proof fn law_title_shows_name_and_rule(d: DevMenu, e: DevMenu, i: int)
    requires
        e == (DevMenu { rule_speed: e.rule_speed, is_effective: e.is_effective, ..d }),
    ensures
        title_text(d).len() >= d.name@.len(),
        title_text(d).take(d.name@.len() as int) == d.name@,
        title_line(d, i).checked <==> d.is_effective && d.rule_speed is Some,
        title_line(d, i).device_idx == i,
        title_line(d, i).kind == ItemKind::DeviceTitle,
        d.rule_speed is None && e.rule_speed is Some ==> title_text(d) != title_text(e),
        d.is_effective == e.is_effective && d.rule_speed is Some && e.rule_speed is Some
            && d.rule_speed != e.rule_speed ==> title_text(d) != title_text(e),
        d.rule_speed is Some && d.rule_speed == e.rule_speed && d.is_effective != e.is_effective
            ==> title_text(d) != title_text(e),
        d.rule_speed is None && e.rule_speed is None ==> title_text(d) == title_text(e),
{
    let base = d.name@ + "  ["@ + shown_id(d.vid) + ":"@ + shown_id(d.pid) + "]"@;
    let mid = "  · 规则 "@;
    let end = "  ✓生效中"@;
    reveal_strlit("  · 规则 ");
    reveal_strlit("  ✓生效中");
    assert(title_text(d).take(d.name@.len() as int) =~= d.name@);
    if d.rule_speed is Some && e.rule_speed is Some && title_text(d) == title_text(e) {
        let a = d.rule_speed->0;
        let b = e.rule_speed->0;
        let s = base + mid + dec(a as nat);
        let t = base + mid + dec(b as nat);
        if d.is_effective == e.is_effective {
            if d.is_effective {
                assert((s + end).take((s + end).len() - end.len()) =~= s);
                assert((t + end).take((t + end).len() - end.len()) =~= t);
            }
            assert(s == t);
            let at = (base + mid).len() as int;
            assert(s.skip(at) =~= dec(a as nat));
            assert(t.skip(at) =~= dec(b as nat));
            law_decimal_numerals(a as nat, b as nat);
        }
    }
}

/// Every device has its title, in order, with a separator behind; where no device
/// is expanded there is nothing else.
pub proof fn law_collapsed_devices_are_titles(
    devs: Seq<DevMenu>,
    expanded: Option<usize>,
    k: int,
    i: int,
)
    requires
        0 <= i < k <= devs.len(),
        expanded is None || expanded->0 >= k,
    ensures
        devices_lines(devs, expanded, k).len() == 2 * k,
        devices_lines(devs, expanded, k)[2 * i] == title_line(devs[i], i),
        devices_lines(devs, expanded, k)[2 * i + 1].kind == ItemKind::Separator,
    decreases k,
{
    lemma_collapsed_len(devs, expanded, k - 1);
    if i < k - 1 {
        law_collapsed_devices_are_titles(devs, expanded, k - 1, i);
    }
}

proof fn lemma_collapsed_len(devs: Seq<DevMenu>, expanded: Option<usize>, k: int)
    requires
        0 <= k <= devs.len(),
        expanded is None || expanded->0 >= k,
    ensures
        devices_lines(devs, expanded, k).len() == 2 * k,
    decreases k,
{
    if k > 0 {
        lemma_collapsed_len(devs, expanded, k - 1);
    }
}

/// An expanded device shows its details between its title and its separator; the
/// titles before it stay where they are, and those behind it follow.
pub proof fn law_expanded_device_shows_details(devs: Seq<DevMenu>, e: usize, k: int, i: int)
    requires
        0 <= i < k <= devs.len(),
        e < k,
    ensures
        ({
            let ls = devices_lines(devs, Some(e), k);
            &&& ls.len() == 2 * k + 4
            &&& ls.subrange(2 * e + 1, 2 * e + 5) == detail_lines(devs[e as int])
            &&& ls[2 * i + (if i > e {
                4int
            } else {
                0
            })] == title_line(devs[i], i)
            &&& ls[2 * i + (if i >= e {
                5int
            } else {
                1
            })].kind == ItemKind::Separator
        }),
    decreases k,
{
    let ls = devices_lines(devs, Some(e), k);
    let before = devices_lines(devs, Some(e), k - 1);
    if e < k - 1 {
        let at: int = if i < k - 1 { i } else { 0 };
        law_expanded_device_shows_details(devs, e, k - 1, at);
        assert(ls.subrange(2 * e + 1, 2 * e + 5) =~= before.subrange(2 * e + 1, 2 * e + 5));
    } else {
        lemma_collapsed_len(devs, Some(e), k - 1);
        if i < k - 1 {
            law_collapsed_devices_are_titles(devs, Some(e), k - 1, i);
        }
        assert(ls.subrange(2 * e + 1, 2 * e + 5) =~= detail_lines(devs[e as int]));
    }
}

/// The rule in force stands at the top where it is to be named, a note says that
/// there are no devices just where there are none, and the switch for starting
/// with the system is always the last line and shows whether it is on.
pub proof fn law_menu_begins_and_ends(
    devs: Seq<DevMenu>,
    expanded: Option<usize>,
    header: MenuHeader,
)
    ensures
        ({
            let all = menu_lines(devs, expanded, header);
            let head = top_lines(devs.len() == 0, view_opt(header.effective_text));
            &&& all.len() > 0
            &&& all.take(head.len() as int) == head
            &&& header.effective_text matches Some(t) ==> all[0].text == t@ && all[0].kind
                == ItemKind::Info && all[1].kind == ItemKind::Separator
            &&& head.len() == (if header.effective_text is Some {
                2int
            } else {
                0
            }) + (if devs.len() == 0 {
                2int
            } else {
                0
            })
            &&& forall|i: int| 0 <= i < head.len() ==> !is_clickable((#[trigger] head[i]).kind)
            &&& is_clickable(all.last().kind)
            &&& kind_cmd(all.last().kind) == Some(IDM_AUTOSTART)
            &&& all.last().checked == header.autostart_on
            &&& all.last().kind == (ItemKind::Checkable {
                cmd: IDM_AUTOSTART,
                checked: header.autostart_on,
            })
        }),
{
    let all = menu_lines(devs, expanded, header);
    let head = top_lines(devs.len() == 0, view_opt(header.effective_text));
    assert(all.take(head.len() as int) =~= head);
    if header.effective_text is Some {
        assert(all[0] == head[0] && all[1] == head[1]);
    }
}

/// A collapsed menu is as high as the slider, the margin, and a row and a
/// separator for each device, for the rule in force and for the note that there
/// are none, and the row of the last line.
pub proof fn law_collapsed_height(devs: Seq<DevMenu>, header: MenuHeader, dpi: int)
    requires
        0 <= dpi <= 0x1_0000,
    ensures
        ({
            let groups = devs.len() + (if header.effective_text is Some {
                1int
            } else {
                0
            }) + (if devs.len() == 0 {
                1int
            } else {
                0
            });
            collapsed_h(devs, header, dpi) == px(72, dpi) + px(4, dpi) + (groups + 1) * px(26, dpi)
                + groups * px(9, dpi)
        }),
{
    let all = menu_lines(devs, None, header);
    let head = top_lines(devs.len() == 0, view_opt(header.effective_text));
    let n = devs.len() as int;
    lemma_collapsed_len(devs, None, n);
    let groups = head.len() / 2 + n;
    assert(all.len() == 2 * groups + 1);
    assert forall|i: int| 0 <= i < all.len() implies ((#[trigger] all[i]).kind
        == ItemKind::Separator <==> i % 2 == 1) by {
        let j = i - head.len();
        if 0 <= j < 2 * n {
            law_collapsed_devices_are_titles(devs, None, n, j / 2);
            assert(all[i] == devices_lines(devs, None, n)[j]);
        }
    }
    lemma_every_other_is_separator(all, groups);
    let zone = px(72, dpi);
    let row = px(26, dpi) as i32;
    let sep = px(9, dpi) as i32;
    law_layout_adds_up(all, zone, row, sep, all.len() as int);
    assert(0 <= px(26, dpi) <= i32::MAX);
    assert(0 <= px(9, dpi) <= i32::MAX);
}

proof fn lemma_every_other_is_separator(all: Seq<Line>, groups: int)
    requires
        0 <= groups,
        all.len() >= 2 * groups + 1,
        forall|i: int|
            0 <= i < all.len() ==> ((#[trigger] all[i]).kind == ItemKind::Separator <==> i % 2
                == 1),
    ensures
        separators(all, 2 * groups + 1) == groups,
    decreases groups,
{
    if groups > 0 {
        lemma_every_other_is_separator(all, groups - 1);
        let k = 2 * groups + 1;
        assert(all[k - 1].kind != ItemKind::Separator);
        assert(all[k - 2].kind == ItemKind::Separator);
        assert(separators(all, k) == separators(all, k - 1));
        assert(separators(all, k - 1) == separators(all, k - 2) + 1);
    } else {
        assert(all[0].kind != ItemKind::Separator);
        assert(separators(all, 1) == separators(all, 0));
    }
}

/// The pixels of a size are off by half a pixel at most; at the ordinary 96 dots
/// per inch they are the size itself.
pub proof fn law_sizes_scale_with_the_screen(v: int, dpi: int)
    requires
        0 <= v,
        0 <= dpi,
    ensures
        -48 <= 96 * px(v, dpi) - v * dpi <= 48,
        px(v, 96) == v,
{
}

/// Leaving the tool and what is done with a rule close the menu; reading the
/// configuration anew, the switch for starting with the system, and what is no
/// command leave it open.
pub proof fn law_commands_that_close(cmd: u32)
    ensures
        closes(cmd) <==> cmd == 902 || (100 <= cmd < 3100 && cmd != 900 && cmd != 901),
        !closes(IDM_AUTOSTART),
{
}

/// Right after opening, losing the focus does not close the menu; later it does,
/// and once it would it always will. A clock that went back does not close it.
pub proof fn law_grace_ends_once(created: int, now: int, later: int)
    requires
        now <= later,
    ensures
        past_grace(created, now) ==> past_grace(created, later),
        now <= created + 500 ==> !past_grace(created, now),
        now > created + 500 ==> past_grace(created, now),
{
}

/// In a laid out menu, clicking an enabled command or a switch runs it, and
/// clicking anything else runs nothing; pointing at a title expands its device,
/// and pointing at anything else expands none.
pub proof fn law_pointing_and_clicking(m: MenuState, i: int, y: i32)
    requires
        m.wf(),
        0 <= i < m.items@.len(),
        m.items@[i].y <= y < m.items@[i].y + m.items@[i].h,
    ensures
        ({
            let kind = m.items@[i].kind;
            &&& is_clickable(kind) ==> m.target(y) == Some(i)
            &&& !is_clickable(kind) ==> m.target(y) is None
            &&& kind matches ItemKind::Action { cmd, enabled } ==> m.clicked(y) == (if enabled {
                Some((cmd, closes(cmd)))
            } else {
                None
            })
            &&& kind matches ItemKind::Checkable { cmd, .. } ==> m.clicked(y) == Some(
                (cmd, closes(cmd)),
            )
            &&& kind_cmd(kind) is None ==> m.clicked(y) is None
            &&& kind == ItemKind::DeviceTitle ==> m.target_device(y) == Some(
                m.items@[i].device_idx,
            )
            &&& kind != ItemKind::DeviceTitle ==> m.target_device(y) is None
        }),
{
    law_pointing_finds_the_line(
        m.items@,
        m.slider_zone as int,
        m.row_h,
        m.sep_h,
        i,
        y,
    );
}

/// Pointing at the slider, or below the last line, finds nothing.
pub proof fn law_pointing_beside_the_lines(m: MenuState, y: i32)
    requires
        m.wf(),
        y < m.slider_zone || y >= m.bottom(),
    ensures
        m.target(y) is None,
        m.target_device(y) is None,
        m.clicked(y) is None,
{
    let p = |it: Item| it.reacts_at(y);
    let all = lines(m.items@);
    let n = m.items@.len() as int;
    assert forall|j: int| 0 <= j < n implies !p(#[trigger] m.items@[j]) by {
        assert(all[j] == m.items@[j]@);
        lemma_line_top_grows(all, m.slider_zone as int, m.row_h, m.sep_h, 0, j);
        lemma_line_top_grows(all, m.slider_zone as int, m.row_h, m.sep_h, j + 1, n);
    }
    lemma_first_where(m.items@, p);
}

/// Where the highlight stays, nothing is drawn anew; where it moves, the rows
/// that it leaves and enters are.
pub proof fn law_moved_highlight_is_drawn_anew(m: MenuState, y: i32, i: int)
    requires
        0 <= i < m.items@.len(),
        i <= usize::MAX,
    ensures
        ({
            let row = (m.items@[i].y, (m.items@[i].y + m.items@[i].h) as i32);
            let left = m.hover == Some(i as usize) && m.target(y) != Some(i);
            let entered = m.target(y) == Some(i) && m.hover != Some(i as usize);
            &&& left || entered ==> m.hover_rows(y).contains(row)
            &&& m.hover == Some(i as usize) && m.target(y) == Some(i) ==> m.hover_rows(y).len() == 0
            &&& m.hover is None && m.target(y) is None ==> m.hover_rows(y).len() == 0
            &&& m.hover_rows(y).len() <= 2
        }),
{
    let row = (m.items@[i].y, (m.items@[i].y + m.items@[i].h) as i32);
    let rows = m.hover_rows(y);
    if m.hover == Some(i as usize) && m.target(y) != Some(i) {
        assert(rows[0] == row);
    }
    if m.target(y) == Some(i) && m.hover != Some(i as usize) {
        assert(rows.last() == row);
    }
}

/// An item is drawn within its row. A separator is one line; any other item ends
/// with its text, grey just where the item does not react, highlighted just where
/// it does and the pointer is on it, with a check mark just where it is checked.
pub proof fn law_items_are_drawn_as_they_are(it: Item, i: usize, hovered: bool, right: int, dpi: int)
    requires
        0 <= right <= i32::MAX,
        0 <= dpi <= 0x1_0000,
    ensures
        ({
            let ops = item_ops(it, i as int, hovered, right, dpi);
            let reacts = is_clickable(it.kind);
            &&& it.kind == ItemKind::Separator ==> ops.len() == 1 && ops[0] is Line
            &&& it.kind != ItemKind::Separator ==> {
                &&& ops.last() is Text
                &&& ops.last()->item == i
                &&& ops.last()->Text_top == it.y
                &&& ops.last()->Text_bottom == it.y + it.h
                &&& ops.last()->ink == PopupInk::Gray <==> !reacts
                &&& ops.last()->ink == PopupInk::Highlighted <==> reacts && hovered
                &&& ops.len() == 1 + (if reacts && hovered {
                    1int
                } else {
                    0
                }) + (if it.checked {
                    1int
                } else {
                    0
                })
                &&& reacts && hovered ==> ops[0] == (PopupOp::Fill {
                    top: it.y as i64,
                    bottom: (it.y + it.h) as i64,
                })
                &&& it.checked ==> ops[ops.len() - 2] is Check
            }
        }),
{
}

/// A check mark goes down and then up, as far above the middle of the row as
/// below, from left to right.
pub proof fn law_check_mark_has_its_shape(top: int, bottom: int, right: int, check_w: int, pad: int)
    requires
        0 <= top <= bottom <= i32::MAX,
        0 <= right <= i32::MAX,
        0 <= check_w <= i32::MAX,
        0 <= pad <= i32::MAX,
    ensures
        check_op(top, bottom, right, check_w, pad) matches PopupOp::Check {
            x0,
            y0,
            x1,
            y1,
            x2,
            y2,
        } && {
            &&& x0 <= x1 <= x2 <= right
            &&& y2 <= y0 <= y1
            &&& y1 - y0 == y0 - y2
            &&& top <= y0 <= bottom
            &&& x2 - x0 == 2 * (y1 - y0)
            &&& 2 * (x2 - x0) <= check_w
        },
{
}

/// Every item is drawn, in order.
pub proof fn law_all_items_are_drawn(
    items: Seq<Item>,
    hover: Option<usize>,
    right: int,
    dpi: int,
    k: int,
    i: int,
)
    requires
        0 <= i < k <= items.len(),
    ensures
        ({
            let ops = items_ops(items, hover, right, dpi, k);
            let at = items_ops(items, hover, right, dpi, i).len();
            let mine = item_ops(items[i], i, hover is Some && hover->0 == i, right, dpi);
            at + mine.len() <= ops.len() && ops.subrange(at as int, (at + mine.len()) as int)
                == mine
        }),
    decreases k,
{
    let ops = items_ops(items, hover, right, dpi, k);
    let before = items_ops(items, hover, right, dpi, k - 1);
    let at = items_ops(items, hover, right, dpi, i).len() as int;
    let mine = item_ops(items[i], i, hover is Some && hover->0 == i, right, dpi);
    if i < k - 1 {
        law_all_items_are_drawn(items, hover, right, dpi, k - 1, i);
        assert(ops.subrange(at, at + mine.len()) =~= before.subrange(at, at + mine.len()));
    } else {
        assert(ops.subrange(at, at + mine.len()) =~= mine);
    }
}

} // verus!

//! The tray menu's commands: their numbers, and what each does to the state.

use crate::devices::Device;
use crate::popup_menu::{DevMenu, MenuHeader};
use crate::speed::{SpeedWrite, SystemSpeed};
use crate::state::{
    lemma_effective, rule_deleted, rule_of, rule_stored, ruled_entries, AppState, StateModel,
};
use crate::state_laws::{
    law_deleted_rule_is_not_read, law_reapplying_is_not_foreign,
    law_stored_rule_is_read_in_the_state, rule_read,
};
use crate::text::{clone_text, dec, law_decimal_numerals, push_dec, same_opt_text, view_opt};
use vstd::prelude::*;
use vstd::string::StringExecFns;

verus! {

/// First command of the devices.
pub const IDM_DEV_BASE: u32 = 100;

/// End of the commands of the devices.
pub const IDM_DEV_MAX: u32 = 3100;

/// Commands per device.
pub const DEV_SLOTS: u32 = 3;

/// Read the configuration anew.
pub const IDM_RELOAD: u32 = 900;

/// Start with the system, or not.
pub const IDM_AUTOSTART: u32 = 901;

pub const IDM_EXIT: u32 = 902;

/// What a command of a device does.
#[derive(Debug, Clone, Copy, PartialEq, Eq, Structural)]
pub enum DevSlot {
    /// Stores the current speed as the rule.
    SetRule,
    /// Deletes the rule.
    DelRule,
    /// Applies all rules anew.
    Reapply,
}

/// A command of the tray menu.
#[derive(Debug, Clone, Copy, PartialEq, Eq, Structural)]
pub enum Command {
    Reload,
    Autostart,
    Exit,
    Device { idx: usize, slot: DevSlot },
    Unknown,
}

/// The slot with the given number.
pub open spec fn slot_of(n: int) -> DevSlot {
    if n == 0 {
        DevSlot::SetRule
    } else if n == 1 {
        DevSlot::DelRule
    } else {
        DevSlot::Reapply
    }
}

/// The command with the given number. The fixed commands come first, so a
/// device command cannot have their numbers.
pub open spec fn command_of(cmd: u32) -> Command {
    if cmd == IDM_RELOAD {
        Command::Reload
    } else if cmd == IDM_AUTOSTART {
        Command::Autostart
    } else if cmd == IDM_EXIT {
        Command::Exit
    } else if IDM_DEV_BASE <= cmd < IDM_DEV_MAX {
        Command::Device {
            idx: ((cmd - IDM_DEV_BASE) / 3) as usize,
            slot: slot_of((cmd - IDM_DEV_BASE) % 3),
        }
    } else {
        Command::Unknown
    }
}

/// The command with the given number.
pub fn decode(cmd: u32) -> (r: Command)
    ensures
        r == command_of(cmd),
{
    match cmd {
        IDM_RELOAD => Command::Reload,
        IDM_AUTOSTART => Command::Autostart,
        IDM_EXIT => Command::Exit,
        _ => if cmd >= IDM_DEV_BASE && cmd < IDM_DEV_MAX {
            let n: u32 = cmd - IDM_DEV_BASE;
            let slot = match n % DEV_SLOTS {
                0 => DevSlot::SetRule,
                1 => DevSlot::DelRule,
                _ => DevSlot::Reapply,
            };
            Command::Device { idx: (n / DEV_SLOTS) as usize, slot }
        } else {
            Command::Unknown
        },
    }
}

/// The number of a device's command.
pub open spec fn device_cmd(idx: int, slot: int) -> int {
    IDM_DEV_BASE + idx * DEV_SLOTS + slot
}

/// A device's command is read back as that device and slot, for all devices
/// that have commands, apart from the three numbers of the fixed commands.
pub proof fn law_device_commands_are_read_back(idx: int, slot: int)
    requires
        0 <= idx < 1000,
        0 <= slot < DEV_SLOTS,
        device_cmd(idx, slot) != IDM_RELOAD,
        device_cmd(idx, slot) != IDM_AUTOSTART,
        device_cmd(idx, slot) != IDM_EXIT,
    ensures
        command_of(device_cmd(idx, slot) as u32) == (Command::Device {
            idx: idx as usize,
            slot: slot_of(slot),
        }),
{
}

/// The text that names the rule in force.
pub open spec fn effective_line(name: Seq<char>, speed: u32) -> Seq<char> {
    "生效规则: "@ + name + " (速度 "@ + dec(speed as nat) + ")"@
}

/// The text that names the rule in force.
pub fn effective_text(name: &str, speed: u32) -> (r: String)
    ensures
        r@ == effective_line(name@, speed),
{
    let mut s = "生效规则: ".to_owned();
    s.append(name);
    s.append(" (速度 ");
    push_dec(&mut s, speed);
    s.append(")");
    s
}

/// The entry is the one for the `i`-th device `d` in state `m`.
pub open spec fn is_entry_of(e: DevMenu, d: Device, i: int, m: StateModel) -> bool {
    let rule = rule_of(m.cfg.rules@, d);
    &&& e.name == d.name
    &&& e.vid == d.vid
    &&& e.pid == d.pid
    &&& e.rule_speed == (match rule {
        Some(r) => Some(r.speed),
        None => None,
    })
    &&& e.is_effective == (rule is Some && (m.effective() is Some && {
        let x = m.active[m.effective()->0].1;
        view_opt(x.vid) == view_opt(d.vid) && view_opt(x.pid) == view_opt(d.pid)
    }))
    &&& e.cmds@[0] == device_cmd(i, 0)
    &&& e.cmds@[1] == device_cmd(i, 1)
    &&& e.cmds@[2] == device_cmd(i, 2)
}

/// The line that names the rule in force, where several of the listed devices
/// have rules.
pub open spec fn header_line(m: StateModel) -> Option<Seq<char>> {
    match m.effective() {
        Some(i) => if ruled_entries(m.cfg.rules@, m.active).len() >= 2 {
            Some(
                effective_line(
                    m.active[i].1.name@,
                    rule_of(m.cfg.rules@, m.active[i].1)->0.speed,
                ),
            )
        } else {
            None
        },
        None => None,
    }
}

/// What the tray menu shows: an entry per device found, and, when several of
/// the listed devices have rules, the line that names the one in force.
pub fn tray_menu(mice: &Vec<Device>, st: &AppState, autostart_on: bool) -> (r: (
    Vec<DevMenu>,
    MenuHeader,
))
    requires
        device_cmd(mice@.len() as int, 0) <= u32::MAX,
    ensures
        r.0@.len() == mice@.len(),
        forall|i: int| 0 <= i < mice@.len() ==> is_entry_of(#[trigger] r.0@[i], mice@[i], i, st@),
        r.1.autostart_on == autostart_on,
        view_opt(r.1.effective_text) == header_line(st@),
{
    let mut devs: Vec<DevMenu> = Vec::new();
    for i in 0..mice.len()
        invariant
            device_cmd(mice@.len() as int, 0) <= u32::MAX,
            devs@.len() == i,
            forall|j: int| 0 <= j < i ==> is_entry_of(#[trigger] devs@[j], mice@[j], j, st@),
    {
        let dev = &mice[i];
        let rule_speed = match st.rule_for(dev) {
            Some(r) => Some(r.speed),
            None => None,
        };
        let is_effective = rule_speed.is_some() && match st.effective_rule() {
            Some((e, _)) => same_opt_text(&e.vid, &dev.vid) && same_opt_text(&e.pid, &dev.pid),
            None => false,
        };
        let base: u32 = IDM_DEV_BASE + i as u32 * DEV_SLOTS;
        devs.push(
            DevMenu {
                name: dev.name.clone(),
                vid: clone_text(&dev.vid),
                pid: clone_text(&dev.pid),
                rule_speed,
                is_effective,
                cmds: [base, base + 1, base + 2],
            },
        );
    }
    let effective = if st.active_rule_count() >= 2 {
        match st.effective_rule() {
            Some((d, rule)) => Some(effective_text(d.name.as_str(), rule.speed)),
            None => None,
        }
    } else {
        None
    };
    (devs, MenuHeader { effective_text: effective, autostart_on })
}

/// `after` is `before` once a device's command was run: the speed that the system
/// has is stored as its rule, the rule is deleted, or all rules are applied anew.
pub open spec fn slot_done(
    before: StateModel,
    after: StateModel,
    vid: Seq<char>,
    pid: Seq<char>,
    name: String,
    slot: DevSlot,
    sys: SystemSpeed,
    w: Seq<SpeedWrite>,
) -> bool {
    match slot {
        DevSlot::SetRule => rule_stored(before, after, vid, pid, sys.speed, None, name, sys, w),
        DevSlot::DelRule => rule_deleted(before, after, vid, pid, sys, w),
        DevSlot::Reapply => after == before.reapplied(sys) && w == before.reapplied_writes(),
    }
}

/// Running the command changes the configuration.
pub open spec fn changes_rules(slot: DevSlot) -> bool {
    slot != DevSlot::Reapply
}

/// What is left to do after a command.
#[derive(Debug)]
pub struct Outcome {
    /// The system settings to change.
    pub writes: Vec<SpeedWrite>,
    /// The configuration is to be saved.
    pub save: bool,
    /// The tool tip is to be brought up to date.
    pub tip: bool,
}

/// Runs a device's command. `dev` is the device, if it is still there, and
/// `sys` what the system has set. A device without ids has no commands.
pub fn run_device_command(
    st: &mut AppState,
    dev: Option<&Device>,
    slot: DevSlot,
    sys: SystemSpeed,
) -> (r: Outcome)
    requires
        old(st).wf(),
    ensures
        final(st).wf(),
        match dev {
            Some(d) => match (d.vid, d.pid) {
                (Some(vid), Some(pid)) => {
                    &&& slot_done(old(st)@, final(st)@, vid@, pid@, d.name, slot, sys, r.writes@)
                    &&& r.save == changes_rules(slot)
                    &&& r.tip
                },
                _ => final(st)@ == old(st)@ && r.writes@.len() == 0 && !r.save && !r.tip,
            },
            None => final(st)@ == old(st)@ && r.writes@.len() == 0 && !r.save && r.tip,
        },
{
    match dev {
        Some(d) => match (&d.vid, &d.pid) {
            (Some(vid), Some(pid)) => {
                let writes = match slot {
                    DevSlot::SetRule => st.store_rule(
                        vid.as_str(),
                        pid.as_str(),
                        sys.speed,
                        None,
                        &d.name,
                        sys,
                    ),
                    DevSlot::DelRule => st.delete_rule(vid.as_str(), pid.as_str(), sys),
                    DevSlot::Reapply => st.reapply(sys),
                };
                Outcome { writes, save: slot != DevSlot::Reapply, tip: true }
            },
            _ => Outcome { writes: Vec::new(), save: false, tip: false },
        },
        None => Outcome { writes: Vec::new(), save: false, tip: true },
    }
}

/// The low sixteen bits of a message parameter.
pub fn loword(v: usize) -> (r: u32)
    ensures
        r == v as int % 0x10000,
{
    (v % 0x10000) as u32
}

/// Of the commands of a device the first sets its rule, the second deletes it and
/// the third applies all rules anew; devices follow each other. The three fixed
/// commands are what their numbers say, and other numbers are no commands.
pub proof fn law_commands_by_number(idx: int, cmd: u32)
    requires
        0 <= idx < 1000,
        idx != 266 && idx != 267,
    ensures
        command_of((100 + 3 * idx) as u32) == (Command::Device {
            idx: idx as usize,
            slot: DevSlot::SetRule,
        }),
        command_of((101 + 3 * idx) as u32) == (Command::Device {
            idx: idx as usize,
            slot: DevSlot::DelRule,
        }),
        command_of((102 + 3 * idx) as u32) == (Command::Device {
            idx: idx as usize,
            slot: DevSlot::Reapply,
        }),
        device_cmd(idx, 0) == 100 + 3 * idx,
        device_cmd(idx, 1) == 101 + 3 * idx,
        device_cmd(idx, 2) == 102 + 3 * idx,
        command_of(cmd) == Command::Reload <==> cmd == IDM_RELOAD,
        command_of(cmd) == Command::Autostart <==> cmd == IDM_AUTOSTART,
        command_of(cmd) == Command::Exit <==> cmd == IDM_EXIT,
        command_of(cmd) == Command::Unknown <==> cmd < 100 || cmd >= 3100,
{
}

/// The entry of a device shows the rule of that device, and running its commands
/// comes back to that device. An entry without a rule is never shown as in force,
/// nor is any while the global settings are; the entry of the device switched to
/// is.
pub proof fn law_entry_shows_its_device(e: DevMenu, d: Device, i: int, m: StateModel)
    requires
        is_entry_of(e, d, i, m),
        m.wf(),
    ensures
        e.rule_speed is Some <==> rule_of(m.cfg.rules@, d) is Some,
        e.rule_speed matches Some(v) ==> v == rule_of(m.cfg.rules@, d)->0.speed,
        e.name@ == d.name@,
        view_opt(e.vid) == view_opt(d.vid),
        view_opt(e.pid) == view_opt(d.pid),
        e.is_effective ==> e.rule_speed is Some && !m.global_active(),
        m.effective() matches Some(k) ==> (m.active[k].1 == d ==> e.is_effective),
        0 <= i < 266 || 268 <= i < 1000 ==> {
            &&& command_of(e.cmds@[0]) == (Command::Device {
                idx: i as usize,
                slot: DevSlot::SetRule,
            })
            &&& command_of(e.cmds@[1]) == (Command::Device {
                idx: i as usize,
                slot: DevSlot::DelRule,
            })
            &&& command_of(e.cmds@[2]) == (Command::Device {
                idx: i as usize,
                slot: DevSlot::Reapply,
            })
        },
{
    lemma_effective(m);
}

/// The line that names the rule in force is there just while one is, and several
/// listed devices have rules; it ends with the speed of the rule and holds the
/// name of the device, so that two rules in force are told apart by it.
pub proof fn law_header_names_the_rule(m: StateModel, name: Seq<char>, a: u32, b: u32)
    requires
        m.wf(),
    ensures
        header_line(m) is Some <==> m.effective() is Some && ruled_entries(
            m.cfg.rules@,
            m.active,
        ).len() > 1,
        m.global_active() ==> header_line(m) is None,
        effective_line(name, a) == effective_line(name, b) ==> a == b,
        exists|k: int|
            0 <= k <= effective_line(name, a).len() - name.len() && #[trigger] effective_line(
                name,
                a,
            ).subrange(k, k + name.len()) == name,
{
    lemma_effective(m);
    let front = "生效规则: "@;
    let mid = " (速度 "@;
    let end = ")"@;
    let s = effective_line(name, a);
    let k = front.len() as int;
    assert(s.subrange(k, k + name.len()) =~= name);
    if s == effective_line(name, b) {
        let at = front.len() + name.len() + mid.len();
        let t = effective_line(name, b);
        assert(s.subrange(at as int, s.len() - end.len()) =~= dec(a as nat));
        assert(t.subrange(at as int, t.len() - end.len()) =~= dec(b as nat));
        law_decimal_numerals(a as nat, b as nat);
    }
}

/// After storing, the rule read for the device has the pointer speed that the
/// system had, and leaves the wheel alone; after deleting, none is read; after
/// applying, the rules are as they were. Neither the list of devices nor the
/// global settings change, only the first two are saved, and the system reporting
/// the outcome back is no foreign change.
pub proof fn law_device_commands_do_their_work(
    before: StateModel,
    after: StateModel,
    vid: Seq<char>,
    pid: Seq<char>,
    name: String,
    slot: DevSlot,
    sys: SystemSpeed,
    w: Seq<SpeedWrite>,
)
    requires
        slot_done(before, after, vid, pid, name, slot, sys, w),
    ensures
        slot == DevSlot::SetRule ==> {
            &&& rule_read(after, vid, pid) is Some
            &&& rule_read(after, vid, pid)->0.speed == sys.speed
            &&& rule_read(after, vid, pid)->0.wheel is None
            &&& rule_read(after, vid, pid)->0.note == Some(name)
        },
        slot == DevSlot::DelRule ==> rule_read(after, vid, pid) is None,
        slot == DevSlot::Reapply ==> after.cfg == before.cfg,
        after.active == before.active,
        after.cfg.speed == before.cfg.speed && after.cfg.wheel == before.cfg.wheel
            && after.cfg.scroll == before.cfg.scroll,
        !after.is_foreign(sys.after_all(w)),
        changes_rules(DevSlot::SetRule) && changes_rules(DevSlot::DelRule) && !changes_rules(
            DevSlot::Reapply,
        ),
{
    match slot {
        DevSlot::SetRule => {
            law_stored_rule_is_read_in_the_state(
                before,
                after,
                vid,
                pid,
                sys.speed,
                None,
                name,
                sys,
                w,
                vid,
                pid,
            );
        },
        DevSlot::DelRule => {
            law_deleted_rule_is_not_read(before, after, vid, pid, sys, w, vid, pid);
        },
        DevSlot::Reapply => {
            law_reapplying_is_not_foreign(before, sys);
        },
    }
}

} // verus!

//! The lines that the diagnosis prints.

use crate::config::Rule;
use crate::devices::Device;
use crate::menu_model::{show_id, shown_id};
use crate::text::{dec, push_dec};
use vstd::prelude::*;
use vstd::string::StringExecFns;

verus! {

/// The line for a rule: its ids, speed and note.
pub fn rule_line(rule: &Rule) -> (r: String)
    ensures
        r@ == "  VID:"@ + rule.vid@ + " PID:"@ + rule.pid@ + " -> 速度 "@ + dec(rule.speed as nat)
            + " "@ + (match rule.note {
            Some(n) => n@,
            None => ""@,
        }),
{
    let mut s = "  VID:".to_owned();
    s.append(rule.vid.as_str());
    s.append(" PID:");
    s.append(rule.pid.as_str());
    s.append(" -> 速度 ");
    push_dec(&mut s, rule.speed);
    s.append(" ");
    match &rule.note {
        Some(n) => s.append(n.as_str()),
        None => s.append(""),
    }
    s
}

/// The line for a device: its name, ids and instance id.
pub fn device_line(d: &Device) -> (r: String)
    ensures
        r@ == "  "@ + d.name@ + "  | VID:"@ + shown_id(d.vid) + "  PID:"@ + shown_id(d.pid)
            + "  | 实例:"@ + d.instance_id@,
{
    let mut s = "  ".to_owned();
    s.append(d.name.as_str());
    s.append("  | VID:");
    s.append(show_id(&d.vid).as_str());
    s.append("  PID:");
    s.append(show_id(&d.pid).as_str());
    s.append("  | 实例:");
    s.append(d.instance_id.as_str());
    s
}

} // verus!

//! The state of the tool: which mice are plugged in, which settings are in
//! force, and how every event changes them. Changes of the system settings
//! come back as lists of writes, in the order in which they are to be made.

use crate::baselines::Baselines;
use crate::config::{rule_index, rules_with, rules_with_scroll, rules_without, Config, Rule};
use crate::devices::Device;
use crate::scroll::ScrollCfg;
use crate::search::{
    first_where, last_where, lemma_first_is, lemma_first_where, lemma_last_is,
    lemma_last_where,
};
use crate::speed::{
    clamp_speed, clamp_wheel, valid_speed, valid_wheel, SpeedWrite, SystemSpeed, SPEED_DEFAULT,
    WHEEL_DEFAULT,
};
use crate::text::{same_text, view_opt};
use vstd::prelude::*;

verus! {

/// The rule for a device; a device without both ids has none.
pub open spec fn rule_of(rules: Seq<Rule>, d: Device) -> Option<Rule> {
    match (d.vid, d.pid) {
        (Some(v), Some(p)) => match rule_index(rules, v@, p@) {
            Some(i) => Some(rules[i]),
            None => None,
        },
        _ => None,
    }
}

/// The device has a rule.
pub open spec fn ruled(rules: Seq<Rule>, d: Device) -> bool {
    rule_of(rules, d) is Some
}

/// The device with the given instance id is in the list.
pub open spec fn listed(active: Seq<(String, Device)>, id: Seq<char>) -> bool {
    exists|i: int| 0 <= i < active.len() && (#[trigger] active[i]).0@ == id
}

/// The entry is the device with the given instance id.
pub open spec fn has_id(e: (String, Device), id: Seq<char>) -> bool {
    e.0@ == id
}

/// Where the device with the given instance id is in the list.
pub open spec fn position_of(active: Seq<(String, Device)>, id: Seq<char>) -> Option<int> {
    first_where(active, |e: (String, Device)| has_id(e, id))
}

/// A device with the given instance id is among those found.
pub open spec fn present(now: Seq<Device>, id: Seq<char>) -> bool {
    exists|k: int| 0 <= k < now.len() && (#[trigger] now[k]).instance_id@ == id
}

/// The list with a device added at its end, unless it is there already.
pub open spec fn with_device(active: Seq<(String, Device)>, d: Device) -> Seq<(String, Device)> {
    if listed(active, d.instance_id@) {
        active
    } else {
        active.push((d.instance_id, d))
    }
}

/// The list with devices added one after another.
pub open spec fn with_devices(active: Seq<(String, Device)>, now: Seq<Device>) -> Seq<
    (String, Device),
>
    decreases now.len(),
{
    if now.len() == 0 {
        active
    } else {
        with_device(with_devices(active, now.drop_last()), now.last())
    }
}

/// The list without the devices that were not found.
pub open spec fn still_there(active: Seq<(String, Device)>, now: Seq<Device>) -> Seq<
    (String, Device),
> {
    active.filter(|e: (String, Device)| present(now, e.0@))
}

/// The changes that a rule makes: the pointer speed, and the wheel where the
/// rule has one.
pub open spec fn rule_writes(r: Rule) -> Seq<SpeedWrite> {
    match r.wheel {
        Some(w) => seq![SpeedWrite::Pointer(r.speed), SpeedWrite::Wheel(w)],
        None => seq![SpeedWrite::Pointer(r.speed)],
    }
}

/// The settings that a rule puts into a system that has `sys`; the system keeps
/// to its ranges.
pub open spec fn settings_of(r: Rule, sys: SystemSpeed) -> SystemSpeed {
    SystemSpeed {
        speed: valid_speed(r.speed),
        wheel: match r.wheel {
            Some(w) => valid_wheel(w),
            None => sys.wheel,
        },
    }
}

/// The settings once the rules of the first `k` devices were applied to `sys`
/// one after another.
pub open spec fn settings_after(
    rules: Seq<Rule>,
    active: Seq<(String, Device)>,
    sys: SystemSpeed,
    k: int,
) -> SystemSpeed
    decreases k,
{
    if k <= 0 {
        sys
    } else {
        let before = settings_after(rules, active, sys, k - 1);
        match rule_of(rules, active[k - 1].1) {
            Some(r) => settings_of(r, before),
            None => before,
        }
    }
}

/// The changes made on the way there.
pub open spec fn writes_after(rules: Seq<Rule>, active: Seq<(String, Device)>, k: int) -> Seq<
    SpeedWrite,
>
    decreases k,
{
    if k <= 0 {
        seq![]
    } else {
        match rule_of(rules, active[k - 1].1) {
            Some(r) => writes_after(rules, active, k - 1) + rule_writes(r),
            None => writes_after(rules, active, k - 1),
        }
    }
}

/// For each of the first `k` devices that has a rule, the settings just before
/// that rule was applied.
pub open spec fn baselines_after(
    rules: Seq<Rule>,
    active: Seq<(String, Device)>,
    sys: SystemSpeed,
    k: int,
) -> Map<Seq<char>, (u32, u32)>
    decreases k,
{
    if k <= 0 {
        Map::empty()
    } else {
        let before = baselines_after(rules, active, sys, k - 1);
        if ruled(rules, active[k - 1].1) {
            let s = settings_after(rules, active, sys, k - 1);
            before.insert(active[k - 1].0@, (s.speed, s.wheel))
        } else {
            before
        }
    }
}

/// What the state means.
#[verifier::ext_equal]
pub struct StateModel {
    pub cfg: Config,
    pub active: Seq<(String, Device)>,
    pub saved: Map<Seq<char>, (u32, u32)>,
    pub applied_speed: u32,
    pub applied_wheel: u32,
    pub in_force: Option<Seq<char>>,
}

impl StateModel {
    /// The state at the start, with the devices that were found.
    pub open spec fn started(cfg: Config, found: Seq<Device>) -> StateModel {
        StateModel {
            cfg: Config { speed: valid_speed(cfg.speed), wheel: valid_wheel(cfg.wheel), ..cfg },
            active: with_devices(seq![], found),
            saved: Map::empty(),
            applied_speed: valid_speed(cfg.speed),
            applied_wheel: valid_wheel(cfg.wheel),
            in_force: None,
        }
    }

    /// Every device is listed once, under its instance id, and only listed
    /// devices have a baseline or are switched to.
    pub open spec fn wf(self) -> bool {
        &&& forall|i: int|
            0 <= i < self.active.len() ==> (#[trigger] self.active[i]).0@
                == self.active[i].1.instance_id@
        &&& forall|i: int, j: int|
            0 <= i < j < self.active.len() ==> (#[trigger] self.active[i]).0@ != (
            #[trigger] self.active[j]).0@
        &&& forall|k: Seq<char>| #[trigger]
            self.saved.dom().contains(k) ==> listed(self.active, k)
        &&& self.in_force matches Some(id) ==> listed(self.active, id)
    }

    /// The global settings are in force: no device is switched to.
    pub open spec fn global_active(self) -> bool {
        self.in_force is None
    }

    /// Where the device whose rule is in force is in the list: the one that was
    /// switched to, as long as it has a rule.
    pub open spec fn effective(self) -> Option<int> {
        match self.in_force {
            Some(id) => match position_of(self.active, id) {
                Some(i) => if ruled(self.cfg.rules@, self.active[i].1) {
                    Some(i)
                } else {
                    None
                },
                None => None,
            },
            None => None,
        }
    }

    /// The rule of the device with the given instance id is in force.
    pub open spec fn is_effective(self, id: Seq<char>) -> bool {
        self.effective() matches Some(i) && self.active[i].1.instance_id@ == id
    }

    /// The scroll mode settings in force: those of the rule in force, else the
    /// global ones; none while they are switched off.
    pub open spec fn scroll(self) -> Option<ScrollCfg> {
        let s = match self.effective() {
            Some(i) => rule_of(self.cfg.rules@, self.active[i].1)->0.scroll,
            None => self.cfg.scroll,
        };
        match s {
            Some(c) => if c.enabled {
                Some(c)
            } else {
                None
            },
            None => None,
        }
    }

    /// A device was plugged in.
    pub open spec fn plugged(self, d: Device) -> StateModel {
        StateModel { active: with_device(self.active, d), ..self }
    }

    /// The global settings are put in force.
    pub open spec fn to_global(self) -> StateModel {
        StateModel {
            applied_speed: valid_speed(self.cfg.speed),
            applied_wheel: valid_wheel(self.cfg.wheel),
            in_force: None,
            ..self
        }
    }

    /// The changes that put the global settings in force.
    pub open spec fn global_writes(self) -> Seq<SpeedWrite> {
        seq![
            SpeedWrite::Pointer(valid_speed(self.cfg.speed)),
            SpeedWrite::Wheel(valid_wheel(self.cfg.wheel)),
        ]
    }

    /// A device was pulled out. When it was the one switched to, the global
    /// settings are put in force.
    pub open spec fn pulled(self, id: Seq<char>) -> StateModel {
        match position_of(self.active, id) {
            Some(i) => {
                let rest = StateModel {
                    active: self.active.remove(i),
                    saved: self.saved.remove(id),
                    ..self
                };
                if self.in_force == Some(id) {
                    rest.to_global()
                } else {
                    rest
                }
            },
            None => self,
        }
    }

    /// The changes made when a device is pulled out.
    pub open spec fn pulled_writes(self, id: Seq<char>) -> Seq<SpeedWrite> {
        if position_of(self.active, id) is Some && self.in_force == Some(id) {
            self.global_writes()
        } else {
            seq![]
        }
    }

    /// The device that was switched to is not among those found.
    pub open spec fn in_force_is_gone(self, now: Seq<Device>) -> bool {
        self.in_force matches Some(id) && !present(now, id)
    }

    /// A scan found the given devices.
    pub open spec fn scanned(self, now: Seq<Device>) -> StateModel {
        let m = StateModel {
            active: with_devices(still_there(self.active, now), now),
            saved: self.saved.restrict(Set::new(|k: Seq<char>| present(now, k))),
            ..self
        };
        if self.in_force_is_gone(now) {
            m.to_global()
        } else {
            m
        }
    }

    /// The changes made after a scan.
    pub open spec fn scanned_writes(self, now: Seq<Device>) -> Seq<SpeedWrite> {
        if self.in_force_is_gone(now) {
            self.global_writes()
        } else {
            seq![]
        }
    }

    /// The listed device at `i` is to be switched to: it is not already the last
    /// one with its rule in force.
    pub open spec fn moves(self, i: int) -> bool {
        !(i == self.active.len() - 1 && self.is_effective(self.active[i].0@))
    }

    /// A device is switched to: it moves to the end of the list, and its rule,
    /// if it has one, is put in force over the settings `sys`.
    pub open spec fn activated(self, id: Seq<char>, sys: SystemSpeed) -> StateModel {
        match position_of(self.active, id) {
            Some(i) => if self.moves(i) {
                let e = self.active[i];
                let moved = self.active.remove(i).push(e);
                match rule_of(self.cfg.rules@, e.1) {
                    Some(r) => StateModel {
                        active: moved,
                        saved: self.saved.insert(id, (sys.speed, sys.wheel)),
                        applied_speed: valid_speed(r.speed),
                        applied_wheel: match r.wheel {
                            Some(w) => valid_wheel(w),
                            None => self.applied_wheel,
                        },
                        in_force: Some(id),
                        ..self
                    },
                    None => StateModel { active: moved, ..self },
                }
            } else {
                self
            },
            None => self,
        }
    }

    /// The changes made when a device is switched to.
    pub open spec fn activated_writes(self, id: Seq<char>) -> Seq<SpeedWrite> {
        match position_of(self.active, id) {
            Some(i) => match rule_of(self.cfg.rules@, self.active[i].1) {
                Some(r) => if self.moves(i) {
                    rule_writes(r)
                } else {
                    seq![]
                },
                None => seq![],
            },
            None => seq![],
        }
    }

    /// A device entry was chosen: the device is switched to, or back to the
    /// global settings when its rule is in force.
    pub open spec fn toggled(self, id: Seq<char>, sys: SystemSpeed) -> StateModel {
        if self.is_effective(id) {
            self.to_global()
        } else {
            self.activated(id, sys)
        }
    }

    /// The changes made when a device entry is chosen.
    pub open spec fn toggled_writes(self, id: Seq<char>) -> Seq<SpeedWrite> {
        if self.is_effective(id) {
            self.global_writes()
        } else {
            self.activated_writes(id)
        }
    }

    /// The last listed device that has a rule.
    pub open spec fn last_ruled(self) -> Option<int> {
        let rules = self.cfg.rules@;
        last_where(self.active, |e: (String, Device)| ruled(rules, e.1))
    }

    /// All rules are applied anew, in the order of the list; the last one stays
    /// in force.
    pub open spec fn reapplied(self, sys: SystemSpeed) -> StateModel {
        let n = self.active.len() as int;
        let rules = self.cfg.rules@;
        let m = StateModel { saved: baselines_after(rules, self.active, sys, n), ..self };
        match self.last_ruled() {
            Some(i) => {
                let s = settings_after(rules, self.active, sys, n);
                StateModel {
                    applied_speed: s.speed,
                    applied_wheel: s.wheel,
                    in_force: Some(self.active[i].0@),
                    ..m
                }
            },
            None => m.to_global(),
        }
    }

    /// The changes made when all rules are applied anew.
    pub open spec fn reapplied_writes(self) -> Seq<SpeedWrite> {
        if self.last_ruled() is Some {
            writes_after(self.cfg.rules@, self.active, self.active.len() as int)
        } else {
            self.global_writes()
        }
    }

    /// The global pointer speed was edited.
    pub open spec fn with_global_speed(self, v: u32) -> StateModel {
        let m = StateModel { cfg: Config { speed: valid_speed(v), ..self.cfg }, ..self };
        if self.global_active() {
            StateModel { applied_speed: valid_speed(v), ..m }
        } else {
            m
        }
    }

    /// The changes made when the global pointer speed is edited.
    pub open spec fn global_speed_writes(self, v: u32) -> Seq<SpeedWrite> {
        if self.global_active() {
            seq![SpeedWrite::Pointer(valid_speed(v))]
        } else {
            seq![]
        }
    }

    /// The changes made when the global wheel lines are edited.
    pub open spec fn global_wheel_writes(self, v: u32) -> Seq<SpeedWrite> {
        if self.global_active() {
            seq![SpeedWrite::Wheel(valid_wheel(v))]
        } else {
            seq![]
        }
    }

    /// The changes made when the global settings are reset.
    pub open spec fn global_reset_writes(self) -> Seq<SpeedWrite> {
        if self.global_active() {
            seq![SpeedWrite::Pointer(SPEED_DEFAULT), SpeedWrite::Wheel(WHEEL_DEFAULT)]
        } else {
            seq![]
        }
    }

    /// The global wheel lines were edited.
    pub open spec fn with_global_wheel(self, v: u32) -> StateModel {
        let m = StateModel { cfg: Config { wheel: valid_wheel(v), ..self.cfg }, ..self };
        if self.global_active() {
            StateModel { applied_wheel: valid_wheel(v), ..m }
        } else {
            m
        }
    }

    /// The global scroll mode settings were edited.
    pub open spec fn with_global_scroll(self, c: ScrollCfg) -> StateModel {
        StateModel { cfg: Config { scroll: Some(c), ..self.cfg }, ..self }
    }

    /// The global settings were reset to those of a fresh system.
    pub open spec fn with_global_reset(self) -> StateModel {
        let m = StateModel {
            cfg: Config {
                speed: SPEED_DEFAULT,
                wheel: WHEEL_DEFAULT,
                scroll: None,
                ..self.cfg
            },
            ..self
        };
        if self.global_active() {
            m.to_global()
        } else {
            m
        }
    }

    /// The pointer speed was set by hand: no rule is in force any more.
    pub open spec fn with_manual_speed(self, v: u32) -> StateModel {
        StateModel { applied_speed: valid_speed(v), in_force: None, ..self }
    }

    /// The wheel lines were set by hand: no rule is in force any more.
    pub open spec fn with_manual_wheel(self, v: u32) -> StateModel {
        StateModel { applied_wheel: valid_wheel(v), in_force: None, ..self }
    }

    /// Settings other than those last applied were seen in the system.
    pub open spec fn is_foreign(self, sys: SystemSpeed) -> bool {
        sys.speed != self.applied_speed || sys.wheel != self.applied_wheel
    }

    /// The system was seen to have the given settings. When someone else set
    /// them, no rule is in force any more.
    pub open spec fn observed(self, sys: SystemSpeed) -> StateModel {
        if self.is_foreign(sys) {
            StateModel {
                applied_speed: sys.speed,
                applied_wheel: sys.wheel,
                in_force: None,
                ..self
            }
        } else {
            self
        }
    }
}

/// `after` is `before` with other rules, all of them applied anew over the
/// settings `sys` by the changes `w`.
pub open spec fn with_edited_rules(
    before: StateModel,
    after: StateModel,
    sys: SystemSpeed,
    w: Seq<SpeedWrite>,
) -> bool {
    let edited = StateModel { cfg: after.cfg, ..before };
    &&& after == edited.reapplied(sys)
    &&& w == edited.reapplied_writes()
    &&& after.cfg.speed == before.cfg.speed
    &&& after.cfg.wheel == before.cfg.wheel
    &&& after.cfg.scroll == before.cfg.scroll
}

/// `after` is `before` with a rule stored for the given ids, over the settings
/// `sys` by the changes `w`.
pub open spec fn rule_stored(
    before: StateModel,
    after: StateModel,
    vid: Seq<char>,
    pid: Seq<char>,
    speed: u32,
    wheel: Option<u32>,
    name: String,
    sys: SystemSpeed,
    w: Seq<SpeedWrite>,
) -> bool {
    &&& with_edited_rules(before, after, sys, w)
    &&& rules_with(before.cfg.rules@, after.cfg.rules@, vid, pid, speed, wheel, Some(name))
}

/// `after` is `before` with a rule stored for the given ids, its scroll mode
/// settings included.
pub open spec fn rule_stored_with_scroll(
    before: StateModel,
    after: StateModel,
    vid: Seq<char>,
    pid: Seq<char>,
    speed: u32,
    wheel: Option<u32>,
    scroll: Option<ScrollCfg>,
    name: String,
    sys: SystemSpeed,
    w: Seq<SpeedWrite>,
) -> bool {
    &&& with_edited_rules(before, after, sys, w)
    &&& rules_with_scroll(
        before.cfg.rules@,
        after.cfg.rules@,
        vid,
        pid,
        speed,
        wheel,
        scroll,
        Some(name),
    )
}

/// `after` is `before` without the rules of the given ids.
pub open spec fn rule_deleted(
    before: StateModel,
    after: StateModel,
    vid: Seq<char>,
    pid: Seq<char>,
    sys: SystemSpeed,
    w: Seq<SpeedWrite>,
) -> bool {
    &&& with_edited_rules(before, after, sys, w)
    &&& after.cfg.rules@ == rules_without(before.cfg.rules@, vid, pid)
}

/// The change made when the pointer speed is set by hand.
pub open spec fn manual_speed_writes(v: u32) -> Seq<SpeedWrite> {
    seq![SpeedWrite::Pointer(valid_speed(v))]
}

/// The change made when the wheel lines are set by hand.
pub open spec fn manual_wheel_writes(v: u32) -> Seq<SpeedWrite> {
    seq![SpeedWrite::Wheel(valid_wheel(v))]
}

/// The state of the tool.
#[derive(Debug)]
pub struct AppState {
    pub cfg: Config,
    /// The devices plugged in, with their instance ids, in the order in which
    /// they were plugged in or last switched to.
    pub active: Vec<(String, Device)>,
    /// The system settings at the moment a device was switched to.
    pub saved: Baselines,
    /// The pointer speed last applied.
    pub applied_speed: u32,
    /// The wheel lines last applied.
    pub applied_wheel: u32,
    /// The instance id of the device that was switched to; `None` while the
    /// global settings are in force. Only the user switches: a device that is
    /// plugged in is listed and nothing more.
    pub in_force: Option<String>,
}

impl View for AppState {
    type V = StateModel;

    open spec fn view(&self) -> StateModel {
        StateModel {
            cfg: self.cfg,
            active: self.active@,
            saved: self.saved@,
            applied_speed: self.applied_speed,
            applied_wheel: self.applied_wheel,
            in_force: view_opt(self.in_force),
        }
    }
}

/// Where a listed device is found.
pub proof fn lemma_position(active: Seq<(String, Device)>, id: Seq<char>)
    ensures
        position_of(active, id) is Some <==> listed(active, id),
        position_of(active, id) matches Some(i) ==> 0 <= i < active.len() && active[i].0@ == id,
{
    let p = |e: (String, Device)| has_id(e, id);
    lemma_first_where(active, p);
    if position_of(active, id) is None {
        assert forall|i: int| 0 <= i < active.len() implies (#[trigger] active[i]).0@ != id by {
            assert(!p(active[i]));
        }
    } else {
        let i = position_of(active, id)->0;
        assert(active[i].0@ == id);
    }
}

/// The device whose rule is in force has a rule and is the one switched to.
pub proof fn lemma_effective(m: StateModel)
    ensures
        m.effective() matches Some(i) ==> {
            &&& 0 <= i < m.active.len()
            &&& ruled(m.cfg.rules@, m.active[i].1)
            &&& m.in_force == Some(m.active[i].0@)
        },
{
    if let Some(id) = m.in_force {
        lemma_position(m.active, id);
    }
}

/// The device that was switched to is the one whose rule is in force, if it has
/// one.
pub proof fn lemma_effective_is(m: StateModel, i: int)
    requires
        0 <= i < m.active.len(),
        m.in_force == Some(m.active[i].0@),
        ruled(m.cfg.rules@, m.active[i].1),
        forall|j: int| 0 <= j < i ==> (#[trigger] m.active[j]).0@ != m.active[i].0@,
    ensures
        m.effective() == Some(i),
{
    let id = m.active[i].0@;
    lemma_first_is(m.active, |e: (String, Device)| has_id(e, id), i);
}

impl AppState {
    /// Every device is listed once, under its instance id, and only listed
    /// devices have a baseline or are switched to.
    pub open spec fn wf(&self) -> bool {
        self@.wf() && self.saved.wf()
    }

    /// The rule for a device.
    pub fn rule_for(&self, dev: &Device) -> (r: Option<&Rule>)
        ensures
            match rule_of(self.cfg.rules@, *dev) {
                Some(x) => r is Some && *r->0 == x,
                None => r is None,
            },
    {
        match (&dev.vid, &dev.pid) {
            (Some(vid), Some(pid)) => self.cfg.rule_for(vid.as_str(), pid.as_str()),
            _ => None,
        }
    }

    fn position(&self, instance_id: &str) -> (r: Option<usize>)
        ensures
            match position_of(self.active@, instance_id@) {
                Some(i) => r is Some && r->0 == i && i < self.active@.len()
                    && self.active@[i].0@ == instance_id@,
                None => r is None,
            },
    {
        let ghost p = |e: (String, Device)| has_id(e, instance_id@);
        let mut i: usize = 0;
        while i < self.active.len()
            invariant
                i <= self.active@.len(),
                p == (|e: (String, Device)| has_id(e, instance_id@)),
                forall|j: int| 0 <= j < i ==> !p(#[trigger] self.active@[j]),
            decreases self.active@.len() - i,
        {
            if same_text(self.active[i].0.as_str(), instance_id) {
                proof {
                    lemma_first_is(self.active@, p, i as int);
                }
                return Some(i);
            }
            i = i + 1;
        }
        proof {
            lemma_first_where(self.active@, p);
        }
        None
    }

    fn effective_position(&self) -> (r: Option<usize>)
        ensures
            match self@.effective() {
                Some(i) => r is Some && r->0 == i && i < self.active@.len() && ruled(
                    self.cfg.rules@,
                    self.active@[i].1,
                ),
                None => r is None,
            },
    {
        let pos: Option<usize> = match &self.in_force {
            Some(id) => self.position(id.as_str()),
            None => None,
        };
        match pos {
            Some(i) => if self.rule_for(&self.active[i].1).is_some() {
                Some(i)
            } else {
                None
            },
            None => None,
        }
    }

    /// The device whose rule is in force, and that rule.
    pub fn effective_rule(&self) -> (r: Option<(&Device, &Rule)>)
        ensures
            match self@.effective() {
                Some(i) => r is Some && *(r->0).0 == self.active@[i].1 && Some(*(r->0).1)
                    == rule_of(self.cfg.rules@, self.active@[i].1),
                None => r is None,
            },
    {
        match self.effective_position() {
            Some(i) => {
                let dev = &self.active[i].1;
                match self.rule_for(dev) {
                    Some(rule) => Some((dev, rule)),
                    None => None,
                }
            },
            None => None,
        }
    }

    fn rule_in_force_is_of(&self, instance_id: &str) -> (r: bool)
        ensures
            r == self@.is_effective(instance_id@),
    {
        match self.effective_rule() {
            Some((dev, _)) => same_text(dev.instance_id.as_str(), instance_id),
            None => false,
        }
    }

    /// The scroll mode settings in force; `None` while scroll mode is off.
    pub fn effective_scroll(&self) -> (r: Option<ScrollCfg>)
        ensures
            r == self@.scroll(),
    {
        let s = match self.effective_rule() {
            Some((_, rule)) => rule.scroll,
            None => self.cfg.scroll,
        };
        match s {
            Some(c) => if c.enabled {
                Some(c)
            } else {
                None
            },
            None => None,
        }
    }

    /// Whether the global settings are in force.
    pub fn global_active(&self) -> (r: bool)
        ensures
            r == self@.global_active(),
    {
        self.in_force.is_none()
    }

    /// A device was plugged in: it is listed, and nothing else happens.
    pub fn on_device_inserted(&mut self, dev: &Device)
        requires
            old(self).wf(),
        ensures
            final(self).wf(),
            final(self)@ == old(self)@.plugged(*dev),
    {
        proof {
            lemma_position(self.active@, dev.instance_id@);
        }
        if self.position(dev.instance_id.as_str()).is_some() {
            return;
        }
        self.active.push((dev.instance_id.clone(), dev.clone()));
        proof {
            let before = old(self).active@;
            assert forall|k: Seq<char>| #[trigger] listed(before, k) implies listed(
                self.active@,
                k,
            ) by {
                let i = choose|i: int| 0 <= i < before.len() && (#[trigger] before[i]).0@ == k;
                assert(self.active@[i] == before[i]);
            }
        }
    }

    /// Puts the global settings in force.
    pub fn activate_global(&mut self) -> (w: Vec<SpeedWrite>)
        ensures
            final(self)@ == old(self)@.to_global(),
            final(self).saved == old(self).saved,
            w@ == old(self)@.global_writes(),
    {
        self.in_force = None;
        self.applied_speed = clamp_speed(self.cfg.speed);
        self.applied_wheel = clamp_wheel(self.cfg.wheel);
        let mut w: Vec<SpeedWrite> = Vec::new();
        w.push(SpeedWrite::Pointer(self.applied_speed));
        w.push(SpeedWrite::Wheel(self.applied_wheel));
        assert(w@ =~= old(self)@.global_writes());
        w
    }

    /// A device was pulled out: it leaves the list, and when it was the one
    /// switched to, the global settings come back.
    pub fn on_device_removed(&mut self, instance_id: &str) -> (w: Vec<SpeedWrite>)
        requires
            old(self).wf(),
        ensures
            final(self).wf(),
            final(self)@ == old(self)@.pulled(instance_id@),
            w@ == old(self)@.pulled_writes(instance_id@),
    {
        let ghost before = self@;
        match self.position(instance_id) {
            Some(pos) => {
                let was_in_force = match &self.in_force {
                    Some(id) => same_text(id.as_str(), instance_id),
                    None => false,
                };
                self.active.remove(pos);
                self.saved.remove(instance_id);
                proof {
                    let p = pos as int;
                    assert forall|k: Seq<char>| #[trigger]
                        listed(before.active, k) && k != instance_id@ implies listed(
                        self.active@,
                        k,
                    ) by {
                        let i = choose|i: int|
                            0 <= i < before.active.len() && (#[trigger] before.active[i]).0@ == k;
                        assert(i != p);
                        let j = if i < p { i } else { i - 1 };
                        assert(self.active@[j] == before.active[i]);
                    }
                }
                if was_in_force {
                    self.activate_global()
                } else {
                    Vec::new()
                }
            },
            None => Vec::new(),
        }
    }

    /// A scan found the devices `now`. Those that left are dropped and new ones
    /// are listed behind the others. What is in force changes only when the device
    /// that was switched to left: then the global settings come back.
    pub fn apply_diff(&mut self, now: &Vec<Device>) -> (w: Vec<SpeedWrite>)
        requires
            old(self).wf(),
        ensures
            final(self).wf(),
            final(self)@ == old(self)@.scanned(now@),
            w@ == old(self)@.scanned_writes(now@),
    {
        let ghost start = self@;
        let w = self.drop_missing(now);
        let ghost kept = self@;
        let mut k: usize = 0;
        while k < now.len()
            invariant
                k <= now@.len(),
                self.wf(),
                self@ == (StateModel {
                    active: with_devices(kept.active, now@.take(k as int)),
                    ..kept
                }),
            decreases now@.len() - k,
        {
            self.on_device_inserted(&now[k]);
            k = k + 1;
            proof {
                let t = now@.take(k as int);
                assert(t.drop_last() =~= now@.take(k - 1));
                assert(t.last() == now@[k - 1]);
            }
        }
        assert(now@.take(k as int) =~= now@);
        assert(self@ =~= start.scanned(now@));
        w
    }

    /// Drops the listed devices that are not among those found.
    fn drop_missing(&mut self, now: &Vec<Device>) -> (w: Vec<SpeedWrite>)
        requires
            old(self).wf(),
        ensures
            final(self).wf(),
            final(self)@ == (StateModel {
                active: still_there(old(self)@.active, now@),
                ..old(self)@.scanned(now@)
            }),
            w@ == old(self)@.scanned_writes(now@),
    {
        let ghost start = self@;
        let ghost keep = |e: (String, Device)| present(now@, e.0@);
        let mut w: Vec<SpeedWrite> = Vec::new();
        let mut i: usize = 0;
        let ghost mut j: int = 0;
        proof {
            assert(start.active.take(0) =~= seq![]);
            assert(start.active.take(0).filter(keep) =~= seq![]) by {
                reveal(Seq::filter);
            }
            assert(self.saved@ =~= start.saved.remove_keys(gone(start.active, now@, 0)));
        }
        while i < self.active.len()
            invariant
                keep == (|e: (String, Device)| present(now@, e.0@)),
                start.wf(),
                self.wf(),
                0 <= j <= start.active.len(),
                i == start.active.take(j).filter(keep).len(),
                self.active@ == start.active.take(j).filter(keep) + start.active.skip(j),
                self.cfg == start.cfg,
                self.saved@ == start.saved.remove_keys(gone(start.active, now@, j)),
                fired(start, now@, j) ==> {
                    &&& self.in_force is None
                    &&& self.applied_speed == valid_speed(start.cfg.speed)
                    &&& self.applied_wheel == valid_wheel(start.cfg.wheel)
                    &&& w@ == start.global_writes()
                },
                !fired(start, now@, j) ==> {
                    &&& view_opt(self.in_force) == start.in_force
                    &&& self.applied_speed == start.applied_speed
                    &&& self.applied_wheel == start.applied_wheel
                    &&& w@.len() == 0
                },
            decreases start.active.len() - j,
        {
            let ghost e = start.active[j];
            let ghost head = start.active.take(j).filter(keep);
            proof {
                lemma_position(start.active, e.0@);
                assert(position_of(start.active, e.0@) == Some(j));
                assert(self.active@[i as int] == e);
                assert(start.active.take(j + 1) =~= start.active.take(j).push(e));
                start.active.take(j).lemma_filter_push(e, keep);
            }
            let id = self.active[i].0.clone();
            if found(now, id.as_str()) {
                proof {
                    assert(self.active@ =~= head.push(e) + start.active.skip(j + 1));
                    assert(gone(start.active, now@, j + 1) =~= gone(start.active, now@, j));
                }
                i = i + 1;
            } else {
                let ghost m = self@;
                proof {
                    lemma_position(m.active, id@);
                    assert(position_of(m.active, id@) == Some(i as int));
                }
                let mut more = self.on_device_removed(id.as_str());
                proof {
                    assert(m.active.remove(i as int) =~= head + start.active.skip(j + 1));
                    assert(gone(start.active, now@, j + 1) =~= gone(start.active, now@, j).insert(
                        id@,
                    ));
                    assert(self.saved@ =~= start.saved.remove_keys(
                        gone(start.active, now@, j + 1),
                    ));
                }
                w.append(&mut more);
            }
            proof {
                j = j + 1;
            }
        }
        proof {
            if let Some(id) = start.in_force {
                lemma_position(start.active, id);
            }
            assert(start.active.take(j) =~= start.active);
            assert(self.active@ =~= start.active.filter(keep));
            assert(self.saved@ =~= start.saved.restrict(
                Set::new(|k: Seq<char>| present(now@, k)),
            ));
            assert(w@ =~= start.scanned_writes(now@));
        }
        w
    }

    /// Switches to a listed device: it moves to the end of the list and its
    /// rule, if it has one, is put in force. `sys` is what the system has set.
    pub fn activate_rule(&mut self, instance_id: &str, sys: SystemSpeed) -> (w: Vec<SpeedWrite>)
        requires
            old(self).wf(),
        ensures
            final(self).wf(),
            final(self)@ == old(self)@.activated(instance_id@, sys),
            w@ == old(self)@.activated_writes(instance_id@),
    {
        let ghost before = self@;
        let mut w: Vec<SpeedWrite> = Vec::new();
        let pos: usize = match self.position(instance_id) {
            Some(p) => p,
            None => {
                return w;
            },
        };
        if pos == self.active.len() - 1 && self.rule_in_force_is_of(instance_id) {
            assert(w@ =~= before.activated_writes(instance_id@));
            return w;
        }
        let (id, dev) = self.active.remove(pos);
        let target = match self.rule_for(&dev) {
            Some(rule) => Some((rule.speed, rule.wheel)),
            None => None,
        };
        if let Some((target_speed, target_wheel)) = target {
            self.saved.insert(id.clone(), (sys.speed, sys.wheel));
            self.applied_speed = clamp_speed(target_speed);
            w.push(SpeedWrite::Pointer(target_speed));
            if let Some(lines) = target_wheel {
                self.applied_wheel = clamp_wheel(lines);
                w.push(SpeedWrite::Wheel(lines));
            }
            self.in_force = Some(id.clone());
        }
        self.active.push((id, dev));
        proof {
            let p = pos as int;
            let n = before.active.len() - 1;
            assert(self.active@[n] == before.active[p]);
            assert(listed(before.active, instance_id@));
            assert forall|k: Seq<char>| #[trigger] listed(before.active, k) implies listed(
                self.active@,
                k,
            ) by {
                if k == instance_id@ {
                    assert(self.active@[n].0@ == k);
                } else {
                    let i = choose|i: int|
                        0 <= i < before.active.len() && (#[trigger] before.active[i]).0@ == k;
                    let j = if i < p { i } else { i - 1 };
                    assert(self.active@[j] == before.active[i]);
                }
            }
            assert(self@ =~= before.activated(instance_id@, sys));
            assert(w@ =~= before.activated_writes(instance_id@));
        }
        w
    }

    /// A device entry was chosen: switches to the device, or back to the global
    /// settings when its rule is in force.
    pub fn toggle_rule(&mut self, instance_id: &str, sys: SystemSpeed) -> (w: Vec<SpeedWrite>)
        requires
            old(self).wf(),
        ensures
            final(self).wf(),
            final(self)@ == old(self)@.toggled(instance_id@, sys),
            w@ == old(self)@.toggled_writes(instance_id@),
    {
        if self.rule_in_force_is_of(instance_id) {
            self.activate_global()
        } else {
            self.activate_rule(instance_id, sys)
        }
    }

    /// Edits the global pointer speed, which is applied only while the global
    /// settings are in force.
    pub fn set_global_speed(&mut self, v: u32) -> (w: Vec<SpeedWrite>)
        ensures
            final(self)@ == old(self)@.with_global_speed(v),
            final(self).saved == old(self).saved,
            w@ == old(self)@.global_speed_writes(v),
    {
        let mut w: Vec<SpeedWrite> = Vec::new();
        self.cfg.speed = clamp_speed(v);
        if self.global_active() {
            self.applied_speed = self.cfg.speed;
            w.push(SpeedWrite::Pointer(self.applied_speed));
        }
        w
    }

    /// Edits the global wheel lines, which are applied only while the global
    /// settings are in force.
    pub fn set_global_wheel(&mut self, v: u32) -> (w: Vec<SpeedWrite>)
        ensures
            final(self)@ == old(self)@.with_global_wheel(v),
            final(self).saved == old(self).saved,
            w@ == old(self)@.global_wheel_writes(v),
    {
        let mut w: Vec<SpeedWrite> = Vec::new();
        self.cfg.wheel = clamp_wheel(v);
        if self.global_active() {
            self.applied_wheel = self.cfg.wheel;
            w.push(SpeedWrite::Wheel(self.applied_wheel));
        }
        w
    }

    /// Edits the global scroll mode settings; without any, fresh ones are
    /// edited.
    pub fn update_global_scroll<F: FnOnce(ScrollCfg) -> ScrollCfg>(&mut self, f: F)
        requires
            f.requires((
                match old(self).cfg.scroll {
                    Some(c) => c,
                    None => ScrollCfg::initial(),
                },
            )),
        ensures
            final(self).cfg.scroll matches Some(c) && f.ensures(
                (
                    match old(self).cfg.scroll {
                        Some(c) => c,
                        None => ScrollCfg::initial(),
                    },
                ),
                c,
            ) && final(self)@ == old(self)@.with_global_scroll(c),
            final(self).saved == old(self).saved,
    {
        let before = match self.cfg.scroll {
            Some(c) => c,
            None => ScrollCfg::default(),
        };
        self.cfg.scroll = Some(f(before));
    }

    /// Resets the global settings to those of a fresh system and drops the
    /// global scroll mode settings.
    pub fn reset_global(&mut self) -> (w: Vec<SpeedWrite>)
        ensures
            final(self)@ == old(self)@.with_global_reset(),
            final(self).saved == old(self).saved,
            w@ == old(self)@.global_reset_writes(),
    {
        self.cfg.speed = SPEED_DEFAULT;
        self.cfg.wheel = WHEEL_DEFAULT;
        self.cfg.scroll = None;
        if self.global_active() {
            self.activate_global()
        } else {
            Vec::new()
        }
    }

    /// How many of the listed devices have a rule.
    pub fn active_rule_count(&self) -> (r: usize)
        ensures
            r == ruled_entries(self.cfg.rules@, self.active@).len(),
    {
        let ghost rules = self.cfg.rules@;
        let ghost p = |e: (String, Device)| ruled(rules, e.1);
        let mut n: usize = 0;
        proof {
            assert(self.active@.take(0).filter(p) =~= seq![]) by {
                reveal(Seq::filter);
            }
        }
        for i in 0..self.active.len()
            invariant
                rules == self.cfg.rules@,
                p == (|e: (String, Device)| ruled(rules, e.1)),
                n == self.active@.take(i as int).filter(p).len(),
                n <= i,
        {
            proof {
                assert(self.active@.take(i + 1) =~= self.active@.take(i as int).push(
                    self.active@[i as int],
                ));
                self.active@.take(i as int).lemma_filter_push(self.active@[i as int], p);
            }
            if self.rule_for(&self.active[i].1).is_some() {
                n = n + 1;
            }
        }
        assert(self.active@.take(self.active@.len() as int) =~= self.active@);
        n
    }

    /// Applies all rules anew, in the order of the list; the last one stays in
    /// force. `sys` is what the system has set.
    pub fn reapply(&mut self, sys: SystemSpeed) -> (w: Vec<SpeedWrite>)
        requires
            old(self).wf(),
        ensures
            final(self).wf(),
            final(self)@ == old(self)@.reapplied(sys),
            w@ == old(self)@.reapplied_writes(),
    {
        let ghost start = self@;
        let ghost rules = self.cfg.rules@;
        let mut cur: u32 = sys.speed;
        let mut cur_wheel: u32 = sys.wheel;
        let mut saved = Baselines::new();
        let mut last: Option<usize> = None;
        let ghost p = |e: (String, Device)| ruled(rules, e.1);
        let mut w: Vec<SpeedWrite> = Vec::new();
        for i in 0..self.active.len()
            invariant
                self@ == start,
                start.wf(),
                rules == self.cfg.rules@,
                saved.wf(),
                (SystemSpeed { speed: cur, wheel: cur_wheel }) == settings_after(
                    rules,
                    self.active@,
                    sys,
                    i as int,
                ),
                saved@ == baselines_after(rules, self.active@, sys, i as int),
                w@ == writes_after(rules, self.active@, i as int),
                forall|k: Seq<char>| #[trigger]
                    saved@.dom().contains(k) ==> listed(self.active@, k),
                p == (|e: (String, Device)| ruled(rules, e.1)),
                last matches Some(l) ==> l < i && p(self.active@[l as int]),
                forall|j: int|
                    (match last {
                        Some(l) => l < j,
                        None => 0 <= j,
                    }) && j < i ==> !p(#[trigger] self.active@[j]),
        {
            if let Some(rule) = self.rule_for(&self.active[i].1) {
                last = Some(i);
                saved.insert(self.active[i].0.clone(), (cur, cur_wheel));
                let ghost before = w@;
                cur = clamp_speed(rule.speed);
                w.push(SpeedWrite::Pointer(rule.speed));
                if let Some(lines) = rule.wheel {
                    cur_wheel = clamp_wheel(lines);
                    w.push(SpeedWrite::Wheel(lines));
                }
                proof {
                    assert(ruled(rules, self.active@[i as int].1));
                    assert(listed(self.active@, self.active@[i as int].0@));
                    assert(w@ =~= before + rule_writes(*rule));
                }
            }
        }
        self.saved = saved;
        proof {
            lemma_last_where(start.active, p);
        }
        match last {
            Some(l) => {
                self.applied_speed = cur;
                self.applied_wheel = cur_wheel;
                self.in_force = Some(self.active[l].0.clone());
                proof {
                    lemma_last_is(start.active, p, l as int);
                    assert(listed(self.active@, self.active@[l as int].0@));
                    assert(self@ =~= start.reapplied(sys));
                }
                w
            },
            None => self.activate_global(),
        }
    }

    /// Stores the rule of the given ids and applies all rules anew.
    pub fn store_rule(
        &mut self,
        vid: &str,
        pid: &str,
        speed: u32,
        wheel: Option<u32>,
        name: &String,
        sys: SystemSpeed,
    ) -> (w: Vec<SpeedWrite>)
        requires
            old(self).wf(),
        ensures
            final(self).wf(),
            rule_stored(
                old(self)@,
                final(self)@,
                vid@,
                pid@,
                speed,
                wheel,
                *name,
                sys,
                w@,
            ),
    {
        let _ = self.cfg.set_rule(vid, pid, speed, wheel, Some(name.clone()));
        self.reapply(sys)
    }

    /// Stores the rule of the given ids, its scroll mode settings included, and
    /// applies all rules anew.
    pub fn store_rule_with_scroll(
        &mut self,
        vid: &str,
        pid: &str,
        speed: u32,
        wheel: Option<u32>,
        scroll: Option<ScrollCfg>,
        name: &String,
        sys: SystemSpeed,
    ) -> (w: Vec<SpeedWrite>)
        requires
            old(self).wf(),
        ensures
            final(self).wf(),
            rule_stored_with_scroll(
                old(self)@,
                final(self)@,
                vid@,
                pid@,
                speed,
                wheel,
                scroll,
                *name,
                sys,
                w@,
            ),
    {
        self.cfg.set_rule_with_scroll(vid, pid, speed, wheel, scroll, Some(name.clone()));
        self.reapply(sys)
    }

    /// Deletes the rules of the given ids and applies all rules anew.
    pub fn delete_rule(&mut self, vid: &str, pid: &str, sys: SystemSpeed) -> (w: Vec<SpeedWrite>)
        requires
            old(self).wf(),
        ensures
            final(self).wf(),
            rule_deleted(old(self)@, final(self)@, vid@, pid@, sys, w@),
    {
        let _ = self.cfg.remove_rule(vid, pid);
        self.reapply(sys)
    }

    /// Sets the pointer speed by hand; no rule is in force any more.
    pub fn set_speed_manual(&mut self, v: u32) -> (w: Vec<SpeedWrite>)
        ensures
            final(self)@ == old(self)@.with_manual_speed(v),
            final(self).saved == old(self).saved,
            w@ == manual_speed_writes(v),
    {
        let v: u32 = clamp_speed(v);
        let mut w: Vec<SpeedWrite> = Vec::new();
        w.push(SpeedWrite::Pointer(v));
        self.applied_speed = v;
        self.in_force = None;
        w
    }

    /// Sets the wheel lines by hand; no rule is in force any more.
    pub fn set_wheel_manual(&mut self, v: u32) -> (w: Vec<SpeedWrite>)
        ensures
            final(self)@ == old(self)@.with_manual_wheel(v),
            final(self).saved == old(self).saved,
            w@ == manual_wheel_writes(v),
    {
        let v: u32 = clamp_wheel(v);
        let mut w: Vec<SpeedWrite> = Vec::new();
        w.push(SpeedWrite::Wheel(v));
        self.applied_wheel = v;
        self.in_force = None;
        w
    }

    /// The system was seen to have the given settings; says whether someone
    /// else set them. In that case no rule is in force any more.
    pub fn on_speed_observed(&mut self, cur_speed: u32, cur_wheel: u32) -> (r: bool)
        ensures
            r == old(self)@.is_foreign(SystemSpeed { speed: cur_speed, wheel: cur_wheel }),
            final(self)@ == old(self)@.observed(
                SystemSpeed { speed: cur_speed, wheel: cur_wheel },
            ),
            final(self).saved == old(self).saved,
    {
        if cur_speed == self.applied_speed && cur_wheel == self.applied_wheel {
            return false;
        }
        self.applied_speed = cur_speed;
        self.applied_wheel = cur_wheel;
        self.in_force = None;
        true
    }

    /// The state at the start: the global settings are put in force and the
    /// devices found are listed. No rule is applied.
    pub fn new(cfg: Config, found: &Vec<Device>) -> (r: (AppState, Vec<SpeedWrite>))
        ensures
            r.0.wf(),
            r.0.cfg == (Config {
                speed: valid_speed(cfg.speed),
                wheel: valid_wheel(cfg.wheel),
                ..cfg
            }),
            r.0.active@ == with_devices(seq![], found@),
            r.0.saved@ == Map::<Seq<char>, (u32, u32)>::empty(),
            r.0.applied_speed == valid_speed(cfg.speed),
            r.0.applied_wheel == valid_wheel(cfg.wheel),
            r.0.in_force is None,
            r.0@ == StateModel::started(cfg, found@),
            r.1@ == StateModel::started(cfg, found@).global_writes(),
            r.1@ == seq![
                SpeedWrite::Pointer(valid_speed(cfg.speed)),
                SpeedWrite::Wheel(valid_wheel(cfg.wheel)),
            ],
    {
        let speed: u32 = clamp_speed(cfg.speed);
        let wheel: u32 = clamp_wheel(cfg.wheel);
        let mut s = AppState {
            cfg: Config { rules: cfg.rules, speed, wheel, scroll: cfg.scroll },
            active: Vec::new(),
            saved: Baselines::new(),
            applied_speed: speed,
            applied_wheel: wheel,
            in_force: None,
        };
        let mut w: Vec<SpeedWrite> = Vec::new();
        w.push(SpeedWrite::Pointer(speed));
        w.push(SpeedWrite::Wheel(wheel));
        let ghost first = s@;
        let mut k: usize = 0;
        while k < found.len()
            invariant
                k <= found@.len(),
                s.wf(),
                s@ == (StateModel {
                    active: with_devices(first.active, found@.take(k as int)),
                    ..first
                }),
            decreases found@.len() - k,
        {
            s.on_device_inserted(&found[k]);
            k = k + 1;
            proof {
                let t = found@.take(k as int);
                assert(t.drop_last() =~= found@.take(k - 1));
                assert(t.last() == found@[k - 1]);
            }
        }
        assert(found@.take(k as int) =~= found@);
        assert(first.active =~= seq![]);
        assert(s@ =~= StateModel::started(cfg, found@));
        assert(w@ =~= s@.global_writes());
        (s, w)
    }
}

/// The listed devices that have a rule.
pub open spec fn ruled_entries(rules: Seq<Rule>, active: Seq<(String, Device)>) -> Seq<
    (String, Device),
> {
    active.filter(|e: (String, Device)| ruled(rules, e.1))
}

/// The instance ids of the first `j` listed devices that were not found.
spec fn gone(active: Seq<(String, Device)>, now: Seq<Device>, j: int) -> Set<Seq<char>> {
    Set::new(
        |k: Seq<char>|
            exists|l: int|
                0 <= l < j && l < active.len() && (#[trigger] active[l]).0@ == k && !present(now, k),
    )
}

/// The device that was switched to is among the first `j` and was not found.
spec fn fired(m: StateModel, now: Seq<Device>, j: int) -> bool {
    &&& m.in_force_is_gone(now)
    &&& position_of(m.active, m.in_force->0) matches Some(x)
    &&& x < j
}

/// Whether a device with the given instance id is among those found.
fn found(now: &Vec<Device>, id: &str) -> (r: bool)
    ensures
        r == present(now@, id@),
{
    let mut k: usize = 0;
    while k < now.len()
        invariant
            k <= now@.len(),
            forall|l: int| 0 <= l < k ==> (#[trigger] now@[l]).instance_id@ != id@,
        decreases now@.len() - k,
    {
        if same_text(now[k].instance_id.as_str(), id) {
            return true;
        }
        k = k + 1;
    }
    false
}

} // verus!

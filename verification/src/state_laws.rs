//! What holds of the state over several events.

use crate::config::{
    law_removed_rule_is_gone, law_removing_keeps_other_rules, law_stored_rule_is_read_back,
    law_stored_scroll_is_read_back, law_storing_keeps_other_rules,
    law_storing_with_scroll_keeps_other_rules, lemma_rule_index, lemma_rule_index_is, rule_index,
    rules_with, Config, Rule,
};
use crate::devices::Device;
use crate::scroll::ScrollCfg;
use crate::search::{
    first_where, lemma_first_in_filter, lemma_first_push, lemma_first_where, lemma_last_is,
    lemma_last_where,
};
use crate::speed::{
    valid_speed, valid_wheel, SpeedWrite, SystemSpeed, SPEED_DEFAULT, SPEED_MAX, SPEED_MIN,
    WHEEL_DEFAULT, WHEEL_MAX, WHEEL_MIN,
};
use crate::state::{
    baselines_after, has_id, lemma_effective, lemma_effective_is, lemma_position, listed,
    manual_speed_writes, manual_wheel_writes, position_of, present, rule_deleted, rule_of,
    rule_stored, rule_stored_with_scroll, rule_writes, ruled, ruled_entries, settings_after,
    settings_of, still_there, with_devices, with_edited_rules, writes_after, StateModel,
};
use crate::text::{lemma_upper_twice, same_ignoring_case};
use vstd::prelude::*;

verus! {

proof fn lemma_two_writes(sys: SystemSpeed, a: SpeedWrite, b: SpeedWrite)
    ensures
        sys.after_all(seq![a, b]) == sys.after(a).after(b),
        sys.after_all(seq![a]) == sys.after(a),
{
    let none = Seq::<SpeedWrite>::empty();
    let one = seq![a];
    let two = seq![a, b];
    assert(one.drop_last() =~= none);
    assert(two.drop_last() =~= one);
    reveal_with_fuel(SystemSpeed::after_all, 3);
}

/// Switching to a listed device that has a rule puts that rule in force,
/// whatever was in force before and whenever the device was plugged in. The
/// device comes last in the list and the others keep their order. Unless all
/// that was so already, the settings of the system become those of the rule; a
/// rule without wheel lines leaves those of the system.
pub proof fn law_switched_device_is_in_force(m: StateModel, id: Seq<char>, sys: SystemSpeed)
    requires
        m.wf(),
        listed(m.active, id),
        ruled(m.cfg.rules@, m.active[position_of(m.active, id)->0].1),
    ensures
        m.activated(id, sys).is_effective(id),
        ({
            let i = position_of(m.active, id)->0;
            let r = rule_of(m.cfg.rules@, m.active[i].1)->0;
            &&& m.activated(id, sys).active == m.active.remove(i).push(m.active[i])
            &&& m.is_effective(id) && i == m.active.len() - 1 ==> m.activated(id, sys) == m
                && m.activated_writes(id) == Seq::<SpeedWrite>::empty()
            &&& !(m.is_effective(id) && i == m.active.len() - 1) ==> {
                &&& m.activated(id, sys).applied_speed == valid_speed(r.speed)
                &&& m.activated(id, sys).saved == m.saved.insert(id, (sys.speed, sys.wheel))
                &&& sys.after_all(m.activated_writes(id)) == settings_of(r, sys)
            }
        }),
{
    lemma_position(m.active, id);
    let i = position_of(m.active, id)->0;
    let r = m.activated(id, sys);
    let rule = rule_of(m.cfg.rules@, m.active[i].1)->0;
    if m.moves(i) {
        let last = r.active.len() - 1;
        assert forall|j: int| 0 <= j < last implies (#[trigger] r.active[j]).0@
            != r.active[last].0@ by {
            assert(r.active[j] == m.active[if j < i { j } else { j + 1 }]);
        }
        lemma_effective_is(r, last);
        match rule.wheel {
            Some(w) => lemma_two_writes(
                sys,
                SpeedWrite::Pointer(rule.speed),
                SpeedWrite::Wheel(w),
            ),
            None => lemma_two_writes(
                sys,
                SpeedWrite::Pointer(rule.speed),
                SpeedWrite::Pointer(rule.speed),
            ),
        }
    } else {
        assert(m.active.remove(i).push(m.active[i]) =~= m.active);
    }
}

/// Choosing the entry of a device with a rule switches to it, and choosing the
/// entry again switches back to the global settings.
pub proof fn law_choosing_twice_returns_to_global(
    m: StateModel,
    id: Seq<char>,
    first: SystemSpeed,
    second: SystemSpeed,
)
    requires
        m.wf(),
        listed(m.active, id),
        ruled(m.cfg.rules@, m.active[position_of(m.active, id)->0].1),
        !m.is_effective(id),
    ensures
        m.toggled(id, first).is_effective(id),
        m.toggled(id, first).toggled(id, second).global_active(),
        second.after_all(m.toggled(id, first).toggled_writes(id)) == (SystemSpeed {
            speed: valid_speed(m.cfg.speed),
            wheel: valid_wheel(m.cfg.wheel),
        }),
{
    law_switched_device_is_in_force(m, id, first);
    lemma_two_writes(
        second,
        SpeedWrite::Pointer(valid_speed(m.cfg.speed)),
        SpeedWrite::Wheel(valid_wheel(m.cfg.wheel)),
    );
}

/// While the settings of a device are in force, editing or resetting the global
/// settings changes neither what is in force nor what is applied.
pub proof fn law_editing_global_keeps_the_device(m: StateModel, v: u32, c: ScrollCfg)
    requires
        m.effective() is Some,
    ensures
        m.with_global_speed(v).effective() == m.effective(),
        m.with_global_speed(v).applied_speed == m.applied_speed,
        m.with_global_speed(v).scroll() == m.scroll(),
        m.with_global_wheel(v).effective() == m.effective(),
        m.with_global_wheel(v).applied_wheel == m.applied_wheel,
        m.with_global_wheel(v).scroll() == m.scroll(),
        m.with_global_scroll(c).effective() == m.effective(),
        m.with_global_scroll(c).scroll() == m.scroll(),
        m.with_global_reset().effective() == m.effective(),
        m.with_global_reset().applied_speed == m.applied_speed,
        m.with_global_reset().applied_wheel == m.applied_wheel,
        m.with_global_reset().scroll() == m.scroll(),
{
}

/// The scroll mode settings of a device are its own: while its rule is in
/// force and has none, or has them off, scroll mode is off whatever the global
/// settings say.
pub proof fn law_rule_scroll_does_not_fall_back(m: StateModel)
    requires
        m.effective() is Some,
    ensures
        m.scroll() == match rule_of(m.cfg.rules@, m.active[m.effective()->0].1)->0.scroll {
            Some(c) => if c.enabled {
                Some(c)
            } else {
                None
            },
            None => None,
        },
{
}

/// Setting a speed by hand takes every rule out of force, and the global scroll
/// mode settings count again.
pub proof fn law_manual_speed_overrides_rules(m: StateModel, v: u32)
    ensures
        m.with_manual_speed(v).effective() is None,
        m.with_manual_speed(v).scroll() == m.to_global().scroll(),
        m.with_manual_wheel(v).effective() is None,
        m.with_manual_wheel(v).scroll() == m.to_global().scroll(),
{
}

/// A speed set by hand is not taken for a change by someone else when the
/// system reports it back.
pub proof fn law_manual_speed_is_not_foreign(m: StateModel, v: u32, sys: SystemSpeed)
    ensures
        sys.wheel == m.applied_wheel ==> !m.with_manual_speed(v).is_foreign(
            sys.after(SpeedWrite::Pointer(valid_speed(v))),
        ),
        sys.speed == m.applied_speed ==> !m.with_manual_wheel(v).is_foreign(
            sys.after(SpeedWrite::Wheel(valid_wheel(v))),
        ),
{
}

/// Putting the global settings in force is not taken for a change by someone
/// else when the system reports it back.
pub proof fn law_global_write_is_not_foreign(m: StateModel, sys: SystemSpeed)
    ensures
        !m.to_global().is_foreign(sys.after_all(m.global_writes())),
        m.to_global().observed(sys.after_all(m.global_writes())) == m.to_global(),
{
    lemma_two_writes(
        sys,
        SpeedWrite::Pointer(valid_speed(m.cfg.speed)),
        SpeedWrite::Wheel(valid_wheel(m.cfg.wheel)),
    );
}

/// Putting a rule in force is not taken for a change by someone else when the
/// system reports it back, whatever values the rule has, provided nobody else
/// had changed the settings before.
pub proof fn law_rule_write_is_not_foreign(m: StateModel, id: Seq<char>, sys: SystemSpeed)
    requires
        m.wf(),
        listed(m.active, id),
        !m.is_foreign(sys),
        ruled(m.cfg.rules@, m.active[position_of(m.active, id)->0].1),
    ensures
        !m.activated(id, sys).is_foreign(sys.after_all(m.activated_writes(id))),
{
    lemma_position(m.active, id);
    let r = rule_of(m.cfg.rules@, m.active[position_of(m.active, id)->0].1)->0;
    match r.wheel {
        Some(w) => lemma_two_writes(sys, SpeedWrite::Pointer(r.speed), SpeedWrite::Wheel(w)),
        None => lemma_two_writes(
            sys,
            SpeedWrite::Pointer(r.speed),
            SpeedWrite::Pointer(r.speed),
        ),
    }
    assert(sys.after_all(seq![]) == sys);
}

/// Pulling out the device whose rule is in force brings the global settings
/// back, in the state and in the system.
pub proof fn law_pulling_the_device_returns_to_global(
    m: StateModel,
    id: Seq<char>,
    sys: SystemSpeed,
)
    requires
        m.wf(),
        m.is_effective(id),
    ensures
        m.pulled(id).global_active(),
        !listed(m.pulled(id).active, id),
        sys.after_all(m.pulled_writes(id)) == (SystemSpeed {
            speed: valid_speed(m.cfg.speed),
            wheel: valid_wheel(m.cfg.wheel),
        }),
{
    lemma_effective(m);
    let e = m.effective()->0;
    assert(m.active[e].0@ == id);
    lemma_position(m.active, id);
    let i = position_of(m.active, id)->0;
    let rest = m.active.remove(i);
    assert forall|j: int| 0 <= j < rest.len() implies (#[trigger] rest[j]).0@ != id by {
        let k = if j < i { j } else { j + 1 };
        assert(rest[j] == m.active[k]);
        assert(m.active[i].0@ == id);
    }
    lemma_two_writes(
        sys,
        SpeedWrite::Pointer(valid_speed(m.cfg.speed)),
        SpeedWrite::Wheel(valid_wheel(m.cfg.wheel)),
    );
}

/// Plugging a device in changes nothing but the list: the same rule, or the
/// global settings, stay in force.
pub proof fn law_plugging_in_applies_nothing(m: StateModel, d: Device)
    requires
        m.wf(),
    ensures
        m.plugged(d).effective() == m.effective(),
        m.plugged(d).scroll() == m.scroll(),
        m.plugged(d) == (StateModel { active: m.plugged(d).active, ..m }),
        listed(m.plugged(d).active, d.instance_id@),
{
    let after = m.plugged(d).active;
    if !listed(m.active, d.instance_id@) {
        assert(after[m.active.len() as int].0@ == d.instance_id@);
        if let Some(id) = m.in_force {
            lemma_position(m.active, id);
            lemma_first_push(
                m.active,
                (d.instance_id, d),
                |e: (String, Device)| has_id(e, id),
            );
        }
        lemma_effective(m);
    }
}

proof fn lemma_with_devices(active: Seq<(String, Device)>, now: Seq<Device>)
    ensures
        active.len() <= with_devices(active, now).len(),
        with_devices(active, now).take(active.len() as int) == active,
        forall|id: Seq<char>| #[trigger]
            listed(with_devices(active, now), id) <==> listed(active, id) || present(now, id),
        forall|i: int|
            active.len() <= i < with_devices(active, now).len() ==> exists|k: int|
                0 <= k < now.len() && now[k] == (#[trigger] with_devices(active, now)[i]).1
                    && !listed(active, now[k].instance_id@),
    decreases now.len(),
{
    let all = with_devices(active, now);
    if now.len() == 0 {
        assert(all.take(active.len() as int) =~= active);
        assert forall|id: Seq<char>| #[trigger]
            listed(all, id) <==> listed(active, id) || present(now, id) by {}
    } else {
        let rest = now.drop_last();
        let d = now.last();
        let before = with_devices(active, rest);
        lemma_with_devices(active, rest);
        assert(all.take(active.len() as int) =~= before.take(active.len() as int));
        assert forall|id: Seq<char>| #[trigger]
            listed(all, id) <==> listed(active, id) || present(now, id) by {
            assert(listed(before, id) <==> listed(active, id) || present(rest, id));
            if present(rest, id) {
                let k = choose|k: int|
                    0 <= k < rest.len() && (#[trigger] rest[k]).instance_id@ == id;
                assert(now[k].instance_id@ == id);
            }
            if present(now, id) {
                let k = choose|k: int| 0 <= k < now.len() && (#[trigger] now[k]).instance_id@ == id;
                if k < rest.len() {
                    assert(rest[k].instance_id@ == id);
                } else {
                    assert(d.instance_id@ == id);
                    if !listed(before, id) {
                        assert(all[before.len() as int].0@ == id);
                    }
                }
            }
            if d.instance_id@ == id {
                assert(now[now.len() - 1].instance_id@ == id);
            }
            if listed(before, id) {
                let i = choose|i: int| 0 <= i < before.len() && (#[trigger] before[i]).0@ == id;
                assert(all[i].0@ == id);
            }
            if listed(all, id) {
                let i = choose|i: int| 0 <= i < all.len() && (#[trigger] all[i]).0@ == id;
                if i < before.len() {
                    assert(before[i].0@ == id);
                } else {
                    assert(d.instance_id@ == id);
                }
            }
        }
        assert forall|i: int| active.len() <= i < all.len() implies exists|k: int|
            0 <= k < now.len() && now[k] == (#[trigger] all[i]).1 && !listed(
                active,
                now[k].instance_id@,
            ) by {
            if i < before.len() {
                assert(all[i] == before[i]);
                let k = choose|k: int|
                    0 <= k < rest.len() && rest[k] == before[i].1 && !listed(
                        active,
                        rest[k].instance_id@,
                    );
                assert(now[k] == all[i].1);
            } else {
                assert(!listed(before, d.instance_id@));
                assert(now[now.len() - 1] == all[i].1);
            }
        }
    }
}

proof fn lemma_still_there(active: Seq<(String, Device)>, now: Seq<Device>)
    ensures
        forall|id: Seq<char>| #[trigger]
            listed(still_there(active, now), id) <==> listed(active, id) && present(now, id),
{
    broadcast use vstd::seq_lib::group_filter_ensures;

    let keep = |e: (String, Device)| present(now, e.0@);
    let s = still_there(active, now);
    assert forall|id: Seq<char>| #[trigger]
        listed(s, id) <==> listed(active, id) && present(now, id) by {
        if listed(s, id) {
            let i = choose|i: int| 0 <= i < s.len() && (#[trigger] s[i]).0@ == id;
            assert(keep(s[i]));
            active.lemma_filter_contains_rev(keep, s[i]);
            assert(active.contains(s[i]));
        }
        if listed(active, id) && present(now, id) {
            let i = choose|i: int| 0 <= i < active.len() && (#[trigger] active[i]).0@ == id;
            assert(keep(active[i]));
            assert(s.contains(active[i]));
            let j = s.index_of(active[i]);
            assert(s[j].0@ == id);
        }
    }
}

/// After a scan exactly the devices found are listed.
pub proof fn law_scan_lists_what_is_there(m: StateModel, now: Seq<Device>, id: Seq<char>)
    ensures
        listed(m.scanned(now).active, id) <==> present(now, id),
{
    let kept = still_there(m.active, now);
    lemma_still_there(m.active, now);
    lemma_with_devices(kept, now);
    assert(listed(with_devices(kept, now), id) <==> listed(kept, id) || present(now, id));
    assert(listed(kept, id) <==> listed(m.active, id) && present(now, id));
}

/// A scan keeps the devices that are still there in their order and in front.
pub proof fn law_scan_keeps_the_order(m: StateModel, now: Seq<Device>)
    ensures
        ({
            let kept = m.active.filter(|e: (String, Device)| present(now, e.0@));
            m.scanned(now).active.take(kept.len() as int) == kept
        }),
{
    lemma_with_devices(still_there(m.active, now), now);
}

/// A scan switches nothing: while the device whose rule is in force is still
/// there, that rule stays in force, whichever devices are new, and nothing is
/// applied.
pub proof fn law_scan_does_not_switch(m: StateModel, now: Seq<Device>, i: int)
    requires
        m.wf(),
        m.effective() == Some(i),
        present(now, m.active[i].0@),
    ensures
        m.scanned(now).is_effective(m.active[i].0@),
        m.scanned(now).effective() matches Some(x) && m.scanned(now).active[x] == m.active[i],
        m.scanned(now).scroll() == m.scroll(),
        m.scanned(now).in_force == m.in_force,
        m.scanned(now).applied_speed == m.applied_speed,
        m.scanned(now).applied_wheel == m.applied_wheel,
        m.scanned_writes(now) == Seq::<SpeedWrite>::empty(),
{
    lemma_effective(m);
    let id = m.active[i].0@;
    let p = |e: (String, Device)| has_id(e, id);
    let keep = |e: (String, Device)| present(now, e.0@);
    let kept = still_there(m.active, now);
    let after = m.scanned(now);
    lemma_first_in_filter(m.active, keep, p);
    lemma_first_where(kept, p);
    lemma_with_devices(kept, now);
    let x = first_where(kept, p)->0;
    assert forall|j: int| 0 <= j <= x implies #[trigger] after.active[j] == kept[j] by {
        assert(after.active[j] == after.active.take(kept.len() as int)[j]);
    }
    assert forall|j: int| 0 <= j < x implies (#[trigger] after.active[j]).0@ != id by {
        assert(!p(kept[j]));
    }
    lemma_effective_is(after, x);
}

/// A scan never applies anything while the global settings are in force.
pub proof fn law_scan_under_global_applies_nothing(m: StateModel, now: Seq<Device>)
    requires
        m.global_active(),
    ensures
        m.scanned(now).global_active(),
        m.scanned(now).applied_speed == m.applied_speed,
        m.scanned(now).applied_wheel == m.applied_wheel,
        m.scanned_writes(now) == Seq::<SpeedWrite>::empty(),
{
}

/// What the changes of a re-application put into the system is what the state
/// takes to be applied.
proof fn lemma_settings_are_written(m: StateModel, sys: SystemSpeed, k: int)
    requires
        0 <= k <= m.active.len(),
    ensures
        sys.after_all(writes_after(m.cfg.rules@, m.active, k)) == settings_after(
            m.cfg.rules@,
            m.active,
            sys,
            k,
        ),
    decreases k,
{
    if k > 0 {
        lemma_settings_are_written(m, sys, k - 1);
        let before = writes_after(m.cfg.rules@, m.active, k - 1);
        if let Some(r) = rule_of(m.cfg.rules@, m.active[k - 1].1) {
            let one = before.push(SpeedWrite::Pointer(r.speed));
            assert(one.drop_last() =~= before);
            assert(sys.after_all(one) == sys.after_all(before).after(one.last()));
            match r.wheel {
                Some(w) => {
                    let two = one.push(SpeedWrite::Wheel(w));
                    assert(two.drop_last() =~= one);
                    assert(sys.after_all(two) == sys.after_all(one).after(two.last()));
                    assert(before + rule_writes(r) =~= two);
                },
                None => {
                    assert(before + rule_writes(r) =~= one);
                },
            }
        }
    }
}

/// Applying all rules anew, and so storing or deleting a rule, is not taken for
/// a change by someone else when the system reports it back: what was put in
/// force stays in force.
pub proof fn law_reapplying_is_not_foreign(m: StateModel, sys: SystemSpeed)
    ensures
        !m.reapplied(sys).is_foreign(sys.after_all(m.reapplied_writes())),
        m.reapplied(sys).observed(sys.after_all(m.reapplied_writes())) == m.reapplied(sys),
{
    if m.last_ruled() is Some {
        lemma_settings_are_written(m, sys, m.active.len() as int);
    } else {
        law_global_write_is_not_foreign(m, sys);
    }
}

/// Applying all rules anew leaves the rule of the last listed device that has
/// one in force.
pub proof fn law_reapplying_ends_with_the_last_rule(m: StateModel, sys: SystemSpeed, i: int)
    requires
        m.wf(),
        0 <= i < m.active.len(),
        ruled(m.cfg.rules@, m.active[i].1),
        forall|j: int| i < j < m.active.len() ==> !ruled(m.cfg.rules@, (#[trigger] m.active[j]).1),
    ensures
        m.reapplied(sys).effective() == Some(i),
        m.reapplied(sys).applied_speed == valid_speed(
            rule_of(m.cfg.rules@, m.active[i].1)->0.speed,
        ),
        rule_of(m.cfg.rules@, m.active[i].1)->0.wheel matches Some(w)
            ==> m.reapplied(sys).applied_wheel == valid_wheel(w),
        rule_of(m.cfg.rules@, m.active[i].1)->0.wheel is None ==> m.reapplied(sys).applied_wheel
            == m.reapplied(sys).saved[m.active[i].0@].1,
        m.reapplied(sys).in_force == Some(m.active[i].0@),
{
    lemma_baselines(m, sys, m.active.len() as int);
    let r = m.reapplied(sys);
    let rules = m.cfg.rules@;
    let p = |e: (String, Device)| ruled(rules, e.1);
    assert forall|j: int| i < j < m.active.len() implies !p(#[trigger] m.active[j]) by {
        assert(!ruled(rules, m.active[j].1));
    }
    lemma_last_is(m.active, p, i);
    lemma_effective_is(r, i);
    lemma_settings_end(m, sys, i, m.active.len() as int);
}

proof fn lemma_settings_end(m: StateModel, sys: SystemSpeed, i: int, k: int)
    requires
        0 <= i < k <= m.active.len(),
        forall|j: int| i < j < m.active.len() ==> !ruled(m.cfg.rules@, (#[trigger] m.active[j]).1),
    ensures
        settings_after(m.cfg.rules@, m.active, sys, k) == settings_after(
            m.cfg.rules@,
            m.active,
            sys,
            i + 1,
        ),
    decreases k,
{
    if k > i + 1 {
        lemma_settings_end(m, sys, i, k - 1);
        assert(!ruled(m.cfg.rules@, m.active[k - 1].1));
    }
}

/// Scroll mode settings in force are always enabled ones. While no rule is in
/// force they are the global ones, just when these are present and enabled; while
/// one is, they are those of the rule, on the same terms.
pub proof fn law_scroll_in_force_is_enabled(m: StateModel, c: ScrollCfg)
    ensures
        m.scroll() == Some(c) ==> c.enabled,
        m.effective() is None ==> (m.scroll() == Some(c) <==> c.enabled && m.cfg.scroll == Some(
            c,
        )),
        m.effective() matches Some(i) ==> (m.scroll() == Some(c) <==> c.enabled && rule_of(
            m.cfg.rules@,
            m.active[i].1,
        )->0.scroll == Some(c)),
        m.global_active() ==> (m.scroll() is None <==> (m.cfg.scroll matches Some(g)
            ==> !g.enabled)),
{
}

/// Whatever the system is seen to have counts as applied from then on. Where the
/// pointer speed or the wheel lines are other than the applied ones, someone else
/// changed them, and no rule is in force any more; where both are the applied
/// ones, nothing changes.
pub proof fn law_observation_is_believed(m: StateModel, sys: SystemSpeed)
    ensures
        m.observed(sys).applied_speed == sys.speed,
        m.observed(sys).applied_wheel == sys.wheel,
        !m.observed(sys).is_foreign(sys),
        sys.speed != m.applied_speed ==> m.is_foreign(sys) && m.observed(sys).global_active(),
        sys.wheel != m.applied_wheel ==> m.is_foreign(sys) && m.observed(sys).global_active(),
        sys.speed == m.applied_speed && sys.wheel == m.applied_wheel ==> !m.is_foreign(sys)
            && m.observed(sys) == m,
        m.observed(sys).cfg == m.cfg,
        m.observed(sys).active == m.active,
        m.observed(sys).saved == m.saved,
{
}

/// Editing a global setting is never lost: whatever is in force, putting the
/// global settings in force afterwards puts the edited value into the system and
/// leaves the other global settings as configured.
pub proof fn law_global_edits_are_kept(m: StateModel, v: u32, c: ScrollCfg, sys: SystemSpeed)
    ensures
        m.with_global_speed(v).cfg == (Config { speed: valid_speed(v), ..m.cfg }),
        m.with_global_wheel(v).cfg == (Config { wheel: valid_wheel(v), ..m.cfg }),
        m.with_global_scroll(c).cfg == (Config { scroll: Some(c), ..m.cfg }),
        m.with_global_reset().cfg == (Config {
            speed: SPEED_DEFAULT,
            wheel: WHEEL_DEFAULT,
            scroll: None,
            ..m.cfg
        }),
        sys.after_all(m.with_global_speed(v).global_writes()) == (SystemSpeed {
            speed: valid_speed(v),
            wheel: valid_wheel(m.cfg.wheel),
        }),
        sys.after_all(m.with_global_wheel(v).global_writes()) == (SystemSpeed {
            speed: valid_speed(m.cfg.speed),
            wheel: valid_wheel(v),
        }),
        sys.after_all(m.with_global_reset().global_writes()) == (SystemSpeed {
            speed: SPEED_DEFAULT,
            wheel: WHEEL_DEFAULT,
        }),
        m.with_global_scroll(c).to_global().scroll() == (if c.enabled {
            Some(c)
        } else {
            None
        }),
        m.with_global_reset().to_global().scroll() is None,
{
    law_global_settings_are_the_configured_ones(m.with_global_speed(v), sys);
    law_global_settings_are_the_configured_ones(m.with_global_wheel(v), sys);
    law_global_settings_are_the_configured_ones(m.with_global_reset(), sys);
}

/// Editing a global setting takes effect at once just while the global settings
/// are in force; otherwise the system is left alone. Either way the state goes on
/// knowing what is applied, and the list and the baselines stay.
pub proof fn law_global_edits_apply_while_global(m: StateModel, v: u32, sys: SystemSpeed)
    ensures
        sys.after_all(m.global_speed_writes(v)) == (if m.global_active() {
            SystemSpeed { speed: valid_speed(v), ..sys }
        } else {
            sys
        }),
        sys.after_all(m.global_wheel_writes(v)) == (if m.global_active() {
            SystemSpeed { wheel: valid_wheel(v), ..sys }
        } else {
            sys
        }),
        sys.after_all(m.global_reset_writes()) == (if m.global_active() {
            SystemSpeed { speed: SPEED_DEFAULT, wheel: WHEEL_DEFAULT }
        } else {
            sys
        }),
        !m.is_foreign(sys) ==> !m.with_global_speed(v).is_foreign(
            sys.after_all(m.global_speed_writes(v)),
        ),
        !m.is_foreign(sys) ==> !m.with_global_wheel(v).is_foreign(
            sys.after_all(m.global_wheel_writes(v)),
        ),
        !m.is_foreign(sys) ==> !m.with_global_reset().is_foreign(
            sys.after_all(m.global_reset_writes()),
        ),
        m.with_global_speed(v).in_force == m.in_force,
        m.with_global_wheel(v).in_force == m.in_force,
        m.with_global_reset().in_force == m.in_force,
        m.with_global_speed(v).active == m.active && m.with_global_speed(v).saved == m.saved,
        m.with_global_wheel(v).active == m.active && m.with_global_wheel(v).saved == m.saved,
        m.with_global_reset().active == m.active && m.with_global_reset().saved == m.saved,
        m.with_global_speed(v).applied_wheel == m.applied_wheel,
        m.with_global_wheel(v).applied_speed == m.applied_speed,
{
    lemma_two_writes(
        sys,
        SpeedWrite::Pointer(valid_speed(v)),
        SpeedWrite::Wheel(valid_wheel(v)),
    );
    lemma_two_writes(
        sys,
        SpeedWrite::Wheel(valid_wheel(v)),
        SpeedWrite::Pointer(valid_speed(v)),
    );
    lemma_two_writes(
        sys,
        SpeedWrite::Pointer(SPEED_DEFAULT),
        SpeedWrite::Wheel(WHEEL_DEFAULT),
    );
    assert(sys.after_all(seq![]) == sys);
}

/// Editing the global scroll mode settings changes nothing else.
pub proof fn law_global_scroll_edit_changes_nothing_else(m: StateModel, c: ScrollCfg)
    ensures
        m.with_global_scroll(c).active == m.active,
        m.with_global_scroll(c).saved == m.saved,
        m.with_global_scroll(c).in_force == m.in_force,
        m.with_global_scroll(c).applied_speed == m.applied_speed,
        m.with_global_scroll(c).applied_wheel == m.applied_wheel,
        m.with_global_scroll(c).cfg.rules == m.cfg.rules,
{
}

/// Putting the global settings in force puts the configured ones, moved into the
/// ranges, into the system; no rule is in force after it, and nothing is
/// forgotten.
pub proof fn law_global_settings_are_the_configured_ones(m: StateModel, sys: SystemSpeed)
    ensures
        sys.after_all(m.global_writes()) == (SystemSpeed {
            speed: valid_speed(m.cfg.speed),
            wheel: valid_wheel(m.cfg.wheel),
        }),
        m.to_global().applied_speed == valid_speed(m.cfg.speed),
        m.to_global().applied_wheel == valid_wheel(m.cfg.wheel),
        m.to_global().effective() is None,
        m.to_global().global_active(),
        m.to_global().cfg == m.cfg,
        m.to_global().active == m.active,
        m.to_global().saved == m.saved,
{
    lemma_two_writes(
        sys,
        SpeedWrite::Pointer(valid_speed(m.cfg.speed)),
        SpeedWrite::Wheel(valid_wheel(m.cfg.wheel)),
    );
}

/// A value set by hand is applied within the range of the system, whatever was in
/// force, and touches neither the other value nor the configuration, the list or
/// the baselines.
pub proof fn law_manual_value_is_applied(m: StateModel, v: u32)
    ensures
        m.with_manual_speed(v).applied_speed == valid_speed(v),
        m.with_manual_speed(v).applied_wheel == m.applied_wheel,
        m.with_manual_wheel(v).applied_wheel == valid_wheel(v),
        m.with_manual_wheel(v).applied_speed == m.applied_speed,
        m.with_manual_speed(v).global_active() && m.with_manual_wheel(v).global_active(),
        m.with_manual_speed(v).cfg == m.cfg && m.with_manual_wheel(v).cfg == m.cfg,
        m.with_manual_speed(v).active == m.active && m.with_manual_wheel(v).active == m.active,
        m.with_manual_speed(v).saved == m.saved && m.with_manual_wheel(v).saved == m.saved,
{
}

/// The tool starts under the configured global settings, whatever devices are
/// there: no rule is applied, every device found is listed, nothing has a
/// baseline, and the system reporting the settings back is no foreign change.
pub proof fn law_start_applies_no_rule(
    cfg: Config,
    found: Seq<Device>,
    id: Seq<char>,
    sys: SystemSpeed,
)
    ensures
        ({
            let m = StateModel::started(cfg, found);
            let set = sys.after_all(m.global_writes());
            &&& m.effective() is None
            &&& m.global_active()
            &&& listed(m.active, id) <==> present(found, id)
            &&& !m.saved.dom().contains(id)
            &&& set.speed == valid_speed(cfg.speed)
            &&& set.wheel == valid_wheel(cfg.wheel)
            &&& !m.is_foreign(set)
            &&& m.cfg.rules == cfg.rules
            &&& m.cfg.scroll == cfg.scroll
        }),
{
    let m = StateModel::started(cfg, found);
    law_global_settings_are_the_configured_ones(m, sys);
    lemma_with_devices(seq![], found);
    assert(listed(m.active, id) <==> listed(seq![], id) || present(found, id));
}

/// A device without both ids has no rule; the rule of a device is for its ids.
pub proof fn law_rules_go_by_both_ids(m: StateModel, d: Device)
    ensures
        d.vid is None || d.pid is None ==> !ruled(m.cfg.rules@, d),
        rule_of(m.cfg.rules@, d) matches Some(r) ==> {
            &&& m.cfg.rules@.contains(r)
            &&& same_ignoring_case(r.vid@, (d.vid->0)@)
            &&& same_ignoring_case(r.pid@, (d.pid->0)@)
        },
        d.vid is Some && d.pid is Some && !ruled(m.cfg.rules@, d) ==> forall|j: int|
            0 <= j < m.cfg.rules@.len() ==> !(same_ignoring_case(
                (#[trigger] m.cfg.rules@[j]).vid@,
                (d.vid->0)@,
            ) && same_ignoring_case(m.cfg.rules@[j].pid@, (d.pid->0)@)),
{
    if d.vid is Some && d.pid is Some {
        let v = (d.vid->0)@;
        let p = (d.pid->0)@;
        lemma_rule_index(m.cfg.rules@, v, p);
        assert forall|j: int| 0 <= j < m.cfg.rules@.len() && !ruled(m.cfg.rules@, d) implies !(
        same_ignoring_case((#[trigger] m.cfg.rules@[j]).vid@, v) && same_ignoring_case(
            m.cfg.rules@[j].pid@,
            p,
        )) by {
            assert(!m.cfg.rules@[j].is_for(v, p));
        }
    }
}

/// Plugging a device in puts it behind the others, once.
pub proof fn law_plugged_device_comes_last(m: StateModel, d: Device)
    ensures
        listed(m.active, d.instance_id@) ==> m.plugged(d) == m,
        !listed(m.active, d.instance_id@) ==> {
            &&& m.plugged(d).active.len() == m.active.len() + 1
            &&& m.plugged(d).active.drop_last() == m.active
            &&& m.plugged(d).active.last().1 == d
            &&& m.plugged(d).active.last().0@ == d.instance_id@
        },
{
    if !listed(m.active, d.instance_id@) {
        assert(m.plugged(d).active.drop_last() =~= m.active);
    }
}

/// Pulling out a device that was not switched to changes nothing but the list,
/// which loses just that device and keeps the order of the others, and its
/// baseline.
pub proof fn law_pulling_another_device_switches_nothing(
    m: StateModel,
    id: Seq<char>,
    other: Seq<char>,
)
    requires
        m.wf(),
        m.in_force != Some(id),
    ensures
        m.pulled(id).in_force == m.in_force,
        m.pulled(id).applied_speed == m.applied_speed,
        m.pulled(id).applied_wheel == m.applied_wheel,
        m.pulled(id).cfg == m.cfg,
        m.pulled_writes(id) == Seq::<SpeedWrite>::empty(),
        !listed(m.active, id) ==> m.pulled(id) == m,
        !listed(m.pulled(id).active, id),
        !m.pulled(id).saved.dom().contains(id),
        other != id ==> {
            &&& listed(m.pulled(id).active, other) == listed(m.active, other)
            &&& m.pulled(id).saved.dom().contains(other) == m.saved.dom().contains(other)
            &&& m.saved.dom().contains(other) ==> m.pulled(id).saved[other] == m.saved[other]
        },
        listed(m.active, id) ==> exists|i: int|
            0 <= i < m.active.len() && m.active[i].0@ == id && m.pulled(id).active
                == #[trigger] m.active.remove(i),
{
    lemma_position(m.active, id);
    lemma_removed_is_gone(m, id, other);
    if !listed(m.active, id) && m.saved.dom().contains(id) {
        assert(listed(m.active, id));
    }
}

proof fn lemma_removed_is_gone(m: StateModel, id: Seq<char>, other: Seq<char>)
    requires
        m.wf(),
    ensures
        !listed(m.pulled(id).active, id),
        other != id ==> listed(m.pulled(id).active, other) == listed(m.active, other),
{
    lemma_position(m.active, id);
    if let Some(i) = position_of(m.active, id) {
        let rest = m.active.remove(i);
        assert forall|j: int| 0 <= j < rest.len() implies (#[trigger] rest[j]).0@ != id by {
            assert(rest[j] == m.active[if j < i { j } else { j + 1 }]);
        }
        if other != id && listed(m.active, other) {
            let k = choose|k: int|
                0 <= k < m.active.len() && (#[trigger] m.active[k]).0@ == other;
            assert(rest[if k < i { k } else { k - 1 }].0@ == other);
        }
        if listed(rest, other) {
            let k = choose|k: int| 0 <= k < rest.len() && (#[trigger] rest[k]).0@ == other;
            assert(m.active[if k < i { k } else { k + 1 }].0@ == other);
        }
    }
}

/// Pulling out the device that was switched to keeps the others and their
/// baselines.
pub proof fn law_pulling_keeps_the_others(m: StateModel, id: Seq<char>, other: Seq<char>)
    requires
        m.wf(),
        other != id,
    ensures
        listed(m.pulled(id).active, other) == listed(m.active, other),
        m.pulled(id).saved.dom().contains(other) == m.saved.dom().contains(other),
        m.saved.dom().contains(other) ==> m.pulled(id).saved[other] == m.saved[other],
        m.pulled(id).cfg == m.cfg,
        m.in_force == Some(id) ==> m.pulled(id).global_active(),
{
    lemma_position(m.active, id);
    lemma_removed_is_gone(m, id, other);
}

/// A scan without the device that was switched to brings the global settings
/// back, in the state and in the system.
pub proof fn law_scan_without_the_device_returns_to_global(
    m: StateModel,
    now: Seq<Device>,
    id: Seq<char>,
    sys: SystemSpeed,
)
    requires
        m.in_force == Some(id),
        !present(now, id),
    ensures
        m.scanned(now).global_active(),
        m.scanned(now).applied_speed == valid_speed(m.cfg.speed),
        m.scanned(now).applied_wheel == valid_wheel(m.cfg.wheel),
        sys.after_all(m.scanned_writes(now)) == (SystemSpeed {
            speed: valid_speed(m.cfg.speed),
            wheel: valid_wheel(m.cfg.wheel),
        }),
{
    law_global_settings_are_the_configured_ones(m, sys);
}

/// A scan keeps the configuration and the baselines of the devices that are still
/// there, and forgets those of the others.
pub proof fn law_scan_keeps_baselines(m: StateModel, now: Seq<Device>, id: Seq<char>)
    ensures
        m.scanned(now).cfg == m.cfg,
        m.scanned(now).saved.dom().contains(id) <==> m.saved.dom().contains(id) && present(
            now,
            id,
        ),
        m.scanned(now).saved.dom().contains(id) ==> m.scanned(now).saved[id] == m.saved[id],
{
}

/// What a scan adds are devices that were found and not listed before, each under
/// its instance id.
pub proof fn law_scan_adds_what_was_found(m: StateModel, now: Seq<Device>, i: int)
    requires
        still_there(m.active, now).len() <= i < m.scanned(now).active.len(),
    ensures
        exists|k: int|
            0 <= k < now.len() && #[trigger] now[k] == m.scanned(now).active[i].1 && !listed(
                m.active,
                now[k].instance_id@,
            ),
{
    let kept = still_there(m.active, now);
    lemma_with_devices(kept, now);
    lemma_still_there(m.active, now);
    let all = with_devices(kept, now);
    let k = choose|k: int|
        0 <= k < now.len() && now[k] == all[i].1 && !listed(kept, now[k].instance_id@);
    let id = now[k].instance_id@;
    assert(present(now, id));
    assert(listed(kept, id) <==> listed(m.active, id) && present(now, id));
    assert(now[k] == m.scanned(now).active[i].1);
}

proof fn lemma_nothing_to_add(active: Seq<(String, Device)>, now: Seq<Device>)
    requires
        forall|k: int| 0 <= k < now.len() ==> listed(active, (#[trigger] now[k]).instance_id@),
    ensures
        with_devices(active, now) == active,
    decreases now.len(),
{
    if now.len() > 0 {
        let rest = now.drop_last();
        assert forall|k: int| 0 <= k < rest.len() implies listed(
            active,
            (#[trigger] rest[k]).instance_id@,
        ) by {
            assert(rest[k] == now[k]);
        }
        lemma_nothing_to_add(active, rest);
        assert(listed(active, now[now.len() - 1].instance_id@));
    }
}

proof fn lemma_nothing_to_drop(active: Seq<(String, Device)>, now: Seq<Device>)
    requires
        forall|i: int| 0 <= i < active.len() ==> present(now, (#[trigger] active[i]).0@),
    ensures
        still_there(active, now) == active,
    decreases active.len(),
{
    reveal(Seq::filter);
    let keep = |e: (String, Device)| present(now, e.0@);
    if active.len() > 0 {
        let rest = active.drop_last();
        assert forall|i: int| 0 <= i < rest.len() implies present(
            now,
            (#[trigger] rest[i]).0@,
        ) by {
            assert(rest[i] == active[i]);
        }
        lemma_nothing_to_drop(rest, now);
        assert(active =~= rest.push(active.last()));
        rest.lemma_filter_push(active.last(), keep);
        assert(present(now, active[active.len() - 1].0@));
    }
}

/// Scanning again with the same devices there changes nothing.
pub proof fn law_scanning_again_changes_nothing(m: StateModel, now: Seq<Device>)
    ensures
        m.scanned(now).scanned(now) == m.scanned(now),
        m.scanned(now).scanned_writes(now) == Seq::<SpeedWrite>::empty(),
{
    let s = m.scanned(now);
    assert forall|i: int| 0 <= i < s.active.len() implies present(
        now,
        (#[trigger] s.active[i]).0@,
    ) by {
        let id = s.active[i].0@;
        law_scan_lists_what_is_there(m, now, id);
        assert(listed(s.active, id));
    }
    lemma_nothing_to_drop(s.active, now);
    assert forall|k: int| 0 <= k < now.len() implies listed(
        s.active,
        (#[trigger] now[k]).instance_id@,
    ) by {
        let id = now[k].instance_id@;
        law_scan_lists_what_is_there(m, now, id);
        assert(present(now, id));
    }
    lemma_nothing_to_add(s.active, now);
    assert(s.scanned(now).saved =~= s.saved);
    assert(s.scanned(now) =~= s);
}

/// Switching to a device that has no rule, or is not listed, puts nothing in
/// force and writes nothing; a listed one only moves to the end of the list.
pub proof fn law_switching_needs_a_rule(m: StateModel, id: Seq<char>, sys: SystemSpeed)
    requires
        m.wf(),
        listed(m.active, id) ==> !ruled(
            m.cfg.rules@,
            m.active[position_of(m.active, id)->0].1,
        ),
    ensures
        m.activated_writes(id) == Seq::<SpeedWrite>::empty(),
        m.activated(id, sys).in_force == m.in_force,
        m.activated(id, sys).applied_speed == m.applied_speed,
        m.activated(id, sys).applied_wheel == m.applied_wheel,
        m.activated(id, sys).saved == m.saved,
        m.activated(id, sys).cfg == m.cfg,
        !listed(m.active, id) ==> m.activated(id, sys) == m,
        listed(m.active, id) ==> m.activated(id, sys).active.last().0@ == id,
{
    lemma_position(m.active, id);
    lemma_effective(m);
}

/// Switching to a device leaves the configuration alone, and the wheel lines too
/// where its rule has none.
pub proof fn law_switching_changes_no_configuration(
    m: StateModel,
    id: Seq<char>,
    sys: SystemSpeed,
)
    requires
        m.wf(),
        listed(m.active, id),
        ruled(m.cfg.rules@, m.active[position_of(m.active, id)->0].1),
        !(m.is_effective(id) && position_of(m.active, id) == Some(m.active.len() - 1)),
    ensures
        m.activated(id, sys).cfg == m.cfg,
        m.activated(id, sys).in_force == Some(id),
        ({
            let r = rule_of(m.cfg.rules@, m.active[position_of(m.active, id)->0].1)->0;
            &&& m.activated(id, sys).applied_speed == valid_speed(r.speed)
            &&& r.wheel is None ==> m.activated(id, sys).applied_wheel == m.applied_wheel
                && sys.after_all(m.activated_writes(id)).wheel == sys.wheel
            &&& r.wheel matches Some(w) ==> m.activated(id, sys).applied_wheel == valid_wheel(w)
            &&& sys.after_all(m.activated_writes(id)).speed == valid_speed(r.speed)
        }),
{
    law_switched_device_is_in_force(m, id, sys);
    lemma_position(m.active, id);
}

/// Choosing the entry of a device does what switching to it does, unless its rule
/// is in force; then the global settings come back and the list stays.
pub proof fn law_choosing_switches_or_returns(m: StateModel, id: Seq<char>, sys: SystemSpeed)
    ensures
        !m.is_effective(id) ==> m.toggled(id, sys) == m.activated(id, sys) && m.toggled_writes(id)
            == m.activated_writes(id),
        m.is_effective(id) ==> {
            &&& m.toggled(id, sys).global_active()
            &&& m.toggled(id, sys).active == m.active
            &&& m.toggled(id, sys).saved == m.saved
            &&& sys.after_all(m.toggled_writes(id)) == (SystemSpeed {
                speed: valid_speed(m.cfg.speed),
                wheel: valid_wheel(m.cfg.wheel),
            })
        },
{
    law_global_settings_are_the_configured_ones(m, sys);
}

/// The rule in force is that of the device switched to.
pub proof fn law_in_force_is_the_device_switched_to(m: StateModel, id: Seq<char>)
    requires
        m.wf(),
    ensures
        m.is_effective(id) <==> m.in_force == Some(id) && exists|i: int|
            0 <= i < m.active.len() && (#[trigger] m.active[i]).0@ == id && ruled(
                m.cfg.rules@,
                m.active[i].1,
            ),
        m.global_active() ==> !m.is_effective(id),
{
    lemma_effective(m);
    lemma_position(m.active, id);
    if m.in_force == Some(id) && exists|i: int|
        0 <= i < m.active.len() && (#[trigger] m.active[i]).0@ == id && ruled(
            m.cfg.rules@,
            m.active[i].1,
        ) {
        let i = choose|i: int|
            0 <= i < m.active.len() && (#[trigger] m.active[i]).0@ == id && ruled(
                m.cfg.rules@,
                m.active[i].1,
            );
        lemma_effective_is(m, i);
    }
}

/// Applying all rules anew keeps the list and the configuration, and puts a
/// baseline on record for just the listed devices that have a rule.
pub proof fn law_reapplying_records_baselines(m: StateModel, sys: SystemSpeed, id: Seq<char>)
    requires
        m.wf(),
    ensures
        m.reapplied(sys).active == m.active,
        m.reapplied(sys).cfg == m.cfg,
        m.reapplied(sys).saved.dom().contains(id) <==> exists|i: int|
            0 <= i < m.active.len() && (#[trigger] m.active[i]).0@ == id && ruled(
                m.cfg.rules@,
                m.active[i].1,
            ),
{
    lemma_baselines(m, sys, m.active.len() as int);
}

proof fn lemma_baselines(m: StateModel, sys: SystemSpeed, k: int)
    requires
        m.wf(),
        0 <= k <= m.active.len(),
    ensures
        forall|id: Seq<char>| #[trigger]
            baselines_after(m.cfg.rules@, m.active, sys, k).dom().contains(id) <==> exists|i: int|
                0 <= i < k && (#[trigger] m.active[i]).0@ == id && ruled(
                    m.cfg.rules@,
                    m.active[i].1,
                ),
        forall|i: int|
            0 <= i < k && ruled(m.cfg.rules@, (#[trigger] m.active[i]).1) ==> ({
                let s = settings_after(m.cfg.rules@, m.active, sys, i);
                baselines_after(m.cfg.rules@, m.active, sys, k)[m.active[i].0@] == (
                    s.speed,
                    s.wheel,
                )
            }),
    decreases k,
{
    if k > 0 {
        lemma_baselines(m, sys, k - 1);
        let rules = m.cfg.rules@;
        let last = m.active[k - 1];
        let all = baselines_after(rules, m.active, sys, k);
        let before = baselines_after(rules, m.active, sys, k - 1);
        assert forall|id: Seq<char>| #[trigger] all.dom().contains(id) <==> exists|i: int|
            0 <= i < k && (#[trigger] m.active[i]).0@ == id && ruled(rules, m.active[i].1) by {
            assert(all.dom().contains(id) <==> before.dom().contains(id) || (ruled(rules, last.1)
                && last.0@ == id));
            if before.dom().contains(id) {
                let i = choose|i: int|
                    0 <= i < k - 1 && (#[trigger] m.active[i]).0@ == id && ruled(
                        rules,
                        m.active[i].1,
                    );
                assert(m.active[i].0@ == id);
            }
        }
    }
}

/// Applied in order, each rule starts from what the one before it left: the first
/// baseline is what the system had, and the baseline of a later device is what
/// the rule of the nearest ruled device before it made of that one's baseline.
pub proof fn law_reapplying_goes_in_order(m: StateModel, sys: SystemSpeed, i: int, j: int)
    requires
        m.wf(),
        0 <= j < m.active.len(),
        ruled(m.cfg.rules@, m.active[j].1),
        -1 <= i < j,
        i >= 0 ==> ruled(m.cfg.rules@, m.active[i].1),
        forall|k: int| i < k < j ==> !ruled(m.cfg.rules@, (#[trigger] m.active[k]).1),
    ensures
        ({
            let saved = m.reapplied(sys).saved;
            let at = saved[m.active[j].0@];
            if i < 0 {
                at == (sys.speed, sys.wheel)
            } else {
                let r = rule_of(m.cfg.rules@, m.active[i].1)->0;
                &&& at.0 == valid_speed(r.speed)
                &&& at.1 == (match r.wheel {
                    Some(w) => valid_wheel(w),
                    None => saved[m.active[i].0@].1,
                })
            }
        }),
{
    lemma_baselines(m, sys, m.active.len() as int);
    lemma_unruled_change_nothing(m, sys, i + 1, j);
}

proof fn lemma_unruled_change_nothing(m: StateModel, sys: SystemSpeed, from: int, to: int)
    requires
        0 <= from <= to <= m.active.len(),
        forall|k: int| from <= k < to ==> !ruled(m.cfg.rules@, (#[trigger] m.active[k]).1),
    ensures
        settings_after(m.cfg.rules@, m.active, sys, to) == settings_after(
            m.cfg.rules@,
            m.active,
            sys,
            from,
        ),
    decreases to,
{
    if from < to {
        lemma_unruled_change_nothing(m, sys, from, to - 1);
        assert(!ruled(m.cfg.rules@, m.active[to - 1].1));
    }
}

/// Where no listed device has a rule, applying all rules anew brings the global
/// settings back.
pub proof fn law_reapplying_without_rules_returns_to_global(m: StateModel, sys: SystemSpeed)
    requires
        forall|i: int|
            0 <= i < m.active.len() ==> !ruled(m.cfg.rules@, (#[trigger] m.active[i]).1),
    ensures
        m.reapplied(sys).global_active(),
        sys.after_all(m.reapplied_writes()) == (SystemSpeed {
            speed: valid_speed(m.cfg.speed),
            wheel: valid_wheel(m.cfg.wheel),
        }),
{
    let rules = m.cfg.rules@;
    let p = |e: (String, Device)| ruled(rules, e.1);
    assert forall|j: int| 0 <= j < m.active.len() implies !p(#[trigger] m.active[j]) by {
        assert(!ruled(rules, m.active[j].1));
    }
    lemma_last_where(m.active, p);
    law_global_settings_are_the_configured_ones(m, sys);
}

/// Storing or deleting a rule keeps the list and the global settings, and is no
/// foreign change when the system reports it back.
pub proof fn law_editing_rules_keeps_the_rest(
    before: StateModel,
    after: StateModel,
    sys: SystemSpeed,
    w: Seq<SpeedWrite>,
)
    requires
        with_edited_rules(before, after, sys, w),
    ensures
        after.active == before.active,
        after.cfg.speed == before.cfg.speed,
        after.cfg.wheel == before.cfg.wheel,
        after.cfg.scroll == before.cfg.scroll,
        !after.is_foreign(sys.after_all(w)),
{
    law_reapplying_is_not_foreign(StateModel { cfg: after.cfg, ..before }, sys);
}

/// The devices with a rule are counted one by one.
pub proof fn law_ruled_devices_are_counted(
    rules: Seq<Rule>,
    active: Seq<(String, Device)>,
    e: (String, Device),
)
    ensures
        ruled_entries(rules, seq![]).len() == 0,
        ruled_entries(rules, active.push(e)).len() == ruled_entries(rules, active).len() + (
        if ruled(rules, e.1) {
            1int
        } else {
            0
        }),
{
    let p = |e: (String, Device)| ruled(rules, e.1);
    active.lemma_filter_push(e, p);
    assert(ruled_entries(rules, seq![]) =~= seq![]) by {
        reveal(Seq::filter);
    }
}

/// The system takes a change over within its ranges and leaves the other setting
/// alone; of several changes to one setting the last counts.
pub proof fn law_system_keeps_to_its_ranges(
    sys: SystemSpeed,
    ws: Seq<SpeedWrite>,
    w: SpeedWrite,
    v: u32,
)
    ensures
        SPEED_MIN <= valid_speed(v) <= SPEED_MAX,
        WHEEL_MIN <= valid_wheel(v) <= WHEEL_MAX,
        SPEED_MIN <= v <= SPEED_MAX ==> valid_speed(v) == v,
        WHEEL_MIN <= v <= WHEEL_MAX ==> valid_wheel(v) == v,
        v < SPEED_MIN ==> valid_speed(v) == SPEED_MIN,
        v > SPEED_MAX ==> valid_speed(v) == SPEED_MAX,
        v < WHEEL_MIN ==> valid_wheel(v) == WHEEL_MIN,
        v > WHEEL_MAX ==> valid_wheel(v) == WHEEL_MAX,
        sys.after(SpeedWrite::Pointer(v)) == (SystemSpeed { speed: valid_speed(v), ..sys }),
        sys.after(SpeedWrite::Wheel(v)) == (SystemSpeed { wheel: valid_wheel(v), ..sys }),
        sys.after_all(seq![]) == sys,
        sys.after_all(ws.push(w)) == sys.after_all(ws).after(w),
{
    assert(ws.push(w).drop_last() =~= ws);
}

/// Applying a rule writes its speed and, where it has them, its wheel lines, and
/// applying all of them anew writes rule by rule in the order of the list.
pub proof fn law_rules_are_written_one_by_one(
    rules: Seq<Rule>,
    active: Seq<(String, Device)>,
    e: (String, Device),
)
    ensures
        ({
            let n = active.len() as int;
            let before = writes_after(rules, active, n);
            let after = writes_after(rules, active.push(e), n + 1);
            &&& !ruled(rules, e.1) ==> after == before
            &&& rule_of(rules, e.1) matches Some(r) ==> (r.wheel is None ==> after == before.push(
                SpeedWrite::Pointer(r.speed),
            )) && (r.wheel matches Some(w) ==> after == before.push(
                SpeedWrite::Pointer(r.speed),
            ).push(SpeedWrite::Wheel(w)))
        }),
        writes_after(rules, active, 0) == Seq::<SpeedWrite>::empty(),
{
    let n = active.len() as int;
    lemma_writes_of_a_prefix(rules, active, e, n);
    let before = writes_after(rules, active, n);
    let after = writes_after(rules, active.push(e), n + 1);
    if let Some(r) = rule_of(rules, e.1) {
        match r.wheel {
            Some(w) => {
                assert(after =~= before.push(SpeedWrite::Pointer(r.speed)).push(
                    SpeedWrite::Wheel(w),
                ));
            },
            None => {
                assert(after =~= before.push(SpeedWrite::Pointer(r.speed)));
            },
        }
    }
}

proof fn lemma_writes_of_a_prefix(
    rules: Seq<Rule>,
    active: Seq<(String, Device)>,
    e: (String, Device),
    k: int,
)
    requires
        0 <= k <= active.len(),
    ensures
        writes_after(rules, active.push(e), k) == writes_after(rules, active, k),
    decreases k,
{
    if k > 0 {
        lemma_writes_of_a_prefix(rules, active, e, k - 1);
        assert(active.push(e)[k - 1] == active[k - 1]);
    }
}

/// Switching keeps the order of the other devices and their baselines, and what
/// the system had before is the baseline of the device switched to.
pub proof fn law_switching_keeps_the_others(
    m: StateModel,
    id: Seq<char>,
    sys: SystemSpeed,
    other: Seq<char>,
)
    requires
        m.wf(),
        other != id,
    ensures
        listed(m.activated(id, sys).active, other) == listed(m.active, other),
        m.activated(id, sys).active.len() == m.active.len(),
        m.activated(id, sys).saved.dom().contains(other) == m.saved.dom().contains(other),
        m.saved.dom().contains(other) ==> m.activated(id, sys).saved[other] == m.saved[other],
        !m.is_effective(id) && m.activated(id, sys).is_effective(id) ==> m.activated(
            id,
            sys,
        ).saved.dom().contains(id) && m.activated(id, sys).saved[id] == (sys.speed, sys.wheel),
{
    lemma_position(m.active, id);
    lemma_effective(m);
    if let Some(i) = position_of(m.active, id) {
        let moved = m.activated(id, sys).active;
        let rest = m.active.remove(i).push(m.active[i]);
        let n = m.active.len() - 1;
        if listed(m.active, other) {
            let k = choose|k: int|
                0 <= k < m.active.len() && (#[trigger] m.active[k]).0@ == other;
            assert(rest[if k < i { k } else { k - 1 }].0@ == other);
        }
        if listed(rest, other) {
            let k = choose|k: int| 0 <= k < rest.len() && (#[trigger] rest[k]).0@ == other;
            assert(rest[n] == m.active[i]);
            assert(m.active[if k < i { k } else { k + 1 }].0@ == other);
        }
    }
}

/// The rule of the given ids, as it is read in state `m`.
pub open spec fn rule_read(m: StateModel, vid: Seq<char>, pid: Seq<char>) -> Option<Rule> {
    match rule_index(m.cfg.rules@, vid, pid) {
        Some(i) => Some(m.cfg.rules@[i]),
        None => None,
    }
}

/// A stored rule is read back as it was stored and every other rule as before.
/// The list and the global settings stay, and the system reporting the outcome
/// back is no foreign change.
pub proof fn law_stored_rule_is_read_in_the_state(
    before: StateModel,
    after: StateModel,
    vid: Seq<char>,
    pid: Seq<char>,
    speed: u32,
    wheel: Option<u32>,
    name: String,
    sys: SystemSpeed,
    w: Seq<SpeedWrite>,
    other_vid: Seq<char>,
    other_pid: Seq<char>,
)
    requires
        rule_stored(before, after, vid, pid, speed, wheel, name, sys, w),
    ensures
        rule_read(after, vid, pid) is Some,
        rule_read(after, vid, pid)->0.speed == speed,
        rule_read(after, vid, pid)->0.wheel == wheel,
        rule_read(after, vid, pid)->0.note == Some(name),
        rule_read(before, vid, pid) matches Some(r) ==> rule_read(after, vid, pid)->0.scroll
            == r.scroll,
        rule_read(before, vid, pid) is None ==> rule_read(after, vid, pid)->0.scroll is None,
        !(same_ignoring_case(vid, other_vid) && same_ignoring_case(pid, other_pid)) ==> rule_read(
            after,
            other_vid,
            other_pid,
        ) == rule_read(before, other_vid, other_pid),
        after.active == before.active,
        after.cfg.speed == before.cfg.speed && after.cfg.wheel == before.cfg.wheel
            && after.cfg.scroll == before.cfg.scroll,
        !after.is_foreign(sys.after_all(w)),
{
    let old_rules = before.cfg.rules@;
    let new_rules = after.cfg.rules@;
    let note = Some(name);
    law_stored_rule_is_read_back(old_rules, new_rules, vid, pid, speed, wheel, note, vid, pid);
    lemma_rule_index(old_rules, vid, pid);
    lemma_rule_index(new_rules, vid, pid);
    lemma_stored_in_place(old_rules, new_rules, vid, pid, speed, wheel, note);
    if !(same_ignoring_case(vid, other_vid) && same_ignoring_case(pid, other_pid)) {
        law_storing_keeps_other_rules(
            old_rules,
            new_rules,
            vid,
            pid,
            speed,
            wheel,
            note,
            other_vid,
            other_pid,
        );
    }
    law_editing_rules_keeps_the_rest(before, after, sys, w);
}

proof fn lemma_stored_in_place(
    before: Seq<Rule>,
    after: Seq<Rule>,
    vid: Seq<char>,
    pid: Seq<char>,
    speed: u32,
    wheel: Option<u32>,
    note: Option<String>,
)
    requires
        rules_with(before, after, vid, pid, speed, wheel, note),
    ensures
        rule_index(before, vid, pid) matches Some(k) ==> rule_index(after, vid, pid) == Some(k),
        rule_index(before, vid, pid) is None ==> rule_index(after, vid, pid) == Some(
            before.len() as int,
        ),
{
    lemma_upper_twice(vid);
    lemma_upper_twice(pid);
    lemma_rule_index(before, vid, pid);
    let i = match rule_index(before, vid, pid) {
        Some(i) => i,
        None => before.len() as int,
    };
    assert forall|j: int| 0 <= j < i implies !(#[trigger] after[j]).is_for(vid, pid) by {
        if rule_index(before, vid, pid) is None {
            assert(after[j] == after.drop_last()[j]);
        }
        assert(!before[j].is_for(vid, pid));
    }
    lemma_rule_index_is(after, vid, pid, i);
}

/// A rule stored with scroll mode settings is read back with them, and every other
/// rule as before.
pub proof fn law_stored_scroll_is_read_in_the_state(
    before: StateModel,
    after: StateModel,
    vid: Seq<char>,
    pid: Seq<char>,
    speed: u32,
    wheel: Option<u32>,
    scroll: Option<ScrollCfg>,
    name: String,
    sys: SystemSpeed,
    w: Seq<SpeedWrite>,
    other_vid: Seq<char>,
    other_pid: Seq<char>,
)
    requires
        rule_stored_with_scroll(before, after, vid, pid, speed, wheel, scroll, name, sys, w),
    ensures
        rule_read(after, vid, pid) is Some,
        rule_read(after, vid, pid)->0.speed == speed,
        rule_read(after, vid, pid)->0.wheel == wheel,
        rule_read(after, vid, pid)->0.scroll == scroll,
        rule_read(after, vid, pid)->0.note == Some(name),
        !(same_ignoring_case(vid, other_vid) && same_ignoring_case(pid, other_pid)) ==> rule_read(
            after,
            other_vid,
            other_pid,
        ) == rule_read(before, other_vid, other_pid),
        after.active == before.active,
        after.cfg.speed == before.cfg.speed && after.cfg.wheel == before.cfg.wheel
            && after.cfg.scroll == before.cfg.scroll,
        !after.is_foreign(sys.after_all(w)),
{
    let old_rules = before.cfg.rules@;
    let new_rules = after.cfg.rules@;
    let note = Some(name);
    law_stored_scroll_is_read_back(old_rules, new_rules, vid, pid, speed, wheel, scroll, note);
    if !(same_ignoring_case(vid, other_vid) && same_ignoring_case(pid, other_pid)) {
        law_storing_with_scroll_keeps_other_rules(
            old_rules,
            new_rules,
            vid,
            pid,
            speed,
            wheel,
            scroll,
            note,
            other_vid,
            other_pid,
        );
    }
    law_editing_rules_keeps_the_rest(before, after, sys, w);
}

/// A deleted rule is not read any more, in whatever case its ids are written, and
/// every other rule is as before.
pub proof fn law_deleted_rule_is_not_read(
    before: StateModel,
    after: StateModel,
    vid: Seq<char>,
    pid: Seq<char>,
    sys: SystemSpeed,
    w: Seq<SpeedWrite>,
    other_vid: Seq<char>,
    other_pid: Seq<char>,
)
    requires
        rule_deleted(before, after, vid, pid, sys, w),
    ensures
        same_ignoring_case(vid, other_vid) && same_ignoring_case(pid, other_pid) ==> rule_read(
            after,
            other_vid,
            other_pid,
        ) is None,
        !(same_ignoring_case(vid, other_vid) && same_ignoring_case(pid, other_pid)) ==> rule_read(
            after,
            other_vid,
            other_pid,
        ) == rule_read(before, other_vid, other_pid),
        after.active == before.active,
        after.cfg.speed == before.cfg.speed && after.cfg.wheel == before.cfg.wheel
            && after.cfg.scroll == before.cfg.scroll,
        !after.is_foreign(sys.after_all(w)),
{
    let old_rules = before.cfg.rules@;
    if same_ignoring_case(vid, other_vid) && same_ignoring_case(pid, other_pid) {
        law_removed_rule_is_gone(old_rules, vid, pid, other_vid, other_pid);
    } else {
        law_removing_keeps_other_rules(old_rules, vid, pid, other_vid, other_pid);
    }
    law_editing_rules_keeps_the_rest(before, after, sys, w);
}

/// A value set by hand reaches the system within its range and leaves the other
/// one alone; the system reporting it back is no foreign change.
pub proof fn law_manual_value_reaches_the_system(m: StateModel, v: u32, sys: SystemSpeed)
    ensures
        sys.after_all(manual_speed_writes(v)) == (SystemSpeed { speed: valid_speed(v), ..sys }),
        sys.after_all(manual_wheel_writes(v)) == (SystemSpeed { wheel: valid_wheel(v), ..sys }),
        !m.is_foreign(sys) ==> !m.with_manual_speed(v).is_foreign(
            sys.after_all(manual_speed_writes(v)),
        ),
        !m.is_foreign(sys) ==> !m.with_manual_wheel(v).is_foreign(
            sys.after_all(manual_wheel_writes(v)),
        ),
{
    lemma_two_writes(
        sys,
        SpeedWrite::Pointer(valid_speed(v)),
        SpeedWrite::Wheel(valid_wheel(v)),
    );
    lemma_two_writes(
        sys,
        SpeedWrite::Wheel(valid_wheel(v)),
        SpeedWrite::Pointer(valid_speed(v)),
    );
}

} // verus!

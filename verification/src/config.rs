//! The configuration: global settings and one rule per kind of device.

use crate::scroll::ScrollCfg;
use crate::search::{
    first_where, lemma_first_in_filter, lemma_first_is, lemma_first_push, lemma_first_where,
};
use crate::speed::{SPEED_DEFAULT, WHEEL_DEFAULT};
use crate::text::{
    clone_text, eq_ignore_case, law_case_folding, lemma_upper_twice, same_ignoring_case, to_upper,
    upper,
};
use vstd::prelude::*;

verus! {

/// The settings of the devices with one vendor and product id.
#[derive(Debug)]
pub struct Rule {
    pub vid: String,
    pub pid: String,
    pub speed: u32,
    /// Wheel lines per notch; `None` leaves the wheel alone.
    pub wheel: Option<u32>,
    /// Scroll mode settings; `None` is off.
    pub scroll: Option<ScrollCfg>,
    pub note: Option<String>,
    /// A name of the user's own for the device.
    pub alias: Option<String>,
}

impl Clone for Rule {
    fn clone(&self) -> (r: Self)
        ensures
            r == *self,
    {
        Rule {
            vid: self.vid.clone(),
            pid: self.pid.clone(),
            speed: self.speed,
            wheel: self.wheel,
            scroll: self.scroll,
            note: clone_text(&self.note),
            alias: clone_text(&self.alias),
        }
    }
}

impl Rule {
    /// The rule is for the given ids, in any case of letters.
    pub open spec fn is_for(self, vid: Seq<char>, pid: Seq<char>) -> bool {
        same_ignoring_case(self.vid@, vid) && same_ignoring_case(self.pid@, pid)
    }

    fn is_for_ids(&self, vid: &str, pid: &str) -> (r: bool)
        ensures
            r == self.is_for(vid@, pid@),
    {
        eq_ignore_case(self.vid.as_str(), vid) && eq_ignore_case(self.pid.as_str(), pid)
    }
}

/// The position of the rule in force for the given ids: the first that is for
/// them.
pub open spec fn rule_index(rules: Seq<Rule>, vid: Seq<char>, pid: Seq<char>) -> Option<int> {
    first_where(rules, |r: Rule| r.is_for(vid, pid))
}

/// The rules without those for the given ids.
pub open spec fn rules_without(rules: Seq<Rule>, vid: Seq<char>, pid: Seq<char>) -> Seq<Rule> {
    rules.filter(|r: Rule| !r.is_for(vid, pid))
}

/// `after` is `before` with the settings stored for the given ids: in the rule
/// that is in force for them, or else in a new last rule under upper-case ids.
pub open spec fn rules_with(
    before: Seq<Rule>,
    after: Seq<Rule>,
    vid: Seq<char>,
    pid: Seq<char>,
    speed: u32,
    wheel: Option<u32>,
    note: Option<String>,
) -> bool {
    match rule_index(before, vid, pid) {
        Some(i) => after == before.update(i, Rule { speed, wheel, note, ..before[i] }),
        None => {
            &&& after.len() == before.len() + 1
            &&& after.drop_last() == before
            &&& after.last().vid@ == upper(vid)
            &&& after.last().pid@ == upper(pid)
            &&& after.last().speed == speed
            &&& after.last().wheel == wheel
            &&& after.last().scroll is None
            &&& after.last().note == note
            &&& after.last().alias is None
        },
    }
}

/// `after` is `before` with the settings stored for the given ids, those of
/// scroll mode among them.
pub open spec fn rules_with_scroll(
    before: Seq<Rule>,
    after: Seq<Rule>,
    vid: Seq<char>,
    pid: Seq<char>,
    speed: u32,
    wheel: Option<u32>,
    scroll: Option<ScrollCfg>,
    note: Option<String>,
) -> bool {
    match rule_index(before, vid, pid) {
        Some(i) => after == before.update(i, Rule { speed, wheel, scroll, note, ..before[i] }),
        None => {
            &&& after.len() == before.len() + 1
            &&& after.drop_last() == before
            &&& after.last().vid@ == upper(vid)
            &&& after.last().pid@ == upper(pid)
            &&& after.last().speed == speed
            &&& after.last().wheel == wheel
            &&& after.last().scroll == scroll
            &&& after.last().note == note
            &&& after.last().alias is None
        },
    }
}

/// The speed that a rule stored without one has.
pub fn default_speed() -> (r: u32)
    ensures
        r == SPEED_DEFAULT,
{
    10
}

/// The whole configuration.
#[derive(Debug)]
pub struct Config {
    pub rules: Vec<Rule>,
    /// Pointer speed while no rule is in force.
    pub speed: u32,
    /// Wheel lines per notch while no rule is in force.
    pub wheel: u32,
    /// Scroll mode while no rule is in force.
    pub scroll: Option<ScrollCfg>,
}

impl Default for Config {
    fn default() -> (r: Self)
        ensures
            r.rules@.len() == 0,
            r.speed == SPEED_DEFAULT,
            r.wheel == WHEEL_DEFAULT,
            r.scroll is None,
    {
        Config { rules: Vec::new(), speed: default_speed(), wheel: WHEEL_DEFAULT, scroll: None }
    }
}

impl Config {
    fn position(&self, vid: &str, pid: &str) -> (r: Option<usize>)
        ensures
            r matches Some(i) ==> i < self.rules@.len() && rule_index(self.rules@, vid@, pid@)
                == Some(i as int),
            r is None ==> rule_index(self.rules@, vid@, pid@) is None,
    {
        let ghost p = |r: Rule| r.is_for(vid@, pid@);
        let mut i: usize = 0;
        while i < self.rules.len()
            invariant
                i <= self.rules@.len(),
                p == (|r: Rule| r.is_for(vid@, pid@)),
                forall|j: int| 0 <= j < i ==> !p(#[trigger] self.rules@[j]),
            decreases self.rules@.len() - i,
        {
            if self.rules[i].is_for_ids(vid, pid) {
                proof {
                    lemma_first_is(self.rules@, p, i as int);
                }
                return Some(i);
            }
            i = i + 1;
        }
        proof {
            lemma_first_where(self.rules@, p);
        }
        None
    }

    /// The rule in force for the given ids.
    pub fn rule_for(&self, vid: &str, pid: &str) -> (r: Option<&Rule>)
        ensures
            match rule_index(self.rules@, vid@, pid@) {
                Some(i) => r == Some(&self.rules@[i]),
                None => r is None,
            },
            r matches Some(x) ==> x.is_for(vid@, pid@),
            r is None ==> forall|j: int|
                0 <= j < self.rules@.len() ==> !(#[trigger] self.rules@[j]).is_for(vid@, pid@),
    {
        proof {
            lemma_rule_index(self.rules@, vid@, pid@);
        }
        match self.position(vid, pid) {
            Some(i) => Some(&self.rules[i]),
            None => None,
        }
    }

    /// Stores settings for the given ids, in the rule for them or in a new one;
    /// returns the speed that the rule has then.
    pub fn set_rule(
        &mut self,
        vid: &str,
        pid: &str,
        speed: u32,
        wheel: Option<u32>,
        note: Option<String>,
    ) -> (r: u32)
        ensures
            r == speed,
            rules_with(old(self).rules@, final(self).rules@, vid@, pid@, speed, wheel, note),
            final(self).speed == old(self).speed,
            final(self).wheel == old(self).wheel,
            final(self).scroll == old(self).scroll,
    {
        match self.position(vid, pid) {
            Some(i) => {
                let r = &mut self.rules[i];
                r.speed = speed;
                r.wheel = wheel;
                r.note = note;
            },
            None => {
                self.rules.push(
                    Rule {
                        vid: to_upper(vid),
                        pid: to_upper(pid),
                        speed,
                        wheel,
                        scroll: None,
                        note,
                        alias: None,
                    },
                );
                assert(self.rules@.drop_last() =~= old(self).rules@);
            },
        }
        speed
    }

    /// Stores settings for the given ids, those of scroll mode among them.
    pub fn set_rule_with_scroll(
        &mut self,
        vid: &str,
        pid: &str,
        speed: u32,
        wheel: Option<u32>,
        scroll: Option<ScrollCfg>,
        note: Option<String>,
    )
        ensures
            rules_with_scroll(
                old(self).rules@,
                final(self).rules@,
                vid@,
                pid@,
                speed,
                wheel,
                scroll,
                note,
            ),
            final(self).speed == old(self).speed,
            final(self).wheel == old(self).wheel,
            final(self).scroll == old(self).scroll,
    {
        match self.position(vid, pid) {
            Some(i) => {
                let r = &mut self.rules[i];
                r.speed = speed;
                r.wheel = wheel;
                r.scroll = scroll;
                r.note = note;
            },
            None => {
                self.rules.push(
                    Rule {
                        vid: to_upper(vid),
                        pid: to_upper(pid),
                        speed,
                        wheel,
                        scroll,
                        note,
                        alias: None,
                    },
                );
                assert(self.rules@.drop_last() =~= old(self).rules@);
            },
        }
    }

    /// Drops every rule for the given ids; says whether there was one.
    pub fn remove_rule(&mut self, vid: &str, pid: &str) -> (r: bool)
        ensures
            final(self).rules@ == rules_without(old(self).rules@, vid@, pid@),
            r == rule_index(old(self).rules@, vid@, pid@) is Some,
            final(self).speed == old(self).speed,
            final(self).wheel == old(self).wheel,
            final(self).scroll == old(self).scroll,
    {
        let ghost before = self.rules@;
        let ghost keep = |r: Rule| !r.is_for(vid@, pid@);
        let mut found = false;
        let mut i: usize = 0;
        let ghost mut seen: int = 0;
        proof {
            assert(before.take(0) =~= seq![]);
            assert(before.take(0).filter(keep) =~= seq![]) by {
                reveal(Seq::filter);
            }
        }
        while i < self.rules.len()
            invariant
                keep == (|r: Rule| !r.is_for(vid@, pid@)),
                0 <= seen <= before.len(),
                i == before.take(seen).filter(keep).len(),
                self.rules@ == before.take(seen).filter(keep) + before.skip(seen),
                found == exists|j: int| 0 <= j < seen && !keep(#[trigger] before[j]),
                self.speed == old(self).speed,
                self.wheel == old(self).wheel,
                self.scroll == old(self).scroll,
            decreases before.len() - seen,
        {
            proof {
                assert(self.rules@[i as int] == before[seen]);
                assert(before.take(seen + 1) =~= before.take(seen).push(before[seen]));
                before.take(seen).lemma_filter_push(before[seen], keep);
            }
            if self.rules[i].is_for_ids(vid, pid) {
                self.rules.remove(i);
                found = true;
                assert(!keep(before[seen]));
                assert(self.rules@ =~= before.take(seen + 1).filter(keep) + before.skip(seen + 1));
            } else {
                i = i + 1;
                assert(self.rules@ =~= before.take(seen + 1).filter(keep) + before.skip(seen + 1));
            }
            proof {
                seen = seen + 1;
            }
        }
        proof {
            assert(seen == before.len());
            assert(before.take(seen) =~= before);
            assert(self.rules@ =~= before.filter(keep));
            lemma_first_where(before, |r: Rule| r.is_for(vid@, pid@));
        }
        found
    }
}

/// No two rules are for the same ids.
pub open spec fn distinct_rules(rules: Seq<Rule>) -> bool {
    forall|i: int, j: int|
        0 <= i < j < rules.len() ==> !(#[trigger] rules[i]).is_for(
            (#[trigger] rules[j]).vid@,
            rules[j].pid@,
        )
}

/// The rule in force for some ids is for them, and none before it is.
pub proof fn lemma_rule_index(rules: Seq<Rule>, vid: Seq<char>, pid: Seq<char>)
    ensures
        rule_index(rules, vid, pid) matches Some(i) ==> {
            &&& 0 <= i < rules.len()
            &&& rules[i].is_for(vid, pid)
            &&& forall|j: int| 0 <= j < i ==> !(#[trigger] rules[j]).is_for(vid, pid)
        },
        rule_index(rules, vid, pid) is None ==> forall|j: int|
            0 <= j < rules.len() ==> !(#[trigger] rules[j]).is_for(vid, pid),
{
    let p = |r: Rule| r.is_for(vid, pid);
    lemma_first_where(rules, p);
    match rule_index(rules, vid, pid) {
        Some(i) => {
            assert forall|j: int| 0 <= j < i implies !(#[trigger] rules[j]).is_for(vid, pid) by {
                assert(!p(rules[j]));
            }
        },
        None => {
            assert forall|j: int| 0 <= j < rules.len() implies !(#[trigger] rules[j]).is_for(
                vid,
                pid,
            ) by {
                assert(!p(rules[j]));
            }
        },
    }
}

/// The first rule that is for some ids is in force for them.
pub proof fn lemma_rule_index_is(rules: Seq<Rule>, vid: Seq<char>, pid: Seq<char>, i: int)
    requires
        0 <= i < rules.len(),
        rules[i].is_for(vid, pid),
        forall|j: int| 0 <= j < i ==> !(#[trigger] rules[j]).is_for(vid, pid),
    ensures
        rule_index(rules, vid, pid) == Some(i),
{
    let p = |r: Rule| r.is_for(vid, pid);
    assert forall|j: int| 0 <= j < i implies !p(#[trigger] rules[j]) by {
        assert(!rules[j].is_for(vid, pid));
    }
    lemma_first_is(rules, p, i);
}

/// What was stored for some ids is what is read for them, whatever the case of
/// their letters on either side.
pub proof fn law_stored_rule_is_read_back(
    before: Seq<Rule>,
    after: Seq<Rule>,
    vid: Seq<char>,
    pid: Seq<char>,
    speed: u32,
    wheel: Option<u32>,
    note: Option<String>,
    read_vid: Seq<char>,
    read_pid: Seq<char>,
)
    requires
        rules_with(before, after, vid, pid, speed, wheel, note),
        same_ignoring_case(vid, read_vid),
        same_ignoring_case(pid, read_pid),
    ensures
        rule_index(after, read_vid, read_pid) matches Some(i) && 0 <= i < after.len()
            && after[i].speed == speed && after[i].wheel == wheel && after[i].note == note,
{
    lemma_upper_twice(vid);
    lemma_upper_twice(pid);
    lemma_rule_index(before, vid, pid);
    match rule_index(before, vid, pid) {
        Some(i) => {
            assert forall|j: int| 0 <= j < i implies !(#[trigger] after[j]).is_for(
                read_vid,
                read_pid,
            ) by {
                assert(after[j] == before[j]);
            }
            lemma_rule_index_is(after, read_vid, read_pid, i);
        },
        None => {
            let i = before.len() as int;
            assert forall|j: int| 0 <= j < i implies !(#[trigger] after[j]).is_for(
                read_vid,
                read_pid,
            ) by {
                assert(after[j] == after.drop_last()[j]);
                assert(!before[j].is_for(vid, pid));
            }
            lemma_rule_index_is(after, read_vid, read_pid, i);
        },
    }
}

/// The scroll mode settings stored for some ids are read back for them too.
pub proof fn law_stored_scroll_is_read_back(
    before: Seq<Rule>,
    after: Seq<Rule>,
    vid: Seq<char>,
    pid: Seq<char>,
    speed: u32,
    wheel: Option<u32>,
    scroll: Option<ScrollCfg>,
    note: Option<String>,
)
    requires
        rules_with_scroll(before, after, vid, pid, speed, wheel, scroll, note),
    ensures
        rule_index(after, vid, pid) matches Some(i) && 0 <= i < after.len() && after[i].speed
            == speed && after[i].wheel == wheel && after[i].scroll == scroll && after[i].note
            == note,
{
    lemma_upper_twice(vid);
    lemma_upper_twice(pid);
    lemma_rule_index(before, vid, pid);
    let i = match rule_index(before, vid, pid) {
        Some(i) => i,
        None => before.len() as int,
    };
    assert forall|j: int| 0 <= j < i implies !(#[trigger] after[j]).is_for(vid, pid) by {
        if rule_index(before, vid, pid) is None {
            assert(after[j] == after.drop_last()[j]);
        }
        assert(!before[j].is_for(vid, pid));
    }
    lemma_rule_index_is(after, vid, pid, i);
}

/// Storing settings for some ids leaves what is read for other ids as it was.
pub proof fn law_storing_keeps_other_rules(
    before: Seq<Rule>,
    after: Seq<Rule>,
    vid: Seq<char>,
    pid: Seq<char>,
    speed: u32,
    wheel: Option<u32>,
    note: Option<String>,
    other_vid: Seq<char>,
    other_pid: Seq<char>,
)
    requires
        rules_with(before, after, vid, pid, speed, wheel, note),
        !(same_ignoring_case(vid, other_vid) && same_ignoring_case(pid, other_pid)),
    ensures
        rule_index(after, other_vid, other_pid) == rule_index(before, other_vid, other_pid),
        rule_index(before, other_vid, other_pid) matches Some(i) ==> after[i] == before[i],
{
    lemma_upper_twice(vid);
    lemma_upper_twice(pid);
    lemma_rule_index(before, vid, pid);
    lemma_rule_index(before, other_vid, other_pid);
    let p = |r: Rule| r.is_for(other_vid, other_pid);
    match rule_index(before, vid, pid) {
        Some(k) => {
            assert(!before[k].is_for(other_vid, other_pid));
            assert(!after[k].is_for(other_vid, other_pid));
            match rule_index(before, other_vid, other_pid) {
                Some(i) => {
                    assert forall|j: int| 0 <= j < i implies !(#[trigger] after[j]).is_for(
                        other_vid,
                        other_pid,
                    ) by {
                        assert(!before[j].is_for(other_vid, other_pid));
                    }
                    lemma_rule_index_is(after, other_vid, other_pid, i);
                },
                None => {
                    lemma_first_where(after, p);
                    assert forall|j: int| 0 <= j < after.len() implies !p(#[trigger] after[j]) by {
                        assert(!before[j].is_for(other_vid, other_pid));
                    }
                },
            }
        },
        None => {
            assert(after =~= before.push(after.last()));
            lemma_first_push(before, after.last(), p);
            lemma_first_where(before, p);
        },
    }
}

/// Once the rules for some ids are removed, there is none for them, whatever
/// the case of their letters.
pub proof fn law_removed_rule_is_gone(
    before: Seq<Rule>,
    vid: Seq<char>,
    pid: Seq<char>,
    read_vid: Seq<char>,
    read_pid: Seq<char>,
)
    requires
        same_ignoring_case(vid, read_vid),
        same_ignoring_case(pid, read_pid),
    ensures
        rule_index(rules_without(before, vid, pid), read_vid, read_pid) is None,
{
    let keep = |r: Rule| !r.is_for(vid, pid);
    broadcast use vstd::seq_lib::group_filter_ensures;

    lemma_first_where(before.filter(keep), |r: Rule| r.is_for(read_vid, read_pid));
    lemma_rule_index(before.filter(keep), read_vid, read_pid);
    if let Some(i) = rule_index(before.filter(keep), read_vid, read_pid) {
        assert(keep(before.filter(keep)[i]));
    }
}

/// Removing the rules for some ids leaves what is read for other ids as it was.
pub proof fn law_removing_keeps_other_rules(
    before: Seq<Rule>,
    vid: Seq<char>,
    pid: Seq<char>,
    other_vid: Seq<char>,
    other_pid: Seq<char>,
)
    requires
        !(same_ignoring_case(vid, other_vid) && same_ignoring_case(pid, other_pid)),
    ensures
        match rule_index(before, other_vid, other_pid) {
            Some(i) => rule_index(rules_without(before, vid, pid), other_vid, other_pid) matches Some(
                k,
            ) && rules_without(before, vid, pid)[k] == before[i],
            None => rule_index(rules_without(before, vid, pid), other_vid, other_pid) is None,
        },
{
    let keep = |r: Rule| !r.is_for(vid, pid);
    let p = |r: Rule| r.is_for(other_vid, other_pid);
    assert forall|r: Rule| #[trigger] p(r) implies keep(r) by {}
    lemma_first_in_filter(before, keep, p);
}

/// As long as no two rules are for the same ids, storing settings keeps it so.
pub proof fn law_storing_keeps_rules_distinct(
    before: Seq<Rule>,
    after: Seq<Rule>,
    vid: Seq<char>,
    pid: Seq<char>,
    speed: u32,
    wheel: Option<u32>,
    note: Option<String>,
)
    requires
        distinct_rules(before),
        rules_with(before, after, vid, pid, speed, wheel, note),
    ensures
        distinct_rules(after),
{
    lemma_upper_twice(vid);
    lemma_upper_twice(pid);
    lemma_rule_index(before, vid, pid);
    assert forall|i: int, j: int| 0 <= i < j < after.len() implies !(#[trigger] after[i]).is_for(
        (#[trigger] after[j]).vid@,
        after[j].pid@,
    ) by {
        match rule_index(before, vid, pid) {
            Some(k) => {
                assert(!before[i].is_for(before[j].vid@, before[j].pid@));
            },
            None => {
                assert(after[i] == after.drop_last()[i]);
                if j < before.len() {
                    assert(after[j] == after.drop_last()[j]);
                    assert(!before[i].is_for(before[j].vid@, before[j].pid@));
                } else {
                    assert(!before[i].is_for(vid, pid));
                }
            },
        }
    }
}

/// Storing settings with scroll mode for some ids leaves what is read for other
/// ids as it was.
pub proof fn law_storing_with_scroll_keeps_other_rules(
    before: Seq<Rule>,
    after: Seq<Rule>,
    vid: Seq<char>,
    pid: Seq<char>,
    speed: u32,
    wheel: Option<u32>,
    scroll: Option<ScrollCfg>,
    note: Option<String>,
    other_vid: Seq<char>,
    other_pid: Seq<char>,
)
    requires
        rules_with_scroll(before, after, vid, pid, speed, wheel, scroll, note),
        !(same_ignoring_case(vid, other_vid) && same_ignoring_case(pid, other_pid)),
    ensures
        rule_index(after, other_vid, other_pid) == rule_index(before, other_vid, other_pid),
        rule_index(before, other_vid, other_pid) matches Some(i) ==> 0 <= i < before.len() && i
            < after.len() && after[i] == before[i],
{
    lemma_upper_twice(vid);
    lemma_upper_twice(pid);
    lemma_rule_index(before, vid, pid);
    lemma_rule_index(before, other_vid, other_pid);
    let p = |r: Rule| r.is_for(other_vid, other_pid);
    match rule_index(before, vid, pid) {
        Some(k) => {
            assert(!before[k].is_for(other_vid, other_pid));
            assert(!after[k].is_for(other_vid, other_pid));
            match rule_index(before, other_vid, other_pid) {
                Some(i) => {
                    assert forall|j: int| 0 <= j < i implies !(#[trigger] after[j]).is_for(
                        other_vid,
                        other_pid,
                    ) by {
                        assert(!before[j].is_for(other_vid, other_pid));
                    }
                    lemma_rule_index_is(after, other_vid, other_pid, i);
                },
                None => {
                    lemma_first_where(after, p);
                    assert forall|j: int| 0 <= j < after.len() implies !p(#[trigger] after[j]) by {
                        assert(!before[j].is_for(other_vid, other_pid));
                    }
                },
            }
        },
        None => {
            assert(after =~= before.push(after.last()));
            lemma_first_push(before, after.last(), p);
            lemma_first_where(before, p);
        },
    }
}

/// Storing settings loses no rule and moves none: the rule for the ids is changed
/// in place, or one is added behind all others. Besides the settings stored, a
/// changed rule stays as it was, its scroll mode settings and its name included;
/// a new one has neither.
pub proof fn law_storing_changes_one_rule(
    before: Seq<Rule>,
    after: Seq<Rule>,
    vid: Seq<char>,
    pid: Seq<char>,
    speed: u32,
    wheel: Option<u32>,
    note: Option<String>,
    j: int,
)
    requires
        rules_with(before, after, vid, pid, speed, wheel, note),
    ensures
        rule_index(before, vid, pid) is Some ==> after.len() == before.len(),
        rule_index(before, vid, pid) is None ==> after.len() == before.len() + 1
            && after.last().scroll is None && after.last().alias is None,
        0 <= j < before.len() ==> {
            &&& rule_index(before, vid, pid) != Some(j) ==> after[j] == before[j]
            &&& after[j].vid == before[j].vid
            &&& after[j].pid == before[j].pid
            &&& after[j].scroll == before[j].scroll
            &&& after[j].alias == before[j].alias
        },
{
    lemma_rule_index(before, vid, pid);
    if rule_index(before, vid, pid) is None && 0 <= j < before.len() {
        assert(after[j] == after.drop_last()[j]);
    }
}

/// Storing settings with scroll mode loses no rule and moves none either, and a
/// changed rule keeps its ids and its name.
pub proof fn law_storing_with_scroll_changes_one_rule(
    before: Seq<Rule>,
    after: Seq<Rule>,
    vid: Seq<char>,
    pid: Seq<char>,
    speed: u32,
    wheel: Option<u32>,
    scroll: Option<ScrollCfg>,
    note: Option<String>,
    j: int,
)
    requires
        rules_with_scroll(before, after, vid, pid, speed, wheel, scroll, note),
    ensures
        rule_index(before, vid, pid) is Some ==> after.len() == before.len(),
        rule_index(before, vid, pid) is None ==> after.len() == before.len() + 1
            && after.last().alias is None,
        0 <= j < before.len() ==> {
            &&& rule_index(before, vid, pid) != Some(j) ==> after[j] == before[j]
            &&& after[j].vid == before[j].vid
            &&& after[j].pid == before[j].pid
            &&& after[j].alias == before[j].alias
        },
{
    lemma_rule_index(before, vid, pid);
    if rule_index(before, vid, pid) is None && 0 <= j < before.len() {
        assert(after[j] == after.drop_last()[j]);
    }
}

/// What was stored with scroll mode is read back whatever the case of the letters
/// on either side.
pub proof fn law_stored_scroll_is_read_back_in_any_case(
    before: Seq<Rule>,
    after: Seq<Rule>,
    vid: Seq<char>,
    pid: Seq<char>,
    speed: u32,
    wheel: Option<u32>,
    scroll: Option<ScrollCfg>,
    note: Option<String>,
    read_vid: Seq<char>,
    read_pid: Seq<char>,
)
    requires
        rules_with_scroll(before, after, vid, pid, speed, wheel, scroll, note),
        same_ignoring_case(vid, read_vid),
        same_ignoring_case(pid, read_pid),
    ensures
        rule_index(after, read_vid, read_pid) matches Some(i) && 0 <= i < after.len()
            && after[i].speed == speed && after[i].wheel == wheel && after[i].scroll == scroll
            && after[i].note == note,
{
    law_stored_scroll_is_read_back(before, after, vid, pid, speed, wheel, scroll, note);
    lemma_rule_index(after, vid, pid);
    let i = rule_index(after, vid, pid)->0;
    assert forall|j: int| 0 <= j < i implies !(#[trigger] after[j]).is_for(
        read_vid,
        read_pid,
    ) by {
        assert(!after[j].is_for(vid, pid));
    }
    lemma_rule_index_is(after, read_vid, read_pid, i);
}

/// Removing works rule by rule: of the rules in order, those for the ids go and
/// every other one stays in its place among the rest.
pub proof fn law_removing_goes_rule_by_rule(
    rules: Seq<Rule>,
    r: Rule,
    vid: Seq<char>,
    pid: Seq<char>,
)
    ensures
        rules_without(seq![], vid, pid) == Seq::<Rule>::empty(),
        same_ignoring_case(r.vid@, vid) && same_ignoring_case(r.pid@, pid) ==> rules_without(
            rules.push(r),
            vid,
            pid,
        ) == rules_without(rules, vid, pid),
        !(same_ignoring_case(r.vid@, vid) && same_ignoring_case(r.pid@, pid)) ==> rules_without(
            rules.push(r),
            vid,
            pid,
        ) == rules_without(rules, vid, pid).push(r),
{
    let keep = |r: Rule| !r.is_for(vid, pid);
    rules.lemma_filter_push(r, keep);
    assert(Seq::<Rule>::empty().filter(keep) =~= Seq::<Rule>::empty()) by {
        reveal(Seq::filter);
    }
    assert(rules_without(seq![], vid, pid) =~= Seq::<Rule>::empty());
}

/// The rule read for some ids is the first that is for both of them.
pub proof fn law_first_rule_counts(rules: Seq<Rule>, vid: Seq<char>, pid: Seq<char>, j: int)
    ensures
        rule_index(rules, vid, pid) matches Some(i) ==> {
            &&& 0 <= i < rules.len()
            &&& same_ignoring_case(rules[i].vid@, vid)
            &&& same_ignoring_case(rules[i].pid@, pid)
        },
        0 <= j < rules.len() && same_ignoring_case(rules[j].vid@, vid) && same_ignoring_case(
            rules[j].pid@,
            pid,
        ) ==> rule_index(rules, vid, pid) is Some && rule_index(rules, vid, pid)->0 <= j,
{
    lemma_rule_index(rules, vid, pid);
    if 0 <= j < rules.len() && rules[j].is_for(vid, pid) {
        if let Some(i) = rule_index(rules, vid, pid) {
            if j < i {
                assert(!rules[j].is_for(vid, pid));
            }
        }
    }
}

/// A new rule is for the ids it was stored for, and holds them without small
/// letters, with scroll mode settings or without.
pub proof fn law_new_rules_have_capital_ids(
    before: Seq<Rule>,
    after: Seq<Rule>,
    vid: Seq<char>,
    pid: Seq<char>,
    speed: u32,
    wheel: Option<u32>,
    scroll: Option<ScrollCfg>,
    note: Option<String>,
    k: int,
)
    requires
        rules_with(before, after, vid, pid, speed, wheel, note) || rules_with_scroll(
            before,
            after,
            vid,
            pid,
            speed,
            wheel,
            scroll,
            note,
        ),
        rule_index(before, vid, pid) is None,
    ensures
        same_ignoring_case(after.last().vid@, vid),
        same_ignoring_case(after.last().pid@, pid),
        0 <= k < after.last().vid@.len() ==> !('a' <= after.last().vid@[k] <= 'z'),
        0 <= k < after.last().pid@.len() ==> !('a' <= after.last().pid@[k] <= 'z'),
{
    lemma_upper_twice(vid);
    lemma_upper_twice(pid);
    if 0 <= k < vid.len() {
        law_case_folding(vid[k], vid, vid);
    }
    if 0 <= k < pid.len() {
        law_case_folding(pid[k], pid, pid);
    }
}

/// As long as no two rules are for the same ids, storing settings with scroll mode
/// keeps it so.
pub proof fn law_storing_with_scroll_keeps_rules_distinct(
    before: Seq<Rule>,
    after: Seq<Rule>,
    vid: Seq<char>,
    pid: Seq<char>,
    speed: u32,
    wheel: Option<u32>,
    scroll: Option<ScrollCfg>,
    note: Option<String>,
)
    requires
        distinct_rules(before),
        rules_with_scroll(before, after, vid, pid, speed, wheel, scroll, note),
    ensures
        distinct_rules(after),
{
    lemma_upper_twice(vid);
    lemma_upper_twice(pid);
    lemma_rule_index(before, vid, pid);
    assert forall|i: int, j: int| 0 <= i < j < after.len() implies !(#[trigger] after[i]).is_for(
        (#[trigger] after[j]).vid@,
        after[j].pid@,
    ) by {
        match rule_index(before, vid, pid) {
            Some(k) => {
                assert(!before[i].is_for(before[j].vid@, before[j].pid@));
            },
            None => {
                assert(after[i] == after.drop_last()[i]);
                if j < before.len() {
                    assert(after[j] == after.drop_last()[j]);
                    assert(!before[i].is_for(before[j].vid@, before[j].pid@));
                } else {
                    assert(!before[i].is_for(vid, pid));
                }
            },
        }
    }
}

/// Storing settings twice for the same ids is storing the later ones: there is one
/// rule more at most, and what is read is what was stored last.
pub proof fn law_last_stored_settings_count(
    before: Seq<Rule>,
    between: Seq<Rule>,
    after: Seq<Rule>,
    vid: Seq<char>,
    pid: Seq<char>,
    speed: u32,
    wheel: Option<u32>,
    scroll: Option<ScrollCfg>,
    note: Option<String>,
    speed2: u32,
    wheel2: Option<u32>,
    note2: Option<String>,
)
    requires
        rules_with_scroll(before, between, vid, pid, speed, wheel, scroll, note),
        rules_with(between, after, vid, pid, speed2, wheel2, note2),
    ensures
        after.len() == between.len(),
        rule_index(after, vid, pid) matches Some(i) && after[i].speed == speed2 && after[i].wheel
            == wheel2 && after[i].note == note2 && after[i].scroll == scroll,
{
    law_stored_scroll_is_read_back(before, between, vid, pid, speed, wheel, scroll, note);
    law_stored_rule_is_read_back(
        between,
        after,
        vid,
        pid,
        speed2,
        wheel2,
        note2,
        vid,
        pid,
    );
    let k = rule_index(between, vid, pid)->0;
    lemma_rule_index(after, vid, pid);
    lemma_rule_index(between, vid, pid);
    let i = rule_index(after, vid, pid)->0;
    if i < k {
        assert(after[i] == between[i]);
    }
    if k < i {
        assert(after[k].is_for(vid, pid));
    }
}

} // verus!

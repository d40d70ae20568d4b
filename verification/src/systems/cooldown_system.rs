use vstd::prelude::*;

verus! {

/// The cooldowns of an entity: each running one holds the time left and the time it
/// lasts in all, in nanoseconds. They are the global one, and those of each skill, each
/// group of skills and each consumable item (by their index).
#[derive(Debug)]
pub struct Cooldowns {
    pub global: Option<(u64, u64)>,
    pub skills: Vec<Option<(u64, u64)>>,
    pub skill_groups: Vec<Option<(u64, u64)>>,
    pub consumable_items: Vec<Option<(u64, u64)>>,
}

/// A cooldown after `delta` nanoseconds: the time left shrinks by `delta`, and the
/// cooldown is over once no time is left.
pub open spec fn spec_tick(cooldown: Option<(u64, u64)>, delta: int) -> Option<(u64, u64)> {
    match cooldown {
        Some((current, total)) => if delta < current {
            Some(((current - delta) as u64, total))
        } else {
            None
        },
        None => None,
    }
}

/// Each of a table of cooldowns after `delta` nanoseconds.
pub open spec fn spec_tick_all(cooldowns: Seq<Option<(u64, u64)>>, delta: int) -> Seq<Option<(u64, u64)>> {
    cooldowns.map_values(|c: Option<(u64, u64)>| spec_tick(c, delta))
}

fn tick(cooldown: &mut Option<(u64, u64)>, delta: u64)
    ensures
        *final(cooldown) == spec_tick(*old(cooldown), delta as int),
{
    if let Some((current, total)) = *cooldown {
        if delta < current {
            *cooldown = Some((current - delta, total));
        } else {
            *cooldown = None;
        }
    }
}

fn tick_all(cooldowns: &mut Vec<Option<(u64, u64)>>, delta: u64)
    ensures
        final(cooldowns)@ == spec_tick_all(old(cooldowns)@, delta as int),
{
    let mut i: usize = 0;
    while i < cooldowns.len()
        invariant
            i <= cooldowns@.len(),
            cooldowns@.len() == old(cooldowns)@.len(),
            forall|j: int|
                0 <= j < i ==> cooldowns@[j] == spec_tick(old(cooldowns)@[j], delta as int),
            forall|j: int| i <= j < cooldowns@.len() ==> cooldowns@[j] == old(cooldowns)@[j],
        decreases cooldowns.len() - i,
    {
        let mut c = cooldowns[i];
        tick(&mut c, delta);
        cooldowns.set(i, c);
        i = i + 1;
    }
    assert(cooldowns@ =~= spec_tick_all(old(cooldowns)@, delta as int));
}

/// Runs down every cooldown of an entity by the time the frame took.
pub fn cooldown_system(cooldowns: &mut Cooldowns, delta: u64)
    ensures
        final(cooldowns).global == spec_tick(old(cooldowns).global, delta as int),
        final(cooldowns).skills@ == spec_tick_all(old(cooldowns).skills@, delta as int),
        final(cooldowns).skill_groups@ == spec_tick_all(old(cooldowns).skill_groups@, delta as int),
        final(cooldowns).consumable_items@ == spec_tick_all(
            old(cooldowns).consumable_items@,
            delta as int,
        ),
{
    tick(&mut cooldowns.global, delta);
    tick_all(&mut cooldowns.skills, delta);
    tick_all(&mut cooldowns.skill_groups, delta);
    tick_all(&mut cooldowns.consumable_items, delta);
}

/// Running a cooldown down by one time and then by another is running it down by both
/// at once.
pub proof fn law_cooldown_ticks_add_up(cooldown: Option<(u64, u64)>, first: nat, second: nat)
    ensures
        spec_tick(spec_tick(cooldown, first as int), second as int) == spec_tick(
            cooldown,
            (first + second) as int,
        ),
{
}

/// A cooldown never lasts longer after time passes.
pub proof fn law_cooldown_only_runs_down(cooldown: Option<(u64, u64)>, delta: nat)
    ensures
        match spec_tick(cooldown, delta as int) {
            Some((left, total)) => cooldown matches Some((before, t)) && left <= before && total
                == t,
            None => true,
        },
{
}

} // verus!

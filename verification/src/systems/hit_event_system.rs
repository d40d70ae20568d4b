use vstd::prelude::*;

use crate::systems::game_connection_system::{spec_client_entity, ClientEntityList};

verus! {

/// Damage: its amount, whether it is critical, and whether it stuns.
#[derive(Copy, Clone, Debug, PartialEq, Eq, Structural)]
pub struct Damage {
    pub amount: u32,
    pub is_critical: bool,
    pub apply_hit_stun: bool,
}

/// Damage the server has announced and that waits for the hit that deals it: the attacker
/// (by client entity id), the damage, whether it kills, whether it is dealt at once, and
/// the skill (id and the caster's intelligence) it comes from.
#[derive(Copy, Clone, Debug)]
pub struct PendingDamage {
    pub attacker: usize,
    pub damage: Damage,
    pub is_kill: bool,
    pub is_immediate: bool,
    pub from_skill: Option<(u16, i32)>,
}

/// Whether a pending damage is dealt by a hit: its attacker's entity is the hit's
/// attacker, and it comes from the hit's skill (or from none, as the hit).
pub open spec fn spec_dealt_by(
    pending: PendingDamage,
    entities: Seq<Option<u64>>,
    attacker: u64,
    skill_id: Option<u16>,
) -> bool {
    &&& spec_client_entity(entities, pending.attacker) == Some(attacker)
    &&& skill_id == match pending.from_skill {
        Some((id, _)) => Some(id),
        None => None,
    }
}

/// The pending damages that a hit does not deal, in order.
pub open spec fn spec_kept_damage(
    list: Seq<PendingDamage>,
    entities: Seq<Option<u64>>,
    attacker: u64,
    skill_id: Option<u16>,
) -> Seq<PendingDamage>
    decreases list.len(),
{
    if list.len() == 0 {
        Seq::empty()
    } else {
        spec_kept_damage(list.drop_last(), entities, attacker, skill_id) + if spec_dealt_by(
            list.last(),
            entities,
            attacker,
            skill_id,
        ) {
            Seq::empty()
        } else {
            seq![list.last()]
        }
    }
}

/// What the pending damages that a hit deals add up to: the sum of their amounts, whether
/// any is critical, whether any stuns, and whether any kills.
pub open spec fn spec_dealt_damage(
    list: Seq<PendingDamage>,
    entities: Seq<Option<u64>>,
    attacker: u64,
    skill_id: Option<u16>,
) -> (int, bool, bool, bool)
    decreases list.len(),
{
    if list.len() == 0 {
        (0, false, false, false)
    } else {
        let (amount, critical, stun, kill) = spec_dealt_damage(
            list.drop_last(),
            entities,
            attacker,
            skill_id,
        );
        let p = list.last();
        if spec_dealt_by(p, entities, attacker, skill_id) {
            (
                amount + p.damage.amount,
                critical || p.damage.is_critical,
                stun || p.damage.apply_hit_stun,
                kill || p.is_kill,
            )
        } else {
            (amount, critical, stun, kill)
        }
    }
}

/// The pending damages that a hit by an attacker entity with a skill (or none) deals: they
/// leave the list, the others stay in order, and the damage they add up to is returned,
/// with whether any of them kills.
pub fn take_pending_damage(
    pending_damage_list: &mut Vec<PendingDamage>,
    client_entity_list: &ClientEntityList,
    attacker: u64,
    skill_id: Option<u16>,
) -> (r: (Damage, bool))
    requires
        spec_dealt_damage(old(pending_damage_list)@, client_entity_list.client_entities@, attacker, skill_id).0
            <= u32::MAX,
    ensures
        final(pending_damage_list)@ == spec_kept_damage(
            old(pending_damage_list)@,
            client_entity_list.client_entities@,
            attacker,
            skill_id,
        ),
        ({
            let (amount, critical, stun, kill) = spec_dealt_damage(
                old(pending_damage_list)@,
                client_entity_list.client_entities@,
                attacker,
                skill_id,
            );
            r.0 == (Damage { amount: amount as u32, is_critical: critical, apply_hit_stun: stun })
                && r.1 == kill
        }),
{
    let ghost list = pending_damage_list@;
    let ghost entities = client_entity_list.client_entities@;
    let mut kept: Vec<PendingDamage> = Vec::new();
    let mut damage = Damage { amount: 0, is_critical: false, apply_hit_stun: false };
    let mut is_killed = false;
    let mut i: usize = 0;
    while i < pending_damage_list.len()
        invariant
            i <= list.len(),
            list == pending_damage_list@,
            entities == client_entity_list.client_entities@,
            spec_dealt_damage(list, entities, attacker, skill_id).0 <= u32::MAX,
            kept@ == spec_kept_damage(list.take(i as int), entities, attacker, skill_id),
            ({
                let (amount, critical, stun, kill) = spec_dealt_damage(
                    list.take(i as int),
                    entities,
                    attacker,
                    skill_id,
                );
                damage == (Damage { amount: amount as u32, is_critical: critical, apply_hit_stun: stun })
                    && is_killed == kill && 0 <= amount <= u32::MAX
            }),
        decreases list.len() - i,
    {
        let p = pending_damage_list[i];
        assert(list.take(i + 1).drop_last() =~= list.take(i as int));
        assert(list.take(i + 1).last() == p);
        proof {
            lemma_dealt_amount_grows(list, entities, attacker, skill_id, i as int + 1);
            let prev = spec_dealt_damage(list.take(i as int), entities, attacker, skill_id);
            let next = spec_dealt_damage(list.take(i + 1), entities, attacker, skill_id);
            assert(damage.amount as int == prev.0);
            assert(next == if spec_dealt_by(p, entities, attacker, skill_id) {
                (
                    prev.0 + p.damage.amount,
                    prev.1 || p.damage.is_critical,
                    prev.2 || p.damage.apply_hit_stun,
                    prev.3 || p.is_kill,
                )
            } else {
                prev
            });
            assert(spec_kept_damage(list.take(i + 1), entities, attacker, skill_id)
                == spec_kept_damage(list.take(i as int), entities, attacker, skill_id) + if spec_dealt_by(
                p,
                entities,
                attacker,
                skill_id,
            ) {
                Seq::<PendingDamage>::empty()
            } else {
                seq![p]
            });
        }
        let attacker_entity = client_entity_list.get(p.attacker);
        let from_skill_id = match p.from_skill {
            Some((id, _)) => Some(id),
            None => None,
        };
        let dealt = match attacker_entity {
            Some(e) => e == attacker,
            None => false,
        } && match (skill_id, from_skill_id) {
            (Some(a), Some(b)) => a == b,
            (None, None) => true,
            _ => false,
        };
        assert(dealt == spec_dealt_by(p, entities, attacker, skill_id));
        if dealt {
            damage.amount = damage.amount + p.damage.amount;
            damage.is_critical = damage.is_critical || p.damage.is_critical;
            damage.apply_hit_stun = damage.apply_hit_stun || p.damage.apply_hit_stun;
            is_killed = is_killed || p.is_kill;
        } else {
            kept.push(p);
        }
        i = i + 1;
        assert(kept@ =~= spec_kept_damage(list.take(i as int), entities, attacker, skill_id));
    }
    assert(list.take(list.len() as int) =~= list);
    *pending_damage_list = kept;
    (damage, is_killed)
}

proof fn lemma_dealt_amount_grows(
    list: Seq<PendingDamage>,
    entities: Seq<Option<u64>>,
    attacker: u64,
    skill_id: Option<u16>,
    n: int,
)
    requires
        0 <= n <= list.len(),
    ensures
        spec_dealt_damage(list.take(n), entities, attacker, skill_id).0 <= spec_dealt_damage(
            list,
            entities,
            attacker,
            skill_id,
        ).0,
    decreases list.len() - n,
{
    if n < list.len() {
        lemma_dealt_amount_grows(list, entities, attacker, skill_id, n + 1);
        assert(list.take(n + 1).drop_last() =~= list.take(n));
    } else {
        assert(list.take(n) =~= list);
    }
}

/// Health points after damage: they go down by the amount (as an `i32`), but not below
/// zero.
pub fn apply_damage(hp: i32, amount: u32) -> (r: i32)
    requires
        hp >= (amount as i32) ==> hp - (amount as i32) <= i32::MAX,
    ensures
        r == if hp < (amount as i32) {
            0
        } else {
            hp - (amount as i32)
        },
{
    let amount = amount as i32;
    if hp < amount {
        0
    } else {
        hp - amount
    }
}

/// An effect that a hit shows on the defender: at its position, or at a dummy bone of it.
#[derive(Copy, Clone, Debug, PartialEq, Eq, Structural)]
pub enum HitEffect {
    AtEntity(u16),
    OnEntity(Option<usize>, u16),
}

/// The effects a hit shows, in order: the hit effect's critical variant where the damage
/// is critical, its normal variant, and the skill's hit effect.
pub fn hit_effects(
    is_critical: bool,
    effect_files: Option<(Option<u16>, Option<u16>)>,
    skill_hit_effect: Option<(u16, Option<usize>)>,
) -> (r: Vec<HitEffect>)
    ensures
        r@ == (match effect_files {
            Some((critical, normal)) => (match critical {
                Some(f) => if is_critical {
                    seq![HitEffect::AtEntity(f)]
                } else {
                    Seq::empty()
                },
                None => Seq::empty(),
            }) + match normal {
                Some(f) => seq![HitEffect::AtEntity(f)],
                None => Seq::empty(),
            },
            None => Seq::empty(),
        }) + match skill_hit_effect {
            Some((file, bone)) => seq![HitEffect::OnEntity(bone, file)],
            None => Seq::empty(),
        },
{
    let mut effects: Vec<HitEffect> = Vec::new();
    if let Some((critical, normal)) = effect_files {
        if is_critical {
            if let Some(f) = critical {
                effects.push(HitEffect::AtEntity(f));
            }
        }
        if let Some(f) = normal {
            effects.push(HitEffect::AtEntity(f));
        }
    }
    if let Some((file, bone)) = skill_hit_effect {
        effects.push(HitEffect::OnEntity(bone, file));
    }
    assert(effects@ =~= (match effect_files {
        Some((critical, normal)) => (match critical {
            Some(f) => if is_critical {
                seq![HitEffect::AtEntity(f)]
            } else {
                Seq::empty()
            },
            None => Seq::empty(),
        }) + match normal {
            Some(f) => seq![HitEffect::AtEntity(f)],
            None => Seq::empty(),
        },
        None => Seq::empty(),
    }) + match skill_hit_effect {
        Some((file, bone)) => seq![HitEffect::OnEntity(bone, file)],
        None => Seq::empty(),
    });
    effects
}

} // verus!

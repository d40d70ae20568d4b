use vstd::prelude::*;

verus! {

/// The effect events that a frame of an animation carries.
#[derive(Copy, Clone, Debug)]
pub struct AnimationEffectFlags {
    pub weapon_attack_hit: bool,
    pub weapon_fire_bullet: bool,
    pub skill_fire_bullet: bool,
    pub skill_fire_dummy_bullet: bool,
    pub skill_action: bool,
    pub skill_hit: bool,
    pub skill_dummy_hit_0: bool,
    pub skill_dummy_hit_1: bool,
    pub skill_casting_0: bool,
    pub skill_casting_1: bool,
    pub skill_casting_2: bool,
    pub skill_casting_3: bool,
    pub move_vehicle_dummy_1: bool,
    pub move_vehicle_dummy_2: bool,
}

/// The classes of weapon that fire ammunition, and the others.
#[derive(Copy, Clone, Debug, PartialEq, Eq, Structural)]
pub enum WeaponClass {
    Bow,
    Crossbow,
    Gun,
    DualGuns,
    Launcher,
    Other,
}

/// The ammunition slots.
#[derive(Copy, Clone, Debug, PartialEq, Eq, Structural)]
pub enum AmmoIndex {
    Arrow,
    Bullet,
    Throw,
}

/// The ammunition a class of weapon fires.
pub fn ammo_index_for_class(class: WeaponClass) -> (r: Option<AmmoIndex>)
    ensures
        r == match class {
            WeaponClass::Bow | WeaponClass::Crossbow => Some(AmmoIndex::Arrow),
            WeaponClass::Gun | WeaponClass::DualGuns => Some(AmmoIndex::Bullet),
            WeaponClass::Launcher => Some(AmmoIndex::Throw),
            WeaponClass::Other => None,
        },
{
    match class {
        WeaponClass::Bow | WeaponClass::Crossbow => Some(AmmoIndex::Arrow),
        WeaponClass::Gun | WeaponClass::DualGuns => Some(AmmoIndex::Bullet),
        WeaponClass::Launcher => Some(AmmoIndex::Throw),
        WeaponClass::Other => None,
    }
}

/// The bullet effect that a weapon fires: that of its ammunition, where the weapon fires
/// ammunition, some is loaded and it has one; else the weapon's own.
pub fn weapon_bullet_effect_id(ammo_effect_id: Option<u16>, weapon_effect_id: Option<u16>) -> (r: Option<u16>)
    ensures
        r == match ammo_effect_id {
            Some(id) => Some(id),
            None => weapon_effect_id,
        },
{
    match ammo_effect_id {
        Some(id) => Some(id),
        None => weapon_effect_id,
    }
}

/// An effect of the effect database, as far as projectiles go: its id, and whether it
/// has a bullet effect.
#[derive(Copy, Clone, Debug)]
pub struct ProjectileEffect {
    pub id: u16,
    pub has_bullet_effect: bool,
}

/// The kinds of skill, as their action shows them.
#[derive(Copy, Clone, Debug, PartialEq, Eq, Structural)]
pub enum SkillType {
    BasicAction,
    CreateWindow,
    Immediate,
    SelfBound,
    SelfBoundDuration,
    SelfStateDuration,
    SelfDamage,
    FireBullet,
    TargetBound,
    TargetBoundDuration,
    TargetStateDuration,
    Resurrection,
    Other,
}

/// What the skill data says of the skill an entity uses, for its effects: its id and
/// kind, its bullet effect (as found in the effect database) and the bullet effect's file,
/// the dummy bone it is fired from, its hit effect file and dummy bone, its two extra hit
/// effect files, and its four casting effects (file and dummy bone).
#[derive(Copy, Clone, Debug)]
pub struct SkillEffects {
    pub id: u16,
    pub skill_type: SkillType,
    pub bullet_effect: Option<ProjectileEffect>,
    pub bullet_effect_file_id: Option<u16>,
    pub bullet_link_dummy_bone_id: usize,
    pub hit_effect_file_id: Option<u16>,
    pub hit_link_dummy_bone_id: Option<usize>,
    pub hit_dummy_effect_file_id_0: Option<u16>,
    pub hit_dummy_effect_file_id_1: Option<u16>,
    pub casting_effect_0: Option<(u16, Option<usize>)>,
    pub casting_effect_1: Option<(u16, Option<usize>)>,
    pub casting_effect_2: Option<(u16, Option<usize>)>,
    pub casting_effect_3: Option<(u16, Option<usize>)>,
}

/// What the effects of a frame read of the entity and the game data: the target of its
/// command; the skill it uses; whether it drives; the hit and bullet effects of its
/// vehicle's arms; the hit effect of its weapon (or of an NPC's hands); the bullet effect
/// of its weapon (see `weapon_bullet_effect_id`); the move effect file of its vehicle's
/// legs.
#[derive(Copy, Clone, Debug)]
pub struct AnimationEffectFacts {
    pub target: Option<u64>,
    pub skill: Option<SkillEffects>,
    pub driving: bool,
    pub vehicle_hit_effect_id: Option<u16>,
    pub vehicle_bullet_effect: Option<ProjectileEffect>,
    pub weapon_hit_effect_id: Option<u16>,
    pub weapon_bullet_effect: Option<ProjectileEffect>,
    pub vehicle_move_effect_file_id: Option<u16>,
}

/// What a frame's effects ask for: a hit on a target with a weapon's effect or with a
/// skill's damage; a projectile from a dummy bone of the entity (by the skill that fires
/// it) to a target, which damages it or not; an effect on an entity at a dummy bone.
#[derive(Copy, Clone, Debug, PartialEq, Eq, Structural)]
pub enum AnimationEffectAction {
    HitWithWeapon { target: u64, effect_id: Option<u16> },
    HitWithSkill { target: u64, skill_id: u16 },
    SpawnProjectile {
        effect_id: u16,
        source_dummy_bone_id: Option<usize>,
        source_skill_id: Option<u16>,
        target: u64,
        apply_damage: bool,
    },
    SpawnEffect { entity: u64, dummy_bone_id: Option<usize>, effect_file_id: u16 },
}

/// A projectile, where the effect has a bullet effect.
pub open spec fn spec_projectile(
    effect: Option<ProjectileEffect>,
    source_dummy_bone_id: Option<usize>,
    source_skill_id: Option<u16>,
    target: u64,
    apply_damage: bool,
) -> Seq<AnimationEffectAction> {
    match effect {
        Some(e) => if e.has_bullet_effect {
            seq![
                AnimationEffectAction::SpawnProjectile {
                    effect_id: e.id,
                    source_dummy_bone_id,
                    source_skill_id,
                    target,
                    apply_damage,
                },
            ]
        } else {
            Seq::empty()
        },
        None => Seq::empty(),
    }
}

/// An effect on an entity, where there is an effect file.
pub open spec fn spec_effect_on(entity: u64, dummy_bone_id: Option<usize>, file: Option<u16>) -> Seq<AnimationEffectAction> {
    match file {
        Some(f) => seq![AnimationEffectAction::SpawnEffect { entity, dummy_bone_id, effect_file_id: f }],
        None => Seq::empty(),
    }
}

/// The effects of a skill's action: a skill on the user shows its bullet effect and its
/// hit effect on the user; a skill that fires bullets fires one that damages; a skill on
/// a target fires one that does not.
pub open spec fn spec_skill_action(entity: u64, target: Option<u64>, skill: SkillEffects) -> Seq<AnimationEffectAction> {
    match skill.skill_type {
        SkillType::SelfBound | SkillType::SelfBoundDuration | SkillType::SelfStateDuration
        | SkillType::SelfDamage => (match skill.bullet_effect {
            Some(_) => spec_effect_on(
                entity,
                Some(skill.bullet_link_dummy_bone_id),
                skill.bullet_effect_file_id,
            ),
            None => Seq::empty(),
        }) + spec_effect_on(entity, skill.hit_link_dummy_bone_id, skill.hit_effect_file_id),
        SkillType::FireBullet => match target {
            Some(t) => spec_projectile(
                skill.bullet_effect,
                Some(skill.bullet_link_dummy_bone_id),
                Some(skill.id),
                t,
                true,
            ),
            None => Seq::empty(),
        },
        SkillType::TargetBound | SkillType::TargetBoundDuration | SkillType::TargetStateDuration
        | SkillType::Resurrection => match target {
            Some(t) => spec_projectile(
                skill.bullet_effect,
                Some(skill.bullet_link_dummy_bone_id),
                Some(skill.id),
                t,
                false,
            ),
            None => Seq::empty(),
        },
        _ => Seq::empty(),
    }
}

/// The target of a hit: the command's target, or the entity itself without one.
pub open spec fn spec_hit_target(entity: u64, facts: AnimationEffectFacts) -> u64 {
    match facts.target {
        Some(t) => t,
        None => entity,
    }
}

/// A weapon hit on the target, with the vehicle's hit effect when driving.
pub open spec fn spec_weapon_hit(flags: AnimationEffectFlags, facts: AnimationEffectFacts) -> Seq<AnimationEffectAction> {
    match facts.target {
        Some(t) => if flags.weapon_attack_hit {
            seq![
                AnimationEffectAction::HitWithWeapon {
                    target: t,
                    effect_id: if facts.driving {
                        facts.vehicle_hit_effect_id
                    } else {
                        facts.weapon_hit_effect_id
                    },
                },
            ]
        } else {
            Seq::empty()
        },
        None => Seq::empty(),
    }
}

/// A bullet fired at the target, from the vehicle's dummy bone 8 when driving.
pub open spec fn spec_weapon_bullet(flags: AnimationEffectFlags, facts: AnimationEffectFacts) -> Seq<AnimationEffectAction> {
    match facts.target {
        Some(t) => if flags.weapon_fire_bullet {
            if facts.driving {
                spec_projectile(facts.vehicle_bullet_effect, Some(8), None, t, true)
            } else {
                spec_projectile(facts.weapon_bullet_effect, None, None, t, true)
            }
        } else {
            Seq::empty()
        },
        None => Seq::empty(),
    }
}

/// A skill's bullet at the target; a dummy bullet does no damage.
pub open spec fn spec_skill_bullet(flags: AnimationEffectFlags, facts: AnimationEffectFacts) -> Seq<AnimationEffectAction> {
    match (facts.target, facts.skill) {
        (Some(t), Some(skill)) => if flags.skill_fire_bullet || flags.skill_fire_dummy_bullet {
            spec_projectile(
                skill.bullet_effect,
                Some(skill.bullet_link_dummy_bone_id),
                Some(skill.id),
                t,
                !flags.skill_fire_dummy_bullet,
            )
        } else {
            Seq::empty()
        },
        _ => Seq::empty(),
    }
}

/// A skill hit on the hit target: with the skill's damage where it has a hit effect, else
/// with the weapon's effect.
pub open spec fn spec_skill_hit(entity: u64, flags: AnimationEffectFlags, facts: AnimationEffectFacts) -> Seq<AnimationEffectAction> {
    match facts.skill {
        Some(skill) => if flags.skill_hit {
            if skill.hit_effect_file_id is Some {
                seq![
                    AnimationEffectAction::HitWithSkill {
                        target: spec_hit_target(entity, facts),
                        skill_id: skill.id,
                    },
                ]
            } else {
                seq![
                    AnimationEffectAction::HitWithWeapon {
                        target: spec_hit_target(entity, facts),
                        effect_id: facts.weapon_hit_effect_id,
                    },
                ]
            }
        } else {
            Seq::empty()
        },
        None => Seq::empty(),
    }
}

/// The skill's two extra hit effects on the hit target.
pub open spec fn spec_dummy_hits(entity: u64, flags: AnimationEffectFlags, facts: AnimationEffectFacts) -> Seq<AnimationEffectAction> {
    let (file_0, file_1) = match facts.skill {
        Some(s) => (s.hit_dummy_effect_file_id_0, s.hit_dummy_effect_file_id_1),
        None => (None, None),
    };
    (if flags.skill_dummy_hit_0 {
        spec_effect_on(spec_hit_target(entity, facts), None, file_0)
    } else {
        Seq::empty()
    }) + (if flags.skill_dummy_hit_1 {
        spec_effect_on(spec_hit_target(entity, facts), None, file_1)
    } else {
        Seq::empty()
    })
}

/// A casting effect of the skill on the entity, where the frame asks for it.
pub open spec fn spec_casting(entity: u64, on: bool, effect: Option<(u16, Option<usize>)>) -> Seq<AnimationEffectAction> {
    if on {
        match effect {
            Some((file, bone)) => seq![
                AnimationEffectAction::SpawnEffect { entity, dummy_bone_id: bone, effect_file_id: file },
            ],
            None => Seq::empty(),
        }
    } else {
        Seq::empty()
    }
}

/// The skill's four casting effects on the entity.
pub open spec fn spec_castings(entity: u64, flags: AnimationEffectFlags, facts: AnimationEffectFacts) -> Seq<AnimationEffectAction> {
    let (c0, c1, c2, c3) = match facts.skill {
        Some(s) => (s.casting_effect_0, s.casting_effect_1, s.casting_effect_2, s.casting_effect_3),
        None => (None, None, None, None),
    };
    spec_casting(entity, flags.skill_casting_0, c0) + spec_casting(entity, flags.skill_casting_1, c1)
        + spec_casting(entity, flags.skill_casting_2, c2) + spec_casting(
        entity,
        flags.skill_casting_3,
        c3,
    )
}

/// The vehicle's move effect at dummy bones 1 and 2.
pub open spec fn spec_vehicle_moves(entity: u64, flags: AnimationEffectFlags, facts: AnimationEffectFacts) -> Seq<AnimationEffectAction> {
    (if flags.move_vehicle_dummy_1 {
        spec_effect_on(entity, Some(1), facts.vehicle_move_effect_file_id)
    } else {
        Seq::empty()
    }) + (if flags.move_vehicle_dummy_2 {
        spec_effect_on(entity, Some(2), facts.vehicle_move_effect_file_id)
    } else {
        Seq::empty()
    })
}

/// The skill's action, where the frame asks for it.
pub open spec fn spec_skill_action_part(entity: u64, flags: AnimationEffectFlags, facts: AnimationEffectFacts) -> Seq<AnimationEffectAction> {
    match facts.skill {
        Some(skill) => if flags.skill_action {
            spec_skill_action(entity, facts.target, skill)
        } else {
            Seq::empty()
        },
        None => Seq::empty(),
    }
}

/// The effects of one frame of an entity's animation, in order: a weapon hit, a weapon's
/// bullet, a skill's bullet, the skill's action, a skill hit, the skill's extra hit
/// effects, its casting effects, and the vehicle's move effects.
pub open spec fn spec_animation_effects(
    entity: u64,
    flags: AnimationEffectFlags,
    facts: AnimationEffectFacts,
) -> Seq<AnimationEffectAction> {
    spec_weapon_hit(flags, facts) + spec_weapon_bullet(flags, facts) + spec_skill_bullet(flags, facts)
        + spec_skill_action_part(entity, flags, facts) + spec_skill_hit(entity, flags, facts)
        + spec_dummy_hits(entity, flags, facts) + spec_castings(entity, flags, facts)
        + spec_vehicle_moves(entity, flags, facts)
}

fn push_projectile(
    actions: &mut Vec<AnimationEffectAction>,
    effect: Option<ProjectileEffect>,
    source_dummy_bone_id: Option<usize>,
    source_skill_id: Option<u16>,
    target: u64,
    apply_damage: bool,
)
    ensures
        final(actions)@ == old(actions)@ + spec_projectile(
            effect,
            source_dummy_bone_id,
            source_skill_id,
            target,
            apply_damage,
        ),
{
    if let Some(e) = effect {
        if e.has_bullet_effect {
            actions.push(
                AnimationEffectAction::SpawnProjectile {
                    effect_id: e.id,
                    source_dummy_bone_id,
                    source_skill_id,
                    target,
                    apply_damage,
                },
            );
        }
    }
    assert(actions@ =~= old(actions)@ + spec_projectile(
        effect,
        source_dummy_bone_id,
        source_skill_id,
        target,
        apply_damage,
    ));
}

fn push_effect(actions: &mut Vec<AnimationEffectAction>, entity: u64, dummy_bone_id: Option<usize>, file: Option<u16>)
    ensures
        final(actions)@ == old(actions)@ + spec_effect_on(entity, dummy_bone_id, file),
{
    if let Some(f) = file {
        actions.push(AnimationEffectAction::SpawnEffect { entity, dummy_bone_id, effect_file_id: f });
    }
    assert(actions@ =~= old(actions)@ + spec_effect_on(entity, dummy_bone_id, file));
}

fn push_skill_action(actions: &mut Vec<AnimationEffectAction>, entity: u64, target: Option<u64>, skill: &SkillEffects)
    ensures
        final(actions)@ == old(actions)@ + spec_skill_action(entity, target, *skill),
{
    match skill.skill_type {
        SkillType::SelfBound | SkillType::SelfBoundDuration | SkillType::SelfStateDuration
        | SkillType::SelfDamage => {
            let ghost start = actions@;
            if skill.bullet_effect.is_some() {
                push_effect(
                    actions,
                    entity,
                    Some(skill.bullet_link_dummy_bone_id),
                    skill.bullet_effect_file_id,
                );
            }
            let ghost middle = actions@;
            push_effect(actions, entity, skill.hit_link_dummy_bone_id, skill.hit_effect_file_id);
            assert(actions@ =~= start + (middle.skip(start.len() as int) + actions@.skip(
                middle.len() as int,
            )));
        },
        SkillType::FireBullet => {
            if let Some(t) = target {
                push_projectile(
                    actions,
                    skill.bullet_effect,
                    Some(skill.bullet_link_dummy_bone_id),
                    Some(skill.id),
                    t,
                    true,
                );
            } else {
                assert(actions@ =~= old(actions)@ + Seq::empty());
            }
        },
        SkillType::TargetBound | SkillType::TargetBoundDuration | SkillType::TargetStateDuration
        | SkillType::Resurrection => {
            if let Some(t) = target {
                push_projectile(
                    actions,
                    skill.bullet_effect,
                    Some(skill.bullet_link_dummy_bone_id),
                    Some(skill.id),
                    t,
                    false,
                );
            } else {
                assert(actions@ =~= old(actions)@ + Seq::empty());
            }
        },
        _ => {
            assert(actions@ =~= old(actions)@ + Seq::empty());
        },
    }
}

fn push_casting(actions: &mut Vec<AnimationEffectAction>, entity: u64, on: bool, effect: Option<(u16, Option<usize>)>)
    ensures
        final(actions)@ == old(actions)@ + spec_casting(entity, on, effect),
{
    if on {
        if let Some((file, bone)) = effect {
            actions.push(
                AnimationEffectAction::SpawnEffect { entity, dummy_bone_id: bone, effect_file_id: file },
            );
        }
    }
    assert(actions@ =~= old(actions)@ + spec_casting(entity, on, effect));
}

fn push_weapon_parts(actions: &mut Vec<AnimationEffectAction>, flags: &AnimationEffectFlags, facts: &AnimationEffectFacts)
    ensures
        final(actions)@ == old(actions)@ + spec_weapon_hit(*flags, *facts) + spec_weapon_bullet(
            *flags,
            *facts,
        ) + spec_skill_bullet(*flags, *facts),
{
    if let Some(t) = facts.target {
        if flags.weapon_attack_hit {
            let effect_id = if facts.driving {
                facts.vehicle_hit_effect_id
            } else {
                facts.weapon_hit_effect_id
            };
            actions.push(AnimationEffectAction::HitWithWeapon { target: t, effect_id });
        }
        let ghost a1 = actions@;
        if flags.weapon_fire_bullet {
            if facts.driving {
                push_projectile(actions, facts.vehicle_bullet_effect, Some(8), None, t, true);
            } else {
                push_projectile(actions, facts.weapon_bullet_effect, None, None, t, true);
            }
        }
        let ghost a2 = actions@;
        if let Some(skill) = facts.skill {
            if flags.skill_fire_bullet || flags.skill_fire_dummy_bullet {
                push_projectile(
                    actions,
                    skill.bullet_effect,
                    Some(skill.bullet_link_dummy_bone_id),
                    Some(skill.id),
                    t,
                    !flags.skill_fire_dummy_bullet,
                );
            }
        }
        assert(actions@ =~= old(actions)@ + spec_weapon_hit(*flags, *facts) + spec_weapon_bullet(
            *flags,
            *facts,
        ) + spec_skill_bullet(*flags, *facts));
    } else {
        assert(actions@ =~= old(actions)@ + spec_weapon_hit(*flags, *facts) + spec_weapon_bullet(
            *flags,
            *facts,
        ) + spec_skill_bullet(*flags, *facts));
    }
}

fn push_skill_parts(actions: &mut Vec<AnimationEffectAction>, entity: u64, flags: &AnimationEffectFlags, facts: &AnimationEffectFacts)
    ensures
        final(actions)@ == old(actions)@ + spec_skill_action_part(entity, *flags, *facts) + spec_skill_hit(
            entity,
            *flags,
            *facts,
        ),
{
    let hit_target = match facts.target {
        Some(t) => t,
        None => entity,
    };
    match facts.skill {
        Some(skill) => {
            if flags.skill_action {
                push_skill_action(actions, entity, facts.target, &skill);
            }
            let ghost a1 = actions@;
            if flags.skill_hit {
                if skill.hit_effect_file_id.is_some() {
                    actions.push(
                        AnimationEffectAction::HitWithSkill { target: hit_target, skill_id: skill.id },
                    );
                } else {
                    actions.push(
                        AnimationEffectAction::HitWithWeapon {
                            target: hit_target,
                            effect_id: facts.weapon_hit_effect_id,
                        },
                    );
                }
            }
            assert(actions@ =~= old(actions)@ + spec_skill_action_part(entity, *flags, *facts)
                + spec_skill_hit(entity, *flags, *facts));
        },
        None => {
            assert(actions@ =~= old(actions)@ + spec_skill_action_part(entity, *flags, *facts)
                + spec_skill_hit(entity, *flags, *facts));
        },
    }
}

fn push_dummy_hits(actions: &mut Vec<AnimationEffectAction>, entity: u64, flags: &AnimationEffectFlags, facts: &AnimationEffectFacts)
    ensures
        final(actions)@ == old(actions)@ + spec_dummy_hits(entity, *flags, *facts),
{
    let hit_target = match facts.target {
        Some(t) => t,
        None => entity,
    };
    let (file_0, file_1) = match facts.skill {
        Some(s) => (s.hit_dummy_effect_file_id_0, s.hit_dummy_effect_file_id_1),
        None => (None, None),
    };
    let ghost a0 = actions@;
    if flags.skill_dummy_hit_0 {
        push_effect(actions, hit_target, None, file_0);
    }
    let ghost a1 = actions@;
    if flags.skill_dummy_hit_1 {
        push_effect(actions, hit_target, None, file_1);
    }
    assert(actions@ =~= a0 + a1.skip(a0.len() as int) + actions@.skip(a1.len() as int));
}

fn push_castings(actions: &mut Vec<AnimationEffectAction>, entity: u64, flags: &AnimationEffectFlags, facts: &AnimationEffectFacts)
    ensures
        final(actions)@ == old(actions)@ + spec_castings(entity, *flags, *facts),
{
    let (c0, c1, c2, c3) = match facts.skill {
        Some(s) => (s.casting_effect_0, s.casting_effect_1, s.casting_effect_2, s.casting_effect_3),
        None => (None, None, None, None),
    };
    push_casting(actions, entity, flags.skill_casting_0, c0);
    push_casting(actions, entity, flags.skill_casting_1, c1);
    push_casting(actions, entity, flags.skill_casting_2, c2);
    push_casting(actions, entity, flags.skill_casting_3, c3);
    assert(actions@ =~= old(actions)@ + spec_castings(entity, *flags, *facts));
}

fn push_vehicle_moves(actions: &mut Vec<AnimationEffectAction>, entity: u64, flags: &AnimationEffectFlags, facts: &AnimationEffectFacts)
    ensures
        final(actions)@ == old(actions)@ + spec_vehicle_moves(entity, *flags, *facts),
{
    let ghost a0 = actions@;
    if flags.move_vehicle_dummy_1 {
        push_effect(actions, entity, Some(1), facts.vehicle_move_effect_file_id);
    }
    let ghost a1 = actions@;
    if flags.move_vehicle_dummy_2 {
        push_effect(actions, entity, Some(2), facts.vehicle_move_effect_file_id);
    }
    assert(actions@ =~= a0 + a1.skip(a0.len() as int) + actions@.skip(a1.len() as int));
}

/// The effects of one frame of an entity's animation (see `spec_animation_effects`).
pub fn animation_effect_system(entity: u64, flags: &AnimationEffectFlags, facts: &AnimationEffectFacts) -> (actions: Vec<AnimationEffectAction>)
    ensures
        actions@ == spec_animation_effects(entity, *flags, *facts),
{
    let mut actions: Vec<AnimationEffectAction> = Vec::new();
    push_weapon_parts(&mut actions, flags, facts);
    let ghost a1 = actions@;
    push_skill_parts(&mut actions, entity, flags, facts);
    let ghost a2 = actions@;
    push_dummy_hits(&mut actions, entity, flags, facts);
    let ghost a3 = actions@;
    push_castings(&mut actions, entity, flags, facts);
    let ghost a4 = actions@;
    push_vehicle_moves(&mut actions, entity, flags, facts);
    assert(actions@ =~= spec_animation_effects(entity, *flags, *facts));
    actions
}

} // verus!

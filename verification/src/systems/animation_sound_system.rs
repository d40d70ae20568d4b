use vstd::prelude::*;

verus! {

/// The sound events that a frame of an animation carries.
#[derive(Copy, Clone, Debug)]
pub struct AnimationSoundFlags {
    pub footstep: bool,
    pub move_vehicle_dummy_1: bool,
    pub move_vehicle_dummy_2: bool,
    pub weapon_attack_start: bool,
    pub weapon_attack_hit: bool,
    pub weapon_fire_bullet: bool,
    pub skill_fire_bullet: bool,
    pub skill_hit: bool,
    pub skill_dummy_hit_0: bool,
    pub skill_dummy_hit_1: bool,
}

/// The volume category a sound plays in.
#[derive(Copy, Clone, Debug, PartialEq, Eq, Structural)]
pub enum SoundCategory {
    PlayerFootstep,
    OtherFootstep,
    PlayerCombat,
    OtherCombat,
}

/// The sound to play: one of the sound list by id, the step sound of a terrain tile in
/// a kind of zone, or the hit sound of a kind of weapon on a kind of material.
#[derive(Copy, Clone, Debug, PartialEq, Eq, Structural)]
pub enum SoundChoice {
    Sound { id: u16 },
    Step { tile_number: usize, zone_type: usize },
    Hit { weapon_hit_sound_type: usize, hit_material_type: usize },
}

/// Where a sound plays: at the entity, at its command's target, or at a joint of the
/// entity's skeleton.
#[derive(Copy, Clone, Debug, PartialEq, Eq, Structural)]
pub enum SoundPosition {
    Entity,
    Target,
    Joint { index: usize },
}

/// A sound to spawn.
#[derive(Copy, Clone, Debug, PartialEq, Eq, Structural)]
pub struct AnimationSoundAction {
    pub category: SoundCategory,
    pub sound: SoundChoice,
    pub position: SoundPosition,
}

/// What the entity stands on: nothing known (no zone, or its data not loaded yet), an
/// object above the terrain, or a terrain tile of a zone (with the zone's footstep type,
/// where the zone list gives one).
#[derive(Copy, Clone, Debug, PartialEq, Eq, Structural)]
pub enum Footing {
    Unknown,
    OnObject,
    Terrain { tile_number: usize, zone_footstep_type: Option<usize> },
}

/// The command's target, as the sounds read it: whether it is the player, and, for an
/// NPC, the hit material of its data where the data is found.
#[derive(Copy, Clone, Debug, PartialEq, Eq, Structural)]
pub struct SoundTarget {
    pub player: bool,
    pub npc: Option<Option<usize>>,
}

/// The sounds of the skill an entity uses: its bullet fire sound, its hit sound and its
/// two extra hit sounds.
#[derive(Copy, Clone, Debug, PartialEq, Eq, Structural)]
pub struct SkillSounds {
    pub bullet_fire_sound_id: Option<u16>,
    pub hit_sound_id: Option<u16>,
    pub hit_dummy_sound_id_0: Option<u16>,
    pub hit_dummy_sound_id_1: Option<u16>,
}

/// What the sounds of a frame read of the entity and the game data: whether it is the
/// player; its command's target; what it stands on; the offset of its dummy bones; the
/// move sound of its vehicle's legs; the attack start sound of its weapon's data (where
/// the data is found), of its NPC data (where found), and of weapon item 0; whether it
/// drives; the hit sound of its vehicle's arms; the hit sound index of the data of its
/// weapon (item 0 without one); the fire sound of its vehicle's and of its weapon's bullet
/// effect; the sounds of the skill it uses.
#[derive(Copy, Clone, Debug)]
pub struct AnimationSoundFacts {
    pub player: bool,
    pub target: Option<SoundTarget>,
    pub footing: Footing,
    pub dummy_bone_offset: usize,
    pub vehicle_move_sound_id: Option<u16>,
    pub weapon_attack_start_sound_id: Option<Option<u16>>,
    pub npc_attack_sound_id: Option<Option<u16>>,
    pub default_attack_start_sound_id: Option<u16>,
    pub driving: bool,
    pub vehicle_hit_sound_id: Option<u16>,
    pub weapon_hit_sound_index: Option<usize>,
    pub vehicle_bullet_fire_sound_id: Option<u16>,
    pub weapon_bullet_fire_sound_id: Option<u16>,
    pub skill: Option<SkillSounds>,
}

/// The footstep sound where the entity stands on no known terrain.
pub const DEFAULT_FOOTSTEP_SOUND_ID: u16 = 653;

/// A sound, where there is one.
pub open spec fn spec_sound(category: SoundCategory, sound: Option<SoundChoice>, position: SoundPosition) -> Seq<AnimationSoundAction> {
    match sound {
        Some(s) => seq![AnimationSoundAction { category, sound: s, position }],
        None => Seq::empty(),
    }
}

/// A sound of the sound list, where there is an id.
pub open spec fn spec_by_id(id: Option<u16>) -> Option<SoundChoice> {
    match id {
        Some(i) => Some(SoundChoice::Sound { id: i }),
        None => None,
    }
}

/// Footsteps of the player play as such; those of others apart.
pub open spec fn spec_footstep_category(player: bool) -> SoundCategory {
    if player {
        SoundCategory::PlayerFootstep
    } else {
        SoundCategory::OtherFootstep
    }
}

/// Combat that the player takes part in, as attacker or target, plays as such.
pub open spec fn spec_combat_category(player: bool, target: Option<SoundTarget>) -> SoundCategory {
    if player || match target {
        Some(t) => t.player,
        None => false,
    } {
        SoundCategory::PlayerCombat
    } else {
        SoundCategory::OtherCombat
    }
}

/// The step sound: that of the terrain tile, or the default one off the terrain.
pub open spec fn spec_footstep_sound(footing: Footing) -> SoundChoice {
    match footing {
        Footing::Terrain { tile_number, zone_footstep_type } => SoundChoice::Step {
            tile_number,
            zone_type: match zone_footstep_type {
                Some(t) => t,
                None => 0,
            },
        },
        _ => SoundChoice::Sound { id: DEFAULT_FOOTSTEP_SOUND_ID },
    }
}

/// A footstep at the entity.
pub open spec fn spec_footstep(flags: AnimationSoundFlags, facts: AnimationSoundFacts) -> Seq<AnimationSoundAction> {
    spec_sound_if(
        flags.footstep,
        spec_footstep_category(facts.player),
        Some(spec_footstep_sound(facts.footing)),
        SoundPosition::Entity,
    )
}

/// The vehicle's move sound at the joints after the dummy bone offset (one, two).
pub open spec fn spec_vehicle_moves(flags: AnimationSoundFlags, facts: AnimationSoundFacts) -> Seq<AnimationSoundAction> {
    let category = spec_footstep_category(facts.player);
    let sound = spec_by_id(facts.vehicle_move_sound_id);
    spec_sound_if(
        flags.move_vehicle_dummy_1,
        category,
        sound,
        SoundPosition::Joint { index: (facts.dummy_bone_offset + 1) as usize },
    ) + spec_sound_if(
        flags.move_vehicle_dummy_2,
        category,
        sound,
        SoundPosition::Joint { index: (facts.dummy_bone_offset + 2) as usize },
    )
}

/// The attack start sound: the weapon's, where its data is found; else the NPC's, where
/// its data is found; else that of weapon item 0.
pub open spec fn spec_attack_start_sound_id(facts: AnimationSoundFacts) -> Option<u16> {
    match facts.weapon_attack_start_sound_id {
        Some(id) => id,
        None => match facts.npc_attack_sound_id {
            Some(id) => id,
            None => facts.default_attack_start_sound_id,
        },
    }
}

/// The attack start sound at the entity.
pub open spec fn spec_attack_start(flags: AnimationSoundFlags, facts: AnimationSoundFacts) -> Seq<AnimationSoundAction> {
    spec_sound_if(
        flags.weapon_attack_start,
        spec_combat_category(facts.player, facts.target),
        spec_by_id(spec_attack_start_sound_id(facts)),
        SoundPosition::Entity,
    )
}

/// The material a hit on the target sounds of: an NPC's from its data (0 without data),
/// 1 for anyone else.
pub open spec fn spec_hit_material(target: SoundTarget) -> usize {
    match target.npc {
        Some(Some(m)) => m,
        Some(None) => 0,
        None => 1,
    }
}

/// The sound of a weapon hit: the vehicle's arms' when driving, else that of the weapon's
/// kind on the target's material.
pub open spec fn spec_hit_sound(facts: AnimationSoundFacts, target: SoundTarget) -> Option<SoundChoice> {
    if facts.driving {
        spec_by_id(facts.vehicle_hit_sound_id)
    } else {
        Some(
            SoundChoice::Hit {
                weapon_hit_sound_type: match facts.weapon_hit_sound_index {
                    Some(i) => i,
                    None => 0,
                },
                hit_material_type: spec_hit_material(target),
            },
        )
    }
}

/// A sound where the frame asks for it and there is one.
#[verifier::opaque]
pub open spec fn spec_sound_if(on: bool, category: SoundCategory, sound: Option<SoundChoice>, position: SoundPosition) -> Seq<AnimationSoundAction> {
    if on {
        spec_sound(category, sound, position)
    } else {
        Seq::empty()
    }
}

/// The sounds of the skill the entity uses: its bullet fire sound, its hit sound and its
/// two extra hit sounds.
pub open spec fn spec_skill_sound_ids(skill: Option<SkillSounds>) -> (Option<u16>, Option<u16>, Option<u16>, Option<u16>) {
    match skill {
        Some(s) => (s.bullet_fire_sound_id, s.hit_sound_id, s.hit_dummy_sound_id_0, s.hit_dummy_sound_id_1),
        None => (None, None, None, None),
    }
}

/// The bullet fire sound: the vehicle's when driving, else the weapon's.
pub open spec fn spec_fire_sound_id(facts: AnimationSoundFacts) -> Option<u16> {
    if facts.driving {
        facts.vehicle_bullet_fire_sound_id
    } else {
        facts.weapon_bullet_fire_sound_id
    }
}

/// The weapon's sounds at a target: the hit at the target, the bullet fire sound at the
/// entity.
pub open spec fn spec_weapon_target_sounds(flags: AnimationSoundFlags, facts: AnimationSoundFacts, target: SoundTarget) -> Seq<AnimationSoundAction> {
    let category = spec_combat_category(facts.player, facts.target);
    spec_sound_if(flags.weapon_attack_hit, category, spec_hit_sound(facts, target), SoundPosition::Target)
        + spec_sound_if(
        flags.weapon_fire_bullet,
        category,
        spec_by_id(spec_fire_sound_id(facts)),
        SoundPosition::Entity,
    )
}

/// The skill's sounds at a target: its bullet fire sound at the entity, its hit sound and
/// its two extra hit sounds at the target.
pub open spec fn spec_skill_target_sounds(flags: AnimationSoundFlags, facts: AnimationSoundFacts) -> Seq<AnimationSoundAction> {
    let category = spec_combat_category(facts.player, facts.target);
    let ids = spec_skill_sound_ids(facts.skill);
    spec_sound_if(flags.skill_fire_bullet, category, spec_by_id(ids.0), SoundPosition::Entity)
        + spec_sound_if(flags.skill_hit, category, spec_by_id(ids.1), SoundPosition::Target)
        + spec_sound_if(flags.skill_dummy_hit_0, category, spec_by_id(ids.2), SoundPosition::Target)
        + spec_sound_if(flags.skill_dummy_hit_1, category, spec_by_id(ids.3), SoundPosition::Target)
}

/// The sounds that need a target: the weapon's, then the skill's.
pub open spec fn spec_target_sounds(flags: AnimationSoundFlags, facts: AnimationSoundFacts) -> Seq<AnimationSoundAction> {
    match facts.target {
        Some(t) => spec_weapon_target_sounds(flags, facts, t) + spec_skill_target_sounds(flags, facts),
        None => Seq::empty(),
    }
}

/// The sounds of one frame of an entity's animation, in order: a footstep, the vehicle's
/// move sounds, the attack start, then those that need a target.
pub open spec fn spec_animation_sounds(flags: AnimationSoundFlags, facts: AnimationSoundFacts) -> Seq<AnimationSoundAction> {
    spec_footstep(flags, facts) + spec_vehicle_moves(flags, facts) + spec_attack_start(flags, facts)
        + spec_target_sounds(flags, facts)
}

fn by_id(id: Option<u16>) -> (r: Option<SoundChoice>)
    ensures
        r == spec_by_id(id),
{
    match id {
        Some(i) => Some(SoundChoice::Sound { id: i }),
        None => None,
    }
}

fn push_sound(
    actions: &mut Vec<AnimationSoundAction>,
    on: bool,
    category: SoundCategory,
    sound: Option<SoundChoice>,
    position: SoundPosition,
)
    ensures
        final(actions)@ == old(actions)@ + spec_sound_if(on, category, sound, position),
{
    reveal(spec_sound_if);
    if on {
        if let Some(s) = sound {
            actions.push(AnimationSoundAction { category, sound: s, position });
        }
    }
    assert(actions@ =~= old(actions)@ + spec_sound_if(on, category, sound, position));
}

fn combat_category(player: bool, target: Option<SoundTarget>) -> (r: SoundCategory)
    ensures
        r == spec_combat_category(player, target),
{
    let target_player = match target {
        Some(t) => t.player,
        None => false,
    };
    if player || target_player {
        SoundCategory::PlayerCombat
    } else {
        SoundCategory::OtherCombat
    }
}

fn push_target_sounds(actions: &mut Vec<AnimationSoundAction>, flags: &AnimationSoundFlags, facts: &AnimationSoundFacts)
    ensures
        final(actions)@ == old(actions)@ + spec_target_sounds(*flags, *facts),
{
    if let Some(t) = facts.target {
        let category = combat_category(facts.player, facts.target);
        let (bullet, hit, dummy_0, dummy_1) = match facts.skill {
            Some(s) => (s.bullet_fire_sound_id, s.hit_sound_id, s.hit_dummy_sound_id_0, s.hit_dummy_sound_id_1),
            None => (None, None, None, None),
        };
        let hit_sound = if facts.driving {
            by_id(facts.vehicle_hit_sound_id)
        } else {
            let material = match t.npc {
                Some(Some(m)) => m,
                Some(None) => 0,
                None => 1,
            };
            let weapon_type = match facts.weapon_hit_sound_index {
                Some(i) => i,
                None => 0,
            };
            Some(SoundChoice::Hit { weapon_hit_sound_type: weapon_type, hit_material_type: material })
        };
        let fire_id = if facts.driving {
            facts.vehicle_bullet_fire_sound_id
        } else {
            facts.weapon_bullet_fire_sound_id
        };
        let ghost a0 = actions@;
        push_sound(actions, flags.weapon_attack_hit, category, hit_sound, SoundPosition::Target);
        push_sound(actions, flags.weapon_fire_bullet, category, by_id(fire_id), SoundPosition::Entity);
        assert(actions@ =~= a0 + spec_weapon_target_sounds(*flags, *facts, t));
        let ghost a1 = actions@;
        push_sound(actions, flags.skill_fire_bullet, category, by_id(bullet), SoundPosition::Entity);
        let ghost b1 = actions@;
        push_sound(actions, flags.skill_hit, category, by_id(hit), SoundPosition::Target);
        let ghost b2 = actions@;
        assert(b2 =~= a1 + (b1.skip(a1.len() as int) + b2.skip(b1.len() as int)));
        push_sound(actions, flags.skill_dummy_hit_0, category, by_id(dummy_0), SoundPosition::Target);
        let ghost b3 = actions@;
        assert(b3 =~= a1 + (b2.skip(a1.len() as int) + b3.skip(b2.len() as int)));
        push_sound(actions, flags.skill_dummy_hit_1, category, by_id(dummy_1), SoundPosition::Target);
        assert(actions@ =~= a1 + (b3.skip(a1.len() as int) + actions@.skip(b3.len() as int)));
        assert(actions@ =~= a1 + spec_skill_target_sounds(*flags, *facts));
        assert(actions@ =~= a0 + (spec_weapon_target_sounds(*flags, *facts, t) + spec_skill_target_sounds(
            *flags,
            *facts,
        )));
    } else {
        assert(actions@ =~= old(actions)@ + spec_target_sounds(*flags, *facts));
    }
}

/// The sounds of one frame of an entity's animation (see `spec_animation_sounds`).
pub fn animation_sound_system(flags: &AnimationSoundFlags, facts: &AnimationSoundFacts) -> (actions: Vec<AnimationSoundAction>)
    requires
        facts.dummy_bone_offset + 2 <= usize::MAX,
    ensures
        actions@ == spec_animation_sounds(*flags, *facts),
{
    let mut actions: Vec<AnimationSoundAction> = Vec::new();
    let footstep_category = if facts.player {
        SoundCategory::PlayerFootstep
    } else {
        SoundCategory::OtherFootstep
    };
    let step_sound = match facts.footing {
        Footing::Terrain { tile_number, zone_footstep_type } => SoundChoice::Step {
            tile_number,
            zone_type: match zone_footstep_type {
                Some(t) => t,
                None => 0,
            },
        },
        _ => SoundChoice::Sound { id: DEFAULT_FOOTSTEP_SOUND_ID },
    };
    push_sound(&mut actions, flags.footstep, footstep_category, Some(step_sound), SoundPosition::Entity);
    let vehicle_sound = by_id(facts.vehicle_move_sound_id);
    push_sound(
        &mut actions,
        flags.move_vehicle_dummy_1,
        footstep_category,
        vehicle_sound,
        SoundPosition::Joint { index: facts.dummy_bone_offset + 1 },
    );
    push_sound(
        &mut actions,
        flags.move_vehicle_dummy_2,
        footstep_category,
        vehicle_sound,
        SoundPosition::Joint { index: facts.dummy_bone_offset + 2 },
    );
    let ghost a3 = actions@;
    let start_id = match facts.weapon_attack_start_sound_id {
        Some(id) => id,
        None => match facts.npc_attack_sound_id {
            Some(id) => id,
            None => facts.default_attack_start_sound_id,
        },
    };
    push_sound(
        &mut actions,
        flags.weapon_attack_start,
        combat_category(facts.player, facts.target),
        by_id(start_id),
        SoundPosition::Entity,
    );
    push_target_sounds(&mut actions, flags, facts);
    assert(a3 =~= spec_footstep(*flags, *facts) + spec_vehicle_moves(*flags, *facts));
    assert(actions@ =~= spec_animation_sounds(*flags, *facts));
    actions
}

} // verus!

use rose_offline_client::systems::animation_sound_system::{
    animation_sound_system, AnimationSoundAction, AnimationSoundFacts, AnimationSoundFlags,
    Footing, SkillSounds, SoundCategory, SoundChoice, SoundPosition, SoundTarget,
    DEFAULT_FOOTSTEP_SOUND_ID,
};

fn no_flags() -> AnimationSoundFlags {
    AnimationSoundFlags {
        footstep: false,
        move_vehicle_dummy_1: false,
        move_vehicle_dummy_2: false,
        weapon_attack_start: false,
        weapon_attack_hit: false,
        weapon_fire_bullet: false,
        skill_fire_bullet: false,
        skill_hit: false,
        skill_dummy_hit_0: false,
        skill_dummy_hit_1: false,
    }
}

fn facts() -> AnimationSoundFacts {
    AnimationSoundFacts {
        player: false,
        target: None,
        footing: Footing::Unknown,
        dummy_bone_offset: 10,
        vehicle_move_sound_id: None,
        weapon_attack_start_sound_id: None,
        npc_attack_sound_id: None,
        default_attack_start_sound_id: None,
        driving: false,
        vehicle_hit_sound_id: None,
        weapon_hit_sound_index: None,
        vehicle_bullet_fire_sound_id: None,
        weapon_bullet_fire_sound_id: None,
        skill: None,
    }
}

#[test]
fn frame_without_sound_events_is_silent() {
    assert!(animation_sound_system(&no_flags(), &facts()).is_empty());
}

#[test]
fn footstep_on_terrain_uses_the_tile_sound() {
    let mut flags = no_flags();
    flags.footstep = true;
    let mut f = facts();
    f.player = true;
    f.footing = Footing::Terrain { tile_number: 12, zone_footstep_type: Some(3) };
    assert_eq!(
        animation_sound_system(&flags, &f),
        vec![AnimationSoundAction {
            category: SoundCategory::PlayerFootstep,
            sound: SoundChoice::Step { tile_number: 12, zone_type: 3 },
            position: SoundPosition::Entity,
        }]
    );
}

#[test]
fn footstep_off_terrain_uses_the_default_sound() {
    let mut flags = no_flags();
    flags.footstep = true;
    let mut f = facts();
    f.footing = Footing::OnObject;
    assert_eq!(
        animation_sound_system(&flags, &f),
        vec![AnimationSoundAction {
            category: SoundCategory::OtherFootstep,
            sound: SoundChoice::Sound { id: DEFAULT_FOOTSTEP_SOUND_ID },
            position: SoundPosition::Entity,
        }]
    );
    assert_eq!(DEFAULT_FOOTSTEP_SOUND_ID, 653);
}

#[test]
fn zone_without_footstep_type_uses_type_zero() {
    let mut flags = no_flags();
    flags.footstep = true;
    let mut f = facts();
    f.footing = Footing::Terrain { tile_number: 4, zone_footstep_type: None };
    assert_eq!(
        animation_sound_system(&flags, &f)[0].sound,
        SoundChoice::Step { tile_number: 4, zone_type: 0 }
    );
}

#[test]
fn vehicle_moves_play_at_the_dummy_joints() {
    let mut flags = no_flags();
    flags.move_vehicle_dummy_1 = true;
    flags.move_vehicle_dummy_2 = true;
    let mut f = facts();
    f.vehicle_move_sound_id = Some(77);
    let sounds = animation_sound_system(&flags, &f);
    assert_eq!(sounds.len(), 2);
    assert_eq!(sounds[0].position, SoundPosition::Joint { index: 11 });
    assert_eq!(sounds[1].position, SoundPosition::Joint { index: 12 });
    assert_eq!(sounds[1].sound, SoundChoice::Sound { id: 77 });
}

#[test]
fn attack_start_prefers_weapon_then_npc_then_default() {
    let mut flags = no_flags();
    flags.weapon_attack_start = true;
    let mut f = facts();
    f.default_attack_start_sound_id = Some(1);
    f.npc_attack_sound_id = Some(Some(2));
    assert_eq!(animation_sound_system(&flags, &f)[0].sound, SoundChoice::Sound { id: 2 });
    f.weapon_attack_start_sound_id = Some(None);
    assert!(animation_sound_system(&flags, &f).is_empty());
    f.weapon_attack_start_sound_id = Some(Some(3));
    assert_eq!(animation_sound_system(&flags, &f)[0].sound, SoundChoice::Sound { id: 3 });
    f.weapon_attack_start_sound_id = None;
    f.npc_attack_sound_id = None;
    assert_eq!(animation_sound_system(&flags, &f)[0].sound, SoundChoice::Sound { id: 1 });
}

#[test]
fn hit_sound_uses_the_target_material() {
    let mut flags = no_flags();
    flags.weapon_attack_hit = true;
    let mut f = facts();
    f.weapon_hit_sound_index = Some(5);
    assert!(animation_sound_system(&flags, &f).is_empty());
    f.target = Some(SoundTarget { player: true, npc: None });
    assert_eq!(
        animation_sound_system(&flags, &f),
        vec![AnimationSoundAction {
            category: SoundCategory::PlayerCombat,
            sound: SoundChoice::Hit { weapon_hit_sound_type: 5, hit_material_type: 1 },
            position: SoundPosition::Target,
        }]
    );
    f.target = Some(SoundTarget { player: false, npc: Some(Some(4)) });
    let sounds = animation_sound_system(&flags, &f);
    assert_eq!(sounds[0].category, SoundCategory::OtherCombat);
    assert_eq!(sounds[0].sound, SoundChoice::Hit { weapon_hit_sound_type: 5, hit_material_type: 4 });
    f.target = Some(SoundTarget { player: false, npc: Some(None) });
    assert_eq!(
        animation_sound_system(&flags, &f)[0].sound,
        SoundChoice::Hit { weapon_hit_sound_type: 5, hit_material_type: 0 }
    );
}

#[test]
fn driving_uses_the_vehicle_sounds() {
    let mut flags = no_flags();
    flags.weapon_attack_hit = true;
    flags.weapon_fire_bullet = true;
    let mut f = facts();
    f.target = Some(SoundTarget { player: false, npc: None });
    f.driving = true;
    f.vehicle_hit_sound_id = Some(40);
    f.vehicle_bullet_fire_sound_id = Some(41);
    f.weapon_bullet_fire_sound_id = Some(42);
    let sounds = animation_sound_system(&flags, &f);
    assert_eq!(sounds.len(), 2);
    assert_eq!(sounds[0].sound, SoundChoice::Sound { id: 40 });
    assert_eq!(sounds[1].sound, SoundChoice::Sound { id: 41 });
    assert_eq!(sounds[1].position, SoundPosition::Entity);
}

#[test]
fn skill_sounds_need_a_target() {
    let mut flags = no_flags();
    flags.skill_fire_bullet = true;
    flags.skill_hit = true;
    flags.skill_dummy_hit_0 = true;
    flags.skill_dummy_hit_1 = true;
    let mut f = facts();
    f.player = true;
    f.skill = Some(SkillSounds {
        bullet_fire_sound_id: Some(1),
        hit_sound_id: Some(2),
        hit_dummy_sound_id_0: None,
        hit_dummy_sound_id_1: Some(4),
    });
    assert!(animation_sound_system(&flags, &f).is_empty());
    f.target = Some(SoundTarget { player: false, npc: None });
    let sounds = animation_sound_system(&flags, &f);
    assert_eq!(sounds.len(), 3);
    assert_eq!(sounds[0].position, SoundPosition::Entity);
    assert_eq!(sounds[1].sound, SoundChoice::Sound { id: 2 });
    assert_eq!(sounds[2].sound, SoundChoice::Sound { id: 4 });
    assert!(sounds.iter().all(|s| s.category == SoundCategory::PlayerCombat));
}

#[test]
fn every_sound_of_the_player_plays_as_player() {
    let flags = AnimationSoundFlags {
        footstep: true,
        move_vehicle_dummy_1: true,
        move_vehicle_dummy_2: true,
        weapon_attack_start: true,
        weapon_attack_hit: true,
        weapon_fire_bullet: true,
        skill_fire_bullet: true,
        skill_hit: true,
        skill_dummy_hit_0: true,
        skill_dummy_hit_1: true,
    };
    let mut f = facts();
    f.player = true;
    f.target = Some(SoundTarget { player: false, npc: Some(Some(2)) });
    f.vehicle_move_sound_id = Some(9);
    f.default_attack_start_sound_id = Some(8);
    f.weapon_bullet_fire_sound_id = Some(7);
    f.skill = Some(SkillSounds {
        bullet_fire_sound_id: Some(1),
        hit_sound_id: Some(2),
        hit_dummy_sound_id_0: Some(3),
        hit_dummy_sound_id_1: Some(4),
    });
    let sounds = animation_sound_system(&flags, &f);
    assert_eq!(sounds.len(), 10);
    assert!(sounds.iter().all(|s| s.category == SoundCategory::PlayerFootstep
        || s.category == SoundCategory::PlayerCombat));
}

use rose_offline_client::conversation::{
    color_index, message_layout_job, parse_i32, parse_message, DialogPlayer, TextColor, TextFormat,
};
use rose_offline_client::static_mesh_material::{
    alpha_mode, key, material_flags, specialize, MaterialAlphaMode, ALPHA_MODE_BLEND,
    ALPHA_MODE_MASK, ALPHA_MODE_OPAQUE, HAS_ALPHA_VALUE,
};
use rose_offline_client::systems::animation_effect_system::{
    ammo_index_for_class, animation_effect_system, weapon_bullet_effect_id, AmmoIndex,
    AnimationEffectAction, AnimationEffectFacts, AnimationEffectFlags, ProjectileEffect,
    SkillEffects, SkillType, WeaponClass,
};
use rose_offline_client::systems::animation_system::{advance_active_motion, emit_animation_events, MotionFrame};

fn player() -> DialogPlayer {
    DialogPlayer { name: "Hero".to_string(), level: 42 }
}

#[test]
fn templates_are_filled_in() {
    let p = player();
    assert_eq!(parse_message("Hello <NAME>, level <LEVEL>!", Some(&p)), "Hello Hero, level 42!");
    assert_eq!(parse_message("Hello <NAME>", None), "Hello <NAME>");
    assert_eq!(parse_message("A <OTHER> tag", Some(&p)), "A <OTHER> tag");
    // text after an unclosed template is dropped, with the text just before it
    assert_eq!(parse_message("Done. <NAME", Some(&p)), "");
    assert_eq!(parse_message("<NAME> then <oops", Some(&p)), "Hero");
    assert_eq!(parse_message("plain", Some(&p)), "plain");
}

fn default_format() -> TextFormat {
    TextFormat { italics: false, color: TextColor::Default }
}

#[test]
fn markup_becomes_runs() {
    let runs = message_layout_job("Hi {b}there{/b}{br}{FC=12}red{/fc} end");
    let texts: Vec<(&str, TextFormat)> = runs.iter().map(|r| (r.text.as_str(), r.format)).collect();
    let italic = TextFormat { italics: true, color: TextColor::Default };
    let red = TextFormat { italics: false, color: TextColor::Rgb(0xFF, 0, 0) };
    assert_eq!(texts, vec![
        ("Hi ", default_format()),
        ("there", italic),
        ("", default_format()),
        ("\n", default_format()),
        ("", default_format()),
        ("red", red),
        (" end", default_format()),
    ]);
}

#[test]
fn unknown_tags_drop_text_before_them() {
    let runs = message_layout_job("gone{x}kept");
    assert_eq!(runs.len(), 1);
    assert_eq!(runs[0].text, "kept");
    let runs = message_layout_job("a{b");
    assert_eq!(runs.len(), 1);
    assert_eq!(runs[0].text, "a{b");
    assert!(message_layout_job("").is_empty());
    // a color tag whose index does not parse is ignored
    let runs = message_layout_job("x{fc=zz}y");
    assert_eq!(runs.len(), 1);
    assert_eq!(runs[0].text, "y");
}

#[test]
fn color_indices() {
    assert_eq!(color_index(1), TextColor::Rgb(0x80, 0, 0));
    assert_eq!(color_index(18), TextColor::Rgb(0xFF, 0xFF, 0xFF));
    assert_eq!(color_index(0), TextColor::Default);
    assert_eq!(color_index(19), TextColor::Default);
    let chars = |s: &str| s.chars().collect::<Vec<char>>();
    assert_eq!(parse_i32(&chars("+12"), 0, 3), Some(12));
    assert_eq!(parse_i32(&chars("-2147483648"), 0, 11), Some(i32::MIN));
    assert_eq!(parse_i32(&chars("2147483648"), 0, 10), None);
    assert_eq!(parse_i32(&chars("-"), 0, 1), None);
    for text in ["0", "007", "-15", "x1", "", "99999999999"] {
        let c = chars(text);
        assert_eq!(parse_i32(&c, 0, c.len()), text.parse::<i32>().ok());
    }
}

#[test]
fn material_flags_and_keys() {
    assert_eq!(material_flags(MaterialAlphaMode::Opaque, false), ALPHA_MODE_OPAQUE);
    assert_eq!(material_flags(MaterialAlphaMode::Mask, true), ALPHA_MODE_MASK | HAS_ALPHA_VALUE);
    assert_eq!(material_flags(MaterialAlphaMode::Blend, false), ALPHA_MODE_BLEND);
    let k = key(true, MaterialAlphaMode::Mask, false, true, false);
    assert!(k.has_lightmap && k.is_alpha_mask && !k.two_sided && k.z_test_enabled && !k.z_write_enabled);
    assert_eq!(alpha_mode(MaterialAlphaMode::Opaque, false), MaterialAlphaMode::Blend);
    assert_eq!(alpha_mode(MaterialAlphaMode::Mask, true), MaterialAlphaMode::Mask);
    let s = specialize(k);
    assert_eq!(s.vertex_attribute_locations, vec![0, 1, 2]);
    assert!(s.lightmap_shader_def && !s.disable_culling && !s.depth_write_enabled && !s.depth_compare_always);
    let s = specialize(key(false, MaterialAlphaMode::Opaque, true, false, true));
    assert_eq!(s.vertex_attribute_locations, vec![0, 1]);
    assert!(s.disable_culling && s.depth_compare_always);
}

#[test]
fn motion_frames() {
    assert_eq!(advance_active_motion(25, 10, None), (Some(MotionFrame { current_frame_index: 5, next_frame_index: 6, loop_count: 2 }), 2));
    assert_eq!(advance_active_motion(19, 10, Some(2)), (Some(MotionFrame { current_frame_index: 9, next_frame_index: 9, loop_count: 1 }), 1));
    assert_eq!(advance_active_motion(9, 10, Some(2)), (Some(MotionFrame { current_frame_index: 9, next_frame_index: 0, loop_count: 0 }), 0));
    assert_eq!(advance_active_motion(20, 10, Some(2)), (None, 2));
}

#[test]
fn frame_events_between_frames() {
    let frame_events = vec![Some(1), None, Some(2), Some(5), Some(0)];
    let flags = vec![0u32, 4, 8];
    assert_eq!(emit_animation_events(&frame_events, &flags, 0, 3), vec![4, 8]);
    // going round the end of the motion
    assert_eq!(emit_animation_events(&frame_events, &flags, 3, 1), vec![4]);
    assert!(emit_animation_events(&frame_events, &flags, 2, 2).is_empty());
}

fn no_flags() -> AnimationEffectFlags {
    AnimationEffectFlags {
        weapon_attack_hit: false,
        weapon_fire_bullet: false,
        skill_fire_bullet: false,
        skill_fire_dummy_bullet: false,
        skill_action: false,
        skill_hit: false,
        skill_dummy_hit_0: false,
        skill_dummy_hit_1: false,
        skill_casting_0: false,
        skill_casting_1: false,
        skill_casting_2: false,
        skill_casting_3: false,
        move_vehicle_dummy_1: false,
        move_vehicle_dummy_2: false,
    }
}

fn skill() -> SkillEffects {
    SkillEffects {
        id: 30,
        skill_type: SkillType::TargetBound,
        bullet_effect: Some(ProjectileEffect { id: 7, has_bullet_effect: true }),
        bullet_effect_file_id: Some(70),
        bullet_link_dummy_bone_id: 3,
        hit_effect_file_id: None,
        hit_link_dummy_bone_id: None,
        hit_dummy_effect_file_id_0: Some(90),
        hit_dummy_effect_file_id_1: None,
        casting_effect_0: Some((60, Some(2))),
        casting_effect_1: None,
        casting_effect_2: None,
        casting_effect_3: None,
    }
}

#[test]
fn animation_effects() {
    let facts = AnimationEffectFacts {
        target: Some(500),
        skill: Some(skill()),
        driving: false,
        vehicle_hit_effect_id: Some(1),
        vehicle_bullet_effect: None,
        weapon_hit_effect_id: Some(2),
        weapon_bullet_effect: Some(ProjectileEffect { id: 8, has_bullet_effect: true }),
        vehicle_move_effect_file_id: Some(80),
    };
    let mut flags = no_flags();
    flags.weapon_attack_hit = true;
    flags.weapon_fire_bullet = true;
    flags.skill_action = true;
    flags.skill_hit = true;
    flags.skill_dummy_hit_0 = true;
    flags.skill_casting_0 = true;
    let actions = animation_effect_system(9, &flags, &facts);
    assert_eq!(actions, vec![
        AnimationEffectAction::HitWithWeapon { target: 500, effect_id: Some(2) },
        AnimationEffectAction::SpawnProjectile { effect_id: 8, source_dummy_bone_id: None, source_skill_id: None, target: 500, apply_damage: true },
        AnimationEffectAction::SpawnProjectile { effect_id: 7, source_dummy_bone_id: Some(3), source_skill_id: Some(30), target: 500, apply_damage: false },
        AnimationEffectAction::HitWithWeapon { target: 500, effect_id: Some(2) },
        AnimationEffectAction::SpawnEffect { entity: 500, dummy_bone_id: None, effect_file_id: 90 },
        AnimationEffectAction::SpawnEffect { entity: 9, dummy_bone_id: Some(2), effect_file_id: 60 },
    ]);
    // without a target, a skill hit lands on the entity itself
    let mut alone = facts;
    alone.target = None;
    let mut flags = no_flags();
    flags.skill_hit = true;
    flags.weapon_attack_hit = true;
    assert_eq!(animation_effect_system(9, &flags, &alone), vec![AnimationEffectAction::HitWithWeapon { target: 9, effect_id: Some(2) }]);
    // driving fires from the vehicle
    let mut driving = facts;
    driving.driving = true;
    driving.vehicle_bullet_effect = Some(ProjectileEffect { id: 11, has_bullet_effect: true });
    let mut flags = no_flags();
    flags.weapon_fire_bullet = true;
    flags.move_vehicle_dummy_2 = true;
    assert_eq!(animation_effect_system(9, &flags, &driving), vec![
        AnimationEffectAction::SpawnProjectile { effect_id: 11, source_dummy_bone_id: Some(8), source_skill_id: None, target: 500, apply_damage: true },
        AnimationEffectAction::SpawnEffect { entity: 9, dummy_bone_id: Some(2), effect_file_id: 80 },
    ]);
}

#[test]
fn weapon_ammunition() {
    assert_eq!(ammo_index_for_class(WeaponClass::Crossbow), Some(AmmoIndex::Arrow));
    assert_eq!(ammo_index_for_class(WeaponClass::DualGuns), Some(AmmoIndex::Bullet));
    assert_eq!(ammo_index_for_class(WeaponClass::Launcher), Some(AmmoIndex::Throw));
    assert_eq!(ammo_index_for_class(WeaponClass::Other), None);
    assert_eq!(weapon_bullet_effect_id(Some(3), Some(4)), Some(3));
    assert_eq!(weapon_bullet_effect_id(None, Some(4)), Some(4));
}

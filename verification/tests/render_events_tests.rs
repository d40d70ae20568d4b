use rose_offline_client::systems::character_model_system::{character_model_plan, CharacterModelPlan};
use rose_offline_client::systems::move_destination_effect_system::{
    MoveDestinationEffectSystemState, MOVE_DESTINATION_EFFECT_FILE_ID,
};
use rose_offline_client::systems::client_entity_event_system::{
    client_entity_event, ClientEntityEvent, EntityEffect,
};
use rose_offline_client::systems::damage_digit_render_system::{damage_digit_quads, DigitQuad};
use rose_offline_client::systems::effect_system::{effect_finished, EffectPart, ParticleState};
use rose_offline_client::systems::game_ui_system::ChatboxEvent;

#[test]
fn a_miss_is_four_quads() {
    let quads = damage_digit_quads(0);
    assert_eq!(quads.len(), 4);
    assert_eq!(quads[0], DigitQuad { offset_halves: -3, piece: 0, pieces: 4 });
    assert_eq!(quads[3], DigitQuad { offset_halves: 3, piece: 3, pieces: 4 });
}

#[test]
fn damage_digits_are_centred() {
    assert_eq!(
        damage_digit_quads(507),
        vec![
            DigitQuad { offset_halves: 2, piece: 7, pieces: 10 },
            DigitQuad { offset_halves: 0, piece: 0, pieces: 10 },
            DigitQuad { offset_halves: -2, piece: 5, pieces: 10 },
        ]
    );
    assert_eq!(damage_digit_quads(9), vec![DigitQuad { offset_halves: 0, piece: 9, pieces: 10 }]);
    let big = damage_digit_quads(u32::MAX);
    assert_eq!(big.len(), 10);
    assert_eq!(big[0], DigitQuad { offset_halves: 9, piece: 5, pieces: 10 });
    assert_eq!(big[9], DigitQuad { offset_halves: -9, piece: 4, pieces: 10 });
}

#[test]
fn dying_npcs_show_their_effect() {
    assert_eq!(
        client_entity_event(ClientEntityEvent::Die { entity: 3, npc_die_effect_file_id: Some(12) }).1,
        Some(EntityEffect::File { entity: 3, effect_file_id: 12 })
    );
    let (chat, effect) = client_entity_event(ClientEntityEvent::Die { entity: 3, npc_die_effect_file_id: None });
    assert!(chat.is_none() && effect.is_none());
}

#[test]
fn the_player_is_congratulated_on_a_level() {
    let (chat, effect) =
        client_entity_event(ClientEntityEvent::LevelUp { entity: 1, level: Some(42), is_player: true });
    assert_eq!(effect, Some(EntityEffect::LevelUp { entity: 1 }));
    match chat {
        Some(ChatboxEvent::System(text)) => assert_eq!(text, "Congratulations! You are now level 42!"),
        other => panic!("unexpected {:?}", other),
    }
    let (chat, effect) =
        client_entity_event(ClientEntityEvent::LevelUp { entity: 2, level: Some(42), is_player: false });
    assert!(chat.is_none());
    assert_eq!(effect, Some(EntityEffect::LevelUp { entity: 2 }));
    let (chat, _) = client_entity_event(ClientEntityEvent::LevelUp { entity: 1, level: None, is_player: true });
    assert!(chat.is_none());
}

#[test]
fn effects_end_when_every_part_is_done() {
    let done_mesh = EffectPart { particles: None, mesh: Some(None) };
    let running_mesh = EffectPart { particles: None, mesh: Some(Some(false)) };
    let finished_particles = EffectPart {
        particles: Some(ParticleState { finished: true, has_particles: false, animation_completed: Some(false) }),
        mesh: None,
    };
    let running_particles = EffectPart {
        particles: Some(ParticleState { finished: true, has_particles: true, animation_completed: Some(false) }),
        mesh: None,
    };
    assert!(effect_finished(false, &vec![done_mesh, finished_particles]));
    assert!(!effect_finished(true, &vec![done_mesh]));
    assert!(!effect_finished(false, &vec![done_mesh, running_mesh]));
    assert!(!effect_finished(false, &vec![running_particles]));
    assert!(!effect_finished(false, &vec![]));
    assert!(!effect_finished(false, &vec![EffectPart { particles: None, mesh: None }]));
}

#[test]
fn character_model_plans() {
    assert_eq!(
        character_model_plan(true, true, true),
        CharacterModelPlan { update_equipment: true, despawn_model: false, remove_model_components: false, spawn_model: false }
    );
    assert_eq!(
        character_model_plan(true, false, true),
        CharacterModelPlan { update_equipment: false, despawn_model: true, remove_model_components: true, spawn_model: false }
    );
    assert_eq!(
        character_model_plan(true, false, false),
        CharacterModelPlan { update_equipment: false, despawn_model: true, remove_model_components: false, spawn_model: true }
    );
    assert_eq!(
        character_model_plan(false, false, false),
        CharacterModelPlan { update_equipment: false, despawn_model: false, remove_model_components: false, spawn_model: true }
    );
    assert_eq!(
        character_model_plan(false, true, true),
        CharacterModelPlan { update_equipment: false, despawn_model: false, remove_model_components: false, spawn_model: false }
    );
}

#[test]
fn only_one_destination_effect_shows() {
    let mut state = MoveDestinationEffectSystemState::default();
    assert_eq!(state.show(Some(10)), None);
    assert_eq!(state.show(Some(11)), Some(10));
    assert_eq!(state.show(None), Some(11));
    assert_eq!(state.show(Some(12)), None);
    assert_eq!(state.clear(), Some(12));
    assert_eq!(state.clear(), None);
    assert_eq!(MOVE_DESTINATION_EFFECT_FILE_ID, 296);
}

#[test]
fn points_are_limited_to_the_maximum() {
    assert_eq!(rose_offline_client::systems::ability_values_system::limit_points(120, 100), 100);
    assert_eq!(rose_offline_client::systems::ability_values_system::limit_points(80, 100), 80);
    assert_eq!(rose_offline_client::systems::ability_values_system::limit_points(-5, -10), -10);
}

#[test]
fn damage_digits_read_back() {
    for damage in [1u32, 10, 99, 1234, 40007, u32::MAX] {
        let quads = damage_digit_quads(damage);
        let mut value: u64 = 0;
        for quad in quads.iter().rev() {
            value = value * 10 + quad.piece as u64;
        }
        assert_eq!(value, damage as u64);
    }
}

#[test]
fn animation_frames_emit_events_and_end() {
    let events = vec![None, Some(0u16), None, Some(1)];
    let flags = vec![5u32, 9];
    // Two frames in: the events of frames 0 and 1.
    let r = rose_offline_client::systems::animation_system::animation_frame(None, 2, Some(1), &events, &flags);
    assert_eq!(r.frame.unwrap().current_frame_index, 2);
    assert_eq!(r.events, vec![5]);
    assert_eq!(r.previous_frame, Some(2));
    // Past the one allowed loop: the remaining events through the last frame, and the end.
    let r = rose_offline_client::systems::animation_system::animation_frame(Some(2), 5, Some(1), &events, &flags);
    assert!(r.frame.is_none());
    assert_eq!(r.loop_count, 1);
    assert_eq!(r.events, vec![9]);
    assert_eq!(r.previous_frame, Some(2));
    let r = rose_offline_client::systems::animation_system::animation_frame(Some(3), 4, Some(1), &events, &flags);
    assert_eq!(r.events, vec![9]);
}

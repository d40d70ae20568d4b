use vstd::prelude::*;

use crate::party::{spec_member_index, spec_remove_member, spec_unique_members, PartyMemberView};
use crate::systems::animation_sound_system::{
    spec_animation_sounds, spec_attack_start, spec_attack_start_sound_id, spec_by_id,
    spec_fire_sound_id, spec_footstep_sound, spec_hit_sound, spec_skill_sound_ids, spec_sound_if,
    spec_target_sounds, spec_vehicle_moves, AnimationSoundAction, AnimationSoundFacts,
    AnimationSoundFlags, SoundCategory, SoundChoice, SoundPosition,
};
use crate::systems::animation_system::spec_motion_frame;
use crate::systems::game_mouse_input_system::{spec_mouse_input, MouseCommand, MouseHit, TeamStanding};
use crate::systems::background_music_system::{
    spec_background_music_step, BackgroundMusicState, BackgroundMusicView, ZoneTimeState,
};
use crate::systems::command_system::{spec_command_system, Command, CommandAction, CommandFacts, CommandKind};
use crate::systems::command_system::{
    spec_model_motion, spec_move_animation, CharacterMotionAction, ModelMotions, MotionChoice, MoveMode,
    NpcMotionAction,
};
use crate::systems::hit_event_system::{spec_dealt_damage, spec_kept_damage, PendingDamage};
use crate::systems::name_tag_visibility_system::{
    spec_name_tag_visibility_step, NameTagConfig, NameTagVisibility, NameTagWorld, SelectedTarget,
};

verus! {

/// Repeating a step of the background music with the same zone, tracks and time of day
/// asks for nothing more: the music has settled.
pub proof fn law_background_music_settles(
    music: BackgroundMusicView,
    zone: Option<u16>,
    zone_tracks: Option<(Option<Seq<char>>, Option<Seq<char>>)>,
    time: ZoneTimeState,
)
    ensures
        spec_background_music_step(
            spec_background_music_step(music, zone, zone_tracks, time).0,
            zone,
            zone_tracks,
            time,
        ).1.len() == 0,
{
}

/// In a zone whose day and night tracks differ, a step of the background music leaves the
/// track of the time of day playing.
pub proof fn law_background_music_follows_time_of_day(
    music: BackgroundMusicView,
    zone: u16,
    zone_tracks: Option<(Option<Seq<char>>, Option<Seq<char>>)>,
    time: ZoneTimeState,
)
    requires
        spec_background_music_step(music, Some(zone), zone_tracks, time).0.day
            != spec_background_music_step(music, Some(zone), zone_tracks, time).0.night,
    ensures
        spec_background_music_step(music, Some(zone), zone_tracks, time).0.state == if time
            == ZoneTimeState::Morning || time == ZoneTimeState::Day {
            BackgroundMusicState::PlayingDay
        } else {
            BackgroundMusicState::PlayingNight
        },
{
}

/// A dead entity does nothing more: its command stays dying, its next command stays, and
/// nothing is asked for but the despawning of an NPC model (never of a character): no
/// destination, no target, no motion.
pub proof fn law_dead_entity_stays_dead<P>(
    next: Option<Command<P>>,
    animation_complete: Seq<CommandKind>,
    manual_complete: Seq<CommandKind>,
    facts: CommandFacts<P>,
)
    ensures
        spec_command_system(Command::Die, next, animation_complete, manual_complete, facts) matches Some(
            (c, n, actions),
        ) && c is Die && n == next && (actions.len() == 0 || (facts.model.npc is Some && actions
            == seq![CommandAction::<P>::DespawnRecursive])),
        facts.model.npc is None ==> (spec_command_system(
            Command::Die,
            next,
            animation_complete,
            manual_complete,
            facts,
        ) matches Some((_, _, actions)) && actions.len() == 0),
{
}

/// Dying is never held up: an entity that is to die dies in the next step, whatever motion
/// plays, unless it is casting a skill (whose stages go first) or dead already.
pub proof fn law_dying_is_not_held_up<P>(
    command: Command<P>,
    animation_complete: Seq<CommandKind>,
    manual_complete: Seq<CommandKind>,
    facts: CommandFacts<P>,
)
    requires
        !(command is CastSkill),
        !(command is Die),
    ensures
        spec_command_system(command, Some(Command::Die), animation_complete, manual_complete, facts) matches Some(
            (c, n, _),
        ) && c is Die && n is None,
{
}

/// With no two members of the same character id, a kicked or leaving member is gone from
/// the party, and only it.
pub proof fn law_removed_member_is_gone(members: Seq<PartyMemberView>, character_id: u32)
    requires
        spec_unique_members(members),
    ensures
        forall|i: int|
            0 <= i < spec_remove_member(members, character_id).len() ==> #[trigger] spec_remove_member(
                members,
                character_id,
            )[i].character_id != character_id,
        spec_remove_member(members, character_id).len() == if spec_member_index(
            members,
            character_id,
        ) is Some {
            members.len() - 1
        } else {
            members.len() as int
        },
{
    crate::party::lemma_member_index(members, character_id);
    match spec_member_index(members, character_id) {
        Some(k) => {
            let rest = members.remove(k);
            assert forall|i: int| 0 <= i < rest.len() implies #[trigger] rest[i].character_id
                != character_id by {
                if i < k {
                    assert(rest[i] == members[i]);
                } else {
                    assert(rest[i] == members[i + 1]);
                    assert(members[i + 1].character_id != members[k].character_id);
                }
            }
        },
        None => {},
    }
}

/// After a step of showing and hiding name tags, neither the hovered nor the selected
/// entity is a dead NPC.
pub proof fn law_dead_npcs_are_not_targeted(
    state: NameTagVisibility,
    target: SelectedTarget,
    player_entity: Option<u64>,
    party: Option<Seq<PartyMemberView>>,
    world: NameTagWorld,
    config: NameTagConfig,
)
    ensures
        ({
            let (_, t, _) = spec_name_tag_visibility_step(
                state,
                target,
                player_entity,
                party,
                world,
                config,
            );
            &&& t.hover matches Some(e) ==> !world.dead_npcs@.contains(e)
            &&& t.selected matches Some(e) ==> !world.dead_npcs@.contains(e)
        }),
{
}

/// The total amount of a list of pending damages.
pub open spec fn spec_total_amount(list: Seq<PendingDamage>) -> int
    decreases list.len(),
{
    if list.len() == 0 {
        0
    } else {
        spec_total_amount(list.drop_last()) + list.last().damage.amount
    }
}

/// A hit parts the pending damages: the amount it deals and the amount that stays pending
/// add up to the amount pending before.
pub proof fn law_pending_damage_is_conserved(
    list: Seq<PendingDamage>,
    entities: Seq<Option<u64>>,
    attacker: u64,
    skill_id: Option<u16>,
)
    ensures
        spec_dealt_damage(list, entities, attacker, skill_id).0 + spec_total_amount(
            spec_kept_damage(list, entities, attacker, skill_id),
        ) == spec_total_amount(list),
    decreases list.len(),
{
    if list.len() > 0 {
        law_pending_damage_is_conserved(list.drop_last(), entities, attacker, skill_id);
        let kept = spec_kept_damage(list.drop_last(), entities, attacker, skill_id);
        let last = list.last();
        let extended = kept.push(last);
        assert(extended.drop_last() =~= kept);
        assert(kept + seq![last] =~= extended);
        assert(kept + Seq::<PendingDamage>::empty() =~= kept);
    }
}

/// The frames a motion shows and blends towards are frames of the motion.
pub proof fn law_motion_frames_in_range(frame_count: nat, num_frames: nat, repeat_limit: Option<usize>)
    requires
        0 < num_frames <= usize::MAX,
        frame_count <= usize::MAX,
    ensures
        spec_motion_frame(frame_count as int, num_frames as int, repeat_limit) matches Some(f) ==> (
        f.current_frame_index < num_frames && f.next_frame_index < num_frames),
{
}

/// Whether each sound plays in one of the player's categories.
pub open spec fn spec_all_player_sounds(sounds: Seq<AnimationSoundAction>) -> bool {
    forall|i: int|
        0 <= i < sounds.len() ==> (#[trigger] sounds[i]).category == SoundCategory::PlayerFootstep
            || sounds[i].category == SoundCategory::PlayerCombat
}

proof fn lemma_player_sound_if(on: bool, category: SoundCategory, sound: Option<SoundChoice>, position: SoundPosition)
    requires
        category == SoundCategory::PlayerFootstep || category == SoundCategory::PlayerCombat,
    ensures
        spec_all_player_sounds(spec_sound_if(on, category, sound, position)),
{
    reveal(spec_sound_if);
}

proof fn lemma_all_player_concat(a: Seq<AnimationSoundAction>, b: Seq<AnimationSoundAction>)
    requires
        spec_all_player_sounds(a),
        spec_all_player_sounds(b),
    ensures
        spec_all_player_sounds(a + b),
{
    assert forall|i: int| 0 <= i < (a + b).len() implies (#[trigger] (a + b)[i]).category
        == SoundCategory::PlayerFootstep || (a + b)[i].category == SoundCategory::PlayerCombat by {
        if i < a.len() {
            assert((a + b)[i] == a[i]);
        } else {
            assert((a + b)[i] == b[i - a.len()]);
        }
    }
}

/// Every sound of a frame of the player's own character plays in one of the player's
/// categories (player footsteps or player combat), whatever the frame asks for.
pub proof fn law_player_sounds_play_as_player(flags: AnimationSoundFlags, facts: AnimationSoundFacts)
    requires
        facts.player,
    ensures
        spec_all_player_sounds(spec_animation_sounds(flags, facts)),
{
    let step = spec_footstep_sound(facts.footing);
    let vehicle = spec_by_id(facts.vehicle_move_sound_id);
    let foot = SoundCategory::PlayerFootstep;
    let combat = SoundCategory::PlayerCombat;
    lemma_player_sound_if(flags.footstep, foot, Some(step), SoundPosition::Entity);
    lemma_player_sound_if(
        flags.move_vehicle_dummy_1,
        foot,
        vehicle,
        SoundPosition::Joint { index: (facts.dummy_bone_offset + 1) as usize },
    );
    lemma_player_sound_if(
        flags.move_vehicle_dummy_2,
        foot,
        vehicle,
        SoundPosition::Joint { index: (facts.dummy_bone_offset + 2) as usize },
    );
    let vehicles = spec_vehicle_moves(flags, facts);
    lemma_all_player_concat(
        spec_sound_if(
            flags.move_vehicle_dummy_1,
            foot,
            vehicle,
            SoundPosition::Joint { index: (facts.dummy_bone_offset + 1) as usize },
        ),
        spec_sound_if(
            flags.move_vehicle_dummy_2,
            foot,
            vehicle,
            SoundPosition::Joint { index: (facts.dummy_bone_offset + 2) as usize },
        ),
    );
    let start = spec_attack_start(flags, facts);
    lemma_player_sound_if(
        flags.weapon_attack_start,
        combat,
        spec_by_id(
            spec_attack_start_sound_id(facts),
        ),
        SoundPosition::Entity,
    );
    let targets = spec_target_sounds(flags, facts);
    assert(spec_all_player_sounds(targets)) by {
        match facts.target {
            Some(t) => {
                let ids = spec_skill_sound_ids(facts.skill);
                let w1 = spec_sound_if(
                    flags.weapon_attack_hit,
                    combat,
                    spec_hit_sound(facts, t),
                    SoundPosition::Target,
                );
                let w2 = spec_sound_if(
                    flags.weapon_fire_bullet,
                    combat,
                    spec_by_id(spec_fire_sound_id(facts)),
                    SoundPosition::Entity,
                );
                let s1 = spec_sound_if(flags.skill_fire_bullet, combat, spec_by_id(ids.0), SoundPosition::Entity);
                let s2 = spec_sound_if(flags.skill_hit, combat, spec_by_id(ids.1), SoundPosition::Target);
                let s3 = spec_sound_if(flags.skill_dummy_hit_0, combat, spec_by_id(ids.2), SoundPosition::Target);
                let s4 = spec_sound_if(flags.skill_dummy_hit_1, combat, spec_by_id(ids.3), SoundPosition::Target);
                lemma_player_sound_if(
                    flags.weapon_attack_hit,
                    combat,
                    spec_hit_sound(facts, t),
                    SoundPosition::Target,
                );
                lemma_player_sound_if(
                    flags.weapon_fire_bullet,
                    combat,
                    spec_by_id(spec_fire_sound_id(facts)),
                    SoundPosition::Entity,
                );
                lemma_player_sound_if(flags.skill_fire_bullet, combat, spec_by_id(ids.0), SoundPosition::Entity);
                lemma_player_sound_if(flags.skill_hit, combat, spec_by_id(ids.1), SoundPosition::Target);
                lemma_player_sound_if(flags.skill_dummy_hit_0, combat, spec_by_id(ids.2), SoundPosition::Target);
                lemma_player_sound_if(flags.skill_dummy_hit_1, combat, spec_by_id(ids.3), SoundPosition::Target);
                lemma_all_player_concat(w1, w2);
                lemma_all_player_concat(s1, s2);
                lemma_all_player_concat(s1 + s2, s3);
                lemma_all_player_concat(s1 + s2 + s3, s4);
                lemma_all_player_concat(w1 + w2, s1 + s2 + s3 + s4);
            },
            None => {},
        }
    }
    lemma_all_player_concat(
        spec_sound_if(flags.footstep, foot, Some(step), SoundPosition::Entity),
        vehicles,
    );
    lemma_all_player_concat(
        spec_sound_if(flags.footstep, foot, Some(step), SoundPosition::Entity) + vehicles,
        start,
    );
    lemma_all_player_concat(
        spec_sound_if(flags.footstep, foot, Some(step), SoundPosition::Entity) + vehicles + start,
        targets,
    );
}

/// Moving the mouse without a click gives no command and keeps the selection; a click
/// attacks only a hostile entity that was already selected and is pointed at.
pub proof fn law_only_selected_hostiles_are_attacked(hit: Option<MouseHit>, clicked: bool, target: SelectedTarget)
    ensures
        !clicked ==> spec_mouse_input(hit, clicked, target).2 == MouseCommand::Nothing
            && spec_mouse_input(hit, clicked, target).1.selected == target.selected,
        forall|e: u64|
            spec_mouse_input(hit, clicked, target).2 == MouseCommand::Attack(e) ==> clicked && target.selected
                == Some(e) && (hit matches Some(h) && h.entity == e && h.team == Some(TeamStanding::Hostile)),
{
}

/// Walking plays a character model's walk motion and an NPC model's move motion;
/// running plays a character model's run motion and an NPC model's run motion; standing
/// still plays the stop motions and dying the die motions. Each is played only where the
/// model has it loaded, and a character model takes precedence over an NPC model.
pub proof fn law_models_play_the_motion_of_the_action(model: ModelMotions)
    ensures
        spec_move_animation(model, MoveMode::Walk) == match model.character {
            Some(c) => if c.walk {
                Some(MotionChoice::Character(CharacterMotionAction::Walk))
            } else {
                None
            },
            None => match model.npc {
                Some(n) => if n.move_motion {
                    Some(MotionChoice::Npc(NpcMotionAction::Move))
                } else {
                    None
                },
                None => None,
            },
        },
        spec_move_animation(model, MoveMode::Run) == match model.character {
            Some(c) => if c.run {
                Some(MotionChoice::Character(CharacterMotionAction::Run))
            } else {
                None
            },
            None => match model.npc {
                Some(n) => if n.run {
                    Some(MotionChoice::Npc(NpcMotionAction::Run))
                } else {
                    None
                },
                None => None,
            },
        },
        spec_model_motion(model, CharacterMotionAction::Stop1, Some(NpcMotionAction::Stop)) == match model.character {
            Some(c) => if c.stop1 {
                Some(MotionChoice::Character(CharacterMotionAction::Stop1))
            } else {
                None
            },
            None => match model.npc {
                Some(n) => if n.stop {
                    Some(MotionChoice::Npc(NpcMotionAction::Stop))
                } else {
                    None
                },
                None => None,
            },
        },
        spec_model_motion(model, CharacterMotionAction::Die, Some(NpcMotionAction::Die)) == match model.character {
            Some(c) => if c.die {
                Some(MotionChoice::Character(CharacterMotionAction::Die))
            } else {
                None
            },
            None => match model.npc {
                Some(n) => if n.die {
                    Some(MotionChoice::Npc(NpcMotionAction::Die))
                } else {
                    None
                },
                None => None,
            },
        },
{
}

} // verus!

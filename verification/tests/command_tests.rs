use rose_offline_client::systems::command_system::{
    command_system, get_attack_animation, get_attack_animation_speed, get_move_animation,
    skill_cast_range, AnimationSpeed, CharacterMotionAction, CharacterMotions, ClientEntityType,
    Command, CommandAction, CommandCastSkill, CommandCastSkillState, CommandCastSkillTarget,
    CommandFacts, CommandKind, CommandRules, CommandSit, ModelMotions, MotionChoice, MoveMode,
    MoveTarget, NpcMotions, SkillActionMode, SkillFacts,
};

type Pos = (i32, i32);

fn all_character_motions() -> CharacterMotions {
    CharacterMotions {
        stop1: true,
        walk: true,
        run: true,
        sitting: true,
        sit: true,
        standup: true,
        attack: true,
        attack2: true,
        attack3: true,
        die: true,
        pickitem: true,
    }
}

fn character_model() -> ModelMotions {
    ModelMotions { character: Some(all_character_motions()), npc: None }
}

fn npc_model() -> ModelMotions {
    ModelMotions {
        character: None,
        npc: Some(NpcMotions { stop: true, move_motion: true, attack: true, die: true, run: true }),
    }
}

fn facts(model: ModelMotions) -> CommandFacts<Pos> {
    CommandFacts {
        has_active_motion: false,
        is_player: true,
        has_game_connection: true,
        model,
        move_mode: MoveMode::Run,
        attack_choice: CharacterMotionAction::Attack,
        move_target: None,
        move_reached: false,
        target_has_personal_store: false,
        attack_target: None,
        attack_in_range: false,
        item_position: None,
        skill: None,
        skill_target_position: None,
        skill_in_range: false,
    }
}

fn rules() -> CommandRules {
    CommandRules {
        animation_complete: vec![
            CommandKind::Attack,
            CommandKind::Die,
            CommandKind::PickupItem,
            CommandKind::Emote,
            CommandKind::Sitting,
            CommandKind::Standing,
            CommandKind::Casting,
        ],
        manual_complete: vec![CommandKind::Sit, CommandKind::PersonalStore],
    }
}

fn is_play(action: &CommandAction<Pos>, motion: MotionChoice, speed: AnimationSpeed, repeat: bool) -> bool {
    match action {
        CommandAction::PlayMotion { motion: m, speed: s, repeat: r } => *m == motion && *s == speed && *r == repeat,
        _ => false,
    }
}

#[test]
fn attack_animation_falls_back_to_first_attack() {
    let mut motions = all_character_motions();
    motions.attack3 = false;
    let model = ModelMotions { character: Some(motions), npc: None };
    assert_eq!(
        get_attack_animation(&model, CharacterMotionAction::Attack3),
        Some(MotionChoice::Character(CharacterMotionAction::Attack))
    );
    assert_eq!(
        get_attack_animation(&model, CharacterMotionAction::Attack2),
        Some(MotionChoice::Character(CharacterMotionAction::Attack2))
    );
    motions.attack = false;
    let model = ModelMotions { character: Some(motions), npc: None };
    assert_eq!(get_attack_animation(&model, CharacterMotionAction::Attack3), None);
}

#[test]
fn move_animation_by_mode() {
    assert_eq!(
        get_move_animation(MoveMode::Walk, &character_model()),
        Some(MotionChoice::Character(CharacterMotionAction::Walk))
    );
    assert_eq!(
        get_move_animation(MoveMode::Run, &npc_model()),
        Some(MotionChoice::Npc(rose_offline_client::systems::command_system::NpcMotionAction::Run))
    );
    let none = ModelMotions { character: None, npc: None };
    assert_eq!(get_move_animation(MoveMode::Drive, &none), None);
}

#[test]
fn attack_speed_is_at_least_thirty() {
    assert_eq!(get_attack_animation_speed(10), 30);
    assert_eq!(get_attack_animation_speed(150), 150);
    assert_eq!(skill_cast_range(0, 120), 120);
    assert_eq!(skill_cast_range(500, 120), 500);
}

#[test]
fn stop_with_nothing_next_plays_idle_motion() {
    let mut command: Command<Pos> = Command::Stop;
    let mut next = None;
    let actions = command_system(&mut command, &mut next, &rules(), &facts(character_model()));
    assert!(matches!(command, Command::Stop));
    assert!(next.is_none());
    assert_eq!(actions.len(), 1);
    assert!(is_play(&actions[0], MotionChoice::Character(CharacterMotionAction::Stop1), AnimationSpeed::Normal, true));
}

#[test]
fn finished_move_gives_way_to_stop() {
    let mut command: Command<Pos> = Command::Move { destination: (1, 2), target: None, move_mode: None };
    let mut next = None;
    let actions = command_system(&mut command, &mut next, &rules(), &facts(character_model()));
    // the move ended by itself: the entity stops at once
    assert!(matches!(command, Command::Stop));
    assert!(next.is_none());
    assert!(matches!(actions[0], CommandAction::RemoveDestination));
    assert!(matches!(actions[1], CommandAction::RemoveTarget));
}

#[test]
fn playing_attack_waits_unless_dying() {
    let mut f = facts(character_model());
    f.has_active_motion = true;
    let mut command: Command<Pos> = Command::Attack { target: 7 };
    let mut next = Some(Command::Stop);
    let actions = command_system(&mut command, &mut next, &rules(), &f);
    assert!(actions.is_empty());
    assert!(matches!(command, Command::Attack { target: 7 }));
    assert!(matches!(next, Some(Command::Stop)));

    let mut next = Some(Command::Die);
    let actions = command_system(&mut command, &mut next, &rules(), &f);
    assert!(matches!(command, Command::Die));
    assert!(next.is_none());
    assert!(is_play(&actions[0], MotionChoice::Character(CharacterMotionAction::Die), AnimationSpeed::Normal, false));
    assert!(matches!(actions[1], CommandAction::Die));
}

#[test]
fn dead_npc_is_despawned() {
    let mut command: Command<Pos> = Command::Die;
    let mut next = None;
    let actions = command_system(&mut command, &mut next, &rules(), &facts(npc_model()));
    assert_eq!(actions.len(), 1);
    assert!(matches!(actions[0], CommandAction::DespawnRecursive));
    let actions = command_system(&mut command, &mut next, &rules(), &facts(character_model()));
    assert!(actions.is_empty());
    assert!(matches!(command, Command::Die));
}

#[test]
fn sitting_character_stands_up_first() {
    let mut command: Command<Pos> = Command::Sit(CommandSit::Sit);
    let mut next = Some(Command::Stop);
    let actions = command_system(&mut command, &mut next, &rules(), &facts(character_model()));
    assert!(matches!(command, Command::Sit(CommandSit::Standing)));
    assert!(matches!(next, Some(Command::Stop)));
    assert!(is_play(&actions[0], MotionChoice::Character(CharacterMotionAction::Standup), AnimationSpeed::Normal, false));
}

#[test]
fn done_sitting_down_sits() {
    let mut command: Command<Pos> = Command::Sit(CommandSit::Sitting);
    let mut next = None;
    let actions = command_system(&mut command, &mut next, &rules(), &facts(character_model()));
    assert!(matches!(command, Command::Sit(CommandSit::Sit)));
    assert!(next.is_none());
    assert_eq!(actions.len(), 1);
    assert!(is_play(&actions[0], MotionChoice::Character(CharacterMotionAction::Sit), AnimationSpeed::Normal, true));
}

#[test]
fn attack_in_range_attacks_and_keeps_attacking() {
    let mut f = facts(character_model());
    f.attack_target = Some(((10, 10), 50));
    f.attack_in_range = true;
    f.attack_choice = CharacterMotionAction::Attack2;
    let mut command: Command<Pos> = Command::Stop;
    let mut next = Some(Command::Attack { target: 3 });
    let actions = command_system(&mut command, &mut next, &rules(), &f);
    assert!(matches!(command, Command::Attack { target: 3 }));
    assert!(matches!(next, Some(Command::Attack { target: 3 })));
    assert_eq!(actions.len(), 4);
    assert!(matches!(actions[0], CommandAction::FaceTowards((10, 10))));
    assert!(is_play(&actions[1], MotionChoice::Character(CharacterMotionAction::Attack2), AnimationSpeed::Attack, false));
    assert!(matches!(actions[3], CommandAction::InsertTarget(3)));
}

#[test]
fn attack_out_of_range_runs_to_target() {
    let mut f = facts(character_model());
    f.attack_target = Some(((10, 10), 50));
    let mut command: Command<Pos> = Command::Stop;
    let mut next = Some(Command::Attack { target: 3 });
    let actions = command_system(&mut command, &mut next, &rules(), &f);
    assert!(matches!(
        command,
        Command::Move { destination: (10, 10), target: Some(3), move_mode: Some(MoveMode::Run) }
    ));
    assert!(is_play(&actions[0], MotionChoice::Character(CharacterMotionAction::Run), AnimationSpeed::Move, true));
    assert!(matches!(actions[1], CommandAction::InsertDestination((10, 10))));
}

#[test]
fn attack_on_dead_target_stops() {
    let mut f = facts(character_model());
    f.attack_target = Some(((10, 10), 0));
    let mut command: Command<Pos> = Command::Stop;
    let mut next = Some(Command::Attack { target: 3 });
    let actions = command_system(&mut command, &mut next, &rules(), &f);
    assert!(actions.is_empty());
    assert!(matches!(next, Some(Command::Stop)));
}

#[test]
fn player_reaching_item_picks_it_up() {
    let mut f = facts(character_model());
    f.move_target = Some(MoveTarget {
        entity_type: ClientEntityType::ItemDrop,
        client_id: 42,
        position: (5, 5),
        approach: (4, 4),
    });
    f.move_reached = true;
    f.move_mode = MoveMode::Walk;
    let mut command: Command<Pos> = Command::Stop;
    let mut next = Some(Command::Move { destination: (9, 9), target: Some(11), move_mode: Some(MoveMode::Run) });
    let actions = command_system(&mut command, &mut next, &rules(), &f);
    assert!(matches!(command, Command::Stop));
    assert!(matches!(next, Some(Command::PickupItem(11))));
    assert!(matches!(actions[0], CommandAction::SetMoveMode(MoveMode::Run)));
    assert!(matches!(actions[1], CommandAction::FaceTowards((5, 5))));
    assert!(matches!(actions[2], CommandAction::PickupItemDrop(42)));
}

#[test]
fn moving_towards_npc_keeps_moving() {
    let mut f = facts(character_model());
    f.move_target = Some(MoveTarget {
        entity_type: ClientEntityType::Npc,
        client_id: 1,
        position: (5, 5),
        approach: (4, 4),
    });
    let mut command: Command<Pos> = Command::Stop;
    let mut next = Some(Command::Move { destination: (9, 9), target: Some(11), move_mode: None });
    let actions = command_system(&mut command, &mut next, &rules(), &f);
    assert!(matches!(command, Command::Move { destination: (4, 4), target: Some(11), move_mode: None }));
    assert!(matches!(next, Some(Command::Move { destination: (4, 4), target: Some(11), move_mode: None })));
    assert!(matches!(actions[1], CommandAction::InsertDestination((4, 4))));
    assert!(matches!(actions[2], CommandAction::InsertTarget(11)));
}

#[test]
fn lost_move_target_is_forgotten() {
    let f = facts(character_model());
    let mut command: Command<Pos> = Command::Stop;
    let mut next = Some(Command::Move { destination: (9, 9), target: Some(11), move_mode: None });
    let actions = command_system(&mut command, &mut next, &rules(), &f);
    assert!(matches!(actions[0], CommandAction::RemoveTarget));
    assert!(matches!(command, Command::Move { destination: (9, 9), target: None, move_mode: None }));
}

#[test]
fn casting_skill_goes_through_its_stages() {
    let cast = CommandCastSkill {
        skill_id: 5,
        skill_target: None,
        cast_motion_id: Some(100),
        cast_repeat_motion_id: Some(101),
        action_motion_id: Some(102),
        cast_skill_state: CommandCastSkillState::Casting,
        ready_action: false,
    };
    let mut command: Command<Pos> = Command::CastSkill(cast);
    let mut next = None;
    let actions = command_system(&mut command, &mut next, &rules(), &facts(character_model()));
    assert!(is_play(&actions[0], MotionChoice::Database(101), AnimationSpeed::Normal, true));
    match command {
        Command::CastSkill(c) => assert_eq!(c.cast_skill_state, CommandCastSkillState::CastingRepeat),
        _ => panic!("not casting"),
    }
    // the server allows the action
    if let Command::CastSkill(c) = &mut command {
        c.ready_action = true;
    }
    let actions = command_system(&mut command, &mut next, &rules(), &facts(character_model()));
    assert!(is_play(&actions[0], MotionChoice::Database(102), AnimationSpeed::Normal, false));
    match command {
        Command::CastSkill(c) => assert_eq!(c.cast_skill_state, CommandCastSkillState::Action),
        _ => panic!("not casting"),
    }
}

#[test]
fn cast_skill_in_range_starts_casting() {
    let mut f = facts(character_model());
    f.skill = Some(SkillFacts {
        action_mode: SkillActionMode::Restore,
        casting_motion_id: Some(200),
        casting_repeat_motion_id: Some(201),
        action_motion_id: Some(202),
    });
    f.skill_target_position = Some((3, 3));
    f.skill_in_range = true;
    let cast = CommandCastSkill {
        skill_id: 9,
        skill_target: Some(CommandCastSkillTarget::Entity(77)),
        cast_motion_id: None,
        cast_repeat_motion_id: None,
        action_motion_id: None,
        cast_skill_state: CommandCastSkillState::Casting,
        ready_action: false,
    };
    let mut command: Command<Pos> = Command::Attack { target: 77 };
    let mut next = Some(Command::CastSkill(cast));
    let mut r = rules();
    r.animation_complete.clear();
    let actions = command_system(&mut command, &mut next, &r, &f);
    match command {
        Command::CastSkill(c) => {
            assert_eq!(c.skill_id, 9);
            assert_eq!(c.cast_motion_id, Some(200));
            assert_eq!(c.cast_repeat_motion_id, Some(201));
            assert_eq!(c.action_motion_id, Some(202));
            assert_eq!(c.cast_skill_state, CommandCastSkillState::Casting);
            assert!(!c.ready_action);
        },
        _ => panic!("not casting"),
    }
    // the attack resumes afterwards
    assert!(matches!(next, Some(Command::Attack { target: 77 })));
    assert!(matches!(actions[0], CommandAction::FaceTowards((3, 3))));
    assert!(is_play(&actions[1], MotionChoice::Database(200), AnimationSpeed::Casting, false));
    assert!(matches!(actions[2], CommandAction::RemoveDestination));
}

#[test]
fn emote_gives_way_to_next_command() {
    let mut f = facts(character_model());
    f.has_active_motion = true;
    let mut command: Command<Pos> = Command::Emote { motion_id: 3, is_stop: false };
    let mut next = None;
    assert!(command_system(&mut command, &mut next, &rules(), &f).is_empty());
    let mut next = Some(Command::PersonalStore);
    let actions = command_system(&mut command, &mut next, &rules(), &f);
    assert!(matches!(command, Command::PersonalStore));
    assert!(next.is_none());
    assert_eq!(actions.len(), 2);
}

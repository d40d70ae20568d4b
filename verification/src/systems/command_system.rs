use vstd::prelude::*;

use crate::random::choose_from;

verus! {

/// How an entity moves.
#[derive(Copy, Clone, Debug, PartialEq, Eq, Structural)]
pub enum MoveMode {
    Walk,
    Run,
    Drive,
}

/// The stages of sitting down and standing up.
#[derive(Copy, Clone, Debug, PartialEq, Eq, Structural)]
pub enum CommandSit {
    Sitting,
    Sit,
    Standing,
}

/// The stages of casting a skill.
#[derive(Copy, Clone, Debug, PartialEq, Eq, Structural)]
pub enum CommandCastSkillState {
    Casting,
    CastingRepeat,
    Action,
}

/// What a skill is cast at: an entity, or a position on the ground.
#[derive(Copy, Clone, Debug)]
pub enum CommandCastSkillTarget<P> {
    Entity(u64),
    Position(P),
}

/// Casting a skill: the skill, its target, the motions of its stages, the stage it is
/// in, and whether the server has said the skill's action may start.
#[derive(Copy, Clone, Debug)]
pub struct CommandCastSkill<P> {
    pub skill_id: u16,
    pub skill_target: Option<CommandCastSkillTarget<P>>,
    pub cast_motion_id: Option<u16>,
    pub cast_repeat_motion_id: Option<u16>,
    pub action_motion_id: Option<u16>,
    pub cast_skill_state: CommandCastSkillState,
    pub ready_action: bool,
}

/// What an entity does, or is to do next. Entities are named by `u64`; positions are of
/// the type `P`, which the library only carries.
#[derive(Copy, Clone, Debug)]
pub enum Command<P> {
    Stop,
    Move { destination: P, target: Option<u64>, move_mode: Option<MoveMode> },
    Attack { target: u64 },
    Die,
    PickupItem(u64),
    Emote { motion_id: u16, is_stop: bool },
    Sit(CommandSit),
    PersonalStore,
    CastSkill(CommandCastSkill<P>),
}

/// The motions of a character model that the command system plays.
#[derive(Copy, Clone, Debug, PartialEq, Eq, Structural)]
pub enum CharacterMotionAction {
    Stop1,
    Walk,
    Run,
    Sitting,
    Sit,
    Standup,
    Attack,
    Attack2,
    Attack3,
    Die,
    Pickitem,
}

/// The motions of an NPC model that the command system plays.
#[derive(Copy, Clone, Debug, PartialEq, Eq, Structural)]
pub enum NpcMotionAction {
    Stop,
    Move,
    Attack,
    Die,
    Run,
}

/// Which motions a character model has loaded.
#[derive(Copy, Clone, Debug)]
pub struct CharacterMotions {
    pub stop1: bool,
    pub walk: bool,
    pub run: bool,
    pub sitting: bool,
    pub sit: bool,
    pub standup: bool,
    pub attack: bool,
    pub attack2: bool,
    pub attack3: bool,
    pub die: bool,
    pub pickitem: bool,
}

/// Which motions an NPC model has loaded.
#[derive(Copy, Clone, Debug)]
pub struct NpcMotions {
    pub stop: bool,
    pub move_motion: bool,
    pub attack: bool,
    pub die: bool,
    pub run: bool,
}

/// The model of an entity, as far as its motions go: a character model, an NPC model,
/// or neither.
#[derive(Copy, Clone, Debug)]
pub struct ModelMotions {
    pub character: Option<CharacterMotions>,
    pub npc: Option<NpcMotions>,
}

/// A motion to play: one of a model's, or one of the motion database's by id.
#[derive(Copy, Clone, Debug, PartialEq, Eq, Structural)]
pub enum MotionChoice {
    Character(CharacterMotionAction),
    Npc(NpcMotionAction),
    Database(u16),
}

/// Whether a character model has loaded the motion of an action.
pub open spec fn spec_has_character_motion(m: CharacterMotions, action: CharacterMotionAction) -> bool {
    match action {
        CharacterMotionAction::Stop1 => m.stop1,
        CharacterMotionAction::Walk => m.walk,
        CharacterMotionAction::Run => m.run,
        CharacterMotionAction::Sitting => m.sitting,
        CharacterMotionAction::Sit => m.sit,
        CharacterMotionAction::Standup => m.standup,
        CharacterMotionAction::Attack => m.attack,
        CharacterMotionAction::Attack2 => m.attack2,
        CharacterMotionAction::Attack3 => m.attack3,
        CharacterMotionAction::Die => m.die,
        CharacterMotionAction::Pickitem => m.pickitem,
    }
}

fn has_character_motion(m: &CharacterMotions, action: CharacterMotionAction) -> (r: bool)
    ensures
        r == spec_has_character_motion(*m, action),
{
    match action {
        CharacterMotionAction::Stop1 => m.stop1,
        CharacterMotionAction::Walk => m.walk,
        CharacterMotionAction::Run => m.run,
        CharacterMotionAction::Sitting => m.sitting,
        CharacterMotionAction::Sit => m.sit,
        CharacterMotionAction::Standup => m.standup,
        CharacterMotionAction::Attack => m.attack,
        CharacterMotionAction::Attack2 => m.attack2,
        CharacterMotionAction::Attack3 => m.attack3,
        CharacterMotionAction::Die => m.die,
        CharacterMotionAction::Pickitem => m.pickitem,
    }
}

/// Whether an NPC model has loaded the motion of an action.
pub open spec fn spec_has_npc_motion(m: NpcMotions, action: NpcMotionAction) -> bool {
    match action {
        NpcMotionAction::Stop => m.stop,
        NpcMotionAction::Move => m.move_motion,
        NpcMotionAction::Attack => m.attack,
        NpcMotionAction::Die => m.die,
        NpcMotionAction::Run => m.run,
    }
}

fn has_npc_motion(m: &NpcMotions, action: NpcMotionAction) -> (r: bool)
    ensures
        r == spec_has_npc_motion(*m, action),
{
    match action {
        NpcMotionAction::Stop => m.stop,
        NpcMotionAction::Move => m.move_motion,
        NpcMotionAction::Attack => m.attack,
        NpcMotionAction::Die => m.die,
        NpcMotionAction::Run => m.run,
    }
}

/// The motion of a model for a character action and an NPC action, where the model has
/// it loaded: a character model plays the character action, an NPC model the NPC action
/// (`None`: NPC models have no such motion).
pub open spec fn spec_model_motion(
    model: ModelMotions,
    character_action: CharacterMotionAction,
    npc_action: Option<NpcMotionAction>,
) -> Option<MotionChoice> {
    match model.character {
        Some(c) => if spec_has_character_motion(c, character_action) {
            Some(MotionChoice::Character(character_action))
        } else {
            None
        },
        None => match (model.npc, npc_action) {
            (Some(n), Some(a)) => if spec_has_npc_motion(n, a) {
                Some(MotionChoice::Npc(a))
            } else {
                None
            },
            _ => None,
        },
    }
}

fn model_motion(
    model: &ModelMotions,
    character_action: CharacterMotionAction,
    npc_action: Option<NpcMotionAction>,
) -> (r: Option<MotionChoice>)
    ensures
        r == spec_model_motion(*model, character_action, npc_action),
{
    match &model.character {
        Some(c) => if has_character_motion(c, character_action) {
            Some(MotionChoice::Character(character_action))
        } else {
            None
        },
        None => match (&model.npc, npc_action) {
            (Some(n), Some(a)) => if has_npc_motion(n, a) {
                Some(MotionChoice::Npc(a))
            } else {
                None
            },
            _ => None,
        },
    }
}

/// The attack motion of a model. A character model plays the attack motion that was
/// picked at random among its three (`choice`), or the first when the picked one is not
/// loaded; an NPC model plays its attack motion.
pub open spec fn spec_attack_animation(model: ModelMotions, choice: CharacterMotionAction) -> Option<MotionChoice> {
    match model.character {
        Some(c) => {
            let action = if spec_has_character_motion(c, choice) {
                choice
            } else {
                CharacterMotionAction::Attack
            };
            spec_model_motion(model, action, Some(NpcMotionAction::Attack))
        },
        None => spec_model_motion(model, CharacterMotionAction::Attack, Some(NpcMotionAction::Attack)),
    }
}

/// The attack motion of a model (see `spec_attack_animation`).
pub fn get_attack_animation(model: &ModelMotions, choice: CharacterMotionAction) -> (r: Option<MotionChoice>)
    ensures
        r == spec_attack_animation(*model, choice),
{
    match &model.character {
        Some(c) => {
            let action = if has_character_motion(c, choice) {
                choice
            } else {
                CharacterMotionAction::Attack
            };
            model_motion(model, action, Some(NpcMotionAction::Attack))
        },
        None => model_motion(model, CharacterMotionAction::Attack, Some(NpcMotionAction::Attack)),
    }
}

/// The dying motion of a model.
pub fn get_die_animation(model: &ModelMotions) -> (r: Option<MotionChoice>)
    ensures
        r == spec_model_motion(*model, CharacterMotionAction::Die, Some(NpcMotionAction::Die)),
{
    model_motion(model, CharacterMotionAction::Die, Some(NpcMotionAction::Die))
}

/// Whether a model has no motion for a move mode: only walking and running have motions.
pub open spec fn spec_lacks_move_motion(model: ModelMotions, move_mode: MoveMode) -> bool {
    move_mode == MoveMode::Drive && (model.character is Some || model.npc is Some)
}

/// The moving motion of a model for a move mode.
pub open spec fn spec_move_animation(model: ModelMotions, move_mode: MoveMode) -> Option<MotionChoice> {
    if move_mode == MoveMode::Walk {
        spec_model_motion(model, CharacterMotionAction::Walk, Some(NpcMotionAction::Move))
    } else {
        spec_model_motion(model, CharacterMotionAction::Run, Some(NpcMotionAction::Run))
    }
}

/// The moving motion of a model for a move mode. Models have none for driving.
pub fn get_move_animation(move_mode: MoveMode, model: &ModelMotions) -> (r: Option<MotionChoice>)
    requires
        !spec_lacks_move_motion(*model, move_mode),
    ensures
        r == spec_move_animation(*model, move_mode),
{
    match move_mode {
        MoveMode::Walk => model_motion(model, CharacterMotionAction::Walk, Some(NpcMotionAction::Move)),
        _ => model_motion(model, CharacterMotionAction::Run, Some(NpcMotionAction::Run)),
    }
}

/// The motion of a character model sitting down; NPC models have none.
pub fn get_sitting_animation(model: &ModelMotions) -> (r: Option<MotionChoice>)
    ensures
        r == spec_model_motion(*model, CharacterMotionAction::Sitting, None),
{
    model_motion(model, CharacterMotionAction::Sitting, None)
}

/// The motion of a character model sitting; NPC models have none.
pub fn get_sit_animation(model: &ModelMotions) -> (r: Option<MotionChoice>)
    ensures
        r == spec_model_motion(*model, CharacterMotionAction::Sit, None),
{
    model_motion(model, CharacterMotionAction::Sit, None)
}

/// The motion of a character model standing up; NPC models have none.
pub fn get_standing_animation(model: &ModelMotions) -> (r: Option<MotionChoice>)
    ensures
        r == spec_model_motion(*model, CharacterMotionAction::Standup, None),
{
    model_motion(model, CharacterMotionAction::Standup, None)
}

/// The motion of a model standing still.
pub fn get_stop_animation(model: &ModelMotions) -> (r: Option<MotionChoice>)
    ensures
        r == spec_model_motion(*model, CharacterMotionAction::Stop1, Some(NpcMotionAction::Stop)),
{
    model_motion(model, CharacterMotionAction::Stop1, Some(NpcMotionAction::Stop))
}

/// The motion of a character model picking up an item; NPC models have none.
pub fn get_pickup_animation(model: &ModelMotions) -> (r: Option<MotionChoice>)
    ensures
        r == spec_model_motion(*model, CharacterMotionAction::Pickitem, None),
{
    model_motion(model, CharacterMotionAction::Pickitem, None)
}

/// One of the three attack motions of a character, picked at random.
pub fn random_attack_choice() -> (r: CharacterMotionAction)
    ensures
        r == CharacterMotionAction::Attack || r == CharacterMotionAction::Attack2 || r
            == CharacterMotionAction::Attack3,
{
    let actions: [CharacterMotionAction; 3] = [
        CharacterMotionAction::Attack,
        CharacterMotionAction::Attack2,
        CharacterMotionAction::Attack3,
    ];
    assert(actions@ =~= seq![
        CharacterMotionAction::Attack,
        CharacterMotionAction::Attack2,
        CharacterMotionAction::Attack3,
    ]);
    match choose_from(&actions) {
        Some(a) => a,
        None => CharacterMotionAction::Attack,
    }
}

/// The attack motion of a model, with the character's attack motion picked at random
/// among its three (see `spec_attack_animation`).
pub fn pick_attack_animation(model: &ModelMotions) -> (r: Option<MotionChoice>)
    ensures
        exists|choice: CharacterMotionAction|
            (choice == CharacterMotionAction::Attack || choice == CharacterMotionAction::Attack2
                || choice == CharacterMotionAction::Attack3) && r == spec_attack_animation(*model, choice),
{
    let choice = random_attack_choice();
    get_attack_animation(model, choice)
}

/// The attack speed that sets the pace of the attack motion, in hundredths: the entity's
/// attack speed, but at least 30.
pub fn get_attack_animation_speed(attack_speed: i32) -> (r: i32)
    ensures
        r == if attack_speed > 30 {
            attack_speed
        } else {
            30
        },
{
    if attack_speed > 30 {
        attack_speed
    } else {
        30
    }
}

/// The range within which a skill is cast: its own cast range where it has one, else the
/// entity's attack range.
pub fn skill_cast_range(cast_range: i32, attack_range: i32) -> (r: i32)
    ensures
        r == if cast_range > 0 {
            cast_range
        } else {
            attack_range
        },
{
    if cast_range > 0 {
        cast_range
    } else {
        attack_range
    }
}

/// The kinds of command, as far as the rules on finishing them go.
#[derive(Copy, Clone, Debug, PartialEq, Eq, Structural)]
pub enum CommandKind {
    Stop,
    Move,
    Attack,
    Die,
    PickupItem,
    Emote,
    Sitting,
    Sit,
    Standing,
    PersonalStore,
    Casting,
    CastingRepeat,
    CastAction,
}

/// The kind of a command.
pub open spec fn spec_command_kind<P>(command: Command<P>) -> CommandKind {
    match command {
        Command::Stop => CommandKind::Stop,
        Command::Move { .. } => CommandKind::Move,
        Command::Attack { .. } => CommandKind::Attack,
        Command::Die => CommandKind::Die,
        Command::PickupItem(_) => CommandKind::PickupItem,
        Command::Emote { .. } => CommandKind::Emote,
        Command::Sit(CommandSit::Sitting) => CommandKind::Sitting,
        Command::Sit(CommandSit::Sit) => CommandKind::Sit,
        Command::Sit(CommandSit::Standing) => CommandKind::Standing,
        Command::PersonalStore => CommandKind::PersonalStore,
        Command::CastSkill(c) => match c.cast_skill_state {
            CommandCastSkillState::Casting => CommandKind::Casting,
            CommandCastSkillState::CastingRepeat => CommandKind::CastingRepeat,
            CommandCastSkillState::Action => CommandKind::CastAction,
        },
    }
}

/// The kind of a command.
pub fn command_kind<P: Copy>(command: &Command<P>) -> (r: CommandKind)
    ensures
        r == spec_command_kind(*command),
{
    match command {
        Command::Stop => CommandKind::Stop,
        Command::Move { .. } => CommandKind::Move,
        Command::Attack { .. } => CommandKind::Attack,
        Command::Die => CommandKind::Die,
        Command::PickupItem(_) => CommandKind::PickupItem,
        Command::Emote { .. } => CommandKind::Emote,
        Command::Sit(CommandSit::Sitting) => CommandKind::Sitting,
        Command::Sit(CommandSit::Sit) => CommandKind::Sit,
        Command::Sit(CommandSit::Standing) => CommandKind::Standing,
        Command::PersonalStore => CommandKind::PersonalStore,
        Command::CastSkill(c) => match c.cast_skill_state {
            CommandCastSkillState::Casting => CommandKind::Casting,
            CommandCastSkillState::CastingRepeat => CommandKind::CastingRepeat,
            CommandCastSkillState::Action => CommandKind::CastAction,
        },
    }
}

/// Which kinds of command last until their motion has played out, and which last until
/// another command ends them rather than ending by themselves.
#[derive(Debug)]
pub struct CommandRules {
    pub animation_complete: Vec<CommandKind>,
    pub manual_complete: Vec<CommandKind>,
}

fn kind_listed(kinds: &Vec<CommandKind>, kind: CommandKind) -> (r: bool)
    ensures
        r == kinds@.contains(kind),
{
    let mut i: usize = 0;
    while i < kinds.len()
        invariant
            i <= kinds@.len(),
            forall|j: int| 0 <= j < i ==> kinds@[j] != kind,
        decreases kinds.len() - i,
    {
        if kinds[i] == kind {
            assert(kinds@[i as int] == kind);
            return true;
        }
        i = i + 1;
    }
    false
}

/// The kinds of client entity.
#[derive(Copy, Clone, Debug, PartialEq, Eq, Structural)]
pub enum ClientEntityType {
    Character,
    Monster,
    Npc,
    ItemDrop,
}

/// The target of a move, as found in the world: its kind, its client entity id, its
/// position, and where to move to reach it (for a character, an NPC or an item drop, the
/// point at the distance that suffices for it, or the entity's own position when it is
/// that close already; for anything else the target's position).
#[derive(Copy, Clone, Debug)]
pub struct MoveTarget<P> {
    pub entity_type: ClientEntityType,
    pub client_id: usize,
    pub position: P,
    pub approach: P,
}

/// What a skill does once cast: stop, attack its target, or go back to what was done
/// before.
#[derive(Copy, Clone, Debug, PartialEq, Eq, Structural)]
pub enum SkillActionMode {
    Stop,
    Attack,
    Restore,
}

/// What the skill data says of a skill that the command system uses.
#[derive(Copy, Clone, Debug)]
pub struct SkillFacts {
    pub action_mode: SkillActionMode,
    pub casting_motion_id: Option<u16>,
    pub casting_repeat_motion_id: Option<u16>,
    pub action_motion_id: Option<u16>,
}

/// What the command system reads of an entity and the world in one step: whether a motion
/// still plays, whether the entity is the player, whether the game server is connected,
/// the entity's model and move mode, which attack motion was picked at random; for a
/// move, its target as found and whether the destination is reached; whether the
/// character moved to runs a personal store; for an attack, the target's position and
/// health points as found and whether it is in range; for picking up an item, the item's
/// position as found; for a skill, its data, the position of its target entity as found,
/// and whether the target is within the skill's cast range.
#[derive(Copy, Clone, Debug)]
pub struct CommandFacts<P> {
    pub has_active_motion: bool,
    pub is_player: bool,
    pub has_game_connection: bool,
    pub model: ModelMotions,
    pub move_mode: MoveMode,
    pub attack_choice: CharacterMotionAction,
    pub move_target: Option<MoveTarget<P>>,
    pub move_reached: bool,
    pub target_has_personal_store: bool,
    pub attack_target: Option<(P, i32)>,
    pub attack_in_range: bool,
    pub item_position: Option<P>,
    pub skill: Option<SkillFacts>,
    pub skill_target_position: Option<P>,
    pub skill_in_range: bool,
}

/// At what pace a motion plays: the normal one, the entity's attack speed, its move
/// speed, or the skill's casting speed.
#[derive(Copy, Clone, Debug, PartialEq, Eq, Structural)]
pub enum AnimationSpeed {
    Normal,
    Attack,
    Move,
    Casting,
}

/// What the command system asks for, in order: play a motion (over and over, or once);
/// despawn the entity with its children; remove or set its destination or target; switch
/// its move mode (with the speed of that mode); turn it to face a position; ask the
/// server to pick up an item drop (by client entity id); talk to an NPC; open the
/// personal store of a character; announce that the entity dies.
#[derive(Copy, Clone, Debug)]
pub enum CommandAction<P> {
    PlayMotion { motion: MotionChoice, speed: AnimationSpeed, repeat: bool },
    DespawnRecursive,
    RemoveDestination,
    RemoveTarget,
    InsertDestination(P),
    InsertTarget(u64),
    SetMoveMode(MoveMode),
    FaceTowards(P),
    PickupItemDrop(usize),
    TalkToNpc(u64),
    OpenEntityStore(u64),
    Die,
}

/// The actions of the outcome of a step.
pub open spec fn spec_outcome_actions<P>(
    outcome: Option<(Command<P>, Option<Command<P>>, Seq<CommandAction<P>>)>,
) -> Seq<CommandAction<P>> {
    match outcome {
        Some((_, _, actions)) => actions,
        None => Seq::empty(),
    }
}

/// A step's outcome with the actions taken by their view.
pub open spec fn spec_outcome<P>(r: (Command<P>, Option<Command<P>>, Vec<CommandAction<P>>)) -> Option<
    (Command<P>, Option<Command<P>>, Seq<CommandAction<P>>),
> {
    let (c, n, a) = r;
    Some((c, n, a@))
}

/// Playing a motion, where there is one.
pub open spec fn spec_play<P>(motion: Option<MotionChoice>, speed: AnimationSpeed, repeat: bool) -> Seq<CommandAction<P>> {
    match motion {
        Some(m) => seq![CommandAction::PlayMotion { motion: m, speed, repeat }],
        None => Seq::empty(),
    }
}

/// What a step does with the next command, once it is to be carried out (see
/// `spec_command_system`). `None` where the model would need a motion for driving.
pub open spec fn spec_next_command<P>(
    command: Command<P>,
    next: Command<P>,
    facts: CommandFacts<P>,
) -> Option<(Command<P>, Option<Command<P>>, Seq<CommandAction<P>>)> {
    let model = facts.model;
    match next {
        Command::Stop => Some(
            (
                Command::Stop,
                None,
                seq![CommandAction::RemoveDestination, CommandAction::RemoveTarget] + spec_play(
                    spec_model_motion(model, CharacterMotionAction::Stop1, Some(NpcMotionAction::Stop)),
                    AnimationSpeed::Normal,
                    true,
                ),
            ),
        ),
        Command::Move { destination, target, move_mode } => {
            let (dest, tgt, lost) = match target {
                Some(t) => match facts.move_target {
                    Some(found) => (found.approach, Some(t), Seq::empty()),
                    None => (destination, None, seq![CommandAction::RemoveTarget]),
                },
                None => (destination, None, Seq::empty()),
            };
            let mode = match move_mode {
                Some(m) => if m != facts.move_mode {
                    seq![CommandAction::SetMoveMode(m)]
                } else {
                    Seq::empty()
                },
                None => Seq::empty(),
            };
            if facts.move_reached {
                let (next_after, arrive) = if facts.is_player {
                    match (tgt, facts.move_target) {
                        (Some(t), Some(found)) => match found.entity_type {
                            ClientEntityType::ItemDrop => if facts.has_game_connection {
                                (
                                    Command::PickupItem(t),
                                    seq![
                                        CommandAction::FaceTowards(found.position),
                                        CommandAction::PickupItemDrop(found.client_id),
                                    ],
                                )
                            } else {
                                (Command::Stop, seq![CommandAction::FaceTowards(found.position)])
                            },
                            ClientEntityType::Npc => (
                                Command::Stop,
                                seq![
                                    CommandAction::FaceTowards(found.position),
                                    CommandAction::TalkToNpc(t),
                                ],
                            ),
                            ClientEntityType::Character => (
                                Command::Stop,
                                seq![CommandAction::FaceTowards(found.position)] + if facts.target_has_personal_store {
                                    seq![CommandAction::OpenEntityStore(t)]
                                } else {
                                    Seq::empty()
                                },
                            ),
                            ClientEntityType::Monster => (Command::Stop, Seq::empty()),
                        },
                        _ => (Command::Stop, Seq::empty()),
                    }
                } else {
                    (Command::Stop, Seq::empty())
                };
                Some((command, Some(next_after), lost + mode + arrive))
            } else if spec_lacks_move_motion(model, facts.move_mode) {
                None
            } else {
                let moving = Command::Move { destination: dest, target: tgt, move_mode };
                Some(
                    (
                        moving,
                        Some(moving),
                        lost + mode + spec_play(
                            spec_move_animation(model, facts.move_mode),
                            AnimationSpeed::Move,
                            true,
                        ) + seq![CommandAction::InsertDestination(dest)] + match tgt {
                            Some(t) => seq![CommandAction::InsertTarget(t)],
                            None => Seq::empty(),
                        },
                    ),
                )
            }
        },
        Command::Attack { target } => match facts.attack_target {
            None => Some((command, Some(Command::Stop), Seq::empty())),
            Some((position, hp)) => if hp <= 0 {
                Some((command, Some(Command::Stop), Seq::empty()))
            } else if facts.attack_in_range {
                match spec_attack_animation(model, facts.attack_choice) {
                    Some(m) => Some(
                        (
                            Command::Attack { target },
                            Some(next),
                            seq![
                                CommandAction::FaceTowards(position),
                                CommandAction::PlayMotion {
                                    motion: m,
                                    speed: AnimationSpeed::Attack,
                                    repeat: false,
                                },
                                CommandAction::RemoveDestination,
                                CommandAction::InsertTarget(target),
                            ],
                        ),
                    ),
                    None => Some((command, None, Seq::empty())),
                }
            } else if spec_lacks_move_motion(model, facts.move_mode) {
                None
            } else {
                match spec_move_animation(model, facts.move_mode) {
                    Some(m) => Some(
                        (
                            Command::Move {
                                destination: position,
                                target: Some(target),
                                move_mode: Some(MoveMode::Run),
                            },
                            Some(next),
                            seq![
                                CommandAction::PlayMotion {
                                    motion: m,
                                    speed: AnimationSpeed::Move,
                                    repeat: true,
                                },
                                CommandAction::InsertDestination(position),
                                CommandAction::InsertTarget(target),
                            ],
                        ),
                    ),
                    None => Some((command, None, Seq::empty())),
                }
            }
        },
        Command::Die => Some(
            (
                Command::Die,
                None,
                spec_play(
                    spec_model_motion(model, CharacterMotionAction::Die, Some(NpcMotionAction::Die)),
                    AnimationSpeed::Normal,
                    false,
                ) + seq![
                    CommandAction::Die,
                    CommandAction::RemoveDestination,
                    CommandAction::RemoveTarget,
                ],
            ),
        ),
        Command::PickupItem(item) => Some(
            (
                Command::PickupItem(item),
                None,
                match facts.item_position {
                    Some(p) => seq![CommandAction::FaceTowards(p)],
                    None => Seq::empty(),
                } + spec_play(
                    spec_model_motion(model, CharacterMotionAction::Pickitem, None),
                    AnimationSpeed::Normal,
                    false,
                ),
            ),
        ),
        Command::Emote { motion_id, is_stop } => Some(
            (
                Command::Emote { motion_id, is_stop },
                None,
                seq![
                    CommandAction::PlayMotion {
                        motion: MotionChoice::Database(motion_id),
                        speed: AnimationSpeed::Normal,
                        repeat: false,
                    },
                    CommandAction::RemoveDestination,
                    CommandAction::RemoveTarget,
                ],
            ),
        ),
        Command::Sit(CommandSit::Sitting) => Some(
            (
                Command::Sit(CommandSit::Sitting),
                None,
                spec_play(
                    spec_model_motion(model, CharacterMotionAction::Sitting, None),
                    AnimationSpeed::Normal,
                    false,
                ) + seq![CommandAction::RemoveDestination, CommandAction::RemoveTarget],
            ),
        ),
        Command::Sit(_) => Some((command, None, Seq::empty())),
        Command::PersonalStore => Some(
            (
                Command::PersonalStore,
                None,
                seq![CommandAction::RemoveDestination, CommandAction::RemoveTarget],
            ),
        ),
        Command::CastSkill(cast) => match facts.skill {
            None => Some((command, None, Seq::empty())),
            Some(skill) => {
                let (target_position, target_entity, lost) = match cast.skill_target {
                    Some(CommandCastSkillTarget::Entity(e)) => match facts.skill_target_position {
                        Some(p) => (Some(p), Some(e), false),
                        None => (None, None, true),
                    },
                    Some(CommandCastSkillTarget::Position(p)) => (Some(p), None, false),
                    None => (None, None, false),
                };
                let in_range = match target_position {
                    Some(_) => facts.skill_in_range,
                    None => true,
                };
                if lost {
                    Some((command, Some(Command::Stop), Seq::empty()))
                } else if in_range {
                    let cast_motion = match cast.cast_motion_id {
                        Some(m) => Some(m),
                        None => skill.casting_motion_id,
                    };
                    let action_motion = match cast.action_motion_id {
                        Some(m) => Some(m),
                        None => skill.action_motion_id,
                    };
                    let next_after = match skill.action_mode {
                        SkillActionMode::Stop => None,
                        SkillActionMode::Attack => match target_entity {
                            Some(t) => Some(Command::Attack { target: t }),
                            None => None,
                        },
                        SkillActionMode::Restore => match command {
                            Command::Stop | Command::Move { .. } | Command::Attack { .. } => Some(
                                command,
                            ),
                            _ => None,
                        },
                    };
                    Some(
                        (
                            Command::CastSkill(
                                CommandCastSkill {
                                    skill_id: cast.skill_id,
                                    skill_target: cast.skill_target,
                                    cast_motion_id: cast_motion,
                                    cast_repeat_motion_id: skill.casting_repeat_motion_id,
                                    action_motion_id: action_motion,
                                    cast_skill_state: CommandCastSkillState::Casting,
                                    ready_action: false,
                                },
                            ),
                            next_after,
                            match target_position {
                                Some(p) => seq![CommandAction::FaceTowards(p)],
                                None => Seq::empty(),
                            } + match cast_motion {
                                Some(m) => seq![
                                    CommandAction::PlayMotion {
                                        motion: MotionChoice::Database(m),
                                        speed: AnimationSpeed::Casting,
                                        repeat: false,
                                    },
                                ],
                                None => Seq::empty(),
                            } + seq![CommandAction::RemoveDestination],
                        ),
                    )
                } else if spec_lacks_move_motion(model, facts.move_mode) {
                    None
                } else {
                    let p = target_position->0;
                    match spec_move_animation(model, facts.move_mode) {
                        Some(m) => Some(
                            (
                                Command::Move {
                                    destination: p,
                                    target: target_entity,
                                    move_mode: Some(MoveMode::Run),
                                },
                                Some(next),
                                seq![
                                    CommandAction::PlayMotion {
                                        motion: m,
                                        speed: AnimationSpeed::Move,
                                        repeat: false,
                                    },
                                    CommandAction::InsertDestination(p),
                                ] + match target_entity {
                                    Some(t) => seq![CommandAction::InsertTarget(t)],
                                    None => Seq::empty(),
                                },
                            ),
                        ),
                        None => Some((command, None, Seq::empty())),
                    }
                }
            },
        },
    }
}

/// The rest of a step, once the current command may give way (see
/// `spec_command_system`).
pub open spec fn spec_command_continue<P>(
    command: Command<P>,
    next: Option<Command<P>>,
    facts: CommandFacts<P>,
    rules: Seq<CommandKind>,
) -> Option<(Command<P>, Option<Command<P>>, Seq<CommandAction<P>>)> {
    let next1 = match next {
        None => if !(command is Stop) && !rules.contains(spec_command_kind(command)) {
            Some(Command::Stop)
        } else {
            None
        },
        Some(n) => Some(n),
    };
    match next1 {
        None => if command is Stop {
            Some(
                (
                    command,
                    None,
                    spec_play(
                        spec_model_motion(
                            facts.model,
                            CharacterMotionAction::Stop1,
                            Some(NpcMotionAction::Stop),
                        ),
                        AnimationSpeed::Normal,
                        true,
                    ),
                ),
            )
        } else {
            Some((command, None, Seq::empty()))
        },
        Some(n) => if command matches Command::Sit(CommandSit::Sit) && !(n is Die) {
            Some(
                (
                    Command::Sit(CommandSit::Standing),
                    next1,
                    spec_play(
                        spec_model_motion(facts.model, CharacterMotionAction::Standup, None),
                        AnimationSpeed::Normal,
                        false,
                    ),
                ),
            )
        } else {
            spec_next_command(command, n, facts)
        },
    }
}

/// Actions prepended to the outcome of a step.
pub open spec fn spec_prepend<P>(
    before: Seq<CommandAction<P>>,
    outcome: Option<(Command<P>, Option<Command<P>>, Seq<CommandAction<P>>)>,
) -> Option<(Command<P>, Option<Command<P>>, Seq<CommandAction<P>>)> {
    match outcome {
        Some((c, n, a)) => Some((c, n, before + a)),
        None => None,
    }
}

/// One step of an entity's commands: from its current command and next command, the
/// rules on finishing commands and what it reads of the world, its new current and next
/// commands and what to ask for, in order; `None` where the step would need a motion
/// for driving, which models do not have.
///
/// A command that must play out waits while its motion plays (an emote only while there
/// is no next command), unless the next command is to die. A dead entity does nothing
/// more, and an NPC that has died is despawned. A character done sitting down sits. A
/// skill being cast starts its action motion once the server allows it, or else goes on
/// to its repeated casting motion. With no next command, a command that ends by itself
/// gives way to stopping, and a stopped entity plays its standing motion. A sitting
/// character stands up before anything else but dying. Then the next command is carried
/// out (see `spec_next_command`).
pub open spec fn spec_command_system<P>(
    command: Command<P>,
    next: Option<Command<P>>,
    rules_animation_complete: Seq<CommandKind>,
    rules_manual_complete: Seq<CommandKind>,
    facts: CommandFacts<P>,
) -> Option<(Command<P>, Option<Command<P>>, Seq<CommandAction<P>>)> {
    let requires_complete = if command is Emote {
        next is None
    } else {
        rules_animation_complete.contains(spec_command_kind(command))
    };
    if !(next matches Some(Command::Die)) && requires_complete && facts.has_active_motion {
        Some((command, next, Seq::empty()))
    } else if command is Die {
        Some(
            (
                command,
                next,
                if facts.model.npc is Some {
                    seq![CommandAction::DespawnRecursive]
                } else {
                    Seq::empty()
                },
            ),
        )
    } else {
        let (command1, sat) = if command matches Command::Sit(CommandSit::Sitting) {
            (
                Command::Sit(CommandSit::Sit),
                spec_play(
                    spec_model_motion(facts.model, CharacterMotionAction::Sit, None),
                    AnimationSpeed::Normal,
                    true,
                ),
            )
        } else {
            (command, Seq::empty())
        };
        match command1 {
            Command::CastSkill(cast) => {
                let state = cast.cast_skill_state;
                if cast.ready_action && (state == CommandCastSkillState::Casting || state
                    == CommandCastSkillState::CastingRepeat) {
                    Some(
                        (
                            Command::CastSkill(
                                CommandCastSkill {
                                    cast_skill_state: CommandCastSkillState::Action,
                                    ..cast
                                },
                            ),
                            next,
                            match cast.action_motion_id {
                                Some(m) => seq![
                                    CommandAction::PlayMotion {
                                        motion: MotionChoice::Database(m),
                                        speed: AnimationSpeed::Normal,
                                        repeat: false,
                                    },
                                ],
                                None => Seq::empty(),
                            },
                        ),
                    )
                } else if !cast.ready_action && state == CommandCastSkillState::Casting {
                    Some(
                        (
                            Command::CastSkill(
                                CommandCastSkill {
                                    cast_skill_state: CommandCastSkillState::CastingRepeat,
                                    ..cast
                                },
                            ),
                            next,
                            match cast.cast_repeat_motion_id {
                                Some(m) => seq![
                                    CommandAction::PlayMotion {
                                        motion: MotionChoice::Database(m),
                                        speed: AnimationSpeed::Normal,
                                        repeat: true,
                                    },
                                ],
                                None => Seq::empty(),
                            },
                        ),
                    )
                } else if !cast.ready_action && state == CommandCastSkillState::CastingRepeat {
                    Some((command1, next, Seq::empty()))
                } else if state == CommandCastSkillState::Action && next is None {
                    spec_command_continue(command1, Some(Command::Stop), facts, rules_manual_complete)
                } else {
                    spec_command_continue(command1, next, facts, rules_manual_complete)
                }
            },
            _ => spec_prepend(
                sat,
                spec_command_continue(command1, next, facts, rules_manual_complete),
            ),
        }
    }
}

fn play<P>(actions: &mut Vec<CommandAction<P>>, motion: Option<MotionChoice>, speed: AnimationSpeed, repeat: bool)
    ensures
        final(actions)@ == old(actions)@ + spec_play::<P>(motion, speed, repeat),
{
    match motion {
        Some(m) => {
            actions.push(CommandAction::PlayMotion { motion: m, speed, repeat });
        },
        None => {},
    }
    assert(actions@ =~= old(actions)@ + spec_play::<P>(motion, speed, repeat));
}

fn move_step<P: Copy>(
    command: Command<P>,
    destination: P,
    target: Option<u64>,
    move_mode: Option<MoveMode>,
    facts: &CommandFacts<P>,
) -> (r: (Command<P>, Option<Command<P>>, Vec<CommandAction<P>>))
    requires
        spec_next_command(command, Command::Move { destination, target, move_mode }, *facts) is Some,
    ensures
        spec_outcome(r) == spec_next_command(
            command,
            Command::Move { destination, target, move_mode },
            *facts,
        ),
{
    let mut actions: Vec<CommandAction<P>> = Vec::new();
    let (dest, tgt) = match target {
        Some(t) => match facts.move_target {
            Some(found) => (found.approach, Some(t)),
            None => {
                actions.push(CommandAction::RemoveTarget);
                (destination, None)
            },
        },
        None => (destination, None),
    };
    match move_mode {
        Some(m) => {
            if m != facts.move_mode {
                actions.push(CommandAction::SetMoveMode(m));
            }
        },
        None => {},
    }
    let ghost before = actions@;
    if facts.move_reached {
        let mut next_after = Command::Stop;
        if facts.is_player {
            match (tgt, facts.move_target) {
                (Some(t), Some(found)) => match found.entity_type {
                    ClientEntityType::ItemDrop => {
                        actions.push(CommandAction::FaceTowards(found.position));
                        if facts.has_game_connection {
                            actions.push(CommandAction::PickupItemDrop(found.client_id));
                            next_after = Command::PickupItem(t);
                        }
                    },
                    ClientEntityType::Npc => {
                        actions.push(CommandAction::FaceTowards(found.position));
                        actions.push(CommandAction::TalkToNpc(t));
                    },
                    ClientEntityType::Character => {
                        actions.push(CommandAction::FaceTowards(found.position));
                        if facts.target_has_personal_store {
                            actions.push(CommandAction::OpenEntityStore(t));
                        }
                    },
                    ClientEntityType::Monster => {},
                },
                _ => {},
            }
        }
        proof {
            let expected = spec_next_command(
                command,
                Command::Move { destination, target, move_mode },
                *facts,
            );
            assert(actions@ =~= spec_outcome_actions(expected));
        }
        (command, Some(next_after), actions)
    } else {
        let moving = Command::Move { destination: dest, target: tgt, move_mode };
        let motion = get_move_animation(facts.move_mode, &facts.model);
        play(&mut actions, motion, AnimationSpeed::Move, true);
        actions.push(CommandAction::InsertDestination(dest));
        match tgt {
            Some(t) => {
                actions.push(CommandAction::InsertTarget(t));
            },
            None => {},
        }
        proof {
            let expected = spec_next_command(
                command,
                Command::Move { destination, target, move_mode },
                *facts,
            );
            assert(actions@ =~= spec_outcome_actions(expected));
        }
        (moving, Some(moving), actions)
    }
}

fn attack_step<P: Copy>(command: Command<P>, target: u64, facts: &CommandFacts<P>) -> (r: (
    Command<P>,
    Option<Command<P>>,
    Vec<CommandAction<P>>,
))
    requires
        spec_next_command(command, Command::Attack { target }, *facts) is Some,
    ensures
        spec_outcome(r) == spec_next_command(command, Command::Attack { target }, *facts),
{
    let next = Command::Attack { target };
    let mut actions: Vec<CommandAction<P>> = Vec::new();
    let (position, hp) = match facts.attack_target {
        None => {
            return (command, Some(Command::Stop), actions);
        },
        Some(found) => found,
    };
    if hp <= 0 {
        return (command, Some(Command::Stop), actions);
    }
    if facts.attack_in_range {
        match get_attack_animation(&facts.model, facts.attack_choice) {
            Some(m) => {
                actions.push(CommandAction::FaceTowards(position));
                actions.push(
                    CommandAction::PlayMotion { motion: m, speed: AnimationSpeed::Attack, repeat: false },
                );
                actions.push(CommandAction::RemoveDestination);
                actions.push(CommandAction::InsertTarget(target));
                proof {
                    let expected = spec_next_command(command, next, *facts);
                    assert(actions@ =~= spec_outcome_actions(expected));
                }
                (Command::Attack { target }, Some(next), actions)
            },
            None => (command, None, actions),
        }
    } else {
        match get_move_animation(facts.move_mode, &facts.model) {
            Some(m) => {
                actions.push(
                    CommandAction::PlayMotion { motion: m, speed: AnimationSpeed::Move, repeat: true },
                );
                actions.push(CommandAction::InsertDestination(position));
                actions.push(CommandAction::InsertTarget(target));
                proof {
                    let expected = spec_next_command(command, next, *facts);
                    assert(actions@ =~= spec_outcome_actions(expected));
                }
                (
                    Command::Move {
                        destination: position,
                        target: Some(target),
                        move_mode: Some(MoveMode::Run),
                    },
                    Some(next),
                    actions,
                )
            },
            None => (command, None, actions),
        }
    }
}

fn cast_skill_step<P: Copy>(command: Command<P>, cast: CommandCastSkill<P>, facts: &CommandFacts<P>) -> (r: (
    Command<P>,
    Option<Command<P>>,
    Vec<CommandAction<P>>,
))
    requires
        spec_next_command(command, Command::CastSkill(cast), *facts) is Some,
    ensures
        spec_outcome(r) == spec_next_command(command, Command::CastSkill(cast), *facts),
{
    let next = Command::CastSkill(cast);
    let mut actions: Vec<CommandAction<P>> = Vec::new();
    let skill = match facts.skill {
        None => {
            return (command, None, actions);
        },
        Some(skill) => skill,
    };
    let (target_position, target_entity) = match cast.skill_target {
        Some(CommandCastSkillTarget::Entity(e)) => match facts.skill_target_position {
            Some(p) => (Some(p), Some(e)),
            None => {
                return (command, Some(Command::Stop), actions);
            },
        },
        Some(CommandCastSkillTarget::Position(p)) => (Some(p), None),
        None => (None, None),
    };
    let in_range = match target_position {
        Some(_) => facts.skill_in_range,
        None => true,
    };
    if in_range {
        let cast_motion = match cast.cast_motion_id {
            Some(m) => Some(m),
            None => skill.casting_motion_id,
        };
        let action_motion = match cast.action_motion_id {
            Some(m) => Some(m),
            None => skill.action_motion_id,
        };
        match target_position {
            Some(p) => {
                actions.push(CommandAction::FaceTowards(p));
            },
            None => {},
        }
        match cast_motion {
            Some(m) => {
                actions.push(
                    CommandAction::PlayMotion {
                        motion: MotionChoice::Database(m),
                        speed: AnimationSpeed::Casting,
                        repeat: false,
                    },
                );
            },
            None => {},
        }
        actions.push(CommandAction::RemoveDestination);
        let next_after = match skill.action_mode {
            SkillActionMode::Stop => None,
            SkillActionMode::Attack => match target_entity {
                Some(t) => Some(Command::Attack { target: t }),
                None => None,
            },
            SkillActionMode::Restore => match command {
                Command::Stop | Command::Move { .. } | Command::Attack { .. } => Some(command),
                _ => None,
            },
        };
        proof {
            let expected = spec_next_command(command, next, *facts);
            assert(actions@ =~= spec_outcome_actions(expected));
        }
        (
            Command::CastSkill(
                CommandCastSkill {
                    skill_id: cast.skill_id,
                    skill_target: cast.skill_target,
                    cast_motion_id: cast_motion,
                    cast_repeat_motion_id: skill.casting_repeat_motion_id,
                    action_motion_id: action_motion,
                    cast_skill_state: CommandCastSkillState::Casting,
                    ready_action: false,
                },
            ),
            next_after,
            actions,
        )
    } else {
        let p = match target_position {
            Some(p) => p,
            None => {
                return (command, None, actions);
            },
        };
        match get_move_animation(facts.move_mode, &facts.model) {
            Some(m) => {
                actions.push(
                    CommandAction::PlayMotion { motion: m, speed: AnimationSpeed::Move, repeat: false },
                );
                actions.push(CommandAction::InsertDestination(p));
                match target_entity {
                    Some(t) => {
                        actions.push(CommandAction::InsertTarget(t));
                    },
                    None => {},
                }
                proof {
                    let expected = spec_next_command(command, next, *facts);
                    assert(actions@ =~= spec_outcome_actions(expected));
                }
                (
                    Command::Move { destination: p, target: target_entity, move_mode: Some(MoveMode::Run) },
                    Some(next),
                    actions,
                )
            },
            None => (command, None, actions),
        }
    }
}

fn next_command_step<P: Copy>(command: Command<P>, next: Command<P>, facts: &CommandFacts<P>) -> (r: (
    Command<P>,
    Option<Command<P>>,
    Vec<CommandAction<P>>,
))
    requires
        spec_next_command(command, next, *facts) is Some,
    ensures
        spec_outcome(r) == spec_next_command(command, next, *facts),
{
    let mut actions: Vec<CommandAction<P>> = Vec::new();
    match next {
        Command::Stop => {
            actions.push(CommandAction::RemoveDestination);
            actions.push(CommandAction::RemoveTarget);
            play(&mut actions, get_stop_animation(&facts.model), AnimationSpeed::Normal, true);
            assert(actions@ =~= spec_outcome_actions(spec_next_command(command, next, *facts)));
            (Command::Stop, None, actions)
        },
        Command::Move { destination, target, move_mode } => move_step(
            command,
            destination,
            target,
            move_mode,
            facts,
        ),
        Command::Attack { target } => attack_step(command, target, facts),
        Command::Die => {
            play(&mut actions, get_die_animation(&facts.model), AnimationSpeed::Normal, false);
            actions.push(CommandAction::Die);
            actions.push(CommandAction::RemoveDestination);
            actions.push(CommandAction::RemoveTarget);
            assert(actions@ =~= spec_outcome_actions(spec_next_command(command, next, *facts)));
            (Command::Die, None, actions)
        },
        Command::PickupItem(item) => {
            match facts.item_position {
                Some(p) => {
                    actions.push(CommandAction::FaceTowards(p));
                },
                None => {},
            }
            play(&mut actions, get_pickup_animation(&facts.model), AnimationSpeed::Normal, false);
            assert(actions@ =~= spec_outcome_actions(spec_next_command(command, next, *facts)));
            (Command::PickupItem(item), None, actions)
        },
        Command::Emote { motion_id, is_stop } => {
            actions.push(
                CommandAction::PlayMotion {
                    motion: MotionChoice::Database(motion_id),
                    speed: AnimationSpeed::Normal,
                    repeat: false,
                },
            );
            actions.push(CommandAction::RemoveDestination);
            actions.push(CommandAction::RemoveTarget);
            assert(actions@ =~= spec_outcome_actions(spec_next_command(command, next, *facts)));
            (Command::Emote { motion_id, is_stop }, None, actions)
        },
        Command::Sit(CommandSit::Sitting) => {
            play(&mut actions, get_sitting_animation(&facts.model), AnimationSpeed::Normal, false);
            actions.push(CommandAction::RemoveDestination);
            actions.push(CommandAction::RemoveTarget);
            assert(actions@ =~= spec_outcome_actions(spec_next_command(command, next, *facts)));
            (Command::Sit(CommandSit::Sitting), None, actions)
        },
        Command::Sit(_) => (command, None, actions),
        Command::PersonalStore => {
            actions.push(CommandAction::RemoveDestination);
            actions.push(CommandAction::RemoveTarget);
            assert(actions@ =~= spec_outcome_actions(spec_next_command(command, next, *facts)));
            (Command::PersonalStore, None, actions)
        },
        Command::CastSkill(cast) => cast_skill_step(command, cast, facts),
    }
}

fn continue_step<P: Copy>(
    command: Command<P>,
    next: Option<Command<P>>,
    facts: &CommandFacts<P>,
    rules: &CommandRules,
) -> (r: (Command<P>, Option<Command<P>>, Vec<CommandAction<P>>))
    requires
        spec_command_continue(command, next, *facts, rules.manual_complete@) is Some,
    ensures
        spec_outcome(r) == spec_command_continue(
            command,
            next,
            *facts,
            rules.manual_complete@,
        ),
{
    let next1 = match next {
        None => {
            let is_stop = match command {
                Command::Stop => true,
                _ => false,
            };
            if !is_stop && !kind_listed(&rules.manual_complete, command_kind(&command)) {
                Some(Command::Stop)
            } else {
                None
            }
        },
        Some(n) => Some(n),
    };
    match next1 {
        None => {
            let mut actions: Vec<CommandAction<P>> = Vec::new();
            match command {
                Command::Stop => {
                    play(&mut actions, get_stop_animation(&facts.model), AnimationSpeed::Normal, true);
                },
                _ => {},
            }
            assert(actions@ =~= spec_outcome_actions(spec_command_continue(
                command,
                next,
                *facts,
                rules.manual_complete@,
            )));
            (command, None, actions)
        },
        Some(n) => {
            let standing = match (command, n) {
                (Command::Sit(CommandSit::Sit), Command::Die) => false,
                (Command::Sit(CommandSit::Sit), _) => true,
                _ => false,
            };
            if standing {
                let mut actions: Vec<CommandAction<P>> = Vec::new();
                play(&mut actions, get_standing_animation(&facts.model), AnimationSpeed::Normal, false);
                (Command::Sit(CommandSit::Standing), next1, actions)
            } else {
                next_command_step(command, n, facts)
            }
        },
    }
}

/// One step of an entity's commands (see `spec_command_system`): updates its current and
/// next commands and returns what to ask for, in order. The attack motion picked at
/// random is one of the three attack motions.
pub fn command_system<P: Copy>(
    command: &mut Command<P>,
    next_command: &mut Option<Command<P>>,
    rules: &CommandRules,
    facts: &CommandFacts<P>,
) -> (actions: Vec<CommandAction<P>>)
    requires
        spec_command_system(
            *old(command),
            *old(next_command),
            rules.animation_complete@,
            rules.manual_complete@,
            *facts,
        ) is Some,
    ensures
        Some((*final(command), *final(next_command), actions@)) == spec_command_system(
            *old(command),
            *old(next_command),
            rules.animation_complete@,
            rules.manual_complete@,
            *facts,
        ),
{
    let current = *command;
    let next = *next_command;
    let is_emote = match current {
        Command::Emote { .. } => true,
        _ => false,
    };
    let requires_complete = if is_emote {
        next.is_none()
    } else {
        kind_listed(&rules.animation_complete, command_kind(&current))
    };
    let next_is_die = match next {
        Some(Command::Die) => true,
        _ => false,
    };
    if !next_is_die && requires_complete && facts.has_active_motion {
        return Vec::new();
    }
    if let Command::Die = current {
        let mut actions: Vec<CommandAction<P>> = Vec::new();
        if facts.model.npc.is_some() {
            actions.push(CommandAction::DespawnRecursive);
        }
        assert(actions@ =~= spec_outcome_actions(spec_command_system(
            current,
            next,
            rules.animation_complete@,
            rules.manual_complete@,
            *facts,
        )));
        return actions;
    }
    let mut sat: Vec<CommandAction<P>> = Vec::new();
    let current1 = match current {
        Command::Sit(CommandSit::Sitting) => {
            play(&mut sat, get_sit_animation(&facts.model), AnimationSpeed::Normal, true);
            Command::Sit(CommandSit::Sit)
        },
        _ => current,
    };
    let (new_command, new_next, actions) = match current1 {
        Command::CastSkill(cast) => {
            let state = cast.cast_skill_state;
            let casting = match state {
                CommandCastSkillState::Casting => true,
                _ => false,
            };
            let repeating = match state {
                CommandCastSkillState::CastingRepeat => true,
                _ => false,
            };
            if cast.ready_action && (casting || repeating) {
                let mut actions: Vec<CommandAction<P>> = Vec::new();
                match cast.action_motion_id {
                    Some(m) => {
                        actions.push(
                            CommandAction::PlayMotion {
                                motion: MotionChoice::Database(m),
                                speed: AnimationSpeed::Normal,
                                repeat: false,
                            },
                        );
                    },
                    None => {},
                }
                (
                    Command::CastSkill(
                        CommandCastSkill { cast_skill_state: CommandCastSkillState::Action, ..cast },
                    ),
                    next,
                    actions,
                )
            } else if !cast.ready_action && casting {
                let mut actions: Vec<CommandAction<P>> = Vec::new();
                match cast.cast_repeat_motion_id {
                    Some(m) => {
                        actions.push(
                            CommandAction::PlayMotion {
                                motion: MotionChoice::Database(m),
                                speed: AnimationSpeed::Normal,
                                repeat: true,
                            },
                        );
                    },
                    None => {},
                }
                (
                    Command::CastSkill(
                        CommandCastSkill {
                            cast_skill_state: CommandCastSkillState::CastingRepeat,
                            ..cast
                        },
                    ),
                    next,
                    actions,
                )
            } else if !cast.ready_action && repeating {
                (current1, next, Vec::new())
            } else if !casting && !repeating && next.is_none() {
                continue_step(current1, Some(Command::Stop), facts, rules)
            } else {
                continue_step(current1, next, facts, rules)
            }
        },
        _ => {
            let (c, n, rest) = continue_step(current1, next, facts, rules);
            let mut actions = sat;
            let mut rest = rest;
            let ghost sat_seq = actions@;
            let ghost rest_seq = rest@;
            actions.append(&mut rest);
            assert(actions@ =~= sat_seq + rest_seq);
            (c, n, actions)
        },
    };
    *command = new_command;
    *next_command = new_next;
    actions
}

} // verus!

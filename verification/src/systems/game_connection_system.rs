use vstd::prelude::*;

use crate::systems::command_system::{
    Command, CommandCastSkill, CommandCastSkillState, CommandCastSkillTarget, CommandSit, MoveMode,
};
use crate::text::{
    chars_text, push_decimal, push_signed_decimal, push_text, spec_decimal_chars,
    spec_signed_decimal_chars,
};

verus! {

/// The entities the server has told of, by client entity id, and the player's entity and
/// client entity id.
#[derive(Debug)]
pub struct ClientEntityList {
    pub client_entities: Vec<Option<u64>>,
    pub player_entity: Option<u64>,
    pub player_entity_id: Option<usize>,
}

/// The entity with a client entity id, where there is one.
pub open spec fn spec_client_entity(entities: Seq<Option<u64>>, id: usize) -> Option<u64> {
    if id < entities.len() {
        entities[id as int]
    } else {
        None
    }
}

impl ClientEntityList {
    /// The entity with a client entity id, where there is one.
    pub fn get(&self, id: usize) -> (r: Option<u64>)
        ensures
            r == spec_client_entity(self.client_entities@, id),
    {
        if id < self.client_entities.len() {
            self.client_entities[id]
        } else {
            None
        }
    }

    /// The entities to despawn when the player teleports: every entity of the list but the
    /// player's, in the order of their client entity ids.
    pub fn teleport_despawns(&self) -> (r: Vec<u64>)
        ensures
            r@ == spec_teleport_despawns(self.client_entities@, self.player_entity_id),
    {
        let mut despawns: Vec<u64> = Vec::new();
        let mut i: usize = 0;
        while i < self.client_entities.len()
            invariant
                i <= self.client_entities@.len(),
                despawns@ == spec_teleport_despawns(
                    self.client_entities@.take(i as int),
                    self.player_entity_id,
                ),
            decreases self.client_entities.len() - i,
        {
            assert(self.client_entities@.take(i + 1).drop_last() =~= self.client_entities@.take(
                i as int,
            ));
            if let Some(entity) = self.client_entities[i] {
                let is_player = match self.player_entity_id {
                    Some(id) => id == i,
                    None => false,
                };
                if !is_player {
                    despawns.push(entity);
                }
            }
            i = i + 1;
        }
        assert(self.client_entities@.take(self.client_entities@.len() as int)
            =~= self.client_entities@);
        despawns
    }
}

/// The entities of a list whose index is not the player's client entity id, in order.
pub open spec fn spec_teleport_despawns(entities: Seq<Option<u64>>, player_id: Option<usize>) -> Seq<u64>
    decreases entities.len(),
{
    if entities.len() == 0 {
        Seq::empty()
    } else {
        let last = (entities.len() - 1) as int;
        spec_teleport_despawns(entities.drop_last(), player_id) + match entities[last] {
            Some(e) => if player_id == Some(last as usize) {
                Seq::empty()
            } else {
                seq![e]
            },
            None => Seq::empty(),
        }
    }
}

/// What an entity is doing when the server spawns it.
#[derive(Copy, Clone, Debug)]
pub enum SpawnCommandState<P> {
    Stop,
    Move { target_position: P, target_entity_id: Option<usize> },
    RunAway { target_position: P },
    Attack { target_entity_id: usize },
    Sit,
    PersonalStore,
    Die,
}

/// The next command of a spawned entity, from what the server says it is doing.
pub open spec fn spec_to_next_command<P>(command_state: SpawnCommandState<P>, entities: Seq<Option<u64>>) -> Option<Command<P>> {
    match command_state {
        SpawnCommandState::Move { target_position, target_entity_id } => Some(
            Command::Move {
                destination: target_position,
                target: match target_entity_id {
                    Some(id) => spec_client_entity(entities, id),
                    None => None,
                },
                move_mode: None,
            },
        ),
        SpawnCommandState::RunAway { target_position } => Some(
            Command::Move {
                destination: target_position,
                target: None,
                move_mode: Some(MoveMode::Run),
            },
        ),
        SpawnCommandState::Attack { target_entity_id } => match spec_client_entity(
            entities,
            target_entity_id,
        ) {
            Some(target) => Some(Command::Attack { target }),
            None => None,
        },
        SpawnCommandState::Sit => Some(Command::Sit(CommandSit::Sitting)),
        SpawnCommandState::PersonalStore => Some(Command::PersonalStore),
        SpawnCommandState::Die => Some(Command::Die),
        SpawnCommandState::Stop => None,
    }
}

/// The next command of a spawned entity, from what the server says it is doing.
pub fn to_next_command<P: Copy>(command_state: &SpawnCommandState<P>, client_entity_list: &ClientEntityList) -> (r: Option<Command<P>>)
    ensures
        r == spec_to_next_command(*command_state, client_entity_list.client_entities@),
{
    match *command_state {
        SpawnCommandState::Move { target_position, target_entity_id } => Some(
            Command::Move {
                destination: target_position,
                target: match target_entity_id {
                    Some(id) => client_entity_list.get(id),
                    None => None,
                },
                move_mode: None,
            },
        ),
        SpawnCommandState::RunAway { target_position } => Some(
            Command::Move {
                destination: target_position,
                target: None,
                move_mode: Some(MoveMode::Run),
            },
        ),
        SpawnCommandState::Attack { target_entity_id } => match client_entity_list.get(
            target_entity_id,
        ) {
            Some(target) => Some(Command::Attack { target }),
            None => None,
        },
        SpawnCommandState::Sit => Some(Command::Sit(CommandSit::Sitting)),
        SpawnCommandState::PersonalStore => Some(Command::PersonalStore),
        SpawnCommandState::Die => Some(Command::Die),
        SpawnCommandState::Stop => None,
    }
}

/// The server toggles sitting: a sitting entity stands up (where a next command is set
/// already, the command system stands it up first anyway), any other sits down.
pub fn sit_toggle<P: Copy>(command: &Command<P>, next_command: &mut Option<Command<P>>)
    ensures
        *final(next_command) == if command is Sit {
            if (*old(next_command)) is None {
                Some(Command::Sit(CommandSit::Standing))
            } else {
                *old(next_command)
            }
        } else {
            Some(Command::Sit(CommandSit::Sitting))
        },
{
    match command {
        Command::Sit(_) => {
            if next_command.is_none() {
                *next_command = Some(Command::Sit(CommandSit::Standing));
            }
        },
        _ => {
            *next_command = Some(Command::Sit(CommandSit::Sitting));
        },
    }
}

/// The server cancels the casting of a skill: an entity casting one stops.
pub fn cancel_casting_skill<P: Copy>(command: &mut Command<P>)
    ensures
        *final(command) == if (*old(command)) is CastSkill {
            Command::Stop
        } else {
            *old(command)
        },
{
    if let Command::CastSkill(_) = *command {
        *command = Command::Stop;
    }
}

/// The server says that the casting of a skill has finished: the current command, or else
/// the next one, that casts that skill may start the skill's action. Returns whether one
/// did.
pub fn finish_casting_skill<P: Copy>(command: &mut Command<P>, next_command: &mut Option<Command<P>>, skill_id: u16) -> (found: bool)
    ensures
        match *old(command) {
            Command::CastSkill(c) if c.skill_id == skill_id => {
                &&& found
                &&& *final(command) == Command::CastSkill(CommandCastSkill { ready_action: true, ..c })
                &&& *final(next_command) == *old(next_command)
            },
            _ => {
                &&& *final(command) == *old(command)
                &&& match *old(next_command) {
                    Some(Command::CastSkill(c)) if c.skill_id == skill_id => {
                        &&& found
                        &&& *final(next_command) == Some(
                            Command::CastSkill(CommandCastSkill { ready_action: true, ..c }),
                        )
                    },
                    _ => !found && *final(next_command) == *old(next_command),
                }
            },
        },
{
    if let Command::CastSkill(c) = *command {
        if c.skill_id == skill_id {
            *command = Command::CastSkill(CommandCastSkill { ready_action: true, ..c });
            return true;
        }
    }
    if let Some(Command::CastSkill(c)) = *next_command {
        if c.skill_id == skill_id {
            *next_command = Some(Command::CastSkill(CommandCastSkill { ready_action: true, ..c }));
            return true;
        }
    }
    false
}

/// The next command of an entity the server says casts a skill: casting it, at the
/// target given, with the casting motion given.
pub fn cast_skill_command<P: Copy>(
    skill_id: u16,
    skill_target: Option<CommandCastSkillTarget<P>>,
    cast_motion_id: Option<u16>,
) -> (r: Command<P>)
    ensures
        r == Command::CastSkill(
            CommandCastSkill {
                skill_id,
                skill_target,
                cast_motion_id,
                cast_repeat_motion_id: None,
                action_motion_id: None,
                cast_skill_state: CommandCastSkillState::Casting,
                ready_action: false,
            },
        ),
{
    Command::CastSkill(
        CommandCastSkill {
            skill_id,
            skill_target,
            cast_motion_id,
            cast_repeat_motion_id: None,
            action_motion_id: None,
            cast_skill_state: CommandCastSkillState::Casting,
            ready_action: false,
        },
    )
}

/// Whether the player killed the entity the server says took damage: the damage killed it,
/// and the attacker's entity is the player's (two unknown entities count as the same).
pub fn killed_by_player(client_entity_list: &ClientEntityList, attacker_entity_id: usize, is_killed: bool) -> (r: bool)
    ensures
        r == (is_killed && client_entity_list.player_entity == spec_client_entity(
            client_entity_list.client_entities@,
            attacker_entity_id,
        )),
{
    is_killed && client_entity_list.player_entity == client_entity_list.get(attacker_entity_id)
}

/// The basic stats of a character.
#[derive(Copy, Clone, Debug, PartialEq, Eq, Structural)]
pub struct BasicStats {
    pub strength: i32,
    pub dexterity: i32,
    pub intelligence: i32,
    pub concentration: i32,
    pub charm: i32,
    pub sense: i32,
}

/// The basic stats.
#[derive(Copy, Clone, Debug, PartialEq, Eq, Structural)]
pub enum BasicStatType {
    Strength,
    Dexterity,
    Intelligence,
    Concentration,
    Charm,
    Sense,
}

/// The value of a basic stat.
pub open spec fn spec_basic_stat(stats: BasicStats, stat_type: BasicStatType) -> i32 {
    match stat_type {
        BasicStatType::Strength => stats.strength,
        BasicStatType::Dexterity => stats.dexterity,
        BasicStatType::Intelligence => stats.intelligence,
        BasicStatType::Concentration => stats.concentration,
        BasicStatType::Charm => stats.charm,
        BasicStatType::Sense => stats.sense,
    }
}

impl BasicStats {
    /// The value of a basic stat.
    pub fn get(&self, stat_type: BasicStatType) -> (r: i32)
        ensures
            r == spec_basic_stat(*self, stat_type),
    {
        match stat_type {
            BasicStatType::Strength => self.strength,
            BasicStatType::Dexterity => self.dexterity,
            BasicStatType::Intelligence => self.intelligence,
            BasicStatType::Concentration => self.concentration,
            BasicStatType::Charm => self.charm,
            BasicStatType::Sense => self.sense,
        }
    }

    /// The server sets a basic stat of the player: the stat takes the value. Where the value
    /// is one more than before, this looks like an increase that the player asked for, and
    /// its cost (`increase_cost`, what raising the stat costs by the stats before) is
    /// returned, to be taken from the player's stat points.
    pub fn update_basic_stat(&mut self, stat_type: BasicStatType, value: i32, increase_cost: Option<u32>) -> (cost: Option<u32>)
        requires
            spec_basic_stat(*old(self), stat_type) < i32::MAX,
        ensures
            spec_basic_stat(*final(self), stat_type) == value,
            forall|other: BasicStatType|
                other != stat_type ==> spec_basic_stat(*final(self), other) == spec_basic_stat(
                    *old(self),
                    other,
                ),
            cost == if value == spec_basic_stat(*old(self), stat_type) + 1 {
                increase_cost
            } else {
                None
            },
    {
        let current = self.get(stat_type);
        let cost = if value == current + 1 {
            increase_cost
        } else {
            None
        };
        match stat_type {
            BasicStatType::Strength => self.strength = value,
            BasicStatType::Dexterity => self.dexterity = value,
            BasicStatType::Intelligence => self.intelligence = value,
            BasicStatType::Concentration => self.concentration = value,
            BasicStatType::Charm => self.charm = value,
            BasicStatType::Sense => self.sense = value,
        }
        cost
    }
}

/// Stat points after paying a cost: they go down by the cost, but not below zero.
pub fn subtract_stat_points(points: u32, cost: u32) -> (r: u32)
    ensures
        r == if cost < points {
            points - cost
        } else {
            0
        },
{
    let taken = if cost < points {
        cost
    } else {
        points
    };
    points - taken
}

/// The message for the experience points the player earned: where the new total is above
/// the one before, how many were earned.
pub fn xp_earned_message(previous_xp: u64, xp: u64) -> (r: Option<String>)
    ensures
        xp > previous_xp ==> (r matches Some(m) && m@ == "You have earned "@ + spec_decimal_chars(
            (xp - previous_xp) as nat,
        ) + " experience points."@),
        xp <= previous_xp ==> r is None,
{
    if xp > previous_xp {
        let mut out: Vec<char> = Vec::new();
        push_text(&mut out, "You have earned ");
        push_decimal(&mut out, xp - previous_xp);
        push_text(&mut out, " experience points.");
        Some(chars_text(&out))
    } else {
        None
    }
}

/// The message for money the player earned.
pub fn money_earned_message(money: i64) -> (r: String)
    ensures
        r@ == "You have earned "@ + spec_signed_decimal_chars(money as int) + " Zuly."@,
{
    let mut out: Vec<char> = Vec::new();
    push_text(&mut out, "You have earned ");
    push_signed_decimal(&mut out, money);
    push_text(&mut out, " Zuly.");
    chars_text(&out)
}

/// The name shown over dropped money.
pub fn money_drop_name(money: i64) -> (r: String)
    ensures
        r@ == spec_signed_decimal_chars(money as int) + " Zuly"@,
{
    let mut out: Vec<char> = Vec::new();
    push_signed_decimal(&mut out, money);
    push_text(&mut out, " Zuly");
    chars_text(&out)
}

/// The message for an item the player earned, by its name.
pub fn item_earned_message(item_name: &str) -> (r: String)
    ensures
        r@ == "You have earned "@ + item_name@ + "."@,
{
    let mut out: Vec<char> = Vec::new();
    push_text(&mut out, "You have earned ");
    push_text(&mut out, item_name);
    push_text(&mut out, ".");
    chars_text(&out)
}

/// The message for an item a party member earned.
pub fn member_earned_message(member_name: &str, item_name: &str) -> (r: String)
    ensures
        r@ == member_name@ + " has earned "@ + item_name@ + "."@,
{
    let mut out: Vec<char> = Vec::new();
    push_text(&mut out, member_name);
    push_text(&mut out, " has earned ");
    push_text(&mut out, item_name);
    push_text(&mut out, ".");
    chars_text(&out)
}

/// The message for an entity the player killed.
pub fn hunting_message(name: &str) -> (r: String)
    ensures
        r@ == "You have succeeded in hunting "@ + name@,
{
    let mut out: Vec<char> = Vec::new();
    push_text(&mut out, "You have succeeded in hunting ");
    push_text(&mut out, name);
    chars_text(&out)
}

/// The message for an ability value the server changes by an amount (`value`), with the
/// ability's name.
pub fn ability_add_message(ability_name: &str, value: i32) -> (r: String)
    requires
        value != i32::MIN,
    ensures
        r@ == "Ability "@ + ability_name@ + " has "@ + (if value < 0 {
            "decreased"@
        } else {
            "increased"@
        }) + " by "@ + spec_decimal_chars(
            if value < 0 {
                -value
            } else {
                value as int
            } as nat,
        ) + "."@,
{
    let mut out: Vec<char> = Vec::new();
    push_text(&mut out, "Ability ");
    push_text(&mut out, ability_name);
    push_text(&mut out, " has ");
    if value < 0 {
        push_text(&mut out, "decreased");
    } else {
        push_text(&mut out, "increased");
    }
    push_text(&mut out, " by ");
    let magnitude: i32 = if value < 0 {
        -value
    } else {
        value
    };
    push_decimal(&mut out, magnitude as u64);
    push_text(&mut out, ".");
    chars_text(&out)
}

/// The message for an ability value the server sets, with the ability's name.
pub fn ability_set_message(ability_name: &str, value: i32) -> (r: String)
    ensures
        r@ == "Ability "@ + ability_name@ + " has been changed to "@ + spec_signed_decimal_chars(
            value as int,
        ) + "."@,
{
    let mut out: Vec<char> = Vec::new();
    push_text(&mut out, "Ability ");
    push_text(&mut out, ability_name);
    push_text(&mut out, " has been changed to ");
    push_signed_decimal(&mut out, value as i64);
    push_text(&mut out, ".");
    chars_text(&out)
}

/// Why an item drop could not be picked up.
#[derive(Copy, Clone, Debug, PartialEq, Eq, Structural)]
pub enum PickupItemDropError {
    NotExist,
    NoPermission,
    InventoryFull,
}

/// The message for an item drop that could not be picked up; none where it is gone.
pub fn pickup_error_message(error: PickupItemDropError) -> (r: Option<String>)
    ensures
        match error {
            PickupItemDropError::InventoryFull => r matches Some(m) && m@
                == "Cannot pickup item, inventory full."@,
            PickupItemDropError::NoPermission => r matches Some(m) && m@
                == "Cannot pickup item, it does not belong to you."@,
            PickupItemDropError::NotExist => r is None,
        },
{
    match error {
        PickupItemDropError::InventoryFull => Some("Cannot pickup item, inventory full.".to_owned()),
        PickupItemDropError::NoPermission => Some(
            "Cannot pickup item, it does not belong to you.".to_owned(),
        ),
        PickupItemDropError::NotExist => None,
    }
}

/// Why learning a skill failed.
#[derive(Copy, Clone, Debug, PartialEq, Eq, Structural)]
pub enum LearnSkillError {
    AlreadyLearnt,
    JobRequirement,
    SkillRequirement,
    AbilityRequirement,
    Full,
    InvalidSkillId,
    SkillPointRequirement,
}

/// The text for a skill that could not be learnt.
pub open spec fn spec_learn_skill_error_text(error: LearnSkillError) -> Seq<char> {
    match error {
        LearnSkillError::AlreadyLearnt => "Failed to learn skill, you already know it."@,
        LearnSkillError::JobRequirement => "Failed to learn skill, you do not satisfy the job requirement."@,
        LearnSkillError::SkillRequirement => "Failed to learn skill, you do not satisfy the skill requirement."@,
        LearnSkillError::AbilityRequirement =>
            "Failed to learn skill, you do not satisfy the ability requirement."@,
        LearnSkillError::Full => "Failed to learn skill, you have too many skills."@,
        LearnSkillError::InvalidSkillId => "Failed to learn skill, invalid skill."@,
        LearnSkillError::SkillPointRequirement => "Failed to learn skill, not enough skill points."@,
    }
}

/// The message for a skill that could not be learnt.
pub fn learn_skill_error_message(error: LearnSkillError) -> (r: String)
    ensures
        r@ == spec_learn_skill_error_text(error),
{
    match error {
        LearnSkillError::AlreadyLearnt => "Failed to learn skill, you already know it.".to_owned(),
        LearnSkillError::JobRequirement =>
            "Failed to learn skill, you do not satisfy the job requirement.".to_owned(),
        LearnSkillError::SkillRequirement =>
            "Failed to learn skill, you do not satisfy the skill requirement.".to_owned(),
        LearnSkillError::AbilityRequirement =>
            "Failed to learn skill, you do not satisfy the ability requirement.".to_owned(),
        LearnSkillError::Full => "Failed to learn skill, you have too many skills.".to_owned(),
        LearnSkillError::InvalidSkillId => "Failed to learn skill, invalid skill.".to_owned(),
        LearnSkillError::SkillPointRequirement =>
            "Failed to learn skill, not enough skill points.".to_owned(),
    }
}

/// Why levelling up a skill failed.
#[derive(Copy, Clone, Debug, PartialEq, Eq, Structural)]
pub enum LevelUpSkillError {
    Failed,
    JobRequirement,
    SkillRequirement,
    AbilityRequirement,
    MoneyRequirement,
    SkillPointRequirement,
}

/// The text for a skill that could not be levelled up.
pub open spec fn spec_level_up_skill_error_text(error: LevelUpSkillError) -> Seq<char> {
    match error {
        LevelUpSkillError::Failed => "Failed to level up skill."@,
        LevelUpSkillError::JobRequirement => "Failed to level up skill, you do not satisfy the job requirement."@,
        LevelUpSkillError::SkillRequirement =>
            "Failed to level up skill, you do not satisfy the skill requirement."@,
        LevelUpSkillError::AbilityRequirement =>
            "Failed to level up skill, you do not satisfy the ability requirement."@,
        LevelUpSkillError::MoneyRequirement => "Failed to level up skill, not enough money."@,
        LevelUpSkillError::SkillPointRequirement => "Failed to level up skill, not enough skill points."@,
    }
}

/// The message for a skill that could not be levelled up.
pub fn level_up_skill_error_message(error: LevelUpSkillError) -> (r: String)
    ensures
        r@ == spec_level_up_skill_error_text(error),
{
    match error {
        LevelUpSkillError::Failed => "Failed to level up skill.".to_owned(),
        LevelUpSkillError::JobRequirement =>
            "Failed to level up skill, you do not satisfy the job requirement.".to_owned(),
        LevelUpSkillError::SkillRequirement =>
            "Failed to level up skill, you do not satisfy the skill requirement.".to_owned(),
        LevelUpSkillError::AbilityRequirement =>
            "Failed to level up skill, you do not satisfy the ability requirement.".to_owned(),
        LevelUpSkillError::MoneyRequirement => "Failed to level up skill, not enough money.".to_owned(),
        LevelUpSkillError::SkillPointRequirement =>
            "Failed to level up skill, not enough skill points.".to_owned(),
    }
}

/// How a transaction with a personal store went.
#[derive(Copy, Clone, Debug, PartialEq, Eq, Structural)]
pub enum PersonalStoreTransactionStatus {
    Cancelled,
    SoldOut,
    NoMoreNeed,
    BoughtFromStore,
    SoldToStore,
}

/// Which list of a personal store a transaction updates: the items it sells or those it
/// buys.
#[derive(Copy, Clone, Debug, PartialEq, Eq, Structural)]
pub enum PersonalStoreListUpdate {
    SellList,
    BuyList,
}

/// The list of a personal store that a transaction updates, where the server sends items
/// for it: none for a cancelled one.
pub fn personal_store_list_update(status: PersonalStoreTransactionStatus, has_items: bool) -> (r: Option<PersonalStoreListUpdate>)
    ensures
        r == if !has_items {
            None
        } else {
            match status {
                PersonalStoreTransactionStatus::Cancelled => None,
                PersonalStoreTransactionStatus::SoldOut
                | PersonalStoreTransactionStatus::BoughtFromStore => Some(PersonalStoreListUpdate::SellList),
                PersonalStoreTransactionStatus::NoMoreNeed
                | PersonalStoreTransactionStatus::SoldToStore => Some(PersonalStoreListUpdate::BuyList),
            }
        },
{
    if !has_items {
        return None;
    }
    match status {
        PersonalStoreTransactionStatus::Cancelled => None,
        PersonalStoreTransactionStatus::SoldOut | PersonalStoreTransactionStatus::BoughtFromStore => Some(
            PersonalStoreListUpdate::SellList,
        ),
        PersonalStoreTransactionStatus::NoMoreNeed | PersonalStoreTransactionStatus::SoldToStore => Some(
            PersonalStoreListUpdate::BuyList,
        ),
    }
}

/// The message for a transaction with a personal store that failed.
pub fn personal_store_transaction_message(status: PersonalStoreTransactionStatus) -> (r: Option<String>)
    ensures
        match status {
            PersonalStoreTransactionStatus::Cancelled => r matches Some(m) && m@
                == "Transaction failed."@,
            PersonalStoreTransactionStatus::SoldOut => r matches Some(m) && m@
                == "Transaction failed. Item has sold out."@,
            PersonalStoreTransactionStatus::NoMoreNeed => r matches Some(m) && m@
                == "Transaction failed. Item is no longer wanted."@,
            _ => r is None,
        },
{
    match status {
        PersonalStoreTransactionStatus::Cancelled => Some("Transaction failed.".to_owned()),
        PersonalStoreTransactionStatus::SoldOut => Some(
            "Transaction failed. Item has sold out.".to_owned(),
        ),
        PersonalStoreTransactionStatus::NoMoreNeed => Some(
            "Transaction failed. Item is no longer wanted.".to_owned(),
        ),
        _ => None,
    }
}

/// How many of an item a transaction with a personal store moved, from the quantity in the
/// inventory slot the server sends and the quantity the slot held before (each as an
/// `i32`): their difference where both are there, else the one that is.
pub fn transaction_quantity(from_server: Option<u32>, held_before: Option<u32>) -> (r: i32)
    requires
        match (from_server, held_before) {
            (Some(t), Some(i)) => i32::MIN <= (t as i32) - (i as i32) <= i32::MAX,
            _ => true,
        },
    ensures
        r as int == match (from_server, held_before) {
            (Some(t), Some(i)) => (t as i32) - (i as i32),
            (None, Some(i)) => (i as i32) as int,
            (Some(t), None) => (t as i32) as int,
            (None, None) => 0,
        },
{
    match (from_server, held_before) {
        (Some(t), Some(i)) => (t as i32) - (i as i32),
        (None, Some(i)) => i as i32,
        (Some(t), None) => t as i32,
        (None, None) => 0,
    }
}

/// The message for a transaction with a personal store that went through: what was bought
/// (money went down) or sold, how many where more than one, and for how much.
pub fn transaction_message(price: i64, quantity: i32, item_name: &str) -> (r: String)
    requires
        price != i64::MIN,
    ensures
        r@ == "You have "@ + (if price < 0 {
            "purchased"@
        } else {
            "sold"@
        }) + " "@ + (if quantity > 1 {
            spec_signed_decimal_chars(quantity as int) + "x "@
        } else {
            Seq::empty()
        }) + item_name@ + " for "@ + spec_decimal_chars(
            if price < 0 {
                -price
            } else {
                price as int
            } as nat,
        ) + " Zuly."@,
{
    let mut out: Vec<char> = Vec::new();
    push_text(&mut out, "You have ");
    if price < 0 {
        push_text(&mut out, "purchased");
    } else {
        push_text(&mut out, "sold");
    }
    push_text(&mut out, " ");
    let ghost before_quantity = out@;
    if quantity > 1 {
        push_signed_decimal(&mut out, quantity as i64);
        push_text(&mut out, "x ");
    }
    assert(out@ =~= before_quantity + (if quantity > 1 {
        spec_signed_decimal_chars(quantity as int) + "x "@
    } else {
        Seq::empty()
    }));
    push_text(&mut out, item_name);
    push_text(&mut out, " for ");
    let magnitude: i64 = if price < 0 {
        -price
    } else {
        price
    };
    push_decimal(&mut out, magnitude as u64);
    push_text(&mut out, " Zuly.");
    chars_text(&out)
}

/// The change of the player's money in a transaction: the new amount less the old.
pub fn transaction_price(new_money: i64, old_money: i64) -> (r: i64)
    requires
        i64::MIN <= new_money - old_money <= i64::MAX,
    ensures
        r == new_money - old_money,
{
    new_money - old_money
}

/// How a client gaining a level is handled.
#[derive(Copy, Clone, Debug, PartialEq, Eq, Structural)]
pub enum LevelUpHandling {
    /// Nothing to do: the entity is unknown, or it is the player's character (whose level
    /// comes in a message of its own that the server sends besides this one).
    Ignore,
    /// The entity gains a level and its health and mana are refilled.
    LevelUp(u64),
}

/// How a message that an entity gained a level is handled (see `LevelUpHandling`).
pub fn level_up_entity_handling(client_entity_list: &ClientEntityList, entity_id: usize) -> (r: LevelUpHandling)
    ensures
        r == if client_entity_list.player_entity_id == Some(entity_id) {
            LevelUpHandling::Ignore
        } else {
            match spec_client_entity(client_entity_list.client_entities@, entity_id) {
                Some(e) => LevelUpHandling::LevelUp(e),
                None => LevelUpHandling::Ignore,
            }
        },
{
    if client_entity_list.player_entity_id == Some(entity_id) {
        LevelUpHandling::Ignore
    } else {
        match client_entity_list.get(entity_id) {
            Some(e) => LevelUpHandling::LevelUp(e),
            None => LevelUpHandling::Ignore,
        }
    }
}

/// The level after gaining one.
pub fn next_level(level: u32) -> (r: u32)
    requires
        level < u32::MAX,
    ensures
        r == level + 1,
{
    level + 1
}

/// The health and mana points after a level is gained: both go back to their maxima for
/// the new level.
pub fn level_up_points(max_health: i32, max_mana: i32) -> (r: (i32, i32))
    ensures
        r.0 == max_health,
        r.1 == max_mana,
{
    (max_health, max_mana)
}

} // verus!

use vstd::prelude::*;

use crate::bank::{spec_bank_indices_fit, spec_bank_update, Bank, BANK_SLOTS};
use crate::party::{PartyItemSharing, PartyMemberInfo, PartyMemberInfoOnline, PartyOwner, PartyXpSharing};
use crate::systems::command_system::{Command, MoveMode};
use crate::systems::game_connection_system::{
    killed_by_player, learn_skill_error_message, level_up_entity_handling, level_up_skill_error_message,
    money_earned_message, spec_client_entity, spec_learn_skill_error_text, spec_level_up_skill_error_text,
    spec_teleport_despawns, spec_to_next_command, to_next_command, SpawnCommandState,
    BasicStatType, ClientEntityList, LearnSkillError, LevelUpHandling, LevelUpSkillError, PickupItemDropError,
};
use crate::systems::game_ui_system::ChatboxEvent;
use crate::systems::hit_event_system::{Damage, PendingDamage};
use crate::text::spec_signed_decimal_chars;

verus! {

/// The messages of the game server whose handling the library decides, with the values it
/// reads of them (`P` is a position, `I` an item). `Unimplemented` stands for the messages
/// the client does not act on yet (gem crafting, repairs, logout, return to character
/// select, the start of a cast), `Unexpected` for those of the login and world servers;
/// `Other` for the messages that only copy values into components of the world (spawns,
/// inventory and equipment, ability values, status effects, hotbar, clan, personal stores).
#[derive(Debug)]
pub enum ServerMessage<P, I> {
    ConnectionRequestSuccess,
    ConnectionRequestError,
    MoveEntity { entity_id: usize, target_entity_id: Option<usize>, position: P, move_mode: Option<MoveMode> },
    AdjustPosition { entity_id: usize, position: P },
    StopMoveEntity { entity_id: usize },
    AttackEntity { entity_id: usize, target_entity_id: usize },
    RemoveEntities { entity_ids: Vec<usize> },
    DamageEntity {
        attacker_entity_id: usize,
        defender_entity_id: usize,
        damage: Damage,
        is_killed: bool,
        is_immediate: bool,
        from_skill: Option<(u16, i32)>,
    },
    Teleport { zone_id: u16, position: P },
    LocalChat { entity_id: usize, text: String },
    ShoutChat { name: String, text: String },
    Whisper { from: String, text: String },
    AnnounceChat { name: Option<String>, text: String },
    UpdateLevel { entity_id: usize, level: u32 },
    LevelUpEntity { entity_id: usize },
    UpdateMoney { money: i64 },
    MoveToggle { entity_id: usize, move_mode: MoveMode },
    ChangeNpcId { entity_id: usize, npc_id: u16 },
    PickupDropError { error: PickupItemDropError },
    QuestTriggerResult { success: bool, trigger_hash: u32 },
    BankOpen,
    BankSetItems { items: Vec<(usize, Option<I>)> },
    BankUpdateItems { items: Vec<(usize, Option<I>)> },
    UpdateBasicStat { basic_stat_type: BasicStatType, value: i32 },
    PartyCreate { entity_id: usize },
    PartyInvite { entity_id: usize },
    PartyAcceptCreate { entity_id: usize },
    PartyAcceptInvite,
    PartyRejectInvite { entity_id: usize },
    PartyChangeOwner { entity_id: usize },
    PartyDelete,
    PartyMemberList { members: Vec<PartyMemberInfo>, item_sharing: PartyItemSharing, xp_sharing: PartyXpSharing },
    PartyMemberLeave { leaver_character_id: u32, owner_character_id: u32 },
    PartyMemberDisconnect { character_id: u32 },
    PartyMemberKicked { character_id: u32 },
    PartyMemberUpdateInfo { member_info: PartyMemberInfoOnline },
    PartyMemberRewardItem { client_entity_id: usize, item: I },
    PartyUpdateRules { item_sharing: PartyItemSharing, xp_sharing: PartyXpSharing },
    JoinZone { entity_id: usize, hp: i32 },
    SpawnEntity { entity_id: usize, kind: SpawnKind, command_state: SpawnCommandState<P> },
    SpawnItemDrop { entity_id: usize },
    UpdateXpStamina { xp: u64, stamina: u32 },
    PickupDropMoney { money: i64 },
    RewardMoney { money: i64 },
    QuestDeleteResult { success: bool, slot: usize, quest_id: u16 },
    RunNpcDeathTrigger { npc_id: u16 },
    LearnSkillSuccess { skill_slot: usize, skill_id: Option<u16>, skill_points: u32 },
    LearnSkillError { error: LearnSkillError },
    LevelUpSkillSuccess { skill_slot: usize, skill_id: u16, skill_points: u32 },
    LevelUpSkillError { error: LevelUpSkillError, skill_points: u32 },
    UseEmote { entity_id: usize, motion_id: u16, is_stop: bool },
    SitToggle { entity_id: usize },
    UpdateSpeed { entity_id: usize, run_speed: i32 },
    CancelCastingSkill { entity_id: usize },
    FinishCastingSkill { entity_id: usize, skill_id: u16 },
    Unimplemented,
    Unexpected,
    Other,
}

/// What kind of entity the server spawns.
#[derive(Copy, Clone, Debug, PartialEq, Eq, Structural)]
pub enum SpawnKind {
    Character,
    Npc,
    Monster,
}

/// The next command the server gives an entity: move (to a position, towards an entity,
/// in a move mode), stop, or attack an entity.
#[derive(Copy, Clone, Debug, PartialEq, Eq, Structural)]
pub enum NextCommand<P> {
    Move { position: P, target: Option<u64>, move_mode: Option<MoveMode> },
    Stop,
    Attack { target: u64 },
    Emote { motion_id: u16, is_stop: bool },
}

/// What handling a server message asks of the world.
#[derive(Debug)]
pub enum GameConnectionAction<P, I> {
    SetNextCommand { entity: u64, command: NextCommand<P> },
    Despawn { entity: u64 },
    /// Queue the damage on the defender; where the player killed it, say so in the chat
    /// box with its name (see `hunting_message`).
    PendingDamage { defender: u64, damage: PendingDamage, killed_by_player: bool },
    /// Put the player at a position and load a zone.
    Teleport { player: u64, position: P, zone_id: u16 },
    /// A line of the chat box said by an entity, under its name where it has one.
    SayFrom { entity: u64, text: String },
    Chat(ChatboxEvent),
    /// An entity gained a level (the new one, where the server gives it): show it, and
    /// refill its health and mana.
    LevelUp { entity: u64, level: Option<u32> },
    SetMoney { player: u64, money: i64 },
    SetMoveMode { entity: u64, move_mode: MoveMode },
    SetNpcId { entity: u64, npc_id: u16 },
    ApplyQuestRewards { trigger_hash: u32 },
    ShowBank,
    /// Give the player this bank.
    SetBank { player: u64, bank: Bank<I> },
    /// Set these slots of the player's bank, in order (see `Bank::update_items`).
    UpdateBankItems { player: u64, items: Vec<(usize, Option<I>)> },
    /// Set a basic stat of the player (see `BasicStats::update_basic_stat`).
    UpdateBasicStat { player: u64, basic_stat_type: BasicStatType, value: i32 },
    /// Someone asks the player to make (`create`) or join a party.
    PartyInvited { inviter: u64, create: bool },
    /// Say in the chat box that an entity accepted the player's invite, under its name.
    PartyInviteAccepted { entity: u64 },
    /// Say in the chat box that an entity rejected the player's invite, under its name.
    PartyInviteRejected { entity: u64 },
    /// Give the player a new, empty party with this owner.
    NewParty { player: u64, owner: PartyOwner },
    /// Say in the chat box that the player joined the party, under the player's name.
    JoinedParty { player: u64 },
    /// Take the player's party away.
    LeaveParty { player: u64 },
    /// The party has a new owner (see `PartyInfo::change_owner`).
    ChangePartyOwner { player: u64, entity_id: usize, is_player_owner: bool },
    /// Members joined the player's party, which is made with these rules where there is
    /// none (see `PartyInfo::add_members`).
    PartyMembers { player: u64, members: Vec<PartyMemberInfo>, item_sharing: PartyItemSharing, xp_sharing: PartyXpSharing },
    /// See `PartyInfo::member_leave`.
    PartyMemberLeave { player: u64, leaver_character_id: u32, owner_character_id: u32 },
    /// See `PartyInfo::member_disconnect`.
    PartyMemberDisconnect { player: u64, character_id: u32 },
    /// See `PartyInfo::member_kicked`.
    PartyMemberKicked { player: u64, character_id: u32 },
    /// A member's concentration and health go to its entity, where known, and its info to
    /// the player's party, where the player is known (see `PartyInfo::update_member_info`).
    UpdatePartyMember { member: Option<u64>, player: Option<u64>, member_info: PartyMemberInfoOnline },
    /// Say in the chat box that a member earned an item (see `member_earned_message`).
    PartyMemberRewarded { member: u64, item: I },
    /// See `PartyInfo::update_rules`.
    UpdatePartyRules { player: u64, item_sharing: PartyItemSharing, xp_sharing: PartyXpSharing },
    /// Set the player's stamina and experience points; where they rose, say by how much
    /// in the chat box (see `xp_earned_message`).
    UpdateXpStamina { player: u64, xp: u64, stamina: u32 },
    /// The player joins the zone, dead where it has no health left (it then has the die
    /// command and no next one), and the game starts where it has not.
    JoinZone { player: u64, dead: bool },
    /// Spawn an entity of a kind with this next command, and list it under its client
    /// entity id (see `ClientEntityList::add`).
    Spawn { entity_id: usize, kind: SpawnKind, next_command: Option<Command<P>> },
    /// Spawn a dropped item, and list it under its client entity id (dropped money is
    /// named by `money_drop_name`).
    SpawnItemDrop { entity_id: usize },
    /// Add money to the player's inventory, where it fits.
    AddMoney { player: u64, money: i64 },
    /// Clear a slot of the player's active quests where it holds this quest.
    DeleteQuest { player: u64, slot: usize, quest_id: u16 },
    /// Run the death trigger of an NPC, by its id.
    NpcDeathTrigger { npc_id: u16 },
    /// Set a slot of the player's skill list, where it has it.
    SetSkill { player: u64, skill_slot: usize, skill_id: Option<u16> },
    SetSkillPoints { player: u64, skill_points: u32 },
    /// The entity sits down or stands up (see `sit_toggle`).
    ToggleSit { entity: u64 },
    SetRunSpeed { entity: u64, run_speed: i32 },
    /// The entity stops casting a skill (see `cancel_casting_skill`).
    CancelCasting { entity: u64 },
    /// The skill the entity casts is ready (see `finish_casting_skill`).
    FinishCasting { entity: u64, skill_id: u16 },
}

/// The list with every entity forgotten.
pub open spec fn spec_cleared(entities: Seq<Option<u64>>) -> Seq<Option<u64>> {
    Seq::new(entities.len(), |i: int| None::<u64>)
}

/// The list with an entity under a client entity id: where the id is past the end, the
/// list grows, with no entity under the ids between.
pub open spec fn spec_added(entities: Seq<Option<u64>>, id: usize, entity: u64) -> Seq<Option<u64>> {
    if id < entities.len() {
        entities.update(id as int, Some(entity))
    } else {
        entities + Seq::new((id - entities.len()) as nat, |k: int| None::<u64>) + seq![Some(entity)]
    }
}

/// The list after each of `ids` is removed in order, and the entities to despawn: those
/// still listed when their id comes.
pub open spec fn spec_removed(entities: Seq<Option<u64>>, ids: Seq<usize>) -> (Seq<Option<u64>>, Seq<u64>)
    decreases ids.len(),
{
    if ids.len() == 0 {
        (entities, Seq::empty())
    } else {
        let (e, d) = spec_removed(entities, ids.drop_last());
        let id = ids.last();
        match spec_client_entity(e, id) {
            Some(x) => (e.update(id as int, None), d.push(x)),
            None => (e, d),
        }
    }
}

impl ClientEntityList {
    /// Forgets every entity and which client entity id is the player's; the player's
    /// entity itself stays, as the world keeps it.
    pub fn clear(&mut self)
        ensures
            final(self).client_entities@ == spec_cleared(old(self).client_entities@),
            final(self).player_entity == old(self).player_entity,
            final(self).player_entity_id is None,
    {
        let mut i: usize = 0;
        while i < self.client_entities.len()
            invariant
                i <= self.client_entities@.len(),
                self.client_entities@.len() == old(self).client_entities@.len(),
                self.player_entity == old(self).player_entity,
                forall|j: int| 0 <= j < i ==> self.client_entities@[j] is None,
            decreases self.client_entities.len() - i,
        {
            self.client_entities.set(i, None);
            i = i + 1;
        }
        assert(self.client_entities@ =~= spec_cleared(old(self).client_entities@));
        self.player_entity_id = None;
    }

    /// Lists an entity under a client entity id, the list growing to hold it.
    pub fn add(&mut self, id: usize, entity: u64)
        ensures
            final(self).client_entities@ == spec_added(old(self).client_entities@, id, entity),
            final(self).player_entity == old(self).player_entity,
            final(self).player_entity_id == old(self).player_entity_id,
    {
        if id < self.client_entities.len() {
            self.client_entities.set(id, Some(entity));
        } else {
            while self.client_entities.len() < id
                invariant
                    old(self).client_entities@.len() <= self.client_entities@.len() <= id,
                    self.player_entity == old(self).player_entity,
                    self.player_entity_id == old(self).player_entity_id,
                    self.client_entities@ == old(self).client_entities@ + Seq::new(
                        (self.client_entities@.len() - old(self).client_entities@.len()) as nat,
                        |k: int| None::<u64>,
                    ),
                decreases id - self.client_entities.len(),
            {
                self.client_entities.push(None);
                assert(self.client_entities@ =~= old(self).client_entities@ + Seq::new(
                    (self.client_entities@.len() - old(self).client_entities@.len()) as nat,
                    |k: int| None::<u64>,
                ));
            }
            self.client_entities.push(Some(entity));
            assert(self.client_entities@ =~= spec_added(old(self).client_entities@, id, entity));
        }
    }

    /// Forgets the entity with a client entity id.
    pub fn remove(&mut self, id: usize)
        ensures
            final(self).client_entities@ == if id < old(self).client_entities@.len() {
                old(self).client_entities@.update(id as int, None)
            } else {
                old(self).client_entities@
            },
            final(self).player_entity == old(self).player_entity,
            final(self).player_entity_id == old(self).player_entity_id,
    {
        if id < self.client_entities.len() {
            self.client_entities.set(id, None);
        }
    }
}

/// Whether handling a message leaves the list of entities as it was.
pub open spec fn spec_keeps_list<P, I>(message: ServerMessage<P, I>) -> bool {
    !(message is ConnectionRequestSuccess || message is RemoveEntities || message is Teleport || message is JoinZone)
}

/// One action, or none, as the entity is known or not.
pub open spec fn spec_for_entity<P, I>(entity: Option<u64>, action: spec_fn(u64) -> GameConnectionAction<P, I>) -> Seq<GameConnectionAction<P, I>> {
    match entity {
        Some(e) => seq![action(e)],
        None => Seq::empty(),
    }
}

/// A system line of the chat box.
pub open spec fn spec_system_line<P, I>(a: Seq<GameConnectionAction<P, I>>, text: Seq<char>) -> bool {
    a.len() == 1 && (a[0] matches GameConnectionAction::Chat(ChatboxEvent::System(m)) && m@ == text)
}

/// Whether handling a message writes a line in the chat box; those lines are stated apart
/// from `spec_message_actions`.
pub open spec fn spec_says_in_chat<P, I>(message: ServerMessage<P, I>) -> bool {
    ||| message is PickupDropError
    ||| message is PartyDelete
    ||| message is PickupDropMoney
    ||| message is RewardMoney
    ||| message is LearnSkillError
    ||| message is LevelUpSkillError
}

/// The money a message gives the player.
pub open spec fn spec_money<P, I>(message: ServerMessage<P, I>) -> i64 {
    match message {
        ServerMessage::PickupDropMoney { money } => money,
        ServerMessage::RewardMoney { money } => money,
        _ => 0,
    }
}

/// What handling a message asks of the world, in order, from the list of entities (the
/// entities by client entity id, the player's entity and client entity id) before it.
/// The messages that write in the chat box (`spec_says_in_chat`) are stated apart.
pub open spec fn spec_message_actions<P, I>(
    entities: Seq<Option<u64>>,
    player_entity: Option<u64>,
    player_id: Option<usize>,
    message: ServerMessage<P, I>,
) -> Seq<GameConnectionAction<P, I>> {
    let entity = |id: usize| spec_client_entity(entities, id);
    match message {
        ServerMessage::MoveEntity { entity_id, target_entity_id, position, move_mode } => spec_for_entity(
            entity(entity_id),
            |e: u64|
                GameConnectionAction::SetNextCommand {
                    entity: e,
                    command: NextCommand::Move {
                        position,
                        target: match target_entity_id {
                            Some(t) => entity(t),
                            None => None,
                        },
                        move_mode,
                    },
                },
        ),
        ServerMessage::AdjustPosition { entity_id, position } => spec_for_entity(
            entity(entity_id),
            |e: u64|
                GameConnectionAction::SetNextCommand {
                    entity: e,
                    command: NextCommand::Move { position, target: None, move_mode: None },
                },
        ),
        ServerMessage::StopMoveEntity { entity_id } => spec_for_entity(
            entity(entity_id),
            |e: u64| GameConnectionAction::SetNextCommand { entity: e, command: NextCommand::Stop },
        ),
        ServerMessage::AttackEntity { entity_id, target_entity_id } => match entity(target_entity_id) {
            Some(t) => spec_for_entity(
                entity(entity_id),
                |e: u64| GameConnectionAction::SetNextCommand { entity: e, command: NextCommand::Attack { target: t } },
            ),
            None => Seq::empty(),
        },
        ServerMessage::RemoveEntities { entity_ids } => spec_removed(entities, entity_ids@).1.map_values(
            |x: u64| GameConnectionAction::Despawn { entity: x },
        ),
        ServerMessage::DamageEntity {
            attacker_entity_id,
            defender_entity_id,
            damage,
            is_killed,
            is_immediate,
            from_skill,
        } => spec_for_entity(
            entity(defender_entity_id),
            |d: u64|
                GameConnectionAction::PendingDamage {
                    defender: d,
                    damage: PendingDamage {
                        attacker: attacker_entity_id,
                        damage,
                        is_kill: is_killed,
                        is_immediate,
                        from_skill,
                    },
                    killed_by_player: is_killed && player_entity == entity(attacker_entity_id),
                },
        ),
        ServerMessage::Teleport { zone_id, position } => match player_entity {
            Some(p) => seq![GameConnectionAction::Teleport { player: p, position, zone_id }]
                + spec_teleport_despawns(entities, player_id).map_values(
                |x: u64| GameConnectionAction::Despawn { entity: x },
            ),
            None => Seq::empty(),
        },
        ServerMessage::LocalChat { entity_id, text } => spec_for_entity(
            entity(entity_id),
            |e: u64| GameConnectionAction::SayFrom { entity: e, text },
        ),
        ServerMessage::ShoutChat { name, text } => seq![GameConnectionAction::Chat(ChatboxEvent::Shout(name, text))],
        ServerMessage::Whisper { from, text } => seq![GameConnectionAction::Chat(ChatboxEvent::Whisper(from, text))],
        ServerMessage::AnnounceChat { name, text } => seq![
            GameConnectionAction::Chat(ChatboxEvent::Announce(name, text)),
        ],
        ServerMessage::UpdateLevel { entity_id, level } => spec_for_entity(
            entity(entity_id),
            |e: u64| GameConnectionAction::LevelUp { entity: e, level: Some(level) },
        ),
        ServerMessage::LevelUpEntity { entity_id } => if player_id == Some(entity_id) {
            Seq::empty()
        } else {
            spec_for_entity(entity(entity_id), |e: u64| GameConnectionAction::LevelUp { entity: e, level: None })
        },
        ServerMessage::UpdateMoney { money } => spec_for_entity(
            player_entity,
            |p: u64| GameConnectionAction::SetMoney { player: p, money },
        ),
        ServerMessage::MoveToggle { entity_id, move_mode } => spec_for_entity(
            entity(entity_id),
            |e: u64| GameConnectionAction::SetMoveMode { entity: e, move_mode },
        ),
        ServerMessage::ChangeNpcId { entity_id, npc_id } => spec_for_entity(
            entity(entity_id),
            |e: u64| GameConnectionAction::SetNpcId { entity: e, npc_id },
        ),
        ServerMessage::QuestTriggerResult { success, trigger_hash } => if success {
            seq![GameConnectionAction::ApplyQuestRewards { trigger_hash }]
        } else {
            Seq::empty()
        },
        ServerMessage::BankOpen => seq![GameConnectionAction::ShowBank],
        ServerMessage::BankUpdateItems { items } => spec_for_entity(
            player_entity,
            |p: u64| GameConnectionAction::UpdateBankItems { player: p, items },
        ),
        ServerMessage::UpdateBasicStat { basic_stat_type, value } => spec_for_entity(
            player_entity,
            |p: u64| GameConnectionAction::UpdateBasicStat { player: p, basic_stat_type, value },
        ),
        ServerMessage::PartyCreate { entity_id } => spec_for_entity(
            entity(entity_id),
            |e: u64| GameConnectionAction::PartyInvited { inviter: e, create: true },
        ),
        ServerMessage::PartyInvite { entity_id } => spec_for_entity(
            entity(entity_id),
            |e: u64| GameConnectionAction::PartyInvited { inviter: e, create: false },
        ),
        ServerMessage::PartyAcceptCreate { entity_id } => spec_for_entity(
            entity(entity_id),
            |e: u64| GameConnectionAction::PartyInviteAccepted { entity: e },
        ) + spec_for_entity(
            player_entity,
            |p: u64| GameConnectionAction::NewParty { player: p, owner: PartyOwner::Player },
        ),
        ServerMessage::PartyAcceptInvite => match player_entity {
            Some(p) => seq![
                GameConnectionAction::NewParty { player: p, owner: PartyOwner::Unknown },
                GameConnectionAction::JoinedParty { player: p },
            ],
            None => Seq::empty(),
        },
        ServerMessage::PartyRejectInvite { entity_id } => spec_for_entity(
            entity(entity_id),
            |e: u64| GameConnectionAction::PartyInviteRejected { entity: e },
        ),
        ServerMessage::PartyChangeOwner { entity_id } => spec_for_entity(
            player_entity,
            |p: u64|
                GameConnectionAction::ChangePartyOwner {
                    player: p,
                    entity_id,
                    is_player_owner: player_id == Some(entity_id),
                },
        ),
        ServerMessage::PartyMemberList { members, item_sharing, xp_sharing } => spec_for_entity(
            player_entity,
            |p: u64| GameConnectionAction::PartyMembers { player: p, members, item_sharing, xp_sharing },
        ),
        ServerMessage::PartyMemberLeave { leaver_character_id, owner_character_id } => spec_for_entity(
            player_entity,
            |p: u64| GameConnectionAction::PartyMemberLeave { player: p, leaver_character_id, owner_character_id },
        ),
        ServerMessage::PartyMemberDisconnect { character_id } => spec_for_entity(
            player_entity,
            |p: u64| GameConnectionAction::PartyMemberDisconnect { player: p, character_id },
        ),
        ServerMessage::PartyMemberKicked { character_id } => spec_for_entity(
            player_entity,
            |p: u64| GameConnectionAction::PartyMemberKicked { player: p, character_id },
        ),
        ServerMessage::PartyMemberUpdateInfo { member_info } => {
            let member = entity(member_info.entity_id);
            if member is Some || player_entity is Some {
                seq![GameConnectionAction::UpdatePartyMember { member, player: player_entity, member_info }]
            } else {
                Seq::empty()
            }
        },
        ServerMessage::PartyMemberRewardItem { client_entity_id, item } => spec_for_entity(
            entity(client_entity_id),
            |e: u64| GameConnectionAction::PartyMemberRewarded { member: e, item },
        ),
        ServerMessage::PartyUpdateRules { item_sharing, xp_sharing } => spec_for_entity(
            player_entity,
            |p: u64| GameConnectionAction::UpdatePartyRules { player: p, item_sharing, xp_sharing },
        ),
        ServerMessage::JoinZone { entity_id, hp } => spec_for_entity(
            player_entity,
            |p: u64| GameConnectionAction::JoinZone { player: p, dead: hp <= 0 },
        ),
        ServerMessage::SpawnEntity { entity_id, kind, command_state } => seq![
            GameConnectionAction::Spawn {
                entity_id,
                kind,
                next_command: spec_to_next_command(command_state, entities),
            },
        ],
        ServerMessage::SpawnItemDrop { entity_id } => seq![GameConnectionAction::SpawnItemDrop { entity_id }],
        ServerMessage::UpdateXpStamina { xp, stamina } => spec_for_entity(
            player_entity,
            |p: u64| GameConnectionAction::UpdateXpStamina { player: p, xp, stamina },
        ),
        ServerMessage::QuestDeleteResult { success, slot, quest_id } => if success {
            spec_for_entity(player_entity, |p: u64| GameConnectionAction::DeleteQuest { player: p, slot, quest_id })
        } else {
            Seq::empty()
        },
        ServerMessage::RunNpcDeathTrigger { npc_id } => seq![GameConnectionAction::NpcDeathTrigger { npc_id }],
        ServerMessage::LearnSkillSuccess { skill_slot, skill_id, skill_points } => match player_entity {
            Some(p) => seq![
                GameConnectionAction::SetSkill { player: p, skill_slot, skill_id },
                GameConnectionAction::SetSkillPoints { player: p, skill_points },
            ],
            None => Seq::empty(),
        },
        ServerMessage::LevelUpSkillSuccess { skill_slot, skill_id, skill_points } => match player_entity {
            Some(p) => seq![
                GameConnectionAction::SetSkillPoints { player: p, skill_points },
                GameConnectionAction::SetSkill { player: p, skill_slot, skill_id: Some(skill_id) },
            ],
            None => Seq::empty(),
        },
        ServerMessage::UseEmote { entity_id, motion_id, is_stop } => spec_for_entity(
            entity(entity_id),
            |e: u64| GameConnectionAction::SetNextCommand { entity: e, command: NextCommand::Emote { motion_id, is_stop } },
        ),
        ServerMessage::SitToggle { entity_id } => spec_for_entity(
            entity(entity_id),
            |e: u64| GameConnectionAction::ToggleSit { entity: e },
        ),
        ServerMessage::UpdateSpeed { entity_id, run_speed } => spec_for_entity(
            entity(entity_id),
            |e: u64| GameConnectionAction::SetRunSpeed { entity: e, run_speed },
        ),
        ServerMessage::CancelCastingSkill { entity_id } => spec_for_entity(
            entity(entity_id),
            |e: u64| GameConnectionAction::CancelCasting { entity: e },
        ),
        ServerMessage::FinishCastingSkill { entity_id, skill_id } => spec_for_entity(
            entity(entity_id),
            |e: u64| GameConnectionAction::FinishCasting { entity: e, skill_id },
        ),
        _ => Seq::empty(),
    }
}

/// Where the player is known, says in the chat box how much money it earned and adds it.
fn push_money_earned<P, I>(actions: &mut Vec<GameConnectionAction<P, I>>, player_entity: Option<u64>, money: i64)
    requires
        old(actions)@.len() == 0,
    ensures
        match player_entity {
            Some(p) => final(actions)@.len() == 2 && spec_system_line(
                final(actions)@.take(1),
                "You have earned "@ + spec_signed_decimal_chars(money as int) + " Zuly."@,
            ) && final(actions)@[1] == GameConnectionAction::<P, I>::AddMoney { player: p, money },
            None => final(actions)@.len() == 0,
        },
{
    if let Some(player) = player_entity {
        actions.push(GameConnectionAction::Chat(ChatboxEvent::System(money_earned_message(money))));
        actions.push(GameConnectionAction::AddMoney { player, money });
        assert(actions@.take(1)[0] == actions@[0]);
    }
}

/// Handles a message of the game server: updates the list of entities and gives what to
/// do in the world, in order; `Err(())` where the connection is lost.
pub fn handle_server_message<P: Copy, I>(list: &mut ClientEntityList, message: ServerMessage<P, I>) -> (r: Result<Vec<GameConnectionAction<P, I>>, ()>)
    requires
        message matches ServerMessage::BankSetItems { items } ==> spec_bank_indices_fit(items@),
    ensures
        r is Err <==> message is ConnectionRequestError,
        spec_keeps_list(message) ==> final(list).client_entities@ == old(list).client_entities@
            && final(list).player_entity == old(list).player_entity && final(list).player_entity_id
            == old(list).player_entity_id,
        !spec_says_in_chat(message) && !(message is ConnectionRequestError) && !(message is BankSetItems)
            ==> (r matches Ok(a) && a@
            == spec_message_actions(
            old(list).client_entities@,
            old(list).player_entity,
            old(list).player_entity_id,
            message,
        )),
        message matches ServerMessage::PickupDropError { error } ==> r matches Ok(a) && match error {
            PickupItemDropError::InventoryFull => spec_system_line(a@, "Cannot pickup item, inventory full."@),
            PickupItemDropError::NoPermission => spec_system_line(
                a@,
                "Cannot pickup item, it does not belong to you."@,
            ),
            PickupItemDropError::NotExist => a@.len() == 0,
        },
        message matches ServerMessage::BankSetItems { items } ==> (r matches Ok(a) && match old(list).player_entity {
            Some(p) => a@.len() == 2 && (a@[0] matches GameConnectionAction::SetBank { player, bank } && player
                == p && bank.slots@ == spec_bank_update(Seq::new(BANK_SLOTS as nat, |k: int| None::<I>), items@))
                && a@[1] is ShowBank,
            None => a@.len() == 0,
        }),
        message is PartyDelete ==> (r matches Ok(a) && match old(list).player_entity {
            Some(p) => a@.len() == 2 && a@[0] == GameConnectionAction::<P, I>::LeaveParty { player: p }
                && spec_system_line(a@.drop_first(), "You have left the party."@),
            None => a@.len() == 0,
        }),
        (message is PickupDropMoney || message is RewardMoney) ==> (r matches Ok(a) && match old(list).player_entity {
            Some(p) => a@.len() == 2 && spec_system_line(a@.take(1), "You have earned "@ + spec_signed_decimal_chars(
                spec_money(message) as int,
            ) + " Zuly."@) && a@[1] == GameConnectionAction::<P, I>::AddMoney { player: p, money: spec_money(message) },
            None => a@.len() == 0,
        }),
        message matches ServerMessage::LearnSkillError { error } ==> (r matches Ok(a) && spec_system_line(
            a@,
            spec_learn_skill_error_text(error),
        )),
        message matches ServerMessage::LevelUpSkillError { error, skill_points } ==> (r matches Ok(a)
            && spec_system_line(a@.take(1), spec_level_up_skill_error_text(error)) && a@.drop_first()
            == spec_for_entity(
            old(list).player_entity,
            |p: u64| GameConnectionAction::<P, I>::SetSkillPoints { player: p, skill_points },
        )),
        message is ConnectionRequestSuccess ==> final(list).client_entities@ == spec_cleared(
            old(list).client_entities@,
        ) && final(list).player_entity == old(list).player_entity && final(list).player_entity_id is None,
        message matches ServerMessage::RemoveEntities { entity_ids } ==> final(list).client_entities@
            == spec_removed(old(list).client_entities@, entity_ids@).0 && final(list).player_entity
            == old(list).player_entity && final(list).player_entity_id == old(list).player_entity_id,
        message is Teleport ==> if old(list).player_entity is Some {
            final(list).client_entities@ == spec_cleared(old(list).client_entities@)
                && final(list).player_entity == old(list).player_entity && final(list).player_entity_id is None
        } else {
            final(list).client_entities@ == old(list).client_entities@ && final(list).player_entity
                == old(list).player_entity && final(list).player_entity_id == old(list).player_entity_id
        },
        message matches ServerMessage::JoinZone { entity_id, hp } ==> final(list).player_entity
            == old(list).player_entity && match old(list).player_entity {
            Some(p) => final(list).client_entities@ == spec_added(spec_cleared(old(list).client_entities@), entity_id, p)
                && final(list).player_entity_id == Some(entity_id),
            None => final(list).client_entities@ == old(list).client_entities@ && final(list).player_entity_id
                == old(list).player_entity_id,
        },
{
    let mut actions: Vec<GameConnectionAction<P, I>> = Vec::new();
    match message {
        ServerMessage::ConnectionRequestSuccess => {
            list.clear();
        },
        ServerMessage::ConnectionRequestError => {
            return Err(());
        },
        ServerMessage::MoveEntity { entity_id, target_entity_id, position, move_mode } => {
            if let Some(entity) = list.get(entity_id) {
                let target = match target_entity_id {
                    Some(t) => list.get(t),
                    None => None,
                };
                actions.push(
                    GameConnectionAction::SetNextCommand {
                        entity,
                        command: NextCommand::Move { position, target, move_mode },
                    },
                );
            }
        },
        ServerMessage::AdjustPosition { entity_id, position } => {
            if let Some(entity) = list.get(entity_id) {
                actions.push(
                    GameConnectionAction::SetNextCommand {
                        entity,
                        command: NextCommand::Move { position, target: None, move_mode: None },
                    },
                );
            }
        },
        ServerMessage::StopMoveEntity { entity_id } => {
            if let Some(entity) = list.get(entity_id) {
                actions.push(GameConnectionAction::SetNextCommand { entity, command: NextCommand::Stop });
            }
        },
        ServerMessage::AttackEntity { entity_id, target_entity_id } => {
            if let Some(entity) = list.get(entity_id) {
                if let Some(target) = list.get(target_entity_id) {
                    actions.push(
                        GameConnectionAction::SetNextCommand { entity, command: NextCommand::Attack { target } },
                    );
                }
            }
        },
        ServerMessage::RemoveEntities { entity_ids } => {
            let ghost start = list.client_entities@;
            let mut i: usize = 0;
            while i < entity_ids.len()
                invariant
                    i <= entity_ids@.len(),
                    list.player_entity == old(list).player_entity,
                    list.player_entity_id == old(list).player_entity_id,
                    start == old(list).client_entities@,
                    list.client_entities@ == spec_removed(start, entity_ids@.take(i as int)).0,
                    actions@ == spec_removed(start, entity_ids@.take(i as int)).1.map_values(
                        |x: u64| GameConnectionAction::<P, I>::Despawn { entity: x },
                    ),
                decreases entity_ids.len() - i,
            {
                let id = entity_ids[i];
                assert(entity_ids@.take(i + 1).drop_last() =~= entity_ids@.take(i as int));
                assert(entity_ids@.take(i + 1).last() == id);
                if let Some(entity) = list.get(id) {
                    list.remove(id);
                    actions.push(GameConnectionAction::Despawn { entity });
                }
                i = i + 1;
                assert(actions@ =~= spec_removed(start, entity_ids@.take(i as int)).1.map_values(
                    |x: u64| GameConnectionAction::<P, I>::Despawn { entity: x },
                ));
            }
            assert(entity_ids@.take(i as int) =~= entity_ids@);
        },
        ServerMessage::DamageEntity {
            attacker_entity_id,
            defender_entity_id,
            damage,
            is_killed,
            is_immediate,
            from_skill,
        } => {
            if let Some(defender) = list.get(defender_entity_id) {
                let killed = killed_by_player(list, attacker_entity_id, is_killed);
                actions.push(
                    GameConnectionAction::PendingDamage {
                        defender,
                        damage: PendingDamage {
                            attacker: attacker_entity_id,
                            damage,
                            is_kill: is_killed,
                            is_immediate,
                            from_skill,
                        },
                        killed_by_player: killed,
                    },
                );
            }
        },
        ServerMessage::Teleport { zone_id, position } => {
            if let Some(player) = list.player_entity {
                actions.push(GameConnectionAction::Teleport { player, position, zone_id });
                let despawns = list.teleport_despawns();
                let mut i: usize = 0;
                while i < despawns.len()
                    invariant
                        i <= despawns@.len(),
                        actions@ == seq![GameConnectionAction::Teleport { player, position, zone_id }]
                            + despawns@.take(i as int).map_values(
                            |x: u64| GameConnectionAction::<P, I>::Despawn { entity: x },
                        ),
                    decreases despawns.len() - i,
                {
                    actions.push(GameConnectionAction::Despawn { entity: despawns[i] });
                    i = i + 1;
                    assert(actions@ =~= seq![GameConnectionAction::Teleport { player, position, zone_id }]
                        + despawns@.take(i as int).map_values(
                        |x: u64| GameConnectionAction::<P, I>::Despawn { entity: x },
                    ));
                }
                assert(despawns@.take(i as int) =~= despawns@);
                list.clear();
            }
        },
        ServerMessage::LocalChat { entity_id, text } => {
            if let Some(entity) = list.get(entity_id) {
                actions.push(GameConnectionAction::SayFrom { entity, text });
            }
        },
        ServerMessage::ShoutChat { name, text } => {
            actions.push(GameConnectionAction::Chat(ChatboxEvent::Shout(name, text)));
        },
        ServerMessage::Whisper { from, text } => {
            actions.push(GameConnectionAction::Chat(ChatboxEvent::Whisper(from, text)));
        },
        ServerMessage::AnnounceChat { name, text } => {
            actions.push(GameConnectionAction::Chat(ChatboxEvent::Announce(name, text)));
        },
        ServerMessage::UpdateLevel { entity_id, level } => {
            if let Some(entity) = list.get(entity_id) {
                actions.push(GameConnectionAction::LevelUp { entity, level: Some(level) });
            }
        },
        ServerMessage::LevelUpEntity { entity_id } => {
            match level_up_entity_handling(list, entity_id) {
                LevelUpHandling::LevelUp(entity) => {
                    actions.push(GameConnectionAction::LevelUp { entity, level: None });
                },
                LevelUpHandling::Ignore => {},
            }
        },
        ServerMessage::UpdateMoney { money } => {
            if let Some(player) = list.player_entity {
                actions.push(GameConnectionAction::SetMoney { player, money });
            }
        },
        ServerMessage::MoveToggle { entity_id, move_mode } => {
            if let Some(entity) = list.get(entity_id) {
                actions.push(GameConnectionAction::SetMoveMode { entity, move_mode });
            }
        },
        ServerMessage::ChangeNpcId { entity_id, npc_id } => {
            if let Some(entity) = list.get(entity_id) {
                actions.push(GameConnectionAction::SetNpcId { entity, npc_id });
            }
        },
        ServerMessage::PickupDropError { error } => {
            if let Some(m) = crate::systems::game_connection_system::pickup_error_message(error) {
                actions.push(GameConnectionAction::Chat(ChatboxEvent::System(m)));
            }
        },
        ServerMessage::QuestTriggerResult { success, trigger_hash } => {
            if success {
                actions.push(GameConnectionAction::ApplyQuestRewards { trigger_hash });
            }
        },
        ServerMessage::BankOpen => {
            actions.push(GameConnectionAction::ShowBank);
        },
        ServerMessage::BankSetItems { items } => {
            if let Some(player) = list.player_entity {
                actions.push(GameConnectionAction::SetBank { player, bank: Bank::from_items(items) });
                actions.push(GameConnectionAction::ShowBank);
            }
        },
        ServerMessage::BankUpdateItems { items } => {
            if let Some(player) = list.player_entity {
                actions.push(GameConnectionAction::UpdateBankItems { player, items });
            }
        },
        ServerMessage::UpdateBasicStat { basic_stat_type, value } => {
            if let Some(player) = list.player_entity {
                actions.push(GameConnectionAction::UpdateBasicStat { player, basic_stat_type, value });
            }
        },
        ServerMessage::PartyCreate { entity_id } => {
            if let Some(inviter) = list.get(entity_id) {
                actions.push(GameConnectionAction::PartyInvited { inviter, create: true });
            }
        },
        ServerMessage::PartyInvite { entity_id } => {
            if let Some(inviter) = list.get(entity_id) {
                actions.push(GameConnectionAction::PartyInvited { inviter, create: false });
            }
        },
        ServerMessage::PartyAcceptCreate { entity_id } => {
            if let Some(entity) = list.get(entity_id) {
                actions.push(GameConnectionAction::PartyInviteAccepted { entity });
            }
            let ghost first = actions@;
            if let Some(player) = list.player_entity {
                actions.push(GameConnectionAction::NewParty { player, owner: PartyOwner::Player });
            }
            assert(actions@ =~= first + spec_for_entity(
                list.player_entity,
                |p: u64| GameConnectionAction::<P, I>::NewParty { player: p, owner: PartyOwner::Player },
            ));
        },
        ServerMessage::PartyAcceptInvite => {
            if let Some(player) = list.player_entity {
                actions.push(GameConnectionAction::NewParty { player, owner: PartyOwner::Unknown });
                actions.push(GameConnectionAction::JoinedParty { player });
            }
        },
        ServerMessage::PartyRejectInvite { entity_id } => {
            if let Some(entity) = list.get(entity_id) {
                actions.push(GameConnectionAction::PartyInviteRejected { entity });
            }
        },
        ServerMessage::PartyChangeOwner { entity_id } => {
            if let Some(player) = list.player_entity {
                let is_player_owner = list.player_entity_id == Some(entity_id);
                actions.push(GameConnectionAction::ChangePartyOwner { player, entity_id, is_player_owner });
            }
        },
        ServerMessage::PartyDelete => {
            if let Some(player) = list.player_entity {
                actions.push(GameConnectionAction::LeaveParty { player });
                actions.push(
                    GameConnectionAction::Chat(ChatboxEvent::System("You have left the party.".to_owned())),
                );
                assert(actions@.drop_first()[0] == actions@[1]);
            }
        },
        ServerMessage::PartyMemberList { members, item_sharing, xp_sharing } => {
            if let Some(player) = list.player_entity {
                actions.push(GameConnectionAction::PartyMembers { player, members, item_sharing, xp_sharing });
            }
        },
        ServerMessage::PartyMemberLeave { leaver_character_id, owner_character_id } => {
            if let Some(player) = list.player_entity {
                actions.push(
                    GameConnectionAction::PartyMemberLeave { player, leaver_character_id, owner_character_id },
                );
            }
        },
        ServerMessage::PartyMemberDisconnect { character_id } => {
            if let Some(player) = list.player_entity {
                actions.push(GameConnectionAction::PartyMemberDisconnect { player, character_id });
            }
        },
        ServerMessage::PartyMemberKicked { character_id } => {
            if let Some(player) = list.player_entity {
                actions.push(GameConnectionAction::PartyMemberKicked { player, character_id });
            }
        },
        ServerMessage::PartyMemberUpdateInfo { member_info } => {
            let member = list.get(member_info.entity_id);
            let player = list.player_entity;
            if member.is_some() || player.is_some() {
                actions.push(GameConnectionAction::UpdatePartyMember { member, player, member_info });
            }
        },
        ServerMessage::PartyMemberRewardItem { client_entity_id, item } => {
            if let Some(member) = list.get(client_entity_id) {
                actions.push(GameConnectionAction::PartyMemberRewarded { member, item });
            }
        },
        ServerMessage::PartyUpdateRules { item_sharing, xp_sharing } => {
            if let Some(player) = list.player_entity {
                actions.push(GameConnectionAction::UpdatePartyRules { player, item_sharing, xp_sharing });
            }
        },
        ServerMessage::JoinZone { entity_id, hp } => {
            if let Some(player) = list.player_entity {
                actions.push(GameConnectionAction::JoinZone { player, dead: hp <= 0 });
                list.clear();
                list.add(entity_id, player);
                list.player_entity_id = Some(entity_id);
            }
        },
        ServerMessage::SpawnEntity { entity_id, kind, command_state } => {
            let next_command = to_next_command(&command_state, list);
            actions.push(GameConnectionAction::Spawn { entity_id, kind, next_command });
        },
        ServerMessage::SpawnItemDrop { entity_id } => {
            actions.push(GameConnectionAction::SpawnItemDrop { entity_id });
        },
        ServerMessage::UpdateXpStamina { xp, stamina } => {
            if let Some(player) = list.player_entity {
                actions.push(GameConnectionAction::UpdateXpStamina { player, xp, stamina });
            }
        },
        ServerMessage::PickupDropMoney { money } => {
            push_money_earned(&mut actions, list.player_entity, money);
        },
        ServerMessage::RewardMoney { money } => {
            push_money_earned(&mut actions, list.player_entity, money);
        },
        ServerMessage::QuestDeleteResult { success, slot, quest_id } => {
            if success {
                if let Some(player) = list.player_entity {
                    actions.push(GameConnectionAction::DeleteQuest { player, slot, quest_id });
                }
            }
        },
        ServerMessage::RunNpcDeathTrigger { npc_id } => {
            actions.push(GameConnectionAction::NpcDeathTrigger { npc_id });
        },
        ServerMessage::LearnSkillSuccess { skill_slot, skill_id, skill_points } => {
            if let Some(player) = list.player_entity {
                actions.push(GameConnectionAction::SetSkill { player, skill_slot, skill_id });
                actions.push(GameConnectionAction::SetSkillPoints { player, skill_points });
            }
        },
        ServerMessage::LearnSkillError { error } => {
            actions.push(GameConnectionAction::Chat(ChatboxEvent::System(learn_skill_error_message(error))));
        },
        ServerMessage::LevelUpSkillSuccess { skill_slot, skill_id, skill_points } => {
            if let Some(player) = list.player_entity {
                actions.push(GameConnectionAction::SetSkillPoints { player, skill_points });
                actions.push(GameConnectionAction::SetSkill { player, skill_slot, skill_id: Some(skill_id) });
            }
        },
        ServerMessage::LevelUpSkillError { error, skill_points } => {
            actions.push(
                GameConnectionAction::Chat(ChatboxEvent::System(level_up_skill_error_message(error))),
            );
            if let Some(player) = list.player_entity {
                actions.push(GameConnectionAction::SetSkillPoints { player, skill_points });
            }
            assert(actions@.take(1)[0] == actions@[0]);
            assert(actions@.drop_first() =~= spec_for_entity(
                list.player_entity,
                |p: u64| GameConnectionAction::<P, I>::SetSkillPoints { player: p, skill_points },
            ));
        },
        ServerMessage::UseEmote { entity_id, motion_id, is_stop } => {
            if let Some(entity) = list.get(entity_id) {
                actions.push(
                    GameConnectionAction::SetNextCommand { entity, command: NextCommand::Emote { motion_id, is_stop } },
                );
            }
        },
        ServerMessage::SitToggle { entity_id } => {
            if let Some(entity) = list.get(entity_id) {
                actions.push(GameConnectionAction::ToggleSit { entity });
            }
        },
        ServerMessage::UpdateSpeed { entity_id, run_speed } => {
            if let Some(entity) = list.get(entity_id) {
                actions.push(GameConnectionAction::SetRunSpeed { entity, run_speed });
            }
        },
        ServerMessage::CancelCastingSkill { entity_id } => {
            if let Some(entity) = list.get(entity_id) {
                actions.push(GameConnectionAction::CancelCasting { entity });
            }
        },
        ServerMessage::FinishCastingSkill { entity_id, skill_id } => {
            if let Some(entity) = list.get(entity_id) {
                actions.push(GameConnectionAction::FinishCasting { entity, skill_id });
            }
        },
        ServerMessage::Unimplemented => {},
        ServerMessage::Unexpected => {},
        ServerMessage::Other => {},
    }
    Ok(actions)
}

} // verus!

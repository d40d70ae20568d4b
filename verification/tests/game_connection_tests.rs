use rose_offline_client::party::{
    PartyInfo, PartyItemSharing, PartyMemberInfo, PartyMemberInfoOnline, PartyOwner,
    PartyXpSharing,
};
use rose_offline_client::systems::command_system::{
    Command, CommandCastSkillState, CommandCastSkillTarget, CommandSit, MoveMode,
};
use rose_offline_client::systems::cooldown_system::{cooldown_system, Cooldowns};
use rose_offline_client::systems::game_connection_system::{
    level_up_entity_handling, level_up_points, next_level, LevelUpHandling,
    ability_add_message, ability_set_message, cancel_casting_skill, cast_skill_command,
    finish_casting_skill, hunting_message, item_earned_message, killed_by_player,
    learn_skill_error_message, level_up_skill_error_message, member_earned_message,
    money_earned_message, personal_store_list_update, personal_store_transaction_message,
    pickup_error_message, sit_toggle, subtract_stat_points, to_next_command,
    transaction_message, transaction_price, transaction_quantity, xp_earned_message,
    BasicStatType, BasicStats, ClientEntityList, LearnSkillError, LevelUpSkillError,
    PersonalStoreListUpdate, PersonalStoreTransactionStatus, PickupItemDropError,
    SpawnCommandState,
};
use rose_offline_client::systems::hit_event_system::{
    apply_damage, hit_effects, take_pending_damage, Damage, HitEffect, PendingDamage,
};

type Pos = (i32, i32);

fn list() -> ClientEntityList {
    ClientEntityList { client_entities: vec![None, Some(100), Some(101), None, Some(103)], player_entity: Some(100), player_entity_id: Some(1) }
}

fn online(id: u32, name: &str, entity: usize) -> PartyMemberInfo {
    PartyMemberInfo::Online(PartyMemberInfoOnline { character_id: id, name: name.to_string(), entity_id: entity })
}

#[test]
fn client_entity_list_lookups() {
    let l = list();
    assert_eq!(l.get(2), Some(101));
    assert_eq!(l.get(3), None);
    assert_eq!(l.get(99), None);
    assert_eq!(l.teleport_despawns(), vec![101, 103]);
}

#[test]
fn spawn_states_become_next_commands() {
    let l = list();
    let c = to_next_command::<Pos>(&SpawnCommandState::Move { target_position: (1, 1), target_entity_id: Some(2) }, &l);
    assert!(matches!(c, Some(Command::Move { destination: (1, 1), target: Some(101), move_mode: None })));
    let c = to_next_command::<Pos>(&SpawnCommandState::RunAway { target_position: (2, 2) }, &l);
    assert!(matches!(c, Some(Command::Move { destination: (2, 2), target: None, move_mode: Some(MoveMode::Run) })));
    assert!(matches!(to_next_command::<Pos>(&SpawnCommandState::Attack { target_entity_id: 4 }, &l), Some(Command::Attack { target: 103 })));
    assert!(to_next_command::<Pos>(&SpawnCommandState::Attack { target_entity_id: 3 }, &l).is_none());
    assert!(matches!(to_next_command::<Pos>(&SpawnCommandState::Sit, &l), Some(Command::Sit(CommandSit::Sitting))));
    assert!(matches!(to_next_command::<Pos>(&SpawnCommandState::Die, &l), Some(Command::Die)));
    assert!(to_next_command::<Pos>(&SpawnCommandState::Stop, &l).is_none());
}

#[test]
fn sit_toggle_sits_and_stands() {
    let mut next: Option<Command<Pos>> = None;
    sit_toggle(&Command::Stop, &mut next);
    assert!(matches!(next, Some(Command::Sit(CommandSit::Sitting))));
    let mut next: Option<Command<Pos>> = None;
    sit_toggle(&Command::Sit(CommandSit::Sit), &mut next);
    assert!(matches!(next, Some(Command::Sit(CommandSit::Standing))));
    let mut next: Option<Command<Pos>> = Some(Command::Stop);
    sit_toggle(&Command::Sit(CommandSit::Sit), &mut next);
    assert!(matches!(next, Some(Command::Stop)));
}

#[test]
fn casting_messages_update_commands() {
    let mut command: Command<Pos> = cast_skill_command(7, Some(CommandCastSkillTarget::Entity(5)), Some(3));
    let mut next = None;
    assert!(!finish_casting_skill(&mut command, &mut next, 8));
    assert!(finish_casting_skill(&mut command, &mut next, 7));
    match command {
        Command::CastSkill(c) => {
            assert!(c.ready_action);
            assert_eq!(c.cast_skill_state, CommandCastSkillState::Casting);
        },
        _ => panic!("not casting"),
    }
    let mut command: Command<Pos> = Command::Stop;
    let mut next = Some(cast_skill_command(7, None, None));
    assert!(finish_casting_skill(&mut command, &mut next, 7));
    assert!(matches!(next, Some(Command::CastSkill(c)) if c.ready_action));
    let mut command: Command<Pos> = cast_skill_command(7, None, None);
    cancel_casting_skill(&mut command);
    assert!(matches!(command, Command::Stop));
    let mut command: Command<Pos> = Command::Die;
    cancel_casting_skill(&mut command);
    assert!(matches!(command, Command::Die));
}

#[test]
fn kills_by_the_player() {
    let l = list();
    assert!(killed_by_player(&l, 1, true));
    assert!(!killed_by_player(&l, 1, false));
    assert!(!killed_by_player(&l, 2, true));
    let nobody = ClientEntityList { client_entities: vec![], player_entity: None, player_entity_id: None };
    // two unknown entities count as the same
    assert!(killed_by_player(&nobody, 5, true));
}

#[test]
fn basic_stat_updates_and_costs() {
    let mut stats = BasicStats { strength: 10, dexterity: 11, intelligence: 12, concentration: 13, charm: 14, sense: 15 };
    assert_eq!(stats.update_basic_stat(BasicStatType::Charm, 15, Some(4)), Some(4));
    assert_eq!(stats.charm, 15);
    assert_eq!(stats.update_basic_stat(BasicStatType::Sense, 20, Some(4)), None);
    assert_eq!(stats.sense, 20);
    assert_eq!(stats.get(BasicStatType::Strength), 10);
    assert_eq!(subtract_stat_points(10, 4), 6);
    assert_eq!(subtract_stat_points(3, 4), 0);
}

#[test]
fn chat_messages() {
    assert_eq!(xp_earned_message(100, 150).unwrap(), "You have earned 50 experience points.");
    assert!(xp_earned_message(150, 100).is_none());
    assert_eq!(money_earned_message(1234), "You have earned 1234 Zuly.");
    assert_eq!(money_earned_message(-5), "You have earned -5 Zuly.");
    assert_eq!(item_earned_message("Sword"), "You have earned Sword.");
    assert_eq!(member_earned_message("Ann", "Sword"), "Ann has earned Sword.");
    assert_eq!(hunting_message("Jelly Bean"), "You have succeeded in hunting Jelly Bean");
    assert_eq!(ability_add_message("Strength", -3), "Ability Strength has decreased by 3.");
    assert_eq!(ability_add_message("Strength", 0), "Ability Strength has increased by 0.");
    assert_eq!(ability_set_message("Level", -7), "Ability Level has been changed to -7.");
    assert_eq!(pickup_error_message(PickupItemDropError::InventoryFull).unwrap(), "Cannot pickup item, inventory full.");
    assert_eq!(pickup_error_message(PickupItemDropError::NoPermission).unwrap(), "Cannot pickup item, it does not belong to you.");
    assert!(pickup_error_message(PickupItemDropError::NotExist).is_none());
    assert_eq!(learn_skill_error_message(LearnSkillError::Full), "Failed to learn skill, you have too many skills.");
    assert_eq!(learn_skill_error_message(LearnSkillError::AlreadyLearnt), "Failed to learn skill, you already know it.");
    assert_eq!(level_up_skill_error_message(LevelUpSkillError::MoneyRequirement), "Failed to level up skill, not enough money.");
    assert_eq!(level_up_skill_error_message(LevelUpSkillError::Failed), "Failed to level up skill.");
}

#[test]
fn personal_store_transactions() {
    assert_eq!(personal_store_list_update(PersonalStoreTransactionStatus::SoldOut, true), Some(PersonalStoreListUpdate::SellList));
    assert_eq!(personal_store_list_update(PersonalStoreTransactionStatus::SoldToStore, true), Some(PersonalStoreListUpdate::BuyList));
    assert_eq!(personal_store_list_update(PersonalStoreTransactionStatus::Cancelled, true), None);
    assert_eq!(personal_store_list_update(PersonalStoreTransactionStatus::SoldOut, false), None);
    assert_eq!(personal_store_transaction_message(PersonalStoreTransactionStatus::Cancelled).unwrap(), "Transaction failed.");
    assert_eq!(personal_store_transaction_message(PersonalStoreTransactionStatus::NoMoreNeed).unwrap(), "Transaction failed. Item is no longer wanted.");
    assert!(personal_store_transaction_message(PersonalStoreTransactionStatus::BoughtFromStore).is_none());
    assert_eq!(transaction_quantity(Some(10), Some(4)), 6);
    assert_eq!(transaction_quantity(None, Some(4)), 4);
    assert_eq!(transaction_quantity(None, None), 0);
    assert_eq!(transaction_price(900, 1000), -100);
    assert_eq!(transaction_message(-100, 6, "Potion"), "You have purchased 6x Potion for 100 Zuly.");
    assert_eq!(transaction_message(250, 1, "Sword"), "You have sold Sword for 250 Zuly.");
}

#[test]
fn cooldowns_run_down() {
    let mut c = Cooldowns {
        global: Some((500, 1000)),
        skills: vec![Some((100, 200)), None, Some((1000, 1000))],
        skill_groups: vec![Some((300, 300))],
        consumable_items: vec![],
    };
    cooldown_system(&mut c, 300);
    assert_eq!(c.global, Some((200, 1000)));
    assert_eq!(c.skills, vec![None, None, Some((700, 1000))]);
    assert_eq!(c.skill_groups, vec![None]);
    // two ticks add up to one
    let mut a = Cooldowns { global: Some((1000, 1000)), skills: vec![], skill_groups: vec![], consumable_items: vec![] };
    let mut b = Cooldowns { global: Some((1000, 1000)), skills: vec![], skill_groups: vec![], consumable_items: vec![] };
    cooldown_system(&mut a, 300);
    cooldown_system(&mut a, 400);
    cooldown_system(&mut b, 700);
    assert_eq!(a.global, b.global);
}

#[test]
fn pending_damage_is_taken_by_matching_hits() {
    let l = list();
    let d = |amount: u32, critical: bool| Damage { amount, is_critical: critical, apply_hit_stun: false };
    let mut pending = vec![
        PendingDamage { attacker: 1, damage: d(10, false), is_kill: false, is_immediate: false, from_skill: None },
        PendingDamage { attacker: 2, damage: d(20, false), is_kill: false, is_immediate: false, from_skill: None },
        PendingDamage { attacker: 1, damage: d(30, true), is_kill: true, is_immediate: false, from_skill: None },
        PendingDamage { attacker: 1, damage: d(40, false), is_kill: false, is_immediate: false, from_skill: Some((9, 0)) },
    ];
    let (damage, killed) = take_pending_damage(&mut pending, &l, 100, None);
    assert_eq!(damage, d(40, true));
    assert!(killed);
    assert_eq!(pending.len(), 2);
    assert_eq!(pending[0].damage.amount, 20);
    assert_eq!(pending[1].damage.amount, 40);
    // the amounts dealt and kept add up to what was pending
    let kept: u32 = pending.iter().map(|p| p.damage.amount).sum();
    assert_eq!(damage.amount + kept, 100);
    let (damage, killed) = take_pending_damage(&mut pending, &l, 100, Some(9));
    assert_eq!(damage.amount, 40);
    assert!(!killed);
    assert_eq!(pending.len(), 1);
}

#[test]
fn damage_never_takes_health_below_zero() {
    assert_eq!(apply_damage(100, 30), 70);
    assert_eq!(apply_damage(20, 30), 0);
    assert_eq!(apply_damage(30, 30), 0);
}

#[test]
fn hit_effects_in_order() {
    assert_eq!(hit_effects(true, Some((Some(1), Some(2))), Some((3, Some(4)))), vec![HitEffect::AtEntity(1), HitEffect::AtEntity(2), HitEffect::OnEntity(Some(4), 3)]);
    assert_eq!(hit_effects(false, Some((Some(1), Some(2))), None), vec![HitEffect::AtEntity(2)]);
    assert!(hit_effects(true, None, None).is_empty());
}

#[test]
fn party_member_messages_and_changes() {
    let mut p = PartyInfo::new(PartyOwner::Unknown, PartyItemSharing::EqualLootDistribution, PartyXpSharing::EqualShare);
    let messages = p.add_members(vec![online(1, "Ann", 30), online(2, "Bob", 31)]);
    assert_eq!(p.owner, PartyOwner::Character(1));
    assert_eq!(messages, vec!["Ann has joined the party.".to_string(), "Bob has joined the party.".to_string()]);
    assert_eq!(p.member_disconnect(2).unwrap(), "Bob has disconnected.");
    assert!(p.members[1].get_client_entity_id().is_none());
    assert!(p.member_disconnect(2).is_none());
    assert_eq!(p.change_owner(false, 30, None).unwrap(), "Ann is now leader of the party.");
    assert_eq!(p.owner, PartyOwner::Character(1));
    let me = "Me".to_string();
    assert_eq!(p.change_owner(true, 99, Some(&me)).unwrap(), "Me is now leader of the party.");
    assert_eq!(p.owner, PartyOwner::Player);
    assert_eq!(p.member_kicked(2).unwrap(), "Bob has been kicked from the party.");
    assert_eq!(p.members.len(), 1);
    assert!(p.member_kicked(2).is_none());
    assert_eq!(p.member_leave(Some(5), 1, 5).unwrap(), "Ann has left the party.");
    assert_eq!(p.owner, PartyOwner::Player);
    assert!(p.members.is_empty());
    let rules = p.update_rules(PartyItemSharing::AcquisitionOrder, PartyXpSharing::DistributedByLevel);
    assert_eq!(rules, vec![
        "Party rules have changed.".to_string(),
        "Experience points sharing: Distributed by Level.".to_string(),
        "Item sharing: Acquisition Order.".to_string(),
    ]);
    p.add_members(vec![PartyMemberInfo::Offline { character_id: 4, name: "Cat".to_string() }]);
    p.update_member_info(PartyMemberInfoOnline { character_id: 4, name: "Cat".to_string(), entity_id: 44 });
    assert_eq!(p.members[0].get_client_entity_id(), Some(44));
}

#[test]
fn level_up_of_others_only() {
    let l = list();
    assert_eq!(level_up_entity_handling(&l, 1), LevelUpHandling::Ignore);
    assert_eq!(level_up_entity_handling(&l, 2), LevelUpHandling::LevelUp(101));
    assert_eq!(level_up_entity_handling(&l, 3), LevelUpHandling::Ignore);
    assert_eq!(level_up_entity_handling(&l, 99), LevelUpHandling::Ignore);
    assert_eq!(next_level(9), 10);
    assert_eq!(level_up_points(350, 120), (350, 120));
}

use rose_offline_client::party::{PartyItemSharing, PartyMemberInfo, PartyOwner, PartyXpSharing};
use rose_offline_client::systems::command_system::MoveMode;
use rose_offline_client::systems::command_system::Command;
use rose_offline_client::systems::game_connection_messages::{
    handle_server_message, GameConnectionAction, NextCommand, ServerMessage, SpawnKind,
};
use rose_offline_client::systems::game_connection_system::{
    money_drop_name, ClientEntityList, LearnSkillError, LevelUpSkillError, PickupItemDropError,
    SpawnCommandState,
};
use rose_offline_client::systems::game_ui_system::ChatboxEvent;
use rose_offline_client::systems::hit_event_system::Damage;

fn list() -> ClientEntityList {
    ClientEntityList {
        client_entities: vec![None, Some(100), Some(101), None, Some(103)],
        player_entity: Some(100),
        player_entity_id: Some(1),
    }
}

fn actions(list: &mut ClientEntityList, message: ServerMessage<u32, u32>) -> Vec<GameConnectionAction<u32, u32>> {
    handle_server_message(list, message).unwrap()
}

#[test]
fn connection_messages() {
    let mut l = list();
    assert!(handle_server_message(&mut l, ServerMessage::<u32, u32>::ConnectionRequestError).is_err());
    assert!(actions(&mut l, ServerMessage::ConnectionRequestSuccess).is_empty());
    assert!(l.client_entities.iter().all(|e| e.is_none()));
    assert_eq!(l.player_entity, Some(100));
    assert_eq!(l.player_entity_id, None);
}

#[test]
fn moves_and_attacks_of_known_entities() {
    let mut l = list();
    match actions(
        &mut l,
        ServerMessage::MoveEntity { entity_id: 2, target_entity_id: Some(4), position: 7, move_mode: Some(MoveMode::Run) },
    )
    .as_slice()
    {
        [GameConnectionAction::SetNextCommand { entity: 101, command }] => assert_eq!(
            *command,
            NextCommand::Move { position: 7, target: Some(103), move_mode: Some(MoveMode::Run) }
        ),
        other => panic!("unexpected {:?}", other),
    }
    assert!(actions(&mut l, ServerMessage::StopMoveEntity { entity_id: 3 }).is_empty());
    assert!(actions(&mut l, ServerMessage::AttackEntity { entity_id: 2, target_entity_id: 3 }).is_empty());
    match actions(&mut l, ServerMessage::AttackEntity { entity_id: 2, target_entity_id: 1 }).as_slice() {
        [GameConnectionAction::SetNextCommand { entity: 101, command: NextCommand::Attack { target: 100 } }] => {}
        other => panic!("unexpected {:?}", other),
    }
}

#[test]
fn removed_entities_are_despawned_once() {
    let mut l = list();
    let a = actions(&mut l, ServerMessage::RemoveEntities { entity_ids: vec![2, 3, 4, 2, 99] });
    assert_eq!(a.len(), 2);
    assert!(matches!(a[0], GameConnectionAction::Despawn { entity: 101 }));
    assert!(matches!(a[1], GameConnectionAction::Despawn { entity: 103 }));
    assert_eq!(l.client_entities, vec![None, Some(100), None, None, None]);
}

#[test]
fn damage_killed_by_the_player() {
    let mut l = list();
    let damage = Damage { amount: 30, is_critical: false, apply_hit_stun: true };
    match actions(
        &mut l,
        ServerMessage::DamageEntity {
            attacker_entity_id: 1,
            defender_entity_id: 4,
            damage,
            is_killed: true,
            is_immediate: false,
            from_skill: None,
        },
    )
    .as_slice()
    {
        [GameConnectionAction::PendingDamage { defender: 103, damage: pending, killed_by_player: true }] => {
            assert_eq!(pending.attacker, 1);
            assert_eq!(pending.damage.amount, 30);
            assert!(pending.is_kill);
        }
        other => panic!("unexpected {:?}", other),
    }
}

#[test]
fn teleport_despawns_all_but_the_player() {
    let mut l = list();
    let a = actions(&mut l, ServerMessage::Teleport { zone_id: 22, position: 5 });
    assert_eq!(a.len(), 3);
    assert!(matches!(a[0], GameConnectionAction::Teleport { player: 100, position: 5, zone_id: 22 }));
    assert!(matches!(a[1], GameConnectionAction::Despawn { entity: 101 }));
    assert!(matches!(a[2], GameConnectionAction::Despawn { entity: 103 }));
    assert_eq!(l.player_entity, Some(100));
    assert_eq!(l.player_entity_id, None);
    assert!(l.client_entities.iter().all(|e| e.is_none()));
}

#[test]
fn joining_a_zone_lists_the_player_again() {
    let mut l = list();
    actions(&mut l, ServerMessage::Teleport { zone_id: 22, position: 5 });
    let a = actions(&mut l, ServerMessage::JoinZone { entity_id: 7, hp: 0 });
    assert!(matches!(a.as_slice(), [GameConnectionAction::JoinZone { player: 100, dead: true }]));
    assert_eq!(l.client_entities, vec![None, None, None, None, None, None, None, Some(100)]);
    assert_eq!(l.player_entity_id, Some(7));
    let a = actions(&mut l, ServerMessage::JoinZone { entity_id: 2, hp: 10 });
    assert!(matches!(a.as_slice(), [GameConnectionAction::JoinZone { player: 100, dead: false }]));
    assert_eq!(l.client_entities, vec![None, None, Some(100), None, None, None, None, None]);
    let mut none = ClientEntityList { client_entities: vec![None], player_entity: None, player_entity_id: None };
    assert!(actions(&mut none, ServerMessage::JoinZone { entity_id: 0, hp: 10 }).is_empty());
    assert_eq!(none.client_entities, vec![None]);
}

#[test]
fn spawned_entities_get_their_next_command() {
    let mut l = list();
    let a = actions(
        &mut l,
        ServerMessage::SpawnEntity {
            entity_id: 9,
            kind: SpawnKind::Monster,
            command_state: SpawnCommandState::Attack { target_entity_id: 1 },
        },
    );
    match a.as_slice() {
        [GameConnectionAction::Spawn { entity_id: 9, kind: SpawnKind::Monster, next_command: Some(Command::Attack { target: 100 }) }] => {}
        other => panic!("unexpected {:?}", other),
    }
    match actions(
        &mut l,
        ServerMessage::SpawnEntity {
            entity_id: 9,
            kind: SpawnKind::Npc,
            command_state: SpawnCommandState::Attack { target_entity_id: 3 },
        },
    )
    .as_slice()
    {
        [GameConnectionAction::Spawn { entity_id: 9, kind: SpawnKind::Npc, next_command: None }] => {}
        other => panic!("unexpected {:?}", other),
    }
    assert!(matches!(
        actions(&mut l, ServerMessage::SpawnItemDrop { entity_id: 3 }).as_slice(),
        [GameConnectionAction::SpawnItemDrop { entity_id: 3 }]
    ));
    l.add(9, 200);
    assert_eq!(l.get(9), Some(200));
    assert_eq!(l.client_entities.len(), 10);
    l.add(3, 201);
    assert_eq!(l.get(3), Some(201));
    assert_eq!(l.client_entities.len(), 10);
    assert_eq!(money_drop_name(250), "250 Zuly");
}

#[test]
fn chat_and_levels() {
    let mut l = list();
    match actions(&mut l, ServerMessage::ShoutChat { name: "A".to_string(), text: "hi".to_string() }).as_slice() {
        [GameConnectionAction::Chat(ChatboxEvent::Shout(n, t))] => assert_eq!((n.as_str(), t.as_str()), ("A", "hi")),
        other => panic!("unexpected {:?}", other),
    }
    assert!(actions(&mut l, ServerMessage::LevelUpEntity { entity_id: 1 }).is_empty());
    assert!(matches!(
        actions(&mut l, ServerMessage::LevelUpEntity { entity_id: 2 }).as_slice(),
        [GameConnectionAction::LevelUp { entity: 101, level: None }]
    ));
    assert!(matches!(
        actions(&mut l, ServerMessage::UpdateLevel { entity_id: 1, level: 12 }).as_slice(),
        [GameConnectionAction::LevelUp { entity: 100, level: Some(12) }]
    ));
    match actions(&mut l, ServerMessage::PickupDropError { error: PickupItemDropError::InventoryFull }).as_slice() {
        [GameConnectionAction::Chat(ChatboxEvent::System(m))] => assert_eq!(m, "Cannot pickup item, inventory full."),
        other => panic!("unexpected {:?}", other),
    }
    assert!(actions(&mut l, ServerMessage::QuestTriggerResult { success: false, trigger_hash: 5 }).is_empty());
    assert!(matches!(
        actions(&mut l, ServerMessage::UpdateMoney { money: 900 }).as_slice(),
        [GameConnectionAction::SetMoney { player: 100, money: 900 }]
    ));
    assert!(actions(&mut l, ServerMessage::Other).is_empty());
}

#[test]
fn bank_items_make_the_bank() {
    let mut l = list();
    let a = actions(&mut l, ServerMessage::BankSetItems { items: vec![(3, Some(30)), (160, Some(7)), (3, None)] });
    assert_eq!(a.len(), 2);
    match &a[0] {
        GameConnectionAction::SetBank { player: 100, bank } => {
            assert_eq!(bank.slots.len(), 161);
            assert_eq!(bank.slots[160], Some(7));
            assert_eq!(bank.slots[3], None);
        }
        other => panic!("unexpected {:?}", other),
    }
    assert!(matches!(a[1], GameConnectionAction::ShowBank));
    let mut nobody = ClientEntityList { client_entities: vec![], player_entity: None, player_entity_id: None };
    assert!(actions(&mut nobody, ServerMessage::BankSetItems { items: vec![(1, Some(1))] }).is_empty());
}

#[test]
fn party_messages() {
    let mut l = list();
    assert!(matches!(
        actions(&mut l, ServerMessage::PartyInvite { entity_id: 2 }).as_slice(),
        [GameConnectionAction::PartyInvited { inviter: 101, create: false }]
    ));
    assert!(matches!(
        actions(&mut l, ServerMessage::PartyAcceptCreate { entity_id: 4 }).as_slice(),
        [
            GameConnectionAction::PartyInviteAccepted { entity: 103 },
            GameConnectionAction::NewParty { player: 100, owner: PartyOwner::Player }
        ]
    ));
    assert!(matches!(
        actions(&mut l, ServerMessage::PartyAcceptInvite).as_slice(),
        [
            GameConnectionAction::NewParty { player: 100, owner: PartyOwner::Unknown },
            GameConnectionAction::JoinedParty { player: 100 }
        ]
    ));
    assert!(matches!(
        actions(&mut l, ServerMessage::PartyChangeOwner { entity_id: 1 }).as_slice(),
        [GameConnectionAction::ChangePartyOwner { player: 100, entity_id: 1, is_player_owner: true }]
    ));
    match actions(&mut l, ServerMessage::PartyDelete).as_slice() {
        [GameConnectionAction::LeaveParty { player: 100 }, GameConnectionAction::Chat(ChatboxEvent::System(m))] => {
            assert_eq!(m, "You have left the party.")
        }
        other => panic!("unexpected {:?}", other),
    }
    let members = vec![PartyMemberInfo::Offline { character_id: 9, name: "Zed".to_string() }];
    match actions(
        &mut l,
        ServerMessage::PartyMemberList {
            members,
            item_sharing: PartyItemSharing::AcquisitionOrder,
            xp_sharing: PartyXpSharing::EqualShare,
        },
    )
    .as_slice()
    {
        [GameConnectionAction::PartyMembers { player: 100, members, .. }] => assert_eq!(members.len(), 1),
        other => panic!("unexpected {:?}", other),
    }
    assert!(actions(&mut l, ServerMessage::PartyRejectInvite { entity_id: 3 }).is_empty());
    assert!(actions(&mut l, ServerMessage::Unimplemented).is_empty());
    assert!(actions(&mut l, ServerMessage::Unexpected).is_empty());
}

fn system_line(action: &GameConnectionAction<u32, u32>) -> String {
    match action {
        GameConnectionAction::Chat(ChatboxEvent::System(m)) => m.clone(),
        other => panic!("unexpected {:?}", other),
    }
}

#[test]
fn earned_money_is_said_and_added() {
    let mut l = list();
    let a = actions(&mut l, ServerMessage::RewardMoney { money: 1500 });
    assert_eq!(a.len(), 2);
    assert_eq!(system_line(&a[0]), "You have earned 1500 Zuly.");
    assert!(matches!(a[1], GameConnectionAction::AddMoney { player: 100, money: 1500 }));
    let a = actions(&mut l, ServerMessage::PickupDropMoney { money: 7 });
    assert_eq!(system_line(&a[0]), "You have earned 7 Zuly.");
    let mut none = ClientEntityList { client_entities: vec![None], player_entity: None, player_entity_id: None };
    assert!(actions(&mut none, ServerMessage::RewardMoney { money: 3 }).is_empty());
}

#[test]
fn skill_messages() {
    let mut l = list();
    let a = actions(&mut l, ServerMessage::LearnSkillError { error: LearnSkillError::Full });
    assert_eq!(a.len(), 1);
    assert_eq!(system_line(&a[0]), "Failed to learn skill, you have too many skills.");
    let a = actions(
        &mut l,
        ServerMessage::LevelUpSkillError { error: LevelUpSkillError::MoneyRequirement, skill_points: 4 },
    );
    assert_eq!(a.len(), 2);
    assert_eq!(system_line(&a[0]), "Failed to level up skill, not enough money.");
    assert!(matches!(a[1], GameConnectionAction::SetSkillPoints { player: 100, skill_points: 4 }));
    match actions(&mut l, ServerMessage::LearnSkillSuccess { skill_slot: 3, skill_id: Some(12), skill_points: 9 })
        .as_slice()
    {
        [GameConnectionAction::SetSkill { player: 100, skill_slot: 3, skill_id: Some(12) }, GameConnectionAction::SetSkillPoints { player: 100, skill_points: 9 }] => {}
        other => panic!("unexpected {:?}", other),
    }
    match actions(&mut l, ServerMessage::LevelUpSkillSuccess { skill_slot: 1, skill_id: 13, skill_points: 2 })
        .as_slice()
    {
        [GameConnectionAction::SetSkillPoints { player: 100, skill_points: 2 }, GameConnectionAction::SetSkill { player: 100, skill_slot: 1, skill_id: Some(13) }] => {}
        other => panic!("unexpected {:?}", other),
    }
    match actions(&mut l, ServerMessage::FinishCastingSkill { entity_id: 4, skill_id: 13 }).as_slice() {
        [GameConnectionAction::FinishCasting { entity: 103, skill_id: 13 }] => {}
        other => panic!("unexpected {:?}", other),
    }
    assert!(actions(&mut l, ServerMessage::CancelCastingSkill { entity_id: 3 }).is_empty());
}

#[test]
fn entity_state_messages() {
    let mut l = list();
    match actions(&mut l, ServerMessage::UseEmote { entity_id: 2, motion_id: 5, is_stop: true }).as_slice() {
        [GameConnectionAction::SetNextCommand { entity: 101, command }] => {
            assert_eq!(*command, NextCommand::Emote { motion_id: 5, is_stop: true })
        }
        other => panic!("unexpected {:?}", other),
    }
    assert!(matches!(
        actions(&mut l, ServerMessage::SitToggle { entity_id: 1 }).as_slice(),
        [GameConnectionAction::ToggleSit { entity: 100 }]
    ));
    assert!(matches!(
        actions(&mut l, ServerMessage::UpdateSpeed { entity_id: 4, run_speed: 425 }).as_slice(),
        [GameConnectionAction::SetRunSpeed { entity: 103, run_speed: 425 }]
    ));
    assert!(matches!(
        actions(&mut l, ServerMessage::UpdateXpStamina { xp: 900, stamina: 5000 }).as_slice(),
        [GameConnectionAction::UpdateXpStamina { player: 100, xp: 900, stamina: 5000 }]
    ));
    assert!(matches!(
        actions(&mut l, ServerMessage::QuestDeleteResult { success: true, slot: 2, quest_id: 40 }).as_slice(),
        [GameConnectionAction::DeleteQuest { player: 100, slot: 2, quest_id: 40 }]
    ));
    assert!(actions(&mut l, ServerMessage::QuestDeleteResult { success: false, slot: 2, quest_id: 40 }).is_empty());
    assert!(matches!(
        actions(&mut l, ServerMessage::RunNpcDeathTrigger { npc_id: 77 }).as_slice(),
        [GameConnectionAction::NpcDeathTrigger { npc_id: 77 }]
    ));
}

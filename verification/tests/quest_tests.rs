use rose_offline_client::lua4::{Lua4Number, Lua4Value};
use rose_offline_client::quest::conditions::{
    quest_condition_check_switch, quest_condition_operator, quest_condition_quest_items,
    quest_condition_quest_variables, quest_condition_select_quest, quest_trigger_check_conditions,
};
use rose_offline_client::quest::rewards::{
    quest_next_trigger_name, quest_reward_add_quest, quest_reward_change_selected_quest_id,
    quest_reward_remove_selected_quest, quest_reward_select_quest, quest_reward_set_quest_switch,
    quest_triggers_apply_rewards, quest_triggers_skip_rewards,
};
use rose_offline_client::quest::variables::{get_quest_variable, set_quest_variable};
use rose_offline_client::quest::{
    ActiveQuest, ItemReference, ItemStack, ItemType, PlayerItems, QsdCondition,
    QsdConditionOperator, QsdConditionQuestItem, QsdConditionQuestVariable, QsdReward,
    QsdRewardQuestAction, QsdVariableType, QuestFunctionContext, QuestState, QuestTrigger,
};
use rose_offline_client::scripting::functions::{
    GF_getVariable, GF_openBank, GF_openStore, QF_findQuest, QF_getEpisodeVAR, QF_getNpcQuestZeroVal,
    QF_getQuestCount, QF_getQuestID, QF_getQuestSwitch, QF_getQuestVar, QF_getUserSwitch,
    CharacterGender, NpcQuestIndex, ScriptCharacter, SV_LEVEL, SV_STR,
};

fn state() -> QuestState {
    QuestState {
        episode_variables: vec![0; 5],
        job_variables: vec![0; 3],
        planet_variables: vec![0; 7],
        union_variables: vec![0; 10],
        quest_switches: vec![false; 1024],
        active_quests: (0..10).map(|_| None).collect(),
    }
}

fn num(x: f64) -> Lua4Value {
    Lua4Value::Number(Lua4Number::from_bits(x.to_bits()))
}

fn int_of(results: &[Lua4Value]) -> f64 {
    assert_eq!(results.len(), 1);
    match &results[0] {
        Lua4Value::Number(n) => f64::from_bits(n.bits),
        _ => panic!("not a number"),
    }
}

#[test]
fn condition_operators() {
    assert!(quest_condition_operator(QsdConditionOperator::Equals, 3, 3));
    assert!(quest_condition_operator(QsdConditionOperator::GreaterThan, 4, 3));
    assert!(quest_condition_operator(QsdConditionOperator::GreaterThanEqual, 3, 3));
    assert!(quest_condition_operator(QsdConditionOperator::LessThan, 2, 3));
    assert!(quest_condition_operator(QsdConditionOperator::LessThanEqual, 3, 3));
    assert!(quest_condition_operator(QsdConditionOperator::NotEqual, 2, 3));
    assert!(!quest_condition_operator(QsdConditionOperator::NotEqual, 3, 3));
}

#[test]
fn quest_variables_read_back() {
    let mut s = state();
    let mut ctx = QuestFunctionContext::default();
    assert!(quest_reward_add_quest(&mut s, &mut ctx, 77));
    assert_eq!(ctx.selected_quest_index, Some(0));
    set_quest_variable(&mut s, &ctx, QsdVariableType::Variable, 2, 9);
    assert_eq!(get_quest_variable(&s, &ctx, QsdVariableType::Variable, 2, 0), Some(9));
    assert_eq!(get_quest_variable(&s, &ctx, QsdVariableType::Variable, 1, 0), Some(0));
    set_quest_variable(&mut s, &ctx, QsdVariableType::Switch, 4, 1);
    assert_eq!(get_quest_variable(&s, &ctx, QsdVariableType::Switch, 4, 0), Some(1));
    set_quest_variable(&mut s, &ctx, QsdVariableType::Episode, 1, 300);
    assert_eq!(get_quest_variable(&s, &ctx, QsdVariableType::Episode, 1, 0), Some(300));
    assert_eq!(get_quest_variable(&s, &ctx, QsdVariableType::Episode, 99, 0), None);
    // a timerless quest has no timer
    assert_eq!(get_quest_variable(&s, &ctx, QsdVariableType::Timer, 0, 0), None);
    s.active_quests[0].as_mut().unwrap().expire_time = Some(100);
    assert_eq!(get_quest_variable(&s, &ctx, QsdVariableType::Timer, 0, 40), Some(60));
    assert_eq!(get_quest_variable(&s, &ctx, QsdVariableType::Timer, 0, 140), Some(0));
}

#[test]
fn quest_rewards_add_select_change_remove() {
    let mut s = state();
    let mut ctx = QuestFunctionContext::default();
    assert!(quest_reward_add_quest(&mut s, &mut ctx, 10));
    assert!(quest_reward_add_quest(&mut s, &mut ctx, 11));
    assert_eq!(ctx.selected_quest_index, Some(0));
    assert!(quest_reward_select_quest(&s, &mut ctx, 11));
    assert_eq!(ctx.selected_quest_index, Some(1));
    assert!(!quest_reward_select_quest(&s, &mut ctx, 12));
    set_quest_variable(&mut s, &ctx, QsdVariableType::Variable, 0, 5);
    assert!(quest_reward_change_selected_quest_id(&mut s, &ctx, 20, true));
    assert_eq!(s.active_quests[1].as_ref().unwrap().quest_id, 20);
    assert_eq!(s.active_quests[1].as_ref().unwrap().variables[0], 5);
    assert!(quest_reward_change_selected_quest_id(&mut s, &ctx, 21, false));
    assert_eq!(s.active_quests[1].as_ref().unwrap().variables[0], 0);
    assert!(quest_reward_remove_selected_quest(&mut s, &ctx));
    assert!(s.active_quests[1].is_none());
    // the slot is still there, empty: removing again succeeds
    assert!(quest_reward_remove_selected_quest(&mut s, &ctx));
    assert!(quest_reward_set_quest_switch(&mut s, 3, true));
    assert!(quest_condition_check_switch(&s, 3, true));
    assert!(!quest_reward_set_quest_switch(&mut s, 5000, true));
}

#[test]
fn quest_slots_fill_up() {
    let mut s = state();
    let mut ctx = QuestFunctionContext::default();
    for id in 0..10 {
        assert!(quest_reward_add_quest(&mut s, &mut ctx, id));
    }
    assert!(!quest_reward_add_quest(&mut s, &mut ctx, 99));
    assert_eq!(s.find_active_quest_index(7), Some(7));
    assert!(s.try_add_quest(ActiveQuest::new(5, None)).is_none());
}

#[test]
fn quest_item_conditions() {
    let mut s = state();
    let mut ctx = QuestFunctionContext::default();
    quest_reward_add_quest(&mut s, &mut ctx, 1);
    let quest_item = ItemReference { item_type: ItemType::Quest, item_number: 4 };
    let potion = ItemReference { item_type: ItemType::Consumable, item_number: 2 };
    s.active_quests[0].as_mut().unwrap().items[0] = Some(ItemStack { item: quest_item, quantity: 3 });
    let items = PlayerItems {
        equipment: vec![None, Some(ItemReference { item_type: ItemType::Weapon, item_number: 9 })],
        inventory: vec![Some(ItemStack { item: potion, quantity: 5 })],
    };
    let needs = |item, count, operator| QsdConditionQuestItem { item: Some(item), equipment_index: None, required_count: count, operator };
    assert!(quest_condition_quest_items(&s, &items, &ctx, &vec![needs(quest_item, 3, QsdConditionOperator::GreaterThanEqual)]));
    assert!(!quest_condition_quest_items(&s, &items, &ctx, &vec![needs(quest_item, 4, QsdConditionOperator::GreaterThanEqual)]));
    assert!(quest_condition_quest_items(&s, &items, &ctx, &vec![needs(potion, 5, QsdConditionOperator::Equals)]));
    let weapon = QsdConditionQuestItem {
        item: Some(ItemReference { item_type: ItemType::Weapon, item_number: 9 }),
        equipment_index: Some(1),
        required_count: 1,
        operator: QsdConditionOperator::Equals,
    };
    assert!(quest_condition_quest_items(&s, &items, &ctx, &vec![weapon]));
}

#[test]
fn trigger_conditions_and_rewards() {
    let mut s = state();
    let mut ctx = QuestFunctionContext::default();
    quest_reward_add_quest(&mut s, &mut ctx, 1);
    let trigger = QuestTrigger {
        name: "t1".to_string(),
        conditions: vec![
            QsdCondition::SelectQuest(1),
            QsdCondition::QuestVariable(vec![QsdConditionQuestVariable {
                variable_type: QsdVariableType::Variable,
                variable_id: 0,
                operator: QsdConditionOperator::Equals,
                value: 0,
            }]),
            QsdCondition::QuestSwitch(2, false),
        ],
        rewards: vec![
            QsdReward::SetQuestSwitch(2, true),
            QsdReward::Quest(QsdRewardQuestAction::Add(8)),
            QsdReward::Trigger("t2".to_string()),
        ],
        next_trigger_name: Some("t0".to_string()),
    };
    let items = PlayerItems { equipment: vec![], inventory: vec![] };
    let mut ctx = QuestFunctionContext::default();
    assert!(quest_trigger_check_conditions(&s, &items, &mut ctx, &trigger, 0));
    assert_eq!(ctx.selected_quest_index, Some(0));
    assert!(quest_triggers_apply_rewards(&mut s, &mut ctx, &trigger));
    assert!(s.quest_switches[2]);
    assert_eq!(s.find_active_quest_index(8), Some(1));
    assert_eq!(quest_next_trigger_name(&trigger, true, &mut ctx), Some("t2".to_string()));
    assert!(ctx.next_quest_trigger.is_none());
    // now the switch is set: the conditions fail and the chain goes on to the next trigger
    let mut ctx = QuestFunctionContext::default();
    assert!(!quest_trigger_check_conditions(&s, &items, &mut ctx, &trigger, 0));
    assert_eq!(quest_next_trigger_name(&trigger, false, &mut ctx), Some("t0".to_string()));
    let unsupported = QuestTrigger { name: "u".to_string(), conditions: vec![QsdCondition::Unsupported], rewards: vec![QsdReward::Unsupported], next_trigger_name: None };
    assert!(!quest_trigger_check_conditions(&s, &items, &mut ctx, &unsupported, 0));
    assert!(quest_triggers_skip_rewards(&mut ctx, &trigger));
    assert_eq!(ctx.next_quest_trigger, Some("t2".to_string()));
}

#[test]
fn select_quest_condition() {
    let mut s = state();
    let mut ctx = QuestFunctionContext::default();
    quest_reward_add_quest(&mut s, &mut ctx, 3);
    let mut ctx = QuestFunctionContext::default();
    assert!(!quest_condition_select_quest(&s, &mut ctx, 4));
    assert!(quest_condition_select_quest(&s, &mut ctx, 3));
    assert_eq!(ctx.selected_quest_index, Some(0));
    assert!(quest_condition_quest_variables(&s, &ctx, 0, &vec![]));
}

#[test]
fn quest_script_functions() {
    let mut s = state();
    let mut ctx = QuestFunctionContext::default();
    quest_reward_add_quest(&mut s, &mut ctx, 42);
    set_quest_variable(&mut s, &ctx, QsdVariableType::Variable, 3, 7);
    s.episode_variables[2] = 11;
    s.quest_switches[6] = true;
    assert_eq!(int_of(&QF_findQuest(Some(&s), &[num(42.0)])), 0.0);
    assert_eq!(int_of(&QF_findQuest(Some(&s), &[num(43.0)])), -1.0);
    assert_eq!(int_of(&QF_getQuestCount(Some(&s), &[])), 1.0);
    assert_eq!(int_of(&QF_getQuestID(Some(&s), &[num(0.0)])), 42.0);
    assert_eq!(int_of(&QF_getQuestVar(Some(&s), &[num(0.0), num(3.0)])), 7.0);
    assert_eq!(int_of(&QF_getEpisodeVAR(Some(&s), &[num(2.0)])), 11.0);
    assert_eq!(int_of(&QF_getUserSwitch(Some(&s), &[num(6.0)])), 1.0);
    assert_eq!(int_of(&QF_getQuestSwitch(Some(&s), &[num(0.0), num(1.0)])), 0.0);
    let npcs = [NpcQuestIndex { npc_id: 5, quest_index: 33 }];
    assert_eq!(int_of(&QF_getNpcQuestZeroVal(&npcs, &[num(5.0)])), 33.0);
    assert_eq!(GF_openBank(&[num(12.0)]), Some(12));
    assert_eq!(GF_openStore(&[Lua4Value::Nil]), None);
}

#[test]
fn character_variables() {
    let character = ScriptCharacter {
        gender: CharacterGender::Female,
        birth_stone: 2,
        job: 111,
        current_union: None,
        rank: 0,
        fame: 0,
        strength: 15,
        dexterity: 1,
        intelligence: 2,
        concentration: 3,
        charm: 4,
        sense: 5,
        xp: 900,
        level: 12,
    };
    assert_eq!(int_of(&GF_getVariable(&character, &[num(SV_STR as f64)], None)), 15.0);
    assert_eq!(int_of(&GF_getVariable(&character, &[num(SV_LEVEL as f64)], None)), 12.0);
}

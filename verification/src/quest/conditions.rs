use vstd::prelude::*;

use crate::quest::state::{
    spec_find_active_quest_index, spec_get_quest, spec_item_quantity, ItemReference, QuestState,
    QuestStateView,
};
use crate::quest::trigger::{
    PlayerItems, QsdCondition, QsdConditionOperator, QsdConditionQuestItem,
    QsdConditionQuestVariable, QsdVariableType, QuestFunctionContext, QuestTrigger,
};
use crate::quest::variables::{get_quest_variable, spec_get_quest_variable};

verus! {

/// `lhs` compares with `rhs` as `operator` says.
pub open spec fn spec_condition_operator(operator: QsdConditionOperator, lhs: int, rhs: int) -> bool {
    match operator {
        QsdConditionOperator::Equals => lhs == rhs,
        QsdConditionOperator::GreaterThan => lhs > rhs,
        QsdConditionOperator::GreaterThanEqual => lhs >= rhs,
        QsdConditionOperator::LessThan => lhs < rhs,
        QsdConditionOperator::LessThanEqual => lhs <= rhs,
        QsdConditionOperator::NotEqual => lhs != rhs,
    }
}

/// Whether `lhs` compares with `rhs` as `operator` says.
pub fn quest_condition_operator(operator: QsdConditionOperator, value_lhs: i64, value_rhs: i64) -> (r:
    bool)
    ensures
        r == spec_condition_operator(operator, value_lhs as int, value_rhs as int),
{
    match operator {
        QsdConditionOperator::Equals => value_lhs == value_rhs,
        QsdConditionOperator::GreaterThan => value_lhs > value_rhs,
        QsdConditionOperator::GreaterThanEqual => value_lhs >= value_rhs,
        QsdConditionOperator::LessThan => value_lhs < value_rhs,
        QsdConditionOperator::LessThanEqual => value_lhs <= value_rhs,
        QsdConditionOperator::NotEqual => value_lhs != value_rhs,
    }
}

/// What the equipment slot `index` holds.
pub open spec fn spec_equipped(items: PlayerItems, index: usize) -> Option<ItemReference> {
    if index < items.equipment@.len() {
        items.equipment@[index as int]
    } else {
        None
    }
}

/// The quantity of `item` that counts for a condition: for a quest item, what the
/// selected quest holds; for any other item, what the inventory holds.
pub open spec fn spec_held_quantity(
    state: QuestStateView,
    items: PlayerItems,
    selected: Option<usize>,
    item: Option<ItemReference>,
) -> int {
    match item {
        Some(reference) => if reference.item_type is Quest {
            match selected {
                Some(index) => match spec_get_quest(state, index as int) {
                    Some(quest) => spec_item_quantity(quest.items, reference) as int,
                    None => 0,
                },
                None => 0,
            }
        } else {
            spec_item_quantity(items.inventory@, reference) as int
        },
        None => 0,
    }
}

/// An item condition holds: with an equipment slot, the slot holds exactly the
/// condition's item (both may be nothing); otherwise the held quantity compares with the
/// required count as the operator says.
pub open spec fn spec_quest_item_holds(
    state: QuestStateView,
    items: PlayerItems,
    selected: Option<usize>,
    condition: QsdConditionQuestItem,
) -> bool {
    match condition.equipment_index {
        Some(index) => condition.item == spec_equipped(items, index),
        None => spec_condition_operator(
            condition.operator,
            spec_held_quantity(state, items, selected, condition.item),
            condition.required_count as int,
        ),
    }
}

/// A variable condition holds: the variable exists and compares with the value as the
/// operator says.
pub open spec fn spec_quest_variable_holds(
    state: QuestStateView,
    selected: Option<usize>,
    world_ticks: u64,
    condition: QsdConditionQuestVariable,
) -> bool {
    match spec_get_quest_variable(
        state,
        selected,
        condition.variable_type,
        condition.variable_id,
        world_ticks,
    ) {
        Some(value) => spec_condition_operator(
            condition.operator,
            value as int,
            condition.value as int,
        ),
        None => false,
    }
}

/// Checking one condition: whether it holds, and the selected quest afterwards.
pub open spec fn spec_check_condition(
    state: QuestStateView,
    items: PlayerItems,
    selected: Option<usize>,
    world_ticks: u64,
    condition: QsdCondition,
) -> (bool, Option<usize>) {
    match condition {
        QsdCondition::QuestItems(list) => (
            forall|i: int|
                0 <= i < list@.len() ==> #[trigger] spec_quest_item_holds(
                    state,
                    items,
                    selected,
                    list@[i],
                ),
            selected,
        ),
        QsdCondition::QuestVariable(list) => (
            forall|i: int|
                0 <= i < list@.len() ==> #[trigger] spec_quest_variable_holds(
                    state,
                    selected,
                    world_ticks,
                    list@[i],
                ),
            selected,
        ),
        QsdCondition::QuestSwitch(id, value) => (
            id < state.quest_switches.len() && state.quest_switches[id as int] == value,
            selected,
        ),
        QsdCondition::SelectQuest(quest_id) => match spec_find_active_quest_index(state, quest_id) {
            Some(index) => (true, Some(index as usize)),
            None => (false, selected),
        },
        QsdCondition::Unsupported => (false, selected),
    }
}

/// What a quest selection condition gives: whether the quest was found, and the slot
/// found or the selection as it was.
pub proof fn lemma_select_quest_condition(
    state: QuestStateView,
    items: PlayerItems,
    selected: Option<usize>,
    world_ticks: u64,
    quest_id: usize,
)
    ensures
        spec_check_condition(state, items, selected, world_ticks, QsdCondition::SelectQuest(quest_id))
            == match spec_find_active_quest_index(state, quest_id) {
            Some(index) => (true, Some(index as usize)),
            None => (false, selected),
        },
{
}

/// Checking a trigger's conditions in order, stopping at the first that fails: whether
/// all hold, and the selected quest afterwards.
pub open spec fn spec_check_conditions(
    state: QuestStateView,
    items: PlayerItems,
    selected: Option<usize>,
    world_ticks: u64,
    conditions: Seq<QsdCondition>,
) -> (bool, Option<usize>)
    decreases conditions.len(),
{
    if conditions.len() == 0 {
        (true, selected)
    } else {
        let (holds, after) = spec_check_condition(
            state,
            items,
            selected,
            world_ticks,
            conditions[0],
        );
        if !holds {
            (false, after)
        } else {
            spec_check_conditions(state, items, after, world_ticks, conditions.drop_first())
        }
    }
}

/// The quest switch `switch_id` is set to `value`.
pub fn quest_condition_check_switch(quest_state: &QuestState, switch_id: usize, value: bool) -> (r:
    bool)
    ensures
        r == (switch_id < quest_state.quest_switches@.len()
            && quest_state.quest_switches@[switch_id as int] == value),
{
    if switch_id < quest_state.quest_switches.len() {
        return quest_state.quest_switches[switch_id] == value;
    }
    false
}

/// Whether an item condition holds.
pub fn quest_condition_quest_item(
    quest_state: &QuestState,
    player_items: &PlayerItems,
    quest_context: &QuestFunctionContext,
    condition: &QsdConditionQuestItem,
) -> (r: bool)
    ensures
        r == spec_quest_item_holds(
            quest_state@,
            *player_items,
            quest_context.selected_quest_index,
            *condition,
        ),
{
    if let Some(equipment_index) = condition.equipment_index {
        let equipped = if equipment_index < player_items.equipment.len() {
            player_items.equipment[equipment_index]
        } else {
            None
        };
        match (condition.item, equipped) {
            (Some(a), Some(b)) => a == b,
            (None, None) => true,
            _ => false,
        }
    } else {
        let quantity: u32 = match condition.item {
            Some(item_reference) => {
                if item_reference.item_type.is_quest_item() {
                    match quest_context.selected_quest_index {
                        Some(selected_quest_index) => match quest_state.get_quest(
                            selected_quest_index,
                        ) {
                            Some(active_quest) => match active_quest.find_item(item_reference) {
                                Some(stack) => stack.quantity,
                                None => 0,
                            },
                            None => 0,
                        },
                        None => 0,
                    }
                } else {
                    match crate::quest::state::find_item(&player_items.inventory, item_reference) {
                        Some(stack) => stack.quantity,
                        None => 0,
                    }
                }
            },
            None => 0,
        };
        quest_condition_operator(
            condition.operator,
            quantity as i64,
            condition.required_count as i64,
        )
    }
}

/// Whether every item condition of a list holds.
pub fn quest_condition_quest_items(
    quest_state: &QuestState,
    player_items: &PlayerItems,
    quest_context: &QuestFunctionContext,
    items: &Vec<QsdConditionQuestItem>,
) -> (r: bool)
    ensures
        r == (forall|i: int|
            0 <= i < items@.len() ==> #[trigger] spec_quest_item_holds(
                quest_state@,
                *player_items,
                quest_context.selected_quest_index,
                items@[i],
            )),
{
    let mut i: usize = 0;
    while i < items.len()
        invariant
            i <= items@.len(),
            forall|j: int|
                0 <= j < i ==> #[trigger] spec_quest_item_holds(
                    quest_state@,
                    *player_items,
                    quest_context.selected_quest_index,
                    items@[j],
                ),
        decreases items.len() - i,
    {
        if !quest_condition_quest_item(quest_state, player_items, quest_context, &items[i]) {
            return false;
        }
        i = i + 1;
    }
    true
}

/// Whether a variable condition holds.
pub fn quest_condition_quest_variable(
    quest_state: &QuestState,
    quest_context: &QuestFunctionContext,
    world_ticks: u64,
    condition: &QsdConditionQuestVariable,
) -> (r: bool)
    ensures
        r == spec_quest_variable_holds(
            quest_state@,
            quest_context.selected_quest_index,
            world_ticks,
            *condition,
        ),
{
    match get_quest_variable(
        quest_state,
        quest_context,
        condition.variable_type,
        condition.variable_id,
        world_ticks,
    ) {
        Some(variable_value) => quest_condition_operator(
            condition.operator,
            variable_value as i64,
            condition.value as i64,
        ),
        None => false,
    }
}

/// Whether every variable condition of a list holds.
pub fn quest_condition_quest_variables(
    quest_state: &QuestState,
    quest_context: &QuestFunctionContext,
    world_ticks: u64,
    quest_variables: &Vec<QsdConditionQuestVariable>,
) -> (r: bool)
    ensures
        r == (forall|i: int|
            0 <= i < quest_variables@.len() ==> #[trigger] spec_quest_variable_holds(
                quest_state@,
                quest_context.selected_quest_index,
                world_ticks,
                quest_variables@[i],
            )),
{
    let mut i: usize = 0;
    while i < quest_variables.len()
        invariant
            i <= quest_variables@.len(),
            forall|k: int|
                0 <= k < i ==> #[trigger] spec_quest_variable_holds(
                    quest_state@,
                    quest_context.selected_quest_index,
                    world_ticks,
                    quest_variables@[k],
                ),
        decreases quest_variables.len() - i,
    {
        if !quest_condition_quest_variable(
            quest_state,
            quest_context,
            world_ticks,
            &quest_variables[i],
        ) {
            return false;
        }
        i = i + 1;
    }
    true
}

/// Selects the first active quest `quest_id`; fails when there is none.
pub fn quest_condition_select_quest(
    quest_state: &QuestState,
    quest_context: &mut QuestFunctionContext,
    quest_id: usize,
) -> (r: bool)
    ensures
        r == spec_find_active_quest_index(quest_state@, quest_id) is Some,
        final(quest_context).next_quest_trigger == old(quest_context).next_quest_trigger,
        final(quest_context).selected_quest_index == match spec_find_active_quest_index(
            quest_state@,
            quest_id,
        ) {
            Some(index) => Some(index as usize),
            None => old(quest_context).selected_quest_index,
        },
{
    if let Some(quest_index) = quest_state.find_active_quest_index(quest_id) {
        quest_context.selected_quest_index = Some(quest_index);
        return true;
    }
    false
}

/// Checks a trigger's conditions in order, stopping at the first that fails.
pub fn quest_trigger_check_conditions(
    quest_state: &QuestState,
    player_items: &PlayerItems,
    quest_context: &mut QuestFunctionContext,
    quest_trigger: &QuestTrigger,
    world_ticks: u64,
) -> (r: bool)
    ensures
        (r, final(quest_context).selected_quest_index) == spec_check_conditions(
            quest_state@,
            *player_items,
            old(quest_context).selected_quest_index,
            world_ticks,
            quest_trigger.conditions@,
        ),
        final(quest_context).next_quest_trigger == old(quest_context).next_quest_trigger,
{
    let ghost conditions = quest_trigger.conditions@;
    let ghost start = quest_context.selected_quest_index;
    assert(conditions.skip(0) =~= conditions);
    let mut i: usize = 0;
    while i < quest_trigger.conditions.len()
        invariant
            i <= conditions.len(),
            conditions == quest_trigger.conditions@,
            quest_context.next_quest_trigger == old(quest_context).next_quest_trigger,
            start == old(quest_context).selected_quest_index,
            spec_check_conditions(quest_state@, *player_items, start, world_ticks, conditions)
                == spec_check_conditions(
                quest_state@,
                *player_items,
                quest_context.selected_quest_index,
                world_ticks,
                conditions.skip(i as int),
            ),
        decreases conditions.len() - i,
    {
        let ghost before = quest_context.selected_quest_index;
        assert(conditions.skip(i as int)[0] == conditions[i as int]);
        assert(conditions.skip(i as int).drop_first() =~= conditions.skip(i + 1));
        let result = match &quest_trigger.conditions[i] {
            QsdCondition::QuestItems(items) => quest_condition_quest_items(
                quest_state,
                player_items,
                quest_context,
                items,
            ),
            QsdCondition::QuestVariable(quest_variables) => quest_condition_quest_variables(
                quest_state,
                quest_context,
                world_ticks,
                quest_variables,
            ),
            QsdCondition::QuestSwitch(switch_id, value) => quest_condition_check_switch(
                quest_state,
                *switch_id,
                *value,
            ),
            QsdCondition::SelectQuest(quest_id) => quest_condition_select_quest(
                quest_state,
                quest_context,
                *quest_id,
            ),
            QsdCondition::Unsupported => false,
        };
        assert((result, quest_context.selected_quest_index) == spec_check_condition(
            quest_state@,
            *player_items,
            before,
            world_ticks,
            conditions[i as int],
        ));
        if !result {
            return false;
        }
        i = i + 1;
    }
    true
}

} // verus!

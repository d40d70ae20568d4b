use vstd::prelude::*;

use crate::quest::conditions::spec_condition_operator;
use crate::quest::rewards::spec_apply_reward;
use crate::quest::state::{
    lemma_find_active_quest_index, lemma_first_free_slot, spec_find_active_quest_index,
    spec_first_free_slot, spec_get_quest, spec_slot_has_quest, QuestStateView,
};
use crate::quest::trigger::{
    QsdConditionOperator, QsdReward, QsdRewardQuestAction,
    QsdVariableType, QuestFunctionContext,
};
use crate::quest::variables::{spec_get_quest_variable, spec_set_quest_variable};
use crate::quest::conditions::{lemma_select_quest_condition, spec_check_condition};
use crate::quest::trigger::PlayerItems;
use crate::quest::trigger::QsdCondition;
use crate::scripting::functions::spec_entry_or;

verus! {

/// The value that reading a quest variable gives after writing `value` to it: a switch
/// reads 1 when the value is not 0 and 0 otherwise; any other variable reads the value
/// truncated to 16 bits.
pub open spec fn spec_value_read_back(variable_type: QsdVariableType, value: i32) -> i32 {
    if variable_type is Switch {
        if value != 0 {
            1
        } else {
            0
        }
    } else {
        (value as u16) as i32
    }
}

/// Writing an existing quest variable (other than the timer) and reading it back gives
/// the value written, as the variable stores it.
pub proof fn law_quest_variable_read_after_write(
    state: QuestStateView,
    selected: Option<usize>,
    variable_type: QsdVariableType,
    variable_id: usize,
    value: i32,
    world_ticks: u64,
)
    requires
        !(variable_type is Timer),
        spec_get_quest_variable(state, selected, variable_type, variable_id, world_ticks) is Some,
    ensures
        spec_get_quest_variable(
            spec_set_quest_variable(state, selected, variable_type, variable_id, value),
            selected,
            variable_type,
            variable_id,
            world_ticks,
        ) == Some(spec_value_read_back(variable_type, value)),
{
    let after = spec_set_quest_variable(state, selected, variable_type, variable_id, value);
    if variable_type is Variable || variable_type is Switch {
        let index = selected->0;
        assert(spec_get_quest(after, index as int) is Some);
    }
}

/// Writing a quest variable leaves every other quest variable as it was.
pub proof fn law_quest_variable_write_keeps_others(
    state: QuestStateView,
    selected: Option<usize>,
    variable_type: QsdVariableType,
    variable_id: usize,
    value: i32,
    other_type: QsdVariableType,
    other_id: usize,
    world_ticks: u64,
)
    requires
        variable_type != other_type || variable_id != other_id,
    ensures
        spec_get_quest_variable(
            spec_set_quest_variable(state, selected, variable_type, variable_id, value),
            selected,
            other_type,
            other_id,
            world_ticks,
        ) == spec_get_quest_variable(state, selected, other_type, other_id, world_ticks),
{
    let after = spec_set_quest_variable(state, selected, variable_type, variable_id, value);
    if let Some(index) = selected {
        if spec_get_quest(state, index as int) is Some {
            assert(spec_get_quest(after, index as int) is Some);
        }
    }
}

/// The six comparison operators are related as their names say: `!=` is not `==`,
/// `>` is `<` swapped, `>=` is not `<`, and `<=` is not `>`.
pub proof fn law_condition_operators(a: int, b: int)
    ensures
        spec_condition_operator(QsdConditionOperator::NotEqual, a, b) == !spec_condition_operator(
            QsdConditionOperator::Equals,
            a,
            b,
        ),
        spec_condition_operator(QsdConditionOperator::GreaterThan, a, b)
            == spec_condition_operator(QsdConditionOperator::LessThan, b, a),
        spec_condition_operator(QsdConditionOperator::GreaterThanEqual, a, b)
            == !spec_condition_operator(QsdConditionOperator::LessThan, a, b),
        spec_condition_operator(QsdConditionOperator::LessThanEqual, a, b)
            == !spec_condition_operator(QsdConditionOperator::GreaterThan, a, b),
{
}

/// A quest that a reward added is then active: looking its id up finds a slot that
/// holds a quest with that id, and some quest is selected.
pub proof fn law_added_quest_is_found(
    state: QuestStateView,
    context: QuestFunctionContext,
    quest_id: usize,
)
    requires
        spec_apply_reward(state, context, QsdReward::Quest(QsdRewardQuestAction::Add(quest_id))).0,
    ensures
        ({
            let (_, after, context_after) = spec_apply_reward(
                state,
                context,
                QsdReward::Quest(QsdRewardQuestAction::Add(quest_id)),
            );
            &&& spec_find_active_quest_index(after, quest_id) matches Some(index) && spec_get_quest(
                after,
                index,
            ) matches Some(quest) && quest.quest_id == quest_id
            &&& context_after.selected_quest_index is Some
        }),
{
    let (_, after, _) = spec_apply_reward(
        state,
        context,
        QsdReward::Quest(QsdRewardQuestAction::Add(quest_id)),
    );
    let free = choose|i: int| 0 <= i < state.active_quests.len() && state.active_quests[i] is None;
    lemma_first_free_slot(state, free);
    let slot = spec_first_free_slot(state)->0;
    assert(spec_slot_has_quest(after, slot, quest_id));
    lemma_find_active_quest_index(after, quest_id, slot);
}

/// After the reward that removes the selected quest succeeds, the selected slot is
/// empty.
pub proof fn law_removed_quest_is_gone(state: QuestStateView, context: QuestFunctionContext)
    requires
        spec_apply_reward(state, context, QsdReward::Quest(QsdRewardQuestAction::RemoveSelected)).0,
    ensures
        ({
            let (_, after, _) = spec_apply_reward(
                state,
                context,
                QsdReward::Quest(QsdRewardQuestAction::RemoveSelected),
            );
            spec_get_quest(after, context.selected_quest_index->0 as int) is None
        }),
{
}

/// Looking a quest up by its id finds a slot holding a quest with that id; this is the
/// slot that a successful quest selection (as a condition or a reward) selects.
pub proof fn law_found_quest_has_id(state: QuestStateView, quest_id: usize)
    requires
        spec_find_active_quest_index(state, quest_id) is Some,
    ensures
        spec_get_quest(state, spec_find_active_quest_index(state, quest_id)->0) matches Some(quest)
            && quest.quest_id == quest_id,
{
    let i = choose|i: int|
        0 <= i < state.active_quests.len() && spec_slot_has_quest(state, i, quest_id);
    lemma_find_active_quest_index(state, quest_id, i);
}

/// The global quest variables are the character's own vectors, whichever quest is
/// selected: a job variable is entry `variable_id` of the job variables, a planet variable
/// entry `variable_id` of the planet variables (and likewise for episode and union
/// variables), and there is none past the end. Reading one as a condition thus gives the
/// value that `QF_getJobVAR`, `QF_getPlanetVAR` and `QF_getEpisodeVAR` give for the same
/// id (which give -1 where there is none).
pub proof fn law_global_variables_read_their_vectors(
    state: QuestStateView,
    selected: Option<usize>,
    variable_id: usize,
    world_ticks: u64,
)
    ensures
        spec_get_quest_variable(state, selected, QsdVariableType::Job, variable_id, world_ticks) == if variable_id
            < state.job_variables.len() {
            Some(state.job_variables[variable_id as int] as i32)
        } else {
            None
        },
        spec_get_quest_variable(state, selected, QsdVariableType::Planet, variable_id, world_ticks) == if variable_id
            < state.planet_variables.len() {
            Some(state.planet_variables[variable_id as int] as i32)
        } else {
            None
        },
        spec_get_quest_variable(state, selected, QsdVariableType::Episode, variable_id, world_ticks) == if variable_id
            < state.episode_variables.len() {
            Some(state.episode_variables[variable_id as int] as i32)
        } else {
            None
        },
        spec_get_quest_variable(state, selected, QsdVariableType::Union, variable_id, world_ticks) == if variable_id
            < state.union_variables.len() {
            Some(state.union_variables[variable_id as int] as i32)
        } else {
            None
        },
        spec_entry_or(state.job_variables, Some(variable_id as int), -1) == match spec_get_quest_variable(
            state,
            selected,
            QsdVariableType::Job,
            variable_id,
            world_ticks,
        ) {
            Some(v) => v as int,
            None => -1,
        },
        spec_entry_or(state.planet_variables, Some(variable_id as int), -1) == match spec_get_quest_variable(
            state,
            selected,
            QsdVariableType::Planet,
            variable_id,
            world_ticks,
        ) {
            Some(v) => v as int,
            None => -1,
        },
        spec_entry_or(state.episode_variables, Some(variable_id as int), -1) == match spec_get_quest_variable(
            state,
            selected,
            QsdVariableType::Episode,
            variable_id,
            world_ticks,
        ) {
            Some(v) => v as int,
            None => -1,
        },
{
}

/// Writing a job variable changes entry `variable_id` of the job variables (to the value
/// truncated to 16 bits) and nothing else; writing a planet variable changes entry
/// `variable_id` of the planet variables and nothing else.
pub proof fn law_job_and_planet_writes_touch_their_vectors(
    state: QuestStateView,
    selected: Option<usize>,
    variable_id: usize,
    value: i32,
)
    ensures
        ({
            let after = spec_set_quest_variable(state, selected, QsdVariableType::Job, variable_id, value);
            &&& after.job_variables == if variable_id < state.job_variables.len() {
                state.job_variables.update(variable_id as int, value as u16)
            } else {
                state.job_variables
            }
            &&& after.planet_variables == state.planet_variables
            &&& after.episode_variables == state.episode_variables
            &&& after.union_variables == state.union_variables
            &&& after.quest_switches == state.quest_switches
            &&& after.active_quests == state.active_quests
        }),
        ({
            let after = spec_set_quest_variable(state, selected, QsdVariableType::Planet, variable_id, value);
            &&& after.planet_variables == if variable_id < state.planet_variables.len() {
                state.planet_variables.update(variable_id as int, value as u16)
            } else {
                state.planet_variables
            }
            &&& after.job_variables == state.job_variables
            &&& after.episode_variables == state.episode_variables
            &&& after.union_variables == state.union_variables
            &&& after.quest_switches == state.quest_switches
            &&& after.active_quests == state.active_quests
        }),
{
}

/// A quest selection condition holds exactly when some slot holds the quest, and then
/// selects the first slot that holds it, whatever quest was selected before; when it
/// fails, the selection stays as it was.
pub proof fn law_select_quest_selects_found_slot(
    state: QuestStateView,
    items: PlayerItems,
    selected: Option<usize>,
    other_selected: Option<usize>,
    world_ticks: u64,
    quest_id: usize,
)
    requires
        state.active_quests.len() <= usize::MAX,
    ensures
        spec_check_condition(state, items, selected, world_ticks, QsdCondition::SelectQuest(quest_id)).0
            == exists|i: int| 0 <= i < state.active_quests.len() && #[trigger] spec_slot_has_quest(state, i, quest_id),
        spec_check_condition(state, items, selected, world_ticks, QsdCondition::SelectQuest(quest_id)).0 ==> {
            let after = spec_check_condition(state, items, selected, world_ticks, QsdCondition::SelectQuest(quest_id)).1;
            &&& after is Some
            &&& after->0 < state.active_quests.len()
            &&& state.active_quests[after->0 as int] is Some
            &&& state.active_quests[after->0 as int]->0.quest_id == quest_id
            &&& forall|j: int|
                0 <= j < after->0 ==> !(#[trigger] state.active_quests[j] is Some
                    && state.active_quests[j]->0.quest_id == quest_id)
            &&& after == spec_check_condition(
                state,
                items,
                other_selected,
                world_ticks,
                QsdCondition::SelectQuest(quest_id),
            ).1
        },
        !spec_check_condition(state, items, selected, world_ticks, QsdCondition::SelectQuest(quest_id)).0
            ==> spec_check_condition(state, items, selected, world_ticks, QsdCondition::SelectQuest(quest_id)).1
            == selected,
{
    lemma_select_quest_condition(state, items, selected, world_ticks, quest_id);
    lemma_select_quest_condition(state, items, other_selected, world_ticks, quest_id);
    let found = spec_find_active_quest_index(state, quest_id);
    if exists|i: int| 0 <= i < state.active_quests.len() && spec_slot_has_quest(state, i, quest_id) {
        let i = choose|i: int| 0 <= i < state.active_quests.len() && spec_slot_has_quest(state, i, quest_id);
        lemma_find_active_quest_index(state, quest_id, i);
        let k = found->0;
        assert forall|j: int| 0 <= j < k implies !(state.active_quests[j] is Some
            && state.active_quests[j]->0.quest_id == quest_id) by {
            if spec_slot_has_quest(state, j, quest_id) {
                lemma_find_active_quest_index(state, quest_id, j);
            }
        }
    }
}

} // verus!

use vstd::prelude::*;

use crate::quest::state::{
    spec_get_quest, spec_quest_slot_view, spec_with_quest_slot, ActiveQuest, ActiveQuestView,
    QuestState, QuestStateView,
};
use crate::quest::trigger::{QsdVariableType, QuestFunctionContext};

verus! {

/// Entry `id` of `values`, widened, if there is one.
pub open spec fn spec_variable_at(values: Seq<u16>, id: usize) -> Option<i32> {
    if id < values.len() {
        Some(values[id as int] as i32)
    } else {
        None
    }
}

/// The active quest that `selected` names, if it names one.
pub open spec fn spec_selected_quest(state: QuestStateView, selected: Option<usize>) -> Option<
    ActiveQuestView,
> {
    match selected {
        Some(index) => spec_get_quest(state, index as int),
        None => None,
    }
}

/// The value of a quest variable: a variable, switch (0 or 1) or remaining time of the
/// selected quest, or an episode, job, planet or union variable. Nothing when the
/// variable does not exist.
pub open spec fn spec_get_quest_variable(
    state: QuestStateView,
    selected: Option<usize>,
    variable_type: QsdVariableType,
    variable_id: usize,
    world_ticks: u64,
) -> Option<i32> {
    let active = spec_selected_quest(state, selected);
    match variable_type {
        QsdVariableType::Variable => match active {
            Some(quest) => spec_variable_at(quest.variables, variable_id),
            None => None,
        },
        QsdVariableType::Switch => match active {
            Some(quest) => if variable_id < quest.switches.len() {
                Some(
                    if quest.switches[variable_id as int] {
                        1i32
                    } else {
                        0i32
                    },
                )
            } else {
                None
            },
            None => None,
        },
        QsdVariableType::Timer => match active {
            Some(quest) => match quest.expire_time {
                Some(expire_time) => Some(
                    (if expire_time >= world_ticks {
                        expire_time - world_ticks
                    } else {
                        0
                    }) as i32,
                ),
                None => None,
            },
            None => None,
        },
        QsdVariableType::Episode => spec_variable_at(state.episode_variables, variable_id),
        QsdVariableType::Job => spec_variable_at(state.job_variables, variable_id),
        QsdVariableType::Planet => spec_variable_at(state.planet_variables, variable_id),
        QsdVariableType::Union => spec_variable_at(state.union_variables, variable_id),
    }
}

/// `values` with entry `id`, if there is one, set to `value` truncated to 16 bits.
pub open spec fn spec_set_variable_at(values: Seq<u16>, id: usize, value: i32) -> Seq<u16> {
    if id < values.len() {
        values.update(id as int, value as u16)
    } else {
        values
    }
}

/// The quest progress after setting a quest variable: a variable (truncated to 16
/// bits) or switch (on when the value is not 0) of the selected quest, or an episode,
/// job, planet or union variable. A variable that does not exist, and the timer, are
/// left as they are.
pub open spec fn spec_set_quest_variable(
    state: QuestStateView,
    selected: Option<usize>,
    variable_type: QsdVariableType,
    variable_id: usize,
    value: i32,
) -> QuestStateView {
    match variable_type {
        QsdVariableType::Variable => match selected {
            Some(index) => match spec_get_quest(state, index as int) {
                Some(quest) => spec_with_quest_slot(
                    state,
                    index as int,
                    Some(
                        ActiveQuestView {
                            variables: spec_set_variable_at(quest.variables, variable_id, value),
                            ..quest
                        },
                    ),
                ),
                None => state,
            },
            None => state,
        },
        QsdVariableType::Switch => match selected {
            Some(index) => match spec_get_quest(state, index as int) {
                Some(quest) => spec_with_quest_slot(
                    state,
                    index as int,
                    Some(
                        ActiveQuestView {
                            switches: if variable_id < quest.switches.len() {
                                quest.switches.update(variable_id as int, value != 0)
                            } else {
                                quest.switches
                            },
                            ..quest
                        },
                    ),
                ),
                None => state,
            },
            None => state,
        },
        QsdVariableType::Timer => state,
        QsdVariableType::Episode => QuestStateView {
            episode_variables: spec_set_variable_at(state.episode_variables, variable_id, value),
            ..state
        },
        QsdVariableType::Job => QuestStateView {
            job_variables: spec_set_variable_at(state.job_variables, variable_id, value),
            ..state
        },
        QsdVariableType::Planet => QuestStateView {
            planet_variables: spec_set_variable_at(state.planet_variables, variable_id, value),
            ..state
        },
        QsdVariableType::Union => QuestStateView {
            union_variables: spec_set_variable_at(state.union_variables, variable_id, value),
            ..state
        },
    }
}

fn variable_at(values: &Vec<u16>, id: usize) -> (r: Option<i32>)
    ensures
        r == spec_variable_at(values@, id),
{
    if id < values.len() {
        Some(values[id] as i32)
    } else {
        None
    }
}

fn set_variable_at(values: &mut Vec<u16>, id: usize, value: i32)
    ensures
        final(values)@ == spec_set_variable_at(old(values)@, id, value),
{
    if id < values.len() {
        values.set(id, value as u16);
    }
}

/// The value of a quest variable.
pub fn get_quest_variable(
    quest_state: &QuestState,
    quest_context: &QuestFunctionContext,
    variable_type: QsdVariableType,
    variable_id: usize,
    world_ticks: u64,
) -> (r: Option<i32>)
    ensures
        r == spec_get_quest_variable(
            quest_state@,
            quest_context.selected_quest_index,
            variable_type,
            variable_id,
            world_ticks,
        ),
{
    let active_quest = match quest_context.selected_quest_index {
        Some(quest_index) => quest_state.get_quest(quest_index),
        None => None,
    };
    match variable_type {
        QsdVariableType::Variable => match active_quest {
            Some(active_quest) => variable_at(&active_quest.variables, variable_id),
            None => None,
        },
        QsdVariableType::Switch => match active_quest {
            Some(active_quest) => if variable_id < active_quest.switches.len() {
                Some(
                    if active_quest.switches[variable_id] {
                        1i32
                    } else {
                        0i32
                    },
                )
            } else {
                None
            },
            None => None,
        },
        QsdVariableType::Timer => match active_quest {
            Some(active_quest) => match active_quest.expire_time {
                Some(expire_time) => Some(expire_time.saturating_sub(world_ticks) as i32),
                None => None,
            },
            None => None,
        },
        QsdVariableType::Episode => variable_at(&quest_state.episode_variables, variable_id),
        QsdVariableType::Job => variable_at(&quest_state.job_variables, variable_id),
        QsdVariableType::Planet => variable_at(&quest_state.planet_variables, variable_id),
        QsdVariableType::Union => variable_at(&quest_state.union_variables, variable_id),
    }
}

/// Replaces the quest in slot `index`, which holds one, by what `change` makes of it.
fn update_quest_variables(
    quest_state: &mut QuestState,
    index: usize,
    variable_type: QsdVariableType,
    variable_id: usize,
    value: i32,
)
    requires
        index < old(quest_state).active_quests@.len(),
        old(quest_state).active_quests@[index as int] is Some,
        variable_type is Variable || variable_type is Switch,
    ensures
        final(quest_state)@ == spec_set_quest_variable(
            old(quest_state)@,
            Some(index),
            variable_type,
            variable_id,
            value,
        ),
{
    let ghost before = quest_state@;
    let slot = quest_state.active_quests.remove(index);
    let mut quest = match slot {
        Some(quest) => quest,
        None => {
            return;
        },
    };
    if matches!(variable_type, QsdVariableType::Variable) {
        set_variable_at(&mut quest.variables, variable_id, value);
    } else if variable_id < quest.switches.len() {
        quest.switches.set(variable_id, value != 0);
    }
    let ghost new_quest = quest@;
    quest_state.active_quests.insert(index, Some(quest));
    assert(quest_state@.active_quests =~= before.active_quests.update(
        index as int,
        Some(new_quest),
    ));
}

/// Sets a quest variable.
pub fn set_quest_variable(
    quest_state: &mut QuestState,
    quest_context: &QuestFunctionContext,
    variable_type: QsdVariableType,
    variable_id: usize,
    value: i32,
)
    ensures
        final(quest_state)@ == spec_set_quest_variable(
            old(quest_state)@,
            quest_context.selected_quest_index,
            variable_type,
            variable_id,
            value,
        ),
{
    match variable_type {
        QsdVariableType::Variable | QsdVariableType::Switch => {
            if let Some(quest_index) = quest_context.selected_quest_index {
                if quest_index < quest_state.active_quests.len()
                    && quest_state.active_quests[quest_index].is_some() {
                    update_quest_variables(
                        quest_state,
                        quest_index,
                        variable_type,
                        variable_id,
                        value,
                    );
                }
            }
        },
        QsdVariableType::Episode => set_variable_at(
            &mut quest_state.episode_variables,
            variable_id,
            value,
        ),
        QsdVariableType::Job => set_variable_at(&mut quest_state.job_variables, variable_id, value),
        QsdVariableType::Planet => set_variable_at(
            &mut quest_state.planet_variables,
            variable_id,
            value,
        ),
        QsdVariableType::Union => set_variable_at(
            &mut quest_state.union_variables,
            variable_id,
            value,
        ),
        QsdVariableType::Timer => {},
    }
}

} // verus!

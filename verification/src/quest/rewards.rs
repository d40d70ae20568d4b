use vstd::prelude::*;

use crate::quest::conditions::quest_condition_select_quest;
use crate::quest::state::{
    spec_find_active_quest_index, spec_first_free_slot, spec_get_quest, spec_new_active_quest,
    spec_with_quest_slot, ActiveQuest, ActiveQuestView, QuestState, QuestStateView,
};
use crate::quest::trigger::{QsdReward, QsdRewardQuestAction, QuestFunctionContext, QuestTrigger};

verus! {

/// Applying one reward: whether it succeeded, the quest progress and the context
/// afterwards.
pub open spec fn spec_apply_reward(
    state: QuestStateView,
    context: QuestFunctionContext,
    reward: QsdReward,
) -> (bool, QuestStateView, QuestFunctionContext) {
    match reward {
        QsdReward::Quest(QsdRewardQuestAction::Select(quest_id)) => match spec_find_active_quest_index(
            state,
            quest_id,
        ) {
            Some(index) => (
                true,
                state,
                QuestFunctionContext { selected_quest_index: Some(index as usize), ..context },
            ),
            None => (false, state, context),
        },
        QsdReward::Quest(QsdRewardQuestAction::RemoveSelected) => match context.selected_quest_index {
            Some(index) => if index < state.active_quests.len() {
                (true, spec_with_quest_slot(state, index as int, None), context)
            } else {
                (false, state, context)
            },
            None => (false, state, context),
        },
        QsdReward::Quest(QsdRewardQuestAction::Add(quest_id)) => match spec_first_free_slot(state) {
            Some(index) => (
                true,
                spec_with_quest_slot(
                    state,
                    index,
                    Some(spec_new_active_quest(quest_id, None)),
                ),
                if context.selected_quest_index is None {
                    QuestFunctionContext { selected_quest_index: Some(index as usize), ..context }
                } else {
                    context
                },
            ),
            None => (false, state, context),
        },
        QsdReward::Quest(QsdRewardQuestAction::ChangeSelectedIdKeepData(quest_id)) => {
            match context.selected_quest_index {
                Some(index) => match spec_get_quest(state, index as int) {
                    Some(quest) => (
                        true,
                        spec_with_quest_slot(
                            state,
                            index as int,
                            Some(ActiveQuestView { quest_id, ..quest }),
                        ),
                        context,
                    ),
                    None => (false, state, context),
                },
                None => (false, state, context),
            }
        },
        QsdReward::Quest(QsdRewardQuestAction::ChangeSelectedIdResetData(quest_id)) => {
            match context.selected_quest_index {
                Some(index) => match spec_get_quest(state, index as int) {
                    Some(quest) => (
                        true,
                        spec_with_quest_slot(
                            state,
                            index as int,
                            Some(spec_new_active_quest(quest_id, None)),
                        ),
                        context,
                    ),
                    None => (false, state, context),
                },
                None => (false, state, context),
            }
        },
        QsdReward::SetQuestSwitch(switch_id, value) => if switch_id < state.quest_switches.len() {
            (
                true,
                QuestStateView {
                    quest_switches: state.quest_switches.update(switch_id as int, value),
                    ..state
                },
                context,
            )
        } else {
            (false, state, context)
        },
        QsdReward::Trigger(name) => (
            true,
            state,
            QuestFunctionContext { next_quest_trigger: Some(name), ..context },
        ),
        QsdReward::Unsupported => (true, state, context),
    }
}

/// Applying a trigger's rewards in order, stopping at the first that fails: whether all
/// succeeded, the quest progress and the context afterwards.
pub open spec fn spec_apply_rewards(
    state: QuestStateView,
    context: QuestFunctionContext,
    rewards: Seq<QsdReward>,
) -> (bool, QuestStateView, QuestFunctionContext)
    decreases rewards.len(),
{
    if rewards.len() == 0 {
        (true, state, context)
    } else {
        let (ok, state2, context2) = spec_apply_reward(state, context, rewards[0]);
        if !ok {
            (false, state2, context2)
        } else {
            spec_apply_rewards(state2, context2, rewards.drop_first())
        }
    }
}

/// The context after only the trigger rewards of a list: the next trigger is the last
/// one that the list names.
pub open spec fn spec_skip_rewards(context: QuestFunctionContext, rewards: Seq<QsdReward>) -> QuestFunctionContext
    decreases rewards.len(),
{
    if rewards.len() == 0 {
        context
    } else {
        let context2 = match rewards[0] {
            QsdReward::Trigger(name) => QuestFunctionContext {
                next_quest_trigger: Some(name),
                ..context
            },
            _ => context,
        };
        spec_skip_rewards(context2, rewards.drop_first())
    }
}

/// Selects the first active quest `quest_id`; fails when there is none.
pub fn quest_reward_select_quest(
    quest_state: &QuestState,
    quest_context: &mut QuestFunctionContext,
    quest_id: usize,
) -> (r: bool)
    ensures
        (r, quest_state@, *final(quest_context)) == spec_apply_reward(
            quest_state@,
            *old(quest_context),
            QsdReward::Quest(QsdRewardQuestAction::Select(quest_id)),
        ),
{
    quest_condition_select_quest(quest_state, quest_context, quest_id)
}

/// Empties the slot of the selected quest; fails when no existing slot is selected.
pub fn quest_reward_remove_selected_quest(
    quest_state: &mut QuestState,
    quest_context: &QuestFunctionContext,
) -> (r: bool)
    ensures
        (r, final(quest_state)@, *quest_context) == spec_apply_reward(
            old(quest_state)@,
            *quest_context,
            QsdReward::Quest(QsdRewardQuestAction::RemoveSelected),
        ),
{
    if let Some(quest_index) = quest_context.selected_quest_index {
        if quest_index < quest_state.active_quests.len() {
            let ghost before = quest_state@;
            quest_state.active_quests.set(quest_index, None);
            assert(quest_state@.active_quests =~= before.active_quests.update(
                quest_index as int,
                None,
            ));
            return true;
        }
    }
    false
}

/// Starts the quest `quest_id` in the first empty slot, selecting it when no quest is
/// selected; fails when every slot is taken.
pub fn quest_reward_add_quest(
    quest_state: &mut QuestState,
    quest_context: &mut QuestFunctionContext,
    quest_id: usize,
) -> (r: bool)
    ensures
        (r, final(quest_state)@, *final(quest_context)) == spec_apply_reward(
            old(quest_state)@,
            *old(quest_context),
            QsdReward::Quest(QsdRewardQuestAction::Add(quest_id)),
        ),
{
    if let Some(quest_index) = quest_state.try_add_quest(ActiveQuest::new(quest_id, None)) {
        if quest_context.selected_quest_index.is_none() {
            quest_context.selected_quest_index = Some(quest_index);
        }
        return true;
    }
    false
}

/// Gives the selected quest the id `quest_id`, keeping its data or starting it afresh;
/// fails when the selected slot holds no quest.
pub fn quest_reward_change_selected_quest_id(
    quest_state: &mut QuestState,
    quest_context: &QuestFunctionContext,
    quest_id: usize,
    keep_data: bool,
) -> (r: bool)
    ensures
        (r, final(quest_state)@, *quest_context) == spec_apply_reward(
            old(quest_state)@,
            *quest_context,
            if keep_data {
                QsdReward::Quest(QsdRewardQuestAction::ChangeSelectedIdKeepData(quest_id))
            } else {
                QsdReward::Quest(QsdRewardQuestAction::ChangeSelectedIdResetData(quest_id))
            },
        ),
{
    if let Some(quest_index) = quest_context.selected_quest_index {
        if quest_index < quest_state.active_quests.len() && quest_state.active_quests[quest_index].is_some() {
            let ghost before = quest_state@;
            let slot = quest_state.active_quests.remove(quest_index);
            let quest = match slot {
                Some(quest) => quest,
                None => {
                    return false;
                },
            };
            let changed = if keep_data {
                let mut quest = quest;
                quest.quest_id = quest_id;
                quest
            } else {
                ActiveQuest::new(quest_id, None)
            };
            let ghost new_quest = changed@;
            quest_state.active_quests.insert(quest_index, Some(changed));
            assert(quest_state@.active_quests =~= before.active_quests.update(
                quest_index as int,
                Some(new_quest),
            ));
            return true;
        }
    }
    false
}

/// Sets the quest switch `switch_id`; fails when there is no such switch.
pub fn quest_reward_set_quest_switch(quest_state: &mut QuestState, switch_id: usize, value: bool) -> (r:
    bool)
    ensures
        r == (switch_id < old(quest_state).quest_switches@.len()),
        final(quest_state)@ == spec_apply_reward(
            old(quest_state)@,
            QuestFunctionContext { selected_quest_index: None, next_quest_trigger: None },
            QsdReward::SetQuestSwitch(switch_id, value),
        ).1,
{
    if switch_id < quest_state.quest_switches.len() {
        quest_state.quest_switches.set(switch_id, value);
        return true;
    }
    false
}

/// Names the trigger to run after this one.
pub fn quest_reward_set_next_trigger(quest_context: &mut QuestFunctionContext, name: String) -> (r:
    bool)
    ensures
        r,
        final(quest_context).next_quest_trigger == Some(name),
        final(quest_context).selected_quest_index == old(quest_context).selected_quest_index,
{
    quest_context.next_quest_trigger = Some(name);
    true
}

/// Applies only the trigger rewards of a trigger, as when its rewards are not given.
pub fn quest_triggers_skip_rewards(
    quest_context: &mut QuestFunctionContext,
    quest_trigger: &QuestTrigger,
) -> (r: bool)
    ensures
        r,
        *final(quest_context) == spec_skip_rewards(*old(quest_context), quest_trigger.rewards@),
{
    let ghost rewards = quest_trigger.rewards@;
    assert(rewards.skip(0) =~= rewards);
    let mut i: usize = 0;
    while i < quest_trigger.rewards.len()
        invariant
            i <= rewards.len(),
            rewards == quest_trigger.rewards@,
            spec_skip_rewards(*old(quest_context), rewards) == spec_skip_rewards(
                *quest_context,
                rewards.skip(i as int),
            ),
        decreases rewards.len() - i,
    {
        assert(rewards.skip(i as int)[0] == rewards[i as int]);
        assert(rewards.skip(i as int).drop_first() =~= rewards.skip(i + 1));
        if let QsdReward::Trigger(name) = &quest_trigger.rewards[i] {
            quest_reward_set_next_trigger(quest_context, name.clone());
        }
        i = i + 1;
    }
    assert(rewards.skip(rewards.len() as int) =~= Seq::<QsdReward>::empty());
    true
}

/// Applies a trigger's rewards in order, stopping at the first that fails.
pub fn quest_triggers_apply_rewards(
    quest_state: &mut QuestState,
    quest_context: &mut QuestFunctionContext,
    quest_trigger: &QuestTrigger,
) -> (r: bool)
    ensures
        (r, final(quest_state)@, *final(quest_context)) == spec_apply_rewards(
            old(quest_state)@,
            *old(quest_context),
            quest_trigger.rewards@,
        ),
{
    let ghost rewards = quest_trigger.rewards@;
    assert(rewards.skip(0) =~= rewards);
    let mut i: usize = 0;
    while i < quest_trigger.rewards.len()
        invariant
            i <= rewards.len(),
            rewards == quest_trigger.rewards@,
            spec_apply_rewards(old(quest_state)@, *old(quest_context), rewards)
                == spec_apply_rewards(quest_state@, *quest_context, rewards.skip(i as int)),
        decreases rewards.len() - i,
    {
        assert(rewards.skip(i as int)[0] == rewards[i as int]);
        assert(rewards.skip(i as int).drop_first() =~= rewards.skip(i + 1));
        let result = match &quest_trigger.rewards[i] {
            QsdReward::Quest(QsdRewardQuestAction::Select(quest_id)) => quest_reward_select_quest(
                quest_state,
                quest_context,
                *quest_id,
            ),
            QsdReward::Quest(QsdRewardQuestAction::RemoveSelected) => {
                quest_reward_remove_selected_quest(quest_state, quest_context)
            },
            QsdReward::Quest(QsdRewardQuestAction::Add(quest_id)) => quest_reward_add_quest(
                quest_state,
                quest_context,
                *quest_id,
            ),
            QsdReward::Quest(QsdRewardQuestAction::ChangeSelectedIdKeepData(quest_id)) => {
                quest_reward_change_selected_quest_id(quest_state, quest_context, *quest_id, true)
            },
            QsdReward::Quest(QsdRewardQuestAction::ChangeSelectedIdResetData(quest_id)) => {
                quest_reward_change_selected_quest_id(quest_state, quest_context, *quest_id, false)
            },
            QsdReward::SetQuestSwitch(switch_id, value) => quest_reward_set_quest_switch(
                quest_state,
                *switch_id,
                *value,
            ),
            QsdReward::Trigger(name) => quest_reward_set_next_trigger(quest_context, name.clone()),
            QsdReward::Unsupported => true,
        };
        if !result {
            return false;
        }
        i = i + 1;
    }
    assert(rewards.skip(rewards.len() as int) =~= Seq::<QsdReward>::empty());
    true
}

/// Decides the trigger that follows one run of a trigger: when its conditions and
/// rewards passed, the trigger its rewards named (taken out of the context), if any;
/// otherwise the trigger's own successor.
pub fn quest_next_trigger_name(
    quest_trigger: &QuestTrigger,
    passed: bool,
    quest_context: &mut QuestFunctionContext,
) -> (r: Option<String>)
    ensures
        passed ==> r == old(quest_context).next_quest_trigger
            && final(quest_context).next_quest_trigger is None,
        !passed ==> r == quest_trigger.next_trigger_name && final(quest_context).next_quest_trigger
            == old(quest_context).next_quest_trigger,
        final(quest_context).selected_quest_index == old(quest_context).selected_quest_index,
{
    if passed {
        let next = quest_context.next_quest_trigger.take();
        next
    } else {
        match &quest_trigger.next_trigger_name {
            Some(name) => Some(name.clone()),
            None => None,
        }
    }
}

} // verus!

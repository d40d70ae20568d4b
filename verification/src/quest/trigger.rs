use vstd::prelude::*;

use crate::quest::state::{ItemReference, ItemStack};

verus! {

/// How a condition compares a value with its operand.
#[derive(Copy, Clone, Debug, PartialEq, Eq, Structural)]
pub enum QsdConditionOperator {
    Equals,
    GreaterThan,
    GreaterThanEqual,
    LessThan,
    LessThanEqual,
    NotEqual,
}

/// Which quest variable a condition or reward refers to.
#[derive(Copy, Clone, Debug, PartialEq, Eq, Structural)]
pub enum QsdVariableType {
    Variable,
    Switch,
    Timer,
    Episode,
    Job,
    Planet,
    Union,
}

/// A condition on one item: that the equipment slot holds it, or that the held
/// quantity of it compares with `required_count` as `operator` says.
#[derive(Copy, Clone, Debug)]
pub struct QsdConditionQuestItem {
    pub item: Option<ItemReference>,
    pub equipment_index: Option<usize>,
    pub required_count: u32,
    pub operator: QsdConditionOperator,
}

/// A condition on one quest variable.
#[derive(Copy, Clone, Debug)]
pub struct QsdConditionQuestVariable {
    pub variable_type: QsdVariableType,
    pub variable_id: usize,
    pub operator: QsdConditionOperator,
    pub value: i32,
}

/// A condition of a quest trigger. `Unsupported` stands for the kinds of condition that
/// the client does not evaluate; such a condition fails.
#[derive(Debug)]
pub enum QsdCondition {
    QuestItems(Vec<QsdConditionQuestItem>),
    QuestVariable(Vec<QsdConditionQuestVariable>),
    QuestSwitch(usize, bool),
    SelectQuest(usize),
    Unsupported,
}

/// A change to the list of active quests.
#[derive(Copy, Clone, Debug)]
pub enum QsdRewardQuestAction {
    Select(usize),
    RemoveSelected,
    Add(usize),
    ChangeSelectedIdKeepData(usize),
    ChangeSelectedIdResetData(usize),
}

/// A reward of a quest trigger. `Unsupported` stands for the kinds of reward that the
/// client does not apply; such a reward succeeds without effect.
#[derive(Debug)]
pub enum QsdReward {
    Quest(QsdRewardQuestAction),
    SetQuestSwitch(usize, bool),
    Trigger(String),
    Unsupported,
}

/// A quest trigger: conditions, rewards, and the trigger tried when its conditions fail.
#[derive(Debug)]
pub struct QuestTrigger {
    pub name: String,
    pub conditions: Vec<QsdCondition>,
    pub rewards: Vec<QsdReward>,
    pub next_trigger_name: Option<String>,
}

/// The state that one run of quest triggers carries from function to function.
#[derive(Debug)]
pub struct QuestFunctionContext {
    pub selected_quest_index: Option<usize>,
    pub next_quest_trigger: Option<String>,
}

impl Default for QuestFunctionContext {
    fn default() -> (r: Self)
        ensures
            r.selected_quest_index is None,
            r.next_quest_trigger is None,
    {
        QuestFunctionContext { selected_quest_index: None, next_quest_trigger: None }
    }
}

/// The items of the player's character that quest conditions look at: what each
/// equipment slot holds, and the inventory slots.
#[derive(Debug)]
pub struct PlayerItems {
    pub equipment: Vec<Option<ItemReference>>,
    pub inventory: Vec<Option<ItemStack>>,
}

/// Error of running a quest trigger.
#[derive(Copy, Clone, Debug, PartialEq, Eq, Structural)]
pub enum QuestError {
    TriggerNotFound,
}

} // verus!

pub mod conditions;
pub mod laws;
pub mod rewards;
pub mod state;
pub mod trigger;
pub mod variables;

pub use state::{ActiveQuest, ItemReference, ItemStack, ItemType, QuestState};
pub use trigger::{
    PlayerItems, QsdCondition, QsdConditionOperator, QsdConditionQuestItem,
    QsdConditionQuestVariable, QsdReward, QsdRewardQuestAction, QsdVariableType, QuestError,
    QuestFunctionContext, QuestTrigger,
};

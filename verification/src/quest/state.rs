use vstd::prelude::*;

verus! {

/// Number of variables of an active quest.
pub const ACTIVE_QUEST_VARIABLE_COUNT: usize = 10;

/// Number of switches of an active quest.
pub const ACTIVE_QUEST_SWITCH_COUNT: usize = 32;

/// Number of item slots of an active quest.
pub const ACTIVE_QUEST_ITEM_SLOT_COUNT: usize = 6;

/// The kind of an item.
#[derive(Copy, Clone, Debug, PartialEq, Eq, Structural)]
pub enum ItemType {
    Face,
    Head,
    Body,
    Hands,
    Feet,
    Back,
    Jewellery,
    Weapon,
    SubWeapon,
    Consumable,
    Gem,
    Material,
    Quest,
    Vehicle,
}

impl ItemType {
    /// Whether items of this kind are quest items, kept with the quest that needs them.
    pub fn is_quest_item(&self) -> (r: bool)
        ensures
            r == (*self is Quest),
    {
        matches!(self, ItemType::Quest)
    }
}

/// Which item: its kind and its number within the kind.
#[derive(Copy, Clone, Debug, PartialEq, Eq, Structural)]
pub struct ItemReference {
    pub item_type: ItemType,
    pub item_number: usize,
}

/// A held item and how many of it are held.
#[derive(Copy, Clone, Debug, PartialEq, Eq, Structural)]
pub struct ItemStack {
    pub item: ItemReference,
    pub quantity: u32,
}

/// A quest that the character is doing.
#[derive(Debug)]
pub struct ActiveQuest {
    pub quest_id: usize,
    pub expire_time: Option<u64>,
    pub variables: Vec<u16>,
    pub switches: Vec<bool>,
    pub items: Vec<Option<ItemStack>>,
}

/// An active quest as plain values.
pub struct ActiveQuestView {
    pub quest_id: usize,
    pub expire_time: Option<u64>,
    pub variables: Seq<u16>,
    pub switches: Seq<bool>,
    pub items: Seq<Option<ItemStack>>,
}

impl View for ActiveQuest {
    type V = ActiveQuestView;

    open spec fn view(&self) -> ActiveQuestView {
        ActiveQuestView {
            quest_id: self.quest_id,
            expire_time: self.expire_time,
            variables: self.variables@,
            switches: self.switches@,
            items: self.items@,
        }
    }
}

/// The quest progress of a character.
#[derive(Debug)]
pub struct QuestState {
    pub episode_variables: Vec<u16>,
    pub job_variables: Vec<u16>,
    pub planet_variables: Vec<u16>,
    pub union_variables: Vec<u16>,
    pub quest_switches: Vec<bool>,
    pub active_quests: Vec<Option<ActiveQuest>>,
}

/// The quest progress of a character as plain values.
pub struct QuestStateView {
    pub episode_variables: Seq<u16>,
    pub job_variables: Seq<u16>,
    pub planet_variables: Seq<u16>,
    pub union_variables: Seq<u16>,
    pub quest_switches: Seq<bool>,
    pub active_quests: Seq<Option<ActiveQuestView>>,
}

/// The view of an optional active quest.
pub open spec fn spec_quest_slot_view(slot: Option<ActiveQuest>) -> Option<ActiveQuestView> {
    match slot {
        Some(quest) => Some(quest@),
        None => None,
    }
}

impl View for QuestState {
    type V = QuestStateView;

    open spec fn view(&self) -> QuestStateView {
        QuestStateView {
            episode_variables: self.episode_variables@,
            job_variables: self.job_variables@,
            planet_variables: self.planet_variables@,
            union_variables: self.union_variables@,
            quest_switches: self.quest_switches@,
            active_quests: self.active_quests@.map_values(
                |slot: Option<ActiveQuest>| spec_quest_slot_view(slot),
            ),
        }
    }
}

/// A freshly started quest: all variables zero, all switches off, no items.
pub open spec fn spec_new_active_quest(quest_id: usize, expire_time: Option<u64>) -> ActiveQuestView {
    ActiveQuestView {
        quest_id,
        expire_time,
        variables: Seq::new(ACTIVE_QUEST_VARIABLE_COUNT as nat, |i: int| 0u16),
        switches: Seq::new(ACTIVE_QUEST_SWITCH_COUNT as nat, |i: int| false),
        items: Seq::new(ACTIVE_QUEST_ITEM_SLOT_COUNT as nat, |i: int| None::<ItemStack>),
    }
}

/// The quest in slot `index`, if the slot exists and holds one.
pub open spec fn spec_get_quest(state: QuestStateView, index: int) -> Option<ActiveQuestView> {
    if 0 <= index < state.active_quests.len() {
        state.active_quests[index]
    } else {
        None
    }
}

/// Slot `index` holds the quest `quest_id`.
pub open spec fn spec_slot_has_quest(state: QuestStateView, index: int, quest_id: usize) -> bool {
    state.active_quests[index] matches Some(q) && q.quest_id == quest_id
}

/// The first slot holding the quest `quest_id`.
pub open spec fn spec_find_active_quest_index(state: QuestStateView, quest_id: usize) -> Option<
    int,
> {
    if exists|i: int| 0 <= i < state.active_quests.len() && spec_slot_has_quest(state, i, quest_id) {
        Some(
            choose|i: int|
                0 <= i < state.active_quests.len() && spec_slot_has_quest(state, i, quest_id) && (
                forall|j: int| 0 <= j < i ==> !spec_slot_has_quest(state, j, quest_id)),
        )
    } else {
        None
    }
}

/// The quest progress with slot `index` replaced by `slot`.
pub open spec fn spec_with_quest_slot(
    state: QuestStateView,
    index: int,
    slot: Option<ActiveQuestView>,
) -> QuestStateView {
    QuestStateView { active_quests: state.active_quests.update(index, slot), ..state }
}

/// The first empty quest slot.
pub open spec fn spec_first_free_slot(state: QuestStateView) -> Option<int> {
    if exists|i: int| 0 <= i < state.active_quests.len() && state.active_quests[i] is None {
        Some(
            choose|i: int|
                0 <= i < state.active_quests.len() && state.active_quests[i] is None && (forall|
                    j: int,
                | 0 <= j < i ==> !(state.active_quests[j] is None)),
        )
    } else {
        None
    }
}

/// Slot `i` of `slots` holds a stack of `item`.
pub open spec fn spec_slot_holds(slots: Seq<Option<ItemStack>>, i: int, item: ItemReference) -> bool {
    slots[i] matches Some(s) && s.item == item
}

/// When some slot holds the quest `quest_id`, the first such slot is found, and it lies
/// no later than any slot that holds it.
pub proof fn lemma_find_active_quest_index(state: QuestStateView, quest_id: usize, i: int)
    requires
        0 <= i < state.active_quests.len(),
        spec_slot_has_quest(state, i, quest_id),
    ensures
        spec_find_active_quest_index(state, quest_id) matches Some(k) && 0 <= k <= i
            && spec_slot_has_quest(state, k, quest_id),
    decreases i,
{
    if exists|j: int| 0 <= j < i && spec_slot_has_quest(state, j, quest_id) {
        let j = choose|j: int| 0 <= j < i && spec_slot_has_quest(state, j, quest_id);
        lemma_find_active_quest_index(state, quest_id, j);
    } else {
        assert(0 <= i < state.active_quests.len() && spec_slot_has_quest(state, i, quest_id) && (
        forall|j: int| 0 <= j < i ==> !spec_slot_has_quest(state, j, quest_id)));
    }
}

/// When some slot is empty, the first empty slot is found, and it lies no later than
/// any empty slot.
pub proof fn lemma_first_free_slot(state: QuestStateView, i: int)
    requires
        0 <= i < state.active_quests.len(),
        state.active_quests[i] is None,
    ensures
        spec_first_free_slot(state) matches Some(k) && 0 <= k <= i && state.active_quests[k] is None,
    decreases i,
{
    if exists|j: int| 0 <= j < i && state.active_quests[j] is None {
        let j = choose|j: int| 0 <= j < i && state.active_quests[j] is None;
        lemma_first_free_slot(state, j);
    } else {
        assert(0 <= i < state.active_quests.len() && state.active_quests[i] is None && (forall|
            j: int,
        | 0 <= j < i ==> !(state.active_quests[j] is None)));
    }
}

/// The first held item stack of the item `item` among `slots`.
pub open spec fn spec_find_item(slots: Seq<Option<ItemStack>>, item: ItemReference) -> Option<
    ItemStack,
> {
    if exists|i: int| 0 <= i < slots.len() && spec_slot_holds(slots, i, item) {
        let i = choose|i: int|
            0 <= i < slots.len() && spec_slot_holds(slots, i, item) && (forall|j: int|
                0 <= j < i ==> !spec_slot_holds(slots, j, item));
        slots[i]
    } else {
        None
    }
}

/// The quantity of the first held stack of `item` among `slots`, or 0.
pub open spec fn spec_item_quantity(slots: Seq<Option<ItemStack>>, item: ItemReference) -> u32 {
    match spec_find_item(slots, item) {
        Some(s) => s.quantity,
        None => 0,
    }
}

/// The first held stack of `item` among `slots`.
pub fn find_item(slots: &Vec<Option<ItemStack>>, item: ItemReference) -> (r: Option<ItemStack>)
    ensures
        r == spec_find_item(slots@, item),
{
    let mut i: usize = 0;
    while i < slots.len()
        invariant
            i <= slots@.len(),
            forall|j: int| 0 <= j < i ==> !spec_slot_holds(slots@, j, item),
        decreases slots.len() - i,
    {
        if let Some(stack) = slots[i] {
            if stack.item == item {
                proof {
                    assert(spec_slot_holds(slots@, i as int, item));
                    assert(exists|k: int|
                        0 <= k < slots@.len() && spec_slot_holds(slots@, k, item) && (forall|j: int|
                            0 <= j < k ==> !spec_slot_holds(slots@, j, item)));
                    let k = choose|k: int|
                        0 <= k < slots@.len() && spec_slot_holds(slots@, k, item) && (
                        forall|j: int|
                            0 <= j < k ==> !spec_slot_holds(slots@, j, item));
                    if k < i {
                    } else if k > i {
                        assert(!spec_slot_holds(slots@, i as int, item));
                    }
                }
                return Some(stack);
            }
        }
        i = i + 1;
    }
    None
}

impl ActiveQuest {
    /// A freshly started quest.
    pub fn new(quest_id: usize, expire_time: Option<u64>) -> (q: Self)
        ensures
            q@ == spec_new_active_quest(quest_id, expire_time),
    {
        let mut variables: Vec<u16> = Vec::new();
        let mut switches: Vec<bool> = Vec::new();
        let mut items: Vec<Option<ItemStack>> = Vec::new();
        let mut i: usize = 0;
        while i < ACTIVE_QUEST_VARIABLE_COUNT
            invariant
                i <= ACTIVE_QUEST_VARIABLE_COUNT,
                variables@ == Seq::new(i as nat, |j: int| 0u16),
            decreases ACTIVE_QUEST_VARIABLE_COUNT - i,
        {
            variables.push(0);
            i = i + 1;
            assert(variables@ =~= Seq::new(i as nat, |j: int| 0u16));
        }
        i = 0;
        while i < ACTIVE_QUEST_SWITCH_COUNT
            invariant
                i <= ACTIVE_QUEST_SWITCH_COUNT,
                switches@ == Seq::new(i as nat, |j: int| false),
            decreases ACTIVE_QUEST_SWITCH_COUNT - i,
        {
            switches.push(false);
            i = i + 1;
            assert(switches@ =~= Seq::new(i as nat, |j: int| false));
        }
        i = 0;
        while i < ACTIVE_QUEST_ITEM_SLOT_COUNT
            invariant
                i <= ACTIVE_QUEST_ITEM_SLOT_COUNT,
                items@ == Seq::new(i as nat, |j: int| None::<ItemStack>),
            decreases ACTIVE_QUEST_ITEM_SLOT_COUNT - i,
        {
            items.push(None);
            i = i + 1;
            assert(items@ =~= Seq::new(i as nat, |j: int| None::<ItemStack>));
        }
        ActiveQuest { quest_id, expire_time, variables, switches, items }
    }

    /// The first stack of `item` that the quest holds.
    pub fn find_item(&self, item: ItemReference) -> (r: Option<ItemStack>)
        ensures
            r == spec_find_item(self.items@, item),
    {
        find_item(&self.items, item)
    }
}

impl QuestState {
    /// The quest in slot `index`.
    pub fn get_quest(&self, index: usize) -> (r: Option<&ActiveQuest>)
        ensures
            spec_get_quest(self@, index as int) == match r {
                Some(q) => Some(q@),
                None => None::<ActiveQuestView>,
            },
            r matches Some(q) ==> index < self.active_quests@.len() && self.active_quests@[index as int]
                == Some(*q),
    {
        if index < self.active_quests.len() {
            match &self.active_quests[index] {
                Some(quest) => Some(quest),
                None => None,
            }
        } else {
            None
        }
    }

    /// The first slot that holds the quest `quest_id`.
    pub fn find_active_quest_index(&self, quest_id: usize) -> (r: Option<usize>)
        ensures
            r matches Some(i) ==> spec_find_active_quest_index(self@, quest_id) == Some(i as int),
            r is None ==> spec_find_active_quest_index(self@, quest_id) is None,
    {
        let ghost view = self@;
        let mut i: usize = 0;
        while i < self.active_quests.len()
            invariant
                i <= self.active_quests@.len(),
                view == self@,
                forall|j: int| 0 <= j < i ==> !spec_slot_has_quest(view, j, quest_id),
            decreases self.active_quests.len() - i,
        {
            let found = match &self.active_quests[i] {
                Some(quest) => quest.quest_id == quest_id,
                None => false,
            };
            if found {
                assert(spec_slot_has_quest(view, i as int, quest_id));
                proof {
                    let k = choose|k: int|
                        0 <= k < view.active_quests.len() && spec_slot_has_quest(view, k, quest_id)
                            && (forall|j: int| 0 <= j < k ==> !spec_slot_has_quest(view, j, quest_id));
                    if k > i {
                        assert(!spec_slot_has_quest(view, i as int, quest_id));
                    }
                }
                return Some(i);
            }
            assert(!spec_slot_has_quest(view, i as int, quest_id));
            i = i + 1;
        }
        None
    }

    /// Puts `quest` into the first empty slot and gives that slot's index; nothing when
    /// every slot is taken.
    pub fn try_add_quest(&mut self, quest: ActiveQuest) -> (r: Option<usize>)
        ensures
            r matches Some(i) ==> spec_first_free_slot(old(self)@) == Some(i as int),
            r matches Some(i) ==> final(self)@ == spec_with_quest_slot(
                old(self)@,
                i as int,
                Some(quest@),
            ),
            r is None ==> spec_first_free_slot(old(self)@) is None && final(self)@ == old(self)@,
    {
        let ghost view = self@;
        let mut i: usize = 0;
        while i < self.active_quests.len()
            invariant
                i <= self.active_quests@.len(),
                view == self@,
                view == old(self)@,
                forall|j: int| 0 <= j < i ==> !(view.active_quests[j] is None),
            decreases self.active_quests.len() - i,
        {
            if self.active_quests[i].is_none() {
                proof {
                    assert(view.active_quests[i as int] is None);
                    assert(exists|k: int|
                        0 <= k < view.active_quests.len() && view.active_quests[k] is None && (
                        forall|j: int| 0 <= j < k ==> !(view.active_quests[j] is None)));
                    let k = choose|k: int|
                        0 <= k < view.active_quests.len() && view.active_quests[k] is None && (
                        forall|j: int| 0 <= j < k ==> !(view.active_quests[j] is None));
                    if k > i {
                        assert(!(view.active_quests[i as int] is None));
                    }
                }
                self.active_quests.set(i, Some(quest));
                assert(self@.active_quests =~= view.active_quests.update(i as int, Some(quest@)));
                return Some(i);
            }
            assert(!(view.active_quests[i as int] is None));
            i = i + 1;
        }
        None
    }
}

} // verus!

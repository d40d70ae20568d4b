use vstd::prelude::*;

use crate::lua4::convert::spec_value_to_usize;
use crate::lua4::number::{spec_checked_int, spec_denotes_integer, spec_saturating_int, Lua4Number};
use crate::lua4::value::Lua4Value;
use crate::quest::state::{spec_find_active_quest_index, spec_get_quest, QuestState};

verus! {

/// The script variable of the character's gender.
pub const SV_SEX: i32 = 0;
/// The script variable of the character's birth stone.
pub const SV_BIRTH: i32 = 1;
/// The script variable of the character's job.
pub const SV_CLASS: i32 = 2;
/// The script variable of the character's union.
pub const SV_UNION: i32 = 3;
/// The script variable of the character's rank.
pub const SV_RANK: i32 = 4;
/// The script variable of the character's fame.
pub const SV_FAME: i32 = 5;
/// The script variable of the character's strength.
pub const SV_STR: i32 = 6;
/// The script variable of the character's dexterity.
pub const SV_DEX: i32 = 7;
/// The script variable of the character's intelligence.
pub const SV_INT: i32 = 8;
/// The script variable of the character's concentration.
pub const SV_CON: i32 = 9;
/// The script variable of the character's charm.
pub const SV_CHA: i32 = 10;
/// The script variable of the character's sense.
pub const SV_SEN: i32 = 11;
/// The script variable of the character's experience points.
pub const SV_EXP: i32 = 12;
/// The script variable of the character's level.
pub const SV_LEVEL: i32 = 13;
/// The script variable of the character's stat points.
pub const SV_POINT: i32 = 14;

/// The gender of a character.
#[derive(Copy, Clone, Debug, PartialEq, Eq, Structural)]
pub enum CharacterGender {
    Male,
    Female,
}

/// What scripts read of the player's character.
#[derive(Copy, Clone, Debug)]
pub struct ScriptCharacter {
    pub gender: CharacterGender,
    pub birth_stone: u8,
    pub job: u16,
    pub current_union: Option<usize>,
    pub rank: u8,
    pub fame: u8,
    pub strength: i32,
    pub dexterity: i32,
    pub intelligence: i32,
    pub concentration: i32,
    pub charm: i32,
    pub sense: i32,
    pub xp: u64,
    pub level: u32,
}

/// What a script can learn of a non-player character: its id and its quest index.
#[derive(Copy, Clone, Debug)]
pub struct NpcQuestIndex {
    pub npc_id: usize,
    pub quest_index: u16,
}

/// A host function's results are the single number `v`.
pub open spec fn spec_int_result(results: Seq<Lua4Value>, v: int) -> bool {
    &&& results.len() == 1
    &&& results[0] matches Lua4Value::Number(x) && spec_denotes_integer(x.bits, v)
}

/// The parameter at `index` read as a `usize`, if there is one and it converts.
pub open spec fn spec_usize_parameter(parameters: Seq<Lua4Value>, index: int) -> Option<int> {
    if 0 <= index < parameters.len() {
        spec_value_to_usize(parameters[index])
    } else {
        None
    }
}

/// Entry `id` of `values`, widened, or `fallback`.
pub open spec fn spec_entry_or(values: Seq<u16>, id: Option<int>, fallback: int) -> int {
    match id {
        Some(i) => if 0 <= i < values.len() {
            values[i] as int
        } else {
            fallback
        },
        None => fallback,
    }
}

/// Switch `id` of `switches` as 0 or 1, or `fallback`.
pub open spec fn spec_switch_or(switches: Seq<bool>, id: Option<int>, fallback: int) -> int {
    match id {
        Some(i) => if 0 <= i < switches.len() {
            if switches[i] {
                1
            } else {
                0
            }
        } else {
            fallback
        },
        None => fallback,
    }
}

/// The single number `v` as a host function's results.
fn int_result(v: i32) -> (r: Vec<Lua4Value>)
    ensures
        spec_int_result(r@, v as int),
{
    let mut results: Vec<Lua4Value> = Vec::new();
    results.push(Lua4Value::Number(Lua4Number::from_i32(v)));
    results
}

/// The parameter at `index` read as a `usize`.
fn usize_parameter(parameters: &[Lua4Value], index: usize) -> (r: Option<usize>)
    ensures
        r matches Some(v) ==> spec_usize_parameter(parameters@, index as int) == Some(v as int),
        r is None ==> spec_usize_parameter(parameters@, index as int) is None,
{
    if index < parameters.len() {
        match parameters[index].to_usize() {
            Ok(v) => Some(v),
            Err(_) => None,
        }
    } else {
        None
    }
}

/// Entry `id` of `values`, widened.
fn entry(values: &Vec<u16>, id: usize) -> (r: Option<i32>)
    ensures
        r matches Some(v) ==> id < values@.len() && v == values@[id as int],
        r is None ==> id >= values@.len(),
{
    if id < values.len() {
        Some(values[id] as i32)
    } else {
        None
    }
}

/// `QF_findQuest(quest_id)`: the first slot holding the quest, or -1.
#[allow(non_snake_case)]
pub fn QF_findQuest(quest_state: Option<&QuestState>, parameters: &[Lua4Value]) -> (r: Vec<
    Lua4Value,
>)
    ensures
        spec_int_result(
            r@,
            match (spec_usize_parameter(parameters@, 0), quest_state) {
                (Some(quest_id), Some(state)) => match spec_find_active_quest_index(
                    state@,
                    quest_id as usize,
                ) {
                    Some(index) => (index as i32) as int,
                    None => -1,
                },
                _ => -1,
            },
        ),
{
    let result = match (usize_parameter(parameters, 0), quest_state) {
        (Some(quest_id), Some(state)) => match state.find_active_quest_index(quest_id) {
            Some(index) => index as i32,
            None => -1,
        },
        _ => -1,
    };
    int_result(result)
}

/// Reads entry `parameter 0` of one list of quest-state variables, or -1.
fn variable_result(values: Option<&Vec<u16>>, parameters: &[Lua4Value]) -> (r: Vec<Lua4Value>)
    ensures
        spec_int_result(
            r@,
            match values {
                Some(v) => spec_entry_or(v@, spec_usize_parameter(parameters@, 0), -1),
                None => -1,
            },
        ),
{
    let result = match (usize_parameter(parameters, 0), values) {
        (Some(id), Some(values)) => match entry(values, id) {
            Some(v) => v,
            None => -1,
        },
        _ => -1,
    };
    int_result(result)
}

/// `QF_getEpisodeVAR(id)`: the episode variable, or -1.
#[allow(non_snake_case)]
pub fn QF_getEpisodeVAR(quest_state: Option<&QuestState>, parameters: &[Lua4Value]) -> (r: Vec<
    Lua4Value,
>)
    ensures
        spec_int_result(
            r@,
            match quest_state {
                Some(state) => spec_entry_or(
                    state.episode_variables@,
                    spec_usize_parameter(parameters@, 0),
                    -1,
                ),
                None => -1,
            },
        ),
{
    match quest_state {
        Some(state) => variable_result(Some(&state.episode_variables), parameters),
        None => variable_result(None, parameters),
    }
}

/// `QF_getJobVAR(id)`: the job variable, or -1.
#[allow(non_snake_case)]
pub fn QF_getJobVAR(quest_state: Option<&QuestState>, parameters: &[Lua4Value]) -> (r: Vec<
    Lua4Value,
>)
    ensures
        spec_int_result(
            r@,
            match quest_state {
                Some(state) => spec_entry_or(
                    state.job_variables@,
                    spec_usize_parameter(parameters@, 0),
                    -1,
                ),
                None => -1,
            },
        ),
{
    match quest_state {
        Some(state) => variable_result(Some(&state.job_variables), parameters),
        None => variable_result(None, parameters),
    }
}

/// `QF_getPlanetVAR(id)`: the planet variable, or -1.
#[allow(non_snake_case)]
pub fn QF_getPlanetVAR(quest_state: Option<&QuestState>, parameters: &[Lua4Value]) -> (r: Vec<
    Lua4Value,
>)
    ensures
        spec_int_result(
            r@,
            match quest_state {
                Some(state) => spec_entry_or(
                    state.planet_variables@,
                    spec_usize_parameter(parameters@, 0),
                    -1,
                ),
                None => -1,
            },
        ),
{
    match quest_state {
        Some(state) => variable_result(Some(&state.planet_variables), parameters),
        None => variable_result(None, parameters),
    }
}

/// The number of occupied quest slots.
pub open spec fn spec_quest_count(slots: Seq<Option<crate::quest::state::ActiveQuestView>>) -> int
    decreases slots.len(),
{
    if slots.len() == 0 {
        0
    } else {
        spec_quest_count(slots.drop_last()) + if slots.last() is Some {
            1int
        } else {
            0int
        }
    }
}

proof fn lemma_quest_count_bounded(slots: Seq<Option<crate::quest::state::ActiveQuestView>>)
    ensures
        0 <= spec_quest_count(slots) <= slots.len(),
    decreases slots.len(),
{
    if slots.len() > 0 {
        lemma_quest_count_bounded(slots.drop_last());
    }
}

/// `QF_getQuestCount()`: the number of active quests, or 0.
#[allow(non_snake_case)]
pub fn QF_getQuestCount(quest_state: Option<&QuestState>, _parameters: &[Lua4Value]) -> (r: Vec<
    Lua4Value,
>)
    ensures
        spec_int_result(
            r@,
            match quest_state {
                Some(state) => (spec_quest_count(state@.active_quests) as usize as i32) as int,
                None => 0,
            },
        ),
{
    match quest_state {
        Some(state) => {
            let ghost slots = state@.active_quests;
            let mut count: usize = 0;
            let mut i: usize = 0;
            while i < state.active_quests.len()
                invariant
                    i <= state.active_quests@.len(),
                    slots == state@.active_quests,
                    count == spec_quest_count(slots.subrange(0, i as int)),
                    count <= i,
                decreases state.active_quests.len() - i,
            {
                assert(slots.subrange(0, i + 1).drop_last() =~= slots.subrange(0, i as int));
                if state.active_quests[i].is_some() {
                    count = count + 1;
                }
                i = i + 1;
            }
            assert(slots.subrange(0, slots.len() as int) =~= slots);
            int_result(count as i32)
        },
        None => int_result(0),
    }
}

/// `QF_getQuestID(index)`: the id of the quest in the slot, or -1.
#[allow(non_snake_case)]
pub fn QF_getQuestID(quest_state: Option<&QuestState>, parameters: &[Lua4Value]) -> (r: Vec<
    Lua4Value,
>)
    ensures
        spec_int_result(
            r@,
            match (spec_usize_parameter(parameters@, 0), quest_state) {
                (Some(index), Some(state)) => match spec_get_quest(state@, index) {
                    Some(quest) => (quest.quest_id as i32) as int,
                    None => -1,
                },
                _ => -1,
            },
        ),
{
    let result = match (usize_parameter(parameters, 0), quest_state) {
        (Some(index), Some(state)) => match state.get_quest(index) {
            Some(quest) => quest.quest_id as i32,
            None => -1,
        },
        _ => -1,
    };
    int_result(result)
}

/// `QF_getQuestSwitch(index, id)`: the switch of the quest in the slot as 0 or 1, or -1.
#[allow(non_snake_case)]
pub fn QF_getQuestSwitch(quest_state: Option<&QuestState>, parameters: &[Lua4Value]) -> (r: Vec<
    Lua4Value,
>)
    ensures
        spec_int_result(
            r@,
            match (
                spec_usize_parameter(parameters@, 0),
                spec_usize_parameter(parameters@, 1),
                quest_state,
            ) {
                (Some(index), Some(id), Some(state)) => match spec_get_quest(state@, index) {
                    Some(quest) => spec_switch_or(quest.switches, Some(id), -1),
                    None => -1,
                },
                _ => -1,
            },
        ),
{
    let result = match (usize_parameter(parameters, 0), usize_parameter(parameters, 1), quest_state) {
        (Some(index), Some(id), Some(state)) => match state.get_quest(index) {
            Some(quest) => if id < quest.switches.len() {
                if quest.switches[id] {
                    1
                } else {
                    0
                }
            } else {
                -1
            },
            None => -1,
        },
        _ => -1,
    };
    int_result(result)
}

/// `QF_getQuestVar(index, id)`: the variable of the quest in the slot, or -1.
#[allow(non_snake_case)]
pub fn QF_getQuestVar(quest_state: Option<&QuestState>, parameters: &[Lua4Value]) -> (r: Vec<
    Lua4Value,
>)
    ensures
        spec_int_result(
            r@,
            match (
                spec_usize_parameter(parameters@, 0),
                spec_usize_parameter(parameters@, 1),
                quest_state,
            ) {
                (Some(index), Some(id), Some(state)) => match spec_get_quest(state@, index) {
                    Some(quest) => spec_entry_or(quest.variables, Some(id), -1),
                    None => -1,
                },
                _ => -1,
            },
        ),
{
    let result = match (usize_parameter(parameters, 0), usize_parameter(parameters, 1), quest_state) {
        (Some(index), Some(id), Some(state)) => match state.get_quest(index) {
            Some(quest) => match entry(&quest.variables, id) {
                Some(v) => v,
                None => -1,
            },
            None => -1,
        },
        _ => -1,
    };
    int_result(result)
}

/// `QF_getUserSwitch(id)`: the quest switch as 0 or 1, or -1.
#[allow(non_snake_case)]
pub fn QF_getUserSwitch(quest_state: Option<&QuestState>, parameters: &[Lua4Value]) -> (r: Vec<
    Lua4Value,
>)
    ensures
        spec_int_result(
            r@,
            match quest_state {
                Some(state) => spec_switch_or(
                    state.quest_switches@,
                    spec_usize_parameter(parameters@, 0),
                    -1,
                ),
                None => -1,
            },
        ),
{
    let result = match (usize_parameter(parameters, 0), quest_state) {
        (Some(id), Some(state)) => if id < state.quest_switches.len() {
            if state.quest_switches[id] {
                1
            } else {
                0
            }
        } else {
            -1
        },
        _ => -1,
    };
    int_result(result)
}

/// The quest index of the first listed character with the given id.
pub open spec fn spec_npc_quest_index(npcs: Seq<NpcQuestIndex>, npc_id: int) -> Option<u16> {
    if exists|i: int| 0 <= i < npcs.len() && npcs[i].npc_id == npc_id {
        let i = choose|i: int|
            0 <= i < npcs.len() && npcs[i].npc_id == npc_id && (forall|j: int|
                0 <= j < i ==> npcs[j].npc_id != npc_id);
        Some(npcs[i].quest_index)
    } else {
        None
    }
}

/// `QF_getNpcQuestZeroVal(npc_id)`: the quest index of that character, or 0.
#[allow(non_snake_case)]
pub fn QF_getNpcQuestZeroVal(npcs: &[NpcQuestIndex], parameters: &[Lua4Value]) -> (r: Vec<
    Lua4Value,
>)
    ensures
        spec_int_result(
            r@,
            match spec_usize_parameter(parameters@, 0) {
                Some(npc_id) => match spec_npc_quest_index(npcs@, npc_id) {
                    Some(index) => index as int,
                    None => 0,
                },
                None => 0,
            },
        ),
{
    let npc_id = match usize_parameter(parameters, 0) {
        Some(id) => id,
        None => {
            return int_result(0);
        },
    };
    let mut i: usize = 0;
    while i < npcs.len()
        invariant
            i <= npcs@.len(),
            spec_usize_parameter(parameters@, 0) == Some(npc_id as int),
            forall|j: int| 0 <= j < i ==> npcs@[j].npc_id != npc_id,
        decreases npcs.len() - i,
    {
        if npcs[i].npc_id == npc_id {
            proof {
                assert(0 <= i < npcs@.len() && npcs@[i as int].npc_id == npc_id && (forall|j: int|
                    0 <= j < i ==> npcs@[j].npc_id != npc_id));
                let k = choose|k: int|
                    0 <= k < npcs@.len() && npcs@[k].npc_id == npc_id && (forall|j: int|
                        0 <= j < k ==> npcs@[j].npc_id != npc_id);
                if k > i {
                    assert(npcs@[i as int].npc_id != npc_id);
                }
                assert(k == i);
                assert(spec_npc_quest_index(npcs@, npc_id as int) == Some(npcs@[i as int].quest_index));
            }
            return int_result(npcs[i].quest_index as i32);
        }
        i = i + 1;
    }
    int_result(0)
}

/// The value of a character variable: gender (0 male, 1 female), birth stone, class,
/// union (0 for none), rank, fame, the six basic stats, experience (truncated to 32
/// bits), level; 0 for any other id.
pub open spec fn spec_character_variable(character: ScriptCharacter, variable_id: int) -> int {
    if variable_id == SV_SEX {
        if character.gender is Male {
            0
        } else {
            1
        }
    } else if variable_id == SV_BIRTH {
        character.birth_stone as int
    } else if variable_id == SV_CLASS {
        character.job as int
    } else if variable_id == SV_UNION {
        match character.current_union {
            Some(u) => (u as i32) as int,
            None => 0,
        }
    } else if variable_id == SV_RANK {
        character.rank as int
    } else if variable_id == SV_FAME {
        character.fame as int
    } else if variable_id == SV_STR {
        character.strength as int
    } else if variable_id == SV_DEX {
        character.dexterity as int
    } else if variable_id == SV_INT {
        character.intelligence as int
    } else if variable_id == SV_CON {
        character.concentration as int
    } else if variable_id == SV_CHA {
        character.charm as int
    } else if variable_id == SV_SEN {
        character.sense as int
    } else if variable_id == SV_EXP {
        (character.xp as i32) as int
    } else if variable_id == SV_LEVEL {
        (character.level as i32) as int
    } else {
        0
    }
}

/// The variable id that the first parameter of `GF_getVariable` gives: a number
/// truncated toward zero when it fits `i32`; for a string, `parsed` converted as Rust's
/// `as` converts a float.
pub open spec fn spec_variable_id(parameter: Lua4Value, parsed: Option<Lua4Number>) -> Option<int> {
    match parameter {
        Lua4Value::Number(n) => spec_checked_int(n.bits, i32::MIN as int, i32::MAX as int),
        Lua4Value::String(_) => match parsed {
            Some(p) => Some(spec_saturating_int(p.bits, i32::MIN as int, i32::MAX as int)),
            None => None,
        },
        _ => None,
    }
}

/// `GF_getVariable(id)`: the character variable `id`. For a string parameter, `parsed`
/// is the number that it denotes as a float.
#[allow(non_snake_case)]
pub fn GF_getVariable(
    character: &ScriptCharacter,
    parameters: &[Lua4Value],
    parsed: Option<Lua4Number>,
) -> (r: Vec<Lua4Value>)
    requires
        parameters@.len() >= 1,
        spec_variable_id(parameters@[0], parsed) is Some,
    ensures
        spec_int_result(
            r@,
            spec_character_variable(*character, spec_variable_id(parameters@[0], parsed)->0),
        ),
{
    let variable_id = match parameters[0].to_i32(parsed) {
        Ok(id) => id,
        Err(_) => {
            return int_result(0);
        },
    };
    let value: i32 = if variable_id == SV_SEX {
        match character.gender {
            CharacterGender::Male => 0,
            CharacterGender::Female => 1,
        }
    } else if variable_id == SV_BIRTH {
        character.birth_stone as i32
    } else if variable_id == SV_CLASS {
        character.job as i32
    } else if variable_id == SV_UNION {
        match character.current_union {
            Some(u) => u as i32,
            None => 0,
        }
    } else if variable_id == SV_RANK {
        character.rank as i32
    } else if variable_id == SV_FAME {
        character.fame as i32
    } else if variable_id == SV_STR {
        character.strength
    } else if variable_id == SV_DEX {
        character.dexterity
    } else if variable_id == SV_INT {
        character.intelligence
    } else if variable_id == SV_CON {
        character.concentration
    } else if variable_id == SV_CHA {
        character.charm
    } else if variable_id == SV_SEN {
        character.sense
    } else if variable_id == SV_EXP {
        character.xp as i32
    } else if variable_id == SV_LEVEL {
        character.level as i32
    } else {
        0
    };
    int_result(value)
}

/// `GF_openBank(id)`: the client entity whose bank to open, when the first parameter
/// converts to a `usize`.
#[allow(non_snake_case)]
pub fn GF_openBank(parameters: &[Lua4Value]) -> (r: Option<usize>)
    ensures
        r matches Some(v) ==> spec_usize_parameter(parameters@, 0) == Some(v as int),
        r is None ==> spec_usize_parameter(parameters@, 0) is None,
{
    usize_parameter(parameters, 0)
}

/// `GF_openStore(id)`: the client entity of the store to open, when the first
/// parameter converts to a `usize`.
#[allow(non_snake_case)]
pub fn GF_openStore(parameters: &[Lua4Value]) -> (r: Option<usize>)
    ensures
        r matches Some(v) ==> spec_usize_parameter(parameters@, 0) == Some(v as int),
        r is None ==> spec_usize_parameter(parameters@, 0) is None,
{
    usize_parameter(parameters, 0)
}

} // verus!

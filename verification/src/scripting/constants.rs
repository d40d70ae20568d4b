use vstd::prelude::*;

use crate::lua4::number::{spec_denotes_integer, Lua4Number};
use crate::lua4::value::Lua4Value;
use crate::lua4::vm::{Lua4VM, Lua4VMError};
use crate::scripting::functions::{
    SV_BIRTH, SV_CHA, SV_CLASS, SV_CON, SV_DEX, SV_EXP, SV_FAME, SV_INT, SV_LEVEL, SV_POINT, SV_RANK,
    SV_SEN, SV_SEX, SV_STR, SV_UNION,
};
use crate::text::{chars_text, text_chars};

verus! {

/// The numbers by which the game data encodes the item types that scripts name.
#[derive(Copy, Clone, Debug, PartialEq, Eq, Structural)]
pub struct ItemTypeCodes {
    pub face: i32,
    pub head: i32,
    pub body: i32,
    pub hands: i32,
    pub feet: i32,
    pub back: i32,
    pub jewellery: i32,
    pub weapon: i32,
    pub sub_weapon: i32,
    pub consumable: i32,
    pub gem: i32,
    pub material: i32,
}

/// The constants that scripts read: their names and values, in the order they are set.
#[derive(Debug)]
pub struct LuaGameConstants {
    pub constants: Vec<(String, Lua4Value)>,
}

/// The constants that scripts read, as names and integers: the script variables of a
/// character, then the item types (`ITEM_TYPE_ETC` names the gem type too).
pub open spec fn spec_game_constants(codes: ItemTypeCodes) -> Seq<(Seq<char>, int)> {
    seq![
        ("SV_SEX"@, SV_SEX as int),
        ("SV_BIRTH"@, SV_BIRTH as int),
        ("SV_CLASS"@, SV_CLASS as int),
        ("SV_UNION"@, SV_UNION as int),
        ("SV_RANK"@, SV_RANK as int),
        ("SV_FAME"@, SV_FAME as int),
        ("SV_STR"@, SV_STR as int),
        ("SV_DEX"@, SV_DEX as int),
        ("SV_INT"@, SV_INT as int),
        ("SV_CON"@, SV_CON as int),
        ("SV_CHA"@, SV_CHA as int),
        ("SV_SEN"@, SV_SEN as int),
        ("SV_EXP"@, SV_EXP as int),
        ("SV_LEVEL"@, SV_LEVEL as int),
        ("SV_POINT"@, SV_POINT as int),
        ("ITEM_TYPE_FACE_ITEM"@, codes.face as int),
        ("ITEM_TYPE_HELMET"@, codes.head as int),
        ("ITEM_TYPE_ARMOR"@, codes.body as int),
        ("ITEM_TYPE_GAUNTLET"@, codes.hands as int),
        ("ITEM_TYPE_BOOTS"@, codes.feet as int),
        ("ITEM_TYPE_KNAPSACK"@, codes.back as int),
        ("ITEM_TYPE_JEWEL"@, codes.jewellery as int),
        ("ITEM_TYPE_WEAPON"@, codes.weapon as int),
        ("ITEM_TYPE_SUBWPN"@, codes.sub_weapon as int),
        ("ITEM_TYPE_USE"@, codes.consumable as int),
        ("ITEM_TYPE_ETC"@, codes.gem as int),
        ("ITEM_TYPE_GEM"@, codes.gem as int),
        ("ITEM_TYPE_NATURAL"@, codes.material as int),
    ]
}

/// Whether a list of named values holds the named integers, in order.
pub open spec fn spec_holds_constants(list: Seq<(String, Lua4Value)>, expected: Seq<(Seq<char>, int)>) -> bool {
    &&& list.len() == expected.len()
    &&& forall|i: int|
        0 <= i < list.len() ==> (#[trigger] list[i]).0@ == expected[i].0 && (list[i].1 matches Lua4Value::Number(
            n,
        ) && spec_denotes_integer(n.bits, expected[i].1))
}

fn push_constant(list: &mut Vec<(String, Lua4Value)>, name: &str, value: i32)
    ensures
        final(list)@.len() == old(list)@.len() + 1,
        forall|i: int| 0 <= i < old(list)@.len() ==> #[trigger] final(list)@[i] == old(list)@[i],
        final(list)@.last().0@ == name@,
        final(list)@.last().1 matches Lua4Value::Number(n) && spec_denotes_integer(n.bits, value as int),
{
    let chars = text_chars(name);
    list.push((chars_text(&chars), Lua4Value::Number(Lua4Number::from_i32(value))));
}

impl LuaGameConstants {
    /// The constants that scripts read (see `spec_game_constants`).
    pub fn new(codes: &ItemTypeCodes) -> (r: Self)
        ensures
            spec_holds_constants(r.constants@, spec_game_constants(*codes)),
    {
        let table: Vec<(&str, i32)> = vec![
            ("SV_SEX", SV_SEX),
            ("SV_BIRTH", SV_BIRTH),
            ("SV_CLASS", SV_CLASS),
            ("SV_UNION", SV_UNION),
            ("SV_RANK", SV_RANK),
            ("SV_FAME", SV_FAME),
            ("SV_STR", SV_STR),
            ("SV_DEX", SV_DEX),
            ("SV_INT", SV_INT),
            ("SV_CON", SV_CON),
            ("SV_CHA", SV_CHA),
            ("SV_SEN", SV_SEN),
            ("SV_EXP", SV_EXP),
            ("SV_LEVEL", SV_LEVEL),
            ("SV_POINT", SV_POINT),
            ("ITEM_TYPE_FACE_ITEM", codes.face),
            ("ITEM_TYPE_HELMET", codes.head),
            ("ITEM_TYPE_ARMOR", codes.body),
            ("ITEM_TYPE_GAUNTLET", codes.hands),
            ("ITEM_TYPE_BOOTS", codes.feet),
            ("ITEM_TYPE_KNAPSACK", codes.back),
            ("ITEM_TYPE_JEWEL", codes.jewellery),
            ("ITEM_TYPE_WEAPON", codes.weapon),
            ("ITEM_TYPE_SUBWPN", codes.sub_weapon),
            ("ITEM_TYPE_USE", codes.consumable),
            ("ITEM_TYPE_ETC", codes.gem),
            ("ITEM_TYPE_GEM", codes.gem),
            ("ITEM_TYPE_NATURAL", codes.material),
        ];
        let ghost expected = spec_game_constants(*codes);
        assert(table@.len() == expected.len());
        assert(forall|i: int| 0 <= i < table@.len() ==> (#[trigger] table@[i]).0@ == expected[i].0 && table@[i].1 as int == expected[i].1);
        let mut constants: Vec<(String, Lua4Value)> = Vec::new();
        let mut i: usize = 0;
        while i < table.len()
            invariant
                i <= table@.len(),
                table@.len() == expected.len(),
                forall|j: int| 0 <= j < table@.len() ==> (#[trigger] table@[j]).0@ == expected[j].0 && table@[j].1 as int == expected[j].1,
                spec_holds_constants(constants@, expected.take(i as int)),
            decreases table.len() - i,
        {
            let (name, value) = table[i];
            let ghost before = constants@;
            push_constant(&mut constants, name, value);
            assert forall|j: int| 0 <= j < constants@.len() implies (#[trigger] constants@[j]).0@ == expected.take(
                i + 1,
            )[j].0 && (constants@[j].1 matches Lua4Value::Number(n) && spec_denotes_integer(
                n.bits,
                expected.take(i + 1)[j].1,
            )) by {
                if j < i {
                    assert(constants@[j] == before[j]);
                    assert(expected.take(i as int)[j] == expected.take(i + 1)[j]);
                }
            }
            i = i + 1;
        }
        assert(expected.take(i as int) =~= expected);
        LuaGameConstants { constants }
    }
}

/// The globals after each named value of a list is set, in order (a later value of a name
/// replaces an earlier one).
pub open spec fn spec_with_values(globals: Map<Seq<char>, Lua4Value>, list: Seq<(String, Lua4Value)>) -> Map<Seq<char>, Lua4Value>
    decreases list.len(),
{
    if list.len() == 0 {
        globals
    } else {
        spec_with_values(globals, list.drop_last()).insert(list.last().0@, list.last().1)
    }
}

/// The globals after each name of a list is set to the host function of that name, in
/// order.
pub open spec fn spec_with_host_functions(globals: Map<Seq<char>, Lua4Value>, names: Seq<String>) -> Map<Seq<char>, Lua4Value>
    decreases names.len(),
{
    if names.len() == 0 {
        globals
    } else {
        spec_with_host_functions(globals, names.drop_last()).insert(
            names.last()@,
            Lua4Value::RustClosure(names.last()),
        )
    }
}

/// The virtual machine that runs a conversation's script: its globals are the constants,
/// then the game's host functions, then the quest host functions, each by name.
pub fn script_vm(constants: &LuaGameConstants, game_functions: &Vec<String>, quest_functions: &Vec<String>) -> (vm: Lua4VM)
    ensures
        vm.wf(),
        vm.globals_map() == spec_with_host_functions(
            spec_with_host_functions(
                spec_with_values(Map::empty(), constants.constants@),
                game_functions@,
            ),
            quest_functions@,
        ),
{
    let mut vm = Lua4VM::new();
    let list = &constants.constants;
    let mut i: usize = 0;
    while i < list.len()
        invariant
            i <= list@.len(),
            vm.wf(),
            vm.globals_map() == spec_with_values(Map::empty(), list@.take(i as int)),
        decreases list.len() - i,
    {
        assert(list@.take(i + 1).drop_last() =~= list@.take(i as int));
        vm.set_global(list[i].0.clone(), list[i].1.duplicate());
        i = i + 1;
    }
    assert(list@.take(i as int) =~= list@);
    let ghost with_constants = vm.globals_map();
    let mut i: usize = 0;
    while i < game_functions.len()
        invariant
            i <= game_functions@.len(),
            vm.wf(),
            vm.globals_map() == spec_with_host_functions(with_constants, game_functions@.take(i as int)),
        decreases game_functions.len() - i,
    {
        assert(game_functions@.take(i + 1).drop_last() =~= game_functions@.take(i as int));
        vm.set_global(game_functions[i].clone(), Lua4Value::RustClosure(game_functions[i].clone()));
        i = i + 1;
    }
    assert(game_functions@.take(i as int) =~= game_functions@);
    let ghost with_game = vm.globals_map();
    let mut i: usize = 0;
    while i < quest_functions.len()
        invariant
            i <= quest_functions@.len(),
            vm.wf(),
            vm.globals_map() == spec_with_host_functions(with_game, quest_functions@.take(i as int)),
        decreases quest_functions.len() - i,
    {
        assert(quest_functions@.take(i + 1).drop_last() =~= quest_functions@.take(i as int));
        vm.set_global(quest_functions[i].clone(), Lua4Value::RustClosure(quest_functions[i].clone()));
        i = i + 1;
    }
    assert(quest_functions@.take(i as int) =~= quest_functions@);
    vm
}

/// A host function that scripts call: one of the quest functions or one of the game
/// functions, by its place in its list.
#[derive(Copy, Clone, Debug, PartialEq, Eq, Structural)]
pub enum HostFunction {
    Quest(usize),
    Game(usize),
}

/// The place of the first name of a list that is `name`.
pub open spec fn spec_name_index(names: Seq<String>, name: Seq<char>) -> Option<int>
    decreases names.len(),
{
    if names.len() == 0 {
        None
    } else {
        match spec_name_index(names.drop_last(), name) {
            Some(i) => Some(i),
            None => if names.last()@ == name {
                Some(names.len() - 1)
            } else {
                None
            },
        }
    }
}

fn name_index(names: &Vec<String>, name: &str) -> (r: Option<usize>)
    ensures
        r matches Some(i) ==> spec_name_index(names@, name@) == Some(i as int),
        r is None ==> spec_name_index(names@, name@) is None,
{
    let key = name.to_owned();
    let mut i: usize = 0;
    while i < names.len()
        invariant
            i <= names@.len(),
            key@ == name@,
            spec_name_index(names@.take(i as int), name@) is None,
        decreases names.len() - i,
    {
        assert(names@.take(i + 1).drop_last() =~= names@.take(i as int));
        if names[i] == key {
            proof {
                assert(names@.take(i + 1).last() == names@[i as int]);
                lemma_name_index_prefix(names@, name@, i + 1, i as int);
            }
            return Some(i);
        }
        i = i + 1;
    }
    assert(names@.take(i as int) =~= names@);
    None
}

proof fn lemma_name_index_prefix(names: Seq<String>, name: Seq<char>, k: int, j: int)
    requires
        0 <= k <= names.len(),
        spec_name_index(names.take(k), name) == Some(j),
    ensures
        spec_name_index(names, name) == Some(j),
    decreases names.len() - k,
{
    if k < names.len() {
        assert(names.take(k + 1).drop_last() =~= names.take(k));
        lemma_name_index_prefix(names, name, k + 1, j);
    } else {
        assert(names.take(k) =~= names);
    }
}

/// The host function that a script calls by name: a quest function of that name first,
/// else a game function of that name, else the error that no global has the name.
pub fn find_host_function(name: &str, quest_functions: &Vec<String>, game_functions: &Vec<String>) -> (r: Result<HostFunction, Lua4VMError>)
    ensures
        match spec_name_index(quest_functions@, name@) {
            Some(i) => r == Ok::<HostFunction, Lua4VMError>(HostFunction::Quest(i as usize)),
            None => match spec_name_index(game_functions@, name@) {
                Some(i) => r == Ok::<HostFunction, Lua4VMError>(HostFunction::Game(i as usize)),
                None => r matches Err(Lua4VMError::GlobalNotFound(missing)) && missing@ == name@,
            },
        },
{
    match name_index(quest_functions, name) {
        Some(i) => Ok(HostFunction::Quest(i)),
        None => match name_index(game_functions, name) {
            Some(i) => Ok(HostFunction::Game(i)),
            None => Err(Lua4VMError::GlobalNotFound(name.to_owned())),
        },
    }
}

} // verus!

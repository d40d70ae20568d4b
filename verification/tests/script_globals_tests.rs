use rose_offline_client::lua4::{Lua4VMError, Lua4Value};
use rose_offline_client::scripting::constants::{
    find_host_function, script_vm, HostFunction, ItemTypeCodes, LuaGameConstants,
};

fn codes() -> ItemTypeCodes {
    ItemTypeCodes {
        face: 1,
        head: 2,
        body: 3,
        hands: 4,
        feet: 5,
        back: 6,
        jewellery: 7,
        weapon: 8,
        sub_weapon: 9,
        consumable: 10,
        gem: 11,
        material: 12,
    }
}

fn number(value: &Lua4Value) -> f64 {
    match value {
        Lua4Value::Number(n) => f64::from_bits(n.bits),
        other => panic!("not a number: {:?}", other),
    }
}

#[test]
fn constants_name_script_variables_and_item_types() {
    let constants = LuaGameConstants::new(&codes());
    assert_eq!(constants.constants.len(), 28);
    assert_eq!(constants.constants[0].0, "SV_SEX");
    assert_eq!(number(&constants.constants[0].1), 0.0);
    assert_eq!(constants.constants[14].0, "SV_POINT");
    assert_eq!(number(&constants.constants[14].1), 14.0);
    let find = |name: &str| constants.constants.iter().find(|(n, _)| n == name).map(|(_, v)| number(v));
    assert_eq!(find("ITEM_TYPE_HELMET"), Some(2.0));
    assert_eq!(find("ITEM_TYPE_ETC"), Some(11.0));
    assert_eq!(find("ITEM_TYPE_GEM"), Some(11.0));
    assert_eq!(find("ITEM_TYPE_NATURAL"), Some(12.0));
}

#[test]
fn the_script_vm_knows_constants_and_host_functions() {
    let constants = LuaGameConstants::new(&codes());
    let vm = script_vm(&constants, &vec!["GF_openStore".to_string()], &vec!["QF_getQuestVar".to_string()]);
    match vm.get_global("GF_openStore") {
        Some(Lua4Value::RustClosure(name)) => assert_eq!(name, "GF_openStore"),
        other => panic!("unexpected {:?}", other),
    }
    match vm.get_global("QF_getQuestVar") {
        Some(Lua4Value::RustClosure(name)) => assert_eq!(name, "QF_getQuestVar"),
        other => panic!("unexpected {:?}", other),
    }
    assert_eq!(number(vm.get_global("SV_LEVEL").unwrap()), 13.0);
    assert!(vm.get_global("missing").is_none());
}

#[test]
fn host_functions_are_found_quest_first() {
    let quest = vec!["QF_getQuestVar".to_string(), "shared".to_string()];
    let game = vec!["GF_openStore".to_string(), "shared".to_string()];
    assert!(matches!(find_host_function("shared", &quest, &game), Ok(HostFunction::Quest(1))));
    assert!(matches!(find_host_function("GF_openStore", &quest, &game), Ok(HostFunction::Game(0))));
    match find_host_function("missing", &quest, &game) {
        Err(Lua4VMError::GlobalNotFound(name)) => assert_eq!(name, "missing"),
        other => panic!("unexpected {:?}", other),
    }
}

use rose_offline_client::systems::model_viewer_system::{
    bot_appearance, bot_equipment, bot_grid_slot, bot_name, drop_sub_weapon, npc_grid_slot,
    population_change, EquipmentIndex, ItemReference, ModelViewerState, PopulationChange,
    MAX_BOTS,
};

fn item(number: usize) -> ItemReference {
    ItemReference { item_type: 8, item_number: number }
}

#[test]
fn model_viewer_starts_with_one_of_each() {
    let state = ModelViewerState::new(vec![], vec![], 250);
    assert_eq!(state.num_npcs, 1);
    assert_eq!(state.num_characters, 1);
    assert_eq!(state.max_num_npcs, 250);
    assert_eq!(state.max_num_characters, 500);
    assert_eq!(MAX_BOTS, 500);
    assert!(state.npcs.is_empty() && state.characters.is_empty());
}

#[test]
fn fewer_wanted_despawns_the_last_ones() {
    let mut shown = vec![10, 11, 12, 13];
    assert_eq!(population_change(&mut shown, 1), PopulationChange::Despawn(vec![11, 12, 13]));
    assert_eq!(shown, vec![10]);
}

#[test]
fn more_wanted_spawns_the_missing_numbers() {
    let mut shown = vec![10, 11];
    assert_eq!(population_change(&mut shown, 5), PopulationChange::Spawn { from: 2, to: 5 });
    assert_eq!(shown, vec![10, 11]);
    assert_eq!(population_change(&mut shown, 2), PopulationChange::Keep);
}

#[test]
fn grid_slots() {
    assert_eq!(npc_grid_slot(0), (0, 0));
    assert_eq!(npc_grid_slot(31), (1, 1));
    assert_eq!(bot_grid_slot(49), (1, 24));
    assert_eq!(bot_grid_slot(50), (2, 0));
}

#[test]
fn bots_are_numbered() {
    assert_eq!(bot_name(0), "Bot 0");
    assert_eq!(bot_name(137), "Bot 137");
}

#[test]
fn bot_looks_come_from_the_lists() {
    for _ in 0..50 {
        let (_, face, hair) = bot_appearance();
        assert!([1u8, 8, 15, 22, 29, 36, 43].contains(&face));
        assert!([0u8, 5, 10, 15, 20].contains(&hair));
    }
}

#[test]
fn bot_equipment_fills_slots_with_items() {
    let valid = vec![
        (EquipmentIndex::Head, vec![item(1), item(2)]),
        (EquipmentIndex::Feet, vec![]),
        (EquipmentIndex::Weapon, vec![item(70000)]),
    ];
    let gems = vec![item(300)];
    for _ in 0..50 {
        let equipment = bot_equipment(&valid, &gems);
        assert_eq!(equipment.len(), 3);
        let head = equipment[0].unwrap();
        assert!(head.item == item(1) || head.item == item(2));
        assert!(!head.has_socket && head.gem == 0);
        assert!(equipment[1].is_none());
        let weapon = equipment[2].unwrap();
        assert_eq!(weapon.item, item(70000));
        assert!(if weapon.has_socket { weapon.gem == 300 } else { weapon.gem == 0 });
    }
}

#[test]
fn two_handed_weapon_drops_the_sub_weapon() {
    let slots = vec![
        (EquipmentIndex::Weapon, vec![item(1)]),
        (EquipmentIndex::SubWeapon, vec![item(2)]),
    ];
    let mut equipment = bot_equipment(&slots, &vec![]);
    let before = equipment.clone();
    drop_sub_weapon(&slots, &mut equipment, false);
    assert_eq!(equipment, before);
    drop_sub_weapon(&slots, &mut equipment, true);
    assert_eq!(equipment[0], before[0]);
    assert!(equipment[1].is_none());
}

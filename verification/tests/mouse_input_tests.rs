use rose_offline_client::systems::command_system::ClientEntityType;
use rose_offline_client::systems::game_mouse_input_system::{
    game_mouse_input_system, MouseCommand, MouseHit, TeamStanding, UiCursorType,
};
use rose_offline_client::systems::name_tag_visibility_system::SelectedTarget;

fn monster(entity: u64) -> MouseHit {
    MouseHit {
        entity,
        client_entity_type: Some(ClientEntityType::Monster),
        team: Some(TeamStanding::Hostile),
        has_position: true,
        item_drop: false,
        zone_object: false,
    }
}

#[test]
fn nothing_hit_clears_hover() {
    let mut target = SelectedTarget { hover: Some(3), selected: Some(4) };
    let r = game_mouse_input_system(None, true, &mut target);
    assert_eq!(r, (UiCursorType::Default, MouseCommand::Nothing));
    assert_eq!(target, SelectedTarget { hover: None, selected: Some(4) });
}

#[test]
fn first_click_selects_second_attacks() {
    let mut target = SelectedTarget { hover: None, selected: None };
    let r = game_mouse_input_system(Some(monster(7)), true, &mut target);
    assert_eq!(r, (UiCursorType::Attack, MouseCommand::Nothing));
    assert_eq!(target, SelectedTarget { hover: Some(7), selected: Some(7) });
    let r = game_mouse_input_system(Some(monster(7)), true, &mut target);
    assert_eq!(r.1, MouseCommand::Attack(7));
}

#[test]
fn selected_friend_is_walked_to() {
    let npc = MouseHit {
        entity: 9,
        client_entity_type: Some(ClientEntityType::Npc),
        team: Some(TeamStanding::Friendly),
        has_position: true,
        item_drop: false,
        zone_object: false,
    };
    let mut target = SelectedTarget { hover: None, selected: Some(9) };
    let r = game_mouse_input_system(Some(npc), true, &mut target);
    assert_eq!(r, (UiCursorType::Npc, MouseCommand::MoveTo(9)));
}

#[test]
fn hovering_without_click_does_nothing() {
    let mut target = SelectedTarget { hover: None, selected: Some(1) };
    let r = game_mouse_input_system(Some(monster(7)), false, &mut target);
    assert_eq!(r.1, MouseCommand::Nothing);
    assert_eq!(target, SelectedTarget { hover: Some(7), selected: Some(1) });
}

#[test]
fn ground_and_item_drops() {
    let ground = MouseHit {
        entity: 1,
        client_entity_type: None,
        team: None,
        has_position: false,
        item_drop: false,
        zone_object: true,
    };
    let mut target = SelectedTarget { hover: None, selected: None };
    assert_eq!(
        game_mouse_input_system(Some(ground), true, &mut target),
        (UiCursorType::Default, MouseCommand::MoveToGround)
    );
    assert_eq!(target.hover, None);
    let drop = MouseHit {
        entity: 5,
        client_entity_type: Some(ClientEntityType::ItemDrop),
        team: None,
        has_position: true,
        item_drop: true,
        zone_object: false,
    };
    assert_eq!(
        game_mouse_input_system(Some(drop), true, &mut target),
        (UiCursorType::PickupItem, MouseCommand::MoveTo(5))
    );
    assert_eq!(target.hover, Some(5));
}

#[test]
fn hostile_character_shows_attack_cursor() {
    let enemy = MouseHit {
        entity: 2,
        client_entity_type: Some(ClientEntityType::Character),
        team: Some(TeamStanding::Hostile),
        has_position: true,
        item_drop: false,
        zone_object: false,
    };
    let mut target = SelectedTarget { hover: None, selected: None };
    assert_eq!(game_mouse_input_system(Some(enemy), false, &mut target).0, UiCursorType::Attack);
    let friend = MouseHit { team: Some(TeamStanding::Friendly), ..enemy };
    assert_eq!(game_mouse_input_system(Some(friend), false, &mut target).0, UiCursorType::User);
}

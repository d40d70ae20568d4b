use rose_offline_client::systems::character_select_system::{
    character_select_event, character_select_frame, character_select_motion,
    world_connection_event, CharacterListEntry, CharacterSelectEvent, CharacterSelectFrameAction,
    CharacterSelectMotion, CharacterSelectRequest, CharacterSelectState, WorldConnectionAction,
    WorldConnectionEvent,
};

fn list() -> Option<Vec<CharacterListEntry>> {
    Some(vec![
        CharacterListEntry { name: "Alpha".to_string(), delete_time: None },
        CharacterListEntry { name: "Beta".to_string(), delete_time: Some(3600) },
    ])
}

#[test]
fn selecting_only_while_choosing() {
    let mut state = CharacterSelectState::CharacterSelect(None);
    let r = character_select_event(&mut state, CharacterSelectEvent::SelectCharacter(1), &list(), true);
    assert!(matches!(r, CharacterSelectRequest::Nothing));
    assert_eq!(state, CharacterSelectState::CharacterSelect(Some(1)));
    let mut state = CharacterSelectState::Entering;
    character_select_event(&mut state, CharacterSelectEvent::SelectCharacter(1), &list(), true);
    assert_eq!(state, CharacterSelectState::Entering);
}

#[test]
fn playing_a_character_connects_to_the_game() {
    let mut state = CharacterSelectState::CharacterSelect(Some(0));
    match character_select_event(&mut state, CharacterSelectEvent::PlaySelected, &list(), true) {
        CharacterSelectRequest::SelectCharacter { slot, name } => {
            assert_eq!(slot, 0);
            assert_eq!(name, "Alpha");
        }
        other => panic!("unexpected {:?}", other),
    }
    assert_eq!(state, CharacterSelectState::ConnectingGameServer);
}

#[test]
fn a_character_being_deleted_cannot_play() {
    let mut state = CharacterSelectState::CharacterSelect(Some(1));
    let r = character_select_event(&mut state, CharacterSelectEvent::PlaySelected, &list(), true);
    assert!(matches!(r, CharacterSelectRequest::Nothing));
    assert_eq!(state, CharacterSelectState::CharacterSelect(Some(1)));
}

#[test]
fn delete_toggles_by_delete_time() {
    let mut state = CharacterSelectState::CharacterSelect(Some(1));
    match character_select_event(&mut state, CharacterSelectEvent::DeleteSelected, &list(), true) {
        CharacterSelectRequest::DeleteCharacter { slot, name, is_delete } => {
            assert_eq!((slot, name.as_str(), is_delete), (1, "Beta", false));
        }
        other => panic!("unexpected {:?}", other),
    }
    let r = character_select_event(&mut state, CharacterSelectEvent::DeleteSelected, &list(), false);
    assert!(matches!(r, CharacterSelectRequest::Nothing));
}

#[test]
fn world_server_answers() {
    let mut state = CharacterSelectState::CharacterCreating;
    let mut characters = list();
    assert_eq!(
        world_connection_event(&mut state, &mut characters, WorldConnectionEvent::CreateCharacterFailed),
        WorldConnectionAction::Nothing
    );
    assert_eq!(state, CharacterSelectState::CharacterCreate);
    assert_eq!(
        world_connection_event(&mut state, &mut characters, WorldConnectionEvent::CreateCharacterSucceeded),
        WorldConnectionAction::LeaveCreateAndRequestList
    );
    assert_eq!(state, CharacterSelectState::CharacterSelect(None));
    world_connection_event(
        &mut state,
        &mut characters,
        WorldConnectionEvent::DeleteCharacterSucceeded { name: "Alpha".to_string(), delete_time: Some(60) },
    );
    let characters = characters.unwrap();
    assert_eq!(characters[0].delete_time, Some(60));
    assert_eq!(characters[1].delete_time, Some(3600));
    let mut none = None;
    assert_eq!(
        world_connection_event(
            &mut state,
            &mut none,
            WorldConnectionEvent::DeleteCharacterSucceeded { name: "Alpha".to_string(), delete_time: None },
        ),
        WorldConnectionAction::RequestList
    );
}

#[test]
fn frames_lead_from_connecting_to_loading() {
    let mut state = CharacterSelectState::Entering;
    let mut join = None;
    assert_eq!(character_select_frame(&mut state, &mut join, true, false, None), CharacterSelectFrameAction::Nothing);
    assert_eq!(state, CharacterSelectState::Entering);
    character_select_frame(&mut state, &mut join, false, false, None);
    assert_eq!(state, CharacterSelectState::CharacterSelect(None));
    let mut state = CharacterSelectState::ConnectingGameServer;
    assert_eq!(
        character_select_frame(&mut state, &mut join, true, false, Some(22)),
        CharacterSelectFrameAction::StartLeaving
    );
    assert_eq!((state, join), (CharacterSelectState::Leaving, Some(22)));
    assert_eq!(character_select_frame(&mut state, &mut join, true, false, None), CharacterSelectFrameAction::Nothing);
    assert_eq!(
        character_select_frame(&mut state, &mut join, true, true, None),
        CharacterSelectFrameAction::LoadZone(22)
    );
    assert_eq!((state, join), (CharacterSelectState::Loading, None));
}

#[test]
fn model_motions() {
    let state = CharacterSelectState::CharacterSelect(Some(2));
    assert_eq!(character_select_motion(2, false, state), CharacterSelectMotion::Select);
    assert_eq!(character_select_motion(2, true, state), CharacterSelectMotion::Sit);
    assert_eq!(character_select_motion(1, false, state), CharacterSelectMotion::Stop);
}

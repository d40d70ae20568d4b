use rose_offline_client::systems::auto_login_system::{
    auto_login_system, AutoLogin, AutoLoginAction, AutoLoginState, LoginScreen, WorldServer,
};
use rose_offline_client::systems::background_music_system::{
    background_music_system, BackgroundMusic, BackgroundMusicAction, BackgroundMusicState,
    ZoneTimeState,
};
use rose_offline_client::systems::character_select_system::{
    character_select_input_system, CharacterSelectCharacter,
};
use rose_offline_client::systems::game_debug_ui_system::{
    DebugCameraType, DebugInspectorAction, GameDebugUiState,
};

fn preset() -> AutoLogin {
    AutoLogin {
        preset_username: Some("user".to_string()),
        preset_password: Some("pass".to_string()),
        preset_server_id: None,
        preset_channel_id: None,
        preset_character_name: Some("Hero".to_string()),
    }
}

#[test]
fn auto_login_starts_in_login() {
    assert_eq!(AutoLoginState::default(), AutoLoginState::Login);
}

#[test]
fn auto_login_logs_in_on_login_screen() {
    let mut state = AutoLoginState::Login;
    let p = preset();
    let actions = auto_login_system(&mut state, LoginScreen::GameLogin, Some(&p), None, None);
    assert_eq!(state, AutoLoginState::WaitServerList);
    assert_eq!(actions.len(), 1);
    match &actions[0] {
        AutoLoginAction::Login { username, password } => {
            assert_eq!(username, "user");
            assert_eq!(password, "pass");
        },
        _ => panic!("expected login"),
    }
}

#[test]
fn auto_login_does_nothing_without_preset() {
    let mut state = AutoLoginState::Login;
    let actions = auto_login_system(&mut state, LoginScreen::GameLogin, None, None, None);
    assert!(actions.is_empty());
    assert_eq!(state, AutoLoginState::Login);
}

#[test]
fn auto_login_waits_on_other_screens() {
    let mut state = AutoLoginState::Login;
    let p = preset();
    let actions = auto_login_system(&mut state, LoginScreen::Other, Some(&p), None, None);
    assert!(actions.is_empty());
    assert_eq!(state, AutoLoginState::Login);
}

#[test]
fn auto_login_picks_the_only_server() {
    let mut state = AutoLoginState::WaitServerList;
    let p = preset();
    let servers = vec![WorldServer { id: 3, game_server_ids: vec![8] }];
    let actions = auto_login_system(&mut state, LoginScreen::GameLogin, Some(&p), Some(&servers), None);
    assert_eq!(state, AutoLoginState::WaitCharacterList);
    assert!(matches!(actions[0], AutoLoginAction::SelectServer { server_id: 3, channel_id: 8 }));
}

#[test]
fn auto_login_picks_the_preset_server() {
    let mut state = AutoLoginState::WaitServerList;
    let mut p = preset();
    p.preset_server_id = Some(2);
    p.preset_channel_id = Some(5);
    let servers = vec![
        WorldServer { id: 1, game_server_ids: vec![5] },
        WorldServer { id: 2, game_server_ids: vec![4, 5] },
    ];
    let actions = auto_login_system(&mut state, LoginScreen::GameLogin, Some(&p), Some(&servers), None);
    assert_eq!(actions.len(), 1);
    assert!(matches!(actions[0], AutoLoginAction::SelectServer { server_id: 2, channel_id: 5 }));
    assert_eq!(state, AutoLoginState::WaitCharacterList);

    let mut state = AutoLoginState::WaitServerList;
    p.preset_channel_id = Some(9);
    let actions = auto_login_system(&mut state, LoginScreen::GameLogin, Some(&p), Some(&servers), None);
    assert!(actions.is_empty());
    assert_eq!(state, AutoLoginState::WaitServerList);
}

#[test]
fn auto_login_selects_and_plays_character() {
    let mut state = AutoLoginState::WaitCharacterList;
    let p = preset();
    let names = vec!["Other".to_string(), "Hero".to_string()];
    let actions = auto_login_system(&mut state, LoginScreen::GameCharacterSelect, Some(&p), None, Some(&names));
    assert_eq!(state, AutoLoginState::Idle);
    assert_eq!(actions.len(), 2);
    assert!(matches!(actions[0], AutoLoginAction::SelectCharacter(1)));
    assert!(matches!(actions[1], AutoLoginAction::PlaySelected));
}

#[test]
fn auto_login_ends_after_leaving_character_select() {
    let mut state = AutoLoginState::Idle;
    let p = preset();
    let actions = auto_login_system(&mut state, LoginScreen::Other, Some(&p), None, None);
    assert_eq!(state, AutoLoginState::Login);
    assert!(matches!(actions[0], AutoLoginAction::RemoveAutoLogin));
}

#[test]
fn music_plays_the_zone_track_of_the_time_of_day() {
    let mut music = BackgroundMusic::default();
    assert_eq!(music.state, BackgroundMusicState::NotPlaying);
    let tracks = Some((Some("DAY.OGG".to_string()), Some("NIGHT.OGG".to_string())));
    let actions = background_music_system(&mut music, Some(4), tracks.clone(), ZoneTimeState::Morning);
    assert_eq!(music.zone, Some(4));
    assert_eq!(music.state, BackgroundMusicState::PlayingDay);
    assert_eq!(actions.len(), 1);
    match &actions[0] {
        BackgroundMusicAction::SpawnRepeating(path) => assert_eq!(path, "DAY.OGG"),
        _ => panic!("expected a track"),
    }
    music.entity = Some(77);
    // nothing changes while it stays day
    assert!(background_music_system(&mut music, Some(4), tracks.clone(), ZoneTimeState::Day).is_empty());
    // night switches track
    let actions = background_music_system(&mut music, Some(4), tracks, ZoneTimeState::Night);
    assert_eq!(music.state, BackgroundMusicState::PlayingNight);
    assert!(matches!(actions[0], BackgroundMusicAction::Despawn(77)));
    match &actions[1] {
        BackgroundMusicAction::SpawnRepeating(path) => assert_eq!(path, "NIGHT.OGG"),
        _ => panic!("expected a track"),
    }
}

#[test]
fn music_stops_without_a_zone() {
    let mut music = BackgroundMusic::default();
    music.entity = Some(5);
    let actions = background_music_system(&mut music, None, None, ZoneTimeState::Day);
    assert_eq!(music.entity, None);
    assert!(matches!(actions[0], BackgroundMusicAction::Despawn(5)));
}

#[test]
fn music_with_one_track_keeps_playing() {
    let mut music = BackgroundMusic::default();
    let tracks = Some((Some("SAME.OGG".to_string()), Some("SAME.OGG".to_string())));
    let actions = background_music_system(&mut music, Some(1), tracks.clone(), ZoneTimeState::Day);
    assert_eq!(actions.len(), 1);
    music.entity = Some(9);
    assert!(background_music_system(&mut music, Some(1), tracks, ZoneTimeState::Night).is_empty());
    assert_eq!(music.state, BackgroundMusicState::PlayingDay);
}

#[test]
fn music_settles_law_example() {
    let mut music = BackgroundMusic::default();
    let tracks = Some((None, Some("NIGHT.OGG".to_string())));
    let first = background_music_system(&mut music, Some(2), tracks.clone(), ZoneTimeState::Evening);
    assert_eq!(first.len(), 1);
    let second = background_music_system(&mut music, Some(2), tracks, ZoneTimeState::Evening);
    assert!(second.is_empty());
}

#[test]
fn double_click_plays_selected_character() {
    let mut selected = None;
    let mut last = None;
    let c = CharacterSelectCharacter { index: 2 };
    assert!(!character_select_input_system(&mut selected, &mut last, c, 1000));
    assert_eq!(selected, Some(2));
    assert_eq!(last, Some(1000));
    assert!(character_select_input_system(&mut selected, &mut last, c, 1200));
    assert!(!character_select_input_system(&mut selected, &mut last, c, 1450));
    let other = CharacterSelectCharacter { index: 3 };
    assert!(!character_select_input_system(&mut selected, &mut last, other, 1500));
    assert_eq!(selected, Some(3));
}

#[test]
fn debug_ui_state_defaults_and_toggles() {
    let mut state = GameDebugUiState::default();
    assert!(state.show_debug_ui);
    assert!(!state.show_zone_list);
    assert_eq!(state.selected_camera_type, DebugCameraType::Follow);
    state.handle_shortcut(true, false);
    assert!(state.show_debug_ui);
    state.handle_shortcut(true, true);
    assert!(!state.show_debug_ui);
    assert_eq!(state.select_camera_type(DebugCameraType::Free), Some(DebugCameraType::Free));
    assert_eq!(state.select_camera_type(DebugCameraType::Free), None);
    assert_eq!(state.toggle_object_inspector(), DebugInspectorAction::ShowPlayer);
    assert_eq!(state.toggle_object_inspector(), DebugInspectorAction::Hide);
}

use rose_offline_client::systems::game_ui_system::{
    chatbox_line, level_text, points_text, target_level_text, target_name, ChatColor,
    ChatboxEvent, GameUiState,
};

#[test]
fn chat_lines_name_the_speaker() {
    assert_eq!(
        chatbox_line(&ChatboxEvent::Say("Ann".to_string(), "hi".to_string())),
        (ChatColor::LightGray, "Ann> hi".to_string())
    );
    assert_eq!(
        chatbox_line(&ChatboxEvent::Shout("Bo".to_string(), "hey".to_string())),
        (ChatColor::LightBlue, "Bo> hey".to_string())
    );
    assert_eq!(
        chatbox_line(&ChatboxEvent::Whisper("Cy".to_string(), "psst".to_string())),
        (ChatColor::LightGreen, "Cy> psst".to_string())
    );
    assert_eq!(
        chatbox_line(&ChatboxEvent::Announce(Some("GM".to_string()), "event".to_string())),
        (ChatColor::LightRed, "GM> event".to_string())
    );
}

#[test]
fn anonymous_announcements_and_system_lines_are_bare() {
    assert_eq!(
        chatbox_line(&ChatboxEvent::Announce(None, "maintenance".to_string())),
        (ChatColor::LightRed, "maintenance".to_string())
    );
    assert_eq!(
        chatbox_line(&ChatboxEvent::System("saved".to_string())),
        (ChatColor::Pink, "saved".to_string())
    );
}

#[test]
fn history_keeps_lines_in_order() {
    let mut state = GameUiState::default();
    assert!(state.textbox_history.is_empty());
    state.push_chatbox_event(&ChatboxEvent::System("one".to_string()));
    state.push_chatbox_event(&ChatboxEvent::Say("A".to_string(), "two".to_string()));
    assert_eq!(state.textbox_history.len(), 2);
    assert_eq!(state.textbox_history[0].1, "one");
    assert_eq!(state.textbox_history[1].1, "A> two");
}

#[test]
fn enter_sends_and_clears_only_when_connected() {
    let mut state = GameUiState::default();
    state.textbox_text = "hello".to_string();
    assert_eq!(state.take_chat_message(false), None);
    assert_eq!(state.textbox_text, "hello");
    assert_eq!(state.take_chat_message(true), Some("hello".to_string()));
    assert_eq!(state.textbox_text, "");
}

#[test]
fn target_name_falls_back() {
    assert_eq!(target_name(Some("Jelly Bean".to_string()), Some("x".to_string())), "Jelly Bean");
    assert_eq!(target_name(None, Some("Hero".to_string())), "Hero");
    assert_eq!(target_name(None, None), "???");
}

#[test]
fn bar_and_level_labels() {
    assert_eq!(points_text(45, 120), "45 / 120");
    assert_eq!(points_text(-3, 0), "-3 / 0");
    assert_eq!(level_text(17), "Level 17");
    assert_eq!(target_level_text(5), "Level: 5");
}

pub mod auto_login_system;
pub mod background_music_system;
pub mod name_tag_visibility_system;
pub mod character_select_system;
pub mod game_debug_ui_system;
pub mod command_system;
pub mod cooldown_system;
pub mod game_connection_system;
pub mod animation_effect_system;
pub mod name_tag_system;
pub mod hit_event_system;
pub mod animation_system;
pub mod laws;
pub mod login_connection_system;
pub mod animation_sound_system;
pub mod game_ui_system;
pub mod conversation_dialog_system;
pub mod model_viewer_system;
pub mod game_mouse_input_system;
pub mod login_system;
pub mod damage_digit_render_system;
pub mod client_entity_event_system;
pub mod effect_system;
pub mod character_model_system;
pub mod move_destination_effect_system;
pub mod ability_values_system;
pub mod game_connection_messages;

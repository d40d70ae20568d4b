use vstd::prelude::*;

use crate::systems::game_ui_system::ChatboxEvent;
use crate::text::{chars_text, push_decimal, spec_decimal_chars};

verus! {

/// What happens to a client entity: it dies (with the die effect of its NPC data, where
/// it is an NPC with data that has one), or it gains a level (with the new level where
/// known, and whether it is the player's character).
#[derive(Copy, Clone, Debug, PartialEq, Eq, Structural)]
pub enum ClientEntityEvent {
    Die { entity: u64, npc_die_effect_file_id: Option<u16> },
    LevelUp { entity: u64, level: Option<u32>, is_player: bool },
}

/// An effect to show on an entity: one of the effect files by id, or the level-up effect.
#[derive(Copy, Clone, Debug, PartialEq, Eq, Structural)]
pub enum EntityEffect {
    File { entity: u64, effect_file_id: u16 },
    LevelUp { entity: u64 },
}

/// The congratulation on reaching a level.
pub open spec fn spec_level_up_text(level: u32) -> Seq<char> {
    seq!['C', 'o', 'n', 'g', 'r', 'a', 't', 'u', 'l', 'a', 't', 'i', 'o', 'n', 's', '!', ' ', 'Y', 'o', 'u', ' ', 'a', 'r', 'e', ' ', 'n', 'o', 'w', ' ', 'l', 'e', 'v', 'e', 'l', ' ']
        + spec_decimal_chars(level as nat) + seq!['!']
}

/// What an event of a client entity shows: a dying NPC its die effect; a level gained
/// the level-up effect, and for the player's character a congratulation in the chat box
/// where the level is known.
pub fn client_entity_event(event: ClientEntityEvent) -> (r: (Option<ChatboxEvent>, Option<EntityEffect>))
    ensures
        match event {
            ClientEntityEvent::Die { entity, npc_die_effect_file_id } => r.0 is None && r.1 == match npc_die_effect_file_id {
                Some(f) => Some(EntityEffect::File { entity, effect_file_id: f }),
                None => None,
            },
            ClientEntityEvent::LevelUp { entity, level, is_player } => r.1 == Some(EntityEffect::LevelUp { entity })
                && match (is_player, level) {
                (true, Some(l)) => r.0 matches Some(ChatboxEvent::System(text)) && text@ == spec_level_up_text(l),
                _ => r.0 is None,
            },
        },
{
    match event {
        ClientEntityEvent::Die { entity, npc_die_effect_file_id } => {
            let effect = match npc_die_effect_file_id {
                Some(f) => Some(EntityEffect::File { entity, effect_file_id: f }),
                None => None,
            };
            (None, effect)
        },
        ClientEntityEvent::LevelUp { entity, level, is_player } => {
            let chat = match (is_player, level) {
                (true, Some(l)) => {
                    let mut chars: Vec<char> = vec![
                        'C', 'o', 'n', 'g', 'r', 'a', 't', 'u', 'l', 'a', 't', 'i', 'o', 'n', 's', '!', ' ',
                        'Y', 'o', 'u', ' ', 'a', 'r', 'e', ' ', 'n', 'o', 'w', ' ', 'l', 'e', 'v', 'e', 'l', ' ',
                    ];
                    push_decimal(&mut chars, l as u64);
                    chars.push('!');
                    assert(chars@ =~= spec_level_up_text(l));
                    Some(ChatboxEvent::System(chars_text(&chars)))
                },
                _ => None,
            };
            (chat, Some(EntityEffect::LevelUp { entity }))
        },
    }
}

} // verus!

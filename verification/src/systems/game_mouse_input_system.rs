use vstd::prelude::*;

use crate::systems::command_system::ClientEntityType;
use crate::systems::name_tag_visibility_system::SelectedTarget;

verus! {

/// The mouse cursors of the game.
#[derive(Copy, Clone, Debug, PartialEq, Eq, Structural)]
pub enum UiCursorType {
    Default,
    User,
    Attack,
    Npc,
    PickupItem,
}

/// How the team of an entity stands to the player: friendly where it is the default NPC
/// team or the player's own team, hostile otherwise.
#[derive(Copy, Clone, Debug, PartialEq, Eq, Structural)]
pub enum TeamStanding {
    Friendly,
    Hostile,
}

/// What the mouse points at: the entity, its kind where it is a client entity, how its
/// team stands where it has one, whether it has a position, and whether it is an item
/// drop or a part of the zone.
#[derive(Copy, Clone, Debug, PartialEq, Eq, Structural)]
pub struct MouseHit {
    pub entity: u64,
    pub client_entity_type: Option<ClientEntityType>,
    pub team: Option<TeamStanding>,
    pub has_position: bool,
    pub item_drop: bool,
    pub zone_object: bool,
}

/// What a click asks the player's character to do: nothing, walk to the point of the zone
/// that was clicked (and show the destination there), walk to an entity, or attack one.
#[derive(Copy, Clone, Debug, PartialEq, Eq, Structural)]
pub enum MouseCommand {
    Nothing,
    MoveToGround,
    MoveTo(u64),
    Attack(u64),
}

/// The cursor of what the mouse points at: by the kind of client entity, but the attack
/// cursor over anyone hostile.
pub open spec fn spec_cursor(hit: MouseHit) -> UiCursorType {
    if hit.team == Some(TeamStanding::Hostile) {
        UiCursorType::Attack
    } else {
        match hit.client_entity_type {
            Some(ClientEntityType::Character) => UiCursorType::User,
            Some(ClientEntityType::Monster) => UiCursorType::Attack,
            Some(ClientEntityType::Npc) => UiCursorType::Npc,
            Some(ClientEntityType::ItemDrop) => UiCursorType::PickupItem,
            None => UiCursorType::Default,
        }
    }
}

/// The effect of the mouse in a frame: the cursor, the hovered and selected entities, and
/// the command a left click gives. The zone is walked to; an item drop is hovered and
/// walked to; an entity with a team is hovered, selected on a first click, and on a click
/// once selected walked to when friendly or attacked when hostile.
pub open spec fn spec_mouse_input(
    hit: Option<MouseHit>,
    clicked: bool,
    target: SelectedTarget,
) -> (UiCursorType, SelectedTarget, MouseCommand) {
    match hit {
        None => (UiCursorType::Default, SelectedTarget { hover: None, selected: target.selected }, MouseCommand::Nothing),
        Some(h) => {
            let cursor = spec_cursor(h);
            if h.zone_object {
                (
                    cursor,
                    SelectedTarget { hover: None, selected: target.selected },
                    if clicked {
                        MouseCommand::MoveToGround
                    } else {
                        MouseCommand::Nothing
                    },
                )
            } else if h.item_drop {
                (
                    cursor,
                    SelectedTarget { hover: Some(h.entity), selected: target.selected },
                    if clicked && h.has_position {
                        MouseCommand::MoveTo(h.entity)
                    } else {
                        MouseCommand::Nothing
                    },
                )
            } else {
                match h.team {
                    Some(standing) => {
                        let hover = Some(h.entity);
                        if !clicked {
                            (cursor, SelectedTarget { hover, selected: target.selected }, MouseCommand::Nothing)
                        } else if target.selected == Some(h.entity) {
                            (
                                cursor,
                                SelectedTarget { hover, selected: target.selected },
                                if standing == TeamStanding::Hostile {
                                    MouseCommand::Attack(h.entity)
                                } else if h.has_position {
                                    MouseCommand::MoveTo(h.entity)
                                } else {
                                    MouseCommand::Nothing
                                },
                            )
                        } else {
                            (cursor, SelectedTarget { hover, selected: Some(h.entity) }, MouseCommand::Nothing)
                        }
                    },
                    None => (cursor, SelectedTarget { hover: None, selected: target.selected }, MouseCommand::Nothing),
                }
            }
        },
    }
}

fn cursor_for(hit: &MouseHit) -> (r: UiCursorType)
    ensures
        r == spec_cursor(*hit),
{
    let mut cursor = match hit.client_entity_type {
        Some(ClientEntityType::Character) => UiCursorType::User,
        Some(ClientEntityType::Monster) => UiCursorType::Attack,
        Some(ClientEntityType::Npc) => UiCursorType::Npc,
        Some(ClientEntityType::ItemDrop) => UiCursorType::PickupItem,
        None => UiCursorType::Default,
    };
    if let Some(TeamStanding::Hostile) = hit.team {
        cursor = UiCursorType::Attack;
    }
    cursor
}

/// The effect of the mouse in a frame (see `spec_mouse_input`): updates the hovered and
/// selected entities and gives the cursor and the command.
pub fn game_mouse_input_system(hit: Option<MouseHit>, clicked: bool, target: &mut SelectedTarget) -> (r: (UiCursorType, MouseCommand))
    ensures
        (r.0, *final(target), r.1) == spec_mouse_input(hit, clicked, *old(target)),
{
    target.hover = None;
    match hit {
        None => (UiCursorType::Default, MouseCommand::Nothing),
        Some(h) => {
            let cursor = cursor_for(&h);
            let mut command = MouseCommand::Nothing;
            if h.zone_object {
                if clicked {
                    command = MouseCommand::MoveToGround;
                }
            } else if h.item_drop {
                target.hover = Some(h.entity);
                if clicked && h.has_position {
                    command = MouseCommand::MoveTo(h.entity);
                }
            } else if let Some(standing) = h.team {
                target.hover = Some(h.entity);
                if clicked {
                    if target.selected == Some(h.entity) {
                        match standing {
                            TeamStanding::Hostile => {
                                command = MouseCommand::Attack(h.entity);
                            },
                            TeamStanding::Friendly => {
                                if h.has_position {
                                    command = MouseCommand::MoveTo(h.entity);
                                }
                            },
                        }
                    } else {
                        target.selected = Some(h.entity);
                    }
                }
            }
            (cursor, command)
        },
    }
}

} // verus!

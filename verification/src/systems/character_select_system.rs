use vstd::prelude::*;

verus! {

/// The character of the list that a model on the character select screen shows.
#[derive(Copy, Clone, Debug, PartialEq, Eq, Structural)]
pub struct CharacterSelectCharacter {
    pub index: usize,
}

/// Within how many milliseconds a second click on the selected character plays it.
pub const DOUBLE_CLICK_MILLIS: u64 = 250;

/// A click that hit the model of `character` at `now_ms` milliseconds: the character
/// becomes the selected one, selected at `now_ms`. Returns whether to play the selected
/// character: it was selected already, by a click less than `DOUBLE_CLICK_MILLIS` before
/// (a time after `now_ms` counts as no time before).
pub fn character_select_input_system(
    selected_character_index: &mut Option<usize>,
    last_selected_time: &mut Option<u64>,
    character: CharacterSelectCharacter,
    now_ms: u64,
) -> (play: bool)
    ensures
        *final(selected_character_index) == Some(character.index),
        *final(last_selected_time) == Some(now_ms),
        play == (*old(selected_character_index) == Some(character.index) && match *old(
            last_selected_time,
        ) {
            Some(last) => (if now_ms >= last {
                now_ms - last
            } else {
                0
            }) < DOUBLE_CLICK_MILLIS,
            None => false,
        }),
{
    let mut play = false;
    if *selected_character_index == Some(character.index) {
        if let Some(last) = *last_selected_time {
            let elapsed = if now_ms >= last {
                now_ms - last
            } else {
                0
            };
            if elapsed < DOUBLE_CLICK_MILLIS {
                play = true;
            }
        }
    }
    *selected_character_index = Some(character.index);
    *last_selected_time = Some(now_ms);
    play
}

/// Where the character select screen is: the camera flying in, choosing (with the index
/// of the selected character, if any), the character creation form, waiting for a new
/// character, connecting to the game server, the camera flying out, loading the zone.
#[derive(Copy, Clone, Debug, PartialEq, Eq, Structural)]
pub enum CharacterSelectState {
    Entering,
    CharacterSelect(Option<usize>),
    CharacterCreate,
    CharacterCreating,
    ConnectingGameServer,
    Leaving,
    Loading,
}

/// A character of the account's list: its name and, while it waits to be deleted, the
/// delete time the server gave.
#[derive(Debug)]
pub struct CharacterListEntry {
    pub name: String,
    pub delete_time: Option<u64>,
}

/// A character as plain values.
pub open spec fn spec_entry(c: CharacterListEntry) -> (Seq<char>, Option<u64>) {
    (c.name@, c.delete_time)
}

/// What the player does on the character select screen.
#[derive(Copy, Clone, Debug, PartialEq, Eq, Structural)]
pub enum CharacterSelectEvent {
    SelectCharacter(usize),
    PlaySelected,
    DeleteSelected,
    Disconnect,
}

/// What is sent to the world server, or done, after an event of the player.
#[derive(Debug)]
pub enum CharacterSelectRequest {
    Nothing,
    SelectCharacter { slot: u8, name: String },
    DeleteCharacter { slot: u8, name: String, is_delete: bool },
    Disconnect,
}

/// An event of the player on the character select screen: selecting a character while
/// choosing; playing the selected character, where it exists and is not being deleted
/// (sent where connected; the screen then waits for the game server either way);
/// deleting the selected character (or taking back its deletion) where it exists and the
/// world server is connected; disconnecting.
pub fn character_select_event(
    state: &mut CharacterSelectState,
    event: CharacterSelectEvent,
    characters: &Option<Vec<CharacterListEntry>>,
    connected: bool,
) -> (r: CharacterSelectRequest)
    ensures
        match event {
            CharacterSelectEvent::SelectCharacter(index) => r is Nothing && *final(state) == if *old(state) is CharacterSelect {
                CharacterSelectState::CharacterSelect(Some(index))
            } else {
                *old(state)
            },
            CharacterSelectEvent::PlaySelected => match (*old(state), *characters) {
                (CharacterSelectState::CharacterSelect(Some(i)), Some(list)) => if i < list@.len()
                    && list@[i as int].delete_time is None {
                    *final(state) == CharacterSelectState::ConnectingGameServer && if connected {
                        r matches CharacterSelectRequest::SelectCharacter { slot, name } && slot == i as u8
                            && name@ == list@[i as int].name@
                    } else {
                        r is Nothing
                    }
                } else {
                    r is Nothing && *final(state) == *old(state)
                },
                _ => r is Nothing && *final(state) == *old(state),
            },
            CharacterSelectEvent::DeleteSelected => *final(state) == *old(state) && match (*old(state), *characters) {
                (CharacterSelectState::CharacterSelect(Some(i)), Some(list)) => if i < list@.len() && connected {
                    r matches CharacterSelectRequest::DeleteCharacter { slot, name, is_delete } && slot == i as u8
                        && name@ == list@[i as int].name@ && is_delete == (list@[i as int].delete_time is None)
                } else {
                    r is Nothing
                },
                _ => r is Nothing,
            },
            CharacterSelectEvent::Disconnect => r is Disconnect && *final(state) == *old(state),
        },
{
    match event {
        CharacterSelectEvent::SelectCharacter(index) => {
            if let CharacterSelectState::CharacterSelect(_) = *state {
                *state = CharacterSelectState::CharacterSelect(Some(index));
            }
            CharacterSelectRequest::Nothing
        },
        CharacterSelectEvent::PlaySelected => {
            if let CharacterSelectState::CharacterSelect(Some(i)) = *state {
                if let Some(list) = characters {
                    if i < list.len() && list[i].delete_time.is_none() {
                        *state = CharacterSelectState::ConnectingGameServer;
                        if connected {
                            return CharacterSelectRequest::SelectCharacter {
                                slot: i as u8,
                                name: list[i].name.clone(),
                            };
                        }
                    }
                }
            }
            CharacterSelectRequest::Nothing
        },
        CharacterSelectEvent::DeleteSelected => {
            if let CharacterSelectState::CharacterSelect(Some(i)) = *state {
                if let Some(list) = characters {
                    if i < list.len() && connected {
                        return CharacterSelectRequest::DeleteCharacter {
                            slot: i as u8,
                            name: list[i].name.clone(),
                            is_delete: list[i].delete_time.is_none(),
                        };
                    }
                }
            }
            CharacterSelectRequest::Nothing
        },
        CharacterSelectEvent::Disconnect => CharacterSelectRequest::Disconnect,
    }
}

/// The answers of the world server to the character select screen: a new character was
/// made or was refused; a character's deletion was set (its name and delete time) or
/// refused.
#[derive(Debug)]
pub enum WorldConnectionEvent {
    CreateCharacterSucceeded,
    CreateCharacterFailed,
    DeleteCharacterSucceeded { name: String, delete_time: Option<u64> },
    DeleteCharacterFailed,
}

/// What the screen does after an answer of the world server.
#[derive(Copy, Clone, Debug, PartialEq, Eq, Structural)]
pub enum WorldConnectionAction {
    Nothing,
    /// Fly the camera back out of the creation view and ask for the character list.
    LeaveCreateAndRequestList,
    /// Ask for the character list.
    RequestList,
}

/// The list after a deletion answer: each character of that name gets the delete time.
pub open spec fn spec_with_delete_time(
    list: Seq<(Seq<char>, Option<u64>)>,
    name: Seq<char>,
    delete_time: Option<u64>,
) -> Seq<(Seq<char>, Option<u64>)> {
    list.map_values(|c: (Seq<char>, Option<u64>)| if c.0 == name { (c.0, delete_time) } else { c })
}

/// The character list as plain values, where there is one.
pub open spec fn spec_list(characters: Option<Vec<CharacterListEntry>>) -> Option<Seq<(Seq<char>, Option<u64>)>> {
    match characters {
        Some(l) => Some(l@.map_values(|c: CharacterListEntry| spec_entry(c))),
        None => None,
    }
}

fn same_text(a: &String, b: &String) -> (r: bool)
    ensures
        r == (a@ == b@),
{
    *a == *b
}

/// Handles an answer of the world server: a new character leads back to choosing, a
/// refused one back to the form; a deletion marks the characters of that name (or asks
/// for the list where there is none yet).
pub fn world_connection_event(
    state: &mut CharacterSelectState,
    characters: &mut Option<Vec<CharacterListEntry>>,
    event: WorldConnectionEvent,
) -> (r: WorldConnectionAction)
    ensures
        match event {
            WorldConnectionEvent::CreateCharacterSucceeded => r == WorldConnectionAction::LeaveCreateAndRequestList
                && *final(state) == CharacterSelectState::CharacterSelect(None) && spec_list(*final(characters))
                == spec_list(*old(characters)),
            WorldConnectionEvent::CreateCharacterFailed => r == WorldConnectionAction::Nothing && *final(state)
                == CharacterSelectState::CharacterCreate && spec_list(*final(characters)) == spec_list(*old(characters)),
            WorldConnectionEvent::DeleteCharacterSucceeded { name, delete_time } => *final(state) == *old(state)
                && match spec_list(*old(characters)) {
                Some(l) => r == WorldConnectionAction::Nothing && spec_list(*final(characters)) == Some(
                    spec_with_delete_time(l, name@, delete_time),
                ),
                None => r == WorldConnectionAction::RequestList && spec_list(*final(characters)) is None,
            },
            WorldConnectionEvent::DeleteCharacterFailed => r == WorldConnectionAction::Nothing && *final(state)
                == *old(state) && spec_list(*final(characters)) == spec_list(*old(characters)),
        },
{
    match event {
        WorldConnectionEvent::CreateCharacterSucceeded => {
            *state = CharacterSelectState::CharacterSelect(None);
            WorldConnectionAction::LeaveCreateAndRequestList
        },
        WorldConnectionEvent::CreateCharacterFailed => {
            *state = CharacterSelectState::CharacterCreate;
            WorldConnectionAction::Nothing
        },
        WorldConnectionEvent::DeleteCharacterSucceeded { name, delete_time } => {
            match characters {
                Some(list) => {
                    let ghost before = list@.map_values(|c: CharacterListEntry| spec_entry(c));
                    let mut i: usize = 0;
                    while i < list.len()
                        invariant
                            i <= list@.len(),
                            before.len() == list@.len(),
                            forall|j: int|
                                0 <= j < list@.len() ==> #[trigger] spec_entry(list@[j]) == if j < i
                                    && before[j].0 == name@ {
                                    (before[j].0, delete_time)
                                } else {
                                    before[j]
                                },
                        decreases list.len() - i,
                    {
                        let ghost previous = list@;
                        assert(spec_entry(previous[i as int]) == before[i as int]);
                        if same_text(&list[i].name, &name) {
                            let entry_name = list[i].name.clone();
                            list.set(i, CharacterListEntry { name: entry_name, delete_time });
                        }
                        proof {
                            assert forall|j: int| 0 <= j < list@.len() implies #[trigger] spec_entry(list@[j])
                                == if j < i + 1 && before[j].0 == name@ {
                                (before[j].0, delete_time)
                            } else {
                                before[j]
                            } by {
                                if j != i {
                                    assert(list@[j] == previous[j]);
                                    assert(spec_entry(previous[j]) == if j < i && before[j].0 == name@ {
                                        (before[j].0, delete_time)
                                    } else {
                                        before[j]
                                    });
                                }
                            }
                        }
                        i = i + 1;
                    }
                    assert(list@.map_values(|c: CharacterListEntry| spec_entry(c)) =~= spec_with_delete_time(
                        before,
                        name@,
                        delete_time,
                    ));
                    WorldConnectionAction::Nothing
                },
                None => WorldConnectionAction::RequestList,
            }
        },
        WorldConnectionEvent::DeleteCharacterFailed => WorldConnectionAction::Nothing,
    }
}

/// What a frame of the character select screen does besides its state: nothing, fly the
/// camera out to the game, or load the zone to join.
#[derive(Copy, Clone, Debug, PartialEq, Eq, Structural)]
pub enum CharacterSelectFrameAction {
    Nothing,
    StartLeaving,
    LoadZone(u16),
}

/// A frame of the character select screen: once the camera has stopped (or at once with
/// automatic login), entering leads to choosing and leaving to loading the zone to join;
/// connecting waits for the game server to say which zone to join.
pub fn character_select_frame(
    state: &mut CharacterSelectState,
    join_zone_id: &mut Option<u16>,
    camera_moving: bool,
    auto_login: bool,
    connected_zone: Option<u16>,
) -> (r: CharacterSelectFrameAction)
    requires
        *old(state) == CharacterSelectState::Leaving && (!camera_moving || auto_login) ==> (*old(join_zone_id)) is Some,
    ensures
        match *old(state) {
            CharacterSelectState::Entering => r == CharacterSelectFrameAction::Nothing && *final(join_zone_id)
                == *old(join_zone_id) && *final(state) == if !camera_moving || auto_login {
                CharacterSelectState::CharacterSelect(None)
            } else {
                CharacterSelectState::Entering
            },
            CharacterSelectState::ConnectingGameServer => match connected_zone {
                Some(zone) => r == CharacterSelectFrameAction::StartLeaving && *final(state)
                    == CharacterSelectState::Leaving && *final(join_zone_id) == Some(zone),
                None => r == CharacterSelectFrameAction::Nothing && *final(state) == *old(state)
                    && *final(join_zone_id) == *old(join_zone_id),
            },
            CharacterSelectState::Leaving => if !camera_moving || auto_login {
                r == CharacterSelectFrameAction::LoadZone((*old(join_zone_id))->0) && *final(state)
                    == CharacterSelectState::Loading && *final(join_zone_id) is None
            } else {
                r == CharacterSelectFrameAction::Nothing && *final(state) == *old(state) && *final(join_zone_id)
                    == *old(join_zone_id)
            },
            _ => r == CharacterSelectFrameAction::Nothing && *final(state) == *old(state) && *final(join_zone_id)
                == *old(join_zone_id),
        },
{
    match *state {
        CharacterSelectState::Entering => {
            if !camera_moving || auto_login {
                *state = CharacterSelectState::CharacterSelect(None);
            }
            CharacterSelectFrameAction::Nothing
        },
        CharacterSelectState::ConnectingGameServer => match connected_zone {
            Some(zone) => {
                *state = CharacterSelectState::Leaving;
                *join_zone_id = Some(zone);
                CharacterSelectFrameAction::StartLeaving
            },
            None => CharacterSelectFrameAction::Nothing,
        },
        CharacterSelectState::Leaving => {
            if !camera_moving || auto_login {
                *state = CharacterSelectState::Loading;
                let zone = match *join_zone_id {
                    Some(z) => z,
                    None => 0,
                };
                *join_zone_id = None;
                CharacterSelectFrameAction::LoadZone(zone)
            } else {
                CharacterSelectFrameAction::Nothing
            }
        },
        _ => CharacterSelectFrameAction::Nothing,
    }
}

/// The motion a character model of the list plays.
#[derive(Copy, Clone, Debug, PartialEq, Eq, Structural)]
pub enum CharacterSelectMotion {
    Sit,
    Select,
    Stop,
}

/// The motion of the model of a character: sitting while it waits to be deleted, the
/// select motion while it is the selected one, standing otherwise.
pub fn character_select_motion(index: usize, deleting: bool, state: CharacterSelectState) -> (r: CharacterSelectMotion)
    ensures
        r == if deleting {
            CharacterSelectMotion::Sit
        } else if state == CharacterSelectState::CharacterSelect(Some(index)) {
            CharacterSelectMotion::Select
        } else {
            CharacterSelectMotion::Stop
        },
{
    if deleting {
        CharacterSelectMotion::Sit
    } else {
        match state {
            CharacterSelectState::CharacterSelect(Some(selected)) => if selected == index {
                CharacterSelectMotion::Select
            } else {
                CharacterSelectMotion::Stop
            },
            _ => CharacterSelectMotion::Stop,
        }
    }
}

} // verus!

use vstd::prelude::*;

verus! {

/// How far automatic login has come.
#[derive(Copy, Clone, Debug, PartialEq, Eq, Structural)]
pub enum AutoLoginState {
    Login,
    WaitServerList,
    WaitCharacterList,
    Idle,
}

impl Default for AutoLoginState {
    fn default() -> (r: Self)
        ensures
            r == AutoLoginState::Login,
    {
        AutoLoginState::Login
    }
}

/// The screen the client shows, as far as automatic login tells them apart.
#[derive(Copy, Clone, Debug, PartialEq, Eq, Structural)]
pub enum LoginScreen {
    GameLogin,
    GameCharacterSelect,
    Other,
}

/// What automatic login was told to do: each item that is present is used.
#[derive(Debug)]
pub struct AutoLogin {
    pub preset_username: Option<String>,
    pub preset_password: Option<String>,
    pub preset_server_id: Option<usize>,
    pub preset_channel_id: Option<usize>,
    pub preset_character_name: Option<String>,
}

/// A world server of the server list and the ids of its game servers (channels).
#[derive(Debug)]
pub struct WorldServer {
    pub id: usize,
    pub game_server_ids: Vec<usize>,
}

/// What automatic login asks for.
#[derive(Debug)]
pub enum AutoLoginAction {
    Login { username: String, password: String },
    SelectServer { server_id: usize, channel_id: usize },
    SelectCharacter(usize),
    PlaySelected,
    RemoveAutoLogin,
}

/// An action as plain values.
pub enum AutoLoginActionView {
    Login { username: Seq<char>, password: Seq<char> },
    SelectServer { server_id: usize, channel_id: usize },
    SelectCharacter(usize),
    PlaySelected,
    RemoveAutoLogin,
}

impl View for AutoLoginAction {
    type V = AutoLoginActionView;

    open spec fn view(&self) -> AutoLoginActionView {
        match self {
            AutoLoginAction::Login { username, password } => AutoLoginActionView::Login {
                username: username@,
                password: password@,
            },
            AutoLoginAction::SelectServer { server_id, channel_id } => {
                AutoLoginActionView::SelectServer { server_id: *server_id, channel_id: *channel_id }
            },
            AutoLoginAction::SelectCharacter(i) => AutoLoginActionView::SelectCharacter(*i),
            AutoLoginAction::PlaySelected => AutoLoginActionView::PlaySelected,
            AutoLoginAction::RemoveAutoLogin => AutoLoginActionView::RemoveAutoLogin,
        }
    }
}

/// The preset as plain values.
pub struct AutoLoginView {
    pub username: Option<Seq<char>>,
    pub password: Option<Seq<char>>,
    pub server_id: Option<usize>,
    pub channel_id: Option<usize>,
    pub character_name: Option<Seq<char>>,
}

/// An optional text as its characters.
pub open spec fn spec_option_text(s: Option<String>) -> Option<Seq<char>> {
    match s {
        Some(s) => Some(s@),
        None => None,
    }
}

impl View for AutoLogin {
    type V = AutoLoginView;

    open spec fn view(&self) -> AutoLoginView {
        AutoLoginView {
            username: spec_option_text(self.preset_username),
            password: spec_option_text(self.preset_password),
            server_id: self.preset_server_id,
            channel_id: self.preset_channel_id,
            character_name: spec_option_text(self.preset_character_name),
        }
    }
}

/// A server list as plain values: each world server's id and its game servers' ids.
pub open spec fn spec_server_list(servers: Seq<WorldServer>) -> Seq<(usize, Seq<usize>)> {
    servers.map_values(|w: WorldServer| (w.id, w.game_server_ids@))
}

/// How many times `id` occurs in `ids`.
pub open spec fn spec_count(ids: Seq<usize>, id: usize) -> nat
    decreases ids.len(),
{
    if ids.len() == 0 {
        0
    } else {
        spec_count(ids.drop_last(), id) + if ids.last() == id {
            1nat
        } else {
            0nat
        }
    }
}

/// How many times the game server `channel_id` of the world server `server_id` occurs in
/// a server list.
pub open spec fn spec_server_matches(servers: Seq<(usize, Seq<usize>)>, server_id: usize, channel_id: usize) -> nat
    decreases servers.len(),
{
    if servers.len() == 0 {
        0
    } else {
        let last = servers.last();
        spec_server_matches(servers.drop_last(), server_id, channel_id) + if last.0 == server_id {
            spec_count(last.1, channel_id)
        } else {
            0
        }
    }
}

/// For each character of the list, in order, that has the preset name: select it, then
/// play it.
pub open spec fn spec_character_selections(names: Seq<Seq<char>>, name: Seq<char>) -> Seq<AutoLoginActionView>
    decreases names.len(),
{
    if names.len() == 0 {
        Seq::empty()
    } else {
        spec_character_selections(names.drop_last(), name) + if names.last() == name {
            seq![
                AutoLoginActionView::SelectCharacter((names.len() - 1) as usize),
                AutoLoginActionView::PlaySelected,
            ]
        } else {
            Seq::empty()
        }
    }
}

/// One step of automatic login: from the state, the screen shown, the preset (if automatic
/// login is on), the server list and the names of the characters (when they have come),
/// the next state and what to ask for.
pub open spec fn spec_auto_login_step(
    state: AutoLoginState,
    screen: LoginScreen,
    preset: Option<AutoLoginView>,
    servers: Option<Seq<(usize, Seq<usize>)>>,
    characters: Option<Seq<Seq<char>>>,
) -> (AutoLoginState, Seq<AutoLoginActionView>) {
    match preset {
        None => (state, Seq::empty()),
        Some(preset) => match state {
            AutoLoginState::Login => if screen != LoginScreen::GameLogin {
                (state, Seq::empty())
            } else {
                let (next, actions) = match (preset.username, preset.password) {
                    (Some(username), Some(password)) => (
                        AutoLoginState::WaitServerList,
                        seq![AutoLoginActionView::Login { username, password }],
                    ),
                    _ => (AutoLoginState::Login, Seq::empty()),
                };
                if servers is Some {
                    (AutoLoginState::WaitCharacterList, actions)
                } else {
                    (next, actions)
                }
            },
            AutoLoginState::WaitServerList => {
                let (next, actions) = match servers {
                    None => (state, Seq::empty()),
                    Some(servers) => match (preset.server_id, preset.channel_id) {
                        (Some(server_id), Some(channel_id)) => {
                            let n = spec_server_matches(servers, server_id, channel_id);
                            (
                                if n > 0 {
                                    AutoLoginState::WaitCharacterList
                                } else {
                                    state
                                },
                                Seq::new(
                                    n,
                                    |i: int|
                                        AutoLoginActionView::SelectServer { server_id, channel_id },
                                ),
                            )
                        },
                        _ => if servers.len() == 1 && servers[0].1.len() == 1 {
                            (
                                AutoLoginState::WaitCharacterList,
                                seq![
                                    AutoLoginActionView::SelectServer {
                                        server_id: servers[0].0,
                                        channel_id: servers[0].1[0],
                                    },
                                ],
                            )
                        } else {
                            (state, Seq::empty())
                        },
                    },
                };
                if screen == LoginScreen::GameCharacterSelect {
                    (AutoLoginState::WaitCharacterList, actions)
                } else {
                    (next, actions)
                }
            },
            AutoLoginState::WaitCharacterList => if screen != LoginScreen::GameCharacterSelect {
                (state, Seq::empty())
            } else {
                match preset.character_name {
                    None => (AutoLoginState::Idle, Seq::empty()),
                    Some(name) => match characters {
                        None => (state, Seq::empty()),
                        Some(names) => {
                            let actions = spec_character_selections(names, name);
                            (
                                if actions.len() > 0 {
                                    AutoLoginState::Idle
                                } else {
                                    state
                                },
                                actions,
                            )
                        },
                    },
                }
            },
            AutoLoginState::Idle => if screen != LoginScreen::GameCharacterSelect {
                (AutoLoginState::Login, seq![AutoLoginActionView::RemoveAutoLogin])
            } else {
                (state, Seq::empty())
            },
        },
    }
}

/// The names of characters as plain values.
pub open spec fn spec_names(names: Seq<String>) -> Seq<Seq<char>> {
    names.map_values(|s: String| s@)
}

/// Actions as plain values.
pub open spec fn spec_actions(actions: Seq<AutoLoginAction>) -> Seq<AutoLoginActionView> {
    actions.map_values(|a: AutoLoginAction| a@)
}

/// One step of automatic login (see `spec_auto_login_step`): updates the state and
/// returns what to ask for, in order.
pub fn auto_login_system(
    state: &mut AutoLoginState,
    screen: LoginScreen,
    auto_login: Option<&AutoLogin>,
    server_list: Option<&Vec<WorldServer>>,
    character_names: Option<&Vec<String>>,
) -> (actions: Vec<AutoLoginAction>)
    ensures
        (*final(state), spec_actions(actions@)) == spec_auto_login_step(
            *old(state),
            screen,
            match auto_login {
                Some(a) => Some(a@),
                None => None,
            },
            match server_list {
                Some(s) => Some(spec_server_list(s@)),
                None => None,
            },
            match character_names {
                Some(n) => Some(spec_names(n@)),
                None => None,
            },
        ),
{
    let mut actions: Vec<AutoLoginAction> = Vec::new();
    assert(spec_actions(actions@) =~= Seq::empty());
    let preset = match auto_login {
        None => {
            return actions;
        },
        Some(preset) => preset,
    };
    match *state {
        AutoLoginState::Login => {
            if screen != LoginScreen::GameLogin {
                return actions;
            }
            match (&preset.preset_username, &preset.preset_password) {
                (Some(username), Some(password)) => {
                    actions.push(
                        AutoLoginAction::Login { username: username.clone(), password: password.clone() },
                    );
                    *state = AutoLoginState::WaitServerList;
                    assert(spec_actions(actions@) =~= seq![
                        AutoLoginActionView::Login { username: username@, password: password@ },
                    ]);
                },
                _ => {},
            }
            if server_list.is_some() {
                *state = AutoLoginState::WaitCharacterList;
            }
        },
        AutoLoginState::WaitServerList => {
            if let Some(servers) = server_list {
                let ghost list = spec_server_list(servers@);
                match (preset.preset_server_id, preset.preset_channel_id) {
                    (Some(server_id), Some(channel_id)) => {
                        let mut i: usize = 0;
                        while i < servers.len()
                            invariant
                                i <= servers@.len(),
                                list == spec_server_list(servers@),
                                *old(state) == AutoLoginState::WaitServerList,
                                spec_actions(actions@) == Seq::new(
                                    spec_server_matches(list.take(i as int), server_id, channel_id),
                                    |k: int| AutoLoginActionView::SelectServer { server_id, channel_id },
                                ),
                                *state == if actions@.len() > 0 {
                                    AutoLoginState::WaitCharacterList
                                } else {
                                    AutoLoginState::WaitServerList
                                },
                            decreases servers.len() - i,
                        {
                            let world = &servers[i];
                            assert(list.take(i + 1).drop_last() =~= list.take(i as int));
                            assert(list.take(i + 1).last() == (world.id, world.game_server_ids@));
                            if world.id == server_id {
                                let ghost ids = world.game_server_ids@;
                                let ghost before = spec_server_matches(
                                    list.take(i as int),
                                    server_id,
                                    channel_id,
                                );
                                let mut j: usize = 0;
                                while j < world.game_server_ids.len()
                                    invariant
                                        j <= ids.len(),
                                        ids == world.game_server_ids@,
                                        *old(state) == AutoLoginState::WaitServerList,
                                        spec_actions(actions@) == Seq::new(
                                            before + spec_count(ids.take(j as int), channel_id),
                                            |k: int|
                                                AutoLoginActionView::SelectServer {
                                                    server_id,
                                                    channel_id,
                                                },
                                        ),
                                        *state == if actions@.len() > 0 {
                                            AutoLoginState::WaitCharacterList
                                        } else {
                                            AutoLoginState::WaitServerList
                                        },
                                    decreases ids.len() - j,
                                {
                                    assert(ids.take(j + 1).drop_last() =~= ids.take(j as int));
                                    assert(ids.take(j + 1).last() == ids[j as int]);
                                    assert(spec_count(ids.take(j + 1), channel_id) == spec_count(
                                        ids.take(j as int),
                                        channel_id,
                                    ) + if ids[j as int] == channel_id {
                                        1nat
                                    } else {
                                        0nat
                                    });
                                    let ghost prior = actions@;
                                    if world.game_server_ids[j] == channel_id {
                                        actions.push(
                                            AutoLoginAction::SelectServer { server_id, channel_id },
                                        );
                                        *state = AutoLoginState::WaitCharacterList;
                                        assert(actions@ == prior.push(
                                            AutoLoginAction::SelectServer { server_id, channel_id },
                                        ));
                                        assert(spec_actions(actions@) =~= spec_actions(prior).push(
                                            AutoLoginActionView::SelectServer { server_id, channel_id },
                                        ));
                                    }
                                    j = j + 1;
                                    assert(spec_actions(actions@) =~= Seq::new(
                                        before + spec_count(ids.take(j as int), channel_id),
                                        |k: int|
                                            AutoLoginActionView::SelectServer {
                                                server_id,
                                                channel_id,
                                            },
                                    ));
                                }
                                assert(ids.take(ids.len() as int) =~= ids);
                            }
                            i = i + 1;
                        }
                        assert(list.take(servers@.len() as int) =~= list);
                    },
                    _ => {
                        if servers.len() == 1 && servers[0].game_server_ids.len() == 1 {
                            actions.push(
                                AutoLoginAction::SelectServer {
                                    server_id: servers[0].id,
                                    channel_id: servers[0].game_server_ids[0],
                                },
                            );
                            *state = AutoLoginState::WaitCharacterList;
                            assert(spec_actions(actions@) =~= seq![
                                AutoLoginActionView::SelectServer {
                                    server_id: list[0].0,
                                    channel_id: list[0].1[0],
                                },
                            ]);
                        }
                    },
                }
            }
            if screen == LoginScreen::GameCharacterSelect {
                *state = AutoLoginState::WaitCharacterList;
            }
        },
        AutoLoginState::WaitCharacterList => {
            if screen != LoginScreen::GameCharacterSelect {
                return actions;
            }
            let name = match &preset.preset_character_name {
                None => {
                    *state = AutoLoginState::Idle;
                    return actions;
                },
                Some(name) => name,
            };
            let names = match character_names {
                None => {
                    return actions;
                },
                Some(names) => names,
            };
            let ghost all = spec_names(names@);
            let mut i: usize = 0;
            while i < names.len()
                invariant
                    i <= names@.len(),
                    all == spec_names(names@),
                    *old(state) == AutoLoginState::WaitCharacterList,
                    spec_actions(actions@) == spec_character_selections(all.take(i as int), name@),
                    *state == if actions@.len() > 0 {
                        AutoLoginState::Idle
                    } else {
                        AutoLoginState::WaitCharacterList
                    },
                decreases names.len() - i,
            {
                assert(all.take(i + 1).drop_last() =~= all.take(i as int));
                if names[i] == *name {
                    actions.push(AutoLoginAction::SelectCharacter(i));
                    actions.push(AutoLoginAction::PlaySelected);
                    *state = AutoLoginState::Idle;
                }
                i = i + 1;
                assert(spec_actions(actions@) =~= spec_character_selections(
                    all.take(i as int),
                    name@,
                ));
            }
            assert(all.take(names@.len() as int) =~= all);
        },
        AutoLoginState::Idle => {
            if screen != LoginScreen::GameCharacterSelect {
                actions.push(AutoLoginAction::RemoveAutoLogin);
                *state = AutoLoginState::Login;
                assert(spec_actions(actions@) =~= seq![AutoLoginActionView::RemoveAutoLogin]);
            }
        },
    }
    actions
}

} // verus!

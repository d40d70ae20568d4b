use vstd::prelude::*;

verus! {

/// A game server (channel) of the server list: its id and name.
#[derive(Debug)]
pub struct ServerListGameServer {
    pub id: usize,
    pub name: String,
}

/// A world server of the server list: its id, name and channels.
#[derive(Debug)]
pub struct ServerListWorldServer {
    pub id: usize,
    pub name: String,
    pub game_servers: Vec<ServerListGameServer>,
}

/// The servers the login server lists.
#[derive(Debug)]
pub struct ServerList {
    pub world_servers: Vec<ServerListWorldServer>,
}

/// A server as plain values: its id and name.
pub open spec fn spec_named(id: usize, name: String) -> (usize, Seq<char>) {
    (id, name@)
}

/// A world server as plain values: its id, name and channels.
pub open spec fn spec_world_server(w: ServerListWorldServer) -> (usize, Seq<char>, Seq<(usize, Seq<char>)>) {
    (w.id, w.name@, w.game_servers@.map_values(|g: ServerListGameServer| spec_named(g.id, g.name)))
}

impl View for ServerList {
    type V = Seq<(usize, Seq<char>, Seq<(usize, Seq<char>)>)>;

    open spec fn view(&self) -> Seq<(usize, Seq<char>, Seq<(usize, Seq<char>)>)> {
        self.world_servers@.map_values(|w: ServerListWorldServer| spec_world_server(w))
    }
}

/// The index of the first world server with an id.
pub open spec fn spec_world_index(servers: Seq<(usize, Seq<char>, Seq<(usize, Seq<char>)>)>, id: usize) -> Option<int>
    decreases servers.len(),
{
    if servers.len() == 0 {
        None
    } else if servers[0].0 == id {
        Some(0)
    } else {
        match spec_world_index(servers.drop_first(), id) {
            Some(i) => Some(i + 1),
            None => None,
        }
    }
}

/// The server list once the channels of the first world server with an id are known;
/// unchanged where no world server has that id.
pub open spec fn spec_with_channels(
    servers: Seq<(usize, Seq<char>, Seq<(usize, Seq<char>)>)>,
    id: usize,
    channels: Seq<(usize, Seq<char>)>,
) -> Seq<(usize, Seq<char>, Seq<(usize, Seq<char>)>)> {
    match spec_world_index(servers, id) {
        Some(i) => servers.update(i, (servers[i].0, servers[i].1, channels)),
        None => servers,
    }
}

impl ServerList {
    /// The server list of a successful login: each server listed becomes a world server
    /// with no channels yet. Also returns the ids of the world servers whose channels to
    /// ask for, in order.
    pub fn from_login_success(servers: Vec<(usize, String)>) -> (r: (ServerList, Vec<usize>))
        ensures
            r.0@ == servers@.map_values(|s: (usize, String)| (s.0, s.1@, Seq::<(usize, Seq<char>)>::empty())),
            r.1@ == servers@.map_values(|s: (usize, String)| s.0),
    {
        let ghost listed = servers@;
        let mut world_servers: Vec<ServerListWorldServer> = Vec::new();
        let mut requests: Vec<usize> = Vec::new();
        let mut servers = servers;
        let mut i: usize = 0;
        let n = servers.len();
        assert(listed.skip(0) =~= listed);
        while i < n
            invariant
                i <= n,
                n == listed.len(),
                servers@ == listed.skip(i as int),
                world_servers@.map_values(|w: ServerListWorldServer| spec_world_server(w))
                    == listed.take(i as int).map_values(
                    |s: (usize, String)| (s.0, s.1@, Seq::<(usize, Seq<char>)>::empty()),
                ),
                requests@ == listed.take(i as int).map_values(|s: (usize, String)| s.0),
            decreases n - i,
        {
            let ghost before = servers@;
            let (id, name) = servers.remove(0);
            assert(listed[i as int] == (id, name));
            let ghost world_before = world_servers@;
            let ghost name_view = name@;
            let world = ServerListWorldServer { id, name, game_servers: Vec::new() };
            assert(world.game_servers@.map_values(|g: ServerListGameServer| spec_named(g.id, g.name))
                =~= Seq::<(usize, Seq<char>)>::empty());
            assert(spec_world_server(world) == (id, name_view, Seq::<(usize, Seq<char>)>::empty()));
            world_servers.push(world);
            assert(world_servers@.map_values(|w: ServerListWorldServer| spec_world_server(w))
                =~= world_before.map_values(|w: ServerListWorldServer| spec_world_server(w)).push(
                (id, name_view, Seq::<(usize, Seq<char>)>::empty()),
            ));
            requests.push(id);
            i = i + 1;
            assert(servers@ =~= listed.skip(i as int));
            assert(listed.take(i as int) =~= listed.take(i - 1).push(listed[i - 1]));
            assert(world_servers@.map_values(|w: ServerListWorldServer| spec_world_server(w))
                =~= listed.take(i as int).map_values(
                |s: (usize, String)| (s.0, s.1@, Seq::<(usize, Seq<char>)>::empty()),
            ));
            assert(requests@ =~= listed.take(i as int).map_values(|s: (usize, String)| s.0));
        }
        assert(listed.take(n as int) =~= listed);
        (ServerList { world_servers }, requests)
    }

    /// The channels the login server lists for a world server: they replace the channels of
    /// the first world server with that id.
    pub fn set_channels(&mut self, server_id: usize, channels: Vec<(usize, String)>)
        ensures
            final(self)@ == spec_with_channels(
                old(self)@,
                server_id,
                channels@.map_values(|c: (usize, String)| (c.0, c.1@)),
            ),
    {
        let ghost all = self@;
        let mut i: usize = 0;
        assert(all.skip(0) =~= all);
        while i < self.world_servers.len()
            invariant
                i <= self.world_servers@.len(),
                all == self@,
                all == old(self)@,
                spec_world_index(all, server_id) == match spec_world_index(all.skip(i as int), server_id) {
                    Some(k) => Some(k + i),
                    None => None,
                },
            decreases self.world_servers.len() - i,
        {
            assert(all.skip(i as int)[0] == all[i as int]);
            assert(all[i as int] == spec_world_server(self.world_servers@[i as int]));
            if self.world_servers[i].id == server_id {
                let mut game_servers: Vec<ServerListGameServer> = Vec::new();
                let mut channels = channels;
                let ghost listed = channels@;
                let n = channels.len();
                assert(listed.skip(0) =~= listed);
                let mut j: usize = 0;
                while j < n
                    invariant
                        j <= n,
                        n == listed.len(),
                        channels@ == listed.skip(j as int),
                        game_servers@.map_values(|g: ServerListGameServer| spec_named(g.id, g.name))
                            == listed.take(j as int).map_values(|c: (usize, String)| (c.0, c.1@)),
                    decreases n - j,
                {
                    let (id, name) = channels.remove(0);
                    assert(listed[j as int] == (id, name));
                    let ghost games_before = game_servers@;
                    let ghost name_view = name@;
                    game_servers.push(ServerListGameServer { id, name });
                    assert(game_servers@.map_values(|g: ServerListGameServer| spec_named(g.id, g.name))
                        =~= games_before.map_values(|g: ServerListGameServer| spec_named(g.id, g.name)).push(
                        (id, name_view),
                    ));
                    j = j + 1;
                    assert(channels@ =~= listed.skip(j as int));
                    assert(listed.take(j as int) =~= listed.take(j - 1).push(listed[j - 1]));
                    assert(game_servers@.map_values(|g: ServerListGameServer| spec_named(g.id, g.name))
                        =~= listed.take(j as int).map_values(|c: (usize, String)| (c.0, c.1@)));
                }
                assert(listed.take(n as int) =~= listed);
                let ghost before = self.world_servers@;
                let mut world = self.world_servers.remove(i);
                world.game_servers = game_servers;
                self.world_servers.insert(i, world);
                assert(self@ =~= all.update(
                    i as int,
                    (all[i as int].0, all[i as int].1, listed.map_values(|c: (usize, String)| (c.0, c.1@))),
                ));
                return;
            }
            assert(all.skip(i as int).drop_first() =~= all.skip(i + 1));
            i = i + 1;
        }
    }
}

/// The account that logs in.
#[derive(Debug)]
pub struct Account {
    pub username: String,
    pub password: String,
}

/// What the login server connection delivers: a message of the server, or the state of
/// the message queue.
#[derive(Debug)]
pub enum LoginServerEvent {
    ConnectionRequestSuccess,
    ConnectionRequestError,
    LoginSuccess { server_list: Vec<(usize, String)> },
    LoginError,
    ChannelList { server_id: usize, channels: Vec<(usize, String)> },
    JoinServerSuccess { login_token: u32, packet_codec_seed: u32, ip: String, port: u16 },
    JoinServerError,
    /// A message that the login connection does not expect.
    Unexpected,
    /// No message is waiting.
    QueueEmpty,
    /// The connection is gone.
    Disconnected,
}

/// What is to be done after an event of the login server connection.
#[derive(Debug)]
pub enum LoginAction {
    /// Send a login request with the account.
    SendLoginRequest { username: String, password: String },
    /// Ask for the channels of each of these world servers.
    RequestChannelLists { server_ids: Vec<usize> },
    /// Connect to the world server.
    ConnectWorld { ip: String, port: u16, packet_codec_seed: u32, login_token: u32, password: String },
    /// Nothing to send; read the next event.
    Continue,
    /// Nothing more to read this frame.
    Stop,
    /// The connection failed: drop it.
    CloseConnection,
}

/// The server list of an optional resource, as plain values.
pub open spec fn spec_server_list(list: Option<ServerList>) -> Option<Seq<(usize, Seq<char>, Seq<(usize, Seq<char>)>)>> {
    match list {
        Some(l) => Some(l@),
        None => None,
    }
}

/// Handles one event of the login server connection: updates the server list and says
/// what to send or whether the connection is lost.
pub fn login_connection_event(
    account: &Option<Account>,
    list: &mut Option<ServerList>,
    event: LoginServerEvent,
) -> (r: LoginAction)
    ensures
        match event {
            LoginServerEvent::ConnectionRequestSuccess => match *account {
                Some(a) => r matches LoginAction::SendLoginRequest { username, password }
                    && username@ == a.username@ && password@ == a.password@,
                None => r is CloseConnection,
            },
            LoginServerEvent::LoginSuccess { server_list } => r matches LoginAction::RequestChannelLists {
                server_ids,
            } && server_ids@ == server_list@.map_values(|s: (usize, String)| s.0),
            LoginServerEvent::ChannelList { .. } => r is Continue,
            LoginServerEvent::JoinServerSuccess { login_token, packet_codec_seed, ip, port } => match *account {
                Some(a) => r matches LoginAction::ConnectWorld {
                    ip: rip,
                    port: rport,
                    packet_codec_seed: rseed,
                    login_token: rtoken,
                    password,
                } && rip@ == ip@ && rport == port && rseed == packet_codec_seed && rtoken == login_token
                    && password@ == a.password@,
                None => r is CloseConnection,
            },
            LoginServerEvent::Unexpected => r is Continue,
            LoginServerEvent::QueueEmpty => r is Stop,
            _ => r is CloseConnection,
        },
        spec_server_list(*final(list)) == match event {
            LoginServerEvent::LoginSuccess { server_list } => Some(
                server_list@.map_values(|s: (usize, String)| (s.0, s.1@, Seq::<(usize, Seq<char>)>::empty())),
            ),
            LoginServerEvent::ChannelList { server_id, channels } => match spec_server_list(*old(list)) {
                Some(l) => Some(
                    spec_with_channels(l, server_id, channels@.map_values(|c: (usize, String)| (c.0, c.1@))),
                ),
                None => None,
            },
            _ => spec_server_list(*old(list)),
        },
{
    match event {
        LoginServerEvent::ConnectionRequestSuccess => match account {
            Some(a) => LoginAction::SendLoginRequest {
                username: a.username.clone(),
                password: a.password.clone(),
            },
            None => LoginAction::CloseConnection,
        },
        LoginServerEvent::LoginSuccess { server_list } => {
            let (servers, server_ids) = ServerList::from_login_success(server_list);
            *list = Some(servers);
            LoginAction::RequestChannelLists { server_ids }
        },
        LoginServerEvent::ChannelList { server_id, channels } => {
            match list {
                Some(l) => l.set_channels(server_id, channels),
                None => {},
            }
            LoginAction::Continue
        },
        LoginServerEvent::JoinServerSuccess { login_token, packet_codec_seed, ip, port } => match account {
            Some(a) => LoginAction::ConnectWorld {
                ip,
                port,
                packet_codec_seed,
                login_token,
                password: a.password.clone(),
            },
            None => LoginAction::CloseConnection,
        },
        LoginServerEvent::Unexpected => LoginAction::Continue,
        LoginServerEvent::QueueEmpty => LoginAction::Stop,
        _ => LoginAction::CloseConnection,
    }
}

} // verus!

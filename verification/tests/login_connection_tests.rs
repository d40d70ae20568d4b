use rose_offline_client::systems::login_connection_system::{
    login_connection_event, Account, LoginAction, LoginServerEvent, ServerList,
};

fn account() -> Option<Account> {
    Some(Account {
        username: "user".to_string(),
        password: "secret".to_string(),
    })
}

fn listed() -> Vec<(usize, String)> {
    vec![(3, "Arua".to_string()), (7, "Eldeon".to_string())]
}

#[test]
fn login_success_lists_world_servers_without_channels() {
    let (list, requests) = ServerList::from_login_success(listed());
    assert_eq!(requests, vec![3, 7]);
    assert_eq!(list.world_servers.len(), 2);
    assert_eq!(list.world_servers[1].id, 7);
    assert_eq!(list.world_servers[1].name, "Eldeon");
    assert!(list.world_servers[0].game_servers.is_empty());
}

#[test]
fn channels_go_to_the_named_world_server() {
    let (mut list, _) = ServerList::from_login_success(listed());
    list.set_channels(7, vec![(1, "Channel 1".to_string()), (2, "Channel 2".to_string())]);
    assert!(list.world_servers[0].game_servers.is_empty());
    assert_eq!(list.world_servers[1].game_servers.len(), 2);
    assert_eq!(list.world_servers[1].game_servers[1].id, 2);
    assert_eq!(list.world_servers[1].game_servers[1].name, "Channel 2");
}

#[test]
fn channels_of_an_unknown_server_are_dropped() {
    let (mut list, _) = ServerList::from_login_success(listed());
    list.set_channels(9, vec![(1, "Channel 1".to_string())]);
    assert!(list.world_servers.iter().all(|w| w.game_servers.is_empty()));
}

#[test]
fn connection_success_sends_the_login_request() {
    let mut list = None;
    match login_connection_event(&account(), &mut list, LoginServerEvent::ConnectionRequestSuccess) {
        LoginAction::SendLoginRequest { username, password } => {
            assert_eq!(username, "user");
            assert_eq!(password, "secret");
        }
        other => panic!("unexpected action {:?}", other),
    }
    assert!(list.is_none());
}

#[test]
fn connection_success_without_account_closes() {
    let mut list = None;
    let action = login_connection_event(&None, &mut list, LoginServerEvent::ConnectionRequestSuccess);
    assert!(matches!(action, LoginAction::CloseConnection));
}

#[test]
fn login_success_then_channel_list() {
    let mut list = None;
    let action = login_connection_event(
        &account(),
        &mut list,
        LoginServerEvent::LoginSuccess { server_list: listed() },
    );
    match action {
        LoginAction::RequestChannelLists { server_ids } => assert_eq!(server_ids, vec![3, 7]),
        other => panic!("unexpected action {:?}", other),
    }
    let action = login_connection_event(
        &account(),
        &mut list,
        LoginServerEvent::ChannelList { server_id: 3, channels: vec![(5, "Five".to_string())] },
    );
    assert!(matches!(action, LoginAction::Continue));
    let servers = list.unwrap();
    assert_eq!(servers.world_servers[0].game_servers[0].id, 5);
    assert!(servers.world_servers[1].game_servers.is_empty());
}

#[test]
fn join_server_success_connects_to_the_world() {
    let mut list = None;
    let action = login_connection_event(
        &account(),
        &mut list,
        LoginServerEvent::JoinServerSuccess {
            login_token: 11,
            packet_codec_seed: 22,
            ip: "127.0.0.1".to_string(),
            port: 29200,
        },
    );
    match action {
        LoginAction::ConnectWorld { ip, port, packet_codec_seed, login_token, password } => {
            assert_eq!(ip, "127.0.0.1");
            assert_eq!(port, 29200);
            assert_eq!(packet_codec_seed, 22);
            assert_eq!(login_token, 11);
            assert_eq!(password, "secret");
        }
        other => panic!("unexpected action {:?}", other),
    }
}

#[test]
fn login_errors_close_the_connection() {
    for event in [
        LoginServerEvent::ConnectionRequestError,
        LoginServerEvent::LoginError,
        LoginServerEvent::JoinServerError,
        LoginServerEvent::Disconnected,
    ] {
        let mut list = None;
        let action = login_connection_event(&account(), &mut list, event);
        assert!(matches!(action, LoginAction::CloseConnection));
    }
}

#[test]
fn empty_queue_stops_and_unexpected_continues() {
    let mut list = None;
    assert!(matches!(
        login_connection_event(&account(), &mut list, LoginServerEvent::QueueEmpty),
        LoginAction::Stop
    ));
    assert!(matches!(
        login_connection_event(&account(), &mut list, LoginServerEvent::Unexpected),
        LoginAction::Continue
    ));
}

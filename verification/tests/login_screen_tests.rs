use rose_offline_client::systems::login_system::{
    login_event, login_frame, login_port, LoginEvent, LoginEventAction, LoginState,
    DEFAULT_LOGIN_PORT, LOGIN_ZONE_ID,
};

#[test]
fn port_is_read_as_rust_reads_a_u16() {
    assert_eq!(login_port("29000"), 29000);
    assert_eq!(login_port("4000"), 4000);
    assert_eq!(login_port("+80"), 80);
    assert_eq!(login_port("65535"), 65535);
    assert_eq!(login_port("65536"), DEFAULT_LOGIN_PORT);
    assert_eq!(login_port("-0"), DEFAULT_LOGIN_PORT);
    assert_eq!(login_port(""), DEFAULT_LOGIN_PORT);
    assert_eq!(login_port("80a"), DEFAULT_LOGIN_PORT);
    assert_eq!(login_port(" 80"), DEFAULT_LOGIN_PORT);
    assert_eq!(DEFAULT_LOGIN_PORT, 29000);
    for text in ["0", "+", "123", "99999999999", "-5", "00080"] {
        assert_eq!(login_port(text), text.parse::<u16>().unwrap_or(29000));
    }
}

#[test]
fn losing_the_connection_returns_to_input() {
    let mut state = LoginState::ServerSelect;
    login_frame(&mut state, false, true);
    assert_eq!(state, LoginState::Input);
    let mut state = LoginState::WaitServerList;
    login_frame(&mut state, true, false);
    assert_eq!(state, LoginState::WaitServerList);
    login_frame(&mut state, true, true);
    assert_eq!(state, LoginState::ServerSelect);
    assert_eq!(LOGIN_ZONE_ID, 4);
}

#[test]
fn login_connects_with_the_account() {
    let mut state = LoginState::Input;
    let action = login_event(
        &mut state,
        LoginEvent::Login { username: "u".to_string(), password: "p".to_string() },
        false,
        &"127.0.0.1".to_string(),
        "29001",
    );
    match action {
        LoginEventAction::ConnectLogin { account, ip, port } => {
            assert_eq!(account.username, "u");
            assert_eq!(account.password, "p");
            assert_eq!(ip, "127.0.0.1");
            assert_eq!(port, 29001);
        }
        other => panic!("unexpected {:?}", other),
    }
    assert_eq!(state, LoginState::WaitServerList);
    let again = login_event(
        &mut state,
        LoginEvent::Login { username: "u".to_string(), password: "p".to_string() },
        false,
        &"127.0.0.1".to_string(),
        "29001",
    );
    assert!(matches!(again, LoginEventAction::Nothing));
}

#[test]
fn selecting_a_server_joins_it() {
    let mut state = LoginState::ServerSelect;
    match login_event(&mut state, LoginEvent::SelectServer { server_id: 1, channel_id: 2 }, true, &String::new(), "") {
        LoginEventAction::JoinServer { server_id, channel_id } => assert_eq!((server_id, channel_id), (1, 2)),
        other => panic!("unexpected {:?}", other),
    }
    assert_eq!(state, LoginState::JoiningServer);
    let mut state = LoginState::ServerSelect;
    let action = login_event(&mut state, LoginEvent::SelectServer { server_id: 1, channel_id: 2 }, false, &String::new(), "");
    assert!(matches!(action, LoginEventAction::Nothing));
    assert_eq!(state, LoginState::JoiningServer);
}

#[test]
fn decimal_ports_read_back() {
    for port in [0u16, 1, 9, 10, 80, 443, 29000, 65535] {
        assert_eq!(login_port(&port.to_string()), port);
    }
}

use vstd::prelude::*;

use crate::conversation::{
    parse_i32, spec_all_digits, spec_digits_value, spec_is_digit_char, spec_parse_i32,
    spec_signed_value, spec_unsigned_part,
};
use crate::systems::login_connection_system::Account;
use crate::text::{spec_decimal_chars, spec_digit_char, text_chars};

verus! {

/// Where the login screen is: typing the account, waiting for the server list, choosing
/// a server, joining it.
#[derive(Copy, Clone, Debug, PartialEq, Eq, Structural)]
pub enum LoginState {
    Input,
    WaitServerList,
    ServerSelect,
    JoiningServer,
}

/// The zone shown behind the login screen.
pub const LOGIN_ZONE_ID: u16 = 4;

/// The login server port used where the configured one is not a port number.
pub const DEFAULT_LOGIN_PORT: u16 = 29000;

/// A frame of the login screen: without a login server connection it goes back to
/// typing the account; once the server list is there it goes on to choosing a server.
pub fn login_frame(state: &mut LoginState, connected: bool, has_server_list: bool)
    ensures
        *final(state) == if *old(state) != LoginState::Input && !connected {
            LoginState::Input
        } else if *old(state) == LoginState::WaitServerList && has_server_list {
            LoginState::ServerSelect
        } else {
            *old(state)
        },
{
    if *state != LoginState::Input && !connected {
        *state = LoginState::Input;
    }
    if *state == LoginState::WaitServerList && has_server_list {
        *state = LoginState::ServerSelect;
    }
}

/// The `u16` that a text denotes, as `str::parse::<u16>` reads it: an optional `+`
/// followed by one or more decimal digits and nothing else, whose value fits.
pub open spec fn spec_parse_u16(text: Seq<char>) -> Option<int> {
    if text.len() > 0 && text[0] == '-' {
        None
    } else {
        match spec_parse_i32(text) {
            Some(v) => if 0 <= v <= u16::MAX {
                Some(v)
            } else {
                None
            },
            None => None,
        }
    }
}

/// The port of the login server: the configured one where it is a port number, else
/// `DEFAULT_LOGIN_PORT`.
pub fn login_port(port: &str) -> (r: u16)
    ensures
        r == match spec_parse_u16(port@) {
            Some(v) => v,
            None => DEFAULT_LOGIN_PORT as int,
        },
{
    let chars = text_chars(port);
    if chars.len() > 0 && chars[0] == '-' {
        return DEFAULT_LOGIN_PORT;
    }
    assert(chars@.subrange(0, chars@.len() as int) =~= chars@);
    match parse_i32(&chars, 0, chars.len()) {
        Some(v) => if 0 <= v && v <= 65535 {
            v as u16
        } else {
            DEFAULT_LOGIN_PORT
        },
        None => DEFAULT_LOGIN_PORT,
    }
}

/// What the player does on the login screen: log in with an account, or pick a channel
/// of a world server.
#[derive(Debug)]
pub enum LoginEvent {
    Login { username: String, password: String },
    SelectServer { server_id: usize, channel_id: usize },
}

/// What a login event asks for: nothing; connect to the login server with the account
/// (at the configured address and port); ask the login server to join a channel.
#[derive(Debug)]
pub enum LoginEventAction {
    Nothing,
    ConnectLogin { account: Account, ip: String, port: u16 },
    JoinServer { server_id: usize, channel_id: usize },
}

/// An event of the login screen: a login while typing waits for the server list and
/// connects with the account; picking a channel joins it (asked of the login server where
/// there is a connection).
pub fn login_event(
    state: &mut LoginState,
    event: LoginEvent,
    connected: bool,
    server_ip: &String,
    server_port: &str,
) -> (r: LoginEventAction)
    ensures
        match event {
            LoginEvent::Login { username, password } => if *old(state) == LoginState::Input {
                &&& *final(state) == LoginState::WaitServerList
                &&& r matches LoginEventAction::ConnectLogin { account, ip, port }
                &&& account.username@ == username@ && account.password@ == password@
                &&& ip@ == server_ip@
                &&& port == match spec_parse_u16(server_port@) {
                    Some(v) => v,
                    None => DEFAULT_LOGIN_PORT as int,
                }
            } else {
                *final(state) == *old(state) && r is Nothing
            },
            LoginEvent::SelectServer { server_id, channel_id } => *final(state) == LoginState::JoiningServer
                && if connected {
                r matches LoginEventAction::JoinServer { server_id: s, channel_id: c } && s == server_id && c
                    == channel_id
            } else {
                r is Nothing
            },
        },
{
    match event {
        LoginEvent::Login { username, password } => {
            if *state == LoginState::Input {
                *state = LoginState::WaitServerList;
                LoginEventAction::ConnectLogin {
                    account: Account { username, password },
                    ip: server_ip.clone(),
                    port: login_port(server_port),
                }
            } else {
                LoginEventAction::Nothing
            }
        },
        LoginEvent::SelectServer { server_id, channel_id } => {
            *state = LoginState::JoiningServer;
            if connected {
                LoginEventAction::JoinServer { server_id, channel_id }
            } else {
                LoginEventAction::Nothing
            }
        },
    }
}

proof fn lemma_digit_char_code(d: int)
    requires
        0 <= d < 10,
    ensures
        (spec_digit_char(d) as u32) - 48 == d,
        spec_is_digit_char(spec_digit_char(d)),
{
    if d == 0 {
    } else if d == 1 {
    } else if d == 2 {
    } else if d == 3 {
    } else if d == 4 {
    } else if d == 5 {
    } else if d == 6 {
    } else if d == 7 {
    } else if d == 8 {
    } else {
    }
}

proof fn lemma_decimal_digits(n: nat)
    ensures
        spec_decimal_chars(n).len() > 0,
        forall|i: int| 0 <= i < spec_decimal_chars(n).len() ==> spec_is_digit_char(#[trigger] spec_decimal_chars(n)[i]),
        spec_digits_value(spec_decimal_chars(n)) == n,
    decreases n,
{
    let s = spec_decimal_chars(n);
    lemma_digit_char_code((n % 10) as int);
    if n < 10 {
        assert(s.drop_last() =~= Seq::<char>::empty());
        assert(s.last() == spec_digit_char(n as int));
        assert(n % 10 == n);
        assert(spec_digits_value(s) == spec_digits_value(s.drop_last()) * 10 + ((s.last() as u32) - 48));
    } else {
        lemma_decimal_digits(n / 10);
        let front = spec_decimal_chars(n / 10);
        assert(s.drop_last() =~= front);
        assert(s.last() == spec_digit_char((n % 10) as int));
        assert(spec_digits_value(s) == spec_digits_value(s.drop_last()) * 10 + ((s.last() as u32) - 48));
        assert((n / 10) * 10 + n % 10 == n);
        assert forall|i: int| 0 <= i < s.len() implies spec_is_digit_char(#[trigger] s[i]) by {
            if i < front.len() {
                assert(s[i] == front[i]);
            }
        }
    }
}

/// A port written in decimal reads back as that port: the login server's port may be
/// configured as the decimal writing of any `u16`.
pub proof fn law_decimal_port_reads_back(port: u16)
    ensures
        spec_parse_u16(spec_decimal_chars(port as nat)) == Some(port as int),
{
    let s = spec_decimal_chars(port as nat);
    lemma_decimal_digits(port as nat);
    assert(spec_is_digit_char(s[0]));
    assert(spec_unsigned_part(s) == s);
    assert(spec_all_digits(s));
    assert(spec_signed_value(s) == port as int);
}

} // verus!

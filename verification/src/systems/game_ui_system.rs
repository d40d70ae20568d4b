use vstd::prelude::*;

use crate::text::{chars_text, push_signed_decimal, push_text, spec_signed_decimal_chars};

verus! {

/// A line for the chat box: something said, shouted or whispered by someone, an
/// announcement (by someone or not), or a message of the system.
#[derive(Debug)]
pub enum ChatboxEvent {
    Say(String, String),
    Shout(String, String),
    Whisper(String, String),
    Announce(Option<String>, String),
    System(String),
}

/// The colour a line of the chat box shows in.
#[derive(Copy, Clone, Debug, PartialEq, Eq, Structural)]
pub enum ChatColor {
    LightGray,
    LightBlue,
    LightGreen,
    LightRed,
    Pink,
}

/// The chat box: the text being typed and the lines shown, oldest first.
#[derive(Debug)]
pub struct GameUiState {
    pub textbox_text: String,
    pub textbox_history: Vec<(ChatColor, String)>,
}

/// A line of someone: their name, `> ` and the text.
pub open spec fn spec_said(name: Seq<char>, text: Seq<char>) -> Seq<char> {
    name + seq!['>', ' '] + text
}

/// The colour and text of the chat box line for an event.
pub open spec fn spec_chatbox_line(event: ChatboxEvent) -> (ChatColor, Seq<char>) {
    match event {
        ChatboxEvent::Say(name, text) => (ChatColor::LightGray, spec_said(name@, text@)),
        ChatboxEvent::Shout(name, text) => (ChatColor::LightBlue, spec_said(name@, text@)),
        ChatboxEvent::Whisper(name, text) => (ChatColor::LightGreen, spec_said(name@, text@)),
        ChatboxEvent::Announce(Some(name), text) => (ChatColor::LightRed, spec_said(name@, text@)),
        ChatboxEvent::Announce(None, text) => (ChatColor::LightRed, text@),
        ChatboxEvent::System(text) => (ChatColor::Pink, text@),
    }
}

/// A line of the chat box as plain values.
pub open spec fn spec_line(line: (ChatColor, String)) -> (ChatColor, Seq<char>) {
    (line.0, line.1@)
}

impl View for GameUiState {
    type V = (Seq<char>, Seq<(ChatColor, Seq<char>)>);

    open spec fn view(&self) -> (Seq<char>, Seq<(ChatColor, Seq<char>)>) {
        (self.textbox_text@, self.textbox_history@.map_values(|l: (ChatColor, String)| spec_line(l)))
    }
}

impl Default for GameUiState {
    fn default() -> (r: Self)
        ensures
            r@.0.len() == 0,
            r@.1.len() == 0,
    {
        GameUiState { textbox_text: String::new(), textbox_history: Vec::new() }
    }
}

fn said(name: &String, text: &String) -> (r: String)
    ensures
        r@ == spec_said(name@, text@),
{
    let mut chars: Vec<char> = Vec::new();
    push_text(&mut chars, name.as_str());
    chars.push('>');
    chars.push(' ');
    push_text(&mut chars, text.as_str());
    assert(chars@ =~= spec_said(name@, text@));
    chars_text(&chars)
}

/// The colour and text of the chat box line for an event.
pub fn chatbox_line(event: &ChatboxEvent) -> (r: (ChatColor, String))
    ensures
        spec_line(r) == spec_chatbox_line(*event),
{
    match event {
        ChatboxEvent::Say(name, text) => (ChatColor::LightGray, said(name, text)),
        ChatboxEvent::Shout(name, text) => (ChatColor::LightBlue, said(name, text)),
        ChatboxEvent::Whisper(name, text) => (ChatColor::LightGreen, said(name, text)),
        ChatboxEvent::Announce(Some(name), text) => (ChatColor::LightRed, said(name, text)),
        ChatboxEvent::Announce(None, text) => (ChatColor::LightRed, text.clone()),
        ChatboxEvent::System(text) => (ChatColor::Pink, text.clone()),
    }
}

impl GameUiState {
    /// Adds the line of an event to the chat box, after the others.
    pub fn push_chatbox_event(&mut self, event: &ChatboxEvent)
        ensures
            final(self)@.0 == old(self)@.0,
            final(self)@.1 == old(self)@.1.push(spec_chatbox_line(*event)),
    {
        let line = chatbox_line(event);
        self.textbox_history.push(line);
        assert(self@.1 =~= old(self)@.1.push(spec_chatbox_line(*event)));
    }

    /// Enter in the chat box: with a connection to the game server, the typed text is
    /// handed out to be sent and the box is emptied; without one nothing happens.
    pub fn take_chat_message(&mut self, connected: bool) -> (r: Option<String>)
        ensures
            connected ==> (r matches Some(text) && text@ == old(self)@.0 && final(self)@.0.len() == 0),
            !connected ==> r is None && final(self)@.0 == old(self)@.0,
            final(self)@.1 == old(self)@.1,
    {
        if connected {
            let mut text = String::new();
            std::mem::swap(&mut text, &mut self.textbox_text);
            Some(text)
        } else {
            None
        }
    }
}

/// The name shown for the player's target: its NPC data's name, else its character's
/// name, else `???`.
pub fn target_name(npc_name: Option<String>, character_name: Option<String>) -> (r: String)
    ensures
        r@ == match npc_name {
            Some(n) => n@,
            None => match character_name {
                Some(n) => n@,
                None => seq!['?', '?', '?'],
            },
        },
{
    match npc_name {
        Some(n) => n,
        None => match character_name {
            Some(n) => n,
            None => {
                let chars: Vec<char> = vec!['?', '?', '?'];
                assert(chars@ =~= seq!['?', '?', '?']);
                chars_text(&chars)
            },
        },
    }
}

/// The text of a bar: the value, ` / ` and the maximum.
pub fn points_text(value: i64, max: i64) -> (r: String)
    ensures
        r@ == spec_signed_decimal_chars(value as int) + seq![' ', '/', ' '] + spec_signed_decimal_chars(
            max as int,
        ),
{
    let mut chars: Vec<char> = Vec::new();
    push_signed_decimal(&mut chars, value);
    chars.push(' ');
    chars.push('/');
    chars.push(' ');
    push_signed_decimal(&mut chars, max);
    assert(chars@ =~= spec_signed_decimal_chars(value as int) + seq![' ', '/', ' '] + spec_signed_decimal_chars(
        max as int,
    ));
    chars_text(&chars)
}

/// The label of a level: `Level ` and the level.
pub fn level_text(level: i64) -> (r: String)
    ensures
        r@ == seq!['L', 'e', 'v', 'e', 'l', ' '] + spec_signed_decimal_chars(level as int),
{
    let mut chars: Vec<char> = vec!['L', 'e', 'v', 'e', 'l', ' '];
    push_signed_decimal(&mut chars, level);
    assert(chars@ =~= seq!['L', 'e', 'v', 'e', 'l', ' '] + spec_signed_decimal_chars(level as int));
    chars_text(&chars)
}

/// The label of a target's level: `Level: ` and the level.
pub fn target_level_text(level: i64) -> (r: String)
    ensures
        r@ == seq!['L', 'e', 'v', 'e', 'l', ':', ' '] + spec_signed_decimal_chars(level as int),
{
    let mut chars: Vec<char> = vec!['L', 'e', 'v', 'e', 'l', ':', ' '];
    push_signed_decimal(&mut chars, level);
    assert(chars@ =~= seq!['L', 'e', 'v', 'e', 'l', ':', ' '] + spec_signed_decimal_chars(level as int));
    chars_text(&chars)
}

} // verus!

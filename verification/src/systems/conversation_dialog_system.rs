use vstd::prelude::*;

verus! {

/// The kinds of message of a conversation menu: three kinds of response the player may
/// pick, and two that show a message and go on to another menu.
#[derive(Copy, Clone, Debug, PartialEq, Eq, Structural)]
pub enum ConMessageType {
    Close,
    PlayerSelect,
    JumpSelect,
    NextMessage,
    ShowMessage,
}

/// A message of a conversation menu: its kind, the id of its text, its value (the menu it
/// leads to), the script function that decides whether it shows (none where empty) and
/// the script function run when it is picked.
#[derive(Debug)]
pub struct ConMessage {
    pub message_type: ConMessageType,
    pub string_id: u32,
    pub message_value: i32,
    pub condition_function: String,
    pub action_function: String,
}

/// A menu of a conversation: its messages, in order.
#[derive(Debug)]
pub struct ConMenu {
    pub messages: Vec<ConMessage>,
}

/// A response the dialog offers: the id of its text, the script function run when it is
/// picked, and the menu it leads to.
#[derive(Debug)]
pub struct DialogResponse {
    pub string_id: u32,
    pub action_function: String,
    pub menu_index: i32,
}

/// The dialog shown: the id of its message's text (none yet at first) and its responses.
#[derive(Debug)]
pub struct GeneratedDialog {
    pub message: Option<u32>,
    pub responses: Vec<DialogResponse>,
}

/// A menu being walked: which one, the position of its next message, and whether any of
/// its messages was used so far.
#[derive(Copy, Clone, Debug, PartialEq, Eq, Structural)]
pub struct MenuFrame {
    pub menu: usize,
    pub position: usize,
    pub any_added: bool,
}

/// A walk through the menus of a conversation: the menus entered and not yet left
/// (innermost last); whether the condition of the next message has passed; whether the
/// menu left last used any message.
#[derive(Debug)]
pub struct MenuWalk {
    pub frames: Vec<MenuFrame>,
    pub condition_passed: bool,
    pub result: bool,
}

/// What a walk asks for next: another step; the result of a message's condition function
/// (see `MenuWalk::condition_answered`); nothing more, with whether the first menu used
/// any message.
#[derive(Debug)]
pub enum MenuStep {
    Continue,
    CheckCondition { function: String },
    Finished { any_added: bool },
}

/// A message as plain values: kind, text id, value, condition and action function.
pub open spec fn spec_message(m: ConMessage) -> (ConMessageType, u32, i32, Seq<char>, Seq<char>) {
    (m.message_type, m.string_id, m.message_value, m.condition_function@, m.action_function@)
}

/// The menus of a conversation as plain values.
pub open spec fn spec_menus(menus: Seq<ConMenu>) -> Seq<Seq<(ConMessageType, u32, i32, Seq<char>, Seq<char>)>> {
    menus.map_values(|menu: ConMenu| menu.messages@.map_values(|m: ConMessage| spec_message(m)))
}

/// A response as plain values: text id, action function and menu.
pub open spec fn spec_response(r: DialogResponse) -> (u32, Seq<char>, i32) {
    (r.string_id, r.action_function@, r.menu_index)
}

impl View for GeneratedDialog {
    type V = (Option<u32>, Seq<(u32, Seq<char>, i32)>);

    open spec fn view(&self) -> (Option<u32>, Seq<(u32, Seq<char>, i32)>) {
        (self.message, self.responses@.map_values(|r: DialogResponse| spec_response(r)))
    }
}

impl Default for GeneratedDialog {
    fn default() -> (r: Self)
        ensures
            r@.0 is None,
            r@.1.len() == 0,
    {
        GeneratedDialog { message: None, responses: Vec::new() }
    }
}

/// Whether a message leads on to another menu.
pub open spec fn spec_leads_on(t: ConMessageType) -> bool {
    t == ConMessageType::NextMessage || t == ConMessageType::ShowMessage
}

/// Every menu entered exists.
pub open spec fn spec_walk_wf(frames: Seq<MenuFrame>, menu_count: nat) -> bool {
    forall|i: int| 0 <= i < frames.len() ==> (#[trigger] frames[i]).menu < menu_count
}

/// The message a step of the walk looks at, where the innermost menu has one left.
pub open spec fn spec_current_message(
    frames: Seq<MenuFrame>,
    menus: Seq<Seq<(ConMessageType, u32, i32, Seq<char>, Seq<char>)>>,
) -> Option<(ConMessageType, u32, i32, Seq<char>, Seq<char>)> {
    if frames.len() == 0 {
        None
    } else {
        let top = frames.last();
        if top.position < menus[top.menu as int].len() {
            Some(menus[top.menu as int][top.position as int])
        } else {
            None
        }
    }
}

/// The innermost menu moved past its message, which was used.
pub open spec fn spec_advanced(frames: Seq<MenuFrame>) -> Seq<MenuFrame> {
    let top = frames.last();
    frames.update(frames.len() - 1, MenuFrame { menu: top.menu, position: (top.position + 1) as usize, any_added: true })
}

impl MenuWalk {
    /// A walk that starts at a menu; one that starts at a negative index uses nothing.
    pub fn start(menu_index: i32, menu_count: usize) -> (r: MenuWalk)
        requires
            menu_index < menu_count,
        ensures
            menu_index < 0 ==> r.frames@.len() == 0 && !r.result,
            menu_index >= 0 ==> r.frames@ == seq![MenuFrame { menu: menu_index as usize, position: 0, any_added: false }],
            !r.condition_passed,
            spec_walk_wf(r.frames@, menu_count as nat),
    {
        let mut frames: Vec<MenuFrame> = Vec::new();
        if menu_index >= 0 {
            frames.push(MenuFrame { menu: menu_index as usize, position: 0, any_added: false });
        }
        MenuWalk { frames, condition_passed: false, result: false }
    }

    /// The answer of the condition function that the last step asked for: a message
    /// whose condition passed is used by the next step; one whose condition failed is
    /// skipped.
    pub fn condition_answered(&mut self, passed: bool)
        requires
            old(self).frames@.len() > 0,
            old(self).frames@.last().position < usize::MAX,
        ensures
            passed ==> final(self).frames@ == old(self).frames@ && final(self).condition_passed,
            !passed ==> final(self).frames@ == old(self).frames@.update(
                old(self).frames@.len() - 1,
                MenuFrame {
                    menu: old(self).frames@.last().menu,
                    position: (old(self).frames@.last().position + 1) as usize,
                    any_added: old(self).frames@.last().any_added,
                },
            ) && !final(self).condition_passed,
            final(self).result == old(self).result,
    {
        if passed {
            self.condition_passed = true;
        } else {
            let last = self.frames.len() - 1;
            let top = self.frames[last];
            self.frames.set(last, MenuFrame { menu: top.menu, position: top.position + 1, any_added: top.any_added });
            self.condition_passed = false;
        }
    }

    /// One step of the walk: leaves a menu with no message left; asks for a message's
    /// condition where it has one that has not passed yet; else uses the message: a
    /// response is added to the dialog, a message to show replaces the dialog's message,
    /// clears its responses and enters the menu it leads to (none where negative).
    pub fn step(&mut self, dialog: &mut GeneratedDialog, menus: &Vec<ConMenu>) -> (r: MenuStep)
        requires
            spec_walk_wf(old(self).frames@, menus@.len()),
            match spec_current_message(old(self).frames@, spec_menus(menus@)) {
                Some(m) => spec_leads_on(m.0) && (m.3.len() == 0 || old(self).condition_passed) && m.2 >= 0
                    ==> m.2 < menus@.len(),
                None => true,
            },
        ensures
            spec_walk_wf(final(self).frames@, menus@.len()),
            old(self).frames@.len() == 0 ==> (r matches MenuStep::Finished { any_added } && any_added
                == old(self).result) && final(self).frames@ == old(self).frames@ && final(dialog)@
                == old(dialog)@,
            old(self).frames@.len() > 0 && spec_current_message(old(self).frames@, spec_menus(menus@)) is None
                ==> r is Continue && final(self).frames@ == old(self).frames@.drop_last()
                && final(self).result == old(self).frames@.last().any_added && final(dialog)@ == old(dialog)@,
            spec_current_message(old(self).frames@, spec_menus(menus@)) matches Some(m) ==> {
                if m.3.len() > 0 && !old(self).condition_passed {
                    &&& r matches MenuStep::CheckCondition { function } && function@ == m.3
                    &&& final(self).frames@ == old(self).frames@
                    &&& final(dialog)@ == old(dialog)@
                    &&& final(self).result == old(self).result
                } else if spec_leads_on(m.0) {
                    &&& r is Continue
                    &&& final(dialog)@ == (Some(m.1), Seq::<(u32, Seq<char>, i32)>::empty())
                    &&& final(self).frames@ == if m.2 >= 0 {
                        spec_advanced(old(self).frames@).push(
                            MenuFrame { menu: m.2 as usize, position: 0, any_added: false },
                        )
                    } else {
                        spec_advanced(old(self).frames@)
                    }
                    &&& !final(self).condition_passed
                    &&& final(self).result == old(self).result
                } else {
                    &&& r is Continue
                    &&& final(dialog)@ == (old(dialog)@.0, old(dialog)@.1.push((m.1, m.4, m.2)))
                    &&& final(self).frames@ == spec_advanced(old(self).frames@)
                    &&& !final(self).condition_passed
                    &&& final(self).result == old(self).result
                }
            },
    {
        if self.frames.len() == 0 {
            return MenuStep::Finished { any_added: self.result };
        }
        let last = self.frames.len() - 1;
        let top = self.frames[last];
        proof {
            assert(self.frames@[last as int] == self.frames@.last());
            assert(top.menu < menus@.len());
        }
        let menu = &menus[top.menu];
        if top.position >= menu.messages.len() {
            self.frames.pop();
            self.result = top.any_added;
            proof {
                assert(self.frames@ =~= old(self).frames@.drop_last());
                assert(spec_walk_wf(self.frames@, menus@.len())) by {
                    assert forall|i: int| 0 <= i < self.frames@.len() implies (#[trigger] self.frames@[i]).menu
                        < menus@.len() by {
                        assert(self.frames@[i] == old(self).frames@[i]);
                    }
                }
            }
            return MenuStep::Continue;
        }
        let message = &menu.messages[top.position];
        proof {
            assert(spec_menus(menus@)[top.menu as int] == menus@[top.menu as int].messages@.map_values(
                |m: ConMessage| spec_message(m),
            ));
            assert(spec_current_message(old(self).frames@, spec_menus(menus@)) == Some(
                spec_message(*message),
            ));
        }
        if !message.condition_function.as_str().is_empty() && !self.condition_passed {
            return MenuStep::CheckCondition { function: message.condition_function.clone() };
        }
        let advanced = MenuFrame { menu: top.menu, position: top.position + 1, any_added: true };
        self.frames.set(last, advanced);
        self.condition_passed = false;
        proof {
            assert(self.frames@ =~= spec_advanced(old(self).frames@));
            assert(spec_walk_wf(self.frames@, menus@.len())) by {
                assert forall|i: int| 0 <= i < self.frames@.len() implies (#[trigger] self.frames@[i]).menu
                    < menus@.len() by {
                    if i != last {
                        assert(self.frames@[i] == old(self).frames@[i]);
                    }
                }
            }
        }
        match message.message_type {
            ConMessageType::NextMessage | ConMessageType::ShowMessage => {
                dialog.message = Some(message.string_id);
                dialog.responses.clear();
                assert(dialog@.1 =~= Seq::<(u32, Seq<char>, i32)>::empty());
                if message.message_value >= 0 {
                    let ghost before = self.frames@;
                    self.frames.push(
                        MenuFrame { menu: message.message_value as usize, position: 0, any_added: false },
                    );
                    proof {
                        assert(spec_walk_wf(self.frames@, menus@.len())) by {
                            assert forall|i: int| 0 <= i < self.frames@.len() implies (#[trigger] self.frames@[i]).menu
                                < menus@.len() by {
                                if i < before.len() {
                                    assert(self.frames@[i] == before[i]);
                                }
                            }
                        }
                    }
                }
            },
            _ => {
                let ghost before = dialog@;
                dialog.responses.push(
                    DialogResponse {
                        string_id: message.string_id,
                        action_function: message.action_function.clone(),
                        menu_index: message.message_value,
                    },
                );
                assert(dialog@.1 =~= before.1.push(
                    (message.string_id, message.action_function@, message.message_value),
                ));
            },
        }
        MenuStep::Continue
    }
}

/// Whether a conversation opens after its check function answered: only where the
/// function gave a first result of at least 1 (none counts as 0).
pub fn check_open_passes(first_result: Option<i32>) -> (r: bool)
    ensures
        r == match first_result {
            Some(v) => v >= 1,
            None => false,
        },
{
    match first_result {
        Some(v) => v >= 1,
        None => false,
    }
}

/// Whether a menu message shows after its condition function answered: where the
/// function gave a first result other than 0 (none counts as 0).
pub fn menu_condition_passes(first_result: Option<i32>) -> (r: bool)
    ensures
        r == match first_result {
            Some(v) => v != 0,
            None => false,
        },
{
    match first_result {
        Some(v) => v != 0,
        None => false,
    }
}

} // verus!

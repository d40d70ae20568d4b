use rose_offline_client::systems::conversation_dialog_system::{
    check_open_passes, menu_condition_passes, ConMenu, ConMessage, ConMessageType,
    GeneratedDialog, MenuStep, MenuWalk,
};

fn message(
    message_type: ConMessageType,
    string_id: u32,
    message_value: i32,
    condition: &str,
    action: &str,
) -> ConMessage {
    ConMessage {
        message_type,
        string_id,
        message_value,
        condition_function: condition.to_string(),
        action_function: action.to_string(),
    }
}

fn menus() -> Vec<ConMenu> {
    vec![
        ConMenu {
            messages: vec![message(ConMessageType::ShowMessage, 100, 1, "", "")],
        },
        ConMenu {
            messages: vec![
                message(ConMessageType::PlayerSelect, 101, 2, "", "onTrade"),
                message(ConMessageType::JumpSelect, 102, 3, "hasQuest", ""),
                message(ConMessageType::Close, 103, -1, "", ""),
            ],
        },
        ConMenu { messages: vec![] },
        ConMenu { messages: vec![] },
    ]
}

/// Runs a walk to its end, answering each condition with `answer`.
fn run(menus: &Vec<ConMenu>, start: i32, answer: bool, asked: &mut Vec<String>) -> (GeneratedDialog, bool) {
    let mut dialog = GeneratedDialog::default();
    let mut walk = MenuWalk::start(start, menus.len());
    loop {
        match walk.step(&mut dialog, menus) {
            MenuStep::Continue => {}
            MenuStep::CheckCondition { function } => {
                asked.push(function);
                walk.condition_answered(answer);
            }
            MenuStep::Finished { any_added } => return (dialog, any_added),
        }
    }
}

#[test]
fn show_message_enters_the_next_menu() {
    let m = menus();
    let mut asked = Vec::new();
    let (dialog, any_added) = run(&m, 0, true, &mut asked);
    assert!(any_added);
    assert_eq!(dialog.message, Some(100));
    assert_eq!(asked, vec!["hasQuest".to_string()]);
    let ids: Vec<u32> = dialog.responses.iter().map(|r| r.string_id).collect();
    assert_eq!(ids, vec![101, 102, 103]);
    assert_eq!(dialog.responses[0].action_function, "onTrade");
    assert_eq!(dialog.responses[0].menu_index, 2);
}

#[test]
fn failed_conditions_skip_their_message() {
    let m = menus();
    let mut asked = Vec::new();
    let (dialog, _) = run(&m, 1, false, &mut asked);
    let ids: Vec<u32> = dialog.responses.iter().map(|r| r.string_id).collect();
    assert_eq!(ids, vec![101, 103]);
    assert_eq!(dialog.message, None);
}

#[test]
fn empty_menu_and_negative_index_add_nothing() {
    let m = menus();
    let mut asked = Vec::new();
    let (dialog, any_added) = run(&m, 2, true, &mut asked);
    assert!(!any_added);
    assert!(dialog.responses.is_empty());
    let (_, any_added) = run(&m, -1, true, &mut asked);
    assert!(!any_added);
    assert!(asked.is_empty());
}

#[test]
fn open_check_needs_at_least_one_but_menu_checks_need_non_zero() {
    assert!(check_open_passes(Some(1)));
    assert!(!check_open_passes(Some(0)));
    assert!(!check_open_passes(Some(-1)));
    assert!(!check_open_passes(None));
    assert!(menu_condition_passes(Some(-1)));
    assert!(menu_condition_passes(Some(2)));
    assert!(!menu_condition_passes(Some(0)));
    assert!(!menu_condition_passes(None));
}

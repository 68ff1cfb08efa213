use supersonic::ui::{
    action_for_label, button_interaction_system, button_response, fps_update, same_text,
    BorderColor, ButtonAction, ButtonColor, ButtonEvent, ButtonResponse, Interaction, UiCommand,
};

fn apply(menus: usize, command: UiCommand) -> usize {
    match command {
        UiCommand::OpenDialog => menus + 1,
        UiCommand::CloseDialog => menus.saturating_sub(1),
        _ => menus,
    }
}

fn press(label: &str, menus: usize) -> usize {
    apply(menus, button_response(Interaction::Pressed, label, menus).command)
}

#[test]
fn info_opens_exactly_one_dialog() {
    assert_eq!(button_response(Interaction::Pressed, "Info", 0).command, UiCommand::OpenDialog);
    let menus = press("Info", 0);
    assert_eq!(menus, 1);
    assert_eq!(button_response(Interaction::Pressed, "Info", 1).command, UiCommand::Nothing);
    assert_eq!(press("Info", menus), 1);
}

#[test]
fn close_button_removes_dialog() {
    assert_eq!(button_response(Interaction::Pressed, "x", 1).command, UiCommand::CloseDialog);
    let menus = press("Info", 0);
    assert_eq!(press("x", menus), 0);
}

#[test]
fn close_button_without_dialog_does_nothing() {
    assert_eq!(button_response(Interaction::Pressed, "x", 0).command, UiCommand::Nothing);
}

#[test]
fn dialog_count_never_exceeds_one() {
    let mut menus = 0;
    for label in ["Info", "Info", "x", "x", "Info", "Quit", "Info", "x", "Info"] {
        menus = press(label, menus);
        assert!(menus <= 1);
    }
    assert_eq!(menus, 1);
}

#[test]
fn quit_requests_exit() {
    let r = button_response(Interaction::Pressed, "Quit", 0);
    assert_eq!(
        r,
        ButtonResponse {
            background: ButtonColor::Pressed,
            border: BorderColor::White,
            command: UiCommand::Exit,
        }
    );
}

#[test]
fn unknown_label_is_reported() {
    assert_eq!(
        button_response(Interaction::Pressed, "Help", 0).command,
        UiCommand::ReportUnknownLabel
    );
    assert_eq!(button_response(Interaction::Pressed, "", 0).command, UiCommand::ReportUnknownLabel);
    assert_eq!(button_response(Interaction::Pressed, "X", 1).command, UiCommand::ReportUnknownLabel);
}

#[test]
fn hover_highlights_button() {
    let r = button_response(Interaction::Hovered, "Info", 0);
    assert_eq!(
        r,
        ButtonResponse {
            background: ButtonColor::Hovered,
            border: BorderColor::White,
            command: UiCommand::Nothing,
        }
    );
}

#[test]
fn idle_button_reverts_to_normal() {
    let r = button_response(Interaction::Idle, "Quit", 0);
    assert_eq!(
        r,
        ButtonResponse {
            background: ButtonColor::Normal,
            border: BorderColor::Normal,
            command: UiCommand::Nothing,
        }
    );
}

#[test]
fn buttons_in_one_frame_see_same_dialog_count() {
    let buttons = vec![
        ButtonEvent { interaction: Interaction::Pressed, label: String::from("Info") },
        ButtonEvent { interaction: Interaction::Hovered, label: String::from("x") },
        ButtonEvent { interaction: Interaction::Pressed, label: String::from("x") },
    ];
    let r = button_interaction_system(&buttons, 0);
    assert_eq!(r.len(), 3);
    assert_eq!(r[0].command, UiCommand::OpenDialog);
    assert_eq!(r[1].command, UiCommand::Nothing);
    assert_eq!(r[1].background, ButtonColor::Hovered);
    assert_eq!(r[2].command, UiCommand::Nothing);
}

#[test]
fn labels_lead_back_to_actions() {
    for action in [ButtonAction::Quit, ButtonAction::Info, ButtonAction::CloseDialog] {
        assert_eq!(action_for_label(action.label()), Some(action));
    }
    assert_eq!(ButtonAction::CloseDialog.label(), "x");
    assert_eq!(action_for_label("Info "), None);
}

#[test]
fn same_text_compares_characters() {
    assert!(same_text("Quit", "Quit"));
    assert!(!same_text("Quit", "Quiz"));
    assert!(!same_text("Quit", "Qui"));
    assert!(same_text("", ""));
    assert!(same_text("0\u{af}", "0\u{af}"));
}

#[test]
fn fps_text_overwritten_when_sample_available() {
    let mut values = vec![String::new(), String::from("59.94")];
    fps_update(&mut values, &Some(format!("{:.2}", 60.0f64)));
    assert_eq!(values, vec![String::from("60.00"), String::from("60.00")]);
}

#[test]
fn fps_text_unchanged_without_sample() {
    let mut values = vec![String::from("59.94")];
    fps_update(&mut values, &None);
    assert_eq!(values, vec![String::from("59.94")]);
}

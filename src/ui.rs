use vstd::prelude::*;

verus! {

/// How the pointer currently relates to a button.
#[derive(Clone, Copy, Debug, PartialEq, Eq, Structural)]
pub enum Interaction {
    Pressed,
    Hovered,
    Idle,
}

/// What a button does when pressed.
#[derive(Clone, Copy, Debug, PartialEq, Eq, Structural)]
pub enum ButtonAction {
    Quit,
    Info,
    CloseDialog,
}

/// Background colour of a button.
#[derive(Clone, Copy, Debug, PartialEq, Eq, Structural)]
pub enum ButtonColor {
    Normal,
    Hovered,
    Pressed,
}

/// Border colour of a button.
#[derive(Clone, Copy, Debug, PartialEq, Eq, Structural)]
pub enum BorderColor {
    Normal,
    White,
}

/// What the engine is asked to do after a button interaction.
#[derive(Clone, Copy, Debug, PartialEq, Eq, Structural)]
pub enum UiCommand {
    Nothing,
    Exit,
    OpenDialog,
    CloseDialog,
    ReportUnknownLabel,
}

/// The colours a button takes and the command it issues.
#[derive(Clone, Copy, Debug, PartialEq, Eq, Structural)]
pub struct ButtonResponse {
    pub background: ButtonColor,
    pub border: BorderColor,
    pub command: UiCommand,
}

/// One button whose interaction changed this frame, with the text of its label.
#[derive(Debug)]
pub struct ButtonEvent {
    pub interaction: Interaction,
    pub label: String,
}

/// The text shown on a button.
pub open spec fn label_of(action: ButtonAction) -> Seq<char> {
    match action {
        ButtonAction::Quit => "Quit"@,
        ButtonAction::Info => "Info"@,
        ButtonAction::CloseDialog => "x"@,
    }
}

/// The action of the button that shows `label`, if any button shows it.
pub open spec fn action_for(label: Seq<char>) -> Option<ButtonAction> {
    if label == "Quit"@ {
        Some(ButtonAction::Quit)
    } else if label == "Info"@ {
        Some(ButtonAction::Info)
    } else if label == "x"@ {
        Some(ButtonAction::CloseDialog)
    } else {
        None
    }
}

/// The command that pressing a button issues, given how many dialog menus
/// exist: "Info" opens a menu unless exactly one is open, "x" closes the menu
/// when exactly one is open, and an unknown label is reported.
pub open spec fn command_for(action: Option<ButtonAction>, dialog_menus: nat) -> UiCommand {
    match action {
        Some(ButtonAction::Quit) => UiCommand::Exit,
        Some(ButtonAction::Info) => if dialog_menus == 1 {
            UiCommand::Nothing
        } else {
            UiCommand::OpenDialog
        },
        Some(ButtonAction::CloseDialog) => if dialog_menus == 1 {
            UiCommand::CloseDialog
        } else {
            UiCommand::Nothing
        },
        None => UiCommand::ReportUnknownLabel,
    }
}

/// How a button responds to an interaction.
pub open spec fn response_for(
    interaction: Interaction,
    action: Option<ButtonAction>,
    dialog_menus: nat,
) -> ButtonResponse {
    match interaction {
        Interaction::Pressed => ButtonResponse {
            background: ButtonColor::Pressed,
            border: BorderColor::White,
            command: command_for(action, dialog_menus),
        },
        Interaction::Hovered => ButtonResponse {
            background: ButtonColor::Hovered,
            border: BorderColor::White,
            command: UiCommand::Nothing,
        },
        Interaction::Idle => ButtonResponse {
            background: ButtonColor::Normal,
            border: BorderColor::Normal,
            command: UiCommand::Nothing,
        },
    }
}

/// Whether two strings hold the same characters.
pub fn same_text(a: &str, b: &str) -> (r: bool)
    ensures
        r == (a@ == b@),
{
    let n = a.unicode_len();
    if n != b.unicode_len() {
        return false;
    }
    let mut i: usize = 0;
    while i < n
        invariant
            n == a@.len(),
            n == b@.len(),
            0 <= i <= n,
            forall|j: int| 0 <= j < i ==> a@[j] == b@[j],
        decreases n - i,
    {
        if a.get_char(i) != b.get_char(i) {
            return false;
        }
        i = i + 1;
    }
    assert(a@ =~= b@);
    true
}

impl ButtonAction {
    /// The text shown on the button.
    pub fn label(&self) -> (r: &'static str)
        ensures
            r@ == label_of(*self),
    {
        match self {
            ButtonAction::Quit => "Quit",
            ButtonAction::Info => "Info",
            ButtonAction::CloseDialog => "x",
        }
    }
}

/// Finds the action of the button that shows `label`.
pub fn action_for_label(label: &str) -> (r: Option<ButtonAction>)
    ensures
        r == action_for(label@),
{
    if same_text(label, "Quit") {
        Some(ButtonAction::Quit)
    } else if same_text(label, "Info") {
        Some(ButtonAction::Info)
    } else if same_text(label, "x") {
        Some(ButtonAction::CloseDialog)
    } else {
        None
    }
}

/// How the button that shows `label` responds to `interaction` while
/// `dialog_menus` dialog menus exist.
pub fn button_response(interaction: Interaction, label: &str, dialog_menus: usize) -> (r:
    ButtonResponse)
    ensures
        r == response_for(interaction, action_for(label@), dialog_menus as nat),
{
    match interaction {
        Interaction::Pressed => {
            let command = match action_for_label(label) {
                Some(ButtonAction::Quit) => UiCommand::Exit,
                Some(ButtonAction::Info) => if dialog_menus == 1 {
                    UiCommand::Nothing
                } else {
                    UiCommand::OpenDialog
                },
                Some(ButtonAction::CloseDialog) => if dialog_menus == 1 {
                    UiCommand::CloseDialog
                } else {
                    UiCommand::Nothing
                },
                None => UiCommand::ReportUnknownLabel,
            };
            ButtonResponse { background: ButtonColor::Pressed, border: BorderColor::White, command }
        },
        Interaction::Hovered => ButtonResponse {
            background: ButtonColor::Hovered,
            border: BorderColor::White,
            command: UiCommand::Nothing,
        },
        Interaction::Idle => ButtonResponse {
            background: ButtonColor::Normal,
            border: BorderColor::Normal,
            command: UiCommand::Nothing,
        },
    }
}

/// Responds to every button whose interaction changed in a frame.
///
/// All buttons see the number of dialog menus that existed when the frame
/// began: the engine carries out the commands after the frame.
pub fn button_interaction_system(buttons: &Vec<ButtonEvent>, dialog_menus: usize) -> (r: Vec<
    ButtonResponse,
>)
    ensures
        r@.len() == buttons@.len(),
        forall|i: int|
            0 <= i < buttons@.len() ==> #[trigger] r@[i] == response_for(
                buttons@[i].interaction,
                action_for(buttons@[i].label@),
                dialog_menus as nat,
            ),
{
    let mut r: Vec<ButtonResponse> = Vec::new();
    let mut i: usize = 0;
    while i < buttons.len()
        invariant
            0 <= i <= buttons@.len(),
            r@.len() == i,
            forall|j: int|
                0 <= j < i ==> #[trigger] r@[j] == response_for(
                    buttons@[j].interaction,
                    action_for(buttons@[j].label@),
                    dialog_menus as nat,
                ),
        decreases buttons@.len() - i,
    {
        let response = button_response(buttons[i].interaction, buttons[i].label.as_str(), dialog_menus);
        r.push(response);
        i = i + 1;
    }
    r
}

/// Writes a new frame-rate reading into the value section of every FPS text.
///
/// With no reading available yet the texts keep what they show.
pub fn fps_update(values: &mut Vec<String>, sample: &Option<String>)
    ensures
        final(values)@.len() == old(values)@.len(),
        sample.is_none() ==> final(values)@ == old(values)@,
        sample.is_some() ==> forall|i: int|
            0 <= i < old(values)@.len() ==> #[trigger] final(values)@[i]@ == sample.unwrap()@,
{
    if let Some(reading) = sample {
        let n = values.len();
        let mut i: usize = 0;
        while i < n
            invariant
                n == values@.len(),
                n == old(values)@.len(),
                0 <= i <= n,
                forall|j: int| 0 <= j < i ==> #[trigger] values@[j]@ == reading@,
            decreases n - i,
        {
            values.set(i, reading.clone());
            i = i + 1;
        }
    }
}


/// Number of dialog menus once the engine has carried out a command: opening
/// spawns one menu with its children, closing despawns an open menu together
/// with its children.
pub open spec fn dialog_menus_after(menus: nat, command: UiCommand) -> nat {
    match command {
        UiCommand::OpenDialog => menus + 1,
        UiCommand::CloseDialog => if menus > 0 {
            (menus - 1) as nat
        } else {
            0
        },
        _ => menus,
    }
}

/// Number of dialog menus after the buttons showing `labels` were pressed,
/// one per frame, starting from `menus` open menus.
pub open spec fn dialog_menus_after_presses(menus: nat, labels: Seq<Seq<char>>) -> nat
    decreases labels.len(),
{
    if labels.len() == 0 {
        menus
    } else {
        let before = dialog_menus_after_presses(menus, labels.drop_last());
        dialog_menus_after(
            before,
            response_for(Interaction::Pressed, action_for(labels.last()), before).command,
        )
    }
}

/// Pressing buttons one per frame never opens a second dialog menu: from at
/// most one open menu, pressing "Info" leaves exactly one, pressing "x" leaves
/// none, and no sequence of presses leaves more than one.
pub proof fn lemma_single_dialog_menu(menus: nat, labels: Seq<Seq<char>>)
    requires
        menus <= 1,
    ensures
        dialog_menus_after_presses(menus, labels) <= 1,
        labels.len() > 0 && action_for(labels.last()) == Some(ButtonAction::Info)
            ==> dialog_menus_after_presses(menus, labels) == 1,
        labels.len() > 0 && action_for(labels.last()) == Some(ButtonAction::CloseDialog)
            ==> dialog_menus_after_presses(menus, labels) == 0,
    decreases labels.len(),
{
    if labels.len() > 0 {
        lemma_single_dialog_menu(menus, labels.drop_last());
    }
}


/// Every button's own label leads back to its action, so buttons built from
/// `ButtonAction::label` are dispatched to the action they were built for.
pub proof fn lemma_label_round_trip(action: ButtonAction)
    ensures
        action_for(label_of(action)) == Some(action),
{
    reveal_strlit("Quit");
    reveal_strlit("Info");
    reveal_strlit("x");
    assert("Info"@[0] != "Quit"@[0]);
    assert("x"@.len() != "Quit"@.len());
    assert("x"@.len() != "Info"@.len());
}

} // verus!

use vstd::prelude::*;

verus! {

broadcast use vstd::string::to_string_from_display_ensures_for_str;

/// What to do with the tray icon.
#[derive(Clone, Copy, Debug, PartialEq, Eq, Structural)]
pub enum TrayAction {
    /// Create the icon, then show it.
    Build,
    Show,
    Hide,
    Nothing,
}

/// A visibility request for the tray icon, given whether the icon exists.
/// The icon is created on the first request to show it and kept afterwards;
/// the result is the requested visibility.
pub fn visibility_step(has_icon: bool, visible: bool) -> (r: (TrayAction, bool))
    ensures
        r.1 == visible,
        r.0 == (if visible {
            if has_icon { TrayAction::Show } else { TrayAction::Build }
        } else {
            if has_icon { TrayAction::Hide } else { TrayAction::Nothing }
        }),
{
    match (has_icon, visible) {
        (false, true) => (TrayAction::Build, true),
        (true, true) => (TrayAction::Show, true),
        (true, false) => (TrayAction::Hide, false),
        (false, false) => (TrayAction::Nothing, false),
    }
}

/// What a tray menu entry asks for.
#[derive(Clone, Copy, Debug, PartialEq, Eq, Structural)]
pub enum MenuCommand {
    /// Show and focus the main window.
    Open,
    /// Exit the application.
    Quit,
    Nothing,
}

/// The command of the menu entry with the given id.
pub fn menu_command(id: &str) -> (r: MenuCommand)
    ensures
        r == (if id@ == "open"@ {
            MenuCommand::Open
        } else if id@ == "quit"@ {
            MenuCommand::Quit
        } else {
            MenuCommand::Nothing
        }),
{
    let id = id.to_string();
    if id == "open".to_string() {
        MenuCommand::Open
    } else if id == "quit".to_string() {
        MenuCommand::Quit
    } else {
        MenuCommand::Nothing
    }
}

/// Whether a click on the tray icon brings the main window back: a left
/// button that was released.
pub fn click_restores_window(left_button: bool, released: bool) -> (r: bool)
    ensures
        r == (left_button && released),
{
    left_button && released
}

} // verus!

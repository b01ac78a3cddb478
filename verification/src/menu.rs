use vstd::prelude::*;

verus! {

/// What a click on a menu item asks for.
#[derive(Clone, Copy, Debug, PartialEq, Eq, Structural)]
pub enum MenuAction {
    /// Show, unminimize and focus the main window.
    Show,
    /// Shut the client down and exit.
    Quit,
    /// No action belongs to the item.
    Unhandled,
}

/// The action of the menu item with the given id.
pub open spec fn menu_action_of(id: Seq<char>) -> MenuAction {
    if id == "show"@ {
        MenuAction::Show
    } else if id == "quit"@ {
        MenuAction::Quit
    } else {
        MenuAction::Unhandled
    }
}

pub fn menu_action(id: &str) -> (a: MenuAction)
    ensures
        a == menu_action_of(id@),
{
    let id = id.to_owned();
    if id == String::from_str("show") {
        MenuAction::Show
    } else if id == String::from_str("quit") {
        MenuAction::Quit
    } else {
        MenuAction::Unhandled
    }
}

} // verus!

use vstd::prelude::*;

verus! {

use crate::text::str_eq;

/// What a tray-menu selection asks of the shell. `Quit` is one of the
/// three shutdown triggers — window close, tray quit, termination signal
/// — all of which drive the supervisor's stop and the control server's
/// shutdown; both targets are idempotent (the supervisor by take-once,
/// the server by its one-way lifecycle), which is the whole invariant
/// that makes racing triggers safe, so the coordinator adds no
/// deduplication of its own.
#[derive(PartialEq, Eq, Structural, Debug, Clone, Copy)]
pub enum MenuAction {
    /// Show the main window and give it focus.
    ShowWindow,
    /// Hide the main window.
    HideWindow,
    /// Stop the backend, then exit the application.
    Quit,
    /// An unknown menu id: do nothing.
    Ignore,
}

/// The action a tray-menu id names.
pub open spec fn menu_action_spec(id: Seq<char>) -> MenuAction {
    if id == "show"@ {
        MenuAction::ShowWindow
    } else if id == "hide"@ {
        MenuAction::HideWindow
    } else if id == "quit"@ {
        MenuAction::Quit
    } else {
        MenuAction::Ignore
    }
}

/// Dispatches a tray-menu selection by its id.
pub fn menu_action(id: &str) -> (r: MenuAction)
    ensures
        r == menu_action_spec(id@),
{
    if str_eq(id, "show") {
        MenuAction::ShowWindow
    } else if str_eq(id, "hide") {
        MenuAction::HideWindow
    } else if str_eq(id, "quit") {
        MenuAction::Quit
    } else {
        MenuAction::Ignore
    }
}

} // verus!

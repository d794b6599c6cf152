use vstd::prelude::*;
use crate::text::text_eq;

verus! {

/// The identifier of the tray menu item that quits the application.
pub const QUIT_ID: &'static str = "quit";

/// The identifier of the tray menu item that checks the LMS for assignments.
pub const CHECK_LMS_ID: &'static str = "check_lms";

/// What a click on a tray menu item asks for.
#[derive(Debug, Clone, Copy, PartialEq, Eq, Structural)]
pub enum MenuAction {
    Quit,
    CheckLms,
    Unhandled,
}

/// The action of the tray menu item with the given identifier.
pub fn menu_action(id: &str) -> (a: MenuAction)
    ensures
        id@ == QUIT_ID@ ==> a == MenuAction::Quit,
        id@ == CHECK_LMS_ID@ ==> a == MenuAction::CheckLms,
        id@ != QUIT_ID@ && id@ != CHECK_LMS_ID@ ==> a == MenuAction::Unhandled,
{
    proof {
        reveal_strlit("quit");
        reveal_strlit("check_lms");
        assert(QUIT_ID@ == "quit"@);
        assert(QUIT_ID@ != CHECK_LMS_ID@);
    }
    if text_eq(id, QUIT_ID) {
        MenuAction::Quit
    } else if text_eq(id, CHECK_LMS_ID) {
        MenuAction::CheckLms
    } else {
        MenuAction::Unhandled
    }
}

} // verus!

//! The tray menu and the windows it opens.

use crate::text::str_eq;
use vstd::prelude::*;

verus! {

/// An entry of the tray menu.
#[derive(Clone, Copy, Debug, PartialEq, Eq, Structural)]
pub enum TrayCommand {
    ShowLogs,
    OpenConsole,
    EditConfig,
    Quit,
}

/// The menu entry with the given identifier.
pub open spec fn command_named(id: Seq<char>) -> Option<TrayCommand> {
    if id == "show_logs"@ {
        Some(TrayCommand::ShowLogs)
    } else if id == "open_console"@ {
        Some(TrayCommand::OpenConsole)
    } else if id == "config"@ {
        Some(TrayCommand::EditConfig)
    } else if id == "quit"@ {
        Some(TrayCommand::Quit)
    } else {
        None
    }
}

/// Tells which menu entry was chosen from its identifier. An identifier
/// that belongs to no entry gives nothing.
pub fn menu_command(id: &str) -> (r: Option<TrayCommand>)
    ensures
        r == command_named(id@),
{
    if str_eq(id, "show_logs") {
        Some(TrayCommand::ShowLogs)
    } else if str_eq(id, "open_console") {
        Some(TrayCommand::OpenConsole)
    } else if str_eq(id, "config") {
        Some(TrayCommand::EditConfig)
    } else if str_eq(id, "quit") {
        Some(TrayCommand::Quit)
    } else {
        None
    }
}

/// What opening a window takes.
#[derive(Clone, Copy, Debug, PartialEq, Eq, Structural)]
pub enum OpenStep {
    /// The window exists: show it.
    Show,
    /// The window does not exist yet: make it, then show it.
    CreateAndShow,
}

/// The window in which the configuration is edited.
#[derive(Clone, Copy, Debug, PartialEq, Eq, Structural)]
pub struct ConfigEditor {}

impl ConfigEditor {
    pub fn new() -> (editor: ConfigEditor) {
        ConfigEditor {  }
    }

    /// Decides how to open the editor, given whether its window exists.
    pub fn open(&self, window_exists: bool) -> (step: OpenStep)
        ensures
            step == if window_exists {
                OpenStep::Show
            } else {
                OpenStep::CreateAndShow
            },
    {
        if window_exists {
            OpenStep::Show
        } else {
            OpenStep::CreateAndShow
        }
    }
}

} // verus!

//! Per-context catalogs of bindable actions. Every catalog variant maps to
//! exactly one global action and carries a human-readable description.

use vstd::prelude::*;

use crate::action::Action;
use crate::text::str_eq;

verus! {

/// What a context's catalog must offer: a total mapping into the global
/// action type, a description for the help legend, and recognition of the
/// variant names that a configuration document may use.
pub trait UserAction: Sized + Copy {
    /// The global action this catalog entry stands for.
    spec fn to_action_spec(self) -> Action;

    /// The help-legend description of this entry.
    spec fn desc_spec(self) -> Seq<char>;

    /// Which catalog entry a configuration name denotes, if any.
    spec fn from_name_spec(name: Seq<char>) -> Option<Self>;

    fn to_action(self) -> (r: Action)
        ensures
            r == self.to_action_spec(),
    ;

    fn desc(&self) -> (r: &'static str)
        ensures
            r@ == self.desc_spec(),
    ;

    fn from_name(name: &str) -> (r: Option<Self>)
        ensures
            r == Self::from_name_spec(name@),
    ;
}

/// Actions available in every context.
#[derive(Clone, Copy, Debug, PartialEq, Eq, Structural)]
pub enum GeneralAction {
    ShowHelp,
    Quit,
    SoftQuit,
    SwitchToTorrents,
    SwitchToSearch,
    Left,
    Right,
    Down,
    Up,
    Search,
    SwitchFocus,
    Confirm,
    ScrollPageDown,
    ScrollPageUp,
    GoToBeginning,
    GoToEnd,
}

impl UserAction for GeneralAction {
    open spec fn to_action_spec(self) -> Action {
        match self {
            GeneralAction::ShowHelp => Action::ShowHelp,
            GeneralAction::Quit => Action::Quit,
            GeneralAction::SoftQuit => Action::SoftQuit,
            GeneralAction::SwitchToTorrents => Action::ChangeTab(1),
            GeneralAction::SwitchToSearch => Action::ChangeTab(2),
            GeneralAction::Left => Action::Left,
            GeneralAction::Right => Action::Right,
            GeneralAction::Down => Action::Down,
            GeneralAction::Up => Action::Up,
            GeneralAction::Search => Action::Search,
            GeneralAction::SwitchFocus => Action::ChangeFocus,
            GeneralAction::Confirm => Action::Confirm,
            GeneralAction::ScrollPageDown => Action::ScrollDownPage,
            GeneralAction::ScrollPageUp => Action::ScrollUpPage,
            GeneralAction::GoToBeginning => Action::Home,
            GeneralAction::GoToEnd => Action::End,
        }
    }

    open spec fn desc_spec(self) -> Seq<char> {
        match self {
            GeneralAction::ShowHelp => "toggle help"@,
            GeneralAction::Quit => "quit Rustmission / a popup"@,
            GeneralAction::SoftQuit => "close a popup / task"@,
            GeneralAction::SwitchToTorrents => "switch to torrents tab"@,
            GeneralAction::SwitchToSearch => "switch to search tab"@,
            GeneralAction::Left => "switch to tab left"@,
            GeneralAction::Right => "switch to tab right"@,
            GeneralAction::Down => "move down"@,
            GeneralAction::Up => "move up"@,
            GeneralAction::Search => "search"@,
            GeneralAction::SwitchFocus => "switch focus"@,
            GeneralAction::Confirm => "confirm"@,
            GeneralAction::ScrollPageDown => "scroll page down"@,
            GeneralAction::ScrollPageUp => "scroll page up"@,
            GeneralAction::GoToBeginning => "scroll to the beginning"@,
            GeneralAction::GoToEnd => "scroll to the end"@,
        }
    }

    open spec fn from_name_spec(name: Seq<char>) -> Option<GeneralAction> {
        if name == "ShowHelp"@ {
            Some(GeneralAction::ShowHelp)
        } else if name == "Quit"@ {
            Some(GeneralAction::Quit)
        } else if name == "SoftQuit"@ {
            Some(GeneralAction::SoftQuit)
        } else if name == "SwitchToTorrents"@ {
            Some(GeneralAction::SwitchToTorrents)
        } else if name == "SwitchToSearch"@ {
            Some(GeneralAction::SwitchToSearch)
        } else if name == "Left"@ {
            Some(GeneralAction::Left)
        } else if name == "Right"@ {
            Some(GeneralAction::Right)
        } else if name == "Down"@ {
            Some(GeneralAction::Down)
        } else if name == "Up"@ {
            Some(GeneralAction::Up)
        } else if name == "Search"@ {
            Some(GeneralAction::Search)
        } else if name == "SwitchFocus"@ {
            Some(GeneralAction::SwitchFocus)
        } else if name == "Confirm"@ {
            Some(GeneralAction::Confirm)
        } else if name == "ScrollPageDown"@ {
            Some(GeneralAction::ScrollPageDown)
        } else if name == "ScrollPageUp"@ {
            Some(GeneralAction::ScrollPageUp)
        } else if name == "GoToBeginning"@ {
            Some(GeneralAction::GoToBeginning)
        } else if name == "GoToEnd"@ {
            Some(GeneralAction::GoToEnd)
        } else {
            None
        }
    }

    fn to_action(self) -> Action {
        match self {
            GeneralAction::ShowHelp => Action::ShowHelp,
            GeneralAction::Quit => Action::Quit,
            GeneralAction::SoftQuit => Action::SoftQuit,
            GeneralAction::SwitchToTorrents => Action::ChangeTab(1),
            GeneralAction::SwitchToSearch => Action::ChangeTab(2),
            GeneralAction::Left => Action::Left,
            GeneralAction::Right => Action::Right,
            GeneralAction::Down => Action::Down,
            GeneralAction::Up => Action::Up,
            GeneralAction::Search => Action::Search,
            GeneralAction::SwitchFocus => Action::ChangeFocus,
            GeneralAction::Confirm => Action::Confirm,
            GeneralAction::ScrollPageDown => Action::ScrollDownPage,
            GeneralAction::ScrollPageUp => Action::ScrollUpPage,
            GeneralAction::GoToBeginning => Action::Home,
            GeneralAction::GoToEnd => Action::End,
        }
    }

    fn desc(&self) -> &'static str {
        match self {
            GeneralAction::ShowHelp => "toggle help",
            GeneralAction::Quit => "quit Rustmission / a popup",
            GeneralAction::SoftQuit => "close a popup / task",
            GeneralAction::SwitchToTorrents => "switch to torrents tab",
            GeneralAction::SwitchToSearch => "switch to search tab",
            GeneralAction::Left => "switch to tab left",
            GeneralAction::Right => "switch to tab right",
            GeneralAction::Down => "move down",
            GeneralAction::Up => "move up",
            GeneralAction::Search => "search",
            GeneralAction::SwitchFocus => "switch focus",
            GeneralAction::Confirm => "confirm",
            GeneralAction::ScrollPageDown => "scroll page down",
            GeneralAction::ScrollPageUp => "scroll page up",
            GeneralAction::GoToBeginning => "scroll to the beginning",
            GeneralAction::GoToEnd => "scroll to the end",
        }
    }

    fn from_name(name: &str) -> Option<GeneralAction> {
        if str_eq(name, "ShowHelp") {
            Some(GeneralAction::ShowHelp)
        } else if str_eq(name, "Quit") {
            Some(GeneralAction::Quit)
        } else if str_eq(name, "SoftQuit") {
            Some(GeneralAction::SoftQuit)
        } else if str_eq(name, "SwitchToTorrents") {
            Some(GeneralAction::SwitchToTorrents)
        } else if str_eq(name, "SwitchToSearch") {
            Some(GeneralAction::SwitchToSearch)
        } else if str_eq(name, "Left") {
            Some(GeneralAction::Left)
        } else if str_eq(name, "Right") {
            Some(GeneralAction::Right)
        } else if str_eq(name, "Down") {
            Some(GeneralAction::Down)
        } else if str_eq(name, "Up") {
            Some(GeneralAction::Up)
        } else if str_eq(name, "Search") {
            Some(GeneralAction::Search)
        } else if str_eq(name, "SwitchFocus") {
            Some(GeneralAction::SwitchFocus)
        } else if str_eq(name, "Confirm") {
            Some(GeneralAction::Confirm)
        } else if str_eq(name, "ScrollPageDown") {
            Some(GeneralAction::ScrollPageDown)
        } else if str_eq(name, "ScrollPageUp") {
            Some(GeneralAction::ScrollPageUp)
        } else if str_eq(name, "GoToBeginning") {
            Some(GeneralAction::GoToBeginning)
        } else if str_eq(name, "GoToEnd") {
            Some(GeneralAction::GoToEnd)
        } else {
            None
        }
    }
}

/// Actions available in the torrents tab only.
#[derive(Clone, Copy, Debug, PartialEq, Eq, Structural)]
pub enum TorrentsAction {
    AddMagnet,
    Pause,
    DeleteWithFiles,
    DeleteWithoutFiles,
    ShowFiles,
    ShowStats,
}

impl UserAction for TorrentsAction {
    open spec fn to_action_spec(self) -> Action {
        match self {
            TorrentsAction::AddMagnet => Action::AddMagnet,
            TorrentsAction::Pause => Action::Pause,
            TorrentsAction::DeleteWithFiles => Action::DeleteWithFiles,
            TorrentsAction::DeleteWithoutFiles => Action::DeleteWithoutFiles,
            TorrentsAction::ShowFiles => Action::ShowFiles,
            TorrentsAction::ShowStats => Action::ShowStats,
        }
    }

    open spec fn desc_spec(self) -> Seq<char> {
        match self {
            TorrentsAction::AddMagnet => "add a magnet"@,
            TorrentsAction::Pause => "pause/unpause"@,
            TorrentsAction::DeleteWithFiles => "delete with files"@,
            TorrentsAction::DeleteWithoutFiles => "delete without files"@,
            TorrentsAction::ShowFiles => "show files"@,
            TorrentsAction::ShowStats => "show statistics"@,
        }
    }

    open spec fn from_name_spec(name: Seq<char>) -> Option<TorrentsAction> {
        if name == "AddMagnet"@ {
            Some(TorrentsAction::AddMagnet)
        } else if name == "Pause"@ {
            Some(TorrentsAction::Pause)
        } else if name == "DeleteWithFiles"@ {
            Some(TorrentsAction::DeleteWithFiles)
        } else if name == "DeleteWithoutFiles"@ {
            Some(TorrentsAction::DeleteWithoutFiles)
        } else if name == "ShowFiles"@ {
            Some(TorrentsAction::ShowFiles)
        } else if name == "ShowStats"@ {
            Some(TorrentsAction::ShowStats)
        } else {
            None
        }
    }

    fn to_action(self) -> Action {
        match self {
            TorrentsAction::AddMagnet => Action::AddMagnet,
            TorrentsAction::Pause => Action::Pause,
            TorrentsAction::DeleteWithFiles => Action::DeleteWithFiles,
            TorrentsAction::DeleteWithoutFiles => Action::DeleteWithoutFiles,
            TorrentsAction::ShowFiles => Action::ShowFiles,
            TorrentsAction::ShowStats => Action::ShowStats,
        }
    }

    fn desc(&self) -> &'static str {
        match self {
            TorrentsAction::AddMagnet => "add a magnet",
            TorrentsAction::Pause => "pause/unpause",
            TorrentsAction::DeleteWithFiles => "delete with files",
            TorrentsAction::DeleteWithoutFiles => "delete without files",
            TorrentsAction::ShowFiles => "show files",
            TorrentsAction::ShowStats => "show statistics",
        }
    }

    fn from_name(name: &str) -> Option<TorrentsAction> {
        if str_eq(name, "AddMagnet") {
            Some(TorrentsAction::AddMagnet)
        } else if str_eq(name, "Pause") {
            Some(TorrentsAction::Pause)
        } else if str_eq(name, "DeleteWithFiles") {
            Some(TorrentsAction::DeleteWithFiles)
        } else if str_eq(name, "DeleteWithoutFiles") {
            Some(TorrentsAction::DeleteWithoutFiles)
        } else if str_eq(name, "ShowFiles") {
            Some(TorrentsAction::ShowFiles)
        } else if str_eq(name, "ShowStats") {
            Some(TorrentsAction::ShowStats)
        } else {
            None
        }
    }
}

} // verus!

//! The global action space and the resolver that turns raw events into
//! actions, layering the user's compiled bindings over fixed defaults.

use vstd::prelude::*;

use crate::action_map::CompiledActionMap;
use crate::keys::{KeyCode, KeyEvent, KeyModifier};

verus! {

/// Every abstract operation the application can be asked to perform.
#[derive(Clone, Copy, Debug, PartialEq, Eq, Structural)]
pub enum Action {
    Quit,
    SoftQuit,
    Render,
    Up,
    Down,
    Left,
    Right,
    ScrollDownPage,
    ScrollUpPage,
    Home,
    End,
    Confirm,
    Space,
    ShowHelp,
    ShowStats,
    ShowFiles,
    Search,
    Pause,
    DeleteWithoutFiles,
    DeleteWithFiles,
    SwitchToInputMode,
    SwitchToNormalMode,
    ChangeFocus,
    AddMagnet,
    ChangeTab(u8),
    Input(KeyEvent),
}

impl Action {
    pub fn is_render(&self) -> (r: bool)
        ensures
            r == (*self == Action::Render),
    {
        matches!(self, Action::Render)
    }
}

/// The two input contexts: text entry and plain navigation.
#[derive(Clone, Copy, Debug, PartialEq, Eq, Structural)]
pub enum Mode {
    Input,
    Normal,
}

/// A raw occurrence handed in by the event loop.
#[derive(Clone, Copy, Debug, PartialEq, Eq, Structural)]
pub enum Event {
    Quit,
    Error,
    Render,
    Key(KeyEvent),
}

/// The fixed key table consulted when the user's configuration has no
/// binding for a pressed key; the modifier plays no part here.
pub open spec fn fallback_action_spec(key: KeyEvent) -> Option<Action> {
    match key.code {
        KeyCode::Tab => Some(Action::ChangeFocus),
        KeyCode::Down => Some(Action::Down),
        KeyCode::Up => Some(Action::Up),
        KeyCode::Enter => Some(Action::Confirm),
        KeyCode::Char(c) => if c == 'j' {
            Some(Action::Down)
        } else if c == 'k' {
            Some(Action::Up)
        } else if c == 'q' {
            Some(Action::Quit)
        } else if c == '?' {
            Some(Action::ShowHelp)
        } else if c == 't' {
            Some(Action::ShowStats)
        } else if c == 'f' {
            Some(Action::ShowFiles)
        } else if c == '/' {
            Some(Action::Search)
        } else if c == 'a' {
            Some(Action::AddMagnet)
        } else if c == 'p' {
            Some(Action::Pause)
        } else if c == 'd' {
            Some(Action::DeleteWithoutFiles)
        } else if c == 'D' {
            Some(Action::DeleteWithFiles)
        } else if c == ' ' {
            Some(Action::Space)
        } else if '1' <= c && c <= '9' {
            Some(Action::ChangeTab(((c as int) - 48) as u8))
        } else {
            None
        },
        _ => None,
    }
}

/// Bindings the configuration may not override: tab switching by digit,
/// confirmation by enter, focus change by tab.
pub open spec fn reserved_action_spec(key: KeyEvent) -> Option<Action> {
    match key.code {
        KeyCode::Tab => Some(Action::ChangeFocus),
        KeyCode::Enter => Some(Action::Confirm),
        KeyCode::Char(c) => if '1' <= c && c <= '9' {
            Some(Action::ChangeTab(((c as int) - 48) as u8))
        } else {
            None
        },
        _ => None,
    }
}

/// What a key press resolves to in navigation mode: reserved bindings
/// first, then the user's compiled map, then the fixed fallback table.
pub open spec fn resolve_key_spec(
    key: KeyEvent,
    map: Map<(KeyCode, KeyModifier), Action>,
) -> Option<Action> {
    match reserved_action_spec(key) {
        Some(a) => Some(a),
        None => if map.contains_key((key.code, key.modifier)) {
            Some(map[(key.code, key.modifier)])
        } else {
            fallback_action_spec(key)
        },
    }
}

/// What `event_to_action` returns on every event it accepts.
pub open spec fn event_to_action_spec(
    mode: Mode,
    event: Event,
    map: Map<(KeyCode, KeyModifier), Action>,
) -> Option<Action> {
    match event {
        Event::Quit => Some(Action::Quit),
        Event::Error => None,
        Event::Render => Some(Action::Render),
        Event::Key(key) => match mode {
            Mode::Input => Some(Action::Input(key)),
            Mode::Normal => resolve_key_spec(key, map),
        },
    }
}

/// The fixed fallback table for navigation-mode key presses.
pub fn keycode_to_action(key: KeyEvent) -> (r: Option<Action>)
    ensures
        r == fallback_action_spec(key),
{
    match key.code {
        KeyCode::Tab => Some(Action::ChangeFocus),
        KeyCode::Down => Some(Action::Down),
        KeyCode::Up => Some(Action::Up),
        KeyCode::Enter => Some(Action::Confirm),
        KeyCode::Char(c) => {
            if c == 'j' {
                Some(Action::Down)
            } else if c == 'k' {
                Some(Action::Up)
            } else if c == 'q' {
                Some(Action::Quit)
            } else if c == '?' {
                Some(Action::ShowHelp)
            } else if c == 't' {
                Some(Action::ShowStats)
            } else if c == 'f' {
                Some(Action::ShowFiles)
            } else if c == '/' {
                Some(Action::Search)
            } else if c == 'a' {
                Some(Action::AddMagnet)
            } else if c == 'p' {
                Some(Action::Pause)
            } else if c == 'd' {
                Some(Action::DeleteWithoutFiles)
            } else if c == 'D' {
                Some(Action::DeleteWithFiles)
            } else if c == ' ' {
                Some(Action::Space)
            } else if c >= '1' && c <= '9' {
                Some(Action::ChangeTab((c as u8) - 48))
            } else {
                None
            }
        },
        _ => None,
    }
}

/// Resolves one event against the current mode and the compiled bindings.
/// The caller never hands in the error event: the loop aborts on it before
/// resolution, so no action is defined for it.
pub fn event_to_action(mode: Mode, event: Event, map: &CompiledActionMap) -> (r: Option<Action>)
    requires
        event != Event::Error,
    ensures
        r == event_to_action_spec(mode, event, map@),
{
    match event {
        Event::Quit => Some(Action::Quit),
        Event::Error => None,
        Event::Render => Some(Action::Render),
        Event::Key(key) => match mode {
            Mode::Input => Some(Action::Input(key)),
            Mode::Normal => {
                let reserved = match key.code {
                    KeyCode::Tab => Some(Action::ChangeFocus),
                    KeyCode::Enter => Some(Action::Confirm),
                    KeyCode::Char(c) => {
                        if c >= '1' && c <= '9' {
                            Some(Action::ChangeTab((c as u8) - 48))
                        } else {
                            None
                        }
                    },
                    _ => None,
                };
                match reserved {
                    Some(a) => Some(a),
                    None => match map.get(key.code, key.modifier) {
                        Some(a) => Some(a),
                        None => keycode_to_action(key),
                    },
                }
            },
        },
    }
}

/// Law: in navigation mode a plain `j` press resolves to whatever the
/// configuration assigns to that chord, and to moving down when the
/// configuration assigns nothing.
pub proof fn lemma_plain_j_resolves(map: Map<(KeyCode, KeyModifier), Action>)
    ensures
        ({
            let key = (KeyEvent { code: KeyCode::Char('j'), modifier: KeyModifier::Plain });
            event_to_action_spec(Mode::Normal, Event::Key(key), map) == if map.contains_key(
                (key.code, key.modifier),
            ) {
                Some(map[(key.code, key.modifier)])
            } else {
                Some(Action::Down)
            }
        }),
{
}

} // verus!

//! The single-slot popup overlay. While a popup is active it intercepts
//! every action; returning the quit action is its close signal.

use vstd::prelude::*;

use crate::action::Action;

verus! {

/// What a popup must offer: handling an action, with the returned value
/// pinned by the popup's own response function. Returning `Action::Quit`
/// asks for dismissal.
pub trait Popup: Sized {
    /// What this popup returns when handed an action in its current state.
    spec fn response_spec(&self, action: Action) -> Option<Action>;

    fn handle(&mut self, action: Action) -> (r: Option<Action>)
        ensures
            r == old(self).response_spec(action),
    ;
}

/// Holds at most one active popup and routes actions to it.
pub struct PopupManager<P> {
    pub current_popup: Option<P>,
}

impl<P: Popup> PopupManager<P> {
    pub open spec fn is_showing_spec(&self) -> bool {
        self.current_popup is Some
    }

    pub fn new() -> (r: Self)
        ensures
            !r.is_showing_spec(),
    {
        PopupManager { current_popup: None }
    }

    pub fn is_showing_popup(&self) -> (r: bool)
        ensures
            r == self.is_showing_spec(),
    {
        self.current_popup.is_some()
    }

    /// Replaces whatever popup was active with the new one.
    pub fn show_popup(&mut self, popup: P)
        ensures
            final(self).current_popup == Some(popup),
    {
        self.current_popup = Some(popup);
    }

    pub fn close_popup(&mut self)
        ensures
            !final(self).is_showing_spec(),
    {
        self.current_popup = None;
    }

    /// Routes an action to the active popup, if any. A close signal pops
    /// the popup and asks for a render; any other response is passed on;
    /// either way the original action never reaches the view below.
    pub fn handle_actions(&mut self, action: Action) -> (r: Option<Action>)
        ensures
            (match old(self).current_popup {
                None => r is None && !final(self).is_showing_spec(),
                Some(p) => if p.response_spec(action) == Some(Action::Quit) {
                    r == Some(Action::Render) && !final(self).is_showing_spec()
                } else {
                    r == p.response_spec(action) && final(self).is_showing_spec()
                },
            }),
    {
        match &mut self.current_popup {
            None => None,
            Some(popup) => {
                let response = popup.handle(action);
                match response {
                    Some(Action::Quit) => {
                        self.current_popup = None;
                        Some(Action::Render)
                    },
                    other => other,
                }
            },
        }
    }
}

/// A snapshot of the session-wide counters a statistics popup shows.
#[derive(Clone, Copy, Debug, PartialEq, Eq, Structural)]
pub struct SessionStats {
    pub torrent_count: i64,
    pub download_speed: i64,
    pub upload_speed: i64,
}

/// The statistics overlay: pure display, dismissed by quit or confirm.
#[derive(Clone, Copy, Debug)]
pub struct StatisticsPopup {
    pub stats: SessionStats,
}

impl Popup for StatisticsPopup {
    open spec fn response_spec(&self, action: Action) -> Option<Action> {
        match action {
            Action::Quit => Some(Action::Quit),
            Action::SoftQuit => Some(Action::Quit),
            Action::Confirm => Some(Action::Quit),
            _ => None,
        }
    }

    fn handle(&mut self, action: Action) -> Option<Action> {
        match action {
            Action::Quit => Some(Action::Quit),
            Action::SoftQuit => Some(Action::Quit),
            Action::Confirm => Some(Action::Quit),
            _ => None,
        }
    }
}

} // verus!

//! The torrents tab's core state machine: one shared entity table, one
//! popup slot, one task manager, and the dispatch of resolved actions.
//! The owner performs the queued commands and reports their completion.

use vstd::prelude::*;

use crate::action::Action;
use crate::popup::{Popup, PopupManager, SessionStats, StatisticsPopup};
use crate::table::{current_entity, next_cursor_spec, prev_cursor_spec, SharedEntityTable};
use crate::tasks::{issued_single, pause_kind, CommandKind, TaskManager, TorrentAction};

verus! {

/// The command kind an action delegated to the task manager asks for on
/// the current entity, if it asks for one at all.
pub open spec fn delegated_kind(action: Action) -> Option<CommandKind> {
    match action {
        Action::DeleteWithoutFiles => Some(CommandKind::DeleteWithoutFiles),
        Action::DeleteWithFiles => Some(CommandKind::DeleteWithFiles),
        Action::ShowFiles => Some(CommandKind::GetTorrentInfo),
        _ => None,
    }
}

/// The torrents tab: the table of remote entities, the latest session
/// statistics snapshot, the popup overlay, and the command bookkeeping.
pub struct TorrentsTab {
    pub table: SharedEntityTable,
    pub stats: Option<SessionStats>,
    pub popup_manager: PopupManager<StatisticsPopup>,
    pub task: TaskManager,
}

impl TorrentsTab {
    pub open spec fn wf(self) -> bool {
        self.table.wf()
    }

    pub fn new() -> (r: Self)
        ensures
            r.wf(),
            r.table.entities@ == Seq::<crate::table::Entity>::empty(),
            r.table.cursor is None,
            r.stats is None,
            !r.popup_manager.is_showing_spec(),
            r.task.pending@.len() == 0,
            r.task.outbox@.len() == 0,
    {
        TorrentsTab {
            table: SharedEntityTable::new(),
            stats: None,
            popup_manager: PopupManager::new(),
            task: TaskManager::new(),
        }
    }

    /// Moves the selection one row up and asks for a frame.
    pub fn previous_torrent(&mut self) -> (r: Option<Action>)
        requires
            old(self).wf(),
        ensures
            final(self).wf(),
            r == Some(Action::Render),
            final(self).table.entities == old(self).table.entities,
            final(self).table.filter == old(self).table.filter,
            final(self).table.cursor == prev_cursor_spec(old(self).table.cursor),
            final(self).stats == old(self).stats,
            final(self).popup_manager == old(self).popup_manager,
            final(self).task == old(self).task,
    {
        self.table.select_previous();
        Some(Action::Render)
    }

    /// Moves the selection one row down and asks for a frame.
    pub fn next_torrent(&mut self) -> (r: Option<Action>)
        requires
            old(self).wf(),
        ensures
            final(self).wf(),
            r == Some(Action::Render),
            final(self).table.entities == old(self).table.entities,
            final(self).table.filter == old(self).table.filter,
            final(self).table.cursor == next_cursor_spec(
                old(self).table.cursor,
                old(self).table.filtered().len(),
            ),
            final(self).stats == old(self).stats,
            final(self).popup_manager == old(self).popup_manager,
            final(self).task == old(self).task,
    {
        self.table.select_next();
        Some(Action::Render)
    }

    /// Opens the statistics overlay if a snapshot has arrived; without
    /// one there is nothing to show and nothing changes.
    pub fn show_statistics_popup(&mut self) -> (r: Option<Action>)
        ensures
            final(self).table == old(self).table,
            final(self).stats == old(self).stats,
            final(self).task == old(self).task,
            (match old(self).stats {
                Some(st) => r == Some(Action::Render) && final(self).popup_manager.current_popup
                    == Some((StatisticsPopup { stats: st })),
                None => r is None && final(self).popup_manager == old(self).popup_manager,
            }),
    {
        match self.stats {
            Some(st) => {
                self.popup_manager.show_popup(StatisticsPopup { stats: st });
                Some(Action::Render)
            },
            None => None,
        }
    }

    /// Toggles the selected entity between stopped and running, deciding
    /// from the status read at this moment; with no selection, nothing
    /// is issued.
    pub fn pause_current_torrent(&mut self) -> (r: Option<Action>)
        requires
            old(self).wf(),
        ensures
            final(self).wf(),
            r is None,
            final(self).table == old(self).table,
            final(self).stats == old(self).stats,
            final(self).popup_manager == old(self).popup_manager,
            (match current_entity(old(self).table) {
                Some(e) => issued_single(
                    old(self).task,
                    final(self).task,
                    pause_kind(e.status),
                    e.id,
                ),
                None => final(self).task == old(self).task,
            }),
    {
        let picked: Option<(i64, crate::table::EntityStatus)> = match self.table.current() {
            Some(e) => Some((e.id, e.status)),
            None => None,
        };
        match picked {
            Some((id, status)) => {
                let cmd = TaskManager::pause_or_resume(id, status);
                self.task.issue(cmd);
                proof {
                    assert(self.task.outbox@.drop_last() =~= old(self).task.outbox@);
                }
                None
            },
            None => None,
        }
    }

    /// Issues the delegated single-target command for the selected
    /// entity: deletion with or without data, or a detail fetch.
    fn delegate_to_task(&mut self, action: Action) -> (r: Option<Action>)
        requires
            old(self).wf(),
        ensures
            final(self).wf(),
            r is None,
            final(self).table == old(self).table,
            final(self).stats == old(self).stats,
            final(self).popup_manager == old(self).popup_manager,
            (match (delegated_kind(action), current_entity(old(self).table)) {
                (Some(kind), Some(e)) => issued_single(old(self).task, final(self).task, kind, e.id),
                _ => final(self).task == old(self).task,
            }),
    {
        let picked: Option<i64> = match self.table.current() {
            Some(e) => Some(e.id),
            None => None,
        };
        let id = match picked {
            Some(id) => id,
            None => {
                return None;
            },
        };
        match action {
            Action::DeleteWithoutFiles => {
                let mut ids: Vec<i64> = Vec::new();
                ids.push(id);
                self.task.issue(TorrentAction::DeleteWithoutFiles(ids));
                proof {
                    assert(self.task.outbox@.drop_last() =~= old(self).task.outbox@);
                }
            },
            Action::DeleteWithFiles => {
                let mut ids: Vec<i64> = Vec::new();
                ids.push(id);
                self.task.issue(TorrentAction::DeleteWithFiles(ids));
                proof {
                    assert(self.task.outbox@.drop_last() =~= old(self).task.outbox@);
                }
            },
            Action::ShowFiles => {
                self.task.issue(TorrentAction::GetTorrentInfo(id));
                proof {
                    assert(self.task.outbox@.drop_last() =~= old(self).task.outbox@);
                }
            },
            _ => {},
        }
        None
    }

    /// Routes one resolved action. An active popup intercepts it; else
    /// navigation moves the cursor, the statistics action opens the
    /// overlay, pause toggles the selected entity, and deletion or a
    /// detail fetch is queued for the collaborator.
    pub fn handle_actions(&mut self, action: Action) -> (r: Option<Action>)
        requires
            old(self).wf(),
        ensures
            final(self).wf(),
            (match old(self).popup_manager.current_popup {
                Some(p) => {
                    &&& final(self).table == old(self).table
                    &&& final(self).stats == old(self).stats
                    &&& final(self).task == old(self).task
                    &&& (if p.response_spec(action) == Some(Action::Quit) {
                        r == Some(Action::Render) && !final(self).popup_manager.is_showing_spec()
                    } else {
                        r == p.response_spec(action)
                            && final(self).popup_manager.is_showing_spec()
                    })
                },
                None => (match action {
                    Action::Up => {
                        &&& r == Some(Action::Render)
                        &&& final(self).table.entities == old(self).table.entities
                        &&& final(self).table.filter == old(self).table.filter
                        &&& final(self).table.cursor == prev_cursor_spec(old(self).table.cursor)
                        &&& final(self).stats == old(self).stats
                        &&& final(self).popup_manager == old(self).popup_manager
                        &&& final(self).task == old(self).task
                    },
                    Action::Down => {
                        &&& r == Some(Action::Render)
                        &&& final(self).table.entities == old(self).table.entities
                        &&& final(self).table.filter == old(self).table.filter
                        &&& final(self).table.cursor == next_cursor_spec(
                            old(self).table.cursor,
                            old(self).table.filtered().len(),
                        )
                        &&& final(self).stats == old(self).stats
                        &&& final(self).popup_manager == old(self).popup_manager
                        &&& final(self).task == old(self).task
                    },
                    Action::ShowStats => {
                        &&& final(self).table == old(self).table
                        &&& final(self).stats == old(self).stats
                        &&& final(self).task == old(self).task
                        &&& (match old(self).stats {
                            Some(st) => r == Some(Action::Render)
                                && final(self).popup_manager.current_popup == Some(
                                (StatisticsPopup { stats: st }),
                            ),
                            None => r is None && final(self).popup_manager == old(self).popup_manager,
                        })
                    },
                    Action::Pause => {
                        &&& r is None
                        &&& final(self).table == old(self).table
                        &&& final(self).stats == old(self).stats
                        &&& final(self).popup_manager == old(self).popup_manager
                        &&& (match current_entity(old(self).table) {
                            Some(e) => issued_single(
                                old(self).task,
                                final(self).task,
                                pause_kind(e.status),
                                e.id,
                            ),
                            None => final(self).task == old(self).task,
                        })
                    },
                    _ => {
                        &&& r is None
                        &&& final(self).table == old(self).table
                        &&& final(self).stats == old(self).stats
                        &&& final(self).popup_manager == old(self).popup_manager
                        &&& (match (delegated_kind(action), current_entity(old(self).table)) {
                            (Some(kind), Some(e)) => issued_single(
                                old(self).task,
                                final(self).task,
                                kind,
                                e.id,
                            ),
                            _ => final(self).task == old(self).task,
                        })
                    },
                }),
            }),
    {
        if self.popup_manager.is_showing_popup() {
            return self.popup_manager.handle_actions(action);
        }
        match action {
            Action::Up => self.previous_torrent(),
            Action::Down => self.next_torrent(),
            Action::ShowStats => self.show_statistics_popup(),
            Action::Pause => self.pause_current_torrent(),
            _ => self.delegate_to_task(action),
        }
    }
}

} // verus!

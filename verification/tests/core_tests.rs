use rustmission_core::action::Action;
use rustmission_core::popup::{Popup, PopupManager, SessionStats, StatisticsPopup};
use rustmission_core::table::{Entity, EntityFilter, EntityStatus, SharedEntityTable};
use rustmission_core::tasks::{
    CommandKind, CompletionEffect, PendingCommand, TaskManager, TorrentAction,
};
use rustmission_core::torrents_tab::TorrentsTab;

fn entity(id: i64, name: &str, status: EntityStatus) -> Entity {
    Entity { id, name: name.to_string(), status }
}

fn sample_rows(n: i64) -> Vec<Entity> {
    (0..n).map(|i| entity(i, &format!("torrent-{i}"), EntityStatus::Downloading)).collect()
}

fn stats() -> SessionStats {
    SessionStats { torrent_count: 3, download_speed: 1024, upload_speed: 256 }
}

#[test]
fn select_next_on_empty_table_keeps_cursor_absent() {
    let mut table = SharedEntityTable::new();
    table.select_next();
    assert_eq!(table.cursor, None);
    assert_eq!(table.current(), None);
    table.select_previous();
    assert_eq!(table.cursor, None);
}

#[test]
fn replace_populates_and_cursor_appears() {
    let mut table = SharedEntityTable::new();
    table.replace(sample_rows(3));
    assert_eq!(table.cursor, Some(0));
    assert_eq!(table.filtered_len(), 3);
    assert_eq!(table.current().unwrap().id, 0);
}

#[test]
fn cursor_saturates_at_both_ends() {
    let mut table = SharedEntityTable::new();
    table.replace(sample_rows(3));
    table.select_previous();
    assert_eq!(table.cursor, Some(0));
    table.select_next();
    table.select_next();
    assert_eq!(table.cursor, Some(2));
    table.select_next();
    assert_eq!(table.cursor, Some(2));
    table.select_previous();
    assert_eq!(table.cursor, Some(1));
}

#[test]
fn replace_clamps_cursor_to_new_length() {
    let mut table = SharedEntityTable::new();
    table.replace(sample_rows(5));
    table.select_next();
    table.select_next();
    table.select_next();
    table.select_next();
    assert_eq!(table.cursor, Some(4));
    table.replace(sample_rows(2));
    assert_eq!(table.cursor, Some(1));
    table.replace(Vec::new());
    assert_eq!(table.cursor, None);
}

#[test]
fn last_replace_wins_wholesale() {
    // Whichever replacement lands last determines the rows in full; no
    // blend of the two snapshots is observable.
    let first = sample_rows(5);
    let second = sample_rows(3);
    let mut table = SharedEntityTable::new();
    table.replace(first);
    table.replace(second.clone());
    assert_eq!(table.filtered_len(), 3);
    assert_eq!(table.visible(), second);

    let mut other = SharedEntityTable::new();
    other.replace(sample_rows(3));
    other.replace(sample_rows(5));
    assert_eq!(other.filtered_len(), 5);
    assert_eq!(other.visible(), sample_rows(5));
}

#[test]
fn filter_narrows_listing_without_touching_rows() {
    let mut table = SharedEntityTable::new();
    let mut rows = sample_rows(3);
    rows[1].status = EntityStatus::Stopped;
    table.replace(rows.clone());
    table.set_filter(EntityFilter::ByStatus(EntityStatus::Stopped));
    assert_eq!(table.filtered_len(), 1);
    assert_eq!(table.visible(), vec![rows[1].clone()]);
    assert_eq!(table.current().unwrap().id, 1);
    // The underlying sequence is intact: lifting the filter shows all.
    table.set_filter(EntityFilter::All);
    assert_eq!(table.filtered_len(), 3);
    assert_eq!(table.visible(), rows);
}

#[test]
fn name_filter_matches_exactly() {
    let mut table = SharedEntityTable::new();
    table.replace(sample_rows(3));
    table.set_filter(EntityFilter::ByName("torrent-2".to_string()));
    assert_eq!(table.filtered_len(), 1);
    assert_eq!(table.current().unwrap().id, 2);
    table.set_filter(EntityFilter::ByName("torrent".to_string()));
    assert_eq!(table.filtered_len(), 0);
    assert_eq!(table.cursor, None);
}

#[test]
fn popup_close_signal_pops_and_requests_render() {
    let mut popups: PopupManager<StatisticsPopup> = PopupManager::new();
    assert!(!popups.is_showing_popup());
    popups.show_popup(StatisticsPopup { stats: stats() });
    assert!(popups.is_showing_popup());
    // The statistics popup answers quit with its close signal.
    let response = popups.handle_actions(Action::Quit);
    assert_eq!(response, Some(Action::Render));
    assert!(!popups.is_showing_popup());
}

#[test]
fn popup_swallows_actions_it_does_not_close_on() {
    let mut popups: PopupManager<StatisticsPopup> = PopupManager::new();
    popups.show_popup(StatisticsPopup { stats: stats() });
    assert_eq!(popups.handle_actions(Action::Down), None);
    assert!(popups.is_showing_popup());
}

#[test]
fn popup_manager_without_popup_returns_nothing() {
    let mut popups: PopupManager<StatisticsPopup> = PopupManager::new();
    assert_eq!(popups.handle_actions(Action::Quit), None);
    popups.show_popup(StatisticsPopup { stats: stats() });
    popups.close_popup();
    assert!(!popups.is_showing_popup());
}

#[test]
fn statistics_popup_closes_on_quit_soft_quit_and_confirm() {
    let mut popup = StatisticsPopup { stats: stats() };
    assert_eq!(popup.handle(Action::Quit), Some(Action::Quit));
    assert_eq!(popup.handle(Action::SoftQuit), Some(Action::Quit));
    assert_eq!(popup.handle(Action::Confirm), Some(Action::Quit));
    assert_eq!(popup.handle(Action::Up), None);
}

#[test]
fn pause_or_resume_reads_status_at_the_keypress() {
    match TaskManager::pause_or_resume(7, EntityStatus::Stopped) {
        TorrentAction::Start(ids) => assert_eq!(ids, vec![7]),
        other => panic!("expected a start command, got {other:?}"),
    }
    match TaskManager::pause_or_resume(7, EntityStatus::Seeding) {
        TorrentAction::Stop(ids) => assert_eq!(ids, vec![7]),
        other => panic!("expected a stop command, got {other:?}"),
    }
}

#[test]
fn issued_commands_are_queued_and_tracked() {
    let mut tasks = TaskManager::new();
    tasks.issue(TaskManager::pause_or_resume(3, EntityStatus::Stopped));
    tasks.issue(TorrentAction::Add("magnet:?xt=urn:btih:abc".to_string()));
    assert_eq!(tasks.outbox.len(), 2);
    // Adding by link has no target yet, so only the toggle is pending.
    assert_eq!(
        tasks.pending,
        vec![PendingCommand { key: 3, kind: CommandKind::Start }]
    );
    let sent = tasks.drain_outbox();
    assert_eq!(sent.len(), 2);
    assert!(tasks.outbox.is_empty());
    assert_eq!(tasks.pending.len(), 1);
}

#[test]
fn completion_removes_pending_and_surfaces_failures() {
    let mut tasks = TaskManager::new();
    tasks.issue(TaskManager::pause_or_resume(3, EntityStatus::Stopped));
    tasks.issue(TorrentAction::GetTorrentInfo(9));
    assert_eq!(tasks.complete(3, true), CompletionEffect::Done);
    assert_eq!(
        tasks.pending,
        vec![PendingCommand { key: 9, kind: CommandKind::GetTorrentInfo }]
    );
    // A failure is surfaced, and the command is dropped all the same.
    assert_eq!(tasks.complete(9, false), CompletionEffect::ShowErrorPopup);
    assert!(tasks.pending.is_empty());
    // Completing an unknown key changes nothing.
    assert_eq!(tasks.complete(42, true), CompletionEffect::Done);
    assert!(tasks.pending.is_empty());
}

#[test]
fn tab_navigation_moves_selection_and_requests_render() {
    let mut tab = TorrentsTab::new();
    tab.table.replace(sample_rows(2));
    assert_eq!(tab.handle_actions(Action::Down), Some(Action::Render));
    assert_eq!(tab.table.cursor, Some(1));
    assert_eq!(tab.handle_actions(Action::Up), Some(Action::Render));
    assert_eq!(tab.table.cursor, Some(0));
}

#[test]
fn tab_opens_statistics_only_with_a_snapshot() {
    let mut tab = TorrentsTab::new();
    assert_eq!(tab.handle_actions(Action::ShowStats), None);
    assert!(!tab.popup_manager.is_showing_popup());
    tab.stats = Some(stats());
    assert_eq!(tab.handle_actions(Action::ShowStats), Some(Action::Render));
    assert!(tab.popup_manager.is_showing_popup());
}

#[test]
fn active_popup_intercepts_actions_until_closed() {
    let mut tab = TorrentsTab::new();
    tab.table.replace(sample_rows(2));
    tab.stats = Some(stats());
    tab.handle_actions(Action::ShowStats);
    // While the popup shows, navigation no longer reaches the table.
    assert_eq!(tab.handle_actions(Action::Down), None);
    assert_eq!(tab.table.cursor, Some(0));
    // Quit closes the popup and asks for a frame; the next action lands
    // on the table again.
    assert_eq!(tab.handle_actions(Action::Quit), Some(Action::Render));
    assert!(!tab.popup_manager.is_showing_popup());
    assert_eq!(tab.handle_actions(Action::Down), Some(Action::Render));
    assert_eq!(tab.table.cursor, Some(1));
}

#[test]
fn pause_issues_toggle_for_selected_entity() {
    let mut tab = TorrentsTab::new();
    let mut rows = sample_rows(2);
    rows[0].status = EntityStatus::Stopped;
    tab.table.replace(rows);
    assert_eq!(tab.handle_actions(Action::Pause), None);
    match tab.task.outbox.as_slice() {
        [TorrentAction::Start(ids)] => assert_eq!(ids, &vec![0]),
        other => panic!("expected one start command, got {other:?}"),
    }
    tab.handle_actions(Action::Down);
    tab.handle_actions(Action::Pause);
    match tab.task.outbox.as_slice() {
        [_, TorrentAction::Stop(ids)] => assert_eq!(ids, &vec![1]),
        other => panic!("expected a stop command second, got {other:?}"),
    }
}

#[test]
fn delete_and_detail_actions_target_the_selection() {
    let mut tab = TorrentsTab::new();
    tab.table.replace(sample_rows(2));
    tab.handle_actions(Action::Down);
    assert_eq!(tab.handle_actions(Action::DeleteWithoutFiles), None);
    assert_eq!(tab.handle_actions(Action::DeleteWithFiles), None);
    assert_eq!(tab.handle_actions(Action::ShowFiles), None);
    match tab.task.outbox.as_slice() {
        [TorrentAction::DeleteWithoutFiles(a), TorrentAction::DeleteWithFiles(b), TorrentAction::GetTorrentInfo(id)] =>
        {
            assert_eq!(a, &vec![1]);
            assert_eq!(b, &vec![1]);
            assert_eq!(*id, 1);
        },
        other => panic!("unexpected outbox {other:?}"),
    }
    assert_eq!(tab.task.pending.len(), 3);
}

#[test]
fn commands_on_empty_table_issue_nothing() {
    let mut tab = TorrentsTab::new();
    assert_eq!(tab.handle_actions(Action::Pause), None);
    assert_eq!(tab.handle_actions(Action::DeleteWithFiles), None);
    assert!(tab.task.outbox.is_empty());
    assert!(tab.task.pending.is_empty());
}

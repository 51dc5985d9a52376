//! Core logic of a terminal torrent client: user-configurable key chords
//! resolved into typed actions, and a shared, filterable table of remote
//! entities driven by a render/input loop and background polling.

pub mod action;
pub mod action_map;
pub mod catalog;
pub mod keymap;
pub mod keys;
pub mod popup;
pub mod table;
pub mod tasks;
pub mod text;
pub mod torrents_tab;

//! Verified core logic of the ArcRelay desktop client.
use vstd::prelude::*;

pub mod text;
pub mod drag_html;
pub mod drag_assembly;
pub mod drop_encoding;
pub mod notifications;
pub mod quick_action;
pub mod image_cache;
pub mod clipboard_view;
pub mod sync_rules;
pub mod hotkeys;
pub mod diagnostics;
pub mod paste_trigger;
pub mod export_cache;
pub mod gesture_lab;
pub mod blob_transfer;
pub mod action_icon;
pub mod gaze;
pub mod replication;
pub mod replica_worker;
pub mod control_session;
pub mod remote_transfer;
pub mod native_drag;
pub mod peer_views;
pub mod drag_sessions;
pub mod action_output;
pub mod shortcuts;
pub mod printing;
pub mod data_url;
pub mod transfer_draft;
pub mod installed_apps;
pub mod mcp_config;
pub mod virtual_drag;
pub mod action_store;
pub mod hang_watchdog;
pub mod action_paths;
pub mod host_commands;

verus! {

} // verus!

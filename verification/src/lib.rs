pub mod drop_tracking;
pub mod geometry;
pub mod layout;
pub mod program_args;
pub mod scan_schedule;
pub mod settings;
pub mod settings_document;
pub mod text;
pub mod toml_path;
pub mod toml_scan;
pub mod ui_policy;
pub mod wide_text;
pub mod window_chrome;
pub mod event_routing;
pub mod tooltip_sync;
pub mod process_tree;
pub mod status_text;
pub mod window_control;
pub mod splitter_overlay;
pub mod region_cache;
pub mod tab_reorder;
pub mod program_restore;
pub mod commands;
pub mod pointer;
pub mod startup;

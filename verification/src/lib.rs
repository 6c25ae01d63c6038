//! Verified presentation logic of the Uta! Studio desktop shell.
pub mod invalidation;
pub mod text;
pub mod ui_api;
pub mod settings;
pub mod song_detail;
pub mod logging;
pub mod authoring;
pub mod jobs;
pub mod startup;
pub mod model_settings;
pub mod storage;
pub mod song_workspace;
pub mod lyrics_workbench;
pub mod language_editor;
pub mod hierarchy;
pub mod library;
pub mod overlays;
pub mod registry_ids;

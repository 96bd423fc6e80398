//! State machine and data model of a terminal browser for backup snapshots:
//! key classification, the files panel with its navigation cache and search
//! filter, and the restore-destination picker.

pub mod text;
pub mod file;
pub mod event;
pub mod snapshot;
pub mod restic;
pub mod dialog;
pub mod app;

//! Clipboard watching core: classification of clipboard reads, change
//! detection, image fingerprints and the events a host application emits.

pub mod text;
pub mod fingerprint;
pub mod dedup;
pub mod snapshot;
pub mod classify;
pub mod materialize;
pub mod event;
pub mod watcher;
pub mod laws;
pub mod hotkey;
pub mod models;
pub mod history;
pub mod settings;
pub mod window;
pub mod environment;

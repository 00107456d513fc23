//! Free-space monitoring for mounted volumes: threshold evaluation, the
//! published snapshot, the polling state machine and the indicator rendering.

pub mod volume;
pub mod snapshot;
pub mod threshold;
pub mod text;
pub mod render;
pub mod store;
pub mod poller;
pub mod ui;
pub mod config;
pub mod cli;
pub mod menu;
pub mod launch;

//! Verified core of a terminal playlist player: the download scheduler, the
//! playback orchestrator and the track list they work on.

pub mod api;
pub mod app;
pub mod db;
pub mod downloader;
pub mod layout;
pub mod list;
pub mod loading;
pub mod models;
pub mod orchestrator;
pub mod player;
pub mod registry;
pub mod task;
pub mod text;
pub mod utils;

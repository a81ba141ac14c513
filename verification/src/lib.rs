pub mod analytics;
pub mod app;
pub mod commands;
pub mod failures;
pub mod frame;
pub mod gpu_bridge;
mod hashed;
pub mod history;
pub mod messages;
pub mod navigation;
pub mod offscreen;
pub mod opening;
pub mod persistence;
pub mod rgba;
pub mod saving;
pub mod sources;
pub mod stores;
pub mod system;
pub mod text;
pub mod time;
pub mod types;
pub mod ui_commands;
pub mod video_export;
pub mod video_files;
pub mod video_start;

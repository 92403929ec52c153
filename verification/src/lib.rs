//! Data models, response decoding, download-task planning and UI state
//! transitions of a Bilibili audio downloader.

pub mod app_state;
pub mod bilibili;
pub mod clock;
pub mod errors;
pub mod event_loop;
pub mod frontend;
pub mod handlers;
pub mod json;
pub mod watcher;

//! The Bilibili side: data models, response decoding and download tasks.

pub mod collection;
pub mod modules;
pub mod task_modules;
pub mod utils;
pub mod video;

//! The decisions behind a browser shell: which on-device model to load and when,
//! what the Settings window shows, where the Settings menu item goes, and what an
//! embedding view controller may ask of the browser.
//!
//! Nothing here touches a file, a thread or a window. Each module takes plain
//! values, changes plain state, and says what is to be done next; the shell around
//! it performs that and reports back.

pub mod conversation;
pub mod inference;
pub mod ios;
pub mod laws;
pub mod menu;
pub mod models;
pub mod settings;
pub mod steps;
pub mod storage;
pub mod text;

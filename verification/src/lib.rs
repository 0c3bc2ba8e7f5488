//! Decisions and state mapping for a desktop controller of Soundcore earbuds.

pub mod text;
pub mod domain;
pub mod mac;
pub mod devices;
pub mod tray;
pub mod notify;
pub mod ui;
pub mod device;
pub mod app;
pub mod watch;

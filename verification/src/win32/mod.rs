//! The decisions behind the windows and hooks of the tool.

pub mod focus;
pub mod host;
pub mod layout;
pub mod menu;
pub mod other_submenu;
pub mod scroll_hook;
pub mod submenu;
pub mod tray;

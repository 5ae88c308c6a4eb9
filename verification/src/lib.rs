//! Mouse speed switcher: the decisions behind a tray tool that keeps separate
//! pointer and wheel settings for the whole machine and for single mice.

pub mod app;
pub mod autostart;
pub mod baselines;
pub mod commands;
pub mod config;
pub mod devices;
pub mod diag;
pub mod icon;
pub mod input_probe;
pub mod menu_model;
pub mod place;
pub mod popup_menu;
pub mod scroll;
pub mod search;
pub mod speed;
pub mod state;
pub mod state_laws;
pub mod text;
pub mod utf16;
pub mod win32;

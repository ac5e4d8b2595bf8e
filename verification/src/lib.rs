//! Automatic virtual displays for Parsec hosts: the rules that decide when a
//! display is made or removed, how it is configured, and what the menu bar
//! shows, each stated as a contract and proved.

pub mod text;
pub mod parsec;
pub mod display;
pub mod commands;
pub mod settings;
pub mod session;
pub mod menu;
pub mod dioxus_config;
pub mod autostart;

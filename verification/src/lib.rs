//! Core logic of the MyUsage AI-usage widget: command-line modes, the
//! countdown and status texts, the tray and window reactions, the colour
//! palette, the taskbar geometry and the quota-window bookkeeping.

pub mod autostart;
pub mod cli;
pub mod clock;
pub mod config;
pub mod crash_log;
pub mod provider;
pub mod single_instance;
pub mod taskbar;
pub mod text;
pub mod theme;
pub mod widget;

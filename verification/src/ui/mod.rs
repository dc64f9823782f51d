//! What the screens show and how they react to messages.

pub mod ansi_color;
pub mod common;
pub mod toast;
pub mod download_screen;
pub mod main_screen;
pub mod monitor_screen;
pub mod upload_screen;

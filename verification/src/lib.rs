//! Verified core of the ClearCore flasher: the data model, the decisions and
//! the text that the flasher's screens and serial workers are built from.

pub mod text;
pub mod types;
pub mod serial;
pub mod ui;
pub mod app;

//! A status-bar clock widget: configuration, parsing and rendering of the
//! output of the system `date` command, the refresh state machine and the
//! right-aligned display.

pub mod configuration;
pub mod date_time;
pub mod display;
pub mod scheduler;

//! A verified core for a `watch`-style screen refresher: it formats a status
//! line sized to the terminal, truncates captured command output to the
//! visible area, and drives the refresh/wait/quit state machine. Terminal
//! control, argument parsing and command execution live outside the library.

pub mod clock;
pub mod config;
pub mod lines;
pub mod render;
pub mod sched;
pub mod text;

//! Session engine of an interactive console for browsing and running unit tests.
//!
//! The crate holds the state and the rules of the console: the bounded output
//! buffer, the rendering of styled output lines, the focus and selection state
//! machine, the plan of a test run, test discovery in source text and the
//! watch-mode coordinator. Terminal, process and file system access are left to
//! the program that embeds the crate.

pub mod ansi;
pub mod app;
pub mod file_watcher;
pub mod output;
pub mod test_runner;
pub mod text;
pub mod ui;
pub mod utils;

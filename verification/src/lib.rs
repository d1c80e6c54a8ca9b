//! Window lifecycle decisions for a desktop application in which every
//! additional window is a separate process of the same executable.
//!
//! Four operations make up the whole: opening a new window, keeping the
//! primary window's title in step with the active project, listing the open
//! windows and closing the primary window. Processes and windows belong to
//! the operating system and to the windowing runtime, so each operation is
//! written as a decision: it is told what has happened and answers with what
//! is to be done next. Whoever owns the process and the windows carries the
//! answers out.

pub mod launch;
pub mod project;
pub mod window;

pub use launch::{create_new_window, LaunchAction, LaunchEvent};
pub use window::{close_window, list_windows, update_window_title, WindowAction, WindowEvent};

//! A console-driven scene shell for a terminal game: a command line that is
//! typed into, an interpreter that maps submitted lines to scene changes or a
//! request to stop, an optional menu that mirrors those commands, and the
//! key routing that ties them together. Drawing and terminal I/O are left to
//! the caller, which hands key presses in and reads back what to show.

pub mod app;
pub mod command;
pub mod console;
pub mod laws;
pub mod menu;
pub mod player;
pub mod scene;

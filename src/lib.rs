//! A terminal emulator core for a Linux framebuffer console: an escape-sequence
//! parser, a character grid with scrolling, and the decisions of the event loop
//! that ties them to a shell.

pub mod args;
pub mod color;
pub mod display;
pub mod font;
pub mod spatial;
pub mod terminal;

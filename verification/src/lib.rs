//! Verified core of a terminal color-theme switcher: the bundled themes, the
//! user's saved configuration, the escape sequences that recolor a terminal,
//! color parsing, the shell hook, and the decisions of the interactive picker.
pub mod text;
pub mod cli;
pub mod theme;
pub mod apply;
pub mod config;
pub mod colors;
pub mod contrast;
pub mod shell;
pub mod tui;

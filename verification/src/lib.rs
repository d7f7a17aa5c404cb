//! Backend decisions of a desktop application shell.
//!
//! The shell answers two requests of its front end, a greeting and a change of
//! theme, and dresses its main window when the application starts. This crate
//! holds what is decided on the way: the text of the greeting, the attribute
//! writes that a request asks of the window, and the reply to the front end.
//! Looking the window up and handing the writes to the compositor is the
//! caller's part.

pub mod effects;
pub mod greeting;
pub mod text;
pub mod theme;

//! The decisions behind the window commands of a desktop shell.
//!
//! The shell offers its frontend a query and a toggle for the main window's
//! fullscreen state. The host owns the window; this library owns the rules:
//! what the query answers when the window is missing or will not say, which
//! state the toggle asks the host for, and what it answers its caller. The
//! caller looks at the window, hands over what it saw as a [`window::WindowProbe`],
//! and carries out what comes back.

pub mod commands;
pub mod window;

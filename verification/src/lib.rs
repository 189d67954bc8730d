//! Opens a path or a link with the program that the system has configured
//! for it, or shows it in the system's file manager.
//!
//! The crate holds the decisions only. Every step that touches the outside
//! world (starting a process, a native shell call, a message on the session
//! bus, a look at the file system) is handed to the caller as an action, and
//! the caller reports back what happened as an event:
//!
//! 1. [`classify`] tells the environment from the platform and four probes.
//! 2. [`open`], [`open_browser`] or [`reveal_in_file_manager`] starts a
//!    request and gives the first [`Step`].
//! 3. The caller carries out the step's action and hands the state and the
//!    event to [`resume`], until the action is [`Action::Finish`].

pub mod command;
pub mod dispatch;
pub mod environment;
pub mod error;
pub mod freedesktop;
pub mod laws;
pub mod machine;
pub mod model;
pub mod paths;
pub mod strategy;
pub mod text;
pub mod win32;
pub mod wsl;

pub use crate::dispatch::{dispatch, open, open_browser, resume, reveal_fallback, reveal_in_file_manager};
pub use crate::environment::{classify, is_docker, is_wsl, Environment, Platform, ProbeReadings};
pub use crate::error::{ExitStatus, IoFailure, IoKind, OpenError};
pub use crate::machine::{Action, Event, OpenRequest, Operation, State, Step};

//! Display-profile switching for a workstation that is either used at the
//! desk, on several monitors, or from the couch, on one HDMI-attached TV.
//!
//! The library decides; it never touches the machine. Every operation
//! appends the effects it wants to a [`plan::Plan`]: text for the state
//! file, commands for the window manager, the audio server and the overlay
//! widget, and pauses between them. Whoever owns the process carries the
//! plan out in order.

pub mod command;
pub mod config;
pub mod decimal;
pub mod dispatch;
pub mod effect;
pub mod lines;
pub mod plan;
pub mod state;
pub mod transition;

pub use command::Command;
pub use config::VideoOutput;
pub use dispatch::{apply, run, Action};
pub use plan::{Plan, Step};
pub use state::{LoadError, State};
pub use transition::{fix_workspace_order, to_desktop, to_scaled, to_tv, to_unscaled};

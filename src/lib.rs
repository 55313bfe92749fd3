//! Watches whether a systemd service is active and renders a status line
//! each time its state is first seen or changes.
//!
//! The library holds the logic of the monitor: turning a service name into a
//! bus object path, collapsing the unit's `ActiveState` into active or not,
//! filling the status templates, and the state machine that orders the bus
//! operations. Performing those operations is left to the caller.

pub mod config;
pub mod encode;
pub mod error;
pub mod laws;
pub mod monitor;
pub mod render;

pub use config::{Config, DriverType, Profile, RenderedStatus, State};
pub use encode::{encode, unit_path};
pub use error::{Error, Operation};
pub use monitor::{is_active_state, Action, Command, Event, Monitor, Phase};
pub use render::render_template;

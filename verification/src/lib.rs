//! Infers the operational state of a motorized garage door from two binary
//! position sensors.
//!
//! The core is a deterministic pipeline, driven once per polling cycle:
//! raw sensor levels are debounced ([`reed_switch`]), the two stable readings
//! are combined into a door position, a watchdog may override that position
//! when a transitioning state has persisted too long, and a pure state
//! machine ([`state_machine`]) maps (state, position) to the next state
//! ([`garage_door_controller`]). Inbound open/close command tokens are parsed
//! and handed over through a single-slot holder ([`command`]).
//!
//! Time is an explicit input everywhere (a monotonic clock in microseconds),
//! so every component is deterministic in its arguments.

pub mod command;
pub mod garage_door_controller;
pub mod reed_switch;
pub mod state_machine;

pub use state_machine::GDStateMachine;

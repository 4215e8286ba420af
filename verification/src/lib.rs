//! The runtime core of a terminal user interface: the rule that turns
//! raw terminal notifications and render ticks into one ordered stream
//! of events, and the navigation state of a focus-aware list component.
//!
//! Every function here is a pure decision: it takes plain values and
//! returns the next state together with the effects that the surrounding
//! program has to perform.

pub mod action;
pub mod components;
pub mod effect;
pub mod event;
pub mod message_entry;
pub mod text;
pub mod tui_backend;
pub mod user;

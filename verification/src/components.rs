//! The stateful, focus-aware units that each own one screen region.

pub mod chat_list_window;
pub mod component_traits;
pub mod list_state;
pub mod selection;

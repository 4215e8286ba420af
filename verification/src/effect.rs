//! Effects: what a component asks the surrounding program to do.
//!
//! A component never performs I/O itself. Each of its operations returns
//! the effects it decided on, in the order in which they are to be
//! performed; none of them is awaited and none can report a failure back.

use crate::action::Action;
use crate::event::Event;
use crate::user::User;
use vstd::prelude::*;

verus! {

/// One thing that the surrounding program has to do for a component.
#[derive(Debug, Clone, Copy, PartialEq, Eq, Hash)]
pub enum Effect {
    /// Make this chat the session's open chat: store its identifier and
    /// its user, and forget the messages of the chat that was open.
    OpenChat { chat_id: i64, user: Option<User> },
    /// Deliver this command to every component.
    Command(Action),
    /// Send this request to the backend.
    Request(Event),
}

} // verus!

//! What the interface reads of a message.

use vstd::prelude::*;

verus! {

/// A message, as far as a list row shows one.
#[derive(Debug, Clone, PartialEq, Eq, Hash)]
pub struct MessageEntry {
    /// When the message was sent, in seconds since the epoch.
    pub timestamp: i32,
    /// The text of the message, line by line.
    pub content: Vec<String>,
}

} // verus!

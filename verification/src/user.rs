//! What the interface reads of a chat partner.

use vstd::prelude::*;

verus! {

/// When a user was last seen.
#[derive(Debug, Clone, Copy, PartialEq, Eq, Hash)]
pub enum UserStatus {
    /// Nothing is known.
    Empty,
    /// The user is online.
    Online,
    /// The user is offline.
    Offline,
    /// The user was online recently.
    Recently,
    /// The user was online within the last week.
    LastWeek,
    /// The user was online within the last month.
    LastMonth,
}

/// A chat partner, as far as the interface shows one.
#[derive(Debug, Clone, Copy, PartialEq, Eq, Hash)]
pub struct User {
    /// The backend's identifier of the user.
    pub id: i64,
    /// When the user was last seen.
    pub status: UserStatus,
    /// Whether the backend vouches for the user's identity.
    pub is_verified: bool,
}

} // verus!

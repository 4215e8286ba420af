//! Commands: intents to change the state of the interface.

use vstd::prelude::*;

verus! {

/// The identity of a component, fixed for the whole session.
#[derive(Debug, Clone, Copy, PartialEq, Eq, Hash)]
pub enum ComponentName {
    /// The list of chats.
    ChatList,
    /// The messages of the open chat.
    Chat,
    /// The input line in which a message is written.
    Prompt,
}

/// An intent to change the state of the interface. Every component
/// receives every action and ignores the ones it has no use for.
#[derive(Debug, Clone, Copy, PartialEq, Eq, Hash)]
pub enum Action {
    /// Move the cursor of the chat list one row down.
    ChatListNext,
    /// Move the cursor of the chat list one row up.
    ChatListPrevious,
    /// Remove the cursor from the chat list.
    ChatListUnselect,
    /// Open the chat under the cursor.
    ChatListOpen,
    /// Hand the focus to the named component.
    FocusComponent(ComponentName),
    /// End the session.
    Quit,
}

} // verus!

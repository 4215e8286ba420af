//! Events: what happened outside, or inside the runtime itself.
//!
//! The terminal's notifications are held here as plain values, so that
//! the rules that read them can be stated and proved.

use vstd::prelude::*;

verus! {

/// A media key.
#[derive(Debug, Clone, Copy, PartialEq, Eq, Hash)]
pub enum MediaKeyCode {
    Play,
    Pause,
    PlayPause,
    Reverse,
    Stop,
    FastForward,
    Rewind,
    TrackNext,
    TrackPrevious,
    Record,
    LowerVolume,
    RaiseVolume,
    MuteVolume,
}

/// A modifier key pressed on its own.
#[derive(Debug, Clone, Copy, PartialEq, Eq, Hash)]
pub enum ModifierKeyCode {
    LeftShift,
    LeftControl,
    LeftAlt,
    LeftSuper,
    LeftHyper,
    LeftMeta,
    RightShift,
    RightControl,
    RightAlt,
    RightSuper,
    RightHyper,
    RightMeta,
    IsoLevel3Shift,
    IsoLevel5Shift,
}

/// The key that a keyboard notification is about.
#[derive(Debug, Clone, Copy, PartialEq, Eq, Hash)]
pub enum KeyCode {
    Backspace,
    Enter,
    Left,
    Right,
    Up,
    Down,
    Home,
    End,
    PageUp,
    PageDown,
    Tab,
    BackTab,
    Delete,
    Insert,
    /// A function key, by its number.
    F(u8),
    /// A character key.
    Char(char),
    Null,
    Esc,
    CapsLock,
    ScrollLock,
    NumLock,
    PrintScreen,
    Pause,
    Menu,
    KeypadBegin,
    Media(MediaKeyCode),
    Modifier(ModifierKeyCode),
}

/// The transition that a keyboard notification reports.
#[derive(Debug, Clone, Copy, PartialEq, Eq, Hash)]
pub enum KeyEventKind {
    /// The key went down.
    Press,
    /// The key is held and repeats.
    Repeat,
    /// The key went up.
    Release,
}

/// A keyboard notification.
#[derive(Debug, Clone, Copy, PartialEq, Eq, Hash)]
pub struct KeyEvent {
    /// The key itself.
    pub code: KeyCode,
    /// The modifiers held with it, one bit each.
    pub modifiers: u8,
    /// Whether the key went down, repeats or went up.
    pub kind: KeyEventKind,
    /// The keyboard's lock state, one bit each.
    pub state: u8,
}

/// A button of the pointer.
#[derive(Debug, Clone, Copy, PartialEq, Eq, Hash)]
pub enum MouseButton {
    Left,
    Right,
    Middle,
}

/// What the pointer did.
#[derive(Debug, Clone, Copy, PartialEq, Eq, Hash)]
pub enum MouseEventKind {
    Down(MouseButton),
    Up(MouseButton),
    Drag(MouseButton),
    Moved,
    ScrollDown,
    ScrollUp,
    ScrollLeft,
    ScrollRight,
}

/// A pointer notification.
#[derive(Debug, Clone, Copy, PartialEq, Eq, Hash)]
pub struct MouseEvent {
    /// What the pointer did.
    pub kind: MouseEventKind,
    /// The column of the cell under the pointer.
    pub column: u16,
    /// The row of the cell under the pointer.
    pub row: u16,
    /// The modifiers held meanwhile, one bit each.
    pub modifiers: u8,
}

/// One raw notification of the terminal.
#[derive(Debug, Clone, PartialEq, Eq, Hash)]
pub enum TerminalEvent {
    /// The terminal got the input focus.
    FocusGained,
    /// The terminal lost the input focus.
    FocusLost,
    /// A key changed.
    Key(KeyEvent),
    /// The pointer did something.
    Mouse(MouseEvent),
    /// Text was pasted.
    Paste(String),
    /// The terminal now has this many columns and rows.
    Resize(u16, u16),
}

/// Which of the backend's chat lists a request is about.
#[derive(Debug, Clone, Copy, PartialEq, Eq, Hash)]
pub enum ChatList {
    /// The main list.
    Main,
    /// The archive.
    Archive,
    /// The folder with the given identifier.
    Folder(i32),
}

/// One occurrence that the main loop has to react to. An event is never
/// changed once it is made.
#[derive(Debug, Clone, Copy, PartialEq, Eq, Hash)]
pub enum Event {
    /// The event stream has started.
    Init,
    /// The reserved quit key went down.
    Quit,
    /// A key went down.
    Key(KeyEvent),
    /// The pointer did something.
    Mouse(MouseEvent),
    /// The terminal now has this many columns and rows.
    Resize(u16, u16),
    /// A frame is due.
    Render,
    /// Ask the backend for this many more chats of a list.
    LoadChats(ChatList, i32),
    /// Ask the backend for the messages of the open chat.
    GetChatHistory,
    /// Ask the backend to mark the messages of the open chat as read.
    ViewAllMessages,
}

} // verus!

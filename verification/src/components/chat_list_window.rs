//! The chat list: a navigable list of chats with a cursor.

use crate::action::{Action, ComponentName};
use crate::components::component_traits::{Component, HandleFocus};
use crate::components::list_state::{list_state_selected, new_list_state, select_row, selected_row};
use crate::components::selection::{
    clamp_cursor, clamp_selection, cursor, cursor_valid, next_cursor, next_selection, on_midpoint,
    previous_cursor, previous_selection, selection_on_midpoint,
};
use crate::effect::Effect;
use crate::event::{ChatList, Event};
use crate::message_entry::MessageEntry;
use crate::text::{signed_decimal, signed_decimal_string};
use crate::user::{User, UserStatus};
use ratatui::widgets::ListState;
use vstd::prelude::*;

verus! {

/// How many more chats one prefetch asks the backend for.
pub const LOAD_CHATS_LIMIT: i32 = 20;

/// One row of the chat list.
#[derive(Debug, Clone, PartialEq, Eq)]
pub struct ChatListEntry {
    chat_id: i64,
    chat_name: String,
    last_message: Option<MessageEntry>,
    user: Option<User>,
    is_marked_as_unread: bool,
    unread_count: i32,
    /// Identifier of the last read incoming message
    last_read_inbox_message_id: Option<i64>,
    /// Identifier of the last read outgoing message
    last_read_outbox_message_id: Option<i64>,
}

/// What a row of the chat list holds.
pub struct ChatListEntryView {
    pub chat_id: i64,
    pub chat_name: Seq<char>,
    pub last_message: Option<MessageEntry>,
    pub user: Option<User>,
    pub is_marked_as_unread: bool,
    pub unread_count: i32,
    pub last_read_inbox_message_id: Option<i64>,
    pub last_read_outbox_message_id: Option<i64>,
}

impl View for ChatListEntry {
    type V = ChatListEntryView;

    closed spec fn view(&self) -> ChatListEntryView {
        ChatListEntryView {
            chat_id: self.chat_id,
            chat_name: self.chat_name@,
            last_message: self.last_message,
            user: self.user,
            is_marked_as_unread: self.is_marked_as_unread,
            unread_count: self.unread_count,
            last_read_inbox_message_id: self.last_read_inbox_message_id,
            last_read_outbox_message_id: self.last_read_outbox_message_id,
        }
    }
}

/// The row that [`ChatListEntry::new`] makes: chat 0 without a name, a
/// message or a user, read, with nothing counted.
pub open spec fn empty_entry() -> ChatListEntryView {
    ChatListEntryView {
        chat_id: 0,
        chat_name: Seq::empty(),
        last_message: None,
        user: None,
        is_marked_as_unread: false,
        unread_count: 0,
        last_read_inbox_message_id: None,
        last_read_outbox_message_id: None,
    }
}

impl Default for ChatListEntry {
    fn default() -> (entry: Self)
        ensures
            entry@ == empty_entry(),
    {
        Self::new()
    }
}

impl ChatListEntry {
    pub fn new() -> (entry: Self)
        ensures
            entry@ == empty_entry(),
    {
        Self {
            chat_id: 0,
            chat_name: String::new(),
            last_message: None,
            user: None,
            is_marked_as_unread: false,
            unread_count: 0,
            last_read_inbox_message_id: None,
            last_read_outbox_message_id: None,
        }
    }

    pub fn set_chat_id(&mut self, chat_id: i64)
        ensures
            final(self)@ == (ChatListEntryView { chat_id, ..old(self)@ }),
    {
        self.chat_id = chat_id;
    }

    pub fn set_chat_name(&mut self, chat_name: String)
        ensures
            final(self)@ == (ChatListEntryView { chat_name: chat_name@, ..old(self)@ }),
    {
        self.chat_name = chat_name;
    }

    pub fn set_last_message(&mut self, last_message: MessageEntry)
        ensures
            final(self)@ == (ChatListEntryView { last_message: Some(last_message), ..old(self)@ }),
    {
        self.last_message = Some(last_message);
    }

    pub fn set_user(&mut self, user: User)
        ensures
            final(self)@ == (ChatListEntryView { user: Some(user), ..old(self)@ }),
    {
        self.user = Some(user);
    }

    pub fn set_is_marked_as_unread(&mut self, is_marked_as_unread: bool)
        ensures
            final(self)@ == (ChatListEntryView { is_marked_as_unread, ..old(self)@ }),
    {
        self.is_marked_as_unread = is_marked_as_unread;
    }

    pub fn set_unread_count(&mut self, unread_count: i32)
        ensures
            final(self)@ == (ChatListEntryView { unread_count, ..old(self)@ }),
    {
        self.unread_count = unread_count;
    }

    pub fn set_last_read_inbox_message_id(&mut self, last_read_inbox_message_id: i64)
        ensures
            final(self)@ == (ChatListEntryView {
                last_read_inbox_message_id: Some(last_read_inbox_message_id),
                ..old(self)@
            }),
    {
        self.last_read_inbox_message_id = Some(last_read_inbox_message_id);
    }

    pub fn set_last_read_outbox_message_id(&mut self, last_read_outbox_message_id: i64)
        ensures
            final(self)@ == (ChatListEntryView {
                last_read_outbox_message_id: Some(last_read_outbox_message_id),
                ..old(self)@
            }),
    {
        self.last_read_outbox_message_id = Some(last_read_outbox_message_id);
    }
}

/// The sign shown before the name of a chat whose user is online.
pub open spec fn online_symbol(user: Option<User>) -> Seq<char> {
    match user {
        Some(u) => if u.status is Online {
            "\u{1F7E2} "@
        } else {
            Seq::empty()
        },
        None => Seq::empty(),
    }
}

/// The sign shown for a chat whose user the backend vouches for.
pub open spec fn verificated_symbol(user: Option<User>) -> Seq<char> {
    match user {
        Some(u) => if u.is_verified {
            "\u{2705}"@
        } else {
            Seq::empty()
        },
        None => Seq::empty(),
    }
}

/// The badge of a chat: the number of unread messages in parentheses if
/// the chat is marked as unread, nothing otherwise.
pub open spec fn unread_info(is_marked_as_unread: bool, unread_count: i32) -> Seq<char> {
    if is_marked_as_unread {
        seq!['('] + signed_decimal(unread_count as int) + seq![')']
    } else {
        Seq::empty()
    }
}

/// The one line of a chat's last message that its row shows: the first
/// line of the message, or nothing where there is no message or the
/// message has no line.
pub open spec fn preview(last_message: Option<MessageEntry>) -> Seq<char> {
    match last_message {
        Some(message) => if message.content@.len() > 0 {
            message.content@[0]@
        } else {
            Seq::empty()
        },
        None => Seq::empty(),
    }
}

/// When a chat's last message was sent, if it has one.
pub open spec fn last_message_time(last_message: Option<MessageEntry>) -> Option<i32> {
    match last_message {
        Some(message) => Some(message.timestamp),
        None => None,
    }
}

/// The pieces of text that make up one row of the chat list, before any
/// style is put on them.
#[derive(Debug, Clone, PartialEq, Eq)]
pub struct EntryText {
    /// The sign of an online user, or nothing.
    pub online_symbol: &'static str,
    /// The name of the chat.
    pub chat_name: String,
    /// The unread badge, or nothing.
    pub unread_info: String,
    /// The sign of a verified user, or nothing.
    pub verificated_symbol: &'static str,
    /// When the last message was sent, if there is one.
    pub timestamp: Option<i32>,
    /// The first line of the last message, or nothing.
    pub preview: String,
}

/// Whether `text` is the text of a row that holds `entry`.
pub open spec fn is_text_of(text: EntryText, entry: ChatListEntryView) -> bool {
    &&& text.online_symbol@ == online_symbol(entry.user)
    &&& text.chat_name@ == entry.chat_name
    &&& text.unread_info@ == unread_info(entry.is_marked_as_unread, entry.unread_count)
    &&& text.verificated_symbol@ == verificated_symbol(entry.user)
    &&& text.timestamp == last_message_time(entry.last_message)
    &&& text.preview@ == preview(entry.last_message)
}

impl ChatListEntry {
    /// The backend's identifier of the chat.
    pub fn chat_id(&self) -> (chat_id: i64)
        ensures
            chat_id == self@.chat_id,
    {
        self.chat_id
    }

    /// The name of the chat.
    pub fn chat_name(&self) -> (chat_name: &String)
        ensures
            chat_name@ == self@.chat_name,
    {
        &self.chat_name
    }

    /// The last message of the chat, if it has one.
    pub fn last_message(&self) -> (last_message: &Option<MessageEntry>)
        ensures
            *last_message == self@.last_message,
    {
        &self.last_message
    }

    /// The user that the chat is with, if it is with one.
    pub fn user(&self) -> (user: Option<User>)
        ensures
            user == self@.user,
    {
        self.user
    }

    /// Whether the chat is marked as unread.
    pub fn is_marked_as_unread(&self) -> (is_marked_as_unread: bool)
        ensures
            is_marked_as_unread == self@.is_marked_as_unread,
    {
        self.is_marked_as_unread
    }

    /// The number of unread messages in the chat.
    pub fn unread_count(&self) -> (unread_count: i32)
        ensures
            unread_count == self@.unread_count,
    {
        self.unread_count
    }

    /// Identifier of the last read incoming message
    pub fn last_read_inbox_message_id(&self) -> (id: Option<i64>)
        ensures
            id == self@.last_read_inbox_message_id,
    {
        self.last_read_inbox_message_id
    }

    /// Identifier of the last read outgoing message
    pub fn last_read_outbox_message_id(&self) -> (id: Option<i64>)
        ensures
            id == self@.last_read_outbox_message_id,
    {
        self.last_read_outbox_message_id
    }

    /// Derives the text of the row from what the entry holds: the status
    /// sign, the name, the unread badge, the verification sign, the time
    /// of the last message and its first line.
    pub fn get_text(&self) -> (text: EntryText)
        ensures
            is_text_of(text, self@),
    {
        proof {
            reveal_strlit("");
            reveal_strlit("(");
            reveal_strlit(")");
        }
        let mut online = "";
        let mut verificated = "";
        if let Some(user) = &self.user {
            online = match user.status {
                UserStatus::Online => "\u{1F7E2} ",
                UserStatus::Offline => "",
                UserStatus::Empty => "",
                UserStatus::Recently => "",
                UserStatus::LastWeek => "",
                UserStatus::LastMonth => "",
            };
            verificated = if user.is_verified {
                "\u{2705}"
            } else {
                ""
            };
        }
        let badge = if self.is_marked_as_unread {
            let mut badge = String::from_str("(");
            let count = signed_decimal_string(self.unread_count);
            badge.append(count.as_str());
            badge.append(")");
            badge
        } else {
            String::new()
        };
        let mut timestamp = None;
        let mut first_line = String::new();
        if let Some(message) = &self.last_message {
            timestamp = Some(message.timestamp);
            if message.content.len() > 0 {
                first_line = message.content[0].clone();
            }
        }
        assert(online@ =~= online_symbol(self@.user));
        assert(verificated@ =~= verificated_symbol(self@.user));
        assert(badge@ =~= unread_info(self@.is_marked_as_unread, self@.unread_count));
        EntryText {
            online_symbol: online,
            chat_name: self.chat_name.clone(),
            unread_info: badge,
            verificated_symbol: verificated,
            timestamp,
            preview: first_line,
        }
    }
}

/// The request for more chats that the cursor sends ahead when it gets
/// to the midpoint of the list.
pub open spec fn prefetch_request() -> Effect {
    Effect::Request(Event::LoadChats(ChatList::Main, LOAD_CHATS_LIMIT))
}

/// What a step down asks for: one prefetch if the step ended on the
/// midpoint row of a list of `len` rows, nothing otherwise.
pub open spec fn next_effects(moved: Option<int>, len: int) -> Seq<Effect> {
    if on_midpoint(moved, len) {
        seq![prefetch_request()]
    } else {
        Seq::empty()
    }
}

/// What opening the chat under the cursor asks for. With the cursor on a
/// row of the list: first make that chat the open one, then hand the
/// focus to the prompt, then fetch the chat's messages, then mark them
/// as read. Without such a row: nothing.
pub open spec fn confirm_effects(c: Option<int>, entries: Seq<ChatListEntry>) -> Seq<Effect> {
    match c {
        Some(i) => if 0 <= i < entries.len() {
            seq![
                Effect::OpenChat { chat_id: entries[i]@.chat_id, user: entries[i]@.user },
                Effect::Command(Action::FocusComponent(ComponentName::Prompt)),
                Effect::Request(Event::GetChatHistory),
                Effect::Request(Event::ViewAllMessages),
            ]
        } else {
            Seq::empty()
        },
        None => Seq::empty(),
    }
}

/// The window that shows the list of chats and moves a cursor over it.
pub struct ChatListWindow {
    /// The name of the `ChatListWindow`.
    name: String,
    /// A list of chat items to be displayed in the `ChatListWindow`.
    chat_list: Vec<ChatListEntry>,
    /// The state of the list.
    chat_list_state: ListState,
    /// Indicates whether the `ChatListWindow` is focused or not.
    focused: bool,
}

impl ChatListWindow {
    /// The title of the window.
    pub closed spec fn title(&self) -> Seq<char> {
        self.name@
    }

    /// The rows of the list, top to bottom.
    pub closed spec fn entries(&self) -> Seq<ChatListEntry> {
        self.chat_list@
    }

    /// The cursor: the index of the selected row, if one is selected.
    pub closed spec fn selection(&self) -> Option<int> {
        cursor(list_state_selected(self.chat_list_state))
    }

    /// The state that the list widget is drawn with.
    pub closed spec fn list_state(&self) -> ListState {
        self.chat_list_state
    }

    /// Whether the window holds the focus.
    pub closed spec fn has_focus(&self) -> bool {
        self.focused
    }

    /// The window's invariant: the cursor, if set, is on a row of the
    /// list.
    pub open spec fn wf(&self) -> bool {
        cursor_valid(self.selection(), self.entries().len() as int)
    }

    /// Whether `other` differs from this window in nothing but what the
    /// list widget's state holds.
    pub open spec fn same_but_list_state(&self, other: &Self) -> bool {
        &&& other.title() == self.title()
        &&& other.entries() == self.entries()
        &&& other.has_focus() == self.has_focus()
    }

    /// Create a new instance of the `ChatListWindow` struct: without a
    /// name, without rows, without a cursor and without the focus.
    pub fn new() -> (window: Self)
        ensures
            window.title() == Seq::<char>::empty(),
            window.entries() == Seq::<ChatListEntry>::empty(),
            window.selection() is None,
            !window.has_focus(),
            window.wf(),
    {
        ChatListWindow {
            name: String::new(),
            chat_list: Vec::new(),
            chat_list_state: new_list_state(),
            focused: false,
        }
    }

    /// Set the name of the `ChatListWindow`.
    pub fn with_name(self, name: &str) -> (window: Self)
        ensures
            window.title() == name@,
            window.entries() == self.entries(),
            window.list_state() == self.list_state(),
            window.selection() == self.selection(),
            window.has_focus() == self.has_focus(),
    {
        let mut window = self;
        window.name = name.to_owned();
        window
    }

    /// Select the next chat item in the list.
    ///
    /// The cursor goes one row down, see [`next_cursor`]. If that takes
    /// it to the midpoint of the list, more chats are asked for.
    pub fn next(&mut self) -> (effects: Vec<Effect>)
        ensures
            old(self).same_but_list_state(final(self)),
            final(self).selection() == next_cursor(
                old(self).selection(),
                old(self).entries().len() as int,
            ),
            final(self).wf(),
            effects@ == next_effects(final(self).selection(), old(self).entries().len() as int),
    {
        let len = self.chat_list.len();
        let moved = next_selection(selected_row(&self.chat_list_state), len);
        let mut effects = Vec::new();
        if selection_on_midpoint(moved, len) {
            effects.push(Effect::Request(Event::LoadChats(ChatList::Main, LOAD_CHATS_LIMIT)));
        }
        select_row(&mut self.chat_list_state, moved);
        effects
    }

    /// Select the previous chat item in the list.
    ///
    /// The cursor goes one row up, see [`previous_cursor`].
    pub fn previous(&mut self)
        ensures
            old(self).same_but_list_state(final(self)),
            final(self).selection() == previous_cursor(
                old(self).selection(),
                old(self).entries().len() as int,
            ),
            final(self).wf(),
    {
        let len = self.chat_list.len();
        let moved = previous_selection(selected_row(&self.chat_list_state), len);
        select_row(&mut self.chat_list_state, moved);
    }

    /// Unselect the chat item in the list.
    pub fn unselect(&mut self)
        ensures
            old(self).same_but_list_state(final(self)),
            final(self).selection() is None,
            final(self).wf(),
    {
        select_row(&mut self.chat_list_state, None);
    }

    /// Confirm the selection of the chat item in the list.
    ///
    /// Changes nothing; the answer is what has to be done to open the
    /// chat under the cursor, see [`confirm_effects`].
    pub fn confirm_selection(&self) -> (effects: Vec<Effect>)
        ensures
            effects@ == confirm_effects(self.selection(), self.entries()),
    {
        let mut effects = Vec::new();
        if let Some(i) = selected_row(&self.chat_list_state) {
            if i < self.chat_list.len() {
                let chat = &self.chat_list[i];
                effects.push(Effect::OpenChat { chat_id: chat.chat_id, user: chat.user });
                effects.push(Effect::Command(Action::FocusComponent(ComponentName::Prompt)));
                effects.push(Effect::Request(Event::GetChatHistory));
                effects.push(Effect::Request(Event::ViewAllMessages));
            }
        }
        effects
    }

    /// Takes in what the backend answered when asked for the list of
    /// chats, as every frame does before it draws.
    ///
    /// An answer that holds a list replaces the rows wholesale. Any
    /// other answer, be it "not ready yet" or a failure, leaves the rows
    /// as they are. Either way the cursor is then brought back into the
    /// list, see [`clamp_cursor`].
    pub fn refresh<E>(&mut self, fetched: Result<Option<Vec<ChatListEntry>>, E>)
        ensures
            final(self).title() == old(self).title(),
            final(self).has_focus() == old(self).has_focus(),
            final(self).entries() == match fetched {
                Ok(Some(items)) => items@,
                _ => old(self).entries(),
            },
            final(self).selection() == clamp_cursor(
                old(self).selection(),
                final(self).entries().len() as int,
            ),
            final(self).wf(),
    {
        match fetched {
            Ok(Some(items)) => {
                self.chat_list = items;
            },
            _ => {},
        }
        let clamped = clamp_selection(selected_row(&self.chat_list_state), self.chat_list.len());
        select_row(&mut self.chat_list_state, clamped);
    }

    /// The name of the `ChatListWindow`.
    pub fn name(&self) -> (name: &String)
        ensures
            name@ == self.title(),
    {
        &self.name
    }

    /// The rows of the list, top to bottom.
    pub fn chat_list(&self) -> (chat_list: &Vec<ChatListEntry>)
        ensures
            chat_list@ == self.entries(),
    {
        &self.chat_list
    }

    /// The index of the selected row, if one is selected.
    pub fn selected(&self) -> (selected: Option<usize>)
        ensures
            cursor(selected) == self.selection(),
    {
        selected_row(&self.chat_list_state)
    }

    /// Whether the window holds the focus.
    pub fn is_focused(&self) -> (focused: bool)
        ensures
            focused == self.has_focus(),
    {
        self.focused
    }

    /// Derives the text of every row, top to bottom: see
    /// [`ChatListEntry::get_text`].
    pub fn rows(&self) -> (rows: Vec<EntryText>)
        ensures
            rows@.len() == self.entries().len(),
            forall|i: int|
                0 <= i < rows@.len() ==> is_text_of(#[trigger] rows@[i], self.entries()[i]@),
    {
        let mut rows: Vec<EntryText> = Vec::new();
        let mut i: usize = 0;
        while i < self.chat_list.len()
            invariant
                i <= self.chat_list.len(),
                rows@.len() == i,
                forall|j: int| 0 <= j < i ==> is_text_of(#[trigger] rows@[j], self.chat_list@[j]@),
            decreases self.chat_list.len() - i,
        {
            rows.push(self.chat_list[i].get_text());
            i += 1;
        }
        rows
    }

    /// Lends out the state that the list widget is drawn with. The
    /// widget may change it while it draws; nothing else of the window
    /// changes.
    pub fn list_state_mut(&mut self) -> (state: &mut ListState)
        ensures
            *state == old(self).list_state(),
            final(self).list_state() == *final(state),
            final(self).selection() == cursor(list_state_selected(*final(state))),
            old(self).same_but_list_state(final(self)),
    {
        &mut self.chat_list_state
    }
}

/// Implement the `HandleFocus` trait for the `ChatListWindow` struct.
/// This trait allows the `ChatListWindow` to be focused or unfocused.
impl HandleFocus for ChatListWindow {
    open spec fn focused(&self) -> bool {
        self.has_focus()
    }

    /// Set the `focused` flag for the `ChatListWindow`.
    fn focus(&mut self)
        ensures
            final(self).title() == old(self).title(),
            final(self).entries() == old(self).entries(),
            final(self).list_state() == old(self).list_state(),
            final(self).selection() == old(self).selection(),
    {
        self.focused = true;
    }

    /// Clear the `focused` flag for the `ChatListWindow`.
    fn unfocus(&mut self)
        ensures
            final(self).title() == old(self).title(),
            final(self).entries() == old(self).entries(),
            final(self).list_state() == old(self).list_state(),
            final(self).selection() == old(self).selection(),
    {
        self.focused = false;
    }
}

/// The cursor that an action leaves behind, over a list of `len` rows.
pub open spec fn selection_after(action: Action, c: Option<int>, len: int) -> Option<int> {
    match action {
        Action::ChatListNext => next_cursor(c, len),
        Action::ChatListPrevious => previous_cursor(c, len),
        Action::ChatListUnselect => None,
        _ => c,
    }
}

/// The effects that an action has on a window with cursor `c` over
/// `entries`.
pub open spec fn effects_of(action: Action, c: Option<int>, entries: Seq<ChatListEntry>) -> Seq<
    Effect,
> {
    match action {
        Action::ChatListNext => next_effects(
            next_cursor(c, entries.len() as int),
            entries.len() as int,
        ),
        Action::ChatListOpen => confirm_effects(c, entries),
        _ => Seq::empty(),
    }
}

/// Implement the `Component` trait for the `ChatListWindow` struct.
impl Component for ChatListWindow {
    /// Handles one action: the four that are addressed to the chat list
    /// move or read the cursor, every other one is ignored.
    fn update(&mut self, action: Action) -> (effects: Vec<Effect>)
        ensures
            old(self).same_but_list_state(final(self)),
            final(self).selection() == selection_after(
                action,
                old(self).selection(),
                old(self).entries().len() as int,
            ),
            effects@ == effects_of(action, old(self).selection(), old(self).entries()),
            !(action is ChatListNext || action is ChatListPrevious || action is ChatListUnselect)
                ==> final(self).list_state() == old(self).list_state(),
            old(self).wf() ==> final(self).wf(),
    {
        match action {
            Action::ChatListNext => self.next(),
            Action::ChatListPrevious => {
                self.previous();
                Vec::new()
            },
            Action::ChatListUnselect => {
                self.unselect();
                Vec::new()
            },
            Action::ChatListOpen => self.confirm_selection(),
            _ => Vec::new(),
        }
    }
}

} // verus!

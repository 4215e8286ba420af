use tgt_core::components::chat_list_window::{ChatListEntry, EntryText};
use tgt_core::message_entry::MessageEntry;
use tgt_core::text::{decimal_string, signed_decimal_string};
use tgt_core::user::{User, UserStatus};

fn user(status: UserStatus, is_verified: bool) -> User {
    User { id: 1, status, is_verified }
}

#[test]
fn new_entry_is_empty() {
    let entry = ChatListEntry::new();
    assert_eq!(entry.chat_id(), 0);
    assert_eq!(entry.chat_name(), "");
    assert_eq!(*entry.last_message(), None);
    assert_eq!(entry.user(), None);
    assert!(!entry.is_marked_as_unread());
    assert_eq!(entry.unread_count(), 0);
    assert_eq!(entry.last_read_inbox_message_id(), None);
    assert_eq!(entry.last_read_outbox_message_id(), None);
}

#[test]
fn default_entry_is_the_new_entry() {
    assert_eq!(ChatListEntry::default(), ChatListEntry::new());
}

#[test]
fn setters_change_their_own_field() {
    let mut entry = ChatListEntry::new();
    entry.set_chat_id(-42);
    entry.set_chat_name("Ada".to_string());
    entry.set_is_marked_as_unread(true);
    entry.set_unread_count(3);
    entry.set_last_read_inbox_message_id(11);
    entry.set_last_read_outbox_message_id(12);
    let message = MessageEntry { timestamp: 1700000000, content: vec!["hi".to_string()] };
    entry.set_last_message(message.clone());
    let ada = user(UserStatus::Recently, true);
    entry.set_user(ada);
    assert_eq!(entry.chat_id(), -42);
    assert_eq!(entry.chat_name(), "Ada");
    assert!(entry.is_marked_as_unread());
    assert_eq!(entry.unread_count(), 3);
    assert_eq!(entry.last_read_inbox_message_id(), Some(11));
    assert_eq!(entry.last_read_outbox_message_id(), Some(12));
    assert_eq!(*entry.last_message(), Some(message));
    assert_eq!(entry.user(), Some(ada));
}

#[test]
fn a_setter_leaves_the_other_fields_alone() {
    let mut entry = ChatListEntry::new();
    entry.set_chat_id(5);
    entry.set_unread_count(9);
    let before = entry.clone();
    entry.set_chat_name("Bob".to_string());
    assert_eq!(entry.chat_id(), before.chat_id());
    assert_eq!(entry.unread_count(), before.unread_count());
    assert_eq!(entry.user(), before.user());
    assert_ne!(entry, before);
}

#[test]
fn text_of_an_empty_entry_is_empty() {
    let text = ChatListEntry::new().get_text();
    assert_eq!(
        text,
        EntryText {
            online_symbol: "",
            chat_name: String::new(),
            unread_info: String::new(),
            verificated_symbol: "",
            timestamp: None,
            preview: String::new(),
        }
    );
}

#[test]
fn online_user_gets_the_green_sign() {
    let mut entry = ChatListEntry::new();
    entry.set_user(user(UserStatus::Online, false));
    let text = entry.get_text();
    assert_eq!(text.online_symbol, "🟢 ");
    assert_eq!(text.verificated_symbol, "");
}

#[test]
fn any_other_status_gets_no_sign() {
    for status in [
        UserStatus::Empty,
        UserStatus::Offline,
        UserStatus::Recently,
        UserStatus::LastWeek,
        UserStatus::LastMonth,
    ] {
        let mut entry = ChatListEntry::new();
        entry.set_user(user(status, false));
        assert_eq!(entry.get_text().online_symbol, "");
    }
}

#[test]
fn verified_user_gets_the_check_sign() {
    let mut entry = ChatListEntry::new();
    entry.set_user(user(UserStatus::Offline, true));
    let text = entry.get_text();
    assert_eq!(text.verificated_symbol, "✅");
    assert_eq!(text.online_symbol, "");
}

#[test]
fn unread_badge_shows_the_count_in_parentheses() {
    let mut entry = ChatListEntry::new();
    entry.set_is_marked_as_unread(true);
    entry.set_unread_count(5);
    assert_eq!(entry.get_text().unread_info, "(5)");
    entry.set_unread_count(0);
    assert_eq!(entry.get_text().unread_info, "(0)");
    entry.set_unread_count(1234);
    assert_eq!(entry.get_text().unread_info, "(1234)");
    entry.set_unread_count(-3);
    assert_eq!(entry.get_text().unread_info, "(-3)");
}

#[test]
fn unread_badge_is_hidden_unless_marked() {
    let mut entry = ChatListEntry::new();
    entry.set_unread_count(5);
    assert_eq!(entry.get_text().unread_info, "");
}

#[test]
fn unread_badge_agrees_with_the_standard_formatting() {
    for count in [0, 1, 9, 10, 11, 99, 100, 101, 4096, 1_000_000, i32::MAX, -1, -10, i32::MIN] {
        let mut entry = ChatListEntry::new();
        entry.set_is_marked_as_unread(true);
        entry.set_unread_count(count);
        assert_eq!(entry.get_text().unread_info, format!("({})", count));
    }
}

#[test]
fn preview_is_the_first_line_of_the_last_message() {
    let mut entry = ChatListEntry::new();
    entry.set_chat_name("Ada".to_string());
    entry.set_last_message(MessageEntry {
        timestamp: 1700000000,
        content: vec!["first line".to_string(), "second line".to_string()],
    });
    let text = entry.get_text();
    assert_eq!(text.chat_name, "Ada");
    assert_eq!(text.timestamp, Some(1700000000));
    assert_eq!(text.preview, "first line");
}

#[test]
fn preview_of_a_message_without_lines_is_empty() {
    let mut entry = ChatListEntry::new();
    entry.set_last_message(MessageEntry { timestamp: 5, content: Vec::new() });
    let text = entry.get_text();
    assert_eq!(text.timestamp, Some(5));
    assert_eq!(text.preview, "");
}

#[test]
fn decimal_string_writes_digits_without_leading_zeros() {
    assert_eq!(decimal_string(0), "0");
    assert_eq!(decimal_string(7), "7");
    assert_eq!(decimal_string(10), "10");
    assert_eq!(decimal_string(305), "305");
    assert_eq!(decimal_string(u32::MAX), "4294967295");
}

#[test]
fn signed_decimal_string_puts_a_minus_before_negative_numbers() {
    assert_eq!(signed_decimal_string(0), "0");
    assert_eq!(signed_decimal_string(42), "42");
    assert_eq!(signed_decimal_string(-42), "-42");
    assert_eq!(signed_decimal_string(i32::MAX), "2147483647");
    assert_eq!(signed_decimal_string(i32::MIN), "-2147483648");
}

#[test]
fn decimal_string_agrees_with_the_standard_formatting() {
    let mut n: u32 = 1;
    for _ in 0..200 {
        assert_eq!(decimal_string(n), format!("{}", n));
        n = n.wrapping_mul(1664525).wrapping_add(1013904223);
    }
}

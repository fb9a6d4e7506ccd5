use weixin::chat::ChatArea;
use weixin::clock::{now_millis, timestamp_of, TIMESTAMP_BOUND_MS};
use weixin::events::ChatAreaEvent;
use weixin::main_window::{handle_chat_area_event, session_list_for, MainWindowStep};
use weixin::models::{ChatSession, Contact, Message};
use weixin::store::{ChatStore, ChatStoreEvent};
use weixin::time::format_time_friendly;
use weixin::widgets::{session_row_text, unread_badge, ChatToolbar, UNREAD_BADGE_MAX};

#[test]
fn clock_readings_become_timestamps() {
    assert_eq!(timestamp_of(1_700_000_000_123, false), 1_700_000_000_123);
    assert_eq!(timestamp_of(5_000, true), -5_000);
    assert_eq!(timestamp_of(0, true), 0);
    assert_eq!(timestamp_of(u128::MAX, false), TIMESTAMP_BOUND_MS - 1);
    assert_eq!(timestamp_of(u128::MAX, true), -(TIMESTAMP_BOUND_MS - 1));
    let now = now_millis();
    assert!(now > 1_600_000_000_000);
}

#[test]
fn friendly_time_is_never_empty_on_the_calendar() {
    let now = now_millis();
    let shown = format_time_friendly(now);
    assert_eq!(shown.len(), 5);
    assert_eq!(shown.chars().nth(2), Some(':'));
    let old = format_time_friendly(now - 3 * 86_400_000);
    assert_eq!(old.chars().nth(2), Some('/'));
    let mut c = Contact::new("1", "a");
    c.last_message_time = Some(now);
    assert_eq!(session_row_text(&c, false).time.len(), 5);
}

#[test]
fn chat_toolbar_left_icons_in_order() {
    for group in [false, true] {
        let icons = ChatToolbar::new().is_group(group).left_icons();
        assert_eq!(icons, vec!["emoji.svg", "favorite.svg", "file.svg", "scissors.svg", "down.svg"]);
    }
}

#[test]
fn unread_badge_only_with_unread_messages() {
    let mut c = Contact::new("1", "a");
    assert_eq!(unread_badge(&c), None);
    c.unread_count = 3;
    assert_eq!(unread_badge(&c), Some(3));
    c.unread_count = 150;
    assert_eq!(unread_badge(&c), Some(150));
    assert_eq!(UNREAD_BADGE_MAX, 99);
}

#[test]
fn new_message_scrolls_only_the_matching_area() {
    let mut area = ChatArea::new();
    assert_eq!(area.handle_new_message("1", Message::at("m", "s", "S", "hi", false, 0)), None);
    area.set_session(Some(ChatSession::new(Contact::new("1", "a"))));
    assert_eq!(area.handle_new_message("2", Message::at("m", "s", "S", "hi", false, 0)), None);
    assert_eq!(area.handle_new_message("1", Message::at("m", "s", "S", "hi", false, 0)), Some(0));
    assert_eq!(area.handle_new_message("1", Message::at("n", "s", "S", "yo", false, 1)), Some(1));
}

#[test]
fn main_window_starts_with_the_store_contacts() {
    let store = ChatStore::new();
    let list = session_list_for(&store);
    assert_eq!(list.contacts().len(), store.contacts().len());
    assert_eq!(list.contacts()[0].id, store.contacts()[0].id);
    assert!(list.selected_id().is_none());
}

#[test]
fn chat_area_events_of_the_main_window() {
    let mut store = ChatStore::new();
    let mut area = ChatArea::new();
    match handle_chat_area_event(&mut store, &area, &ChatAreaEvent::InputResized) {
        MainWindowStep::SaveLayout => {}
        _ => panic!("a resize saves the layout"),
    }
    match handle_chat_area_event(&mut store, &area, &ChatAreaEvent::SendMessage("hi".to_string())) {
        MainWindowStep::Sent(None) => {}
        _ => panic!("nothing is sent without a conversation"),
    }
    let session = store.try_get_or_load_session("1").unwrap();
    area.set_session(Some(session));
    match handle_chat_area_event(&mut store, &area, &ChatAreaEvent::SendMessage("hi".to_string())) {
        MainWindowStep::Sent(Some(ChatStoreEvent::NewMessage { contact_id, message })) => {
            assert_eq!(contact_id, "1");
            assert_eq!(message.content, "hi");
            assert!(message.is_self);
        }
        _ => panic!("the message goes to the conversation shown"),
    }
}

use weixin::chat::{measure_plan, outgoing_text, send_event, ChatArea, ChatWindow, MeasurePlan};
use weixin::events::{ChatAreaEvent, SelectSession};
use weixin::main_window::{
    apply_store_event, get_current_chat_title, on_action_select_session, on_send_message,
};
use weixin::models::{ChatSession, Contact, Message};
use weixin::session_list::SessionList;
use weixin::store::ChatStore;

#[test]
fn session_list_selection() {
    let mut list = SessionList::new();
    list.set_contacts(vec![Contact::new("1", "a"), Contact::new("2", "b")]);
    assert_eq!(list.contacts().len(), 2);
    let click = list.click_session("1", 1);
    assert_eq!(click.select.contact_id, "1");
    assert!(click.open_window.is_none());
    assert!(list.is_selected("1"));
    let click = list.click_session("1", 2);
    assert_eq!(click.open_window.map(|w| w.contact_id), Some("1".to_string()));
    assert!(!list.is_selected("1"));
    assert!(list.selected_id().is_none());
    list.click_session("2", 1);
    list.set_selected(Some("1".to_string()));
    assert!(list.is_selected("1"));
}

#[test]
fn session_list_preview_update() {
    let mut list = SessionList::new();
    list.set_contacts(vec![Contact::new("1", "a"), Contact::new("2", "b"), Contact::new("1", "dup")]);
    list.update_contact_last_message_at("1", "new", 99);
    assert_eq!(list.contacts()[0].last_message.as_deref(), Some("new"));
    assert_eq!(list.contacts()[0].last_message_time, Some(99));
    assert_eq!(list.contacts()[2].last_message, None);
    list.update_contact_last_message("2", "later");
    assert_eq!(list.contacts()[1].last_message.as_deref(), Some("later"));
    list.update_contact_last_message_at("none", "x", 1);
    assert_eq!(list.contacts()[1].last_message.as_deref(), Some("later"));
}

#[test]
fn chat_area_messages() {
    let mut area = ChatArea::new();
    assert!(area.current_session().is_none());
    assert_eq!(area.add_message(Message::at("1", "u", "U", "x", false, 0)), None);
    let mut s = ChatSession::new(Contact::new("1", "a"));
    s.add_message(Message::at("1", "u", "U", "x", false, 0));
    assert_eq!(area.set_session(Some(s)), Some(0));
    assert_eq!(area.add_message(Message::at("2", "u", "U", "y", false, 0)), Some(1));
    assert_eq!(area.handle_new_message("other", Message::at("3", "u", "U", "z", false, 0)), None);
    assert_eq!(area.current_session().unwrap().messages.len(), 2);
    assert_eq!(area.handle_new_message("1", Message::at("4", "u", "U", "w", false, 0)), Some(2));
    assert_eq!(area.current_contact_id().as_deref(), Some("1"));
    assert_eq!(area.set_session(None), None);
    let empty = ChatSession::new(Contact::new("9", "z"));
    assert_eq!(area.set_session(Some(empty)), Some(0));
}

#[test]
fn chat_input_text() {
    assert_eq!(outgoing_text("  hi  ").as_deref(), Some("hi"));
    assert_eq!(outgoing_text(" \n\t "), None);
    match send_event(" ok ") {
        Some(ChatAreaEvent::SendMessage(t)) => assert_eq!(t, "ok"),
        _ => panic!("expected a message"),
    }
    assert!(send_event("").is_none());
}

#[test]
fn measuring() {
    assert_eq!(measure_plan(true, 3, 3), MeasurePlan::All);
    assert_eq!(measure_plan(false, 5, 3), MeasurePlan::From(3));
    assert_eq!(measure_plan(false, 3, 3), MeasurePlan::Nothing);
}

#[test]
fn selecting_and_sending_in_main_window() {
    let mut store = ChatStore::new();
    let mut area = ChatArea::new();
    let mut list = SessionList::new();
    list.set_contacts(store.contacts().clone());
    assert_eq!(get_current_chat_title(&area), "");
    on_action_select_session(&mut store, &mut area, &SelectSession { contact_id: "group1".to_string() });
    assert_eq!(get_current_chat_title(&area), "Rust学习小组 (156)");
    let event = on_send_message(&mut store, &area, "大家好").unwrap();
    apply_store_event(&mut list, &mut area, &event);
    let shown = area.current_session().unwrap();
    let stored = store.get_or_load_session("group1");
    assert_eq!(shown.messages.len(), stored.messages.len());
    assert_eq!(shown.messages.last().unwrap().content, "大家好");
    assert_eq!(list.contacts()[0].last_message.as_deref(), Some("大家好"));
    on_action_select_session(&mut store, &mut area, &SelectSession { contact_id: "group1".to_string() });
    assert!(area.current_session().is_none());
    assert!(on_send_message(&mut store, &area, "nobody hears").is_none());
}

#[test]
fn chat_window_follows_store() {
    let mut store = ChatStore::new();
    let mut window = ChatWindow::open(&mut store, "2");
    assert_eq!(window.chat_title, "李四");
    let mut main_area = ChatArea::new();
    on_action_select_session(&mut store, &mut main_area, &SelectSession { contact_id: "2".to_string() });
    let event = window.send(&mut store, "from window");
    window.on_store_event(&event);
    let mut list = SessionList::new();
    apply_store_event(&mut list, &mut main_area, &event);
    let a = window.chat_area.current_session().unwrap();
    let b = main_area.current_session().unwrap();
    assert_eq!(a.messages.len(), 46);
    assert_eq!(b.messages.len(), 46);
    assert_eq!(a.messages[45].id, b.messages[45].id);
    let mut other = ChatWindow::open(&mut store, "3");
    other.on_store_event(&event);
    assert_eq!(other.chat_area.current_session().unwrap().messages.len(), 45);
}

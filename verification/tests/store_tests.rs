use weixin::store::{ChatStore, ChatStoreEvent};

#[test]
fn store_starts_with_sample_contacts() {
    let store = ChatStore::new();
    assert_eq!(store.contacts().len(), 28);
    assert!(!store.is_loaded("group1"));
    assert!(store.can_open("group1"));
    assert!(!store.can_open("nobody"));
}

#[test]
fn opening_twice_gives_the_same_session() {
    let mut store = ChatStore::new();
    let first = store.get_or_load_session("1");
    assert!(store.is_loaded("1"));
    let second = store.get_or_load_session("1");
    assert_eq!(first.contact.id, "1");
    assert_eq!(first.messages.len(), 45);
    assert_eq!(second.messages.len(), first.messages.len());
    for (a, b) in first.messages.iter().zip(second.messages.iter()) {
        assert_eq!(a.id, b.id);
        assert_eq!(a.timestamp, b.timestamp);
        assert_eq!(a.content, b.content);
    }
}

#[test]
fn unknown_contact_cannot_be_opened() {
    let mut store = ChatStore::new();
    assert!(store.try_get_or_load_session("nobody").is_none());
    assert!(!store.is_loaded("nobody"));
    assert!(store.try_get_or_load_session("group2").is_some());
}

#[test]
fn sending_appends_and_updates_preview() {
    let mut store = ChatStore::new();
    let other = store.get_or_load_session("2");
    let before = store.get_or_load_session("1");
    let ChatStoreEvent::NewMessage { contact_id, message } = store.send_message_at("1", "在吗", 1234);
    assert_eq!(contact_id, "1");
    assert_eq!(message.id, "msg-1234");
    assert_eq!(message.sender_id, "self");
    assert_eq!(message.sender_name, "我");
    assert_eq!(message.content, "在吗");
    assert_eq!(message.timestamp, 1234);
    assert!(message.is_self);
    let after = store.get_or_load_session("1");
    assert_eq!(after.messages.len(), before.messages.len() + 1);
    assert_eq!(after.messages.last().unwrap().content, "在吗");
    let contact = store.contacts().iter().find(|c| c.id == "1").unwrap();
    assert_eq!(contact.last_message.as_deref(), Some("在吗"));
    assert_eq!(contact.last_message_time, Some(1234));
    let other_after = store.get_or_load_session("2");
    assert_eq!(other_after.messages.len(), other.messages.len());
}

#[test]
fn sending_to_unloaded_chat_loads_it() {
    let mut store = ChatStore::new();
    store.send_message("group3", "hello");
    assert!(store.is_loaded("group3"));
    let s = store.get_or_load_session("group3");
    assert_eq!(s.messages.len(), 46);
    assert_eq!(s.messages[45].content, "hello");
    assert!(s.messages[45].id.starts_with("msg-"));
}

#[test]
fn negative_time_in_message_id() {
    let mut store = ChatStore::new();
    let ChatStoreEvent::NewMessage { message, .. } = store.send_message_at("3", "x", -5);
    assert_eq!(message.id, "msg--5");
}

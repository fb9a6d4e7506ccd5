use weixin::models::{ChatSession, Contact, Message, ToolbarItem};

fn names(v: &[&str]) -> Vec<String> {
    v.iter().map(|s| s.to_string()).collect()
}

#[test]
fn new_contact_is_plain() {
    let c = Contact::new("1", "张三");
    assert_eq!(c.id, "1");
    assert_eq!(c.name, "张三");
    assert_eq!(c.avatar_url, None);
    assert_eq!(c.unread_count, 0);
    assert!(!c.is_group);
    assert!(c.avatar_members.is_empty());
    let c = c.with_avatar("a.png");
    assert_eq!(c.avatar_url.as_deref(), Some("a.png"));
}

#[test]
fn group_keeps_four_members() {
    let g = Contact::new("g", "Group").as_group(9, names(&["a", "b", "c", "d", "e", "f"]));
    assert!(g.is_group);
    assert_eq!(g.member_count, Some(9));
    assert_eq!(g.avatar_members, names(&["a", "b", "c", "d"]));
    let small = Contact::new("s", "Small").as_group(2, names(&["x", "y"]));
    assert_eq!(small.avatar_members, names(&["x", "y"]));
}

#[test]
fn titles() {
    let g = Contact::new("group1", "Rust学习小组").as_group(156, vec![]);
    assert_eq!(g.display_title(), "Rust学习小组 (156)");
    assert_eq!(Contact::new("1", "张三").display_title(), "张三");
    let mut no_count = Contact::new("g", "Team");
    no_count.is_group = true;
    assert_eq!(no_count.display_title(), "Team");
}

#[test]
fn previews() {
    let mut c = Contact::new("1", "张三");
    assert_eq!(c.preview_text(false), "暂无消息");
    c.last_message = Some("hello\nworld".to_string());
    assert_eq!(c.preview_text(false), "hello\nworld");
    assert_eq!(c.preview_text(true), "hello");
    let mut g = Contact::new("g", "G").as_group(3, names(&["A"]));
    g.last_message = Some("hi".to_string());
    g.last_sender_name = Some("A".to_string());
    assert_eq!(g.preview_text(false), "A: hi");
    c.last_sender_name = Some("ignored".to_string());
    assert_eq!(c.preview_text(true), "hello");
}

#[test]
fn message_and_session() {
    let m = Message::at("1", "self", "我", "你好", true, 42);
    assert_eq!(m.timestamp, 42);
    assert!(m.is_self);
    let now = Message::new("2", "u", "U", "x", false);
    assert_eq!(now.content, "x");
    assert!(!now.is_self);
    let mut s = ChatSession::new(Contact::new("1", "张三"));
    assert!(s.messages.is_empty());
    s.add_message(m.clone());
    s.add_message(now);
    assert_eq!(s.messages.len(), 2);
    assert_eq!(s.messages[0].content, "你好");
    assert_eq!(s.messages[1].id, "2");
    let copy = s.clone();
    assert_eq!(copy.messages.len(), 2);
    assert_eq!(copy.contact.id, "1");
}

#[test]
fn toolbar_icons() {
    assert_eq!(ToolbarItem::Chat.icon_path(), "chat-round.svg");
    assert_eq!(ToolbarItem::Chat.icon_path_fill(), Some("chat-round-fill.svg"));
    assert_eq!(ToolbarItem::Contacts.icon_path_fill(), Some("user-list-fill.svg"));
    assert_eq!(ToolbarItem::Favorites.icon_path_fill(), Some("favorite-fill.svg"));
    assert_eq!(ToolbarItem::MiniProgram.icon_path(), "mini-program.svg");
    assert_eq!(ToolbarItem::Phone.icon_path_fill(), None);
    assert!(ToolbarItem::Chat.has_fill());
    assert!(!ToolbarItem::Moments.has_fill());
}

use weixin::repos::{ContactsRepo, MemoryContactsRepo, MemorySessionsRepo, SessionsRepo};
use weixin::models::Contact;
use weixin::sample_data::{create_sample_contacts, create_sample_contacts_at, create_sample_messages_at};

#[test]
fn sample_contacts_layout() {
    let now = 1_700_000_000_000i64;
    let cs = create_sample_contacts_at(now);
    assert_eq!(cs.len(), 28);
    assert_eq!(cs[0].id, "group1");
    assert_eq!(cs[0].member_count, Some(156));
    assert_eq!(cs[0].last_sender_name.as_deref(), Some("张三"));
    assert_eq!(cs[0].last_message.as_deref(), Some("大家好，今天讨论一下项目进度"));
    assert_eq!(cs[0].unread_count, 1);
    assert_eq!(cs[1].last_sender_name.as_deref(), Some("Alice"));
    assert_eq!(cs[3].id, "1");
    assert_eq!(cs[3].last_message.as_deref(), Some("这是来自张三的最后一条消息"));
    assert_eq!(cs[3].unread_count, 4);
    assert_eq!(cs[3].last_sender_name, None);
    assert_eq!(cs[4].unread_count, 0);
    assert_eq!(cs[8].id, "auto0");
    assert_eq!(cs[8].name, "自动联系人 1");
    assert_eq!(cs[27].id, "auto19");
    assert_eq!(cs[27].name, "自动联系人 20");
    assert_eq!(cs[27].last_message_time, Some(now - 27 * 10 * 60_000));
    assert_eq!(cs[6].unread_count, (6u32 % 5) + 1);
    assert_eq!(cs[2].last_message_time, Some(now - 20 * 60_000));
}

#[test]
fn sample_contacts_now() {
    let cs = create_sample_contacts();
    assert_eq!(cs.len(), 28);
    assert!(cs.iter().all(|c| c.last_message.is_some()));
}

#[test]
fn sample_messages_layout() {
    let now = 1_700_000_000_000i64;
    let c = Contact::new("2", "李四");
    let ms = create_sample_messages_at(&c, now);
    assert_eq!(ms.len(), 45);
    let base = now - 2 * 60 * 60_000;
    assert_eq!(ms[0].content, "你好！");
    assert_eq!(ms[0].sender_id, "2");
    assert_eq!(ms[0].sender_name, "李四");
    assert_eq!(ms[0].timestamp, base);
    assert_eq!(ms[1].sender_id, "self");
    assert_eq!(ms[4].timestamp, base + 5 * 60_000);
    assert_eq!(ms[5].id, "6");
    assert!(ms[5].is_self);
    assert_eq!(ms[5].content, "测试消息 1：这是一个较长的示例消息内容，用来测试滚动条效果。");
    assert_eq!(ms[6].sender_name, "李四");
    assert_eq!(ms[44].id, "45");
    assert_eq!(ms[44].timestamp, base + 49 * 60_000);
}

#[test]
fn repos_through_their_traits() {
    let contacts_repo: &dyn ContactsRepo = &MemoryContactsRepo::new();
    let sessions_repo: &dyn SessionsRepo = &MemorySessionsRepo::new();
    let contacts = contacts_repo.get_all();
    assert!(!contacts.is_empty());
    let messages = sessions_repo.get_messages(&contacts[0]);
    assert!(!messages.is_empty());
}

//! The demonstration contacts and conversations the client starts with.
use vstd::prelude::*;
use vstd::string::*;
use crate::models::{Contact, ContactView, Message, MessageView, first_four, messages_view};
use crate::text::{decimal, digit_char, push_decimal, string_of};
use crate::clock::{now_millis, TIMESTAMP_BOUND_MS};

verus! {

/// One minute in milliseconds.
pub const MINUTE_MS: i64 = 60_000;

/// A one-to-one contact as `Contact::new` makes it.
pub open spec fn single_view(id: Seq<char>, name: Seq<char>) -> ContactView {
    ContactView {
        id,
        name,
        avatar_url: None,
        last_message: None,
        last_message_time: None,
        unread_count: 0,
        is_group: false,
        member_count: None,
        avatar_members: seq![],
        last_sender_name: None,
    }
}

/// A group as `Contact::new(..).as_group(..)` makes it.
pub open spec fn group_view(
    id: Seq<char>,
    name: Seq<char>,
    count: u32,
    members: Seq<Seq<char>>,
) -> ContactView {
    ContactView {
        is_group: true,
        member_count: Some(count),
        avatar_members: first_four(members),
        ..single_view(id, name)
    }
}

/// The generated contacts that fill the list: `auto0` named
/// "自动联系人 1" and so on.
pub open spec fn auto_contact(i: int) -> ContactView {
    single_view("auto"@ + decimal(i as nat), "自动联系人 "@ + decimal((i + 1) as nat))
}

/// The contacts before their previews are filled in: three groups, five
/// people, then twenty generated contacts.
pub open spec fn base_contacts() -> Seq<ContactView> {
    seq![
        group_view("group1"@, "Rust学习小组"@, 156, seq!["张三"@, "李四"@, "王五"@, "赵六"@]),
        group_view("group2"@, "项目讨论组"@, 68, seq!["Alice"@, "Bob"@, "Charlie"@, "David"@]),
        group_view("group3"@, "技术交流群"@, 234, seq!["前端"@, "后端"@, "测试"@, "运维"@]),
        single_view("1"@, "张三"@),
        single_view("2"@, "李四"@),
        single_view("3"@, "王五"@),
        single_view("4"@, "赵六"@),
        single_view("5"@, "钱七"@),
    ] + Seq::new(20, |i: int| auto_contact(i))
}

/// The preview of the contact at position `i` of the list, made at `now`:
/// groups show their first member as sender and a fixed group message,
/// people a message naming them; the last message is `10 * i` minutes old,
/// and every third contact has `i % 5 + 1` unread messages.
pub open spec fn finish_contact(c: ContactView, i: int, now: int) -> ContactView {
    ContactView {
        last_sender_name: if c.is_group {
            Some(if c.avatar_members.len() > 0 { c.avatar_members[0] } else { "某人"@ })
        } else {
            c.last_sender_name
        },
        last_message: Some(
            if c.is_group {
                "大家好，今天讨论一下项目进度"@
            } else {
                "这是来自"@ + c.name + "的最后一条消息"@
            },
        ),
        last_message_time: Some((now - i * 10 * 60_000) as i64),
        unread_count: if i % 3 == 0 { (i % 5 + 1) as u32 } else { 0 },
        ..c
    }
}

/// The sample contacts made at `now`.
pub open spec fn sample_contacts_seq(now: int) -> Seq<ContactView> {
    Seq::new(base_contacts().len(), |i: int| finish_contact(base_contacts()[i], i, now))
}

proof fn lemma_decimal_below_twenty(n: nat)
    requires
        n < 20,
    ensures
        decimal(n) == if n < 10 { seq![digit_char(n)] } else { seq!['1', digit_char((n - 10) as nat)] },
{
    if n >= 10 {
        assert(decimal(n) == decimal(n / 10).push(digit_char(n % 10)));
        assert(n / 10 == 1);
        assert(decimal(1) == seq![digit_char(1)]);
        assert(decimal(n) =~= seq!['1', digit_char((n - 10) as nat)]);
    }
}

/// The sample contacts have distinct ids, so each opens its own
/// conversation.
pub proof fn lemma_sample_ids_distinct(now: int)
    ensures
        forall|i: int, j: int|
            0 <= i < j < sample_contacts_seq(now).len() ==> #[trigger] sample_contacts_seq(now)[i].id
                != #[trigger] sample_contacts_seq(now)[j].id,
{
    reveal_strlit("group1");
    reveal_strlit("group2");
    reveal_strlit("group3");
    reveal_strlit("1");
    reveal_strlit("2");
    reveal_strlit("3");
    reveal_strlit("4");
    reveal_strlit("5");
    reveal_strlit("auto");
    let b = base_contacts();
    assert(b.len() == 28);
    assert forall|i: int, j: int|
        0 <= i < j < sample_contacts_seq(now).len() implies #[trigger] sample_contacts_seq(now)[i].id
            != #[trigger] sample_contacts_seq(now)[j].id by {
        assert(sample_contacts_seq(now)[i].id == b[i].id);
        assert(sample_contacts_seq(now)[j].id == b[j].id);
        if j >= 8 {
            lemma_decimal_below_twenty((j - 8) as nat);
            assert(b[j] == auto_contact(j - 8));
            let dj = decimal((j - 8) as nat);
            if i >= 8 {
                lemma_decimal_below_twenty((i - 8) as nat);
                assert(b[i] == auto_contact(i - 8));
                let di = decimal((i - 8) as nat);
                if di.len() == dj.len() {
                    assert(b[i].id[di.len() as int + 3] != b[j].id[di.len() as int + 3]);
                } else {
                    assert(b[i].id.len() != b[j].id.len());
                }
            } else {
                assert(b[j].id[0] == 'a');
                assert(b[i].id[0] != 'a');
            }
        } else if j < 3 {
            assert(b[i].id[5] != b[j].id[5]);
        } else if i < 3 {
            assert(b[i].id.len() != b[j].id.len());
        } else {
            assert(b[i].id[0] != b[j].id[0]);
        }
    }
}

/// The views of a list of contacts.
pub open spec fn contacts_view(cs: Seq<Contact>) -> Seq<ContactView> {
    cs.map_values(|c: Contact| c@)
}

fn names(a: &str, b: &str, c: &str, d: &str) -> (r: Vec<String>)
    ensures
        r.deep_view() == seq![a@, b@, c@, d@],
{
    let r = vec![string_of(a), string_of(b), string_of(c), string_of(d)];
    assert(r.deep_view() =~= seq![a@, b@, c@, d@]);
    r
}

fn base_contact_list() -> (r: Vec<Contact>)
    ensures
        contacts_view(r@) == base_contacts(),
{
    let mut v: Vec<Contact> = Vec::new();
    v.push(Contact::new("group1", "Rust学习小组").as_group(156, names("张三", "李四", "王五", "赵六")));
    v.push(Contact::new("group2", "项目讨论组").as_group(68, names("Alice", "Bob", "Charlie", "David")));
    v.push(Contact::new("group3", "技术交流群").as_group(234, names("前端", "后端", "测试", "运维")));
    v.push(Contact::new("1", "张三"));
    v.push(Contact::new("2", "李四"));
    v.push(Contact::new("3", "王五"));
    v.push(Contact::new("4", "赵六"));
    v.push(Contact::new("5", "钱七"));
    assert(contacts_view(v@) =~= base_contacts().take(8));
    let mut i: u64 = 0;
    while i < 20
        invariant
            i <= 20,
            contacts_view(v@) =~= base_contacts().take(8 + i),
        decreases 20 - i,
    {
        let mut id = string_of("auto");
        push_decimal(&mut id, i);
        let mut name = string_of("自动联系人 ");
        push_decimal(&mut name, i + 1);
        let c = Contact::new(id.as_str(), name.as_str());
        assert(c@ == auto_contact(i as int));
        assert(base_contacts()[8 + i] == auto_contact(i as int));
        let ghost prev = v@;
        v.push(c);
        assert(contacts_view(v@) =~= contacts_view(prev).push(auto_contact(i as int)));
        i = i + 1;
        assert(contacts_view(v@) =~= base_contacts().take(8 + i));
    }
    assert(base_contacts().take(28) =~= base_contacts());
    v
}

/// The sample contacts, their previews made at `now`.
pub fn create_sample_contacts_at(now: i64) -> (r: Vec<Contact>)
    requires
        -TIMESTAMP_BOUND_MS < now < TIMESTAMP_BOUND_MS,
    ensures
        contacts_view(r@) == sample_contacts_seq(now as int),
{
    let base = base_contact_list();
    let mut out: Vec<Contact> = Vec::new();
    let mut i: usize = 0;
    while i < base.len()
        invariant
            -TIMESTAMP_BOUND_MS < now < TIMESTAMP_BOUND_MS,
            contacts_view(base@) == base_contacts(),
            i <= base.len(),
            contacts_view(out@) =~= sample_contacts_seq(now as int).take(i as int),
        decreases base.len() - i,
    {
        let ghost b = base_contacts()[i as int];
        assert(base@[i as int]@ == b);
        let mut c = base[i].clone();
        if c.is_group {
            let sender = if c.avatar_members.len() > 0 {
                c.avatar_members[0].clone()
            } else {
                string_of("某人")
            };
            c.last_sender_name = Some(sender);
            c.last_message = Some(string_of("大家好，今天讨论一下项目进度"));
        } else {
            let mut m = string_of("这是来自");
            m.append(c.name.as_str());
            m.append("的最后一条消息");
            c.last_message = Some(m);
        }
        let age: i64 = (i as i64) * 10 * MINUTE_MS;
        c.last_message_time = Some(now - age);
        c.unread_count = if i % 3 == 0 { (i as u32) % 5 + 1 } else { 0 };
        assert(c@.last_message == finish_contact(b, i as int, now as int).last_message);
        assert(c@.last_sender_name == finish_contact(b, i as int, now as int).last_sender_name);
        assert(c@.unread_count == finish_contact(b, i as int, now as int).unread_count);
        assert(c@.last_message_time == finish_contact(b, i as int, now as int).last_message_time);
        assert(c@ == finish_contact(b, i as int, now as int));
        let ghost prev = out@;
        let ghost cv = c@;
        out.push(c);
        assert(contacts_view(out@) =~= contacts_view(prev).push(cv));
        i = i + 1;
        assert(contacts_view(out@) =~= sample_contacts_seq(now as int).take(i as int));
    }
    assert(sample_contacts_seq(now as int).take(base.len() as int) =~= sample_contacts_seq(now as int));
    out
}

/// The sample contacts, their previews made now.
pub fn create_sample_contacts() -> (r: Vec<Contact>)
    ensures
        exists|now: int|
            -TIMESTAMP_BOUND_MS < now < TIMESTAMP_BOUND_MS
            && contacts_view(r@) == #[trigger] sample_contacts_seq(now),
{
    let now = now_millis();
    create_sample_contacts_at(now)
}

/// A message as the sample conversation holds it.
pub open spec fn message_view(
    id: Seq<char>,
    sender_id: Seq<char>,
    sender_name: Seq<char>,
    content: Seq<char>,
    timestamp: int,
    is_self: bool,
) -> MessageView {
    MessageView { id, sender_id, sender_name, content, timestamp: timestamp as i64, is_self }
}

/// The generated message `i` of the sample conversation with `c`, whose
/// conversation starts at `base`: sent by the user when `i` is even, by
/// the contact when it is odd, `10 + i` minutes after the start.
pub open spec fn generated_message(c: ContactView, base: int, i: int) -> MessageView {
    let mine = i % 2 == 0;
    message_view(
        decimal((i + 6) as nat),
        if mine { "self"@ } else { c.id },
        if mine { "我"@ } else { c.name },
        "测试消息 "@ + decimal((i + 1) as nat) + "：这是一个较长的示例消息内容，用来测试滚动条效果。"@,
        base + (10 + i) * 60_000,
        mine,
    )
}

/// The sample conversation with `c`, made at `now`: it starts two hours
/// before `now` with five written messages, then forty generated ones.
pub open spec fn sample_messages_seq(c: ContactView, now: int) -> Seq<MessageView> {
    let base = now - 2 * 60 * 60_000;
    seq![
        message_view("1"@, c.id, c.name, "你好！"@, base, false),
        message_view("2"@, "self"@, "我"@, "你好，有什么事吗？"@, base + 60_000, true),
        message_view("3"@, c.id, c.name, "想问一下你那个项目进度如何了？"@, base + 2 * 60_000, false),
        message_view("4"@, "self"@, "我"@, "项目进展很顺利，预计下周就能完成了。"@, base + 3 * 60_000, true),
        message_view("5"@, c.id, c.name, "太好了！到时候记得通知我一声。"@, base + 5 * 60_000, false),
    ] + Seq::new(40, |i: int| generated_message(c, base, i))
}

/// The sample conversation with `contact`, made at `now`.
pub fn create_sample_messages_at(contact: &Contact, now: i64) -> (r: Vec<Message>)
    requires
        -TIMESTAMP_BOUND_MS < now < TIMESTAMP_BOUND_MS,
    ensures
        messages_view(r@) == sample_messages_seq(contact@, now as int),
{
    let base: i64 = now - 2 * 60 * MINUTE_MS;
    let id = contact.id.as_str();
    let name = contact.name.as_str();
    let mut v: Vec<Message> = Vec::new();
    v.push(Message::at("1", id, name, "你好！", false, base));
    v.push(Message::at("2", "self", "我", "你好，有什么事吗？", true, base + MINUTE_MS));
    v.push(Message::at("3", id, name, "想问一下你那个项目进度如何了？", false, base + 2 * MINUTE_MS));
    v.push(Message::at("4", "self", "我", "项目进展很顺利，预计下周就能完成了。", true, base + 3 * MINUTE_MS));
    v.push(Message::at("5", id, name, "太好了！到时候记得通知我一声。", false, base + 5 * MINUTE_MS));
    let ghost full = sample_messages_seq(contact@, now as int);
    assert(messages_view(v@) =~= full.take(5));
    let mut i: u64 = 0;
    while i < 40
        invariant
            i <= 40,
            -TIMESTAMP_BOUND_MS < now < TIMESTAMP_BOUND_MS,
            base == now - 2 * 60 * MINUTE_MS,
            id@ == contact@.id,
            name@ == contact@.name,
            full == sample_messages_seq(contact@, now as int),
            messages_view(v@) =~= full.take(5 + i),
        decreases 40 - i,
    {
        let mine = i % 2 == 0;
        let mut mid = String::new();
        push_decimal(&mut mid, i + 6);
        let mut content = string_of("测试消息 ");
        push_decimal(&mut content, i + 1);
        content.append("：这是一个较长的示例消息内容，用来测试滚动条效果。");
        let ts: i64 = base + (10 + i as i64) * MINUTE_MS;
        let m = if mine {
            Message::at(mid.as_str(), "self", "我", content.as_str(), true, ts)
        } else {
            Message::at(mid.as_str(), id, name, content.as_str(), false, ts)
        };
        assert(m@ == generated_message(contact@, base as int, i as int));
        assert(full[5 + i] == generated_message(contact@, base as int, i as int));
        let ghost prev = v@;
        let ghost mv = m@;
        v.push(m);
        assert(messages_view(v@) =~= messages_view(prev).push(mv));
        i = i + 1;
        assert(messages_view(v@) =~= full.take(5 + i));
    }
    assert(full.take(45) =~= full);
    v
}

/// The sample conversation with `contact`, made now.
pub fn create_sample_messages(contact: &Contact) -> (r: Vec<Message>)
    ensures
        exists|now: int|
            -TIMESTAMP_BOUND_MS < now < TIMESTAMP_BOUND_MS
            && messages_view(r@) == #[trigger] sample_messages_seq(contact@, now),
{
    let now = now_millis();
    create_sample_messages_at(contact, now)
}

} // verus!

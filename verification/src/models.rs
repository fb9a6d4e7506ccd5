//! Contacts, messages and conversations, their views, and the toolbar entries.
use vstd::prelude::*;
use vstd::string::*;
use crate::text::{decimal, push_decimal, string_of, first_line, first_line_seq};

verus! {

/// Copies an optional string.
pub fn clone_opt_string(o: &Option<String>) -> (r: Option<String>)
    ensures
        r.deep_view() == o.deep_view(),
{
    match o {
        Some(s) => Some(s.clone()),
        None => None,
    }
}

/// Copies a list of strings.
pub fn clone_strings(v: &Vec<String>) -> (r: Vec<String>)
    ensures
        r@ == v@,
        r.deep_view() == v.deep_view(),
{
    let mut r: Vec<String> = Vec::new();
    let mut i: usize = 0;
    while i < v.len()
        invariant
            i <= v.len(),
            r@ =~= v@.take(i as int),
        decreases v.len() - i,
    {
        r.push(v[i].clone());
        i = i + 1;
        assert(r@ =~= v@.take(i as int));
    }
    assert(v@.take(v.len() as int) =~= v@);
    r
}

/// What a contact is: its fields, with strings as character sequences.
pub struct ContactView {
    pub id: Seq<char>,
    pub name: Seq<char>,
    pub avatar_url: Option<Seq<char>>,
    pub last_message: Option<Seq<char>>,
    pub last_message_time: Option<i64>,
    pub unread_count: u32,
    pub is_group: bool,
    pub member_count: Option<u32>,
    pub avatar_members: Seq<Seq<char>>,
    pub last_sender_name: Option<Seq<char>>,
}

/// A chat partner or a group chat, as listed in the session list.
///
/// Times are Unix timestamps in milliseconds.
pub struct Contact {
    pub id: String,
    pub name: String,
    pub avatar_url: Option<String>,
    pub last_message: Option<String>,
    pub last_message_time: Option<i64>,
    pub unread_count: u32,
    pub is_group: bool,
    pub member_count: Option<u32>,
    /// Names shown in the group avatar (at most four).
    pub avatar_members: Vec<String>,
    /// Sender of the last message, shown in the preview of a group.
    pub last_sender_name: Option<String>,
}

impl View for Contact {
    type V = ContactView;

    open spec fn view(&self) -> ContactView {
        ContactView {
            id: self.id@,
            name: self.name@,
            avatar_url: self.avatar_url.deep_view(),
            last_message: self.last_message.deep_view(),
            last_message_time: self.last_message_time,
            unread_count: self.unread_count,
            is_group: self.is_group,
            member_count: self.member_count,
            avatar_members: self.avatar_members.deep_view(),
            last_sender_name: self.last_sender_name.deep_view(),
        }
    }
}

impl Clone for Contact {
    fn clone(&self) -> (r: Self)
        ensures
            r@ == self@,
    {
        Contact {
            id: self.id.clone(),
            name: self.name.clone(),
            avatar_url: clone_opt_string(&self.avatar_url),
            last_message: clone_opt_string(&self.last_message),
            last_message_time: self.last_message_time,
            unread_count: self.unread_count,
            is_group: self.is_group,
            member_count: self.member_count,
            avatar_members: clone_strings(&self.avatar_members),
            last_sender_name: clone_opt_string(&self.last_sender_name),
        }
    }
}

/// The first four names of a member list (all of them when there are fewer).
pub open spec fn first_four(s: Seq<Seq<char>>) -> Seq<Seq<char>> {
    if s.len() <= 4 { s } else { s.take(4) }
}

/// The title of a contact in the session list: a group with a known member
/// count shows the count after its name, as in `"name (12)"`.
pub open spec fn title_seq(c: ContactView) -> Seq<char> {
    match c.member_count {
        Some(n) if c.is_group => c.name + " ("@ + decimal(n as nat) + ")"@,
        _ => c.name,
    }
}

/// The preview line of a contact: its last message (only the first line of
/// it when `first_line_only`), or the no-message text; in a group with a
/// known last sender, the sender's name and a colon come first.
pub open spec fn preview_seq(c: ContactView, first_line_only: bool) -> Seq<char> {
    let msg = match c.last_message {
        Some(m) => if first_line_only { first_line_seq(m) } else { m },
        None => "暂无消息"@,
    };
    match c.last_sender_name {
        Some(sender) if c.is_group => sender + ": "@ + msg,
        _ => msg,
    }
}

impl Contact {
    /// A one-to-one contact with no avatar, no message and nothing unread.
    pub fn new(id: &str, name: &str) -> (r: Self)
        ensures
            r@ == (ContactView {
                id: id@,
                name: name@,
                avatar_url: None,
                last_message: None,
                last_message_time: None,
                unread_count: 0,
                is_group: false,
                member_count: None,
                avatar_members: seq![],
                last_sender_name: None,
            }),
    {
        let r = Contact {
            id: string_of(id),
            name: string_of(name),
            avatar_url: None,
            last_message: None,
            last_message_time: None,
            unread_count: 0,
            is_group: false,
            member_count: None,
            avatar_members: Vec::new(),
            last_sender_name: None,
        };
        assert(r.avatar_members.deep_view() =~= Seq::<Seq<char>>::empty());
        r
    }

    /// The same contact with an avatar image.
    pub fn with_avatar(self, url: &str) -> (r: Self)
        ensures
            r@ == (ContactView { avatar_url: Some(url@), ..self@ }),
    {
        let mut c = self;
        c.avatar_url = Some(string_of(url));
        c
    }

    /// The same contact as a group of `member_count` members whose avatar
    /// shows the first four of `members`.
    pub fn as_group(self, member_count: u32, members: Vec<String>) -> (r: Self)
        ensures
            r@ == (ContactView {
                is_group: true,
                member_count: Some(member_count),
                avatar_members: first_four(members.deep_view()),
                ..self@
            }),
    {
        let mut c = self;
        c.is_group = true;
        c.member_count = Some(member_count);
        let mut kept: Vec<String> = Vec::new();
        let mut i: usize = 0;
        while i < members.len() && i < 4
            invariant
                i <= members.len(),
                i <= 4,
                kept@ =~= members@.take(i as int),
            decreases members.len() - i,
        {
            kept.push(members[i].clone());
            i = i + 1;
            assert(kept@ =~= members@.take(i as int));
        }
        assert(kept.deep_view() =~= first_four(members.deep_view()));
        c.avatar_members = kept;
        c
    }

    /// The title shown for the contact.
    pub fn display_title(&self) -> (r: String)
        ensures
            r@ == title_seq(self@),
    {
        match self.member_count {
            Some(n) if self.is_group => {
                let mut r = self.name.clone();
                r.append(" (");
                push_decimal(&mut r, n as u64);
                r.append(")");
                r
            },
            _ => self.name.clone(),
        }
    }

    /// The preview line shown under the title.
    pub fn preview_text(&self, first_line_only: bool) -> (r: String)
        ensures
            r@ == preview_seq(self@, first_line_only),
    {
        let msg = match &self.last_message {
            Some(m) => if first_line_only { first_line(m.as_str()) } else { m.clone() },
            None => string_of("暂无消息"),
        };
        match &self.last_sender_name {
            Some(sender) if self.is_group => {
                let mut r = sender.clone();
                r.append(": ");
                r.append(msg.as_str());
                r
            },
            _ => msg,
        }
    }
}

/// What a message is.
pub struct MessageView {
    pub id: Seq<char>,
    pub sender_id: Seq<char>,
    pub sender_name: Seq<char>,
    pub content: Seq<char>,
    pub timestamp: i64,
    pub is_self: bool,
}

/// One chat message; `timestamp` is in Unix milliseconds.
pub struct Message {
    pub id: String,
    pub sender_id: String,
    pub sender_name: String,
    pub content: String,
    pub timestamp: i64,
    pub is_self: bool,
}

impl View for Message {
    type V = MessageView;

    open spec fn view(&self) -> MessageView {
        MessageView {
            id: self.id@,
            sender_id: self.sender_id@,
            sender_name: self.sender_name@,
            content: self.content@,
            timestamp: self.timestamp,
            is_self: self.is_self,
        }
    }
}

impl Clone for Message {
    fn clone(&self) -> (r: Self)
        ensures
            r@ == self@,
    {
        Message {
            id: self.id.clone(),
            sender_id: self.sender_id.clone(),
            sender_name: self.sender_name.clone(),
            content: self.content.clone(),
            timestamp: self.timestamp,
            is_self: self.is_self,
        }
    }
}

impl Message {
    /// A message sent at `timestamp`.
    pub fn at(
        id: &str,
        sender_id: &str,
        sender_name: &str,
        content: &str,
        is_self: bool,
        timestamp: i64,
    ) -> (r: Self)
        ensures
            r@ == (MessageView {
                id: id@,
                sender_id: sender_id@,
                sender_name: sender_name@,
                content: content@,
                timestamp,
                is_self,
            }),
    {
        Message {
            id: string_of(id),
            sender_id: string_of(sender_id),
            sender_name: string_of(sender_name),
            content: string_of(content),
            timestamp,
            is_self,
        }
    }

    /// A message sent now; the timestamp is the clock's.
    pub fn new(id: &str, sender_id: &str, sender_name: &str, content: &str, is_self: bool) -> (r:
        Self)
        ensures
            r@.id == id@,
            r@.sender_id == sender_id@,
            r@.sender_name == sender_name@,
            r@.content == content@,
            r@.is_self == is_self,
            -crate::clock::TIMESTAMP_BOUND_MS < r@.timestamp < crate::clock::TIMESTAMP_BOUND_MS,
    {
        Self::at(id, sender_id, sender_name, content, is_self, crate::clock::now_millis())
    }
}

/// The views of a list of messages.
pub open spec fn messages_view(ms: Seq<Message>) -> Seq<MessageView> {
    ms.map_values(|m: Message| m@)
}

/// Copies a list of messages.
pub fn clone_messages(v: &Vec<Message>) -> (r: Vec<Message>)
    ensures
        messages_view(r@) == messages_view(v@),
{
    let mut r: Vec<Message> = Vec::new();
    let mut i: usize = 0;
    while i < v.len()
        invariant
            i <= v.len(),
            r@.len() == i,
            forall|j: int| 0 <= j < i ==> (#[trigger] r@[j])@ == v@[j]@,
        decreases v.len() - i,
    {
        r.push(v[i].clone());
        i = i + 1;
    }
    assert(messages_view(r@) =~= messages_view(v@));
    r
}

/// What a chat session is: the contact and the messages in order.
pub struct ChatSessionView {
    pub contact: ContactView,
    pub messages: Seq<MessageView>,
}

/// The conversation with one contact.
pub struct ChatSession {
    pub contact: Contact,
    pub messages: Vec<Message>,
}

impl View for ChatSession {
    type V = ChatSessionView;

    open spec fn view(&self) -> ChatSessionView {
        ChatSessionView { contact: self.contact@, messages: messages_view(self.messages@) }
    }
}

impl Clone for ChatSession {
    fn clone(&self) -> (r: Self)
        ensures
            r@ == self@,
    {
        ChatSession { contact: self.contact.clone(), messages: clone_messages(&self.messages) }
    }
}

impl ChatSession {
    /// An empty conversation with `contact`.
    pub fn new(contact: Contact) -> (r: Self)
        ensures
            r@ == (ChatSessionView { contact: contact@, messages: seq![] }),
    {
        let r = ChatSession { contact, messages: Vec::new() };
        assert(messages_view(r.messages@) =~= Seq::<MessageView>::empty());
        r
    }

    /// Appends a message at the end of the conversation.
    pub fn add_message(&mut self, message: Message)
        ensures
            final(self)@ == (ChatSessionView {
                messages: old(self)@.messages.push(message@),
                ..old(self)@
            }),
    {
        let ghost m = message@;
        self.messages.push(message);
        assert(messages_view(self.messages@) =~= old(self)@.messages.push(m));
    }
}

/// The entries of the toolbar on the left of the main window.
#[derive(Clone, Copy, Debug, PartialEq, Eq, Structural)]
pub enum ToolbarItem {
    Chat,
    Contacts,
    Favorites,
    Moments,
    Channels,
    Search,
    MiniProgram,
    Menu,
    Phone,
}

/// The outline icon of each entry.
pub open spec fn icon_path_seq(item: ToolbarItem) -> Seq<char> {
    match item {
        ToolbarItem::Chat => "chat-round.svg"@,
        ToolbarItem::Contacts => "user-list.svg"@,
        ToolbarItem::Favorites => "favorite.svg"@,
        ToolbarItem::Moments => "moments.svg"@,
        ToolbarItem::Channels => "channels.svg"@,
        ToolbarItem::Search => "search.svg"@,
        ToolbarItem::MiniProgram => "mini-program.svg"@,
        ToolbarItem::Menu => "menu.svg"@,
        ToolbarItem::Phone => "phone.svg"@,
    }
}

/// The filled icon of each entry, for the three entries that have one.
pub open spec fn icon_path_fill_seq(item: ToolbarItem) -> Option<Seq<char>> {
    match item {
        ToolbarItem::Chat => Some("chat-round-fill.svg"@),
        ToolbarItem::Contacts => Some("user-list-fill.svg"@),
        ToolbarItem::Favorites => Some("favorite-fill.svg"@),
        _ => None,
    }
}

impl ToolbarItem {
    /// The outline icon.
    pub fn icon_path(&self) -> (r: &'static str)
        ensures
            r@ == icon_path_seq(*self),
    {
        match self {
            ToolbarItem::Chat => "chat-round.svg",
            ToolbarItem::Contacts => "user-list.svg",
            ToolbarItem::Favorites => "favorite.svg",
            ToolbarItem::Moments => "moments.svg",
            ToolbarItem::Channels => "channels.svg",
            ToolbarItem::Search => "search.svg",
            ToolbarItem::MiniProgram => "mini-program.svg",
            ToolbarItem::Menu => "menu.svg",
            ToolbarItem::Phone => "phone.svg",
        }
    }

    /// The filled icon, if the entry has one.
    pub fn icon_path_fill(&self) -> (r: Option<&'static str>)
        ensures
            match r {
                Some(p) => icon_path_fill_seq(*self) == Some(p@),
                None => icon_path_fill_seq(*self) is None,
            },
    {
        match self {
            ToolbarItem::Chat => Some("chat-round-fill.svg"),
            ToolbarItem::Contacts => Some("user-list-fill.svg"),
            ToolbarItem::Favorites => Some("favorite-fill.svg"),
            ToolbarItem::Moments => None,
            ToolbarItem::Channels => None,
            ToolbarItem::Search => None,
            ToolbarItem::MiniProgram => None,
            ToolbarItem::Menu => None,
            ToolbarItem::Phone => None,
        }
    }

    /// Whether the entry has a filled icon.
    pub fn has_fill(&self) -> (r: bool)
        ensures
            r == icon_path_fill_seq(*self) is Some,
    {
        self.icon_path_fill().is_some()
    }
}

} // verus!

//! The chat store shared by every window: the contact list and the
//! conversations loaded so far, so that all windows see the same
//! conversation object.
use vstd::prelude::*;
use vstd::string::*;
use crate::models::{
    ChatSession, ChatSessionView, Contact, ContactView, Message, MessageView,
};
use crate::repos::{MemoryContactsRepo, MemorySessionsRepo};
use crate::sample_data::{contacts_view, sample_contacts_seq, sample_messages_seq};
use crate::text::{push_signed_decimal, signed_decimal, str_eq, string_of};
use crate::clock::{now_millis, TIMESTAMP_BOUND_MS};

verus! {

/// What the store announces after a change.
pub enum ChatStoreEvent {
    NewMessage { contact_id: String, message: Message },
}

/// What the store holds: the contacts in list order, and the conversations
/// loaded so far, by contact id.
pub struct ChatStoreView {
    pub contacts: Seq<ContactView>,
    pub sessions: Map<Seq<char>, ChatSessionView>,
}

/// The position of the first contact with id `id`, or -1.
pub open spec fn find_contact(cs: Seq<ContactView>, id: Seq<char>) -> int
    decreases cs.len(),
{
    if cs.len() == 0 {
        -1
    } else {
        let k = find_contact(cs.drop_last(), id);
        if k >= 0 {
            k
        } else if cs.last().id == id {
            cs.len() - 1
        } else {
            -1
        }
    }
}

/// The loaded conversations by the id of their contact.
pub open spec fn sessions_map(ss: Seq<ChatSessionView>) -> Map<Seq<char>, ChatSessionView>
    decreases ss.len(),
{
    if ss.len() == 0 {
        Map::empty()
    } else {
        sessions_map(ss.drop_last()).insert(ss.last().contact.id, ss.last())
    }
}

/// No two loaded conversations are with contacts of the same id.
pub open spec fn unique_ids(ss: Seq<ChatSessionView>) -> bool {
    forall|i: int, j: int|
        0 <= i < ss.len() && 0 <= j < ss.len() && i != j ==> #[trigger] ss[i].contact.id
            != #[trigger] ss[j].contact.id
}

/// The conversation that opening the chat with `id` gives when the store
/// holds `v`: the loaded one if there is one; otherwise a new one with the
/// first contact of that id and the sample conversation with it.
pub open spec fn loaded_session(v: ChatStoreView, id: Seq<char>, s: ChatSessionView) -> bool {
    if v.sessions.contains_key(id) {
        s == v.sessions[id]
    } else {
        let k = find_contact(v.contacts, id);
        &&& k >= 0
        &&& s.contact == v.contacts[k]
        &&& exists|t: int|
            -TIMESTAMP_BOUND_MS < t < TIMESTAMP_BOUND_MS && s.messages == #[trigger] sample_messages_seq(
                s.contact,
                t,
            )
    }
}

/// Whether the chat with `id` can be opened: it is loaded, or a contact
/// has that id.
pub open spec fn can_open(v: ChatStoreView, id: Seq<char>) -> bool {
    v.sessions.contains_key(id) || find_contact(v.contacts, id) >= 0
}

/// The message the user sends with `content` at `now`: its id is `msg-`
/// followed by the time in milliseconds.
pub open spec fn outgoing_message(content: Seq<char>, now: i64) -> MessageView {
    MessageView {
        id: "msg-"@ + signed_decimal(now as int),
        sender_id: "self"@,
        sender_name: "我"@,
        content,
        timestamp: now,
        is_self: true,
    }
}

/// The contact list after a message to `id`: the first contact with that
/// id shows `content` as its last message, sent at `now`.
pub open spec fn record_last_message(
    cs: Seq<ContactView>,
    id: Seq<char>,
    content: Seq<char>,
    now: i64,
) -> Seq<ContactView> {
    let k = find_contact(cs, id);
    if k < 0 {
        cs
    } else {
        cs.update(
            k,
            ContactView { last_message: Some(content), last_message_time: Some(now), ..cs[k] },
        )
    }
}

/// The store after the user sends `content` to `id` at `now`, when opening
/// that chat gave `s`.
pub open spec fn after_send(
    v: ChatStoreView,
    id: Seq<char>,
    content: Seq<char>,
    now: i64,
    s: ChatSessionView,
) -> ChatStoreView {
    ChatStoreView {
        contacts: record_last_message(v.contacts, id, content, now),
        sessions: v.sessions.insert(
            id,
            ChatSessionView { messages: s.messages.push(outgoing_message(content, now)), ..s },
        ),
    }
}

/// The first contact with an id is the one a left-to-right search finds.
pub proof fn lemma_find_contact_at(cs: Seq<ContactView>, id: Seq<char>, i: int)
    requires
        0 <= i < cs.len(),
        cs[i].id == id,
        forall|j: int| 0 <= j < i ==> (#[trigger] cs[j]).id != id,
    ensures
        find_contact(cs, id) == i,
    decreases cs.len(),
{
    if i < cs.len() - 1 {
        let t = cs.drop_last();
        assert(t[i] == cs[i]);
        assert forall|j: int| 0 <= j < i implies (#[trigger] t[j]).id != id by {
            assert(t[j] == cs[j]);
        }
        lemma_find_contact_at(t, id, i);
    } else {
        lemma_find_contact_none(cs.drop_last(), id);
    }
}

/// No contact has the id: the search finds nothing.
pub proof fn lemma_find_contact_none(cs: Seq<ContactView>, id: Seq<char>)
    requires
        forall|j: int| 0 <= j < cs.len() ==> (#[trigger] cs[j]).id != id,
    ensures
        find_contact(cs, id) == -1,
    decreases cs.len(),
{
    if cs.len() > 0 {
        let t = cs.drop_last();
        assert forall|j: int| 0 <= j < t.len() implies (#[trigger] t[j]).id != id by {
            assert(t[j] == cs[j]);
        }
        lemma_find_contact_none(t, id);
    }
}

/// The search gives -1 or the position of a contact with the id.
pub proof fn lemma_find_contact_range(cs: Seq<ContactView>, id: Seq<char>)
    ensures
        -1 <= find_contact(cs, id) < cs.len(),
        find_contact(cs, id) >= 0 ==> cs[find_contact(cs, id)].id == id,
    decreases cs.len(),
{
    if cs.len() > 0 {
        lemma_find_contact_range(cs.drop_last(), id);
    }
}

/// A search that finds nothing means no contact has the id.
proof fn lemma_find_contact_absent(cs: Seq<ContactView>, id: Seq<char>)
    ensures
        find_contact(cs, id) == -1 ==> forall|j: int| 0 <= j < cs.len() ==> (#[trigger] cs[j]).id != id,
    decreases cs.len(),
{
    if cs.len() > 0 {
        let t = cs.drop_last();
        lemma_find_contact_absent(t, id);
        lemma_find_contact_range(t, id);
        if find_contact(cs, id) == -1 {
            assert forall|j: int| 0 <= j < cs.len() implies (#[trigger] cs[j]).id != id by {
                if j < t.len() {
                    assert(cs[j] == t[j]);
                }
            }
        }
    }
}

/// Which chats can be opened: exactly those that are loaded and those of
/// a contact with that id. A chat stays openable once it has been opened
/// and after a message is sent to it, and opening or sending to one chat
/// does not change which others can be opened.
pub proof fn lemma_can_open_exactly(
    v: ChatStoreView,
    id: Seq<char>,
    s: ChatSessionView,
    content: Seq<char>,
    now: i64,
    other: Seq<char>,
)
    ensures
        can_open(v, id) <==> (v.sessions.contains_key(id) || exists|k: int|
            0 <= k < v.contacts.len() && (#[trigger] v.contacts[k]).id == id),
        v.sessions.contains_key(id) ==> can_open(v, id),
        can_open(ChatStoreView { sessions: v.sessions.insert(id, s), ..v }, id),
        can_open(after_send(v, id, content, now, s), id),
        can_open(ChatStoreView { sessions: v.sessions.insert(id, s), ..v }, other) == (other == id
            || can_open(v, other)),
        can_open(after_send(v, id, content, now, s), other) == (other == id || can_open(v, other)),
{
    lemma_find_contact_range(v.contacts, id);
    lemma_find_contact_absent(v.contacts, id);
    let cs2 = record_last_message(v.contacts, id, content, now);
    lemma_find_contact_range(v.contacts, other);
    lemma_find_contact_absent(v.contacts, other);
    lemma_find_contact_range(cs2, other);
    lemma_find_contact_absent(cs2, other);
    assert(cs2.len() == v.contacts.len());
    assert forall|j: int| 0 <= j < cs2.len() implies (#[trigger] cs2[j]).id == v.contacts[j].id by {}
    if find_contact(v.contacts, other) >= 0 {
        let k = find_contact(v.contacts, other);
        assert(cs2[k].id == other);
    }
    if find_contact(cs2, other) >= 0 {
        let k = find_contact(cs2, other);
        assert(v.contacts[k].id == other);
    }
}

proof fn lemma_sessions_map_dom(ss: Seq<ChatSessionView>, id: Seq<char>)
    ensures
        sessions_map(ss).contains_key(id) <==> exists|i: int|
            0 <= i < ss.len() && (#[trigger] ss[i]).contact.id == id,
    decreases ss.len(),
{
    if ss.len() > 0 {
        let t = ss.drop_last();
        lemma_sessions_map_dom(t, id);
        if sessions_map(ss).contains_key(id) {
            if ss.last().contact.id != id {
                let i = choose|i: int| 0 <= i < t.len() && (#[trigger] t[i]).contact.id == id;
                assert(ss[i] == t[i]);
            } else {
                assert(ss[ss.len() - 1].contact.id == id);
            }
        }
        if exists|i: int| 0 <= i < ss.len() && (#[trigger] ss[i]).contact.id == id {
            let i = choose|i: int| 0 <= i < ss.len() && (#[trigger] ss[i]).contact.id == id;
            if i < ss.len() - 1 {
                assert(t[i] == ss[i]);
            }
        }
    }
}

proof fn lemma_sessions_map_at(ss: Seq<ChatSessionView>, i: int)
    requires
        unique_ids(ss),
        0 <= i < ss.len(),
    ensures
        sessions_map(ss).contains_key(ss[i].contact.id),
        sessions_map(ss)[ss[i].contact.id] == ss[i],
    decreases ss.len(),
{
    let t = ss.drop_last();
    if i < ss.len() - 1 {
        assert(t[i] == ss[i]);
        assert(unique_ids(t)) by {
            assert forall|a: int, b: int|
                0 <= a < t.len() && 0 <= b < t.len() && a != b implies #[trigger] t[a].contact.id
                != #[trigger] t[b].contact.id by {
                assert(t[a] == ss[a] && t[b] == ss[b]);
            }
        }
        lemma_sessions_map_at(t, i);
        assert(ss.last() == ss[ss.len() - 1]);
        assert(ss[i].contact.id != ss[ss.len() - 1].contact.id);
    }
}

proof fn lemma_sessions_map_update(ss: Seq<ChatSessionView>, i: int, s: ChatSessionView)
    requires
        unique_ids(ss),
        0 <= i < ss.len(),
        s.contact.id == ss[i].contact.id,
    ensures
        unique_ids(ss.update(i, s)),
        sessions_map(ss.update(i, s)) == sessions_map(ss).insert(s.contact.id, s),
    decreases ss.len(),
{
    let u = ss.update(i, s);
    assert(unique_ids(u)) by {
        assert forall|a: int, b: int|
            0 <= a < u.len() && 0 <= b < u.len() && a != b implies #[trigger] u[a].contact.id
            != #[trigger] u[b].contact.id by {
            assert(u[a].contact.id == ss[a].contact.id);
            assert(u[b].contact.id == ss[b].contact.id);
        }
    }
    let t = ss.drop_last();
    assert(unique_ids(t)) by {
        assert forall|a: int, b: int|
            0 <= a < t.len() && 0 <= b < t.len() && a != b implies #[trigger] t[a].contact.id
            != #[trigger] t[b].contact.id by {
            assert(t[a] == ss[a] && t[b] == ss[b]);
        }
    }
    if i == ss.len() - 1 {
        assert(u.drop_last() =~= t);
        assert(!sessions_map(t).contains_key(s.contact.id)) by {
            lemma_sessions_map_dom(t, s.contact.id);
            if exists|j: int| 0 <= j < t.len() && (#[trigger] t[j]).contact.id == s.contact.id {
                let j = choose|j: int| 0 <= j < t.len() && (#[trigger] t[j]).contact.id == s.contact.id;
                assert(t[j] == ss[j]);
            }
        }
        assert(sessions_map(u) =~= sessions_map(ss).insert(s.contact.id, s));
    } else {
        assert(u.drop_last() =~= t.update(i, s));
        assert(t[i] == ss[i]);
        lemma_sessions_map_update(t, i, s);
        assert(u.last() == ss.last());
        assert(ss.last().contact.id != s.contact.id) by {
            assert(ss[ss.len() - 1].contact.id != ss[i].contact.id);
        }
        assert(sessions_map(u) =~= sessions_map(ss).insert(s.contact.id, s));
    }
}

proof fn lemma_sessions_map_push(ss: Seq<ChatSessionView>, s: ChatSessionView)
    requires
        unique_ids(ss),
        !sessions_map(ss).contains_key(s.contact.id),
    ensures
        unique_ids(ss.push(s)),
        sessions_map(ss.push(s)) == sessions_map(ss).insert(s.contact.id, s),
{
    let p = ss.push(s);
    lemma_sessions_map_dom(ss, s.contact.id);
    assert(unique_ids(p)) by {
        assert forall|a: int, b: int|
            0 <= a < p.len() && 0 <= b < p.len() && a != b implies #[trigger] p[a].contact.id
            != #[trigger] p[b].contact.id by {
            if a < ss.len() && b < ss.len() {
                assert(p[a] == ss[a] && p[b] == ss[b]);
            } else if a < ss.len() {
                assert(p[a] == ss[a]);
            } else {
                assert(p[b] == ss[b]);
            }
        }
    }
    assert(p.drop_last() =~= ss);
}

/// The chat state shared by the windows: contacts and loaded conversations.
pub struct ChatStore {
    sessions_repo: MemorySessionsRepo,
    contacts: Vec<Contact>,
    sessions: Vec<ChatSession>,
}

/// The views of a list of conversations.
pub open spec fn sessions_view(ss: Seq<ChatSession>) -> Seq<ChatSessionView> {
    ss.map_values(|s: ChatSession| s@)
}

impl View for ChatStore {
    type V = ChatStoreView;

    closed spec fn view(&self) -> ChatStoreView {
        ChatStoreView {
            contacts: contacts_view(self.contacts@),
            sessions: sessions_map(sessions_view(self.sessions@)),
        }
    }
}

impl ChatStore {
    /// The loaded conversations are with contacts of distinct ids.
    pub closed spec fn wf(&self) -> bool {
        unique_ids(sessions_view(self.sessions@))
    }

    /// A store with the sample contacts and no conversation loaded.
    pub fn new() -> (r: Self)
        ensures
            exists|now: int|
                -TIMESTAMP_BOUND_MS < now < TIMESTAMP_BOUND_MS && r@.contacts
                    == #[trigger] sample_contacts_seq(now),
            r@.sessions == Map::<Seq<char>, ChatSessionView>::empty(),
            r.wf(),
    {
        let contacts_repo = MemoryContactsRepo::new();
        let sessions_repo = MemorySessionsRepo::new();
        let contacts = contacts_repo.get_all();
        let r = ChatStore { sessions_repo, contacts, sessions: Vec::new() };
        assert(sessions_view(r.sessions@) =~= Seq::<ChatSessionView>::empty());
        r
    }

    /// The contacts in list order.
    pub fn contacts(&self) -> (r: &Vec<Contact>)
        ensures
            contacts_view(r@) == self@.contacts,
    {
        &self.contacts
    }

    fn find_session_index(&self, contact_id: &str) -> (r: Option<usize>)
        requires
            self.wf(),
        ensures
            match r {
                Some(i) => i < self.sessions@.len() && self.sessions@[i as int].contact.id@
                    == contact_id@,
                None => !self@.sessions.contains_key(contact_id@),
            },
    {
        let mut i: usize = 0;
        while i < self.sessions.len()
            invariant
                i <= self.sessions@.len(),
                forall|j: int| 0 <= j < i ==> (#[trigger] self.sessions@[j]).contact.id@ != contact_id@,
            decreases self.sessions.len() - i,
        {
            if str_eq(self.sessions[i].contact.id.as_str(), contact_id) {
                return Some(i);
            }
            i = i + 1;
        }
        proof {
            let ss = sessions_view(self.sessions@);
            lemma_sessions_map_dom(ss, contact_id@);
            if exists|j: int| 0 <= j < ss.len() && (#[trigger] ss[j]).contact.id == contact_id@ {
                let j = choose|j: int| 0 <= j < ss.len() && (#[trigger] ss[j]).contact.id == contact_id@;
                assert(ss[j] == self.sessions@[j]@);
            }
        }
        None
    }

    fn find_contact_index(&self, contact_id: &str) -> (r: Option<usize>)
        ensures
            match r {
                Some(i) => i as int == find_contact(self@.contacts, contact_id@),
                None => find_contact(self@.contacts, contact_id@) == -1,
            },
    {
        let ghost cs = self@.contacts;
        let mut i: usize = 0;
        while i < self.contacts.len()
            invariant
                cs == contacts_view(self.contacts@),
                i <= self.contacts@.len(),
                forall|j: int| 0 <= j < i ==> (#[trigger] cs[j]).id != contact_id@,
            decreases self.contacts.len() - i,
        {
            if str_eq(self.contacts[i].id.as_str(), contact_id) {
                proof {
                    assert(cs[i as int] == self.contacts@[i as int]@);
                    lemma_find_contact_at(cs, contact_id@, i as int);
                }
                return Some(i);
            }
            assert(cs[i as int] == self.contacts@[i as int]@);
            i = i + 1;
        }
        proof {
            lemma_find_contact_none(cs, contact_id@);
        }
        None
    }

    /// Whether the conversation with `contact_id` is loaded.
    pub fn is_loaded(&self, contact_id: &str) -> (r: bool)
        requires
            self.wf(),
        ensures
            r == self@.sessions.contains_key(contact_id@),
    {
        match self.find_session_index(contact_id) {
            Some(i) => {
                proof {
                    lemma_sessions_map_at(sessions_view(self.sessions@), i as int);
                }
                true
            },
            None => false,
        }
    }

    /// Whether the chat with `contact_id` can be opened: it is loaded or a
    /// contact has that id.
    pub fn can_open(&self, contact_id: &str) -> (r: bool)
        requires
            self.wf(),
        ensures
            r == can_open(self@, contact_id@),
    {
        if self.is_loaded(contact_id) {
            true
        } else {
            self.find_contact_index(contact_id).is_some()
        }
    }

    /// Opens the conversation with `contact_id`: the loaded one, or else a
    /// new one with that contact and its conversation from the repository,
    /// which is kept so that every later opening gives it again.
    pub fn get_or_load_session(&mut self, contact_id: &str) -> (r: ChatSession)
        requires
            old(self).wf(),
            can_open(old(self)@, contact_id@),
        ensures
            final(self).wf(),
            loaded_session(old(self)@, contact_id@, r@),
            r@.contact.id == contact_id@,
            final(self)@ == (ChatStoreView {
                sessions: old(self)@.sessions.insert(contact_id@, r@),
                ..old(self)@
            }),
            can_open(final(self)@, contact_id@),
    {
        match self.find_session_index(contact_id) {
            Some(i) => {
                proof {
                    lemma_sessions_map_at(sessions_view(self.sessions@), i as int);
                    assert(sessions_view(self.sessions@)[i as int] == self.sessions@[i as int]@);
                }
                let s = self.sessions[i].clone();
                proof {
                    assert(self@.sessions.insert(contact_id@, s@) =~= self@.sessions);
                }
                s
            },
            None => {
                let k = match self.find_contact_index(contact_id) {
                    Some(k) => k,
                    None => {
                        proof {
                            assert(false);
                        }
                        0
                    },
                };
                proof {
                    lemma_find_contact_range(self@.contacts, contact_id@);
                    assert(self@.contacts[k as int] == self.contacts@[k as int]@);
                }
                let contact = self.contacts[k].clone();
                let messages = self.sessions_repo.get_messages(&contact);
                let mut session = ChatSession::new(contact);
                session.messages = messages;
                let ghost before = sessions_view(self.sessions@);
                proof {
                    lemma_sessions_map_push(before, session@);
                }
                self.sessions.push(session.clone());
                proof {
                    assert(sessions_view(self.sessions@) =~= before.push(session@));
                }
                session
            },
        }
    }

    /// Opens the conversation with `contact_id` as `get_or_load_session`
    /// does, or gives `None` and leaves the store as it is when the chat
    /// cannot be opened.
    pub fn try_get_or_load_session(&mut self, contact_id: &str) -> (r: Option<ChatSession>)
        requires
            old(self).wf(),
        ensures
            final(self).wf(),
            r is Some <==> can_open(old(self)@, contact_id@),
            r matches Some(s) ==> loaded_session(old(self)@, contact_id@, s@) && final(self)@
                == (ChatStoreView {
                sessions: old(self)@.sessions.insert(contact_id@, s@),
                ..old(self)@
            }),
            r is None ==> final(self)@ == old(self)@,
            r is Some ==> can_open(final(self)@, contact_id@),
    {
        if self.can_open(contact_id) {
            Some(self.get_or_load_session(contact_id))
        } else {
            None
        }
    }

    fn store_session(&mut self, session: ChatSession)
        requires
            old(self).wf(),
        ensures
            final(self).wf(),
            final(self)@ == (ChatStoreView {
                sessions: old(self)@.sessions.insert(session@.contact.id, session@),
                ..old(self)@
            }),
    {
        let ghost before = sessions_view(self.sessions@);
        let ghost sv = session@;
        match self.find_session_index(session.contact.id.as_str()) {
            Some(i) => {
                proof {
                    assert(before[i as int] == self.sessions@[i as int]@);
                    lemma_sessions_map_update(before, i as int, sv);
                }
                self.sessions.set(i, session);
                proof {
                    assert(sessions_view(self.sessions@) =~= before.update(i as int, sv));
                }
            },
            None => {
                proof {
                    lemma_sessions_map_push(before, sv);
                }
                self.sessions.push(session);
                proof {
                    assert(sessions_view(self.sessions@) =~= before.push(sv));
                }
            },
        }
    }

    fn record_last_message(&mut self, contact_id: &str, content: &str, now: i64)
        requires
            old(self).wf(),
        ensures
            final(self).wf(),
            final(self)@ == (ChatStoreView {
                contacts: record_last_message(old(self)@.contacts, contact_id@, content@, now),
                ..old(self)@
            }),
    {
        match self.find_contact_index(contact_id) {
            Some(k) => {
                let ghost before = self.contacts@;
                proof {
                    lemma_find_contact_range(contacts_view(before), contact_id@);
                }
                let mut c = self.contacts[k].clone();
                c.last_message = Some(string_of(content));
                c.last_message_time = Some(now);
                self.contacts.set(k, c);
                proof {
                    lemma_find_contact_range(contacts_view(before), contact_id@);
                    assert(contacts_view(self.contacts@) =~= record_last_message(
                        contacts_view(before),
                        contact_id@,
                        content@,
                        now,
                    ));
                }
            },
            None => {},
        }
    }

    /// Sends `content` to `contact_id` at `now`: the conversation (opened
    /// as `get_or_load_session` opens it) gets the new message at its end,
    /// the contact's preview shows it, and the event that announces it is
    /// returned.
    pub fn send_message_at(&mut self, contact_id: &str, content: &str, now: i64) -> (r:
        ChatStoreEvent)
        requires
            old(self).wf(),
            can_open(old(self)@, contact_id@),
        ensures
            final(self).wf(),
            exists|s: ChatSessionView|
                loaded_session(old(self)@, contact_id@, s) && final(self)@ == #[trigger] after_send(
                    old(self)@,
                    contact_id@,
                    content@,
                    now,
                    s,
                ),
            match r {
                ChatStoreEvent::NewMessage { contact_id: id, message } => id@ == contact_id@
                    && message@ == outgoing_message(content@, now),
            },
    {
        let ghost v0 = self@;
        let mut session = self.get_or_load_session(contact_id);
        let ghost s0 = session@;
        let mut id = string_of("msg-");
        push_signed_decimal(&mut id, now);
        let message = Message::at(id.as_str(), "self", "我", content, true, now);
        session.add_message(message.clone());
        self.store_session(session);
        self.record_last_message(contact_id, content, now);
        proof {
            assert(self@.sessions =~= after_send(v0, contact_id@, content@, now, s0).sessions);
            assert(self@ =~= after_send(v0, contact_id@, content@, now, s0));
        }
        ChatStoreEvent::NewMessage { contact_id: string_of(contact_id), message }
    }

    /// Sends `content` to `contact_id` now.
    pub fn send_message(&mut self, contact_id: &str, content: &str) -> (r: ChatStoreEvent)
        requires
            old(self).wf(),
            can_open(old(self)@, contact_id@),
        ensures
            final(self).wf(),
            exists|s: ChatSessionView, now: i64|
                loaded_session(old(self)@, contact_id@, s) && final(self)@ == #[trigger] after_send(
                    old(self)@,
                    contact_id@,
                    content@,
                    now,
                    s,
                ) && (r matches ChatStoreEvent::NewMessage { contact_id: id, message } && id@
                    == contact_id@ && message@ == outgoing_message(content@, now))
                    && -TIMESTAMP_BOUND_MS < now < TIMESTAMP_BOUND_MS,
            can_open(final(self)@, contact_id@),
    {
        let now = now_millis();
        let ghost v0 = self@;
        let r = self.send_message_at(contact_id, content, now);
        proof {
            let s = choose|s: ChatSessionView|
                loaded_session(v0, contact_id@, s) && self@ == #[trigger] after_send(
                    v0,
                    contact_id@,
                    content@,
                    now,
                    s,
                );
            lemma_can_open_exactly(v0, contact_id@, s, content@, now, contact_id@);
        }
        r
    }
}

/// Opening a chat twice gives the same conversation: the first opening
/// keeps what it gave, and the second gives exactly that.
pub proof fn lemma_reopen_gives_same(
    v: ChatStoreView,
    id: Seq<char>,
    s: ChatSessionView,
    s2: ChatSessionView,
)
    requires
        loaded_session(v, id, s),
        loaded_session(ChatStoreView { sessions: v.sessions.insert(id, s), ..v }, id, s2),
    ensures
        s2 == s,
{
}

/// After a message is sent to a chat, opening that chat gives the
/// conversation as it was with the new message at its end.
pub proof fn lemma_send_then_open(
    v: ChatStoreView,
    id: Seq<char>,
    content: Seq<char>,
    now: i64,
    s: ChatSessionView,
    s2: ChatSessionView,
)
    requires
        loaded_session(v, id, s),
        loaded_session(after_send(v, id, content, now, s), id, s2),
    ensures
        s2.contact == s.contact,
        s2.messages.len() == s.messages.len() + 1,
        s2.messages.drop_last() == s.messages,
        s2.messages.last() == outgoing_message(content, now),
        s2.messages.last().content == content,
        s2.messages.last().is_self,
{
    assert(s2.messages.drop_last() =~= s.messages);
}

/// Sending a message to one chat leaves every other loaded conversation as
/// it was, and loads none.
pub proof fn lemma_send_keeps_other_sessions(
    v: ChatStoreView,
    id: Seq<char>,
    content: Seq<char>,
    now: i64,
    s: ChatSessionView,
    other: Seq<char>,
)
    requires
        other != id,
    ensures
        after_send(v, id, content, now, s).sessions.contains_key(other)
            == v.sessions.contains_key(other),
        v.sessions.contains_key(other) ==> after_send(v, id, content, now, s).sessions[other]
            == v.sessions[other],
{
}

/// Sending a message changes the preview of one contact only: the first
/// with that id, whose last message becomes the one sent; the list keeps
/// its length and order.
pub proof fn lemma_send_updates_one_preview(
    v: ChatStoreView,
    id: Seq<char>,
    content: Seq<char>,
    now: i64,
    s: ChatSessionView,
)
    ensures
        after_send(v, id, content, now, s).contacts.len() == v.contacts.len(),
        forall|i: int|
            0 <= i < v.contacts.len() && i != find_contact(v.contacts, id) ==> (#[trigger] after_send(
                v,
                id,
                content,
                now,
                s,
            ).contacts[i]) == v.contacts[i],
        find_contact(v.contacts, id) >= 0 ==> {
            let c = after_send(v, id, content, now, s).contacts[find_contact(v.contacts, id)];
            &&& c.last_message == Some(content)
            &&& c.last_message_time == Some(now)
            &&& c.id == id
        },
{
    lemma_find_contact_range(v.contacts, id);
}

} // verus!

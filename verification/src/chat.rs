//! The chat area (the open conversation of a window), the chat input and
//! the window that shows one conversation on its own.
use vstd::prelude::*;
use vstd::string::*;
use crate::models::{ChatSession, ChatSessionView, Message, MessageView};
use crate::store::{ChatStore, ChatStoreEvent, can_open, loaded_session, after_send, outgoing_message};
use crate::events::ChatAreaEvent;
use crate::text::{str_eq, trim, trim_seq, string_of};
use crate::models::title_seq;

verus! {

/// The conversation a chat area shows after a new message for `id`: the
/// message is added at the end when the area shows that conversation.
pub open spec fn with_new_message(
    shown: Option<ChatSessionView>,
    id: Seq<char>,
    m: MessageView,
) -> Option<ChatSessionView> {
    match shown {
        Some(s) if s.contact.id == id => Some(ChatSessionView { messages: s.messages.push(m), ..s }),
        _ => shown,
    }
}

/// Where the message list scrolls after showing `s`: to its last message
/// (the first when there is none).
pub open spec fn scroll_target(s: ChatSessionView) -> nat {
    if s.messages.len() == 0 { 0 } else { (s.messages.len() - 1) as nat }
}

/// The conversation shown on the right of a window, if any.
pub struct ChatArea {
    current_session: Option<ChatSession>,
}

impl View for ChatArea {
    type V = Option<ChatSessionView>;

    closed spec fn view(&self) -> Option<ChatSessionView> {
        match self.current_session {
            Some(s) => Some(s@),
            None => None,
        }
    }
}

impl ChatArea {
    /// An area that shows no conversation.
    pub fn new() -> (r: Self)
        ensures
            r@ is None,
    {
        ChatArea { current_session: None }
    }

    /// The conversation shown.
    pub fn current_session(&self) -> (r: Option<&ChatSession>)
        ensures
            match r {
                Some(s) => self@ == Some(s@),
                None => self@ is None,
            },
    {
        self.current_session.as_ref()
    }

    /// The id of the contact of the conversation shown.
    pub fn current_contact_id(&self) -> (r: Option<String>)
        ensures
            match r {
                Some(id) => self@ matches Some(s) && s.contact.id == id@,
                None => self@ is None,
            },
    {
        match &self.current_session {
            Some(s) => Some(s.contact.id.clone()),
            None => None,
        }
    }

    /// Shows `session`, or nothing; returns where the message list is to
    /// scroll.
    pub fn set_session(&mut self, session: Option<ChatSession>) -> (r: Option<usize>)
        ensures
            final(self)@ == match session {
                Some(s) => Some(s@),
                None => None,
            },
            match r {
                Some(ix) => session matches Some(s) && ix == scroll_target(s@),
                None => session is None,
            },
    {
        self.current_session = session;
        match &self.current_session {
            Some(s) => {
                let n = s.messages.len();
                Some(if n == 0 { 0 } else { n - 1 })
            },
            None => None,
        }
    }

    /// Adds `message` at the end of the conversation shown, if there is
    /// one; returns where the message list is to scroll.
    pub fn add_message(&mut self, message: Message) -> (r: Option<usize>)
        ensures
            final(self)@ == match old(self)@ {
                Some(s) => Some(ChatSessionView { messages: s.messages.push(message@), ..s }),
                None => None,
            },
            match r {
                Some(ix) => final(self)@ matches Some(s) && ix == scroll_target(s),
                None => old(self)@ is None,
            },
    {
        match &mut self.current_session {
            Some(session) => {
                session.add_message(message);
                let n = session.messages.len();
                Some(if n == 0 { 0 } else { n - 1 })
            },
            None => None,
        }
    }

    /// A message for `contact_id` arrived: it is added when this area
    /// shows that conversation.
    pub fn handle_new_message(&mut self, contact_id: &str, message: Message) -> (r: Option<usize>)
        ensures
            final(self)@ == with_new_message(old(self)@, contact_id@, message@),
            r is Some <==> (old(self)@ matches Some(s) && s.contact.id == contact_id@),
            r is Some ==> (final(self)@ matches Some(s) && r->0 == scroll_target(s)),
    {
        let matches = match &self.current_session {
            Some(s) => str_eq(s.contact.id.as_str(), contact_id),
            None => false,
        };
        if matches {
            self.add_message(message)
        } else {
            None
        }
    }
}

/// Which message heights a render has to measure: all of them when the
/// width changed, only the new ones when messages were added, none
/// otherwise.
#[derive(Clone, Copy, Debug, PartialEq, Eq, Structural)]
pub enum MeasurePlan {
    All,
    From(usize),
    Nothing,
}

/// The measuring plan of a render with `msg_count` messages of which
/// `cached_count` are measured already.
pub fn measure_plan(width_changed: bool, msg_count: usize, cached_count: usize) -> (r: MeasurePlan)
    ensures
        r == if width_changed {
            MeasurePlan::All
        } else if msg_count > cached_count {
            MeasurePlan::From(cached_count)
        } else {
            MeasurePlan::Nothing
        },
{
    if width_changed {
        MeasurePlan::All
    } else if msg_count > cached_count {
        MeasurePlan::From(cached_count)
    } else {
        MeasurePlan::Nothing
    }
}

/// What the chat input sends for its content: the content without
/// surrounding whitespace, or nothing when that is empty.
pub fn outgoing_text(content: &str) -> (r: Option<String>)
    ensures
        match r {
            Some(t) => t@ == trim_seq(content@) && t@.len() > 0,
            None => trim_seq(content@).len() == 0,
        },
{
    let t = trim(content);
    if t.as_str().unicode_len() == 0 {
        None
    } else {
        Some(t)
    }
}

/// The event the chat area raises for what the input sent.
pub fn send_event(content: &str) -> (r: Option<ChatAreaEvent>)
    ensures
        match r {
            Some(ChatAreaEvent::SendMessage(t)) => t@ == trim_seq(content@) && t@.len() > 0,
            Some(ChatAreaEvent::InputResized) => false,
            None => trim_seq(content@).len() == 0,
        },
{
    match outgoing_text(content) {
        Some(t) => Some(ChatAreaEvent::SendMessage(t)),
        None => None,
    }
}

/// A window that shows one conversation.
pub struct ChatWindow {
    pub contact_id: String,
    pub chat_title: String,
    pub chat_area: ChatArea,
}

impl ChatWindow {
    /// Opens the window of `contact_id`: it shows the conversation the
    /// store gives, under the contact's title.
    pub fn open(store: &mut ChatStore, contact_id: &str) -> (r: Self)
        requires
            old(store).wf(),
            can_open(old(store)@, contact_id@),
        ensures
            final(store).wf(),
            r.contact_id@ == contact_id@,
            r.chat_area@ matches Some(s) && loaded_session(old(store)@, contact_id@, s)
                && r.chat_title@ == title_seq(s.contact) && final(store)@.sessions
                == old(store)@.sessions.insert(contact_id@, s) && final(store)@.contacts == old(
                store,
            )@.contacts,
    {
        let session = store.get_or_load_session(contact_id);
        let chat_title = session.contact.display_title();
        let mut chat_area = ChatArea::new();
        chat_area.set_session(Some(session));
        ChatWindow { contact_id: string_of(contact_id), chat_title, chat_area }
    }

    /// Sends what the input of this window sent, through the store.
    pub fn send(&self, store: &mut ChatStore, content: &str) -> (r: ChatStoreEvent)
        requires
            old(store).wf(),
            can_open(old(store)@, self.contact_id@),
        ensures
            final(store).wf(),
            exists|s: ChatSessionView, now: i64|
                loaded_session(old(store)@, self.contact_id@, s) && final(store)@
                    == #[trigger] after_send(old(store)@, self.contact_id@, content@, now, s)
                    && (r matches ChatStoreEvent::NewMessage { contact_id: id, message } && id@
                    == self.contact_id@ && message@ == outgoing_message(content@, now)),
    {
        store.send_message(self.contact_id.as_str(), content)
    }

    /// The store announced a change: a message of this window's
    /// conversation is added to it; others are ignored.
    pub fn on_store_event(&mut self, event: &ChatStoreEvent)
        ensures
            final(self).contact_id == old(self).contact_id,
            final(self).chat_title == old(self).chat_title,
            match event {
                ChatStoreEvent::NewMessage { contact_id, message } => final(self).chat_area@
                    == if contact_id@ == old(self).contact_id@ {
                    match old(self).chat_area@ {
                        Some(s) => Some(ChatSessionView { messages: s.messages.push(message@), ..s }),
                        None => None,
                    }
                } else {
                    old(self).chat_area@
                },
            },
    {
        match event {
            ChatStoreEvent::NewMessage { contact_id, message } => {
                if str_eq(contact_id.as_str(), self.contact_id.as_str()) {
                    self.chat_area.add_message(message.clone());
                }
            },
        }
    }
}

} // verus!

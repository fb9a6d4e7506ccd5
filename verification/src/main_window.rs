//! The decisions of the main window: selecting a conversation, sending from
//! it, following the store, and its title.
use vstd::prelude::*;
use crate::chat::{ChatArea, with_new_message};
use crate::events::{ChatAreaEvent, SelectSession};
use crate::models::{ChatSessionView, Contact, title_seq};
use crate::sample_data::contacts_view;
use crate::session_list::SessionList;
use crate::store::{
    ChatStore, ChatStoreEvent, ChatStoreView, after_send, can_open, loaded_session,
    outgoing_message, record_last_message,
};
use crate::text::str_eq;

verus! {

/// A conversation was selected in the list. Selecting the conversation
/// the chat area shows closes it; selecting another opens it as the store
/// gives it.
pub fn on_action_select_session(store: &mut ChatStore, area: &mut ChatArea, action: &SelectSession)
    requires
        old(store).wf(),
        (old(area)@ matches Some(s) && s.contact.id == action.contact_id@) || can_open(
            old(store)@,
            action.contact_id@,
        ),
    ensures
        final(store).wf(),
        if old(area)@ matches Some(s) && s.contact.id == action.contact_id@ {
            final(area)@ is None && final(store)@ == old(store)@
        } else {
            final(area)@ matches Some(s) && loaded_session(old(store)@, action.contact_id@, s)
                && final(store)@ == (ChatStoreView {
                sessions: old(store)@.sessions.insert(action.contact_id@, s),
                ..old(store)@
            })
        },
{
    let is_same = match area.current_contact_id() {
        Some(id) => str_eq(id.as_str(), action.contact_id.as_str()),
        None => false,
    };
    if is_same {
        area.set_session(None);
    } else {
        on_session_selected(store, area, action.contact_id.as_str());
    }
}

/// Opens the conversation with `contact_id` in the chat area.
pub fn on_session_selected(store: &mut ChatStore, area: &mut ChatArea, contact_id: &str)
    requires
        old(store).wf(),
        can_open(old(store)@, contact_id@),
    ensures
        final(store).wf(),
        final(area)@ matches Some(s) && loaded_session(old(store)@, contact_id@, s)
            && final(store)@ == (ChatStoreView {
            sessions: old(store)@.sessions.insert(contact_id@, s),
            ..old(store)@
        }),
{
    let session = store.get_or_load_session(contact_id);
    area.set_session(Some(session));
}

/// The user sent `content` from the main window: it goes to the
/// conversation the chat area shows, through the store; nothing is sent
/// when no conversation is shown.
pub fn on_send_message(store: &mut ChatStore, area: &ChatArea, content: &str) -> (r: Option<
    ChatStoreEvent,
>)
    requires
        old(store).wf(),
        area@ matches Some(s) ==> can_open(old(store)@, s.contact.id),
    ensures
        final(store).wf(),
        match area@ {
            None => r is None && final(store)@ == old(store)@,
            Some(shown) => exists|s: ChatSessionView, now: i64|
                loaded_session(old(store)@, shown.contact.id, s) && final(store)@
                    == #[trigger] after_send(old(store)@, shown.contact.id, content@, now, s)
                    && (r matches Some(ChatStoreEvent::NewMessage { contact_id: id, message })
                    && id@ == shown.contact.id && message@ == outgoing_message(content@, now)),
        },
{
    match area.current_contact_id() {
        Some(contact_id) => Some(store.send_message(contact_id.as_str(), content)),
        None => None,
    }
}

/// Copies a contact list.
fn clone_contacts(v: &Vec<Contact>) -> (r: Vec<Contact>)
    ensures
        contacts_view(r@) == contacts_view(v@),
{
    let mut r: Vec<Contact> = Vec::new();
    let mut i: usize = 0;
    while i < v.len()
        invariant
            i <= v.len(),
            r@.len() == i,
            forall|j: int| 0 <= j < i ==> (#[trigger] r@[j])@ == v@[j]@,
        decreases v.len() - i,
    {
        r.push(v[i].clone());
        i = i + 1;
    }
    assert(contacts_view(r@) =~= contacts_view(v@));
    r
}

/// The session list of a new main window: the store's contacts, in its
/// order, with nothing selected.
pub fn session_list_for(store: &ChatStore) -> (r: SessionList)
    ensures
        r@.contacts == store@.contacts,
        r@.selected is None,
{
    let mut list = SessionList::new();
    list.set_contacts(clone_contacts(store.contacts()));
    list
}

/// What the main window does after an event of its chat area.
pub enum MainWindowStep {
    /// The input area was resized: the layout is to be saved.
    SaveLayout,
    /// The input sent a message, with the store's announcement when a
    /// conversation was shown.
    Sent(Option<ChatStoreEvent>),
}

/// An event of the main window's chat area: a resize of the input asks for
/// the layout to be saved and changes nothing else; a message is sent as
/// `on_send_message` sends it.
pub fn handle_chat_area_event(store: &mut ChatStore, area: &ChatArea, event: &ChatAreaEvent) -> (r:
    MainWindowStep)
    requires
        old(store).wf(),
        area@ matches Some(s) ==> can_open(old(store)@, s.contact.id),
    ensures
        final(store).wf(),
        match event {
            ChatAreaEvent::InputResized => r is SaveLayout && final(store)@ == old(store)@,
            ChatAreaEvent::SendMessage(content) => match area@ {
                None => r matches MainWindowStep::Sent(None) && final(store)@ == old(store)@,
                Some(shown) => exists|s: ChatSessionView, now: i64|
                    loaded_session(old(store)@, shown.contact.id, s) && final(store)@
                        == #[trigger] after_send(old(store)@, shown.contact.id, content@, now, s)
                        && (r matches MainWindowStep::Sent(Some(ChatStoreEvent::NewMessage { contact_id: id, message })) && id@
                        == shown.contact.id && message@ == outgoing_message(content@, now)),
            },
        },
{
    match event {
        ChatAreaEvent::InputResized => MainWindowStep::SaveLayout,
        ChatAreaEvent::SendMessage(content) => MainWindowStep::Sent(on_send_message(store, area, content.as_str())),
    }
}

/// The store announced a change: the session list shows the new last
/// message, and the chat area adds the message when it shows that
/// conversation.
pub fn apply_store_event(list: &mut SessionList, area: &mut ChatArea, event: &ChatStoreEvent)
    ensures
        match event {
            ChatStoreEvent::NewMessage { contact_id, message } => {
                &&& final(area)@ == with_new_message(old(area)@, contact_id@, message@)
                &&& final(list)@.selected == old(list)@.selected
                &&& exists|now: i64|
                    final(list)@.contacts == #[trigger] record_last_message(
                        old(list)@.contacts,
                        contact_id@,
                        message@.content,
                        now,
                    )
            },
        },
{
    match event {
        ChatStoreEvent::NewMessage { contact_id, message } => {
            let ghost before = list@;
            list.update_contact_last_message(contact_id.as_str(), message.content.as_str());
            proof {
                let now = choose|now: i64|
                    list@.contacts == #[trigger] record_last_message(
                        before.contacts,
                        contact_id@,
                        message.content@,
                        now,
                    );
                assert(message@.content == message.content@);
                assert(list@.contacts == record_last_message(
                    before.contacts,
                    contact_id@,
                    message@.content,
                    now,
                ));
            }
            let copy = message.clone();
            area.handle_new_message(contact_id.as_str(), copy);
            assert(copy@ == message@);
        },
    }
}

/// The title above the chat: the title of the contact shown, or nothing.
pub fn get_current_chat_title(area: &ChatArea) -> (r: String)
    ensures
        r@ == match area@ {
            Some(s) => title_seq(s.contact),
            None => Seq::<char>::empty(),
        },
{
    match area.current_session() {
        Some(s) => s.contact.display_title(),
        None => String::new(),
    }
}

/// Every window that shows a conversation stays in step with the store: a
/// window that showed the conversation the store gives for `id` shows,
/// once it has applied the store's announcement of a message sent there,
/// exactly the conversation the store then holds; a window showing another
/// conversation is unchanged.
pub proof fn lemma_windows_stay_in_sync(
    v: ChatStoreView,
    id: Seq<char>,
    content: Seq<char>,
    now: i64,
    s: ChatSessionView,
    other: Option<ChatSessionView>,
)
    requires
        loaded_session(v, id, s),
        s.contact.id == id,
        other matches Some(o) ==> o.contact.id != id,
    ensures
        with_new_message(Some(s), id, outgoing_message(content, now)) == Some(
            after_send(v, id, content, now, s).sessions[id],
        ),
        with_new_message(other, id, outgoing_message(content, now)) == other,
{
}

} // verus!

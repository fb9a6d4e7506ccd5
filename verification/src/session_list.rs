//! The session list: the contacts shown in the middle column and which one
//! is selected.
use vstd::prelude::*;
use crate::models::{Contact, ContactView};
use crate::events::{OpenChatWindow, SelectSession};
use crate::sample_data::contacts_view;
use crate::store::{lemma_find_contact_at, lemma_find_contact_none, record_last_message};
use crate::text::{str_eq, string_of};
use crate::clock::now_millis;

verus! {

/// The contacts in list order and the id of the selected one.
pub struct SessionListView {
    pub contacts: Seq<ContactView>,
    pub selected: Option<Seq<char>>,
}

/// The selection after a click on the row of `id`: clicking the selected
/// row clears the selection, clicking another row selects it.
pub open spec fn selection_after_click(selected: Option<Seq<char>>, id: Seq<char>) -> Option<
    Seq<char>,
> {
    if selected == Some(id) {
        None
    } else {
        Some(id)
    }
}

/// What a click on a row asks of the rest of the client: select that
/// conversation, and on a double click also open it in a window of its
/// own.
pub struct SessionClick {
    pub select: SelectSession,
    pub open_window: Option<OpenChatWindow>,
}

/// The state of the session list.
pub struct SessionList {
    contacts: Vec<Contact>,
    selected_id: Option<String>,
}

impl View for SessionList {
    type V = SessionListView;

    closed spec fn view(&self) -> SessionListView {
        SessionListView {
            contacts: contacts_view(self.contacts@),
            selected: match self.selected_id {
                Some(s) => Some(s@),
                None => None,
            },
        }
    }
}

impl SessionList {
    /// An empty list with nothing selected.
    pub fn new() -> (r: Self)
        ensures
            r@.contacts == Seq::<ContactView>::empty(),
            r@.selected is None,
    {
        let r = SessionList { contacts: Vec::new(), selected_id: None };
        assert(contacts_view(r.contacts@) =~= Seq::<ContactView>::empty());
        r
    }

    /// The contacts in list order.
    pub fn contacts(&self) -> (r: &Vec<Contact>)
        ensures
            contacts_view(r@) == self@.contacts,
    {
        &self.contacts
    }

    /// The id of the selected contact.
    pub fn selected_id(&self) -> (r: Option<&String>)
        ensures
            match r {
                Some(s) => self@.selected == Some(s@),
                None => self@.selected is None,
            },
    {
        self.selected_id.as_ref()
    }

    /// Replaces the contacts; the selection stays.
    pub fn set_contacts(&mut self, contacts: Vec<Contact>)
        ensures
            final(self)@ == (SessionListView { contacts: contacts_view(contacts@), ..old(self)@ }),
    {
        self.contacts = contacts;
    }

    /// Selects the contact `contact_id`, or nothing.
    pub fn set_selected(&mut self, contact_id: Option<String>)
        ensures
            final(self)@ == (SessionListView {
                selected: match contact_id {
                    Some(s) => Some(s@),
                    None => None,
                },
                ..old(self)@
            }),
    {
        self.selected_id = contact_id;
    }

    /// Whether the row of `contact_id` is selected.
    pub fn is_selected(&self, contact_id: &str) -> (r: bool)
        ensures
            r == (self@.selected == Some(contact_id@)),
    {
        match &self.selected_id {
            Some(s) => str_eq(s.as_str(), contact_id),
            None => false,
        }
    }

    /// The row of the first contact with id `contact_id` shows `message`,
    /// sent at `now`, as its last message.
    pub fn update_contact_last_message_at(&mut self, contact_id: &str, message: &str, now: i64)
        ensures
            final(self)@ == (SessionListView {
                contacts: record_last_message(old(self)@.contacts, contact_id@, message@, now),
                ..old(self)@
            }),
    {
        let ghost cs = contacts_view(self.contacts@);
        let mut i: usize = 0;
        while i < self.contacts.len()
            invariant
                cs == contacts_view(self.contacts@),
                cs == old(self)@.contacts,
                self.selected_id == old(self).selected_id,
                i <= self.contacts@.len(),
                forall|j: int| 0 <= j < i ==> (#[trigger] cs[j]).id != contact_id@,
            decreases self.contacts.len() - i,
        {
            if str_eq(self.contacts[i].id.as_str(), contact_id) {
                proof {
                    assert(cs[i as int] == self.contacts@[i as int]@);
                    lemma_find_contact_at(cs, contact_id@, i as int);
                }
                let mut c = self.contacts[i].clone();
                c.last_message = Some(string_of(message));
                c.last_message_time = Some(now);
                self.contacts.set(i, c);
                assert(contacts_view(self.contacts@) =~= record_last_message(cs, contact_id@, message@, now));
                return;
            }
            assert(cs[i as int] == self.contacts@[i as int]@);
            i = i + 1;
        }
        proof {
            lemma_find_contact_none(cs, contact_id@);
        }
    }

    /// The row of the first contact with id `contact_id` shows `message`,
    /// sent now, as its last message.
    pub fn update_contact_last_message(&mut self, contact_id: &str, message: &str)
        ensures
            final(self)@.selected == old(self)@.selected,
            exists|now: i64|
                final(self)@.contacts == #[trigger] record_last_message(
                    old(self)@.contacts,
                    contact_id@,
                    message@,
                    now,
                ),
    {
        let now = now_millis();
        self.update_contact_last_message_at(contact_id, message, now);
    }

    /// A click on the row of `contact_id` (`click_count` 2 for a double
    /// click): the selection changes as `selection_after_click` says, the
    /// conversation is to be selected, and a double click also opens its
    /// window.
    pub fn click_session(&mut self, contact_id: &str, click_count: usize) -> (r: SessionClick)
        ensures
            final(self)@ == (SessionListView {
                selected: selection_after_click(old(self)@.selected, contact_id@),
                ..old(self)@
            }),
            r.select.contact_id@ == contact_id@,
            match r.open_window {
                Some(w) => click_count == 2 && w.contact_id@ == contact_id@,
                None => click_count != 2,
            },
    {
        if self.is_selected(contact_id) {
            self.selected_id = None;
        } else {
            self.selected_id = Some(string_of(contact_id));
        }
        let open_window = if click_count == 2 {
            Some(OpenChatWindow { contact_id: string_of(contact_id) })
        } else {
            None
        };
        SessionClick { select: SelectSession { contact_id: string_of(contact_id) }, open_window }
    }
}

/// Clicking the same row twice gives back the selection of another row,
/// or clears the selection of that row: the first click selects it unless
/// it was selected, the second undoes the first.
pub proof fn lemma_click_twice(selected: Option<Seq<char>>, id: Seq<char>)
    ensures
        selection_after_click(selected, id) == if selected == Some(id) { None::<Seq<char>> } else { Some(id) },
        selection_after_click(selection_after_click(selected, id), id) == if selected == Some(id) {
            Some(id)
        } else {
            None::<Seq<char>>
        },
{
}

} // verus!

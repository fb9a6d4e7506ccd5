//! Where contacts and conversations come from.
use vstd::prelude::*;
use crate::models::{Contact, Message, messages_view};
use crate::sample_data::{
    create_sample_contacts, create_sample_messages, contacts_view, sample_contacts_seq,
    sample_messages_seq,
};
use crate::clock::TIMESTAMP_BOUND_MS;

verus! {

/// A source of the contact list.
pub trait ContactsRepo: Send + Sync {
    fn get_all(&self) -> Vec<Contact>;
}

/// A source of the conversation with a contact.
pub trait SessionsRepo: Send + Sync {
    fn get_messages(&self, contact: &Contact) -> Vec<Message>;
}

/// The contact list held in memory: the sample contacts.
pub struct MemoryContactsRepo;

impl MemoryContactsRepo {
    pub fn new() -> (r: Self) {
        MemoryContactsRepo
    }

    /// The sample contacts, their previews made now.
    pub fn get_all(&self) -> (r: Vec<Contact>)
        ensures
            exists|now: int|
                -TIMESTAMP_BOUND_MS < now < TIMESTAMP_BOUND_MS
                && contacts_view(r@) == #[trigger] sample_contacts_seq(now),
    {
        create_sample_contacts()
    }
}

/// The conversations held in memory: the sample conversation of each
/// contact.
pub struct MemorySessionsRepo;

impl MemorySessionsRepo {
    pub fn new() -> (r: Self) {
        MemorySessionsRepo
    }

    /// The sample conversation with `contact`, made now.
    pub fn get_messages(&self, contact: &Contact) -> (r: Vec<Message>)
        ensures
            exists|now: int|
                -TIMESTAMP_BOUND_MS < now < TIMESTAMP_BOUND_MS
                && messages_view(r@) == #[trigger] sample_messages_seq(contact@, now),
    {
        create_sample_messages(contact)
    }
}

impl ContactsRepo for MemoryContactsRepo {
    /// The sample contacts, their previews made now.
    fn get_all(&self) -> (r: Vec<Contact>)
        ensures
            exists|now: int|
                -TIMESTAMP_BOUND_MS < now < TIMESTAMP_BOUND_MS
                && contacts_view(r@) == #[trigger] sample_contacts_seq(now),
    {
        create_sample_contacts()
    }
}

impl SessionsRepo for MemorySessionsRepo {
    /// The sample conversation with `contact`, made now.
    fn get_messages(&self, contact: &Contact) -> (r: Vec<Message>)
        ensures
            exists|now: int|
                -TIMESTAMP_BOUND_MS < now < TIMESTAMP_BOUND_MS
                && messages_view(r@) == #[trigger] sample_messages_seq(contact@, now),
    {
        create_sample_messages(contact)
    }
}

} // verus!

//! The chat windows that are open, so that each conversation has at most
//! one window of its own.
use vstd::prelude::*;
use crate::text::{str_eq, string_of};

verus! {

/// The ids of the conversations whose chat window is open.
pub struct ChatWindowRegistry {
    ids: Vec<String>,
}

impl View for ChatWindowRegistry {
    type V = Set<Seq<char>>;

    closed spec fn view(&self) -> Set<Seq<char>> {
        Set::new(|x: Seq<char>| exists|i: int| 0 <= i < self.ids@.len() && #[trigger] self.ids@[i]@ == x)
    }
}

impl ChatWindowRegistry {
    /// No id is held twice.
    pub closed spec fn wf(&self) -> bool {
        forall|i: int, j: int|
            0 <= i < self.ids@.len() && 0 <= j < self.ids@.len() && i != j ==> (#[trigger] self.ids@[i])@
                != (#[trigger] self.ids@[j])@
    }

    /// No window is open.
    pub fn new() -> (r: Self)
        ensures
            r.wf(),
            r@ == Set::<Seq<char>>::empty(),
    {
        let r = ChatWindowRegistry { ids: Vec::new() };
        assert(r@ =~= Set::<Seq<char>>::empty());
        r
    }

    fn index_of(&self, contact_id: &str) -> (r: Option<usize>)
        ensures
            match r {
                Some(i) => i < self.ids@.len() && self.ids@[i as int]@ == contact_id@,
                None => !self@.contains(contact_id@),
            },
    {
        let mut i: usize = 0;
        while i < self.ids.len()
            invariant
                i <= self.ids@.len(),
                forall|j: int| 0 <= j < i ==> (#[trigger] self.ids@[j])@ != contact_id@,
            decreases self.ids.len() - i,
        {
            if str_eq(self.ids[i].as_str(), contact_id) {
                return Some(i);
            }
            i = i + 1;
        }
        None
    }

    /// Whether the window of `contact_id` is open.
    pub fn contains(&self, contact_id: &str) -> (r: bool)
        ensures
            r == self@.contains(contact_id@),
    {
        match self.index_of(contact_id) {
            Some(i) => {
                assert(self@.contains(self.ids@[i as int]@));
                true
            },
            None => false,
        }
    }

    /// Reserves the window of `contact_id`: true, and the id is recorded,
    /// when no window of that conversation is open; false, and nothing
    /// changes, when one is.
    pub fn try_reserve(&mut self, contact_id: &str) -> (r: bool)
        requires
            old(self).wf(),
        ensures
            final(self).wf(),
            r == !old(self)@.contains(contact_id@),
            final(self)@ == old(self)@.insert(contact_id@),
    {
        if self.contains(contact_id) {
            assert(self@.insert(contact_id@) =~= self@);
            false
        } else {
            let ghost before = self.ids@;
            self.ids.push(string_of(contact_id));
            proof {
                assert forall|i: int, j: int|
                    0 <= i < self.ids@.len() && 0 <= j < self.ids@.len() && i != j implies (#[trigger] self.ids@[i])@
                    != (#[trigger] self.ids@[j])@ by {
                    if i < before.len() && j < before.len() {
                        assert(self.ids@[i] == before[i] && self.ids@[j] == before[j]);
                    } else if i < before.len() {
                        assert(self.ids@[i] == before[i]);
                        assert(!old(self)@.contains(contact_id@));
                    } else {
                        assert(self.ids@[j] == before[j]);
                        assert(!old(self)@.contains(contact_id@));
                    }
                }
                assert forall|x: Seq<char>| #[trigger] self@.contains(x) == old(self)@.insert(contact_id@).contains(x) by {
                    if old(self)@.contains(x) {
                        let k = choose|k: int| 0 <= k < before.len() && #[trigger] before[k]@ == x;
                        assert(self.ids@[k] == before[k]);
                    }
                    if self@.contains(x) {
                        let k = choose|k: int| 0 <= k < self.ids@.len() && #[trigger] self.ids@[k]@ == x;
                        if k < before.len() {
                            assert(self.ids@[k] == before[k]);
                        }
                    }
                    if x == contact_id@ {
                        assert(self.ids@[before.len() as int]@ == x);
                    }
                }
                assert(self@ =~= old(self)@.insert(contact_id@));
            }
            true
        }
    }

    /// Forgets the window of `contact_id` when it closes.
    pub fn release(&mut self, contact_id: &str)
        requires
            old(self).wf(),
        ensures
            final(self).wf(),
            final(self)@ == old(self)@.remove(contact_id@),
    {
        match self.index_of(contact_id) {
            Some(i) => {
                let ghost before = self.ids@;
                self.ids.remove(i);
                proof {
                    assert forall|a: int, b: int|
                        0 <= a < self.ids@.len() && 0 <= b < self.ids@.len() && a != b implies (#[trigger] self.ids@[a])@
                        != (#[trigger] self.ids@[b])@ by {
                        let a0 = if a < i { a } else { a + 1 };
                        let b0 = if b < i { b } else { b + 1 };
                        assert(self.ids@[a] == before[a0] && self.ids@[b] == before[b0]);
                    }
                    assert forall|x: Seq<char>| #[trigger] self@.contains(x) == old(self)@.remove(contact_id@).contains(x) by {
                        if self@.contains(x) {
                            let k = choose|k: int| 0 <= k < self.ids@.len() && #[trigger] self.ids@[k]@ == x;
                            let k0 = if k < i { k } else { k + 1 };
                            assert(self.ids@[k] == before[k0]);
                            assert(k0 != i);
                        }
                        if old(self)@.contains(x) && x != contact_id@ {
                            let k = choose|k: int| 0 <= k < before.len() && #[trigger] before[k]@ == x;
                            assert(k != i);
                            if k < i {
                                assert(self.ids@[k] == before[k]);
                            } else {
                                assert(self.ids@[k - 1] == before[k]);
                            }
                        }
                    }
                    assert(self@ =~= old(self)@.remove(contact_id@));
                }
            },
            None => {
                assert(self@ =~= old(self)@.remove(contact_id@));
            },
        }
    }
}

/// A conversation gets one window at a time: once its window is reserved,
/// reserving it again is refused until the window is released; releasing
/// it makes the reservation possible again. Windows of other
/// conversations are not affected.
pub proof fn lemma_one_window_per_conversation(reg: Set<Seq<char>>, id: Seq<char>, other: Seq<char>)
    requires
        other != id,
    ensures
        reg.insert(id).contains(id),
        !reg.insert(id).remove(id).contains(id),
        reg.insert(id).contains(other) == reg.contains(other),
        reg.insert(id).remove(id).contains(other) == reg.contains(other),
{
}

/// Whether the settings window is open: there is at most one.
pub struct SettingsWindowLatch {
    pub open: bool,
}

impl SettingsWindowLatch {
    /// No settings window is open.
    pub fn new() -> (r: Self)
        ensures
            !r.open,
    {
        SettingsWindowLatch { open: false }
    }

    /// Opening the settings window: allowed (true) only when none is open;
    /// afterwards one is open either way.
    pub fn try_open(&mut self) -> (r: bool)
        ensures
            r == !old(self).open,
            final(self).open,
    {
        if self.open {
            false
        } else {
            self.open = true;
            true
        }
    }

    /// The settings window closed.
    pub fn close(&mut self)
        ensures
            !final(self).open,
    {
        self.open = false;
    }
}

} // verus!

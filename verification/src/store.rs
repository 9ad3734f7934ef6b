use vstd::prelude::*;

use crate::contact::Contact;
use crate::contact::ContactData;
use crate::contact::ContactView;
use crate::contact::ContactDataView;
use crate::contact::spec_new_contact;
use crate::contact::spec_updated;
use crate::contact::accepted_photo;
use crate::contact::updated_contact;

verus! {

/// Mathematical image of the contacts table: the rows in store order, and
/// the id the store will assign to the next created contact.
#[verifier::ext_equal]
pub ghost struct StoreView {
    pub contacts: Seq<ContactView>,
    pub next_id: int,
}

/// The persistence gateway over the contacts table, modelled in memory:
/// rows in store order plus the id counter the store assigns from.
pub struct ContactStore {
    contacts: Vec<Contact>,
    next_id: i32,
}

pub open spec fn contacts_view(v: Seq<Contact>) -> Seq<ContactView> {
    v.map_values(|c: Contact| c@)
}

impl View for ContactStore {
    type V = StoreView;

    closed spec fn view(&self) -> StoreView {
        StoreView { contacts: contacts_view(self.contacts@), next_id: self.next_id as int }
    }
}

/// Store invariant: ids are assigned by the store, so every row's id is at
/// least 1 and below the counter, and no two rows share an id.
pub open spec fn wf_store(s: StoreView) -> bool {
    &&& 1 <= s.next_id
    &&& forall|i: int|
        0 <= i < s.contacts.len() ==> 1 <= (#[trigger] s.contacts[i]).id < s.next_id
    &&& forall|i: int, j: int|
        0 <= i < j < s.contacts.len() ==> s.contacts[i].id != s.contacts[j].id
}

/// Index of the first row with the given id, or -1 when no row has it.
pub open spec fn spec_find_index(contacts: Seq<ContactView>, id: int) -> int
    decreases contacts.len(),
{
    if contacts.len() == 0 {
        -1
    } else if contacts[0].id == id {
        0
    } else {
        let rest = spec_find_index(contacts.drop_first(), id);
        if rest == -1 {
            -1
        } else {
            rest + 1
        }
    }
}

/// The row the store yields for a lookup by id.
pub open spec fn spec_find(contacts: Seq<ContactView>, id: int) -> Option<ContactView> {
    let k = spec_find_index(contacts, id);
    if k == -1 {
        None
    } else {
        Some(contacts[k])
    }
}

/// What `spec_find_index` returns: -1 exactly when no row carries the id,
/// otherwise the first index that does.
pub proof fn lemma_find_index(contacts: Seq<ContactView>, id: int)
    ensures
        spec_find_index(contacts, id) == -1 ==> forall|i: int|
            0 <= i < contacts.len() ==> (#[trigger] contacts[i]).id != id,
        spec_find_index(contacts, id) != -1 ==> {
            let k = spec_find_index(contacts, id);
            &&& 0 <= k < contacts.len()
            &&& contacts[k].id == id
            &&& forall|j: int| 0 <= j < k ==> (#[trigger] contacts[j]).id != id
        },
    decreases contacts.len(),
{
    if contacts.len() == 0 {
    } else if contacts[0].id == id {
    } else {
        lemma_find_index(contacts.drop_first(), id);
        assert forall|i: int| 1 <= i < contacts.len() implies contacts.drop_first()[i - 1]
            == contacts[i] by {}
    }
}

/// A sequence position that carries the id and is the first to do so is
/// exactly what `spec_find_index` returns.
pub proof fn lemma_find_index_of(contacts: Seq<ContactView>, id: int, k: int)
    requires
        0 <= k < contacts.len(),
        contacts[k].id == id,
        forall|j: int| 0 <= j < k ==> (#[trigger] contacts[j]).id != id,
    ensures
        spec_find_index(contacts, id) == k,
{
    lemma_find_index(contacts, id);
    let r = spec_find_index(contacts, id);
    assert(r != -1);
    if r < k {
        assert(contacts[r].id != id);
    }
    if r > k {
        assert(contacts[k].id != id);
    }
}

/// The store after create: the new row, built from the payload under the
/// photo rule, appended with the counter's id, and the counter advanced.
pub open spec fn spec_create(s: StoreView, f: ContactDataView) -> StoreView {
    StoreView {
        contacts: s.contacts.push(spec_new_contact(s.next_id, f)),
        next_id: s.next_id + 1,
    }
}

/// The store after update: unchanged when the id is absent, otherwise the
/// matching row replaced in place under the update rule.
pub open spec fn spec_update(s: StoreView, id: int, f: ContactDataView) -> StoreView {
    let k = spec_find_index(s.contacts, id);
    if k == -1 {
        s
    } else {
        StoreView { contacts: s.contacts.update(k, spec_updated(s.contacts[k], f)), ..s }
    }
}

/// The store after delete: unchanged when the id is absent, otherwise the
/// matching row removed permanently.
pub open spec fn spec_delete(s: StoreView, id: int) -> StoreView {
    let k = spec_find_index(s.contacts, id);
    if k == -1 {
        s
    } else {
        StoreView { contacts: s.contacts.remove(k), ..s }
    }
}

pub open spec fn opt_contact_view(o: Option<Contact>) -> Option<ContactView> {
    match o {
        Some(c) => Some(c@),
        None => None,
    }
}

impl ContactStore {
    /// An empty store; the first assigned id will be 1.
    pub fn new() -> (s: ContactStore)
        ensures
            s@ == (StoreView { contacts: Seq::<ContactView>::empty(), next_id: 1 }),
            wf_store(s@),
    {
        let s = ContactStore { contacts: Vec::new(), next_id: 1 };
        proof {
            assert(s@ =~= StoreView { contacts: Seq::<ContactView>::empty(), next_id: 1 });
        }
        s
    }

    /// Index of the row with this id, or None when the store has none.
    fn find_index(&self, id: i32) -> (r: Option<usize>)
        ensures
            match r {
                Some(k) => k as int == spec_find_index(self@.contacts, id as int),
                None => spec_find_index(self@.contacts, id as int) == -1,
            },
    {
        let n = self.contacts.len();
        let mut i: usize = 0;
        while i < n
            invariant
                n == self.contacts.len(),
                0 <= i <= n,
                forall|j: int| 0 <= j < i ==> (#[trigger] self@.contacts[j]).id != id as int,
            decreases n - i,
        {
            if self.contacts[i].id == id {
                proof {
                    assert(self@.contacts[i as int].id == id as int);
                    lemma_find_index_of(self@.contacts, id as int, i as int);
                }
                return Some(i);
            }
            i = i + 1;
        }
        proof {
            assert(spec_find_index(self@.contacts, id as int) == -1) by {
                lemma_find_index(self@.contacts, id as int);
                let k = spec_find_index(self@.contacts, id as int);
                if k != -1 {
                    assert(self@.contacts[k].id != id as int);
                }
            }
        }
        None
    }

    /// All rows, in store order. An empty store yields an empty sequence,
    /// never an error.
    pub fn list(&self) -> (r: Vec<Contact>)
        ensures
            contacts_view(r@) == self@.contacts,
    {
        let ghost goal = self@.contacts;
        let n = self.contacts.len();
        let mut r: Vec<Contact> = Vec::new();
        let mut i: usize = 0;
        proof {
            assert(contacts_view(r@) =~= goal.subrange(0, 0));
        }
        while i < n
            invariant
                n == self.contacts.len(),
                0 <= i <= n,
                goal == self@.contacts,
                contacts_view(r@) == goal.subrange(0, i as int),
            decreases n - i,
        {
            let ghost prev = r@;
            let c = self.contacts[i].duplicate();
            r.push(c);
            proof {
                assert(contacts_view(prev).len() == prev.len());
                assert(prev.len() == i as int);
                assert(r@ == prev.push(c));
                assert(r@.len() == i as int + 1);
                assert forall|j: int| 0 <= j < i + 1 implies contacts_view(r@)[j]
                    == goal.subrange(0, i as int + 1)[j] by {
                    if j < i {
                        assert(contacts_view(prev)[j] == goal[j]);
                    } else {
                        assert(r@[j] == c);
                        assert(c@ == goal[i as int]);
                    }
                }
                assert(contacts_view(r@) =~= goal.subrange(0, i as int + 1));
            }
            i = i + 1;
        }
        proof {
            assert(goal.subrange(0, n as int) =~= goal);
        }
        r
    }

    /// The row with this id, or None when the store has none.
    pub fn get(&self, id: i32) -> (r: Option<Contact>)
        ensures
            opt_contact_view(r) == spec_find(self@.contacts, id as int),
    {
        match self.find_index(id) {
            Some(k) => {
                proof {
                    lemma_find_index(self@.contacts, id as int);
                }
                Some(self.contacts[k].duplicate())
            },
            None => None,
        }
    }

    /// Inserts one new row with a store-assigned id and returns that id.
    /// The photo field is kept only when it is a valid absolute URL.
    pub fn create(&mut self, data: ContactData) -> (id: i32)
        requires
            wf_store(old(self)@),
            old(self)@.next_id < i32::MAX,
        ensures
            final(self)@ == spec_create(old(self)@, data@),
            id as int == old(self)@.next_id,
            wf_store(final(self)@),
    {
        let id = self.next_id;
        let photo = accepted_photo(data.photo);
        let c = Contact {
            id,
            name: data.name,
            email: data.email,
            phone: data.phone,
            address: data.address,
            city: data.city,
            photo,
        };
        proof {
            assert(c@ =~= spec_new_contact(old(self)@.next_id, data@));
        }
        self.contacts.push(c);
        self.next_id = id + 1;
        proof {
            assert(self@.contacts =~= old(self)@.contacts.push(c@));
            assert(self@ =~= spec_create(old(self)@, data@));
        }
        id
    }

    /// Overwrites the row with this id under the update rule and reports
    /// whether the id was present; an absent id leaves the store unchanged.
    pub fn update(&mut self, id: i32, data: ContactData) -> (found: bool)
        requires
            wf_store(old(self)@),
        ensures
            final(self)@ == spec_update(old(self)@, id as int, data@),
            found == (spec_find_index(old(self)@.contacts, id as int) != -1),
            wf_store(final(self)@),
    {
        match self.find_index(id) {
            Some(k) => {
                proof {
                    lemma_find_index(self@.contacts, id as int);
                }
                let c = updated_contact(&self.contacts[k], data);
                self.contacts.set(k, c);
                proof {
                    assert(self@.contacts =~= old(self)@.contacts.update(
                        k as int,
                        spec_updated(old(self)@.contacts[k as int], data@),
                    ));
                    assert(self@ =~= spec_update(old(self)@, id as int, data@));
                }
                true
            },
            None => {
                proof {
                    assert(self@ =~= spec_update(old(self)@, id as int, data@));
                }
                false
            },
        }
    }

    /// Removes the row with this id permanently and reports whether the id
    /// was present; an absent id leaves the store unchanged.
    pub fn delete(&mut self, id: i32) -> (found: bool)
        requires
            wf_store(old(self)@),
        ensures
            final(self)@ == spec_delete(old(self)@, id as int),
            found == (spec_find_index(old(self)@.contacts, id as int) != -1),
            wf_store(final(self)@),
    {
        match self.find_index(id) {
            Some(k) => {
                proof {
                    lemma_find_index(self@.contacts, id as int);
                }
                self.contacts.remove(k);
                proof {
                    assert(self@.contacts =~= old(self)@.contacts.remove(k as int));
                    assert(self@ =~= spec_delete(old(self)@, id as int));
                }
                true
            },
            None => {
                proof {
                    assert(self@ =~= spec_delete(old(self)@, id as int));
                }
                false
            },
        }
    }
}

} // verus!

use vstd::prelude::*;

use crate::contact::Contact;
use crate::contact::ContactData;
use crate::contact::ContactView;
use crate::store::ContactStore;
use crate::store::contacts_view;
use crate::store::spec_find;
use crate::store::spec_find_index;
use crate::store::spec_create;
use crate::store::spec_update;
use crate::store::spec_delete;
use crate::store::wf_store;

verus! {

/// The response of a contact endpoint. Entity-carrying variants hold the
/// contacts themselves; the surrounding program serializes them. Text
/// variants carry a fixed confirmation or error message.
pub enum ApiResponse {
    /// 200 with the full contact list.
    ContactList(Vec<Contact>),
    /// 200 with one contact.
    SingleContact(Contact),
    /// 201 "Contact Created."
    Created,
    /// 200 "Contact Updated."
    Updated,
    /// 200 "Contact Deleted."
    Deleted,
    /// 404 "Contact not found."
    NotFound,
}

#[verifier::ext_equal]
pub ghost enum ApiResponseView {
    ContactList(Seq<ContactView>),
    SingleContact(ContactView),
    Created,
    Updated,
    Deleted,
    NotFound,
}

impl View for ApiResponse {
    type V = ApiResponseView;

    open spec fn view(&self) -> ApiResponseView {
        match self {
            ApiResponse::ContactList(v) => ApiResponseView::ContactList(contacts_view(v@)),
            ApiResponse::SingleContact(c) => ApiResponseView::SingleContact(c@),
            ApiResponse::Created => ApiResponseView::Created,
            ApiResponse::Updated => ApiResponseView::Updated,
            ApiResponse::Deleted => ApiResponseView::Deleted,
            ApiResponse::NotFound => ApiResponseView::NotFound,
        }
    }
}

/// HTTP status of each response: 201 for a creation, 404 for a missing
/// contact, 200 for everything else.
pub open spec fn spec_status(r: ApiResponseView) -> int {
    match r {
        ApiResponseView::Created => 201,
        ApiResponseView::NotFound => 404,
        _ => 200,
    }
}

/// Fixed text body of each response; entity-carrying responses have none
/// here, their body is the serialized entity.
pub open spec fn spec_message(r: ApiResponseView) -> Option<Seq<char>> {
    match r {
        ApiResponseView::ContactList(_) => None,
        ApiResponseView::SingleContact(_) => None,
        ApiResponseView::Created => Some("Contact Created."@),
        ApiResponseView::Updated => Some("Contact Updated."@),
        ApiResponseView::Deleted => Some("Contact Deleted."@),
        ApiResponseView::NotFound => Some("Contact not found."@),
    }
}

impl ApiResponse {
    /// The HTTP status code this response is sent with.
    pub fn status_code(&self) -> (r: u16)
        ensures
            r as int == spec_status(self@),
    {
        match self {
            ApiResponse::Created => 201,
            ApiResponse::NotFound => 404,
            _ => 200,
        }
    }

    /// The fixed text body of this response, or None when the body is the
    /// serialized entity.
    pub fn body_message(&self) -> (r: Option<String>)
        ensures
            crate::contact::opt_view(r) == spec_message(self@),
    {
        match self {
            ApiResponse::ContactList(_) => None,
            ApiResponse::SingleContact(_) => None,
            ApiResponse::Created => Some("Contact Created.".to_owned()),
            ApiResponse::Updated => Some("Contact Updated.".to_owned()),
            ApiResponse::Deleted => Some("Contact Deleted.".to_owned()),
            ApiResponse::NotFound => Some("Contact not found.".to_owned()),
        }
    }
}

/// The response the show endpoint owes for a lookup result: the contact
/// when the id is present, 404 otherwise — for every id, 0 and negative
/// ids included.
pub open spec fn spec_show_response(contacts: Seq<ContactView>, id: int) -> ApiResponseView {
    match spec_find(contacts, id) {
        Some(c) => ApiResponseView::SingleContact(c),
        None => ApiResponseView::NotFound,
    }
}

/// GET /contacts — all contacts, always 200.
pub fn contacts_index(store: &ContactStore) -> (r: ApiResponse)
    ensures
        r@ == ApiResponseView::ContactList(store@.contacts),
        spec_status(r@) == 200,
{
    let r = ApiResponse::ContactList(store.list());
    proof {
        assert(r@ =~= ApiResponseView::ContactList(store@.contacts));
    }
    r
}

/// GET /contacts/{id} — the contact when the id is present, 404 with
/// "Contact not found." otherwise; an absent id is never a fault.
pub fn contacts_show(store: &ContactStore, id: i32) -> (r: ApiResponse)
    ensures
        r@ == spec_show_response(store@.contacts, id as int),
{
    match store.get(id) {
        Some(c) => ApiResponse::SingleContact(c),
        None => ApiResponse::NotFound,
    }
}

/// POST /contacts — inserts a new contact built from the payload (any
/// client-supplied id is ignored; an invalid photo URL is dropped) and
/// answers 201 "Contact Created.".
pub fn contacts_store(store: &mut ContactStore, data: ContactData) -> (r: ApiResponse)
    requires
        wf_store(old(store)@),
        old(store)@.next_id < i32::MAX,
    ensures
        final(store)@ == spec_create(old(store)@, data@),
        wf_store(final(store)@),
        r@ == ApiResponseView::Created,
{
    store.create(data);
    ApiResponse::Created
}

/// PUT /contacts/{id} — overwrites the stored contact under the update
/// rule and answers 200 "Contact Updated."; a missing id answers 404 and
/// changes nothing, never a fault.
pub fn contacts_update(store: &mut ContactStore, id: i32, data: ContactData) -> (r: ApiResponse)
    requires
        wf_store(old(store)@),
    ensures
        final(store)@ == spec_update(old(store)@, id as int, data@),
        wf_store(final(store)@),
        r@ == if spec_find_index(old(store)@.contacts, id as int) == -1 {
            ApiResponseView::NotFound
        } else {
            ApiResponseView::Updated
        },
{
    if store.update(id, data) {
        ApiResponse::Updated
    } else {
        ApiResponse::NotFound
    }
}

/// DELETE /contacts/{id} — removes the stored contact and answers 200
/// "Contact Deleted."; a missing id answers 404 and changes nothing,
/// never a fault.
pub fn contacts_destroy(store: &mut ContactStore, id: i32) -> (r: ApiResponse)
    requires
        wf_store(old(store)@),
    ensures
        final(store)@ == spec_delete(old(store)@, id as int),
        wf_store(final(store)@),
        r@ == if spec_find_index(old(store)@.contacts, id as int) == -1 {
            ApiResponseView::NotFound
        } else {
            ApiResponseView::Deleted
        },
{
    if store.delete(id) {
        ApiResponse::Deleted
    } else {
        ApiResponse::NotFound
    }
}

} // verus!

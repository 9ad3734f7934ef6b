use vstd::prelude::*;

use crate::contact::ContactDataView;
use crate::contact::is_absolute_url;
use crate::contact::spec_new_contact;
use crate::contact::spec_updated;
use crate::handler::ApiResponseView;
use crate::handler::spec_show_response;
use crate::store::StoreView;
use crate::store::lemma_find_index;
use crate::store::lemma_find_index_of;
use crate::store::spec_create;
use crate::store::spec_delete;
use crate::store::spec_find;
use crate::store::spec_find_index;
use crate::store::spec_update;
use crate::store::wf_store;
use crate::upload::PartDecisionView;
use crate::upload::UploadResponse;
use crate::upload::spec_part_decision;
use crate::upload::spec_upload_exts;
use crate::upload::spec_upload_response;

verus! {

/// Law: creating a contact from a payload and then fetching the assigned
/// id yields exactly that payload, with the photo normalized by the
/// absolute-URL rule.
pub proof fn lemma_create_then_get(s: StoreView, f: ContactDataView)
    requires
        wf_store(s),
    ensures
        spec_find(spec_create(s, f).contacts, s.next_id) == Some(
            spec_new_contact(s.next_id, f),
        ),
{
    let c = spec_new_contact(s.next_id, f);
    let cs = spec_create(s, f).contacts;
    let n = s.contacts.len() as int;
    assert(cs[n] == c);
    assert forall|j: int| 0 <= j < n implies (#[trigger] cs[j]).id != s.next_id by {
        assert(cs[j] == s.contacts[j]);
    }
    lemma_find_index_of(cs, s.next_id, n);
}

/// Law: fetching an id that no stored row carries yields the 404
/// response, never a fault.
pub proof fn lemma_get_absent(s: StoreView, id: int)
    requires
        forall|i: int| 0 <= i < s.contacts.len() ==> (#[trigger] s.contacts[i]).id != id,
    ensures
        spec_find(s.contacts, id) is None,
        spec_show_response(s.contacts, id) == ApiResponseView::NotFound,
{
    lemma_find_index(s.contacts, id);
    let k = spec_find_index(s.contacts, id);
    if k != -1 {
        assert(s.contacts[k].id != id);
    }
}

/// Law: ids below 1 are never assigned by the store, so fetching 0 or a
/// negative id always yields the 404 response.
pub proof fn lemma_get_nonpositive_id(s: StoreView, id: int)
    requires
        wf_store(s),
        id < 1,
    ensures
        spec_show_response(s.contacts, id) == ApiResponseView::NotFound,
{
    lemma_get_absent(s, id);
}

/// Law: update overwrites every scalar field with the payload's value; it
/// overwrites the stored photo exactly when the payload's photo is a
/// valid absolute URL, and leaves the stored photo untouched otherwise.
pub proof fn lemma_update_photo(s: StoreView, id: int, f: ContactDataView)
    requires
        wf_store(s),
        spec_find(s.contacts, id) is Some,
    ensures
        spec_find(spec_update(s, id, f).contacts, id) == Some(
            spec_updated(spec_find(s.contacts, id)->0, f),
        ),
        ({
            let before = spec_find(s.contacts, id)->0;
            let after = spec_updated(before, f);
            &&& after.name == f.name
            &&& after.email == f.email
            &&& after.phone == f.phone
            &&& after.address == f.address
            &&& after.city == f.city
            &&& after.id == before.id
            &&& match f.photo {
                Some(p) => (is_absolute_url(p) ==> after.photo == Some(p)) && (!is_absolute_url(
                    p,
                ) ==> after.photo == before.photo),
                None => after.photo == before.photo,
            }
        }),
{
    let k = spec_find_index(s.contacts, id);
    lemma_find_index(s.contacts, id);
    let cs = spec_update(s, id, f).contacts;
    assert(cs[k] == spec_updated(s.contacts[k], f));
    assert forall|j: int| 0 <= j < k implies (#[trigger] cs[j]).id != id by {
        assert(cs[j] == s.contacts[j]);
    }
    lemma_find_index_of(cs, id, k);
}

/// Law: after deleting an id, fetching that id yields the 404 response.
pub proof fn lemma_delete_then_get(s: StoreView, id: int)
    requires
        wf_store(s),
    ensures
        spec_find(spec_delete(s, id).contacts, id) is None,
        spec_show_response(spec_delete(s, id).contacts, id) == ApiResponseView::NotFound,
{
    let k = spec_find_index(s.contacts, id);
    lemma_find_index(s.contacts, id);
    if k == -1 {
    } else {
        let cs = spec_delete(s, id).contacts;
        assert forall|i: int| 0 <= i < cs.len() implies (#[trigger] cs[i]).id != id by {
            if i < k {
                assert(cs[i] == s.contacts[i]);
            } else {
                assert(cs[i] == s.contacts[i + 1]);
                assert(s.contacts[k].id == id);
            }
        }
        lemma_find_index(cs, id);
        let r = spec_find_index(cs, id);
        if r != -1 {
            assert(cs[r].id != id);
        }
    }
}

/// Law: update and delete on an id that no stored row carries leave the
/// store exactly as it was — absence is a normal outcome (answered 404 by
/// the handlers), never a fault.
pub proof fn lemma_missing_id_not_found(s: StoreView, id: int, f: ContactDataView)
    requires
        spec_find(s.contacts, id) is None,
    ensures
        spec_update(s, id, f) == s,
        spec_delete(s, id) == s,
{
}

/// Law: a part stream whose every part declares an allowed content type
/// is answered 200, and exactly one file is written per part, under the
/// extension that part's content type maps to.
pub proof fn lemma_upload_all_allowed(pv: Seq<Option<Seq<char>>>)
    requires
        forall|i: int| 0 <= i < pv.len() ==> (#[trigger] spec_part_decision(pv[i])) is Save,
    ensures
        spec_upload_response(pv) == UploadResponse::Uploaded,
        spec_upload_exts(pv).len() == pv.len(),
        forall|i: int|
            0 <= i < pv.len() ==> spec_upload_exts(pv)[i] == (#[trigger] spec_part_decision(
                pv[i],
            ))->Save_0,
    decreases pv.len(),
{
    if pv.len() == 0 {
    } else {
        let rest = pv.drop_first();
        assert forall|i: int| 0 <= i < rest.len() implies (#[trigger] spec_part_decision(
            rest[i],
        )) is Save by {
            assert(rest[i] == pv[i + 1]);
        }
        lemma_upload_all_allowed(rest);
        assert forall|i: int| 0 <= i < pv.len() implies spec_upload_exts(pv)[i]
            == (#[trigger] spec_part_decision(pv[i]))->Save_0 by {
            if i > 0 {
                assert(rest[i - 1] == pv[i]);
                assert(spec_upload_exts(pv)[i] == spec_upload_exts(rest)[i - 1]);
            }
        }
    }
}

/// Law: a part stream whose first rejected part stands at position k is
/// answered 400 — with the message of that part's defect — and exactly
/// the k files of the parts before it have been written: earlier writes
/// survive the abort.
pub proof fn lemma_upload_aborts(pv: Seq<Option<Seq<char>>>, k: int)
    requires
        0 <= k < pv.len(),
        forall|i: int| 0 <= i < k ==> (#[trigger] spec_part_decision(pv[i])) is Save,
        !(spec_part_decision(pv[k]) is Save),
    ensures
        spec_upload_response(pv) == if spec_part_decision(pv[k]) is MissingContentType {
            UploadResponse::InvalidContentType
        } else {
            UploadResponse::FileTypeNotAllowed
        },
        spec_upload_exts(pv).len() == k,
    decreases k,
{
    if k == 0 {
    } else {
        let rest = pv.drop_first();
        assert forall|i: int| 0 <= i < k - 1 implies (#[trigger] spec_part_decision(
            rest[i],
        )) is Save by {
            assert(rest[i] == pv[i + 1]);
        }
        assert(rest[k - 1] == pv[k]);
        lemma_upload_aborts(rest, k - 1);
    }
}

} // verus!

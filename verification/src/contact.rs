use vstd::prelude::*;

verus! {

/// A stored contact. The id is assigned by the store and never taken from
/// client input; `name`, `email` and `phone` are always present, the other
/// fields are optional. `photo`, when present, holds a syntactically valid
/// absolute URL.
pub struct Contact {
    pub id: i32,
    pub name: String,
    pub email: String,
    pub phone: String,
    pub address: Option<String>,
    pub city: Option<String>,
    pub photo: Option<String>,
}

/// The fields a client may supply when creating or updating a contact.
/// There is no id: the store assigns it on create and the path parameter
/// selects it on update.
pub struct ContactData {
    pub name: String,
    pub email: String,
    pub phone: String,
    pub address: Option<String>,
    pub city: Option<String>,
    pub photo: Option<String>,
}

/// Mathematical image of a stored contact.
#[verifier::ext_equal]
pub ghost struct ContactView {
    pub id: int,
    pub name: Seq<char>,
    pub email: Seq<char>,
    pub phone: Seq<char>,
    pub address: Option<Seq<char>>,
    pub city: Option<Seq<char>>,
    pub photo: Option<Seq<char>>,
}

/// Mathematical image of a client payload.
#[verifier::ext_equal]
pub ghost struct ContactDataView {
    pub name: Seq<char>,
    pub email: Seq<char>,
    pub phone: Seq<char>,
    pub address: Option<Seq<char>>,
    pub city: Option<Seq<char>>,
    pub photo: Option<Seq<char>>,
}

pub open spec fn opt_view(o: Option<String>) -> Option<Seq<char>> {
    match o {
        Some(s) => Some(s@),
        None => None,
    }
}

impl View for Contact {
    type V = ContactView;

    open spec fn view(&self) -> ContactView {
        ContactView {
            id: self.id as int,
            name: self.name@,
            email: self.email@,
            phone: self.phone@,
            address: opt_view(self.address),
            city: opt_view(self.city),
            photo: opt_view(self.photo),
        }
    }
}

impl View for ContactData {
    type V = ContactDataView;

    open spec fn view(&self) -> ContactDataView {
        ContactDataView {
            name: self.name@,
            email: self.email@,
            phone: self.phone@,
            address: opt_view(self.address),
            city: opt_view(self.city),
            photo: opt_view(self.photo),
        }
    }
}

/// Whether a string is a syntactically valid absolute URL, in the sense of
/// the URL parser this service validates photos with.
pub uninterp spec fn is_absolute_url(s: Seq<char>) -> bool;

/// Relies on url::Url::parse: it succeeds exactly on syntactically valid
/// absolute URLs (a relative reference fails with RelativeUrlWithoutBase),
/// and its outcome depends on the characters of its argument alone.
#[verifier::external_body]
pub(crate) fn parses_as_absolute_url(s: &str) -> (r: bool)
    ensures
        r == is_absolute_url(s@),
{
    url::Url::parse(s).is_ok()
}

/// The photo value that actually gets stored for a supplied photo value:
/// kept when it is a valid absolute URL, dropped otherwise.
pub open spec fn spec_accepted_photo(photo: Option<Seq<char>>) -> Option<Seq<char>> {
    match photo {
        Some(p) => if is_absolute_url(p) {
            Some(p)
        } else {
            None
        },
        None => None,
    }
}

/// Applies the photo validation rule used on create: an invalid URL is
/// silently dropped.
pub fn accepted_photo(photo: Option<String>) -> (r: Option<String>)
    ensures
        opt_view(r) == spec_accepted_photo(opt_view(photo)),
{
    match photo {
        Some(p) => {
            if parses_as_absolute_url(p.as_str()) {
                Some(p)
            } else {
                None
            }
        },
        None => None,
    }
}

/// The contact that create stores for a fresh id and a client payload:
/// the payload's fields, with the photo validation rule applied.
pub open spec fn spec_new_contact(id: int, f: ContactDataView) -> ContactView {
    ContactView {
        id,
        name: f.name,
        email: f.email,
        phone: f.phone,
        address: f.address,
        city: f.city,
        photo: spec_accepted_photo(f.photo),
    }
}

/// The contact that update stores in place of `c` for payload `f`: every
/// scalar field is overwritten unconditionally, the photo only when the
/// payload carries a valid absolute URL — otherwise the stored photo stays.
pub open spec fn spec_updated(c: ContactView, f: ContactDataView) -> ContactView {
    ContactView {
        id: c.id,
        name: f.name,
        email: f.email,
        phone: f.phone,
        address: f.address,
        city: f.city,
        photo: match f.photo {
            Some(p) => if is_absolute_url(p) {
                Some(p)
            } else {
                c.photo
            },
            None => c.photo,
        },
    }
}

fn clone_opt_string(o: &Option<String>) -> (r: Option<String>)
    ensures
        opt_view(r) == opt_view(*o),
{
    match o {
        Some(s) => Some(s.clone()),
        None => None,
    }
}

impl Contact {
    /// A field-for-field copy of this contact.
    pub fn duplicate(&self) -> (r: Contact)
        ensures
            r@ == self@,
    {
        let r = Contact {
            id: self.id,
            name: self.name.clone(),
            email: self.email.clone(),
            phone: self.phone.clone(),
            address: clone_opt_string(&self.address),
            city: clone_opt_string(&self.city),
            photo: clone_opt_string(&self.photo),
        };
        proof {
            assert(r@ =~= self@);
        }
        r
    }
}

/// Builds the contact that update stores: scalars from the payload, photo
/// from the payload only when it is a valid absolute URL.
pub fn updated_contact(current: &Contact, data: ContactData) -> (r: Contact)
    ensures
        r@ == spec_updated(current@, data@),
{
    let photo = match data.photo {
        Some(p) => {
            if parses_as_absolute_url(p.as_str()) {
                Some(p)
            } else {
                clone_opt_string(&current.photo)
            }
        },
        None => clone_opt_string(&current.photo),
    };
    let r = Contact {
        id: current.id,
        name: data.name,
        email: data.email,
        phone: data.phone,
        address: data.address,
        city: data.city,
        photo,
    };
    proof {
        assert(r@ =~= spec_updated(current@, data@));
    }
    r
}

} // verus!

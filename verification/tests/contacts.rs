use contact_service::contact::Contact;
use contact_service::contact::ContactData;
use contact_service::handler::ApiResponse;
use contact_service::handler::contacts_destroy;
use contact_service::handler::contacts_index;
use contact_service::handler::contacts_show;
use contact_service::handler::contacts_store;
use contact_service::handler::contacts_update;
use contact_service::store::ContactStore;

fn payload(name: &str, photo: Option<&str>) -> ContactData {
    ContactData {
        name: name.to_owned(),
        email: format!("{}@example.com", name),
        phone: "555-0100".to_owned(),
        address: Some("1 Main St".to_owned()),
        city: Some("Springfield".to_owned()),
        photo: photo.map(|p| p.to_owned()),
    }
}

fn shown_contact(r: ApiResponse) -> Contact {
    match r {
        ApiResponse::SingleContact(c) => c,
        _ => panic!("expected a contact"),
    }
}

#[test]
fn create_then_get_returns_payload() {
    let mut store = ContactStore::new();
    let r = contacts_store(&mut store, payload("ada", Some("https://example.com/a.png")));
    assert!(matches!(r, ApiResponse::Created));
    assert_eq!(r.status_code(), 201);
    assert_eq!(r.body_message(), Some("Contact Created.".to_owned()));

    let c = shown_contact(contacts_show(&store, 1));
    assert_eq!(c.id, 1);
    assert_eq!(c.name, "ada");
    assert_eq!(c.email, "ada@example.com");
    assert_eq!(c.phone, "555-0100");
    assert_eq!(c.address, Some("1 Main St".to_owned()));
    assert_eq!(c.city, Some("Springfield".to_owned()));
    assert_eq!(c.photo, Some("https://example.com/a.png".to_owned()));
}

#[test]
fn create_drops_invalid_photo() {
    let mut store = ContactStore::new();
    contacts_store(&mut store, payload("bob", Some("not a url")));
    let c = shown_contact(contacts_show(&store, 1));
    assert_eq!(c.photo, None);

    let mut store2 = ContactStore::new();
    contacts_store(&mut store2, payload("eve", Some("/relative/path.png")));
    let c2 = shown_contact(contacts_show(&store2, 1));
    assert_eq!(c2.photo, None);
}

#[test]
fn get_missing_id_is_not_found() {
    let store = ContactStore::new();
    for id in [0, 1, -1, -2147483648, 2147483647] {
        let r = contacts_show(&store, id);
        assert!(matches!(r, ApiResponse::NotFound));
        assert_eq!(r.status_code(), 404);
        assert_eq!(r.body_message(), Some("Contact not found.".to_owned()));
    }
}

#[test]
fn get_missing_id_is_not_found_in_populated_store() {
    let mut store = ContactStore::new();
    contacts_store(&mut store, payload("ada", None));
    for id in [0, 2, -5] {
        assert!(matches!(contacts_show(&store, id), ApiResponse::NotFound));
    }
}

#[test]
fn update_with_invalid_photo_keeps_stored_photo() {
    let mut store = ContactStore::new();
    contacts_store(&mut store, payload("ada", Some("https://example.com/old.png")));

    let mut new_data = payload("ada2", None);
    new_data.photo = Some("definitely not a url".to_owned());
    let r = contacts_update(&mut store, 1, new_data);
    assert!(matches!(r, ApiResponse::Updated));
    assert_eq!(r.status_code(), 200);
    assert_eq!(r.body_message(), Some("Contact Updated.".to_owned()));

    let c = shown_contact(contacts_show(&store, 1));
    assert_eq!(c.name, "ada2");
    assert_eq!(c.photo, Some("https://example.com/old.png".to_owned()));
}

#[test]
fn update_with_absent_photo_keeps_stored_photo() {
    let mut store = ContactStore::new();
    contacts_store(&mut store, payload("ada", Some("https://example.com/old.png")));
    contacts_update(&mut store, 1, payload("ada3", None));
    let c = shown_contact(contacts_show(&store, 1));
    assert_eq!(c.name, "ada3");
    assert_eq!(c.photo, Some("https://example.com/old.png".to_owned()));
}

#[test]
fn update_with_valid_photo_overwrites() {
    let mut store = ContactStore::new();
    contacts_store(&mut store, payload("ada", Some("https://example.com/old.png")));
    contacts_update(&mut store, 1, payload("ada", Some("https://example.com/new.png")));
    let c = shown_contact(contacts_show(&store, 1));
    assert_eq!(c.photo, Some("https://example.com/new.png".to_owned()));
}

#[test]
fn update_overwrites_scalars_unconditionally() {
    let mut store = ContactStore::new();
    contacts_store(&mut store, payload("ada", None));
    let blank = ContactData {
        name: String::new(),
        email: String::new(),
        phone: String::new(),
        address: None,
        city: None,
        photo: None,
    };
    contacts_update(&mut store, 1, blank);
    let c = shown_contact(contacts_show(&store, 1));
    assert_eq!(c.name, "");
    assert_eq!(c.email, "");
    assert_eq!(c.phone, "");
    assert_eq!(c.address, None);
    assert_eq!(c.city, None);
}

#[test]
fn delete_then_get_is_not_found() {
    let mut store = ContactStore::new();
    contacts_store(&mut store, payload("ada", None));
    let r = contacts_destroy(&mut store, 1);
    assert!(matches!(r, ApiResponse::Deleted));
    assert_eq!(r.status_code(), 200);
    assert_eq!(r.body_message(), Some("Contact Deleted.".to_owned()));
    assert!(matches!(contacts_show(&store, 1), ApiResponse::NotFound));
}

#[test]
fn update_missing_id_is_not_found_not_a_fault() {
    let mut store = ContactStore::new();
    let r = contacts_update(&mut store, 7, payload("ghost", None));
    assert!(matches!(r, ApiResponse::NotFound));
    assert_eq!(r.status_code(), 404);
    match contacts_index(&store) {
        ApiResponse::ContactList(v) => assert!(v.is_empty()),
        _ => panic!("expected the list"),
    }
}

#[test]
fn delete_missing_id_is_not_found_not_a_fault() {
    let mut store = ContactStore::new();
    contacts_store(&mut store, payload("ada", None));
    let r = contacts_destroy(&mut store, 99);
    assert!(matches!(r, ApiResponse::NotFound));
    assert_eq!(r.status_code(), 404);
    match contacts_index(&store) {
        ApiResponse::ContactList(v) => assert_eq!(v.len(), 1),
        _ => panic!("expected the list"),
    }
}

#[test]
fn list_on_empty_store_is_empty_with_status_200() {
    let store = ContactStore::new();
    let r = contacts_index(&store);
    assert_eq!(r.status_code(), 200);
    assert_eq!(r.body_message(), None);
    match r {
        ApiResponse::ContactList(v) => assert_eq!(v.len(), 0),
        _ => panic!("expected the list"),
    }
}

#[test]
fn list_keeps_store_order_and_assigns_fresh_ids() {
    let mut store = ContactStore::new();
    contacts_store(&mut store, payload("a", None));
    contacts_store(&mut store, payload("b", None));
    contacts_store(&mut store, payload("c", None));
    contacts_destroy(&mut store, 2);
    contacts_store(&mut store, payload("d", None));
    match contacts_index(&store) {
        ApiResponse::ContactList(v) => {
            let ids: Vec<i32> = v.iter().map(|c| c.id).collect();
            let names: Vec<&str> = v.iter().map(|c| c.name.as_str()).collect();
            assert_eq!(ids, vec![1, 3, 4]);
            assert_eq!(names, vec!["a", "c", "d"]);
        },
        _ => panic!("expected the list"),
    }
}

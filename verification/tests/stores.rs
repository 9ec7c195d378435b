use gourmestre::credentials::CredStore;
use gourmestre::restaurants::{NewRestaurant, RestaurantStore};
use gourmestre::sessions::SessionStore;
use gourmestre::AccountError;

fn plain_row(name: &str, favorite: bool) -> NewRestaurant {
    NewRestaurant {
        name: name.to_owned(),
        city: "Lyon".to_owned(),
        description: None,
        rating: None,
        is_favorite: favorite,
    }
}

#[test]
fn issued_token_resolves_to_its_user() {
    let mut sessions = SessionStore::new();
    let token = sessions.create(7).expect("fresh token");
    assert_eq!(sessions.resolve(&token), Some(7));
}

#[test]
fn unknown_token_resolves_to_nothing() {
    let mut sessions = SessionStore::new();
    let token = sessions.create(7).expect("fresh token");
    assert_eq!(sessions.resolve("never-issued"), None);
    let mut other = token.clone();
    other.push('x');
    assert_eq!(sessions.resolve(&other), None);
}

#[test]
fn tokens_are_opaque_hex_strings() {
    let mut sessions = SessionStore::new();
    let token = sessions.create(1).expect("fresh token");
    assert_eq!(token.chars().count(), 36);
    assert!(token
        .chars()
        .all(|c| c == '-' || c.is_ascii_digit() || ('a'..='f').contains(&c)));
}

#[test]
fn second_registration_of_same_username_conflicts() {
    let mut creds = CredStore::new();
    assert!(creds.create_account("alice".to_owned(), &"p".to_owned()).is_ok());
    let second = creds.create_account("alice".to_owned(), &"other".to_owned());
    assert_eq!(second, Err(AccountError::Conflict));
}

#[test]
fn verify_accepts_registered_password_only() {
    let mut creds = CredStore::new();
    creds
        .create_account("alice".to_owned(), &"secret".to_owned())
        .expect("registered");
    assert_eq!(creds.verify("alice", &"secret".to_owned()), Ok(true));
    assert_eq!(creds.verify("alice", &"wrong".to_owned()), Ok(false));
    assert_eq!(creds.verify("nobody", &"secret".to_owned()), Ok(false));
}

#[test]
fn listing_is_newest_first_and_owner_scoped() {
    let mut store = RestaurantStore::new();
    store.create(1, plain_row("older", false)).expect("row");
    store.create(2, plain_row("foreign", false)).expect("row");
    store.create(1, plain_row("newer", false)).expect("row");
    let rows = store.list_for_user(1, false, None).expect("list");
    let names: Vec<&str> = rows.iter().map(|r| r.name.as_str()).collect();
    assert_eq!(names, vec!["newer", "older"]);
    assert!(rows.iter().all(|r| r.owner_id == 1));
}

#[test]
fn listing_favorites_only_hides_unflagged_rows() {
    let mut store = RestaurantStore::new();
    store.create(1, plain_row("kept", true)).expect("row");
    store.create(1, plain_row("hidden", false)).expect("row");
    let rows = store.list_for_user(1, true, None).expect("list");
    assert_eq!(rows.len(), 1);
    assert_eq!(rows[0].name, "kept");
    assert!(rows[0].is_favorite);
}

#[test]
fn listing_cap_keeps_newest_rows() {
    let mut store = RestaurantStore::new();
    store.create(1, plain_row("first", false)).expect("row");
    store.create(1, plain_row("second", false)).expect("row");
    store.create(1, plain_row("third", false)).expect("row");
    let rows = store.list_for_user(1, false, Some(2)).expect("list");
    let names: Vec<&str> = rows.iter().map(|r| r.name.as_str()).collect();
    assert_eq!(names, vec!["third", "second"]);
    let all = store.list_for_user(1, false, Some(10)).expect("list");
    assert_eq!(all.len(), 3);
}

#[test]
fn listing_negative_cap_is_refused() {
    let store = RestaurantStore::new();
    assert!(store.list_for_user(1, false, Some(-1)).is_err());
}

#[test]
fn created_row_carries_payload_and_fresh_id() {
    let mut store = RestaurantStore::new();
    let row = store
        .create(
            9,
            NewRestaurant {
                name: "Chez X".to_owned(),
                city: "Lyon".to_owned(),
                description: Some("bistro".to_owned()),
                rating: Some(4),
                is_favorite: true,
            },
        )
        .expect("row");
    assert_eq!(row.id, 1);
    assert_eq!(row.owner_id, 9);
    assert_eq!(row.name, "Chez X");
    assert_eq!(row.city, "Lyon");
    assert_eq!(row.description.as_deref(), Some("bistro"));
    assert_eq!(row.rating, Some(4));
    assert!(row.is_favorite);
    let next = store.create(9, plain_row("again", false)).expect("row");
    assert_eq!(next.id, 2);
}

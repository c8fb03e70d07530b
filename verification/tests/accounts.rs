use authcore::auth::Auth;
use authcore::crypto::SigningKey;
use authcore::errors::{SessionError, StoreError};
use authcore::hasher;
use authcore::user::UserStore;

fn test_key() -> SigningKey {
    SigningKey::new(vec![42u8; 32]).unwrap()
}

#[test]
fn hash_is_salted_but_verifies() {
    let pw = b"correct-horse".to_vec();
    let r1 = hasher::hash(&pw).unwrap();
    let r2 = hasher::hash(&pw).unwrap();
    // Fresh salts: two records for the same password differ...
    assert_ne!(r1, r2);
    // ...yet each matches the password it was made from.
    assert!(hasher::verify(&pw, &r1));
    assert!(hasher::verify(&pw, &r2));
    assert!(!hasher::verify(&b"wrong".to_vec(), &r1));
    // A malformed record never matches; it is not a distinguishable error.
    assert!(!hasher::verify(&pw, &b"not a phc record".to_vec()));
}

#[test]
fn unknown_user_and_wrong_password_are_the_same_error() {
    let mut store = UserStore::new();
    store.insert(&b"real_user".to_vec(), &b"right".to_vec()).unwrap();
    let absent = store.get_and_verify(&b"nonexistent".to_vec(), &b"anything".to_vec());
    let wrong = store.get_and_verify(&b"real_user".to_vec(), &b"wrong_password".to_vec());
    let e_absent = absent.err().expect("lookup of an unknown user must fail");
    let e_wrong = wrong.err().expect("a wrong password must fail");
    assert_eq!(e_absent, StoreError::InvalidCredentials);
    // Identical variant, by comparison of the two errors themselves.
    assert_eq!(e_absent, e_wrong);
}

#[test]
fn register_login_authenticate_logout_scenario() {
    let mut auth = Auth::new(test_key());
    let now = 1_700_000_000;

    let (user, _tok) = auth
        .register(&b"alice".to_vec(), &b"correct-horse".to_vec(), now)
        .unwrap();
    assert_eq!(user.id, 1);
    assert_eq!(user.username, b"alice".to_vec());

    let wrong = auth.login(&b"alice".to_vec(), &b"wrong".to_vec(), now);
    assert!(matches!(wrong, Err(StoreError::InvalidCredentials)));

    let (user2, tok) = auth
        .login(&b"alice".to_vec(), &b"correct-horse".to_vec(), now)
        .unwrap();
    assert_eq!(user2.id, 1);

    let cookie = auth.login_cookie(&tok);
    assert_eq!(cookie.name, b"session".to_vec());
    let authed = auth.authenticate(&cookie.value, now).unwrap();
    assert_eq!(authed.id, 1);
    assert_eq!(authed.username, b"alice".to_vec());

    // The logout sentinel, sent back, is treated as logged out.
    let logout = Auth::logout_cookie();
    assert!(matches!(
        auth.authenticate(&logout.value, now),
        Err(SessionError::Malformed)
    ));
}

#[test]
fn duplicate_registration_is_username_taken() {
    let mut auth = Auth::new(test_key());
    let now = 1_700_000_000;
    auth.register(&b"alice".to_vec(), &b"first".to_vec(), now).unwrap();
    let again = auth.register(&b"alice".to_vec(), &b"anything".to_vec(), now);
    assert!(matches!(again, Err(StoreError::UsernameTaken)));
    // The first registration is untouched: its credentials still work.
    assert!(auth.login(&b"alice".to_vec(), &b"first".to_vec(), now).is_ok());
}

#[test]
fn identifiers_are_assigned_in_order() {
    let mut store = UserStore::new();
    let a = store.insert(&b"a".to_vec(), &b"pa".to_vec()).unwrap();
    let b = store.insert(&b"b".to_vec(), &b"pb".to_vec()).unwrap();
    assert_eq!(a.id, 1);
    assert_eq!(b.id, 2);
    assert_eq!(store.len(), 2);
    assert_eq!(store.get_by_id(1).unwrap().username, b"a".to_vec());
    assert_eq!(store.get_by_id(2).unwrap().username, b"b".to_vec());
    assert!(store.get_by_id(0).is_none());
    assert!(store.get_by_id(3).is_none());
}

#[test]
fn token_for_unregistered_identifier_is_discarded() {
    let mut auth = Auth::new(test_key());
    let now = 1_700_000_000;
    let (_, tok) = auth
        .register(&b"alice".to_vec(), &b"pw".to_vec(), now)
        .unwrap();
    // A validly signed token naming an absent user is still rejected.
    let ghost_token = authcore::session::SessionToken { user_id: 99, expiry: tok.expiry };
    let key = test_key();
    let value = ghost_token.serialize(&key);
    assert!(matches!(
        auth.authenticate(&value, now),
        Err(SessionError::Malformed)
    ));
}

#[test]
fn expired_session_is_rejected_by_authenticate() {
    let mut auth = Auth::new(test_key());
    let now = 1_700_000_000;
    let (_, tok) = auth
        .register(&b"alice".to_vec(), &b"pw".to_vec(), now)
        .unwrap();
    let cookie = auth.login_cookie(&tok);
    assert!(matches!(
        auth.authenticate(&cookie.value, tok.expiry + 1),
        Err(SessionError::Expired)
    ));
}

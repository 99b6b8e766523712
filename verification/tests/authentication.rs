use ddc_tournement_planer::authentication::{
    authenticate, change_password_in_db, check_new_password, compute_password_hash,
    verify_password_hash, AuthError, CredentialStore, PasswordFormData, UserId,
};
use ddc_tournement_planer::domain::UserName;
use ddc_tournement_planer::session_state::TypedSession;

fn store_with_one_user(name: &str, password: &str, id: u128) -> CredentialStore {
    let mut store = CredentialStore::new();
    let username = UserName::parse(String::from(name)).unwrap();
    let hash = compute_password_hash(&String::from(password)).unwrap();
    store.add_account(UserId(id), username, hash).unwrap();
    store
}

#[test]
fn a_password_verifies_against_its_own_hash_and_no_other() {
    let password = String::from("correct horse battery staple");
    let hash = compute_password_hash(&password).unwrap();
    assert!(verify_password_hash(&password, &hash).is_ok());

    let other = String::from("correct horse battery stapler");
    match verify_password_hash(&other, &hash) {
        Err(AuthError::InvalidCredentials) => {}
        _ => panic!("a different password must not verify"),
    }
}

#[test]
fn two_hashes_of_one_password_differ_but_both_verify() {
    let password = String::from("correct horse battery staple");
    let first = compute_password_hash(&password).unwrap();
    let second = compute_password_hash(&password).unwrap();
    assert_ne!(first, second, "each hash embeds a fresh random salt");
    assert!(verify_password_hash(&password, &first).is_ok());
    assert!(verify_password_hash(&password, &second).is_ok());
}

#[test]
fn a_malformed_stored_hash_is_the_same_error_as_a_mismatch() {
    let password = String::from("correct horse battery staple");
    match verify_password_hash(&password, &String::from("not a phc string")) {
        Err(AuthError::InvalidCredentials) => {}
        _ => panic!("a malformed stored hash must fail like a mismatch"),
    }
}

#[test]
fn unknown_user_and_wrong_password_return_the_same_error() {
    let store = store_with_one_user("lea", "correct horse battery staple", 1);

    let unknown = UserName::parse(String::from("nobody")).unwrap();
    let by_unknown_user = authenticate(&store, &unknown, &String::from("whatever password"));

    let known = UserName::parse(String::from("lea")).unwrap();
    let by_wrong_password = authenticate(&store, &known, &String::from("wrong password"));

    assert!(matches!(by_unknown_user, Err(AuthError::InvalidCredentials)));
    assert!(matches!(by_wrong_password, Err(AuthError::InvalidCredentials)));
}

#[test]
fn authenticate_returns_the_identity_of_the_matching_record() {
    let store = store_with_one_user("lea", "correct horse battery staple", 17);
    let known = UserName::parse(String::from("lea")).unwrap();
    let user_id = authenticate(&store, &known, &String::from("correct horse battery staple"))
        .unwrap();
    assert_eq!(user_id, UserId(17));
}

#[test]
fn session_holds_the_identity_until_logout() {
    let mut session = TypedSession::new();
    assert!(session.get_user_id().is_none());

    session.insert_user_id(UserId(9));
    assert_eq!(session.get_user_id(), Some(UserId(9)));

    session.renew();
    assert_eq!(session.get_user_id(), Some(UserId(9)));

    session.log_out();
    assert!(session.get_user_id().is_none());
}

#[test]
fn check_new_password_rejects_in_policy_order() {
    let store = store_with_one_user("lea", "correct horse battery staple", 1);
    let name = UserName::parse(String::from("lea")).unwrap();

    let mismatch = PasswordFormData {
        current_password: String::from("correct horse battery staple"),
        new_password: String::from("a new strong password"),
        new_password_confirmation: String::from("a different confirmation"),
    };
    assert!(matches!(
        check_new_password(&store, &name, &mismatch),
        Err(AuthError::PasswordMismatch)
    ));

    let weak = PasswordFormData {
        current_password: String::from("correct horse battery staple"),
        new_password: String::from("short"),
        new_password_confirmation: String::from("short"),
    };
    assert!(matches!(check_new_password(&store, &name, &weak), Err(AuthError::WeakPassword)));

    let wrong_current = PasswordFormData {
        current_password: String::from("not the current password"),
        new_password: String::from("a new strong password"),
        new_password_confirmation: String::from("a new strong password"),
    };
    assert!(matches!(
        check_new_password(&store, &name, &wrong_current),
        Err(AuthError::InvalidCredentials)
    ));

    let good = PasswordFormData {
        current_password: String::from("correct horse battery staple"),
        new_password: String::from("a new strong password"),
        new_password_confirmation: String::from("a new strong password"),
    };
    assert!(check_new_password(&store, &name, &good).is_ok());
}

#[test]
fn change_password_in_db_rotates_the_stored_hash() {
    let mut store = store_with_one_user("lea", "correct horse battery staple", 1);
    let name = UserName::parse(String::from("lea")).unwrap();

    change_password_in_db(&mut store, UserId(1), String::from("a new strong password")).unwrap();

    let record = store.get_credentials(&name).unwrap();
    assert!(verify_password_hash(&String::from("a new strong password"), &record.password_hash)
        .is_ok());
    assert!(verify_password_hash(
        &String::from("correct horse battery staple"),
        &record.password_hash
    )
    .is_err());
}

#[test]
fn change_password_in_db_rejects_an_unknown_user_id() {
    let mut store = store_with_one_user("lea", "correct horse battery staple", 1);
    match change_password_in_db(&mut store, UserId(99), String::from("a new strong password")) {
        Err(AuthError::Unexpected(_)) => {}
        _ => panic!("an unknown user id must be an infrastructure error"),
    }
}

#[test]
fn add_account_rejects_duplicates() {
    let mut store = store_with_one_user("lea", "correct horse battery staple", 1);

    let same_name = UserName::parse(String::from("lea")).unwrap();
    let hash = compute_password_hash(&String::from("another password here")).unwrap();
    assert!(store.add_account(UserId(2), same_name, hash).is_err());

    let other_name = UserName::parse(String::from("ben")).unwrap();
    let hash = compute_password_hash(&String::from("another password here")).unwrap();
    assert!(store.add_account(UserId(1), other_name, hash).is_err());
}

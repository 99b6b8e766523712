use ddc_tournement_planer::authentication::{CredentialStore, UserId};
use ddc_tournement_planer::authentication::compute_password_hash;
use ddc_tournement_planer::domain::UserName;
use ddc_tournement_planer::routes::{login, restricted_dashboard};
use ddc_tournement_planer::session_state::TypedSession;
use ddc_tournement_planer::utils::FlashLevel;

#[test]
fn an_error_flash_message_is_set_on_failure() {
    let store = CredentialStore::new();
    let mut session = TypedSession::new();

    let (response, flash) = login(
        &store,
        &mut session,
        String::from("random-username"),
        String::from("random-password"),
    );

    assert_eq!(response.status, 303);
    assert_eq!(response.location.as_deref(), Some("/login"));
    let flash = flash.expect("a failed login must set a flash message");
    assert_eq!(flash.level, FlashLevel::Error);
    let rendered = format!("<p><i>{}</i></p>", flash.text);
    assert_eq!(rendered, "<p><i>Failed Login Authentication</i></p>");
    assert!(session.get_user_id().is_none());
}

#[test]
fn redirect_to_restricted_dashboard_after_login_success() {
    let mut store = CredentialStore::new();
    let username = UserName::parse(String::from("tournament-admin")).unwrap();
    let password = String::from("correct horse battery staple");
    let hash = compute_password_hash(&password).unwrap();
    store
        .add_account(UserId(42), username, hash)
        .unwrap();
    let mut session = TypedSession::new();

    let (response, flash) = login(
        &store,
        &mut session,
        String::from("tournament-admin"),
        password,
    );

    assert_eq!(response.status, 303);
    assert_eq!(response.location.as_deref(), Some("/restricted/dashboard"));
    assert!(flash.is_none());
    let user_id = session.get_user_id().expect("the session must hold the identity");
    assert_eq!(user_id, UserId(42));

    let dashboard_name = restricted_dashboard(&store, user_id).unwrap();
    let welcome = format!("Welcome {}", dashboard_name);
    assert_eq!(welcome, "Welcome tournament-admin");
}

#[test]
fn login_with_wrong_password_leaves_the_session_empty() {
    let mut store = CredentialStore::new();
    let username = UserName::parse(String::from("tournament-admin")).unwrap();
    let hash = compute_password_hash(&String::from("correct horse battery staple")).unwrap();
    store.add_account(UserId(42), username, hash).unwrap();
    let mut session = TypedSession::new();

    let (response, flash) = login(
        &store,
        &mut session,
        String::from("tournament-admin"),
        String::from("wrong horse battery staple"),
    );

    assert_eq!(response.status, 303);
    assert_eq!(response.location.as_deref(), Some("/login"));
    assert_eq!(flash.unwrap().text, "Failed Login Authentication");
    assert!(session.get_user_id().is_none());
}

use ddc_tournement_planer::authentication::{
    compute_password_hash, verify_password_hash, CredentialStore, PasswordFormData, UserId,
};
use ddc_tournement_planer::domain::{UserName, ValidationError};
use ddc_tournement_planer::error::{error_chain_fmt, error_dispatch, Error, ErrorDispatch};
use ddc_tournement_planer::routes::{change_password, log_out};
use ddc_tournement_planer::session_state::{SessionError, TypedSession};
use ddc_tournement_planer::telemetry::{report_exit, LogLevel, TaskOutcome};
use ddc_tournement_planer::utils::{see_other, FlashLevel};

fn store_with_one_user(name: &str, password: &str, id: u128) -> CredentialStore {
    let mut store = CredentialStore::new();
    let username = UserName::parse(String::from(name)).unwrap();
    let hash = compute_password_hash(&String::from(password)).unwrap();
    store.add_account(UserId(id), username, hash).unwrap();
    store
}

fn stored_hash(store: &CredentialStore, name: &str) -> String {
    let username = UserName::parse(String::from(name)).unwrap();
    store.get_credentials(&username).unwrap().password_hash.clone()
}

#[test]
fn change_password_with_mismatched_confirmation_leaves_the_hash_unchanged() {
    let mut store = store_with_one_user("lea", "correct horse battery staple", 1);
    let before = stored_hash(&store, "lea");

    let form = PasswordFormData {
        current_password: String::from("correct horse battery staple"),
        new_password: String::from("a new strong password"),
        new_password_confirmation: String::from("something else entirely"),
    };
    let (response, flash) = change_password(&mut store, UserId(1), &form).unwrap();

    assert_eq!(response.status, 303);
    assert_eq!(response.location.as_deref(), Some("/restricted/password"));
    assert_eq!(flash.level, FlashLevel::Error);
    assert_eq!(
        flash.text,
        "You entered two different new passwords - the field values must match."
    );
    assert_eq!(stored_hash(&store, "lea"), before);
}

#[test]
fn change_password_with_wrong_current_password_is_rejected() {
    let mut store = store_with_one_user("lea", "correct horse battery staple", 1);
    let before = stored_hash(&store, "lea");
    let mut session = TypedSession::new();
    session.insert_user_id(UserId(1));

    let form = PasswordFormData {
        current_password: String::from("not the current password"),
        new_password: String::from("a new strong password"),
        new_password_confirmation: String::from("a new strong password"),
    };
    let (response, flash) = change_password(&mut store, UserId(1), &form).unwrap();

    assert_eq!(response.status, 303);
    assert_eq!(flash.level, FlashLevel::Error);
    assert_eq!(flash.text, "The current password is incorrect.");
    assert_eq!(stored_hash(&store, "lea"), before);
    // The user stays logged in: the session was never touched.
    assert_eq!(session.get_user_id(), Some(UserId(1)));
}

#[test]
fn change_password_with_a_weak_new_password_is_rejected() {
    let mut store = store_with_one_user("lea", "correct horse battery staple", 1);
    let before = stored_hash(&store, "lea");

    let form = PasswordFormData {
        current_password: String::from("correct horse battery staple"),
        new_password: String::from("short"),
        new_password_confirmation: String::from("short"),
    };
    let (_, flash) = change_password(&mut store, UserId(1), &form).unwrap();

    assert_eq!(flash.level, FlashLevel::Error);
    assert_eq!(flash.text, "The new password must be between 12 and 128 characters long.");
    assert_eq!(stored_hash(&store, "lea"), before);
}

#[test]
fn change_password_rotates_the_hash_on_success() {
    let mut store = store_with_one_user("lea", "correct horse battery staple", 1);

    let form = PasswordFormData {
        current_password: String::from("correct horse battery staple"),
        new_password: String::from("a new strong password"),
        new_password_confirmation: String::from("a new strong password"),
    };
    let (response, flash) = change_password(&mut store, UserId(1), &form).unwrap();

    assert_eq!(response.location.as_deref(), Some("/restricted/password"));
    assert_eq!(flash.level, FlashLevel::Info);
    assert_eq!(flash.text, "Your password has been changed.");

    let after = stored_hash(&store, "lea");
    assert!(verify_password_hash(&String::from("a new strong password"), &after).is_ok());
    assert!(
        verify_password_hash(&String::from("correct horse battery staple"), &after).is_err()
    );
}

#[test]
fn change_password_for_an_unknown_user_id_is_an_infrastructure_error() {
    let mut store = store_with_one_user("lea", "correct horse battery staple", 1);
    let form = PasswordFormData {
        current_password: String::from("correct horse battery staple"),
        new_password: String::from("a new strong password"),
        new_password_confirmation: String::from("a new strong password"),
    };
    assert!(matches!(
        change_password(&mut store, UserId(404), &form),
        Err(Error::UnexpectedError(_))
    ));
}

#[test]
fn log_out_purges_the_session_and_redirects_to_login() {
    let mut session = TypedSession::new();
    session.insert_user_id(UserId(1));

    let (response, flash) = log_out(&mut session);

    assert!(session.get_user_id().is_none());
    assert_eq!(response.status, 303);
    assert_eq!(response.location.as_deref(), Some("/login"));
    assert_eq!(flash.level, FlashLevel::Info);
    assert_eq!(flash.text, "You have successfully logged out.");
}

#[test]
fn see_other_builds_a_303_redirect() {
    let response = see_other("/somewhere");
    assert_eq!(response.status, 303);
    assert_eq!(response.location.as_deref(), Some("/somewhere"));
}

#[test]
fn error_chain_fmt_renders_the_causal_chain() {
    let causes = vec![
        String::from("connection pool exhausted"),
        String::from("connection timed out"),
    ];
    let rendered = error_chain_fmt("Session state error", &causes);
    assert_eq!(
        rendered,
        "Session state error\n\nCaused by:\n\tconnection pool exhausted\n\
         Caused by:\n\tconnection timed out\n"
    );

    let rendered = error_chain_fmt("all fine", &Vec::new());
    assert_eq!(rendered, "all fine\n\n");
}

#[test]
fn error_dispatch_redirects_user_correctable_failures_and_hides_the_rest() {
    let session_error = Error::SessionStateError(SessionError::Storage(String::from("down")));
    match error_dispatch(&session_error) {
        ErrorDispatch::RedirectWithFlash(response, flash) => {
            assert_eq!(response.status, 303);
            assert_eq!(response.location.as_deref(), Some("/login"));
            assert_eq!(flash.level, FlashLevel::Error);
            assert_eq!(flash.text, "Session state error");
        }
        ErrorDispatch::InternalServerError => {
            panic!("a session failure must redirect to the login page")
        }
    }

    let validation = Error::UserValidationError(ValidationError::InvalidName(String::new()));
    match error_dispatch(&validation) {
        ErrorDispatch::RedirectWithFlash(response, flash) => {
            assert_eq!(response.status, 303);
            assert_eq!(response.location.as_deref(), Some("/login"));
            assert_eq!(flash.level, FlashLevel::Error);
            assert_eq!(flash.text, "Invalid input of user data.");
        }
        ErrorDispatch::InternalServerError => {
            panic!("a validation failure is user-correctable and must redirect")
        }
    }

    let unexpected = Error::UnexpectedError(String::from("the database is on fire"));
    assert!(matches!(error_dispatch(&unexpected), ErrorDispatch::InternalServerError));
    assert_eq!(unexpected.message(), "the database is on fire");
}

#[test]
fn report_exit_classifies_task_outcomes() {
    let line = report_exit("API", &TaskOutcome::Completed);
    assert_eq!(line.level, LogLevel::Info);
    assert_eq!(line.text, "API has exited");
    assert!(line.cause.is_none());

    let line = report_exit("API", &TaskOutcome::Failed(String::from("bind error")));
    assert_eq!(line.level, LogLevel::Error);
    assert_eq!(line.text, "API failed");
    assert_eq!(line.cause.as_deref(), Some("bind error"));

    let line = report_exit("API", &TaskOutcome::JoinFailed(String::from("panicked")));
    assert_eq!(line.level, LogLevel::Error);
    assert_eq!(line.text, "API task failed to complete");
    assert_eq!(line.cause.as_deref(), Some("panicked"));
}

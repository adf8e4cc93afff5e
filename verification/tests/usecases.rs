use todo_auth::password::verify_password;
use todo_auth::response::{InternalServerError, NotFoundError};
use todo_auth::task::status::Status;
use todo_auth::usecase::create_task;
use todo_auth::usecase::create_user::{
    insert_outcome_result, register_request, CreateUserError, StoreInsertOutcome,
};
use todo_auth::usecase::delete_task;
use todo_auth::usecase::login::{
    authenticate_credentials, validate_login_payload, LoginFieldError,
};
use todo_auth::user::id::Id;

#[test]
fn register_request_ok() {
    let email = "user@example.com";
    let reg = register_request(Some(email.into()), Some("password".into())).unwrap();
    assert!(!reg.user.id().value().is_empty());
    assert_eq!(reg.user.email().value(), email);
    assert!(verify_password("password", &reg.password_hash));
    assert!(!verify_password("wrong", &reg.password_hash));
}

#[test]
fn register_request_first_violated_rule_wins() {
    let valid_email = || Some(String::from("user@example.com"));
    let valid_password = || Some(String::from("password"));

    let cases: Vec<(Option<String>, Option<String>, CreateUserError)> = vec![
        (None, None, CreateUserError::EmailEmpty),
        (None, valid_password(), CreateUserError::EmailEmpty),
        (Some("".into()), valid_password(), CreateUserError::EmailEmpty),
        (
            Some("a".repeat(255 - 12 + 1) + "@example.com"),
            valid_password(),
            CreateUserError::EmailTooLong,
        ),
        (
            Some("invalid_email".into()),
            valid_password(),
            CreateUserError::EmailWrongFormat,
        ),
        (valid_email(), None, CreateUserError::PasswordEmpty),
        (valid_email(), Some("".into()), CreateUserError::PasswordTooShort),
        (
            valid_email(),
            Some("a".repeat(7)),
            CreateUserError::PasswordTooShort,
        ),
        (
            valid_email(),
            Some("a".repeat(256)),
            CreateUserError::PasswordTooLong,
        ),
    ];
    for (email, password, expected) in cases {
        let err = register_request(email, password).unwrap_err();
        assert_eq!(err, expected);
    }
}

#[test]
fn insert_outcome_maps_to_registration_errors() {
    assert!(insert_outcome_result(StoreInsertOutcome::Inserted).is_ok());
    assert_eq!(
        insert_outcome_result(StoreInsertOutcome::DuplicateEmail).unwrap_err(),
        CreateUserError::EmailTaken
    );
    assert_eq!(
        insert_outcome_result(StoreInsertOutcome::Failed).unwrap_err(),
        CreateUserError::DatabaseError
    );
}

#[test]
fn login_payload_presence_is_checked_in_order() {
    assert_eq!(
        validate_login_payload(&None, &None).unwrap_err(),
        LoginFieldError::EmailEmpty
    );
    assert_eq!(
        validate_login_payload(&Some("user@example.com".into()), &None).unwrap_err(),
        LoginFieldError::PasswordEmpty
    );
    assert!(
        validate_login_payload(&Some("user@example.com".into()), &Some("password".into()))
            .is_ok()
    );
}

#[test]
fn authenticate_credentials_decides_on_the_stored_digest() {
    let digest = todo_auth::password::hash_password("password").unwrap();

    // unknown email: no row, no principal
    assert!(authenticate_credentials("password", None).is_none());

    // right password: the stored identifier comes back
    let id = authenticate_credentials("password", Some(("uid-1".into(), digest.clone())))
        .unwrap();
    assert_eq!(id.value(), "uid-1");

    // wrong password: indistinguishable from an unknown email
    assert!(authenticate_credentials("Password", Some(("uid-1".into(), digest))).is_none());
}

#[test]
fn create_task_validates_fields_in_order() {
    let user_id = Id::new();
    let ok = create_task::create_task(create_task::Payload {
        user_id: Id::restore(user_id.value().into()),
        title: Some("Title".into()),
        description: Some("Description".into()),
        status: Some("ToDo".into()),
        deadline: Some("1985-04-12T23:20:50.52Z".into()),
    })
    .unwrap();
    assert_eq!(ok.user_id().value(), user_id.value());
    assert_eq!(ok.title().value(), "Title");
    assert_eq!(ok.description().unwrap().value(), "Description");
    assert_eq!(*ok.status(), Status::ToDo);
    assert!(ok.deadline().is_some());
    assert!(!ok.id().value().is_empty());

    let base = |title: Option<&str>, status: Option<&str>| create_task::Payload {
        user_id: Id::restore(user_id.value().into()),
        title: title.map(String::from),
        description: None,
        status: status.map(String::from),
        deadline: None,
    };
    assert_eq!(
        create_task::create_task(base(None, Some("ToDo"))).unwrap_err(),
        create_task::Error::TitleEmpty
    );
    assert_eq!(
        create_task::create_task(base(Some("Title"), None)).unwrap_err(),
        create_task::Error::StatusUnknown
    );
    // presence of the status is checked before the title's content
    assert_eq!(
        create_task::create_task(base(Some(""), None)).unwrap_err(),
        create_task::Error::StatusUnknown
    );
    assert_eq!(
        create_task::create_task(base(Some(""), Some("ToDo"))).unwrap_err(),
        create_task::Error::TitleEmpty
    );
    let long_title = "a".repeat(41);
    assert_eq!(
        create_task::create_task(base(Some(&long_title), Some("ToDo"))).unwrap_err(),
        create_task::Error::TitleTooLong
    );
    assert_eq!(
        create_task::create_task(base(Some("Title"), Some("Started"))).unwrap_err(),
        create_task::Error::StatusUnknown
    );
    let mut p = base(Some("Title"), Some("ToDo"));
    p.deadline = Some("1985-04-12T23:20:50.52".into());
    assert_eq!(
        create_task::create_task(p).unwrap_err(),
        create_task::Error::DeadlineWrongFormat
    );
    let mut p = base(Some("Title"), Some("ToDo"));
    p.description = Some("a".repeat(1001));
    assert_eq!(
        create_task::create_task(p).unwrap_err(),
        create_task::Error::DescriptionTooLong
    );

    assert!(create_task::insert_outcome_result(true).is_ok());
    assert_eq!(
        create_task::insert_outcome_result(false).unwrap_err(),
        create_task::Error::Database
    );
}

#[test]
fn delete_task_payload_and_outcome() {
    let p = delete_task::Payload::new("uid-1".into(), "tid-1".into());
    assert_eq!(p.user_id(), "uid-1");
    assert_eq!(p.task_id(), "tid-1");
    assert!(delete_task::delete_outcome_result(true).is_ok());
    assert_eq!(
        delete_task::delete_outcome_result(false).unwrap_err(),
        delete_task::Error::DatabaseError
    );
}

#[test]
fn generic_error_bodies_are_fixed() {
    let internal = InternalServerError::default();
    assert_eq!(internal.message, "Internal server error");
    let not_found = NotFoundError::default();
    assert_eq!(not_found.message, "Not found");
}

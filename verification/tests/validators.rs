use todo_auth::task::description::{Description, DescriptionNewError, MAX_LENGTH as DESC_MAX};
use todo_auth::task::status::{Status, StatusNewError};
use todo_auth::task::title::{Title, TitleNewError, MAX_LENGTH as TITLE_MAX};
use todo_auth::user::email::{Email, EmailNewError, MAX_LEN as EMAIL_MAX};
use todo_auth::user::id::Id;
use todo_auth::user::password::{Password, PasswordNewError, MAX_LEN as PW_MAX, MIN_LEN as PW_MIN};

#[test]
fn test_title_new_ok() {
    let title_str = "Title";
    let title = Title::new(title_str.into());
    assert!(title.is_ok());
    assert!(title.unwrap().value() == title_str);
}

#[test]
fn test_title_new_empty() {
    let title_str = "";
    let title = Title::new(title_str.into());
    assert!(title.is_err());
    assert!(matches!(title.unwrap_err(), TitleNewError::Empty));
}

#[test]
fn test_title_new_too_long() {
    let title_str = "a".repeat(TITLE_MAX + 1);
    let title = Title::new(title_str);
    assert!(title.is_err());
    assert!(matches!(title.unwrap_err(), TitleNewError::TooLong));
}

#[test]
fn title_new_at_limit_ok() {
    assert!(Title::new("a".repeat(TITLE_MAX)).is_ok());
}

#[test]
fn test_description_new_ok() {
    let description_str = "Description";
    let description = Description::new(description_str.into());
    assert!(description.is_ok());
    assert!(description.unwrap().value() == description_str);
}

#[test]
fn test_description_new_too_long() {
    let description_str = "a".repeat(DESC_MAX + 1);
    let description = Description::new(description_str);
    assert!(description.is_err());
    assert!(matches!(
        description.unwrap_err(),
        DescriptionNewError::TooLong
    ));
}

#[test]
fn description_new_at_limit_ok() {
    assert!(Description::new("a".repeat(DESC_MAX)).is_ok());
    assert!(Description::new(String::new()).is_ok());
}

#[test]
fn test_status_try_from_ok() {
    let status_str = "ToDo";
    let status = Status::try_from(status_str);
    assert!(status.is_ok());
    assert!(status.unwrap() == Status::ToDo);
}

#[test]
fn test_status_try_from_unknown() {
    let status_str = "Unknown";
    let status = Status::try_from(status_str);
    assert!(status.is_err());
    assert!(matches!(status.unwrap_err(), StatusNewError::Unknown));
}

#[test]
fn status_spelling_roundtrip() {
    for s in [Status::ToDo, Status::InProgress, Status::Done] {
        assert_eq!(Status::try_from(s.as_str()).unwrap(), s);
    }
    assert_eq!(Status::ToDo.as_str(), "ToDo");
    assert_eq!(Status::InProgress.as_str(), "InProgress");
    assert_eq!(Status::Done.as_str(), "Done");
}

#[test]
fn test_email_new_ok() {
    let email_str = "user@example.com";
    let email = Email::new(email_str.into());
    assert!(email.is_ok());
    assert!(email.unwrap().value() == email_str);
}

#[test]
fn test_email_new_empty() {
    let email_str = "";
    let email = Email::new(email_str.into());
    assert!(email.is_err());
    assert!(matches!(email.unwrap_err(), EmailNewError::Empty));
}

#[test]
fn test_email_new_too_long() {
    let email_str = "a".repeat(EMAIL_MAX + 1);
    let email = Email::new(email_str);
    assert!(email.is_err());
    assert!(matches!(email.unwrap_err(), EmailNewError::TooLong));
}

#[test]
fn test_email_new_wrong_format() {
    for email_str in ["user", "user@", "user@.", "user@.com", "user@exa mple.com"] {
        let email = Email::new(email_str.into());
        assert!(email.is_err());
        assert!(matches!(email.unwrap_err(), EmailNewError::WrongFormat));
    }
}

#[test]
fn email_grammar_details() {
    assert!(Email::new("a+b.c@sub-domain.example.co".into()).is_ok());
    assert!(Email::new("user@localhost".into()).is_ok());
    // a label longer than 63 characters is rejected
    let long_label = format!("user@{}.com", "a".repeat(64));
    assert!(matches!(
        Email::new(long_label).unwrap_err(),
        EmailNewError::WrongFormat
    ));
    // a label may not start or end with a hyphen
    assert!(Email::new("user@-example.com".into()).is_err());
    assert!(Email::new("user@example-.com".into()).is_err());
    // two '@' never pass
    assert!(Email::new("user@a@b.com".into()).is_err());
    // the length check comes before the format check
    let long_invalid = "a".repeat(EMAIL_MAX + 1);
    assert!(matches!(
        Email::new(long_invalid).unwrap_err(),
        EmailNewError::TooLong
    ));
}

#[test]
fn test_id_new() {
    let id = Id::new();
    assert!(!id.value().is_empty());
}

#[test]
fn id_new_shape() {
    let a = Id::new();
    let b = Id::new();
    assert_eq!(a.value().len(), 36);
    assert_ne!(a.value(), b.value());
    assert_eq!(Id::restore("raw-id".into()).value(), "raw-id");
}

#[test]
fn test_password_new_ok() {
    let password_str = "password";
    let password = Password::new(password_str.into());
    assert!(password.is_ok());
    // the accepted password is the one that was passed in: its digest
    // verifies against the original string
    let digest = password.unwrap().hashed().unwrap();
    assert!(todo_auth::password::verify_password(password_str, &digest));
}

#[test]
fn test_password_new_too_short() {
    let password_str = "a".repeat(PW_MIN - 1);
    let password = Password::new(password_str);
    assert!(password.is_err());
    assert!(matches!(password.unwrap_err(), PasswordNewError::TooShort));
}

#[test]
fn test_password_new_too_long() {
    let password_str = "a".repeat(PW_MAX + 1);
    let password = Password::new(password_str);
    assert!(password.is_err());
    assert!(matches!(password.unwrap_err(), PasswordNewError::TooLong));
}

#[test]
fn id_and_email_equality_is_by_value() {
    assert!(Id::restore("a-1".into()) == Id::restore("a-1".into()));
    assert!(Id::restore("a-1".into()) != Id::restore("a-2".into()));
    let a = Email::new("user@example.com".into()).unwrap();
    let b = Email::restore("user@example.com".into());
    assert!(a == b);
    let c = Email::new("other@example.com".into()).unwrap();
    assert!(a != c);
}

use passhash::ApplicationError;
use passhash::Language;
use passhash::PasswordCypher;
use passhash::User;
use passhash::UserBuildError;
use passhash::UserBuilder;

fn build_user(id: i64, username: &str, email: &str, plaintext: &str, code: &str) -> User {
    let cypher = PasswordCypher::new();
    UserBuilder::new()
        .id(id)
        .username(username.to_owned())
        .email(email.to_owned())
        .password(cypher.encode(plaintext).unwrap())
        .language(Language::from_str(code).unwrap())
        .build()
        .unwrap()
}

#[test]
fn test_user_try_password_with() -> Result<(), ApplicationError> {
    let cypher = PasswordCypher::default();
    let user = UserBuilder::default()
        .id(1)
        .username("someuser100".to_owned())
        .email("someuser100@protomail.com".to_owned())
        .password(cypher.encode("123")?)
        .language(Language::from_str("en")?)
        .build()
        .unwrap();
    assert!(user.try_password_with(&cypher, "123")?);
    assert!(!user.try_password_with(&cypher, "1234")?);
    Ok(())
}

#[test]
fn getters_return_the_built_values() {
    let user = build_user(42, "alice", "alice@example.com", "pw", "de");
    assert_eq!(*user.id(), 42);
    assert_eq!(user.username().as_str(), "alice");
    assert_eq!(user.email().as_str(), "alice@example.com");
    assert_eq!(*user.language(), Language::German);
}

#[test]
fn identity_is_the_identifier_alone() {
    let a = build_user(7, "alice", "alice@example.com", "pw-a", "en");
    let b = build_user(7, "bob", "bob@example.com", "pw-b", "ja");
    let c = build_user(8, "alice", "alice@example.com", "pw-a", "en");
    assert!(a == b);
    assert!(a != c);
    assert!(b != c);
}

#[test]
fn build_reports_the_first_missing_field() {
    let cypher = PasswordCypher::new();
    let credential = cypher.encode("pw").unwrap();

    assert!(matches!(
        UserBuilder::new().build(),
        Err(UserBuildError::MissingId)
    ));
    assert!(matches!(
        UserBuilder::new().id(1).build(),
        Err(UserBuildError::MissingUsername)
    ));
    assert!(matches!(
        UserBuilder::new().id(1).username("u".to_owned()).build(),
        Err(UserBuildError::MissingEmail)
    ));
    assert!(matches!(
        UserBuilder::new()
            .id(1)
            .username("u".to_owned())
            .email("e".to_owned())
            .build(),
        Err(UserBuildError::MissingPassword)
    ));
    assert!(matches!(
        UserBuilder::new()
            .id(1)
            .username("u".to_owned())
            .email("e".to_owned())
            .password(credential)
            .build(),
        Err(UserBuildError::MissingLanguage)
    ));
}

#[test]
fn build_succeeds_once_complete() {
    let user = build_user(1, "u", "e", "pw", "ko");
    assert_eq!(*user.id(), 1);
    assert_eq!(*user.language(), Language::Korean);
}

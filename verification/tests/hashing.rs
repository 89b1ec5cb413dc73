use passhash::ApplicationError;
use passhash::PasswordCypher;

#[test]
fn test_password_cypher_encode() -> Result<(), ApplicationError> {
    let cypher = PasswordCypher::default();
    let password = cypher.encode("123")?;
    assert!(!password.salt_bytes().iter().all(|b| *b == 0u8));
    assert!(!password.hash_bytes().iter().all(|b| *b == 0u8));
    assert_ne!(&password.hash_bytes()[..], "123".as_bytes());
    Ok(())
}

#[test]
fn test_password_cypher_try_password() -> Result<(), ApplicationError> {
    let cypher = PasswordCypher::default();
    let password = cypher.encode("123")?;
    assert!(cypher.try_password(&password, "123")?);
    assert!(!cypher.try_password(&password, "1234")?);
    Ok(())
}

#[test]
fn salt_is_fresh_for_every_encode() -> Result<(), ApplicationError> {
    let cypher = PasswordCypher::new();
    let first = cypher.encode("same plaintext")?;
    let second = cypher.encode("same plaintext")?;
    assert_ne!(first.salt_bytes(), second.salt_bytes());
    assert_ne!(first.hash_bytes(), second.hash_bytes());
    Ok(())
}

#[test]
fn verification_is_idempotent() -> Result<(), ApplicationError> {
    let cypher = PasswordCypher::new();
    let password = cypher.encode("a candidate")?;
    let first = cypher.try_password(&password, "a candidate")?;
    let second = cypher.try_password(&password, "a candidate")?;
    assert_eq!(first, second);
    let first_miss = cypher.try_password(&password, "another")?;
    let second_miss = cypher.try_password(&password, "another")?;
    assert_eq!(first_miss, second_miss);
    assert!(first);
    assert!(!first_miss);
    Ok(())
}

#[test]
fn empty_plaintext_round_trips() -> Result<(), ApplicationError> {
    let cypher = PasswordCypher::new();
    let password = cypher.encode("")?;
    assert!(cypher.try_password(&password, "")?);
    assert!(!cypher.try_password(&password, " ")?);
    Ok(())
}

#[test]
fn credential_text_is_redacted() -> Result<(), ApplicationError> {
    let cypher = PasswordCypher::new();
    let password = cypher.encode("top secret")?;
    assert_eq!(password.redacted_text(), "Password");
    Ok(())
}

#[test]
fn hasher_instances_agree() -> Result<(), ApplicationError> {
    let encoder = PasswordCypher::new();
    let checker = PasswordCypher::default();
    let password = encoder.encode("shared")?;
    assert!(checker.try_password(&password, "shared")?);
    Ok(())
}

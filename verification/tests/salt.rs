use argon2derive::{Algorithm, Failure, Parameters};

fn with_salt(salt: &[u8]) -> Parameters {
    Parameters {
        algorithm: Algorithm::Argon2id,
        memory: 1024,
        time: 2,
        parallelism: 1,
        salt: salt.to_vec(),
    }
}

#[test]
fn empty_salt_with_short_name_is_too_short() {
    assert_eq!(with_salt(b"").with_name("ab"), Err(Failure::SaltTooShort));
}

#[test]
fn eight_bytes_of_salt_with_empty_name_suffice() {
    let got = with_salt(b"12345678").with_name("").unwrap();
    assert_eq!(got.salt, b"12345678".to_vec());
}

#[test]
fn name_comes_after_the_base_salt() {
    let got = with_salt(b"base").with_name("name").unwrap();
    assert_eq!(got.salt, b"basename".to_vec());
}

#[test]
fn seven_bytes_are_too_short() {
    assert_eq!(with_salt(b"abc").with_name("defg"), Err(Failure::SaltTooShort));
    assert_eq!(with_salt(b"").with_name(""), Err(Failure::SaltTooShort));
}

#[test]
fn salt_length_counts_bytes_not_characters() {
    // four characters of two bytes each
    assert!(with_salt(b"").with_name("ääää").is_ok());
    assert_eq!(with_salt(b"").with_name("äää"), Err(Failure::SaltTooShort));
}

#[test]
fn naming_changes_the_salt_only() {
    let got = with_salt(b"0123456789").with_name("x").unwrap();
    assert_eq!(
        got,
        Parameters {
            algorithm: Algorithm::Argon2id,
            memory: 1024,
            time: 2,
            parallelism: 1,
            salt: b"0123456789x".to_vec(),
        }
    );
}

#[test]
fn different_names_give_different_salts() {
    let one = with_salt(b"shared-base").with_name("mail").unwrap();
    let other = with_salt(b"shared-base").with_name("bank").unwrap();
    assert_ne!(one.salt, other.salt);
}

#[test]
fn empty_salt_is_reported() {
    assert!(with_salt(b"").salt_is_empty());
    assert!(!with_salt(b"x").salt_is_empty());
}

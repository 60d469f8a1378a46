use maangframe::passwords::{generate_salt, hash_password, verify_password};

#[test]
fn test_password_hashing() {
    let salt = generate_salt();
    let password = "SecurePassword123!";

    let hash = hash_password(password, &salt);

    assert!(verify_password(password, &salt, &hash));
    assert!(!verify_password("WrongPassword", &salt, &hash));
}

#[test]
fn test_salt_uniqueness() {
    let salt1 = generate_salt();
    let salt2 = generate_salt();

    assert_ne!(salt1, salt2);
}

#[test]
fn salt_is_sixty_four_lower_hex_digits() {
    let salt = generate_salt();
    assert_eq!(salt.len(), 64);
    assert!(salt.chars().all(|c| c.is_ascii_digit() || ('a'..='f').contains(&c)));
}

#[test]
fn hash_is_sha256_of_salt_then_password() {
    // SHA-256("abc") with salt "a" and password "bc".
    assert_eq!(
        hash_password("bc", "a"),
        "ba7816bf8f01cfea414140de5dae2223b00361a396177a9cb410ff61f20015ad"
    );
    // SHA-256 of the empty input.
    assert_eq!(
        hash_password("", ""),
        "e3b0c44298fc1c149afbf4c8996fb92427ae41e4649b934ca495991b7852b855"
    );
}

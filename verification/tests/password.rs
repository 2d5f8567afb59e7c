//! The hasher against the real `argon2` and `rand` crates.

use backend::error::AuthError;
use backend::password::hash_pass;
use backend::password::hash_with_salt;
use backend::password::random_salt;
use backend::password::verify_pass;
use backend::password::MAX_PASSWORD_BYTES;
use backend::password::SALT_LEN;

#[test]
fn salt_is_eight_letters_and_digits() {
    for _ in 0..50 {
        let salt = random_salt();
        assert_eq!(salt.chars().count(), 8);
        assert_eq!(salt.len(), SALT_LEN);
        assert!(salt.chars().all(|c| c.is_ascii_alphanumeric()), "salt {:?}", salt);
    }
}

#[test]
fn salts_differ_from_draw_to_draw() {
    let first = random_salt();
    let second = random_salt();
    let third = random_salt();
    assert!(first != second || second != third);
}

#[test]
fn digest_of_a_known_password_and_salt() {
    assert_eq!(
        hash_with_salt("password", "somesalt"),
        Ok("$argon2i$v=19$m=4096,t=3,p=1$c29tZXNhbHQ$iWh06vD8Fy27wf9npn6FXWiCX4K6pW6Ue1Bnzz07Z8A".to_owned())
    );
}

#[test]
fn digest_depends_on_the_salt_and_on_the_password() {
    let base = hash_with_salt("password", "somesalt").unwrap();
    assert_eq!(hash_with_salt("password", "somesalt").unwrap(), base);
    assert_ne!(hash_with_salt("password", "othersalt").unwrap(), base);
    assert_ne!(hash_with_salt("passwore", "somesalt").unwrap(), base);
}

#[test]
fn digest_embeds_parameters_and_salt() {
    let digest = hash_with_salt("s3cret", "AbCd1234").unwrap();
    let parts: Vec<&str> = digest.split('$').collect();
    assert_eq!(parts.len(), 6);
    assert_eq!(parts[0], "");
    assert_eq!(parts[1], "argon2i");
    assert_eq!(parts[2], "v=19");
    assert_eq!(parts[3], "m=4096,t=3,p=1");
    assert_eq!(parts[4], "QWJDZDEyMzQ");
    assert_eq!(parts[5].len(), 43);
}

#[test]
fn short_salt_is_a_hashing_failure() {
    assert_eq!(hash_with_salt("password", "7chars!"), Err(AuthError::HashingFailure));
    assert_eq!(hash_with_salt("password", ""), Err(AuthError::HashingFailure));
    assert!(hash_with_salt("password", "8chars!!").is_ok());
}

#[test]
fn salt_length_counts_bytes() {
    // Four characters of two bytes each.
    assert!(hash_with_salt("password", "\u{e9}\u{e9}\u{e9}\u{e9}").is_ok());
    assert_eq!(hash_with_salt("password", "\u{e9}\u{e9}\u{e9}a"), Err(AuthError::HashingFailure));
}

#[test]
fn hashing_is_salted() {
    let first = hash_pass("Tr0ub4dor&3xyz").unwrap();
    let second = hash_pass("Tr0ub4dor&3xyz").unwrap();
    assert_ne!(first, second);
    assert_eq!(verify_pass(&first, "Tr0ub4dor&3xyz"), Ok(true));
    assert_eq!(verify_pass(&second, "Tr0ub4dor&3xyz"), Ok(true));
}

#[test]
fn hashing_never_refuses_a_weak_password() {
    assert!(MAX_PASSWORD_BYTES >= 4);
    for weak in ["", "a", "1234", "password"] {
        let digest = hash_pass(weak).unwrap();
        assert_ne!(digest, weak);
        assert_eq!(verify_pass(&digest, weak), Ok(true));
    }
}

#[test]
fn hashing_takes_any_text() {
    let password = "p\u{e4}ssw\u{f6}rd \u{1f511} \u{0}";
    let digest = hash_pass(password).unwrap();
    assert_eq!(verify_pass(&digest, password), Ok(true));
    assert_eq!(verify_pass(&digest, "passwoerd"), Ok(false));
}

#[test]
fn mismatch_is_false_not_an_error() {
    let digest = hash_pass("Tr0ub4dor&3xyz").unwrap();
    assert_eq!(verify_pass(&digest, "wrong"), Ok(false));
    assert_eq!(verify_pass(&digest, ""), Ok(false));
    assert_eq!(verify_pass(&digest, "Tr0ub4dor&3xyz "), Ok(false));
    assert_eq!(verify_pass(&digest, "tr0ub4dor&3xyz"), Ok(false));
}

#[test]
fn verifies_a_digest_made_elsewhere() {
    let digest = "$argon2i$v=19$m=4096,t=3,p=1$c29tZXNhbHQ$iWh06vD8Fy27wf9npn6FXWiCX4K6pW6Ue1Bnzz07Z8A";
    assert_eq!(verify_pass(digest, "password"), Ok(true));
    assert_eq!(verify_pass(digest, "Password"), Ok(false));
}

#[test]
fn malformed_digest_is_a_hashing_failure() {
    for digest in [
        "",
        "password",
        "$argon2i$v=19$m=4096,t=3,p=1$c29tZXNhbHQ",
        "$argon9$v=19$m=4096,t=3,p=1$c29tZXNhbHQ$iWh06vD8Fy27wf9npn6FXWiCX4K6pW6Ue1Bnzz07Z8A",
        "$argon2i$v=19$m=4096,t=3$c29tZXNhbHQ$iWh06vD8Fy27wf9npn6FXWiCX4K6pW6Ue1Bnzz07Z8A",
        "$argon2i$v=19$m=4096,t=3,p=1$c29tZXNhbHQ$not base64!",
        "$argon2i$v=19$m=4096,t=3,p=1$c2FsdA$iWh06vD8Fy27wf9npn6FXWiCX4K6pW6Ue1Bnzz07Z8A",
        "$argon2i$v=18$m=4096,t=3,p=1$c29tZXNhbHQ$iWh06vD8Fy27wf9npn6FXWiCX4K6pW6Ue1Bnzz07Z8A",
        "$argon2i$v=19$m=4096,t=0,p=1$c29tZXNhbHQ$iWh06vD8Fy27wf9npn6FXWiCX4K6pW6Ue1Bnzz07Z8A",
        "$argon2i$v=19$m=4096,t=3,p=0$c29tZXNhbHQ$iWh06vD8Fy27wf9npn6FXWiCX4K6pW6Ue1Bnzz07Z8A",
        "$argon2i$v=19$m=1,t=3,p=1$c29tZXNhbHQ$iWh06vD8Fy27wf9npn6FXWiCX4K6pW6Ue1Bnzz07Z8A",
        "$argon2i$v=19$m=4096,t=3,p=1$c29tZXNhbHQ$",
    ] {
        assert_eq!(verify_pass(digest, "password"), Err(AuthError::HashingFailure), "digest {:?}", digest);
    }
}

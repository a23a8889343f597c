use arrively::password::{check_outcome, digest_outcome, hash_password, verify_password};
use arrively::password::{PasswordError, DIGEST_LEN, HASH_COST};

#[test]
fn a_digest_is_accepted_for_its_password_only() {
    let digest = hash_password("hunter2").unwrap();
    assert_eq!(verify_password("hunter2", &digest), Ok(true));
    assert_eq!(verify_password("hunter3", &digest), Ok(false));
}

#[test]
fn a_digest_is_not_the_password() {
    let digest = hash_password("newpassword").unwrap();
    assert_ne!(digest, "newpassword");
    assert_eq!(digest.chars().count(), DIGEST_LEN);
    assert_eq!(digest.chars().count(), 60);
    assert!(digest.starts_with("$2b$12$"));
}

#[test]
fn the_cost_is_fixed() {
    assert_eq!(HASH_COST, 12);
    assert_eq!(HASH_COST, bcrypt::DEFAULT_COST);
}

#[test]
fn every_digest_carries_the_fixed_cost() {
    for password in ["a", "hunter2"] {
        let digest: Vec<char> = hash_password(password).unwrap().chars().collect();
        assert_eq!(digest[0], '$');
        assert_eq!(digest[3], '$');
        assert_eq!(digest[4], '1');
        assert_eq!(digest[5], '2');
        assert_eq!(digest[6], '$');
    }
}

#[test]
fn digests_are_salted() {
    let first = hash_password("same").unwrap();
    let second = hash_password("same").unwrap();
    assert_ne!(first, second);
}

#[test]
fn the_empty_password_has_a_digest() {
    let digest = hash_password("").unwrap();
    assert_ne!(digest, "");
    assert_eq!(verify_password("", &digest), Ok(true));
}

#[test]
fn known_digests_are_checked() {
    let digest = "$2a$04$UuTkLRZZ6QofpDOlMz32MuuxEHA43WOemOYHPz6.SjsVsyO1tDU96";
    assert_eq!(verify_password("password", digest), Ok(true));
    assert_eq!(verify_password("Password", digest), Ok(false));
    let other = "$2b$04$EGdrhbKUv8Oc9vGiXX0HQOxSg445d458Muh7DAHskb6QbtCvdxcie";
    assert_eq!(verify_password("correctbatteryhorsestapler", other), Ok(true));
    assert_eq!(verify_password("wrong", other), Ok(false));
}

#[test]
fn a_text_that_is_no_digest_is_an_error() {
    assert_eq!(verify_password("password", ""), Err(PasswordError::MalformedDigest));
    assert_eq!(verify_password("password", "password"), Err(PasswordError::MalformedDigest));
    assert_eq!(
        verify_password("password", "$2a$04$tjARW6ZON3PhrAIRW2LG/u9a."),
        Err(PasswordError::MalformedDigest)
    );
    assert_eq!(
        verify_password("password", "$9z$04$UuTkLRZZ6QofpDOlMz32MuuxEHA43WOemOYHPz6.SjsVsyO1tDU96"),
        Err(PasswordError::MalformedDigest)
    );
}

#[test]
fn outcomes_of_the_hashing_library_are_mapped() {
    assert_eq!(digest_outcome(Ok(String::from("digest"))), Ok(String::from("digest")));
    assert_eq!(
        digest_outcome(Err(bcrypt::BcryptError::CostNotAllowed(99))),
        Err(PasswordError::HashingFailed)
    );
    assert_eq!(check_outcome(Ok(true)), Ok(true));
    assert_eq!(check_outcome(Ok(false)), Ok(false));
    assert_eq!(
        check_outcome(Err(bcrypt::BcryptError::InvalidHash(String::from("x")))),
        Err(PasswordError::MalformedDigest)
    );
}

use osphor::credential;
use osphor::errors::AppError;

#[test]
fn hash_verify_round_trip() {
    let h = credential::hash("pw1").unwrap();
    assert!(h.starts_with("$argon2id$"));
    assert_eq!(credential::verify(&h, "pw1"), Ok(true));
}

#[test]
fn hash_verify_rejects_wrong_secret() {
    let h = credential::hash("pw1").unwrap();
    assert_eq!(credential::verify(&h, "pw2"), Ok(false));
    assert_eq!(credential::verify(&h, ""), Ok(false));
}

#[test]
fn two_hashes_of_same_secret_differ_but_both_verify() {
    let h1 = credential::hash("pw1").unwrap();
    let h2 = credential::hash("pw1").unwrap();
    assert_ne!(h1, h2);
    assert_eq!(credential::verify(&h1, "pw1"), Ok(true));
    assert_eq!(credential::verify(&h2, "pw1"), Ok(true));
}

#[test]
fn verify_malformed_hash_is_corrupt() {
    assert_eq!(credential::verify("not a hash", "pw1"), Err(AppError::CorruptHash));
    assert_eq!(credential::verify("", "pw1"), Err(AppError::CorruptHash));
}

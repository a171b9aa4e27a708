use doit::identity::{resolve_identity, IdentityError};
use doit::shadow::{
    get_shadow_hash, is_crypt_text, locate_hash, shadow_verify_password, verify_user, HashLocation, ShadowError,
};

const MD5_HASH: &str = "$1$5pZSV9va$azfrPr6af3Fc7dLblQXVa0";
const DES_HASH: &str = "aZGJuE6EXrjEE";

#[test]
fn identity_from_record() {
    let id = resolve_identity(Some(b"alice".to_vec())).unwrap();
    assert_eq!(id.username, "alice");
    assert_eq!(resolve_identity(None).unwrap_err(), IdentityError::NotFound);
    assert_eq!(
        resolve_identity(Some(vec![0x61, 0xff, 0x62])).unwrap_err(),
        IdentityError::EncodingError
    );
}

#[test]
fn shadowed_field_sends_to_shadow_database() {
    let loc = locate_hash(Some(b"x".to_vec())).unwrap();
    assert!(loc.needs_shadow_lookup());
    let hash = get_shadow_hash(Ok(loc), Some(MD5_HASH.as_bytes().to_vec())).unwrap();
    assert_eq!(hash, MD5_HASH);
}

#[test]
fn disabled_field_is_kept_and_refuses() {
    for f in ["*", "*LK*", "*!"] {
        let loc = locate_hash(Some(f.as_bytes().to_vec())).unwrap();
        assert!(!loc.needs_shadow_lookup());
        match &loc {
            HashLocation::Field(h) => assert_eq!(h, f),
            HashLocation::ShadowDatabase => panic!("wrong location"),
        }
        let hash = get_shadow_hash(Ok(loc), None);
        assert!(!shadow_verify_password(&hash, "password"));
        assert!(!shadow_verify_password(&hash, ""));
    }
}

#[test]
fn unsupported_and_missing_fields() {
    assert_eq!(locate_hash(Some(b"".to_vec())).unwrap_err(), ShadowError::UnsupportedFormat);
    assert_eq!(locate_hash(Some(b"xx".to_vec())).unwrap_err(), ShadowError::UnsupportedFormat);
    assert_eq!(locate_hash(Some(b"!".to_vec())).unwrap_err(), ShadowError::UnsupportedFormat);
    assert_eq!(locate_hash(Some(b"!!".to_vec())).unwrap_err(), ShadowError::UnsupportedFormat);
    assert_eq!(locate_hash(Some(MD5_HASH.as_bytes().to_vec())).unwrap_err(), ShadowError::UnsupportedFormat);
    assert_eq!(locate_hash(None).unwrap_err(), ShadowError::RecordNotFound);
    assert_eq!(locate_hash(Some(vec![0xc3])).unwrap_err(), ShadowError::EncodingError);
    let loc = locate_hash(Some(b"x".to_vec())).unwrap();
    assert_eq!(get_shadow_hash(Ok(loc), None).unwrap_err(), ShadowError::RecordNotFound);
    let loc = locate_hash(Some(b"x".to_vec())).unwrap();
    assert_eq!(get_shadow_hash(Ok(loc), Some(vec![0xff])).unwrap_err(), ShadowError::EncodingError);
    let e = get_shadow_hash(Err(ShadowError::UnsupportedFormat), Some(b"x".to_vec()));
    assert_eq!(e.unwrap_err(), ShadowError::UnsupportedFormat);
}

#[test]
fn verification_is_repeatable() {
    assert!(verify_user(MD5_HASH, "password"));
    assert!(verify_user(MD5_HASH, "password"));
    assert!(verify_user(DES_HASH, "test"));
    assert!(verify_user(DES_HASH, "test"));
}

#[test]
fn wrong_password_is_refused() {
    assert!(!verify_user(MD5_HASH, "Password"));
    assert!(!verify_user(MD5_HASH, ""));
    assert!(!verify_user(DES_HASH, "tesT"));
    assert!(!verify_user("*", "password"));
    assert!(!verify_user("!", ""));
}

#[test]
fn verdict_from_lookup_results() {
    assert!(shadow_verify_password(&Ok(MD5_HASH.to_string()), "password"));
    assert!(!shadow_verify_password(&Ok(MD5_HASH.to_string()), "wrong"));
    assert!(!shadow_verify_password(&Err(ShadowError::RecordNotFound), "password"));
}

#[test]
fn hash_outside_printable_ascii_is_refused() {
    assert!(!verify_user("\u{80}\u{80}", "x"));
    assert!(!verify_user("a\u{1}bcdefghijk", "x"));
    assert!(!verify_user("$6$\u{80}salt$abc", "x"));
    assert!(!verify_user("é", ""));
    assert!(is_crypt_text(MD5_HASH));
    assert!(is_crypt_text(" ~"));
    assert!(!is_crypt_text("\u{7f}"));
    assert!(!is_crypt_text("\t"));
}

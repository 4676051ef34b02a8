//! The password verifier, on plain and hashed passwords.

use argon2::{Algorithm, Argon2, Version};
use balloon_hash::Balloon;
use pam_kv::hash::{first_accepting, read_param, HashRecord, SchemeKind, MAX_LANES};
use pam_kv::text::Reading;
use pam_kv::password::{verify, verify_encrypted, verify_parsed, Password};
use password_hash::{PasswordHasher, SaltString};
use pbkdf2::Pbkdf2;
use scrypt::Scrypt;
use sha2::Sha256;

fn salt() -> SaltString {
    SaltString::from_b64("c29tZXNhbHRzb21lc2FsdA").unwrap()
}

fn argon2_hash(secret: &str) -> String {
    let params = argon2::Params::new(64, 1, 1, None).unwrap();
    let hasher = Argon2::new(Algorithm::Argon2id, Version::V0x13, params);
    hasher.hash_password(secret.as_bytes(), &salt()).unwrap().to_string()
}

fn pbkdf2_hash(secret: &str) -> String {
    let params = pbkdf2::Params { rounds: 1000, output_length: 32 };
    Pbkdf2
        .hash_password_customized(secret.as_bytes(), None, None, params, &salt())
        .unwrap()
        .to_string()
}

fn scrypt_hash(secret: &str) -> String {
    let params = scrypt::Params::new(4, 8, 1, 32).unwrap();
    Scrypt
        .hash_password_customized(secret.as_bytes(), None, None, params, &salt())
        .unwrap()
        .to_string()
}

fn balloon_hash(secret: &str) -> String {
    let params = balloon_hash::Params::new(16, 2, 1).unwrap();
    let hasher = Balloon::<Sha256>::new(balloon_hash::Algorithm::Balloon, params, None);
    hasher.hash_password(secret.as_bytes(), &salt()).unwrap().to_string()
}

#[test]
fn raw_password_matches_itself() {
    let stored = Password::Raw("s3cret".to_string());
    assert!(verify("s3cret", &stored));
}

#[test]
fn raw_password_with_a_character_added_does_not_match() {
    let stored = Password::Raw("s3cret".to_string());
    assert!(!verify("s3cretx", &stored));
    assert!(!verify("s3cre", &stored));
    assert!(!verify("", &stored));
}

#[test]
fn raw_comparison_does_not_normalize() {
    let stored = Password::Raw("Passw0rd".to_string());
    assert!(!verify("passw0rd", &stored));
    assert!(!verify(" Passw0rd", &stored));
    assert!(!verify("Passw0rd ", &stored));
}

#[test]
fn empty_raw_password_matches_the_empty_secret_only() {
    let stored = Password::Raw(String::new());
    assert!(verify("", &stored));
    assert!(!verify("x", &stored));
}

#[test]
fn argon2_hash_verifies_its_secret_only() {
    let stored = Password::Encrypted(argon2_hash("hunter2"));
    assert!(verify("hunter2", &stored));
    assert!(!verify("hunter3", &stored));
    assert!(!verify("", &stored));
}

#[test]
fn pbkdf2_hash_verifies_its_secret_only() {
    let stored = Password::Encrypted(pbkdf2_hash("hunter2"));
    assert!(verify("hunter2", &stored));
    assert!(!verify("hunter3", &stored));
}

#[test]
fn scrypt_hash_verifies_its_secret_only() {
    let stored = Password::Encrypted(scrypt_hash("hunter2"));
    assert!(verify("hunter2", &stored));
    assert!(!verify("hunter3", &stored));
}

#[test]
fn balloon_hash_verifies_its_secret_only() {
    let stored = Password::Encrypted(balloon_hash("hunter2"));
    assert!(verify("hunter2", &stored));
    assert!(!verify("hunter3", &stored));
}

#[test]
fn the_accepting_scheme_is_the_one_the_hash_names() {
    assert_eq!(first_accepting(&argon2_hash("pw"), "pw"), Some(SchemeKind::Argon2));
    assert_eq!(first_accepting(&pbkdf2_hash("pw"), "pw"), Some(SchemeKind::Pbkdf2));
    assert_eq!(first_accepting(&scrypt_hash("pw"), "pw"), Some(SchemeKind::Scrypt));
    assert_eq!(first_accepting(&balloon_hash("pw"), "pw"), Some(SchemeKind::Balloon));
    assert_eq!(first_accepting(&argon2_hash("pw"), "other"), None);
}

#[test]
fn each_scheme_rejects_the_hashes_of_the_others() {
    let hash = scrypt_hash("pw");
    assert!(SchemeKind::Scrypt.verify(&hash, "pw"));
    assert!(!SchemeKind::Argon2.verify(&hash, "pw"));
    assert!(!SchemeKind::Pbkdf2.verify(&hash, "pw"));
    assert!(!SchemeKind::Balloon.verify(&hash, "pw"));
    let hash = argon2_hash("pw");
    assert!(SchemeKind::Argon2.verify(&hash, "pw"));
    assert!(!SchemeKind::Scrypt.verify(&hash, "pw"));
    let hash = pbkdf2_hash("pw");
    assert!(SchemeKind::Pbkdf2.verify(&hash, "pw"));
    assert!(!SchemeKind::Balloon.verify(&hash, "pw"));
    let hash = balloon_hash("pw");
    assert!(SchemeKind::Balloon.verify(&hash, "pw"));
    assert!(!SchemeKind::Pbkdf2.verify(&hash, "pw"));
}

#[test]
fn schemes_are_tried_in_a_fixed_order() {
    assert_eq!(
        SchemeKind::all(),
        [SchemeKind::Argon2, SchemeKind::Pbkdf2, SchemeKind::Scrypt, SchemeKind::Balloon]
    );
}

#[test]
fn a_corrupted_digest_is_rejected() {
    let good = argon2_hash("hunter2");
    let mut corrupted = good.clone();
    let last = corrupted.pop().unwrap();
    corrupted.push(if last == 'A' { 'B' } else { 'A' });
    assert!(HashRecord::parse(&corrupted).is_some());
    assert!(!verify_encrypted("hunter2", &corrupted));
}

#[test]
fn a_hash_of_an_unsupported_scheme_is_rejected() {
    let hash = "$md5$c29tZXNhbHQ$AAAAAAAAAAAAAAAAAAAAAA";
    let record = HashRecord::parse(hash).unwrap();
    assert_eq!(record.scheme(), None);
    assert!(!verify_encrypted("hunter2", hash));
    assert!(!verify_encrypted(hash, hash));
}

#[test]
fn a_hash_without_salt_or_digest_is_rejected() {
    assert!(HashRecord::parse("$argon2id$v=19$m=64,t=1,p=1").is_some());
    assert!(!verify_encrypted("hunter2", "$argon2id$v=19$m=64,t=1,p=1"));
    assert!(!verify_encrypted("", "$scrypt"));
}

#[test]
fn text_that_is_no_hash_is_compared_as_it_stands() {
    let stored = Password::Encrypted("not a hash".to_string());
    assert!(HashRecord::parse("not a hash").is_none());
    assert!(verify("not a hash", &stored));
    assert!(!verify("not a hash ", &stored));
    assert!(!verify("hunter2", &stored));
}

#[test]
fn verify_parsed_compares_texts_without_a_record() {
    assert!(verify_parsed("abc", "abc", None));
    assert!(!verify_parsed("abc", "abd", None));
}

#[test]
fn verify_parsed_tries_the_schemes_with_a_record() {
    let hash = scrypt_hash("hunter2");
    let record = HashRecord::parse(&hash).unwrap();
    assert!(verify_parsed("hunter2", &hash, Some(&record)));
    assert!(!verify_parsed("hunter3", &hash, Some(&record)));
    assert!(!verify_parsed(&hash, &hash, Some(&record)));
}

#[test]
fn identifiers_name_their_schemes() {
    assert_eq!(SchemeKind::from_identifier("argon2d"), Some(SchemeKind::Argon2));
    assert_eq!(SchemeKind::from_identifier("argon2i"), Some(SchemeKind::Argon2));
    assert_eq!(SchemeKind::from_identifier("argon2id"), Some(SchemeKind::Argon2));
    assert_eq!(SchemeKind::from_identifier("pbkdf2-sha256"), Some(SchemeKind::Pbkdf2));
    assert_eq!(SchemeKind::from_identifier("pbkdf2-sha512"), Some(SchemeKind::Pbkdf2));
    assert_eq!(SchemeKind::from_identifier("scrypt"), Some(SchemeKind::Scrypt));
    assert_eq!(SchemeKind::from_identifier("balloon"), Some(SchemeKind::Balloon));
    assert_eq!(SchemeKind::from_identifier("balloon-m"), Some(SchemeKind::Balloon));
    assert_eq!(SchemeKind::from_identifier("argon2"), None);
    assert_eq!(SchemeKind::from_identifier("Scrypt"), None);
    assert_eq!(SchemeKind::from_identifier(""), None);
}

#[test]
fn hashes_of_every_scheme_survive_encoding() {
    for hash in [argon2_hash("pw"), pbkdf2_hash("pw"), scrypt_hash("pw"), balloon_hash("pw")] {
        let record = HashRecord::parse(&hash).unwrap();
        let text = record.encode().unwrap();
        assert_eq!(text, hash);
        let again = HashRecord::parse(&text).unwrap();
        assert_eq!(again.algorithm, record.algorithm);
        assert_eq!(again.digest, record.digest);
        assert_eq!(again, record);
        assert!(verify_encrypted("pw", &text));
    }
}

#[test]
fn non_ascii_secrets_are_verified_by_their_bytes() {
    let stored = Password::Encrypted(scrypt_hash("pässwörd"));
    assert!(verify("pässwörd", &stored));
    assert!(!verify("password", &stored));
    assert!(!verify("pa\u{308}sswo\u{308}rd", &stored));
}

fn digest() -> &'static str {
    "AAAAAAAAAAAAAAAAAAAAAAAAAAAAAAAAAAAAAAAAAAA"
}

fn crafted(id: &str, params: &str) -> String {
    format!("${}${}$c29tZXNhbHQ${}", id, params, digest())
}

#[test]
fn a_degree_of_parallelism_beyond_what_argon2_takes_is_rejected() {
    let hash = "$argon2id$v=19$m=4096,t=1,p=536870912$c29tZXNhbHQ$aGFzaGhhc2hoYXNoaGFzaA";
    assert!(HashRecord::parse(hash).is_some());
    assert!(!SchemeKind::Argon2.verify(hash, "x"));
    assert_eq!(first_accepting(hash, "x"), None);
    assert!(!verify_encrypted("x", hash));
    assert!(!verify("x", &Password::Encrypted(hash.to_string())));
    for p in ["p=16777216", "p=536870911", "p=536870912", "p=4294967295", "p=4294967296", "m=8,p=99999999999999999999", "p=1,p=1073741824", "t=1,p=0536870912"] {
        for id in ["argon2id$v=19", "argon2i", "argon2d$v=16"] {
            assert!(!SchemeKind::Argon2.takes(p));
            assert!(!verify_encrypted("x", &crafted(id, p)));
        }
    }
}

#[test]
fn a_hash_of_another_scheme_never_reaches_argon2() {
    for id in ["scrypt", "pbkdf2-sha256", "balloon$v=1", "md5"] {
        let hash = crafted(id, "p=536870912");
        assert!(HashRecord::parse(&hash).is_some());
        assert!(!SchemeKind::Argon2.verify(&hash, "x"));
        assert!(!verify_encrypted("x", &hash));
    }
}

#[test]
fn of_several_degrees_of_parallelism_the_last_counts() {
    let genuine = argon2_hash("hunter2");
    assert!(genuine.contains("$m=64,t=1,p=1$"));
    let repeated = genuine.replace("$m=64,t=1,p=1$", "$p=536870912,m=64,t=1,p=1$");
    assert!(SchemeKind::Argon2.takes("p=536870912,m=64,t=1,p=1"));
    assert!(verify_encrypted("hunter2", &repeated));
    assert!(!verify_encrypted("hunter3", &repeated));
    let reversed = genuine.replace("$m=64,t=1,p=1$", "$m=64,t=1,p=1,p=536870912$");
    assert!(!verify_encrypted("hunter2", &reversed));
}

#[test]
fn the_largest_degree_of_parallelism_is_taken() {
    assert_eq!(MAX_LANES, 16777215);
    assert!(SchemeKind::Argon2.takes("m=8,t=1,p=16777215"));
    assert!(SchemeKind::Argon2.takes("m=8,t=1"));
    assert!(SchemeKind::Argon2.takes(""));
    assert!(SchemeKind::Argon2.takes("p=x"));
    assert!(SchemeKind::Argon2.takes("p="));
    assert!(!verify_encrypted("x", &crafted("argon2id$v=19", "m=8,t=1,p=16777215")));
}

#[test]
fn a_scrypt_buffer_that_no_allocation_can_hold_is_rejected() {
    for p in ["ln=54,r=4,p=1", "ln=56,r=1", "ln=60,r=8", "ln=255,r=1", "ln=62", "r=4,ln=54", "ln=1,ln=54,r=4"] {
        assert!(!SchemeKind::Scrypt.takes(p));
        assert!(!SchemeKind::Scrypt.verify(&crafted("scrypt", p), "x"));
        assert!(!verify_encrypted("x", &crafted("scrypt", p)));
    }
    for p in ["", "ln=1,r=1,p=1", "ln=15,r=1,p=1", "ln=54,r=0", "ln=256,r=4", "ln=x,r=4", "ln=54,r=4294967296", "ln=54,r=4,ln=1"] {
        assert!(SchemeKind::Scrypt.takes(p));
    }
    for p in ["ln=1,r=1,p=1", "ln=54,r=0", "ln=256,r=4", "ln=55,r=4,p=1", "ln=63,r=1,p=1"] {
        assert!(!SchemeKind::Scrypt.verify(&crafted("scrypt", p), "x"));
    }
}

#[test]
fn the_other_schemes_take_every_parameter_string() {
    for p in ["", "p=536870912", "ln=54,r=4", "i=4294967295,l=64", "s=1,t=1,p=4294967295"] {
        assert!(SchemeKind::Pbkdf2.takes(p));
        assert!(SchemeKind::Balloon.takes(p));
    }
}

#[test]
fn parameters_are_read_by_name_last_one_first() {
    assert_eq!(read_param("m=64,t=1,p=2", "p", 1, 100), Reading::Number(2));
    assert_eq!(read_param("m=64,t=1,p=2", "m", 1, 100), Reading::Number(64));
    assert_eq!(read_param("m=64,t=1,p=2", "m", 1, 63), Reading::TooLarge);
    assert_eq!(read_param("m=64,t=1", "p", 7, 100), Reading::Number(7));
    assert_eq!(read_param("", "p", 7, 100), Reading::Number(7));
    assert_eq!(read_param("p=1,p=x", "p", 7, 100), Reading::NoNumber);
    assert_eq!(read_param("p=x,p=1", "p", 7, 100), Reading::Number(1));
    assert_eq!(read_param("p", "p", 7, 100), Reading::NoNumber);
    assert_eq!(read_param("pp=3", "p", 7, 100), Reading::Number(7));
}

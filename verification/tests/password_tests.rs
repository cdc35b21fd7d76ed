use chat_relay::password::empty_password_record;
use chat_relay::password::hash_or;
use chat_relay::password::password_admits;
use chat_relay::password::password_record;
use chat_relay::password::verdict_admits;

#[test]
fn password_record_is_a_bcrypt_hash() {
    let stored = password_record(&"opensesame".to_string());
    assert_ne!(stored, "opensesame");
    assert_eq!(stored.len(), 60);
    assert!(stored.starts_with("$2b$12$"));
}

#[test]
fn password_record_admits_its_password_and_no_other() {
    let stored = password_record(&"hunter2".to_string());
    assert!(password_admits(&Some("hunter2".to_string()), &stored));
    assert!(!password_admits(&Some("hunter3".to_string()), &stored));
}

#[test]
fn empty_password_record_admits_the_empty_password() {
    let stored = empty_password_record();
    assert!(password_admits(&Some(String::new()), &stored));
    assert!(!password_admits(&Some("x".to_string()), &stored));
}

#[test]
fn a_login_without_password_is_admitted() {
    assert!(password_admits(&None, &"anything".to_string()));
}

#[test]
fn a_text_that_is_no_hash_admits_no_password() {
    assert!(!password_admits(&Some("opensesame".to_string()), &"opensesame".to_string()));
    assert!(!password_admits(&Some(String::new()), &String::new()));
}

#[test]
fn a_known_hash_admits_its_password() {
    let hash = "$2a$04$UuTkLRZZ6QofpDOlMz32MuuxEHA43WOemOYHPz6.SjsVsyO1tDU96".to_string();
    assert!(password_admits(&Some("password".to_string()), &hash));
    assert!(!password_admits(&Some("passwore".to_string()), &hash));
}

#[test]
fn hash_or_prefers_the_hash() {
    assert_eq!(hash_or(Some("h".to_string()), "f".to_string()), "h");
    assert_eq!(hash_or(None, "f".to_string()), "f");
}

#[test]
fn only_a_plain_yes_admits() {
    assert!(verdict_admits(Some(true)));
    assert!(!verdict_admits(Some(false)));
    assert!(!verdict_admits(None));
}

use orvane_auth::crypto::generate_random_code;
use orvane_auth::crypto::generate_token;
use orvane_auth::crypto::hash_password;
use orvane_auth::crypto::hash_string;
use orvane_auth::crypto::hash_token;
use orvane_auth::crypto::verify_password_hash;
use orvane_auth::crypto::verify_string_hash;

#[test]
fn hash_string_empty_input_gives_known_digest() {
    assert_eq!(
        hash_string(String::from("")),
        "e3b0c44298fc1c149afbf4c8996fb92427ae41e4649b934ca495991b7852b855"
    );
}

#[test]
fn hash_string_known_value() {
    assert_eq!(
        hash_string(String::from("abc")),
        "ba7816bf8f01cfea414140de5dae2223b00361a396177a9cb410ff61f20015ad"
    );
}

#[test]
fn hash_token_agrees_with_hash_string() {
    assert_eq!(hash_token("abc"), hash_string(String::from("abc")));
    assert_eq!(hash_token("abc").len(), 64);
}

#[test]
fn verify_string_hash_accepts_the_right_value_only() {
    let hash = hash_string(String::from("123456"));
    assert!(verify_string_hash(String::from("123456"), hash.clone()));
    assert!(!verify_string_hash(String::from("123457"), hash.clone()));
    assert!(!verify_string_hash(String::from("123456"), String::from("123456")));
}

#[test]
fn generate_token_is_32_lowercase_base32_chars() {
    let token = generate_token();
    assert_eq!(token.len(), 32);
    for c in token.chars() {
        assert!(
            ('a'..='z').contains(&c) || ('2'..='7').contains(&c),
            "unexpected token character: {}",
            c
        );
    }
}

#[test]
fn generate_token_values_differ() {
    assert_ne!(generate_token(), generate_token());
}

#[test]
fn generate_random_code_is_digits_of_requested_length() {
    let code = generate_random_code(6);
    assert_eq!(code.len(), 6);
    for c in code.chars() {
        assert!(c.is_ascii_digit());
    }
    assert_eq!(generate_random_code(0).len(), 0);
    assert_eq!(generate_random_code(10).len(), 10);
}

#[test]
fn password_round_trip() {
    let hash = hash_password(String::from("Secr3t!23")).unwrap();
    assert!(matches!(
        verify_password_hash(String::from("Secr3t!23"), hash.clone()),
        Ok(true)
    ));
    assert!(matches!(
        verify_password_hash(String::from("Secr3t!24"), hash.clone()),
        Ok(false)
    ));
}

#[test]
fn password_hashes_are_salted() {
    let first = hash_password(String::from("Secr3t!23")).unwrap();
    let second = hash_password(String::from("Secr3t!23")).unwrap();
    assert_ne!(first, second);
    assert!(matches!(
        verify_password_hash(String::from("Secr3t!23"), second),
        Ok(true)
    ));
}

#[test]
fn verify_password_hash_refuses_malformed_hash() {
    let r = verify_password_hash(String::from("anything"), String::from("not a phc string"));
    assert!(r.is_err());
}

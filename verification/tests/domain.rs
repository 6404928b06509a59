use z2p_axum::domain::{SubscriberEmail, SubscriberName};

#[test]
fn a_256_grapheme_long_name_is_valid() {
    let name = "ё".repeat(256);
    assert!(SubscriberName::parse(name).is_ok());
}

#[test]
fn a_name_longer_than_256_graphemes_is_rejected() {
    let name = "a".repeat(257);
    assert!(SubscriberName::parse(name).is_err());
}

#[test]
fn a_257_grapheme_multibyte_name_is_rejected() {
    let name = "ё".repeat(257);
    assert!(SubscriberName::parse(name).is_err());
}

#[test]
fn whitespace_only_names_are_rejected() {
    let name = " ".to_string();
    assert!(SubscriberName::parse(name).is_err());
}

#[test]
fn a_long_whitespace_only_name_is_rejected() {
    let name = "   ".to_string();
    assert!(SubscriberName::parse(name).is_err());
}

#[test]
fn domain_empty_string_is_rejected() {
    let name = String::new();
    assert!(SubscriberName::parse(name).is_err());
}

#[test]
fn names_containing_an_invalid_character_are_rejected() {
    for name in &['/', '(', ')', '"', '<', '>', '\\', '{', '}'] {
        let name = format!("{name}XXXX");
        assert!(SubscriberName::parse(name).is_err());
    }
}

#[test]
fn a_valid_name_is_parsed_successfully() {
    let name = "Ursula Le Guin".to_string();
    assert!(SubscriberName::parse(name).is_ok());
}

#[test]
fn a_parsed_name_keeps_the_input_text_unchanged() {
    let name = SubscriberName::parse(" Joe B ".to_string()).unwrap();
    assert_eq!(name.as_ref(), " Joe B ");
}

#[test]
fn name_length_is_counted_in_characters() {
    let name = SubscriberName::parse("ёёё".to_string()).unwrap();
    assert_eq!(name.length(), 3);
}

#[test]
fn subscriber_email_empty_string_is_rejected() {
    let email = "".to_string();
    assert!(SubscriberEmail::parse(email).is_err());
}

#[test]
fn email_missing_at_symbol_is_rejected() {
    let email = "ursuladomain.com".to_string();
    assert!(SubscriberEmail::parse(email).is_err());
}

#[test]
fn email_missing_subject_is_rejected() {
    let email = "@domain.com".to_string();
    assert!(SubscriberEmail::parse(email).is_err());
}

#[test]
fn email_valid() {
    let email = "ursula@domain.com".to_string();
    assert!(SubscriberEmail::parse(email).is_ok());
}

#[test]
fn a_parsed_email_keeps_the_input_text_unchanged() {
    let email = SubscriberEmail::parse("ursula@domain.com".to_string()).unwrap();
    assert_eq!(email.as_ref(), "ursula@domain.com");
}

#[test]
fn name_validation_is_idempotent() {
    for input in ["Ursula Le Guin", "ab", "a/bc", "   ", ""] {
        let first = SubscriberName::parse(input.to_string());
        let second = SubscriberName::parse(input.to_string());
        assert_eq!(first.is_ok(), second.is_ok());
        if let (Ok(a), Ok(b)) = (first, second) {
            assert_eq!(a.as_ref(), b.as_ref());
        }
    }
}

#[test]
fn email_validation_is_idempotent() {
    for input in ["ursula@domain.com", "ursuladomain.com", "@domain.com", ""] {
        let first = SubscriberEmail::parse(input.to_string());
        let second = SubscriberEmail::parse(input.to_string());
        assert_eq!(first.is_ok(), second.is_ok());
        if let (Ok(a), Ok(b)) = (first, second) {
            assert_eq!(a.as_ref(), b.as_ref());
        }
    }
}

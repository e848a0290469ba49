use zero2prod::subscriber_email::{check_email_shape, Email};

#[test]
fn empty_string_is_rejected() {
    let email = "".to_string();
    assert!(Email::parse(email).is_err());
}

#[test]
fn email_missing_at_symbol_is_rejected() {
    let email = "ursuladomain.com".to_string();
    assert!(Email::parse(email).is_err());
}

#[test]
fn email_missing_subject_is_rejected() {
    let email = "@domain.com".to_string();
    assert!(Email::parse(email).is_err());
}

#[test]
fn listed_malformed_addresses_are_rejected() {
    for s in ["not-an-email", "", "@domain.com", "user@"] {
        assert!(Email::parse(s.to_string()).is_err(), "{s} was accepted");
    }
}

#[test]
fn valid_email_is_accepted_unchanged() {
    let email = Email::parse("ursula@example.com".to_string()).unwrap();
    assert_eq!(email.as_str(), "ursula@example.com");
}

#[test]
fn rejection_names_the_address() {
    let err = Email::parse("thing@".to_string()).unwrap_err();
    assert_eq!(err, "thing@ is not a valid email");
}

#[test]
fn domain_without_dot_is_rejected() {
    assert!(Email::parse("ursula@localhost".to_string()).is_err());
}

#[test]
fn two_at_signs_are_rejected() {
    assert!(Email::parse("a@b@example.com".to_string()).is_err());
}

#[test]
fn grammar_refusal_is_honoured() {
    // The shape is right, but the local part holds a space.
    assert!(check_email_shape("ur sula@example.com"));
    assert!(Email::parse("ur sula@example.com".to_string()).is_err());
}

#[test]
fn shape_check_on_examples() {
    assert!(check_email_shape("a@b.c"));
    assert!(!check_email_shape("a@bc"));
    assert!(!check_email_shape("@b.c"));
    assert!(!check_email_shape("a.b@"));
    assert!(!check_email_shape("a@.@c"));
}

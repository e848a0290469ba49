use zero2prod::subscriber_name::{SubscriberName, MAX_NAME_LENGTH};

#[test]
fn ordinary_name_is_accepted() {
    let name = SubscriberName::parse("Ursula Le Guin".to_string()).unwrap();
    assert_eq!(name.as_str(), "Ursula Le Guin");
}

#[test]
fn empty_name_is_rejected() {
    assert!(SubscriberName::parse("".to_string()).is_err());
}

#[test]
fn whitespace_only_name_is_rejected() {
    assert!(SubscriberName::parse(" \t\n\u{3000} ".to_string()).is_err());
}

#[test]
fn name_of_maximum_length_is_accepted() {
    let s = "a".repeat(MAX_NAME_LENGTH);
    assert!(SubscriberName::parse(s).is_ok());
}

#[test]
fn name_longer_than_maximum_is_rejected() {
    let s = "a".repeat(MAX_NAME_LENGTH + 1);
    assert!(SubscriberName::parse(s).is_err());
}

#[test]
fn long_name_counts_characters_not_bytes() {
    let s = "é".repeat(MAX_NAME_LENGTH);
    assert!(SubscriberName::parse(s).is_ok());
}

#[test]
fn name_with_control_character_is_rejected() {
    assert!(SubscriberName::parse("Ursula\u{7}".to_string()).is_err());
    assert!(SubscriberName::parse("Ur\u{85}sula".to_string()).is_err());
}

#[test]
fn name_rejection_message() {
    let err = SubscriberName::parse("   ".to_string()).unwrap_err();
    assert_eq!(err, "    is not a valid subscriber name");
}

use zero2prod::token::{generate_subscription_token, TOKEN_LENGTH};

#[test]
fn token_has_fixed_length_and_alphabet() {
    let t = generate_subscription_token();
    assert_eq!(TOKEN_LENGTH, 25);
    assert_eq!(t.chars().count(), 25);
    assert!(t.chars().all(|c| c.is_ascii_alphanumeric()));
}

#[test]
fn tokens_differ_between_draws() {
    let a = generate_subscription_token();
    let b = generate_subscription_token();
    assert_ne!(a, b);
}

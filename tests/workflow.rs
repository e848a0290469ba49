use zero2prod::new_subscriber::NewSubscriber;
use zero2prod::store::{StorageError, SubscriptionStore};
use zero2prod::subscriber_status::SubscriberStatus;
use zero2prod::subscriptions::{
    confirmation_link, does_subscriber_exist, insert_subscriber, notification_outcome, store_token,
    subscribe, subscribe_with, SubscribeError, SubscribeFormBody,
};
use zero2prod::subscriptions_confirm::{
    check_if_subscriber_confirmed, confirm, confirm_outcome, confirm_subscriber,
    get_subscriber_id_from_token, ConfirmParameters, ConfirmSubscriptionError,
};

const BASE_URL: &str = "http://127.0.0.1:8000";

fn form(name: &str, email: &str) -> SubscribeFormBody {
    SubscribeFormBody {
        name: name.to_string(),
        email: email.to_string(),
    }
}

fn token_in(link: &str) -> String {
    let prefix = format!("{BASE_URL}/subscribe/confirm?token=");
    assert!(link.starts_with(&prefix), "unexpected link {link}");
    link[prefix.len()..].to_string()
}

#[test]
fn confirmation_link_embeds_the_token() {
    assert_eq!(
        confirmation_link("https://example.com", "abc123"),
        "https://example.com/subscribe/confirm?token=abc123"
    );
}

#[test]
fn subscribing_once_stores_a_pending_subscriber_with_one_token() {
    let mut store = SubscriptionStore::new();
    let mail = subscribe(&mut store, form("le guin", "ursula_le_guin@gmail.com"), BASE_URL).unwrap();
    let id = store
        .find_by_email(&"ursula_le_guin@gmail.com".to_string())
        .unwrap();
    assert_eq!(store.status_of(id), Some(SubscriberStatus::PendingConfirmation));
    let token = store.get_token(id).unwrap();
    assert_eq!(token.len(), 25);
    assert_eq!(store.owner_of_token(&token), Some(id));
    assert_eq!(token_in(&mail.link), token);
    assert_eq!(mail.recipient, "ursula_le_guin@gmail.com");
    assert_eq!(mail.name, "le guin");
    assert_eq!(mail.subject, "Welcome!");
}

#[test]
fn subscribing_twice_returns_the_same_token() {
    let mut store = SubscriptionStore::new();
    let first = subscribe(&mut store, form("Ursula", "ursula@example.com"), BASE_URL).unwrap();
    let id1 = store.find_by_email(&"ursula@example.com".to_string()).unwrap();
    let t1 = store.get_token(id1).unwrap();
    let second = subscribe(&mut store, form("Ursula", "ursula@example.com"), BASE_URL).unwrap();
    let id2 = store.find_by_email(&"ursula@example.com".to_string()).unwrap();
    let t2 = store.get_token(id2).unwrap();
    assert_eq!(id1, id2);
    assert_eq!(t1, t2);
    assert_eq!(first.link, second.link);
}

#[test]
fn second_subscribe_ignores_what_it_draws() {
    let mut store = SubscriptionStore::new();
    subscribe_with(&mut store, form("Ursula", "ursula@example.com"), BASE_URL, 7, "tokenA".to_string()).unwrap();
    let again = subscribe_with(&mut store, form("Ursula K.", "ursula@example.com"), BASE_URL, 8, "tokenB".to_string()).unwrap();
    assert_eq!(token_in(&again.link), "tokenA");
    assert_eq!(store.find_by_email(&"ursula@example.com".to_string()), Some(7));
    assert_eq!(store.status_of(8), None);
    assert_eq!(store.owner_of_token(&"tokenB".to_string()), None);
}

#[test]
fn ursula_subscribes_confirms_and_confirms_again() {
    let mut store = SubscriptionStore::new();
    let mail = subscribe(&mut store, form("Ursula", "ursula@example.com"), BASE_URL).unwrap();
    let id = store.find_by_email(&"ursula@example.com".to_string()).unwrap();
    assert_eq!(store.status_of(id), Some(SubscriberStatus::PendingConfirmation));
    let token = token_in(&mail.link);
    assert_eq!(store.get_token(id), Some(token.clone()));

    let params = ConfirmParameters { token };
    assert!(confirm(&mut store, &params).is_ok());
    assert_eq!(store.status_of(id), Some(SubscriberStatus::Confirmed));

    let again = confirm(&mut store, &params).unwrap_err();
    assert!(matches!(again, ConfirmSubscriptionError::SubscriberAlreadyConfirmedError));
    assert_eq!(again.status_code(), 400);
    assert_eq!(store.status_of(id), Some(SubscriberStatus::Confirmed));
}

#[test]
fn two_subscribe_calls_on_one_address_share_one_link() {
    let mut store = SubscriptionStore::new();
    let a = subscribe(&mut store, form("Ursula", "ursula@example.com"), BASE_URL).unwrap();
    let b = subscribe(&mut store, form("Ursula", "ursula@example.com"), BASE_URL).unwrap();
    assert_eq!(a.link, b.link);
    let id = store.find_by_email(&"ursula@example.com".to_string()).unwrap();
    assert_eq!(store.get_token(id).map(|t| token_in(&a.link) == t), Some(true));
}

#[test]
fn unknown_token_is_rejected_with_401() {
    let mut store = SubscriptionStore::new();
    subscribe(&mut store, form("Ursula", "ursula@example.com"), BASE_URL).unwrap();
    let params = ConfirmParameters {
        token: "AAAAAAAAAAAAAAAAAAAAAAAAA".to_string(),
    };
    let err = confirm(&mut store, &params).unwrap_err();
    assert!(matches!(err, ConfirmSubscriptionError::SubscriberDoesNotExist));
    assert_eq!(err.status_code(), 401);
    let id = store.find_by_email(&"ursula@example.com".to_string()).unwrap();
    assert_eq!(store.status_of(id), Some(SubscriberStatus::PendingConfirmation));
}

#[test]
fn malformed_input_leaves_the_store_untouched() {
    let mut store = SubscriptionStore::new();
    for (name, email) in [
        ("Lupin", "not-an-email"),
        ("Lupin", ""),
        ("Lupin", "@domain.com"),
        ("Lupin", "user@"),
        ("", "arsene@lup.in"),
    ] {
        let err = subscribe_with(&mut store, form(name, email), BASE_URL, 1, "tok".to_string()).unwrap_err();
        assert!(matches!(err, SubscribeError::ValidationError(_)));
        assert_eq!(err.status_code(), 400);
    }
    assert_eq!(store.status_of(1), None);
    assert_eq!(store.owner_of_token(&"tok".to_string()), None);
}

#[test]
fn validation_error_carries_the_reason() {
    let mut store = SubscriptionStore::new();
    let err = subscribe(&mut store, form("Lupin", "thing@"), BASE_URL).unwrap_err();
    assert_eq!(err.message(), "thing@ is not a valid email");
    assert!(err.cause().is_none());
}

#[test]
fn taken_identifier_is_an_insert_error() {
    let mut store = SubscriptionStore::new();
    subscribe_with(&mut store, form("Ursula", "ursula@example.com"), BASE_URL, 1, "tokenA".to_string()).unwrap();
    let err = subscribe_with(&mut store, form("Arsene", "arsene@lup.in"), BASE_URL, 1, "tokenB".to_string()).unwrap_err();
    assert!(matches!(err, SubscribeError::InsertSubscriberError(_)));
    assert_eq!(err.status_code(), 500);
    assert_eq!(err.cause(), Some("subscriber id is already taken".to_string()));
    assert_eq!(err.message(), "Failed to insert new subscriber in database");
    assert_eq!(store.find_by_email(&"arsene@lup.in".to_string()), None);
}

#[test]
fn token_clash_rolls_the_subscriber_back() {
    let mut store = SubscriptionStore::new();
    subscribe_with(&mut store, form("Ursula", "ursula@example.com"), BASE_URL, 1, "tokenA".to_string()).unwrap();
    let err = subscribe_with(&mut store, form("Arsene", "arsene@lup.in"), BASE_URL, 2, "tokenA".to_string()).unwrap_err();
    assert!(matches!(err, SubscribeError::StoreTokenError(_)));
    assert_eq!(err.status_code(), 500);
    assert_eq!(err.cause(), Some("subscription token is already issued".to_string()));
    assert_eq!(store.find_by_email(&"arsene@lup.in".to_string()), None);
    assert_eq!(store.status_of(2), None);
    assert_eq!(store.owner_of_token(&"tokenA".to_string()), Some(1));
}

#[test]
fn transactions_commit_or_vanish() {
    let mut store = SubscriptionStore::new();
    let mut tx = store.begin();
    assert_eq!(tx.insert_or_get(&"a@b.c".to_string(), &"A".to_string(), 5), Ok(5));
    drop(tx);
    assert_eq!(store.find_by_email(&"a@b.c".to_string()), None);
    let mut tx = store.begin();
    assert_eq!(tx.insert_or_get(&"a@b.c".to_string(), &"A".to_string(), 5), Ok(5));
    assert_eq!(tx.get_or_create_token(5, "t5".to_string()), Ok("t5".to_string()));
    assert_eq!(tx.get_or_create_token(5, "t6".to_string()), Ok("t5".to_string()));
    assert_eq!(tx.get_or_create_token(9, "t9".to_string()), Err(StorageError::UnknownSubscriber));
    store.commit(tx);
    assert_eq!(store.find_by_email(&"a@b.c".to_string()), Some(5));
    assert_eq!(store.get_token(5), Some("t5".to_string()));
}

#[test]
fn confirm_decision_table() {
    assert!(matches!(confirm_outcome(None, false), Err(ConfirmSubscriptionError::SubscriberDoesNotExist)));
    assert!(matches!(confirm_outcome(Some(3), true), Ok(())));
    assert!(matches!(
        confirm_outcome(Some(3), false),
        Err(ConfirmSubscriptionError::SubscriberAlreadyConfirmedError)
    ));
    assert_eq!(ConfirmSubscriptionError::UnexpectedError("x".to_string()).status_code(), 500);
}

#[test]
fn notifier_failure_is_a_send_error() {
    assert!(notification_outcome(Ok(())).is_ok());
    let err = notification_outcome(Err("timed out".to_string())).unwrap_err();
    assert!(matches!(err, SubscribeError::SendEmailError(ref c) if c == "timed out"));
    assert_eq!(err.status_code(), 500);
    assert_eq!(err.message(), "Failed to send confirmation email");
    assert_eq!(err.cause(), Some("timed out".to_string()));
}

#[test]
fn text_becomes_a_validation_error() {
    let err = SubscribeError::from("bad".to_string());
    assert!(matches!(err, SubscribeError::ValidationError(ref m) if m == "bad"));
}

#[test]
fn status_texts() {
    assert_eq!(SubscriberStatus::PendingConfirmation.as_str(), "pending_confirmation");
    assert_eq!(SubscriberStatus::Confirmed.as_str(), "confirmed");
}

#[test]
fn repository_functions_in_one_transaction() {
    let mut store = SubscriptionStore::new();
    let body = NewSubscriber::try_from(form("le guin", "ursula_le_guin@gmail.com")).unwrap();
    let mut tx = store.begin();
    assert_eq!(does_subscriber_exist(&tx, &body.email), None);
    assert_eq!(insert_subscriber(&mut tx, &body, 11), Ok(11));
    assert_eq!(does_subscriber_exist(&tx, &body.email), Some(11));
    assert_eq!(insert_subscriber(&mut tx, &body, 12), Ok(11));
    assert_eq!(store_token(&mut tx, 11, "first".to_string()).unwrap(), "first");
    assert_eq!(store_token(&mut tx, 11, "second".to_string()).unwrap(), "first");
    assert!(store_token(&mut tx, 99, "third".to_string()).is_err());
    store.commit(tx);

    assert_eq!(get_subscriber_id_from_token(&store, &"first".to_string()), Some(11));
    assert_eq!(get_subscriber_id_from_token(&store, &"second".to_string()), None);
    assert!(!check_if_subscriber_confirmed(&store, 11));
    assert!(confirm_subscriber(&mut store, 11));
    assert!(check_if_subscriber_confirmed(&store, 11));
    assert!(!confirm_subscriber(&mut store, 11));
    assert!(!confirm_subscriber(&mut store, 12));
    assert!(!check_if_subscriber_confirmed(&store, 12));
}

use zero2prod::new_subscriber::NewSubscriber;
use zero2prod::persistence::{next_action, perform, persist_subscriber, PersistAction, StorageAnswer};
use zero2prod::store::SubscriptionStore;
use zero2prod::subscriptions::{SubscribeError, SubscribeFormBody};

fn subscriber(name: &str, email: &str) -> NewSubscriber {
    NewSubscriber::try_from(SubscribeFormBody {
        name: name.to_string(),
        email: email.to_string(),
    })
    .unwrap()
}

#[test]
fn new_address_walks_lookup_insert_token_commit() {
    let fresh = "fresh".to_string();
    let a = next_action(PersistAction::FindSubscriber, StorageAnswer::Subscriber(None), 9, &fresh);
    assert!(matches!(a, PersistAction::InsertSubscriber(9)));
    let a = next_action(a, StorageAnswer::Inserted(true), 9, &fresh);
    assert!(matches!(a, PersistAction::FindToken(9)));
    let a = next_action(a, StorageAnswer::Token(None), 9, &fresh);
    assert!(matches!(a, PersistAction::InsertToken(9, ref t) if t == "fresh"));
    let a = next_action(a, StorageAnswer::TokenInserted, 9, &fresh);
    assert!(matches!(a, PersistAction::Commit(ref t) if t == "fresh"));
}

#[test]
fn known_address_reuses_its_token() {
    let fresh = "fresh".to_string();
    let a = next_action(PersistAction::FindSubscriber, StorageAnswer::Subscriber(Some(4)), 9, &fresh);
    assert!(matches!(a, PersistAction::FindToken(4)));
    let a = next_action(a, StorageAnswer::Token(Some("old".to_string())), 9, &fresh);
    assert!(matches!(a, PersistAction::Commit(ref t) if t == "old"));
}

#[test]
fn lost_insert_race_falls_back_to_lookup() {
    let fresh = "fresh".to_string();
    let a = next_action(PersistAction::InsertSubscriber(9), StorageAnswer::Inserted(false), 9, &fresh);
    assert!(matches!(a, PersistAction::FindSubscriberAgain));
    let a = next_action(a, StorageAnswer::Subscriber(Some(4)), 9, &fresh);
    assert!(matches!(a, PersistAction::FindToken(4)));
    let gone = next_action(PersistAction::FindSubscriberAgain, StorageAnswer::Subscriber(None), 9, &fresh);
    assert!(matches!(gone, PersistAction::Fail(SubscribeError::InsertSubscriberError(_))));
}

#[test]
fn storage_failures_keep_their_stage() {
    let fresh = "fresh".to_string();
    let a = next_action(PersistAction::FindSubscriber, StorageAnswer::Failed("pool".to_string()), 9, &fresh);
    assert!(matches!(a, PersistAction::Fail(SubscribeError::InsertSubscriberError(ref c)) if c == "pool"));
    let a = next_action(PersistAction::FindToken(3), StorageAnswer::Failed("column".to_string()), 9, &fresh);
    assert!(matches!(a, PersistAction::Fail(SubscribeError::StoreTokenError(ref e)) if e.0 == "column"));
    let a = next_action(
        PersistAction::InsertToken(3, "t".to_string()),
        StorageAnswer::Failed("dup".to_string()),
        9,
        &fresh,
    );
    assert!(matches!(a, PersistAction::Fail(SubscribeError::StoreTokenError(_))));
}

#[test]
fn in_memory_store_runs_the_actions() {
    let store = SubscriptionStore::new();
    let mut tx = store.begin();
    let s = subscriber("Ursula", "ursula@example.com");
    let r = perform(&mut tx, &PersistAction::FindSubscriber, &s);
    assert!(matches!(r, StorageAnswer::Subscriber(None)));
    let r = perform(&mut tx, &PersistAction::InsertSubscriber(2), &s);
    assert!(matches!(r, StorageAnswer::Inserted(true)));
    let r = perform(&mut tx, &PersistAction::InsertSubscriber(3), &s);
    assert!(matches!(r, StorageAnswer::Inserted(false)));
    let r = perform(&mut tx, &PersistAction::FindToken(2), &s);
    assert!(matches!(r, StorageAnswer::Token(None)));
    let done = persist_subscriber(&mut tx, &s, 5, &"tok".to_string());
    assert!(matches!(done, PersistAction::Commit(ref t) if t == "tok"));
    assert_eq!(tx.get_token(2), Some("tok".to_string()));
}

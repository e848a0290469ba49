use vstd::prelude::*;

use crate::new_subscriber::NewSubscriber;
use crate::store::{lemma_get_or_create_token, lemma_insert_or_get, StoreModel, SubscriptionStore};
use crate::subscriptions::{
    does_subscriber_exist, insert_subscriber, store_token, StoreTokenError, SubscribeError,
    SubscribeErrorKind,
};

verus! {

/// The next thing the persistence part of a subscribe request asks of the
/// store, all inside one transaction. `Commit` and `Fail` end it: commit and
/// send the token, or roll back and report the error.
#[derive(Debug)]
pub enum PersistAction {
    /// Look the subscriber up by address.
    FindSubscriber,
    /// Insert a pending subscriber under this identifier, unless the address
    /// is present by now.
    InsertSubscriber(u128),
    /// Look the subscriber up again, after the insert found the address taken.
    FindSubscriberAgain,
    /// Look up the token of this subscriber.
    FindToken(u128),
    /// Insert this token for this subscriber.
    InsertToken(u128, String),
    /// Commit; this is the subscriber's token.
    Commit(String),
    /// Roll back, failing with this error.
    Fail(SubscribeError),
}

/// What the store answered to the last action.
#[derive(Debug)]
pub enum StorageAnswer {
    /// To a lookup by address: the subscriber found, if any.
    Subscriber(Option<u128>),
    /// To an insert of a subscriber: whether a row was written.
    Inserted(bool),
    /// To a lookup of a token: the token found, if any.
    Token(Option<String>),
    /// To an insert of a token: it was written.
    TokenInserted,
    /// The store failed; the description of the cause.
    Failed(String),
}

/// The action ends the transaction.
pub open spec fn is_final(action: PersistAction) -> bool {
    action is Commit || action is Fail
}

/// The answer is one the store can give to the action.
pub open spec fn answers(action: PersistAction, answer: StorageAnswer) -> bool {
    answer is Failed || match action {
        PersistAction::FindSubscriber => answer is Subscriber,
        PersistAction::FindSubscriberAgain => answer is Subscriber,
        PersistAction::InsertSubscriber(_) => answer is Inserted,
        PersistAction::FindToken(_) => answer is Token,
        PersistAction::InsertToken(_, _) => answer is TokenInserted,
        _ => false,
    }
}

/// The cause reported when the address vanished between the insert and the
/// second lookup.
pub open spec fn vanished_text() -> Seq<char> {
    "subscriber vanished after a conflicting insert"@
}

/// Decides the next action from the last one and the store's answer.
pub fn next_action(
    action: PersistAction,
    answer: StorageAnswer,
    fresh_id: u128,
    fresh_token: &String,
) -> (r: PersistAction)
    requires
        !is_final(action),
        answers(action, answer),
    ensures
        (action is FindSubscriber || action is FindSubscriberAgain) ==> match answer {
            StorageAnswer::Subscriber(Some(id)) => r matches PersistAction::FindToken(i) && i == id,
            StorageAnswer::Subscriber(None) => if action is FindSubscriber {
                r matches PersistAction::InsertSubscriber(i) && i == fresh_id
            } else {
                r matches PersistAction::Fail(SubscribeError::InsertSubscriberError(c)) && c@
                    == vanished_text()
            },
            StorageAnswer::Failed(c) => r matches PersistAction::Fail(
                SubscribeError::InsertSubscriberError(d),
            ) && d@ == c@,
            _ => true,
        },
        action matches PersistAction::InsertSubscriber(id) ==> match answer {
            StorageAnswer::Inserted(true) => r matches PersistAction::FindToken(i) && i == id,
            StorageAnswer::Inserted(false) => r is FindSubscriberAgain,
            StorageAnswer::Failed(c) => r matches PersistAction::Fail(
                SubscribeError::InsertSubscriberError(d),
            ) && d@ == c@,
            _ => true,
        },
        action matches PersistAction::FindToken(id) ==> match answer {
            StorageAnswer::Token(Some(t)) => r matches PersistAction::Commit(s) && s@ == t@,
            StorageAnswer::Token(None) => r matches PersistAction::InsertToken(i, s) && i == id && s@
                == fresh_token@,
            StorageAnswer::Failed(c) => r matches PersistAction::Fail(
                SubscribeError::StoreTokenError(StoreTokenError(d)),
            ) && d@ == c@,
            _ => true,
        },
        action matches PersistAction::InsertToken(_, t) ==> match answer {
            StorageAnswer::TokenInserted => r matches PersistAction::Commit(s) && s@ == t@,
            StorageAnswer::Failed(c) => r matches PersistAction::Fail(
                SubscribeError::StoreTokenError(StoreTokenError(d)),
            ) && d@ == c@,
            _ => true,
        },
{
    match action {
        PersistAction::FindSubscriber => match answer {
            StorageAnswer::Subscriber(Some(id)) => PersistAction::FindToken(id),
            StorageAnswer::Subscriber(None) => PersistAction::InsertSubscriber(fresh_id),
            StorageAnswer::Failed(c) => PersistAction::Fail(SubscribeError::InsertSubscriberError(c)),
            _ => action,
        },
        PersistAction::FindSubscriberAgain => match answer {
            StorageAnswer::Subscriber(Some(id)) => PersistAction::FindToken(id),
            StorageAnswer::Subscriber(None) => PersistAction::Fail(
                SubscribeError::InsertSubscriberError(
                    String::from_str("subscriber vanished after a conflicting insert"),
                ),
            ),
            StorageAnswer::Failed(c) => PersistAction::Fail(SubscribeError::InsertSubscriberError(c)),
            _ => action,
        },
        PersistAction::InsertSubscriber(id) => match answer {
            StorageAnswer::Inserted(true) => PersistAction::FindToken(id),
            StorageAnswer::Inserted(false) => PersistAction::FindSubscriberAgain,
            StorageAnswer::Failed(c) => PersistAction::Fail(SubscribeError::InsertSubscriberError(c)),
            _ => action,
        },
        PersistAction::FindToken(id) => match answer {
            StorageAnswer::Token(Some(t)) => PersistAction::Commit(t),
            StorageAnswer::Token(None) => PersistAction::InsertToken(id, fresh_token.clone()),
            StorageAnswer::Failed(c) => PersistAction::Fail(
                SubscribeError::StoreTokenError(StoreTokenError(c)),
            ),
            _ => action,
        },
        PersistAction::InsertToken(id, t) => match answer {
            StorageAnswer::TokenInserted => PersistAction::Commit(t),
            StorageAnswer::Failed(c) => PersistAction::Fail(
                SubscribeError::StoreTokenError(StoreTokenError(c)),
            ),
            _ => PersistAction::InsertToken(id, t),
        },
        _ => action,
    }
}

/// Carries out one action on the in-memory store, inside a transaction.
pub fn perform(tx: &mut SubscriptionStore, action: &PersistAction, subscriber: &NewSubscriber) -> (r:
    StorageAnswer)
    requires
        old(tx).wf(),
        !is_final(*action),
    ensures
        final(tx).wf(),
        answers(*action, r),
        (*action is FindSubscriber || *action is FindSubscriberAgain) ==> final(tx)@ == old(tx)@
            && r == StorageAnswer::Subscriber(
            if old(tx)@.has_email(subscriber.email@) {
                Some(old(tx)@.id_of_email(subscriber.email@))
            } else {
                None::<u128>
            },
        ),
        *action matches PersistAction::InsertSubscriber(id) ==> if old(tx)@.has_email(
            subscriber.email@,
        ) {
            r == StorageAnswer::Inserted(false) && final(tx)@ == old(tx)@
        } else {
            match old(tx)@.insert_or_get(subscriber.email@, subscriber.name@, id) {
                Some((m, _)) => r == StorageAnswer::Inserted(true) && final(tx)@ == m,
                None => r is Failed && final(tx)@ == old(tx)@,
            }
        },
        *action matches PersistAction::FindToken(id) ==> final(tx)@ == old(tx)@ && (r matches StorageAnswer::Token(
            t,
        ) && (t is Some <==> old(tx)@.has_token_for(id)) && (t matches Some(s) ==> s@ == old(
            tx,
        )@.token_for(id))),
        *action matches PersistAction::InsertToken(id, t) ==> match old(tx)@.get_or_create_token(
            id,
            t@,
        ) {
            Some((m, _)) => r is TokenInserted && final(tx)@ == m,
            None => r is Failed && final(tx)@ == old(tx)@,
        },
{
    match action {
        PersistAction::FindSubscriber | PersistAction::FindSubscriberAgain => {
            StorageAnswer::Subscriber(does_subscriber_exist(tx, &subscriber.email))
        },
        PersistAction::InsertSubscriber(id) => {
            if does_subscriber_exist(tx, &subscriber.email).is_some() {
                StorageAnswer::Inserted(false)
            } else {
                match insert_subscriber(tx, subscriber, *id) {
                    Ok(_) => StorageAnswer::Inserted(true),
                    Err(e) => StorageAnswer::Failed(e.describe()),
                }
            }
        },
        PersistAction::FindToken(id) => StorageAnswer::Token(tx.get_token(*id)),
        PersistAction::InsertToken(id, t) => match store_token(tx, *id, t.clone()) {
            Ok(_) => StorageAnswer::TokenInserted,
            Err(e) => StorageAnswer::Failed(e.0),
        },
        _ => StorageAnswer::Failed(String::new()),
    }
}

/// How far an action stands from the end of the transaction.
pub open spec fn steps_left(action: PersistAction) -> nat {
    match action {
        PersistAction::FindSubscriber => 5,
        PersistAction::InsertSubscriber(_) => 4,
        PersistAction::FindSubscriberAgain => 3,
        PersistAction::FindToken(_) => 2,
        PersistAction::InsertToken(_, _) => 1,
        _ => 0,
    }
}

/// Where the transaction stands, for a store whose content was `m0` when it
/// began and a validated subscriber with this address and name.
spec fn stage_holds(
    m0: StoreModel,
    tx: StoreModel,
    action: PersistAction,
    email: Seq<char>,
    name: Seq<char>,
    fresh_id: u128,
    fresh_token: Seq<char>,
) -> bool {
    match action {
        PersistAction::FindSubscriber => tx == m0,
        PersistAction::InsertSubscriber(id) => tx == m0 && id == fresh_id && !m0.has_email(email),
        PersistAction::FindSubscriberAgain => false,
        PersistAction::FindToken(id) => m0.insert_or_get(email, name, fresh_id) == Some((tx, id)),
        PersistAction::InsertToken(id, t) => m0.insert_or_get(email, name, fresh_id) == Some((tx, id))
            && t@ == fresh_token && !tx.has_token_for(id),
        PersistAction::Commit(t) => match m0.insert_or_get(email, name, fresh_id) {
            Some((m1, id)) => m1.get_or_create_token(id, fresh_token) == Some((tx, t@)),
            None => false,
        },
        PersistAction::Fail(e) => match m0.insert_or_get(email, name, fresh_id) {
            None => e.kind() == SubscribeErrorKind::InsertSubscriber,
            Some((m1, id)) => m1.get_or_create_token(id, fresh_token) is None && e.kind()
                == SubscribeErrorKind::StoreToken,
        },
    }
}

/// Runs the persistence part of a subscribe request on the in-memory store,
/// one action at a time, until it commits or fails. It ends as insert-or-get
/// followed by get-or-create of the token says.
pub fn persist_subscriber(
    tx: &mut SubscriptionStore,
    subscriber: &NewSubscriber,
    fresh_id: u128,
    fresh_token: &String,
) -> (r: PersistAction)
    requires
        old(tx).wf(),
    ensures
        final(tx).wf(),
        match old(tx)@.insert_or_get(subscriber.email@, subscriber.name@, fresh_id) {
            None => r matches PersistAction::Fail(e) && e.kind()
                == SubscribeErrorKind::InsertSubscriber,
            Some((m1, id)) => match m1.get_or_create_token(id, fresh_token@) {
                None => r matches PersistAction::Fail(e) && e.kind()
                    == SubscribeErrorKind::StoreToken,
                Some((m2, t)) => r matches PersistAction::Commit(s) && s@ == t && final(tx)@
                    == m2,
            },
        },
{
    let ghost m0 = tx@;
    let ghost email = subscriber.email@;
    let ghost name = subscriber.name@;
    proof {
        tx.lemma_wf_valid();
        lemma_insert_or_get(m0, email, name, fresh_id);
    }
    let mut action = PersistAction::FindSubscriber;
    while !(matches!(action, PersistAction::Commit(_)) || matches!(action, PersistAction::Fail(_)))
        invariant
            tx.wf(),
            email == subscriber.email@,
            name == subscriber.name@,
            stage_holds(m0, tx@, action, email, name, fresh_id, fresh_token@),
            m0.valid(),
            m0.insert_or_get(email, name, fresh_id) matches Some((m1, id)) ==> m1.valid(),
        decreases steps_left(action),
    {
        let answer = perform(tx, &action, subscriber);
        proof {
            if let Some((m1, id)) = m0.insert_or_get(email, name, fresh_id) {
                lemma_get_or_create_token(m1, id, fresh_token@);
            }
        }
        action = next_action(action, answer, fresh_id, fresh_token);
    }
    action
}

} // verus!

use vstd::prelude::*;

use crate::store::{lemma_confirm_if_pending, StoreModel, SubscriptionStore};
use crate::subscriber_status::SubscriberStatus;

verus! {

/// The query of a confirm request.
#[derive(Debug)]
pub struct ConfirmParameters {
    pub token: String,
}

/// Why a confirm request was refused, in the persistence model.
#[derive(Debug, Clone, Copy, PartialEq, Eq, Structural)]
pub enum ConfirmRefusal {
    /// No subscriber was ever issued this token.
    TokenUnknown,
    /// The token's subscriber is confirmed already.
    AlreadyConfirmed,
}

/// A confirm request on the store's content: look the token's owner up,
/// then move it from pending to confirmed with one conditional update.
pub open spec fn confirm_model(m: StoreModel, token: Seq<char>) -> Result<StoreModel, ConfirmRefusal> {
    if !m.tokens.contains_key(token) {
        Err(ConfirmRefusal::TokenUnknown)
    } else {
        let (m1, done) = m.confirm_if_pending(m.tokens[token]);
        if done {
            Ok(m1)
        } else {
            Err(ConfirmRefusal::AlreadyConfirmed)
        }
    }
}

/// Why a confirm request failed.
#[derive(Debug)]
pub enum ConfirmSubscriptionError {
    SubscriberAlreadyConfirmedError,
    SubscriberDoesNotExist,
    UnexpectedError(String),
}

impl ConfirmSubscriptionError {
    /// The HTTP status of the response: 400 for a subscriber confirmed
    /// already, 401 for a token that refers to nothing, 500 otherwise.
    pub fn status_code(&self) -> (r: u16)
        ensures
            self is SubscriberAlreadyConfirmedError ==> r == 400,
            self is SubscriberDoesNotExist ==> r == 401,
            self is UnexpectedError ==> r == 500,
    {
        match self {
            ConfirmSubscriptionError::SubscriberAlreadyConfirmedError => 400,
            ConfirmSubscriptionError::SubscriberDoesNotExist => 401,
            ConfirmSubscriptionError::UnexpectedError(_) => 500,
        }
    }

    /// The sentence shown for this failure; for an unexpected one, its cause.
    pub fn message(&self) -> (r: String)
        ensures
            self is SubscriberAlreadyConfirmedError ==> r@ == "Subscriber was already confirmed"@,
            self is SubscriberDoesNotExist ==> r@ == "Subscriber does not exist."@,
            self matches ConfirmSubscriptionError::UnexpectedError(c) ==> r@ == c@,
    {
        match self {
            ConfirmSubscriptionError::SubscriberAlreadyConfirmedError => String::from_str(
                "Subscriber was already confirmed",
            ),
            ConfirmSubscriptionError::SubscriberDoesNotExist => String::from_str(
                "Subscriber does not exist.",
            ),
            ConfirmSubscriptionError::UnexpectedError(c) => c.clone(),
        }
    }
}

/// Decides a confirm request from the token's owner, if any, and from
/// whether the conditional update "confirm where pending" changed a row.
pub fn confirm_outcome(owner: Option<u128>, transitioned: bool) -> (r: Result<
    (),
    ConfirmSubscriptionError,
>)
    ensures
        owner is None ==> (r matches Err(ConfirmSubscriptionError::SubscriberDoesNotExist)),
        owner is Some && transitioned ==> r is Ok,
        owner is Some && !transitioned ==> (r matches Err(
            ConfirmSubscriptionError::SubscriberAlreadyConfirmedError,
        )),
{
    match owner {
        None => Err(ConfirmSubscriptionError::SubscriberDoesNotExist),
        Some(_) => {
            if transitioned {
                Ok(())
            } else {
                Err(ConfirmSubscriptionError::SubscriberAlreadyConfirmedError)
            }
        },
    }
}

/// Point lookup of the subscriber that owns a token.
pub fn get_subscriber_id_from_token(db: &SubscriptionStore, token: &String) -> (r: Option<u128>)
    requires
        db.wf(),
    ensures
        r == (if db@.tokens.contains_key(token@) {
            Some(db@.tokens[token@])
        } else {
            None::<u128>
        }),
{
    db.owner_of_token(token)
}

/// Tells whether the subscriber exists and is confirmed.
pub fn check_if_subscriber_confirmed(db: &SubscriptionStore, user_id: u128) -> (r: bool)
    requires
        db.wf(),
    ensures
        r == (db@.subscribers.contains_key(user_id) && db@.subscribers[user_id].status
            == SubscriberStatus::Confirmed),
{
    match db.status_of(user_id) {
        Some(status) => status == SubscriberStatus::Confirmed,
        None => false,
    }
}

/// The conditional update "confirm where pending" on one subscriber; tells
/// whether the status changed.
pub fn confirm_subscriber(db: &mut SubscriptionStore, user_id: u128) -> (r: bool)
    requires
        old(db).wf(),
    ensures
        final(db).wf(),
        (final(db)@, r) == old(db)@.confirm_if_pending(user_id),
{
    db.confirm_if_pending(user_id)
}

/// Confirms the subscriber that owns the token. An unknown token and a
/// subscriber confirmed already are refused, and leave the store as it was.
pub fn confirm(store: &mut SubscriptionStore, params: &ConfirmParameters) -> (r: Result<
    (),
    ConfirmSubscriptionError,
>)
    requires
        old(store).wf(),
    ensures
        final(store).wf(),
        match confirm_model(old(store)@, params.token@) {
            Ok(m) => r is Ok && final(store)@ == m,
            Err(ConfirmRefusal::TokenUnknown) => (r matches Err(
                ConfirmSubscriptionError::SubscriberDoesNotExist,
            )) && final(store)@ == old(store)@,
            Err(ConfirmRefusal::AlreadyConfirmed) => (r matches Err(
                ConfirmSubscriptionError::SubscriberAlreadyConfirmedError,
            )) && final(store)@ == old(store)@,
        },
{
    let owner = get_subscriber_id_from_token(store, &params.token);
    let transitioned = match owner {
        Some(id) => confirm_subscriber(store, id),
        None => false,
    };
    confirm_outcome(owner, transitioned)
}

/// A token that was never issued is answered with "unknown token", never
/// with "already confirmed", and changes nothing.
pub proof fn unknown_token_is_refused(m: StoreModel, token: Seq<char>)
    requires
        !m.tokens.contains_key(token),
    ensures
        confirm_model(m, token) == Err::<StoreModel, ConfirmRefusal>(ConfirmRefusal::TokenUnknown),
{
}

/// Confirming with an issued token of a pending subscriber moves it to
/// confirmed; a second confirmation with the same token is answered with
/// "already confirmed" and applies no transition.
pub proof fn confirm_twice_refuses_the_second(m: StoreModel, token: Seq<char>)
    requires
        m.valid(),
        m.tokens.contains_key(token),
        m.subscribers[m.tokens[token]].status == SubscriberStatus::PendingConfirmation,
    ensures
        confirm_model(m, token) matches Ok(m1) && m1.valid() && m1.subscribers[m.tokens[token]].status
            == SubscriberStatus::Confirmed && confirm_model(m1, token) == Err::<
            StoreModel,
            ConfirmRefusal,
        >(ConfirmRefusal::AlreadyConfirmed),
{
    lemma_confirm_if_pending(m, m.tokens[token]);
}

} // verus!

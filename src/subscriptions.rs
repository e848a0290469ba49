use vstd::prelude::*;

use crate::new_subscriber::NewSubscriber;
use crate::persistence::{persist_subscriber, PersistAction};
use crate::store::{
    lemma_get_or_create_token, lemma_insert_or_get, StorageError, StoreModel, SubscriptionStore,
};
use crate::subscriber_email::{is_valid_email, Email};
use crate::subscriber_name::is_valid_name;
use crate::subscriber_status::SubscriberStatus;
use crate::token::{generate_subscription_token, is_subscription_token};

verus! {

/// The fields of a subscribe request, as the visitor typed them.
#[derive(Debug)]
pub struct SubscribeFormBody {
    pub name: String,
    pub email: String,
}

/// The subject of every confirmation e-mail.
pub const CONFIRMATION_SUBJECT: &'static str = "Welcome!";

/// The confirmation link for a token: the confirm route of the application,
/// with the token as its query.
pub open spec fn confirmation_link_text(base_url: Seq<char>, token: Seq<char>) -> Seq<char> {
    base_url + "/subscribe/confirm?token="@ + token
}

/// The kinds of subscribe failure.
#[derive(Debug, Clone, Copy, PartialEq, Eq, Structural)]
pub enum SubscribeErrorKind {
    Validation,
    StoreToken,
    SendEmail,
    Pool,
    InsertSubscriber,
    TransactionCommit,
}

/// The persistence part of a subscribe request, on the store's content:
/// validate, insert-or-get the subscriber, get-or-create its token. On
/// success, the new content and the token to send.
pub open spec fn subscribe_model(
    m: StoreModel,
    name: Seq<char>,
    email: Seq<char>,
    fresh_id: u128,
    fresh_token: Seq<char>,
) -> Result<(StoreModel, Seq<char>), SubscribeErrorKind> {
    if !(is_valid_name(name) && is_valid_email(email)) {
        Err(SubscribeErrorKind::Validation)
    } else {
        match m.insert_or_get(email, name, fresh_id) {
            None => Err(SubscribeErrorKind::InsertSubscriber),
            Some((m1, id)) => match m1.get_or_create_token(id, fresh_token) {
                None => Err(SubscribeErrorKind::StoreToken),
                Some((m2, t)) => Ok((m2, t)),
            },
        }
    }
}

/// A storage failure while the confirmation token was stored, with its cause.
#[derive(Debug)]
pub struct StoreTokenError(pub String);

/// Why a subscribe request failed. Each variant carries the description of
/// its underlying cause.
#[derive(Debug)]
pub enum SubscribeError {
    ValidationError(String),
    StoreTokenError(StoreTokenError),
    SendEmailError(String),
    PoolError(String),
    InsertSubscriberError(String),
    TransactionCommitError(String),
}

impl SubscribeError {
    /// The kind of this failure.
    pub open spec fn kind(self) -> SubscribeErrorKind {
        match self {
            SubscribeError::ValidationError(_) => SubscribeErrorKind::Validation,
            SubscribeError::StoreTokenError(_) => SubscribeErrorKind::StoreToken,
            SubscribeError::SendEmailError(_) => SubscribeErrorKind::SendEmail,
            SubscribeError::PoolError(_) => SubscribeErrorKind::Pool,
            SubscribeError::InsertSubscriberError(_) => SubscribeErrorKind::InsertSubscriber,
            SubscribeError::TransactionCommitError(_) => SubscribeErrorKind::TransactionCommit,
        }
    }

    /// The HTTP status of the response: a client error for invalid input,
    /// a server error for everything else.
    pub fn status_code(&self) -> (r: u16)
        ensures
            r == (if self.kind() == SubscribeErrorKind::Validation {
                400u16
            } else {
                500u16
            }),
    {
        match self {
            SubscribeError::ValidationError(_) => 400,
            _ => 500,
        }
    }

    /// The sentence shown for this failure; for invalid input, the reason.
    pub fn message(&self) -> (r: String)
        ensures
            self matches SubscribeError::ValidationError(m) ==> r@ == m@,
            self is StoreTokenError ==> r@ == "Failed to store confirmation token for new subscriber."@,
            self is SendEmailError ==> r@ == "Failed to send confirmation email"@,
            self is PoolError ==> r@ == "Failed to acquire Postgres connection from pool"@,
            self is InsertSubscriberError ==> r@ == "Failed to insert new subscriber in database"@,
            self is TransactionCommitError ==> r@
                == "Failed to commit SQL transaction to store a new subscriber"@,
    {
        match self {
            SubscribeError::ValidationError(m) => m.clone(),
            SubscribeError::StoreTokenError(_) => String::from_str(
                "Failed to store confirmation token for new subscriber.",
            ),
            SubscribeError::SendEmailError(_) => String::from_str(
                "Failed to send confirmation email",
            ),
            SubscribeError::PoolError(_) => String::from_str(
                "Failed to acquire Postgres connection from pool",
            ),
            SubscribeError::InsertSubscriberError(_) => String::from_str(
                "Failed to insert new subscriber in database",
            ),
            SubscribeError::TransactionCommitError(_) => String::from_str(
                "Failed to commit SQL transaction to store a new subscriber",
            ),
        }
    }

    /// The description of the underlying cause, where there is one.
    pub fn cause(&self) -> (r: Option<String>)
        ensures
            r is None <==> self.kind() == SubscribeErrorKind::Validation,
            self matches SubscribeError::StoreTokenError(e) ==> (r matches Some(c) && c@ == e.0@),
            self matches SubscribeError::SendEmailError(d) ==> (r matches Some(c) && c@ == d@),
            self matches SubscribeError::PoolError(d) ==> (r matches Some(c) && c@ == d@),
            self matches SubscribeError::InsertSubscriberError(d) ==> (r matches Some(c) && c@ == d@),
            self matches SubscribeError::TransactionCommitError(d) ==> (r matches Some(c) && c@
                == d@),
    {
        match self {
            SubscribeError::ValidationError(_) => None,
            SubscribeError::StoreTokenError(e) => Some(e.0.clone()),
            SubscribeError::SendEmailError(c) => Some(c.clone()),
            SubscribeError::PoolError(c) => Some(c.clone()),
            SubscribeError::InsertSubscriberError(c) => Some(c.clone()),
            SubscribeError::TransactionCommitError(c) => Some(c.clone()),
        }
    }
}

impl From<String> for SubscribeError {
    fn from(value: String) -> (r: SubscribeError) {
        SubscribeError::ValidationError(value)
    }
}

impl vstd::std_specs::convert::FromSpecImpl<String> for SubscribeError {
    open spec fn obeys_from_spec() -> bool {
        true
    }

    open spec fn from_spec(v: String) -> SubscribeError {
        SubscribeError::ValidationError(v)
    }
}

/// The confirmation e-mail to hand to the notifier once the subscriber and
/// token are committed.
#[derive(Debug)]
pub struct ConfirmationEmail {
    pub recipient: String,
    pub name: String,
    pub subject: String,
    pub link: String,
}

/// The confirmation link for a token.
pub fn confirmation_link(base_url: &str, token: &str) -> (r: String)
    ensures
        r@ == confirmation_link_text(base_url@, token@),
{
    String::from_str(base_url).concat("/subscribe/confirm?token=").concat(token)
}

/// The confirmation e-mail for a validated subscriber and its token.
pub fn confirmation_email(subscriber: &NewSubscriber, base_url: &str, token: &str) -> (r:
    ConfirmationEmail)
    ensures
        r.recipient@ == subscriber.email@,
        r.name@ == subscriber.name@,
        r.subject@ == CONFIRMATION_SUBJECT@,
        r.link@ == confirmation_link_text(base_url@, token@),
{
    ConfirmationEmail {
        recipient: String::from_str(subscriber.email.as_str()),
        name: String::from_str(subscriber.name.as_str()),
        subject: String::from_str(CONFIRMATION_SUBJECT),
        link: confirmation_link(base_url, token),
    }
}

#[verifier::external_type_specification]
#[verifier::external_body]
pub struct ExTera(tera::Tera);

#[verifier::external_type_specification]
#[verifier::external_body]
pub struct ExTeraError(tera::Error);

/// Relies on `tera::Tera::render`: renders one of the loaded templates with a
/// context that holds the subscriber's name and the confirmation link.
#[verifier::external_body]
fn render_template(templates: &tera::Tera, template_name: &str, name: &str, link: &str) -> (r:
    Result<String, tera::Error>) {
    let mut context = tera::Context::new();
    context.insert("name", name);
    context.insert("link", link);
    templates.render(template_name, &context)
}

/// The HTML and the plain-text bodies of a confirmation e-mail, rendered
/// from the `confirm-email.html` and `confirm-email.txt` templates. A
/// rendering failure is a failure of the notification step: the subscriber
/// is already committed.
pub fn confirmation_bodies(templates: &tera::Tera, mail: &ConfirmationEmail) -> (r: Result<
    (String, String),
    SubscribeError,
>)
    ensures
        r matches Err(e) ==> e.kind() == SubscribeErrorKind::SendEmail,
{
    let html_body = match render_template(
        templates,
        "confirm-email.html",
        mail.name.as_str(),
        mail.link.as_str(),
    ) {
        Ok(b) => b,
        Err(e) => return Err(SubscribeError::SendEmailError(e.to_string())),
    };
    let text_body = match render_template(
        templates,
        "confirm-email.txt",
        mail.name.as_str(),
        mail.link.as_str(),
    ) {
        Ok(b) => b,
        Err(e) => return Err(SubscribeError::SendEmailError(e.to_string())),
    };
    Ok((html_body, text_body))
}

/// Point lookup of a subscriber by address, inside a transaction.
pub fn does_subscriber_exist(tx: &SubscriptionStore, email: &Email) -> (r: Option<u128>)
    requires
        tx.wf(),
    ensures
        r == (if tx@.has_email(email@) {
            Some(tx@.id_of_email(email@))
        } else {
            None::<u128>
        }),
{
    tx.find_by_email(email.as_string())
}

/// Insert-or-get of a validated subscriber, inside a transaction: the
/// existing subscriber with the same address, unchanged, or a new pending
/// one under `fresh_id`.
pub fn insert_subscriber(tx: &mut SubscriptionStore, body: &NewSubscriber, fresh_id: u128) -> (r:
    Result<u128, StorageError>)
    requires
        old(tx).wf(),
    ensures
        final(tx).wf(),
        match old(tx)@.insert_or_get(body.email@, body.name@, fresh_id) {
            Some((m, id)) => r == Ok::<u128, StorageError>(id) && final(tx)@ == m,
            None => r is Err && final(tx)@ == old(tx)@,
        },
{
    tx.insert_or_get(body.email.as_string(), body.name.as_string(), fresh_id)
}

/// Get-or-create of a subscriber's confirmation token, inside a
/// transaction: the token already issued, or `fresh_token`.
pub fn store_token(tx: &mut SubscriptionStore, subscriber_id: u128, fresh_token: String) -> (r:
    Result<String, StoreTokenError>)
    requires
        old(tx).wf(),
    ensures
        final(tx).wf(),
        match old(tx)@.get_or_create_token(subscriber_id, fresh_token@) {
            Some((m, t)) => (r matches Ok(s) && s@ == t) && final(tx)@ == m,
            None => r is Err && final(tx)@ == old(tx)@,
        },
{
    match tx.get_or_create_token(subscriber_id, fresh_token) {
        Ok(t) => Ok(t),
        Err(e) => Err(StoreTokenError(e.describe())),
    }
}

/// What a subscribe call leaves behind: the store's content before and
/// after, and the result, against the persistence model.
pub open spec fn subscribe_post(
    before: StoreModel,
    after: StoreModel,
    r: Result<ConfirmationEmail, SubscribeError>,
    name: Seq<char>,
    email: Seq<char>,
    base_url: Seq<char>,
    fresh_id: u128,
    fresh_token: Seq<char>,
) -> bool {
    &&& match subscribe_model(before, name, email, fresh_id, fresh_token) {
        Ok((m, t)) => after == m && (r matches Ok(mail) && mail.recipient@ == email && mail.name@
            == name && mail.subject@ == CONFIRMATION_SUBJECT@ && mail.link@
            == confirmation_link_text(base_url, t)),
        Err(k) => after == before && (r matches Err(e) && e.kind() == k),
    }
    &&& !is_valid_name(name) ==> (r matches Err(SubscribeError::ValidationError(m)) && m@ == name
        + " is not a valid subscriber name"@)
    &&& is_valid_name(name) && !is_valid_email(email) ==> (r matches Err(
        SubscribeError::ValidationError(m),
    ) && m@ == email + " is not a valid email"@)
}

/// Subscribes a visitor, with the identifier and token that a new subscriber
/// would get given as arguments. The subscriber and its token are written in
/// one transaction, committed only if both steps succeed; on any failure the
/// store is left as it was. The result is the e-mail to send.
pub fn subscribe_with(
    store: &mut SubscriptionStore,
    form: SubscribeFormBody,
    base_url: &str,
    fresh_id: u128,
    fresh_token: String,
) -> (r: Result<ConfirmationEmail, SubscribeError>)
    requires
        old(store).wf(),
    ensures
        final(store).wf(),
        subscribe_post(
            old(store)@,
            final(store)@,
            r,
            form.name@,
            form.email@,
            base_url@,
            fresh_id,
            fresh_token@,
        ),
{
    let ghost name = form.name@;
    let ghost email = form.email@;
    let new_subscriber = match NewSubscriber::try_from(form) {
        Ok(s) => s,
        Err(m) => return Err(SubscribeError::ValidationError(m)),
    };
    let mut tx = store.begin();
    match persist_subscriber(&mut tx, &new_subscriber, fresh_id, &fresh_token) {
        PersistAction::Commit(token) => {
            store.commit(tx);
            Ok(confirmation_email(&new_subscriber, base_url, token.as_str()))
        },
        PersistAction::Fail(e) => Err(e),
        _ => {
            proof {
                assert(false);
            }
            Err(SubscribeError::TransactionCommitError(String::new()))
        },
    }
}

/// Subscribes a visitor, drawing a fresh identifier and a fresh token for the
/// case where the address is new. Whatever was drawn, the outcome is the
/// one of `subscribe_with` for some identifier and some well-formed token.
pub fn subscribe(store: &mut SubscriptionStore, form: SubscribeFormBody, base_url: &str) -> (r:
    Result<ConfirmationEmail, SubscribeError>)
    requires
        old(store).wf(),
    ensures
        final(store).wf(),
        exists|fresh_id: u128, fresh_token: Seq<char>|
            is_subscription_token(fresh_token) && subscribe_post(
                old(store)@,
                final(store)@,
                r,
                form.name@,
                form.email@,
                base_url@,
                fresh_id,
                fresh_token,
            ),
{
    let fresh_id = new_subscriber_id();
    let fresh_token = generate_subscription_token();
    let ghost t = fresh_token@;
    let r = subscribe_with(store, form, base_url, fresh_id, fresh_token);
    assert(is_subscription_token(t));
    r
}

/// Relies on `uuid::Uuid::new_v4`: a random identifier, read as a number.
#[verifier::external_body]
fn new_subscriber_id() -> (r: u128) {
    uuid::Uuid::new_v4().as_u128()
}

/// The outcome of the notification step, which runs after the commit: a
/// notifier failure becomes a `SendEmailError` carrying its cause, distinct
/// from every storage failure.
pub fn notification_outcome(sent: Result<(), String>) -> (r: Result<(), SubscribeError>)
    ensures
        sent is Ok <==> r is Ok,
        sent matches Err(c) ==> (r matches Err(SubscribeError::SendEmailError(d)) && d@ == c@),
{
    match sent {
        Ok(()) => Ok(()),
        Err(c) => Err(SubscribeError::SendEmailError(c)),
    }
}

/// Subscribing a new address with valid input succeeds exactly when the
/// drawn identifier and token are unused. It then stores the subscriber as
/// pending, with exactly one token: the one it returns.
pub proof fn subscribe_once_stores_one_pending_subscriber_and_token(
    m: StoreModel,
    name: Seq<char>,
    email: Seq<char>,
    fresh_id: u128,
    fresh_token: Seq<char>,
)
    requires
        m.valid(),
        is_valid_name(name),
        is_valid_email(email),
        !m.has_email(email),
    ensures
        subscribe_model(m, name, email, fresh_id, fresh_token) is Ok <==> !m.subscribers.contains_key(
            fresh_id,
        ) && !m.tokens.contains_key(fresh_token),
        subscribe_model(m, name, email, fresh_id, fresh_token) matches Ok((m2, t)) ==> {
            &&& m2.valid()
            &&& m2.has_email(email)
            &&& m2.subscribers[m2.id_of_email(email)].status == SubscriberStatus::PendingConfirmation
            &&& t == fresh_token
            &&& forall|u: Seq<char>|
                #![trigger m2.tokens[u]]
                m2.tokens.contains_key(u) && m2.tokens[u] == m2.id_of_email(email) <==> u == t
        },
{
    lemma_insert_or_get(m, email, name, fresh_id);
    if !m.subscribers.contains_key(fresh_id) {
        let (m1, id) = m.insert_or_get(email, name, fresh_id)->0;
        assert(!m1.has_token_for(id)) by {
            if m1.has_token_for(id) {
                let u = choose|u: Seq<char>| #[trigger] m1.tokens.contains_key(u) && m1.tokens[u] == id;
                assert(m.tokens.contains_key(u));
            }
        }
        lemma_get_or_create_token(m1, id, fresh_token);
        if !m.tokens.contains_key(fresh_token) {
            let (m2, t) = m1.get_or_create_token(id, fresh_token)->0;
            crate::store::lemma_id_of_email(m2, email, id);
            assert forall|u: Seq<char>|
                #![trigger m2.tokens[u]]
                m2.tokens.contains_key(u) && m2.tokens[u] == id <==> u == t by {
                if u != t && m2.tokens.contains_key(u) && m2.tokens[u] == id {
                    assert(m1.tokens[u] == m1.tokens[u]);
                    assert(m1.has_token_for(id));
                }
            }
        }
    }
}

/// Two subscribe calls with the same address, one after the other: once
/// the first has succeeded, the second succeeds whatever it draws and
/// whatever valid name it carries, stores nothing new, and hands out the
/// same token. The link is a function of the token, so the notifier gets
/// the same link both times.
pub proof fn subscribe_again_reuses_subscriber_and_token(
    m: StoreModel,
    name: Seq<char>,
    email: Seq<char>,
    fresh_id: u128,
    fresh_token: Seq<char>,
    name2: Seq<char>,
    fresh_id2: u128,
    fresh_token2: Seq<char>,
)
    requires
        m.valid(),
        subscribe_model(m, name, email, fresh_id, fresh_token) is Ok,
        is_valid_name(name2),
    ensures
        subscribe_model(m, name, email, fresh_id, fresh_token) matches Ok((m1, t1)) && m1.valid()
            && subscribe_model(m1, name2, email, fresh_id2, fresh_token2) == Ok::<
            (StoreModel, Seq<char>),
            SubscribeErrorKind,
        >((m1, t1)),
{
    lemma_insert_or_get(m, email, name, fresh_id);
    let (ma, id) = m.insert_or_get(email, name, fresh_id)->0;
    lemma_get_or_create_token(ma, id, fresh_token);
    let (m1, t1) = ma.get_or_create_token(id, fresh_token)->0;
    crate::store::lemma_id_of_email(m1, email, id);
    lemma_insert_or_get(m1, email, name2, fresh_id2);
    crate::store::lemma_token_for(m1, id, t1);
}

/// Subscribing twice with the identical request: the second call finds the
/// same subscriber and returns the identical token, and the store holds one
/// subscriber for the address.
pub proof fn subscribe_twice_is_idempotent(
    m: StoreModel,
    name: Seq<char>,
    email: Seq<char>,
    fresh_id: u128,
    fresh_token: Seq<char>,
    fresh_id2: u128,
    fresh_token2: Seq<char>,
)
    requires
        m.valid(),
        subscribe_model(m, name, email, fresh_id, fresh_token) is Ok,
    ensures
        subscribe_model(m, name, email, fresh_id, fresh_token) matches Ok((m1, t1))
            && subscribe_model(m1, name, email, fresh_id2, fresh_token2) == Ok::<
            (StoreModel, Seq<char>),
            SubscribeErrorKind,
        >((m1, t1)),
{
    subscribe_again_reuses_subscriber_and_token(
        m,
        name,
        email,
        fresh_id,
        fresh_token,
        name,
        fresh_id2,
        fresh_token2,
    );
}

/// Input with a malformed address is refused by validation, before any
/// storage step: the result is a validation error and, by the contract of
/// `subscribe_with`, the store is left as it was.
pub proof fn malformed_email_is_refused_before_storage(
    m: StoreModel,
    name: Seq<char>,
    email: Seq<char>,
    fresh_id: u128,
    fresh_token: Seq<char>,
)
    requires
        !is_valid_email(email),
    ensures
        subscribe_model(m, name, email, fresh_id, fresh_token) == Err::<
            (StoreModel, Seq<char>),
            SubscribeErrorKind,
        >(SubscribeErrorKind::Validation),
{
}

} // verus!

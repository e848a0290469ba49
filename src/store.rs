use vstd::prelude::*;

use crate::subscriber_status::SubscriberStatus;

verus! {

/// What the store knows of one subscriber.
pub struct SubscriberModel {
    pub email: Seq<char>,
    pub name: Seq<char>,
    pub status: SubscriberStatus,
}

/// The content of the store: subscribers by identifier, and the owner of
/// each confirmation token.
pub struct StoreModel {
    pub subscribers: Map<u128, SubscriberModel>,
    pub tokens: Map<Seq<char>, u128>,
}

/// Why a write was refused by the store's constraints.
#[derive(Debug, Clone, Copy, PartialEq, Eq, Structural)]
pub enum StorageError {
    /// The identifier chosen for a new subscriber is taken.
    DuplicateSubscriberId,
    /// The token chosen for a subscriber is already issued to another one.
    DuplicateToken,
    /// The token would belong to a subscriber that does not exist.
    UnknownSubscriber,
}

/// The sentence that names the constraint a write broke.
pub open spec fn storage_error_text(e: StorageError) -> Seq<char> {
    match e {
        StorageError::DuplicateSubscriberId => "subscriber id is already taken"@,
        StorageError::DuplicateToken => "subscription token is already issued"@,
        StorageError::UnknownSubscriber => "subscription token refers to no subscriber"@,
    }
}

impl StorageError {
    /// A sentence that names the broken constraint.
    pub fn describe(&self) -> (r: String)
        ensures
            r@ == storage_error_text(*self),
            r@.len() > 0,
    {
        let text = match self {
            StorageError::DuplicateSubscriberId => "subscriber id is already taken",
            StorageError::DuplicateToken => "subscription token is already issued",
            StorageError::UnknownSubscriber => "subscription token refers to no subscriber",
        };
        proof {
            reveal_strlit("subscriber id is already taken");
            reveal_strlit("subscription token is already issued");
            reveal_strlit("subscription token refers to no subscriber");
        }
        String::from_str(text)
    }
}

impl StoreModel {
    /// The store that holds nothing.
    pub open spec fn empty() -> StoreModel {
        StoreModel { subscribers: Map::empty(), tokens: Map::empty() }
    }

    /// The store's invariants: an e-mail address belongs to one subscriber at
    /// most, every token has an existing owner, and a subscriber owns one token
    /// at most.
    pub open spec fn valid(self) -> bool {
        &&& forall|a: u128, b: u128|
            #![trigger self.subscribers[a], self.subscribers[b]]
            self.subscribers.contains_key(a) && self.subscribers.contains_key(b)
                && self.subscribers[a].email == self.subscribers[b].email ==> a == b
        &&& forall|t: Seq<char>| #[trigger]
            self.tokens.contains_key(t) ==> self.subscribers.contains_key(self.tokens[t])
        &&& forall|t1: Seq<char>, t2: Seq<char>|
            #![trigger self.tokens[t1], self.tokens[t2]]
            self.tokens.contains_key(t1) && self.tokens.contains_key(t2) && self.tokens[t1]
                == self.tokens[t2] ==> t1 == t2
    }

    /// Some subscriber has this e-mail address.
    pub open spec fn has_email(self, email: Seq<char>) -> bool {
        exists|id: u128| #[trigger]
            self.subscribers.contains_key(id) && self.subscribers[id].email == email
    }

    /// The subscriber with this e-mail address, when `has_email` holds.
    pub open spec fn id_of_email(self, email: Seq<char>) -> u128 {
        choose|id: u128| #[trigger]
            self.subscribers.contains_key(id) && self.subscribers[id].email == email
    }

    /// Some token is issued to this subscriber.
    pub open spec fn has_token_for(self, id: u128) -> bool {
        exists|t: Seq<char>| #[trigger] self.tokens.contains_key(t) && self.tokens[t] == id
    }

    /// The token issued to this subscriber, when `has_token_for` holds.
    pub open spec fn token_for(self, id: u128) -> Seq<char> {
        choose|t: Seq<char>| #[trigger] self.tokens.contains_key(t) && self.tokens[t] == id
    }

    /// Insert-or-get by e-mail address. An existing subscriber is returned as
    /// it stands; otherwise a pending subscriber is added under `fresh_id`.
    /// `None` when `fresh_id` is already taken.
    pub open spec fn insert_or_get(self, email: Seq<char>, name: Seq<char>, fresh_id: u128) -> Option<
        (StoreModel, u128),
    > {
        if self.has_email(email) {
            Some((self, self.id_of_email(email)))
        } else if self.subscribers.contains_key(fresh_id) {
            None
        } else {
            Some(
                (
                    StoreModel {
                        subscribers: self.subscribers.insert(
                            fresh_id,
                            SubscriberModel {
                                email,
                                name,
                                status: SubscriberStatus::PendingConfirmation,
                            },
                        ),
                        tokens: self.tokens,
                    },
                    fresh_id,
                ),
            )
        }
    }

    /// Get-or-create of the subscriber's token. An issued token is returned
    /// as it stands; otherwise `fresh` is issued. `None` when the subscriber
    /// does not exist or `fresh` is already issued.
    pub open spec fn get_or_create_token(self, id: u128, fresh: Seq<char>) -> Option<
        (StoreModel, Seq<char>),
    > {
        if self.has_token_for(id) {
            Some((self, self.token_for(id)))
        } else if !self.subscribers.contains_key(id) || self.tokens.contains_key(fresh) {
            None
        } else {
            Some(
                (
                    StoreModel { subscribers: self.subscribers, tokens: self.tokens.insert(fresh, id) },
                    fresh,
                ),
            )
        }
    }

    /// The subscriber marked confirmed.
    pub open spec fn with_confirmed(self, id: u128) -> StoreModel {
        StoreModel {
            subscribers: self.subscribers.insert(
                id,
                SubscriberModel { status: SubscriberStatus::Confirmed, ..self.subscribers[id] },
            ),
            tokens: self.tokens,
        }
    }

    /// The conditional update "confirm where pending": the new content and
    /// whether the transition happened.
    pub open spec fn confirm_if_pending(self, id: u128) -> (StoreModel, bool) {
        if self.subscribers.contains_key(id) && self.subscribers[id].status
            == SubscriberStatus::PendingConfirmation {
            (self.with_confirmed(id), true)
        } else {
            (self, false)
        }
    }
}

/// With valid content, the identifier of a subscriber that has an address is
/// the one `id_of_email` picks for it.
pub proof fn lemma_id_of_email(m: StoreModel, email: Seq<char>, id: u128)
    requires
        m.valid(),
        m.subscribers.contains_key(id),
        m.subscribers[id].email == email,
    ensures
        m.has_email(email),
        m.id_of_email(email) == id,
{
    let other = m.id_of_email(email);
    assert(m.subscribers[other] == m.subscribers[other]);
    assert(m.subscribers[id] == m.subscribers[id]);
}

/// With valid content, a token issued to a subscriber is the one
/// `token_for` picks for it.
pub proof fn lemma_token_for(m: StoreModel, id: u128, t: Seq<char>)
    requires
        m.valid(),
        m.tokens.contains_key(t),
        m.tokens[t] == id,
    ensures
        m.has_token_for(id),
        m.token_for(id) == t,
{
    let other = m.token_for(id);
    assert(m.tokens[other] == m.tokens[other]);
    assert(m.tokens[t] == m.tokens[t]);
}

/// Insert-or-get keeps the content valid, leaves the tokens alone, and
/// returns a subscriber with the given address.
pub proof fn lemma_insert_or_get(m: StoreModel, email: Seq<char>, name: Seq<char>, fresh_id: u128)
    requires
        m.valid(),
    ensures
        m.insert_or_get(email, name, fresh_id) matches Some((m1, id)) ==> {
            &&& m1.valid()
            &&& m1.tokens == m.tokens
            &&& m1.subscribers.contains_key(id)
            &&& m1.subscribers[id].email == email
            &&& m1.id_of_email(email) == id
            &&& (m.has_email(email) ==> m1 == m)
            &&& (!m.has_email(email) ==> id == fresh_id && !m.subscribers.contains_key(id))
        },
{
    if m.has_email(email) {
        let id = m.id_of_email(email);
        lemma_id_of_email(m, email, id);
    } else if !m.subscribers.contains_key(fresh_id) {
        let (m1, id) = m.insert_or_get(email, name, fresh_id)->0;
        assert forall|a: u128, b: u128|
            #![trigger m1.subscribers[a], m1.subscribers[b]]
            m1.subscribers.contains_key(a) && m1.subscribers.contains_key(b)
                && m1.subscribers[a].email == m1.subscribers[b].email implies a == b by {
            if a != fresh_id && b != fresh_id {
                assert(m.subscribers[a] == m.subscribers[a]);
                assert(m.subscribers[b] == m.subscribers[b]);
            } else if a == fresh_id && b != fresh_id {
                assert(m.subscribers.contains_key(b) && m.subscribers[b].email == email);
            } else if a != fresh_id && b == fresh_id {
                assert(m.subscribers.contains_key(a) && m.subscribers[a].email == email);
            }
        }
        assert forall|t1: Seq<char>, t2: Seq<char>|
            #![trigger m1.tokens[t1], m1.tokens[t2]]
            m1.tokens.contains_key(t1) && m1.tokens.contains_key(t2) && m1.tokens[t1]
                == m1.tokens[t2] implies t1 == t2 by {
            assert(m.tokens[t1] == m.tokens[t2]);
        }
        assert forall|t: Seq<char>| #[trigger]
            m1.tokens.contains_key(t) implies m1.subscribers.contains_key(m1.tokens[t]) by {
            assert(m.tokens.contains_key(t));
        }
        lemma_id_of_email(m1, email, id);
    }
}

/// Get-or-create of a token keeps the content valid, leaves the subscribers
/// alone, and returns the one token of the subscriber.
pub proof fn lemma_get_or_create_token(m: StoreModel, id: u128, fresh: Seq<char>)
    requires
        m.valid(),
    ensures
        m.get_or_create_token(id, fresh) matches Some((m1, t)) ==> {
            &&& m1.valid()
            &&& m1.subscribers == m.subscribers
            &&& m1.tokens.contains_key(t)
            &&& m1.tokens[t] == id
            &&& m1.token_for(id) == t
            &&& (m.has_token_for(id) ==> m1 == m)
            &&& (!m.has_token_for(id) ==> t == fresh)
        },
{
    if m.has_token_for(id) {
        let t = m.token_for(id);
        lemma_token_for(m, id, t);
    } else if m.subscribers.contains_key(id) && !m.tokens.contains_key(fresh) {
        let (m1, t) = m.get_or_create_token(id, fresh)->0;
        assert forall|t1: Seq<char>, t2: Seq<char>|
            #![trigger m1.tokens[t1], m1.tokens[t2]]
            m1.tokens.contains_key(t1) && m1.tokens.contains_key(t2) && m1.tokens[t1]
                == m1.tokens[t2] implies t1 == t2 by {
            if t1 != fresh && t2 != fresh {
                assert(m.tokens[t1] == m.tokens[t2]);
            } else if t1 == fresh && t2 != fresh {
                assert(m.tokens.contains_key(t2) && m.tokens[t2] == id);
            } else if t1 != fresh && t2 == fresh {
                assert(m.tokens.contains_key(t1) && m.tokens[t1] == id);
            }
        }
        assert forall|u: Seq<char>| #[trigger]
            m1.tokens.contains_key(u) implies m1.subscribers.contains_key(m1.tokens[u]) by {
            if u != fresh {
                assert(m.tokens.contains_key(u));
            }
        }
        assert forall|a: u128, b: u128|
            #![trigger m1.subscribers[a], m1.subscribers[b]]
            m1.subscribers.contains_key(a) && m1.subscribers.contains_key(b)
                && m1.subscribers[a].email == m1.subscribers[b].email implies a == b by {
            assert(m.subscribers[a] == m.subscribers[a]);
            assert(m.subscribers[b] == m.subscribers[b]);
        }
        lemma_token_for(m1, id, t);
    }
}

/// The conditional confirm keeps the content valid and changes nothing but
/// the status of that one subscriber.
pub proof fn lemma_confirm_if_pending(m: StoreModel, id: u128)
    requires
        m.valid(),
    ensures
        m.confirm_if_pending(id).0.valid(),
        m.confirm_if_pending(id).0.tokens == m.tokens,
        m.confirm_if_pending(id).0.subscribers.dom() == m.subscribers.dom(),
        m.confirm_if_pending(id).1 ==> m.confirm_if_pending(id).0.subscribers[id].status
            == SubscriberStatus::Confirmed,
{
    let m1 = m.confirm_if_pending(id).0;
    if m.confirm_if_pending(id).1 {
        assert forall|a: u128, b: u128|
            #![trigger m1.subscribers[a], m1.subscribers[b]]
            m1.subscribers.contains_key(a) && m1.subscribers.contains_key(b)
                && m1.subscribers[a].email == m1.subscribers[b].email implies a == b by {
            assert(m.subscribers[a] == m.subscribers[a]);
            assert(m.subscribers[b] == m.subscribers[b]);
        }
        assert forall|t1: Seq<char>, t2: Seq<char>|
            #![trigger m1.tokens[t1], m1.tokens[t2]]
            m1.tokens.contains_key(t1) && m1.tokens.contains_key(t2) && m1.tokens[t1]
                == m1.tokens[t2] implies t1 == t2 by {
            assert(m.tokens[t1] == m.tokens[t2]);
        }
        assert forall|t: Seq<char>| #[trigger]
            m1.tokens.contains_key(t) implies m1.subscribers.contains_key(m1.tokens[t]) by {
            assert(m.tokens.contains_key(t));
        }
        assert(m1.subscribers.dom() =~= m.subscribers.dom());
    }
}

struct Subscriber {
    id: u128,
    email: String,
    name: String,
    status: SubscriberStatus,
}

struct TokenEntry {
    token: String,
    subscriber_id: u128,
}

spec fn model_of(s: Subscriber) -> SubscriberModel {
    SubscriberModel { email: s.email@, name: s.name@, status: s.status }
}

impl Subscriber {
    fn duplicate(&self) -> (r: Subscriber)
        ensures
            r == *self,
    {
        Subscriber {
            id: self.id,
            email: self.email.clone(),
            name: self.name.clone(),
            status: self.status,
        }
    }
}

impl TokenEntry {
    fn duplicate(&self) -> (r: TokenEntry)
        ensures
            r == *self,
    {
        TokenEntry { token: self.token.clone(), subscriber_id: self.subscriber_id }
    }
}

/// An in-memory transactional store of subscribers and confirmation tokens.
///
/// A transaction is a working copy taken with `begin`: the repository and
/// token operations run on it, and `commit` makes it the store's content.
/// Dropping the copy rolls the transaction back. Transactions on one store
/// run one after the other: `commit` replaces the content with the copy.
pub struct SubscriptionStore {
    subscribers: Vec<Subscriber>,
    tokens: Vec<TokenEntry>,
    model: Ghost<StoreModel>,
}

impl View for SubscriptionStore {
    type V = StoreModel;

    closed spec fn view(&self) -> StoreModel {
        self.model@
    }
}

impl SubscriptionStore {
    /// The rows agree with the content, and the content is valid.
    pub closed spec fn wf(&self) -> bool {
        let subs = self.subscribers@;
        let toks = self.tokens@;
        let m = self.model@;
        &&& m.valid()
        &&& forall|i: int, j: int|
            #![trigger subs[i], subs[j]]
            0 <= i < subs.len() && 0 <= j < subs.len() && i != j ==> subs[i].id != subs[j].id
        &&& forall|i: int|
            #![trigger subs[i]]
            0 <= i < subs.len() ==> m.subscribers.contains_key(subs[i].id)
                && m.subscribers[subs[i].id] == model_of(subs[i])
        &&& forall|id: u128| #[trigger]
            m.subscribers.contains_key(id) ==> exists|i: int|
                0 <= i < subs.len() && #[trigger] subs[i].id == id
        &&& forall|i: int|
            #![trigger toks[i]]
            0 <= i < toks.len() ==> m.tokens.contains_key(toks[i].token@) && m.tokens[toks[i].token@]
                == toks[i].subscriber_id
        &&& forall|t: Seq<char>| #[trigger]
            m.tokens.contains_key(t) ==> exists|i: int|
                0 <= i < toks.len() && #[trigger] toks[i].token@ == t
    }

    /// A well-formed store holds valid content.
    pub proof fn lemma_wf_valid(&self)
        requires
            self.wf(),
        ensures
            self@.valid(),
    {
    }

    /// A store with no subscriber and no token.
    pub fn new() -> (r: SubscriptionStore)
        ensures
            r.wf(),
            r@ == StoreModel::empty(),
    {
        SubscriptionStore {
            subscribers: Vec::new(),
            tokens: Vec::new(),
            model: Ghost(StoreModel::empty()),
        }
    }

    /// Opens a transaction: a working copy of the current content.
    pub fn begin(&self) -> (tx: SubscriptionStore)
        requires
            self.wf(),
        ensures
            tx.wf(),
            tx@ == self@,
    {
        let mut subscribers: Vec<Subscriber> = Vec::new();
        let mut i: usize = 0;
        while i < self.subscribers.len()
            invariant
                i <= self.subscribers@.len(),
                subscribers@ == self.subscribers@.subrange(0, i as int),
            decreases self.subscribers@.len() - i,
        {
            subscribers.push(self.subscribers[i].duplicate());
            i = i + 1;
        }
        let mut tokens: Vec<TokenEntry> = Vec::new();
        let mut k: usize = 0;
        while k < self.tokens.len()
            invariant
                k <= self.tokens@.len(),
                tokens@ == self.tokens@.subrange(0, k as int),
            decreases self.tokens@.len() - k,
        {
            tokens.push(self.tokens[k].duplicate());
            k = k + 1;
        }
        assert(subscribers@ == self.subscribers@);
        assert(tokens@ == self.tokens@);
        let tx = SubscriptionStore { subscribers, tokens, model: Ghost(self.model@) };
        assert(tx.subscribers@ == self.subscribers@ && tx.tokens@ == self.tokens@ && tx.model@
            == self.model@);
        tx
    }

    /// Commits a transaction opened on this store: its content becomes the
    /// store's content.
    pub fn commit(&mut self, tx: SubscriptionStore)
        requires
            tx.wf(),
        ensures
            final(self).wf(),
            final(self)@ == tx@,
    {
        *self = tx;
    }

    /// Point lookup of a subscriber by e-mail address.
    pub fn find_by_email(&self, email: &String) -> (r: Option<u128>)
        requires
            self.wf(),
        ensures
            r == (if self@.has_email(email@) {
                Some(self@.id_of_email(email@))
            } else {
                None::<u128>
            }),
    {
        let mut i: usize = 0;
        while i < self.subscribers.len()
            invariant
                self.wf(),
                i <= self.subscribers@.len(),
                forall|j: int| 0 <= j < i ==> #[trigger] self.subscribers@[j].email@ != email@,
            decreases self.subscribers@.len() - i,
        {
            if self.subscribers[i].email == *email {
                let ghost m = self@;
                let ghost id = self.subscribers@[i as int].id;
                assert(m.subscribers.contains_key(id) && m.subscribers[id].email == email@);
                let ghost other = m.id_of_email(email@);
                assert(m.subscribers[other] == m.subscribers[other]);
                assert(m.subscribers[id] == m.subscribers[id]);
                return Some(self.subscribers[i].id);
            }
            i = i + 1;
        }
        proof {
            let m = self@;
            if m.has_email(email@) {
                let id = choose|id: u128| #[trigger]
                    m.subscribers.contains_key(id) && m.subscribers[id].email == email@;
                let j = choose|j: int|
                    0 <= j < self.subscribers@.len() && #[trigger] self.subscribers@[j].id == id;
                assert(self.subscribers@[j].email@ != email@);
            }
        }
        None
    }

    /// Point lookup of the token issued to a subscriber.
    pub fn get_token(&self, id: u128) -> (r: Option<String>)
        requires
            self.wf(),
        ensures
            r is Some <==> self@.has_token_for(id),
            r matches Some(t) ==> t@ == self@.token_for(id),
    {
        let mut i: usize = 0;
        while i < self.tokens.len()
            invariant
                self.wf(),
                i <= self.tokens@.len(),
                forall|j: int| 0 <= j < i ==> #[trigger] self.tokens@[j].subscriber_id != id,
            decreases self.tokens@.len() - i,
        {
            if self.tokens[i].subscriber_id == id {
                let ghost m = self@;
                let ghost t = self.tokens@[i as int].token@;
                assert(m.tokens.contains_key(t) && m.tokens[t] == id);
                let ghost other = m.token_for(id);
                assert(m.tokens[other] == m.tokens[other]);
                assert(m.tokens[t] == m.tokens[t]);
                return Some(self.tokens[i].token.clone());
            }
            i = i + 1;
        }
        proof {
            let m = self@;
            if m.has_token_for(id) {
                let t = choose|t: Seq<char>| #[trigger] m.tokens.contains_key(t) && m.tokens[t] == id;
                let j = choose|j: int|
                    0 <= j < self.tokens@.len() && #[trigger] self.tokens@[j].token@ == t;
                assert(self.tokens@[j].subscriber_id != id);
            }
        }
        None
    }

    /// Point lookup of the owner of a token.
    pub fn owner_of_token(&self, token: &String) -> (r: Option<u128>)
        requires
            self.wf(),
        ensures
            r == (if self@.tokens.contains_key(token@) {
                Some(self@.tokens[token@])
            } else {
                None::<u128>
            }),
    {
        let mut i: usize = 0;
        while i < self.tokens.len()
            invariant
                self.wf(),
                i <= self.tokens@.len(),
                forall|j: int| 0 <= j < i ==> #[trigger] self.tokens@[j].token@ != token@,
            decreases self.tokens@.len() - i,
        {
            if self.tokens[i].token == *token {
                return Some(self.tokens[i].subscriber_id);
            }
            i = i + 1;
        }
        proof {
            if self@.tokens.contains_key(token@) {
                let j = choose|j: int|
                    0 <= j < self.tokens@.len() && #[trigger] self.tokens@[j].token@ == token@;
                assert(self.tokens@[j].token@ != token@);
            }
        }
        None
    }

    /// Position of the subscriber's row, if it exists.
    fn position_of(&self, id: u128) -> (r: Option<usize>)
        requires
            self.wf(),
        ensures
            r is Some <==> self@.subscribers.contains_key(id),
            r matches Some(i) ==> i < self.subscribers@.len() && self.subscribers@[i as int].id == id,
    {
        let mut i: usize = 0;
        while i < self.subscribers.len()
            invariant
                self.wf(),
                i <= self.subscribers@.len(),
                forall|j: int| 0 <= j < i ==> #[trigger] self.subscribers@[j].id != id,
            decreases self.subscribers@.len() - i,
        {
            if self.subscribers[i].id == id {
                return Some(i);
            }
            i = i + 1;
        }
        proof {
            if self@.subscribers.contains_key(id) {
                let j = choose|j: int|
                    0 <= j < self.subscribers@.len() && #[trigger] self.subscribers@[j].id == id;
                assert(self.subscribers@[j].id != id);
            }
        }
        None
    }

    /// Point lookup of a subscriber's status.
    pub fn status_of(&self, id: u128) -> (r: Option<SubscriberStatus>)
        requires
            self.wf(),
        ensures
            r == (if self@.subscribers.contains_key(id) {
                Some(self@.subscribers[id].status)
            } else {
                None::<SubscriberStatus>
            }),
    {
        match self.position_of(id) {
            Some(i) => {
                assert(self.subscribers@[i as int] == self.subscribers@[i as int]);
                Some(self.subscribers[i].status)
            },
            None => None,
        }
    }

    /// Adds a pending subscriber under an identifier and address that are both unused.
    fn insert_pending(&mut self, id: u128, email: &String, name: &String)
        requires
            old(self).wf(),
            !old(self)@.subscribers.contains_key(id),
            !old(self)@.has_email(email@),
        ensures
            final(self).wf(),
            final(self)@ == (StoreModel {
                subscribers: old(self)@.subscribers.insert(
                    id,
                    SubscriberModel {
                        email: email@,
                        name: name@,
                        status: SubscriberStatus::PendingConfirmation,
                    },
                ),
                tokens: old(self)@.tokens,
            }),
    {
        let ghost m0 = self@;
        let row = Subscriber {
            id,
            email: email.clone(),
            name: name.clone(),
            status: SubscriberStatus::PendingConfirmation,
        };
        let ghost m1 = StoreModel {
            subscribers: m0.subscribers.insert(id, model_of(row)),
            tokens: m0.tokens,
        };
        let ghost subs0 = self.subscribers@;
        let ghost toks0 = self.tokens@;
        self.subscribers.push(row);
        self.model = Ghost(m1);
        proof {
            let subs = self.subscribers@;
            let toks = self.tokens@;
            assert forall|i: int|
                #![trigger toks[i]]
                0 <= i < toks.len() implies m1.tokens.contains_key(toks[i].token@)
                && m1.tokens[toks[i].token@] == toks[i].subscriber_id by {
                assert(toks0[i] == toks0[i]);
            }
            assert forall|t: Seq<char>| #[trigger]
                m1.tokens.contains_key(t) implies exists|i: int|
                0 <= i < toks.len() && #[trigger] toks[i].token@ == t by {
                assert(m0.tokens.contains_key(t));
            }
            assert(subs[subs.len() - 1] == row);
            assert forall|i: int| 0 <= i < subs0.len() implies #[trigger] subs[i] == subs0[i] by {}
            assert forall|i: int|
                #![trigger subs[i]]
                0 <= i < subs.len() implies m1.subscribers.contains_key(subs[i].id)
                && m1.subscribers[subs[i].id] == model_of(subs[i]) by {
                if i < subs0.len() {
                    assert(subs0[i] == subs0[i]);
                }
            }
            assert forall|t: Seq<char>| #[trigger]
                m1.tokens.contains_key(t) implies m1.subscribers.contains_key(m1.tokens[t]) by {
                assert(m0.tokens.contains_key(t));
            }
            assert forall|i: int, j: int|
                #![trigger subs[i], subs[j]]
                0 <= i < subs.len() && 0 <= j < subs.len() && i != j implies subs[i].id
                != subs[j].id by {
                if i < subs0.len() {
                    assert(subs0[i] == subs0[i]);
                }
                if j < subs0.len() {
                    assert(subs0[j] == subs0[j]);
                }
            }
            assert forall|id2: u128| #[trigger] m1.subscribers.contains_key(id2) implies exists|i: int|
                0 <= i < subs.len() && #[trigger] subs[i].id == id2 by {
                if id2 == id {
                    assert(subs[subs.len() - 1].id == id2);
                } else {
                    let j = choose|j: int| 0 <= j < subs0.len() && #[trigger] subs0[j].id == id2;
                    assert(subs[j].id == id2);
                }
            }
            assert forall|a: u128, b: u128|
                #![trigger m1.subscribers[a], m1.subscribers[b]]
                m1.subscribers.contains_key(a) && m1.subscribers.contains_key(b)
                    && m1.subscribers[a].email == m1.subscribers[b].email implies a == b by {
                if a != id && b != id {
                    assert(m0.subscribers[a] == m0.subscribers[a]);
                    assert(m0.subscribers[b] == m0.subscribers[b]);
                } else if a == id && b != id {
                    assert(m0.subscribers.contains_key(b) && m0.subscribers[b].email == email@);
                } else if a != id && b == id {
                    assert(m0.subscribers.contains_key(a) && m0.subscribers[a].email == email@);
                }
            }
            assert forall|t1: Seq<char>, t2: Seq<char>|
                #![trigger m1.tokens[t1], m1.tokens[t2]]
                m1.tokens.contains_key(t1) && m1.tokens.contains_key(t2) && m1.tokens[t1]
                    == m1.tokens[t2] implies t1 == t2 by {
                assert(m0.tokens[t1] == m0.tokens[t2]);
            }
        }
    }

    /// Insert-or-get by e-mail address, inside a transaction.
    pub fn insert_or_get(&mut self, email: &String, name: &String, fresh_id: u128) -> (r: Result<
        u128,
        StorageError,
    >)
        requires
            old(self).wf(),
        ensures
            final(self).wf(),
            match old(self)@.insert_or_get(email@, name@, fresh_id) {
                Some((m, id)) => r == Ok::<u128, StorageError>(id) && final(self)@ == m,
                None => r == Err::<u128, StorageError>(StorageError::DuplicateSubscriberId)
                    && final(self)@ == old(self)@,
            },
    {
        match self.find_by_email(email) {
            Some(id) => Ok(id),
            None => {
                if self.position_of(fresh_id).is_some() {
                    Err(StorageError::DuplicateSubscriberId)
                } else {
                    self.insert_pending(fresh_id, email, name);
                    Ok(fresh_id)
                }
            },
        }
    }

    /// Get-or-create of a subscriber's token, inside a transaction.
    pub fn get_or_create_token(&mut self, id: u128, fresh: String) -> (r: Result<
        String,
        StorageError,
    >)
        requires
            old(self).wf(),
        ensures
            final(self).wf(),
            match old(self)@.get_or_create_token(id, fresh@) {
                Some((m, t)) => r matches Ok(s) && s@ == t && final(self)@ == m,
                None => r is Err && final(self)@ == old(self)@,
            },
            r matches Err(e) ==> (e == StorageError::UnknownSubscriber <==> !old(
                self,
            )@.subscribers.contains_key(id)),
    {
        match self.get_token(id) {
            Some(t) => Ok(t),
            None => {
                if self.position_of(id).is_none() {
                    return Err(StorageError::UnknownSubscriber);
                }
                if self.owner_of_token(&fresh).is_some() {
                    return Err(StorageError::DuplicateToken);
                }
                let ghost m0 = self@;
                let ghost m1 = StoreModel {
                    subscribers: m0.subscribers,
                    tokens: m0.tokens.insert(fresh@, id),
                };
                let ghost toks0 = self.tokens@;
                let entry = TokenEntry { token: fresh.clone(), subscriber_id: id };
                self.tokens.push(entry);
                self.model = Ghost(m1);
                proof {
                    let toks = self.tokens@;
                    assert(toks[toks.len() - 1] == entry);
                    assert forall|i: int| 0 <= i < toks0.len() implies #[trigger] toks[i]
                        == toks0[i] by {}
                    assert forall|t: Seq<char>| #[trigger] m1.tokens.contains_key(t) implies exists|
                        i: int,
                    |
                        0 <= i < toks.len() && #[trigger] toks[i].token@ == t by {
                        if t == fresh@ {
                            assert(toks[toks.len() - 1].token@ == t);
                        } else {
                            let j = choose|j: int|
                                0 <= j < toks0.len() && #[trigger] toks0[j].token@ == t;
                            assert(toks[j].token@ == t);
                        }
                    }
                    assert forall|t1: Seq<char>, t2: Seq<char>|
                        #![trigger m1.tokens[t1], m1.tokens[t2]]
                        m1.tokens.contains_key(t1) && m1.tokens.contains_key(t2) && m1.tokens[t1]
                            == m1.tokens[t2] implies t1 == t2 by {
                        if t1 != fresh@ && t2 != fresh@ {
                            assert(m0.tokens[t1] == m0.tokens[t2]);
                        } else if t1 == fresh@ && t2 != fresh@ {
                            assert(m0.tokens.contains_key(t2) && m0.tokens[t2] == id);
                        } else if t1 != fresh@ && t2 == fresh@ {
                            assert(m0.tokens.contains_key(t1) && m0.tokens[t1] == id);
                        }
                    }
                    assert forall|t: Seq<char>| #[trigger]
                        m1.tokens.contains_key(t) implies m1.subscribers.contains_key(
                        m1.tokens[t],
                    ) by {
                        if t != fresh@ {
                            assert(m0.tokens.contains_key(t));
                        }
                    }
                }
                Ok(fresh)
            },
        }
    }

    /// The conditional update "confirm where pending": marks the subscriber
    /// confirmed if it is pending, and tells whether it did.
    pub fn confirm_if_pending(&mut self, id: u128) -> (r: bool)
        requires
            old(self).wf(),
        ensures
            final(self).wf(),
            (final(self)@, r) == old(self)@.confirm_if_pending(id),
    {
        match self.position_of(id) {
            None => false,
            Some(i) => {
                if self.subscribers[i].status != SubscriberStatus::PendingConfirmation {
                    return false;
                }
                let ghost m0 = self@;
                let ghost m1 = m0.with_confirmed(id);
                let ghost subs0 = self.subscribers@;
                let ghost toks0 = self.tokens@;
                let mut row = self.subscribers[i].duplicate();
                row.status = SubscriberStatus::Confirmed;
                self.subscribers.set(i, row);
                self.model = Ghost(m1);
                proof {
                    let subs = self.subscribers@;
                    let toks = self.tokens@;
                assert forall|i: int|
                    #![trigger toks[i]]
                    0 <= i < toks.len() implies m1.tokens.contains_key(toks[i].token@)
                    && m1.tokens[toks[i].token@] == toks[i].subscriber_id by {
                    assert(toks0[i] == toks0[i]);
                }
                assert forall|t: Seq<char>| #[trigger]
                    m1.tokens.contains_key(t) implies exists|i: int|
                    0 <= i < toks.len() && #[trigger] toks[i].token@ == t by {
                    assert(m0.tokens.contains_key(t));
                }
                    assert(model_of(subs[i as int]) == m1.subscribers[id]);
                    assert forall|k: int| 0 <= k < subs.len() && k != i implies #[trigger] subs[k]
                        == subs0[k] by {}
                    assert forall|k: int, j: int|
                        #![trigger subs[k], subs[j]]
                        0 <= k < subs.len() && 0 <= j < subs.len() && k != j implies subs[k].id
                        != subs[j].id by {
                        assert(subs0[k] == subs0[k]);
                        assert(subs0[j] == subs0[j]);
                    }
                    assert forall|k: int|
                        #![trigger subs[k]]
                        0 <= k < subs.len() implies m1.subscribers.contains_key(subs[k].id)
                        && m1.subscribers[subs[k].id] == model_of(subs[k]) by {
                        if k != i {
                            assert(subs0[k] == subs0[k]);
                            assert(subs0[i as int] == subs0[i as int]);
                        }
                    }
                    assert forall|id2: u128| #[trigger]
                        m1.subscribers.contains_key(id2) implies exists|k: int|
                        0 <= k < subs.len() && #[trigger] subs[k].id == id2 by {
                        let j = choose|j: int| 0 <= j < subs0.len() && #[trigger] subs0[j].id == id2;
                        assert(subs[j].id == id2);
                    }
                    assert forall|a: u128, b: u128|
                        #![trigger m1.subscribers[a], m1.subscribers[b]]
                        m1.subscribers.contains_key(a) && m1.subscribers.contains_key(b)
                            && m1.subscribers[a].email == m1.subscribers[b].email implies a == b by {
                        assert(m0.subscribers[a] == m0.subscribers[a]);
                        assert(m0.subscribers[b] == m0.subscribers[b]);
                    }
                    assert forall|t1: Seq<char>, t2: Seq<char>|
                        #![trigger m1.tokens[t1], m1.tokens[t2]]
                        m1.tokens.contains_key(t1) && m1.tokens.contains_key(t2) && m1.tokens[t1]
                            == m1.tokens[t2] implies t1 == t2 by {
                        assert(m0.tokens[t1] == m0.tokens[t2]);
                    }
                    assert forall|t: Seq<char>| #[trigger]
                        m1.tokens.contains_key(t) implies m1.subscribers.contains_key(
                        m1.tokens[t],
                    ) by {
                        assert(m0.tokens.contains_key(t));
                    }
                }
                true
            },
        }
    }
}

} // verus!

//! The subscriber store: sole authority over persisted subscription state.
//!
//! The store keeps the logical schema of the service — a `subscriptions`
//! table and a `subscription_tokens` table — and maintains the persistence
//! invariants: subscriber ids are unique, token strings are unique, and
//! every token references a subscriber that exists. Creating a pending
//! subscriber together with its confirmation token is atomic: either both
//! rows exist afterwards or neither does.

use crate::domain::{NewSubscriber, SubscriberEmail, SubscriberName};
use vstd::prelude::*;

verus! {

/// Status of a persisted subscription.
///
/// The only transition is `PendingConfirmation -> Confirmed`; confirming an
/// already confirmed subscriber leaves it `Confirmed` (idempotent), and no
/// transition ever reverts to `PendingConfirmation`.
#[derive(Clone, Copy, Debug, PartialEq, Eq, Structural)]
pub enum SubscriberStatus {
    PendingConfirmation,
    Confirmed,
}

impl SubscriberStatus {
    /// The textual form used by the persisted schema.
    pub fn as_str(&self) -> (r: &'static str)
        ensures
            self is PendingConfirmation ==> r@ == "pending_confirmation"@,
            self is Confirmed ==> r@ == "confirmed"@,
    {
        match self {
            SubscriberStatus::PendingConfirmation => "pending_confirmation",
            SubscriberStatus::Confirmed => "confirmed",
        }
    }
}

/// A row of the `subscriptions` table.
#[derive(Debug)]
pub struct SubscriberRow {
    /// Opaque unique identifier, generated at creation, immutable.
    pub id: u128,
    /// Validated email value.
    pub email: SubscriberEmail,
    /// Validated display name.
    pub name: SubscriberName,
    /// Creation timestamp (milliseconds), set once.
    pub subscribed_at: i64,
    /// Confirmation status.
    pub status: SubscriberStatus,
}

/// A row of the `subscription_tokens` table.
///
/// A token has no expiry and no single-issuance guarantee per subscriber:
/// it stays valid until redeemed, and a re-registration issues a fresh
/// token without invalidating older ones. Both are known limitations,
/// recorded here deliberately rather than silently tightened.
#[derive(Debug)]
pub struct TokenRow {
    /// Opaque unique string, the primary lookup key.
    pub subscription_token: String,
    /// The subscriber the token was issued for.
    pub subscriber_id: u128,
}

/// A failure of the persistence layer.
#[derive(Clone, Copy, Debug, PartialEq, Eq, Structural)]
pub enum PersistenceError {
    /// The generated subscriber id already exists; the caller may retry
    /// with a fresh id.
    DuplicateId,
    /// The token string already exists; the caller must re-invoke the
    /// token generator if it retries.
    TokenCollision,
    /// The referenced subscriber does not exist.
    UnknownSubscriber,
}

/// Some row of `subs` carries the id `id`.
pub open spec fn id_known(subs: Seq<SubscriberRow>, id: u128) -> bool {
    exists|i: int| 0 <= i < subs.len() && (#[trigger] subs[i]).id == id
}

/// Some row of `tokens` carries the token string `t`.
pub open spec fn token_known(tokens: Seq<TokenRow>, t: Seq<char>) -> bool {
    exists|i: int| 0 <= i < tokens.len() && (#[trigger] tokens[i]).subscription_token@ == t
}

/// Some row of `tokens` links the token string `t` to subscriber `id`.
pub open spec fn token_resolves_to(tokens: Seq<TokenRow>, t: Seq<char>, id: u128) -> bool {
    exists|i: int|
        0 <= i < tokens.len() && (#[trigger] tokens[i]).subscription_token@ == t
            && tokens[i].subscriber_id == id
}

/// No two rows of `subs` share an id.
pub open spec fn ids_unique(subs: Seq<SubscriberRow>) -> bool {
    forall|i: int, j: int|
        0 <= i < j < subs.len() ==> (#[trigger] subs[i]).id != (#[trigger] subs[j]).id
}

/// No two rows of `tokens` share a token string.
pub open spec fn tokens_unique(tokens: Seq<TokenRow>) -> bool {
    forall|i: int, j: int|
        0 <= i < j < tokens.len() ==> (#[trigger] tokens[i]).subscription_token@ != (
        #[trigger] tokens[j]).subscription_token@
}

/// Every token row references a subscriber row that exists.
pub open spec fn tokens_reference_subscribers(
    subs: Seq<SubscriberRow>,
    tokens: Seq<TokenRow>,
) -> bool {
    forall|i: int|
        0 <= i < tokens.len() ==> id_known(subs, (#[trigger] tokens[i]).subscriber_id)
}

/// `row` after a confirmation of subscriber `id`: the status flips to
/// `Confirmed` on the matching row and nothing else changes.
pub open spec fn confirm_row(row: SubscriberRow, id: u128) -> SubscriberRow {
    if row.id == id {
        SubscriberRow { status: SubscriberStatus::Confirmed, ..row }
    } else {
        row
    }
}

/// The `subscriptions` table after a confirmation of subscriber `id`.
pub open spec fn confirm_in(subs: Seq<SubscriberRow>, id: u128) -> Seq<SubscriberRow> {
    subs.map_values(|row: SubscriberRow| confirm_row(row, id))
}

/// Law: confirming a subscriber flips exactly the owner's status to
/// `Confirmed` and leaves every other row — and every other field of the
/// owner's row — untouched.
pub proof fn confirmation_confirms_exactly_the_owner(subs: Seq<SubscriberRow>, id: u128)
    ensures
        confirm_in(subs, id).len() == subs.len(),
        forall|j: int|
            0 <= j < subs.len() && (#[trigger] subs[j]).id == id ==> confirm_in(subs, id)[j]
                == (SubscriberRow { status: SubscriberStatus::Confirmed, ..subs[j] }),
        forall|j: int|
            0 <= j < subs.len() && (#[trigger] subs[j]).id != id ==> confirm_in(subs, id)[j]
                == subs[j],
{
}

/// Law: a confirmation is idempotent — applying the transition a second
/// time for the same subscriber changes nothing.
pub proof fn confirmation_is_idempotent(subs: Seq<SubscriberRow>, id: u128)
    ensures
        confirm_in(confirm_in(subs, id), id) == confirm_in(subs, id),
{
    let once = confirm_in(subs, id);
    let twice = confirm_in(once, id);
    assert forall|j: int| 0 <= j < subs.len() implies twice[j] == once[j] by {
        assert(once[j] == confirm_row(subs[j], id));
        assert(twice[j] == confirm_row(once[j], id));
    }
    assert(twice =~= once);
}

proof fn lemma_push_preserves_ids_unique(subs: Seq<SubscriberRow>, row: SubscriberRow)
    requires
        ids_unique(subs),
        !id_known(subs, row.id),
    ensures
        ids_unique(subs.push(row)),
{
    let pushed = subs.push(row);
    assert forall|i: int, j: int| 0 <= i < j < pushed.len() implies pushed[i].id != pushed[j].id by {
        if j < subs.len() {
            assert(subs[i].id != subs[j].id);
        } else {
            assert(pushed[i] == subs[i]);
            assert(pushed[j] == row);
        }
    }
}

proof fn lemma_push_preserves_tokens_unique(tokens: Seq<TokenRow>, tok: TokenRow)
    requires
        tokens_unique(tokens),
        !token_known(tokens, tok.subscription_token@),
    ensures
        tokens_unique(tokens.push(tok)),
{
    let pushed = tokens.push(tok);
    assert forall|i: int, j: int|
        0 <= i < j < pushed.len() implies pushed[i].subscription_token@
        != pushed[j].subscription_token@ by {
        if j < tokens.len() {
            assert(tokens[i].subscription_token@ != tokens[j].subscription_token@);
        } else {
            assert(pushed[i] == tokens[i]);
            assert(pushed[j] == tok);
        }
    }
}

proof fn lemma_push_subscriber_preserves_references(
    subs: Seq<SubscriberRow>,
    tokens: Seq<TokenRow>,
    row: SubscriberRow,
)
    requires
        tokens_reference_subscribers(subs, tokens),
    ensures
        tokens_reference_subscribers(subs.push(row), tokens),
{
    let pushed = subs.push(row);
    assert forall|i: int| 0 <= i < tokens.len() implies id_known(
        pushed,
        (#[trigger] tokens[i]).subscriber_id,
    ) by {
        let t_id = tokens[i].subscriber_id;
        assert(id_known(subs, t_id));
        let j = choose|j: int| 0 <= j < subs.len() && (#[trigger] subs[j]).id == t_id;
        assert(pushed[j].id == t_id);
    }
}

proof fn lemma_push_token_preserves_references(
    subs: Seq<SubscriberRow>,
    tokens: Seq<TokenRow>,
    tok: TokenRow,
)
    requires
        tokens_reference_subscribers(subs, tokens),
        id_known(subs, tok.subscriber_id),
    ensures
        tokens_reference_subscribers(subs, tokens.push(tok)),
{
    let pushed = tokens.push(tok);
    assert forall|i: int| 0 <= i < pushed.len() implies id_known(
        subs,
        (#[trigger] pushed[i]).subscriber_id,
    ) by {
        if i < tokens.len() {
            assert(pushed[i] == tokens[i]);
            assert(id_known(subs, tokens[i].subscriber_id));
        } else {
            assert(pushed[i] == tok);
        }
    }
}

/// Law: two registrations with distinct ids and distinct tokens produce
/// independent, non-interfering subscriber/token pairs — after both are
/// persisted, each token still resolves to its own subscriber and all the
/// store invariants hold.
pub proof fn independent_registrations_do_not_interfere(
    subs: Seq<SubscriberRow>,
    tokens: Seq<TokenRow>,
    row1: SubscriberRow,
    tok1: TokenRow,
    row2: SubscriberRow,
    tok2: TokenRow,
)
    requires
        ids_unique(subs),
        tokens_unique(tokens),
        tokens_reference_subscribers(subs, tokens),
        tok1.subscriber_id == row1.id,
        tok2.subscriber_id == row2.id,
        row1.id != row2.id,
        tok1.subscription_token@ != tok2.subscription_token@,
        !id_known(subs, row1.id),
        !id_known(subs, row2.id),
        !token_known(tokens, tok1.subscription_token@),
        !token_known(tokens, tok2.subscription_token@),
    ensures
        ids_unique(subs.push(row1).push(row2)),
        tokens_unique(tokens.push(tok1).push(tok2)),
        tokens_reference_subscribers(subs.push(row1).push(row2), tokens.push(tok1).push(tok2)),
        token_resolves_to(tokens.push(tok1).push(tok2), tok1.subscription_token@, row1.id),
        token_resolves_to(tokens.push(tok1).push(tok2), tok2.subscription_token@, row2.id),
{
    let subs1 = subs.push(row1);
    let tokens1 = tokens.push(tok1);
    lemma_push_preserves_ids_unique(subs, row1);
    assert(!id_known(subs1, row2.id)) by {
        assert forall|i: int| 0 <= i < subs1.len() implies (#[trigger] subs1[i]).id != row2.id by {
            if i < subs.len() {
                assert(subs1[i] == subs[i]);
            }
        }
    }
    lemma_push_preserves_ids_unique(subs1, row2);
    lemma_push_preserves_tokens_unique(tokens, tok1);
    assert(!token_known(tokens1, tok2.subscription_token@)) by {
        assert forall|i: int|
            0 <= i < tokens1.len() implies (#[trigger] tokens1[i]).subscription_token@
            != tok2.subscription_token@ by {
            if i < tokens.len() {
                assert(tokens1[i] == tokens[i]);
            }
        }
    }
    lemma_push_preserves_tokens_unique(tokens1, tok2);
    lemma_push_subscriber_preserves_references(subs, tokens, row1);
    assert(id_known(subs1, tok1.subscriber_id)) by {
        assert(subs1[subs.len() as int] == row1);
    }
    lemma_push_token_preserves_references(subs1, tokens, tok1);
    lemma_push_subscriber_preserves_references(subs1, tokens1, row2);
    let subs2 = subs1.push(row2);
    assert(id_known(subs2, tok2.subscriber_id)) by {
        assert(subs2[subs1.len() as int] == row2);
    }
    lemma_push_token_preserves_references(subs2, tokens1, tok2);
    let tokens2 = tokens1.push(tok2);
    assert(tokens2[tokens.len() as int] == tok1);
    assert(tokens2[tokens1.len() as int] == tok2);
}

/// Compares two strings by their character sequences.
fn str_eq(a: &str, b: &str) -> (r: bool)
    ensures
        r == (a@ == b@),
{
    let n = a.unicode_len();
    if n != b.unicode_len() {
        return false;
    }
    let mut i: usize = 0;
    while i < n
        invariant
            n == a@.len(),
            n == b@.len(),
            0 <= i <= n,
            forall|j: int| 0 <= j < i ==> a@[j] == b@[j],
        decreases n - i,
    {
        if a.get_char(i) != b.get_char(i) {
            return false;
        }
        i += 1;
    }
    proof {
        assert(a@ =~= b@);
    }
    true
}

/// The transactional persistence boundary: both tables of the logical
/// schema, together with their invariants.
pub struct SubscriberStore {
    subscriptions: Vec<SubscriberRow>,
    subscription_tokens: Vec<TokenRow>,
}

impl SubscriberStore {
    /// The rows of the `subscriptions` table, oldest first.
    pub closed spec fn subscriptions(self) -> Seq<SubscriberRow> {
        self.subscriptions@
    }

    /// The rows of the `subscription_tokens` table, oldest first.
    pub closed spec fn tokens(self) -> Seq<TokenRow> {
        self.subscription_tokens@
    }

    /// The store invariants: unique ids, unique token strings, and no
    /// token without its subscriber.
    pub open spec fn wf(self) -> bool {
        &&& ids_unique(self.subscriptions())
        &&& tokens_unique(self.tokens())
        &&& tokens_reference_subscribers(self.subscriptions(), self.tokens())
    }

    /// An empty store.
    pub fn new() -> (s: SubscriberStore)
        ensures
            s.wf(),
            s.subscriptions() == Seq::<SubscriberRow>::empty(),
            s.tokens() == Seq::<TokenRow>::empty(),
    {
        SubscriberStore { subscriptions: Vec::new(), subscription_tokens: Vec::new() }
    }

    /// How many subscriber rows the store holds.
    pub fn subscription_count(&self) -> (n: usize)
        ensures
            n == self.subscriptions().len(),
    {
        self.subscriptions.len()
    }

    /// The subscriber row at position `i`.
    pub fn subscription_at(&self, i: usize) -> (r: &SubscriberRow)
        requires
            i < self.subscriptions().len(),
        ensures
            *r == self.subscriptions()[i as int],
    {
        &self.subscriptions[i]
    }

    /// How many token rows the store holds.
    pub fn token_count(&self) -> (n: usize)
        ensures
            n == self.tokens().len(),
    {
        self.subscription_tokens.len()
    }

    /// The token row at position `i`.
    pub fn token_at(&self, i: usize) -> (r: &TokenRow)
        requires
            i < self.tokens().len(),
        ensures
            *r == self.tokens()[i as int],
    {
        &self.subscription_tokens[i]
    }

    fn id_exists(&self, subscriber_id: u128) -> (r: bool)
        ensures
            r == id_known(self.subscriptions(), subscriber_id),
    {
        let n = self.subscriptions.len();
        let mut i: usize = 0;
        while i < n
            invariant
                n == self.subscriptions().len(),
                0 <= i <= n,
                forall|j: int| 0 <= j < i ==> (#[trigger] self.subscriptions()[j]).id
                    != subscriber_id,
            decreases n - i,
        {
            if self.subscriptions[i].id == subscriber_id {
                return true;
            }
            i += 1;
        }
        false
    }

    fn token_exists(&self, subscription_token: &str) -> (r: bool)
        ensures
            r == token_known(self.tokens(), subscription_token@),
    {
        let n = self.subscription_tokens.len();
        let mut i: usize = 0;
        while i < n
            invariant
                n == self.tokens().len(),
                0 <= i <= n,
                forall|j: int| 0 <= j < i ==> (#[trigger] self.tokens()[j]).subscription_token@
                    != subscription_token@,
            decreases n - i,
        {
            if str_eq(self.subscription_tokens[i].subscription_token.as_str(), subscription_token) {
                return true;
            }
            i += 1;
        }
        false
    }

    /// Inserts a new subscriber row with status `pending_confirmation`.
    ///
    /// The row is inserted unconditionally for the given id: the store does
    /// not deduplicate emails. Whether a re-registration of a known email
    /// should be rejected or issue a fresh token is a policy deliberately
    /// left open and recorded here.
    pub fn insert_subscriber(
        &mut self,
        new_subscriber: &NewSubscriber,
        subscriber_id: u128,
        subscribed_at: i64,
    ) -> (r: Result<(), PersistenceError>)
        requires
            old(self).wf(),
        ensures
            final(self).wf(),
            final(self).tokens() == old(self).tokens(),
            r is Ok <==> !id_known(old(self).subscriptions(), subscriber_id),
            r is Err ==> final(self).subscriptions() == old(self).subscriptions() && r == Err::<
                (),
                PersistenceError,
            >(PersistenceError::DuplicateId),
            r is Ok ==> final(self).subscriptions() == old(self).subscriptions().push(
                (SubscriberRow {
                    id: subscriber_id,
                    email: new_subscriber.email,
                    name: new_subscriber.name,
                    subscribed_at,
                    status: SubscriberStatus::PendingConfirmation,
                }),
            ),
    {
        if self.id_exists(subscriber_id) {
            return Err(PersistenceError::DuplicateId);
        }
        let row = SubscriberRow {
            id: subscriber_id,
            email: new_subscriber.email.clone(),
            name: new_subscriber.name.clone(),
            subscribed_at,
            status: SubscriberStatus::PendingConfirmation,
        };
        proof {
            lemma_push_preserves_ids_unique(self.subscriptions(), row);
            lemma_push_subscriber_preserves_references(
                self.subscriptions(),
                self.tokens(),
                row,
            );
        }
        self.subscriptions.push(row);
        Ok(())
    }

    /// Inserts a confirmation token row for an existing subscriber; fails
    /// with `TokenCollision` if the token string already exists.
    pub fn store_token(&mut self, subscriber_id: u128, subscription_token: String) -> (r: Result<
        (),
        PersistenceError,
    >)
        requires
            old(self).wf(),
        ensures
            final(self).wf(),
            final(self).subscriptions() == old(self).subscriptions(),
            r is Ok <==> (!token_known(old(self).tokens(), subscription_token@) && id_known(
                old(self).subscriptions(),
                subscriber_id,
            )),
            token_known(old(self).tokens(), subscription_token@) ==> r == Err::<
                (),
                PersistenceError,
            >(PersistenceError::TokenCollision),
            !token_known(old(self).tokens(), subscription_token@) && !id_known(
                old(self).subscriptions(),
                subscriber_id,
            ) ==> r == Err::<(), PersistenceError>(PersistenceError::UnknownSubscriber),
            r is Err ==> final(self).tokens() == old(self).tokens(),
            r is Ok ==> final(self).tokens() == old(self).tokens().push(
                (TokenRow { subscription_token, subscriber_id }),
            ),
    {
        if self.token_exists(subscription_token.as_str()) {
            return Err(PersistenceError::TokenCollision);
        }
        if !self.id_exists(subscriber_id) {
            return Err(PersistenceError::UnknownSubscriber);
        }
        let tok = TokenRow { subscription_token, subscriber_id };
        proof {
            lemma_push_preserves_tokens_unique(self.tokens(), tok);
            lemma_push_token_preserves_references(self.subscriptions(), self.tokens(), tok);
        }
        self.subscription_tokens.push(tok);
        Ok(())
    }

    /// Creates a pending subscriber row and its confirmation token row as
    /// one atomic unit: either both rows exist afterwards or neither does.
    pub fn create_pending_subscriber_with_token(
        &mut self,
        new_subscriber: &NewSubscriber,
        subscriber_id: u128,
        subscription_token: String,
        subscribed_at: i64,
    ) -> (r: Result<(), PersistenceError>)
        requires
            old(self).wf(),
        ensures
            final(self).wf(),
            r is Ok <==> (!id_known(old(self).subscriptions(), subscriber_id) && !token_known(
                old(self).tokens(),
                subscription_token@,
            )),
            id_known(old(self).subscriptions(), subscriber_id) ==> r == Err::<
                (),
                PersistenceError,
            >(PersistenceError::DuplicateId),
            !id_known(old(self).subscriptions(), subscriber_id) && token_known(
                old(self).tokens(),
                subscription_token@,
            ) ==> r == Err::<(), PersistenceError>(PersistenceError::TokenCollision),
            r is Err ==> final(self).subscriptions() == old(self).subscriptions()
                && final(self).tokens() == old(self).tokens(),
            r is Ok ==> final(self).subscriptions() == old(self).subscriptions().push(
                (SubscriberRow {
                    id: subscriber_id,
                    email: new_subscriber.email,
                    name: new_subscriber.name,
                    subscribed_at,
                    status: SubscriberStatus::PendingConfirmation,
                }),
            ) && final(self).tokens() == old(self).tokens().push(
                (TokenRow { subscription_token, subscriber_id }),
            ),
    {
        match self.insert_subscriber(new_subscriber, subscriber_id, subscribed_at) {
            Err(e) => {
                return Err(e);
            },
            Ok(()) => {},
        }
        match self.store_token(subscriber_id, subscription_token) {
            Ok(()) => Ok(()),
            Err(e) => {
                // the transaction rolls back: the subscriber row inserted
                // above is withdrawn, so no partial state remains
                let _ = self.subscriptions.pop();
                proof {
                    assert(self.subscriptions@ =~= old(self).subscriptions());
                }
                Err(e)
            },
        }
    }

    /// Looks up the subscriber a token was issued for; a point lookup with
    /// no state change.
    pub fn get_subscription_id(&self, subscription_token: &str) -> (r: Option<u128>)
        ensures
            r is Some <==> token_known(self.tokens(), subscription_token@),
            r matches Some(id) ==> token_resolves_to(self.tokens(), subscription_token@, id),
    {
        let n = self.subscription_tokens.len();
        let mut i: usize = 0;
        while i < n
            invariant
                n == self.tokens().len(),
                0 <= i <= n,
                forall|j: int| 0 <= j < i ==> (#[trigger] self.tokens()[j]).subscription_token@
                    != subscription_token@,
            decreases n - i,
        {
            if str_eq(self.subscription_tokens[i].subscription_token.as_str(), subscription_token) {
                return Some(self.subscription_tokens[i].subscriber_id);
            }
            i += 1;
        }
        None
    }

    /// Sets the status of subscriber `subscriber_id` to `confirmed`.
    /// Idempotent: confirming an already confirmed subscriber succeeds and
    /// changes nothing further.
    pub fn confirm_subscriber(&mut self, subscriber_id: u128) -> (r: Result<(), PersistenceError>)
        requires
            old(self).wf(),
        ensures
            final(self).wf(),
            final(self).tokens() == old(self).tokens(),
            r is Ok <==> id_known(old(self).subscriptions(), subscriber_id),
            r is Err ==> final(self).subscriptions() == old(self).subscriptions() && r == Err::<
                (),
                PersistenceError,
            >(PersistenceError::UnknownSubscriber),
            r is Ok ==> final(self).subscriptions() == confirm_in(
                old(self).subscriptions(),
                subscriber_id,
            ),
    {
        let n = self.subscriptions.len();
        let mut i: usize = 0;
        while i < n
            invariant
                old(self).wf(),
                *self == *old(self),
                n == self.subscriptions().len(),
                0 <= i <= n,
                forall|j: int| 0 <= j < i ==> (#[trigger] self.subscriptions()[j]).id
                    != subscriber_id,
            decreases n - i,
        {
            if self.subscriptions[i].id == subscriber_id {
                let updated = SubscriberRow {
                    id: subscriber_id,
                    email: self.subscriptions[i].email.clone(),
                    name: self.subscriptions[i].name.clone(),
                    subscribed_at: self.subscriptions[i].subscribed_at,
                    status: SubscriberStatus::Confirmed,
                };
                self.subscriptions.set(i, updated);
                proof {
                    let subs0 = old(self).subscriptions();
                    let subs1 = self.subscriptions@;
                    assert forall|j: int| 0 <= j < subs1.len() implies subs1[j] == confirm_in(
                        subs0,
                        subscriber_id,
                    )[j] by {
                        assert(confirm_in(subs0, subscriber_id)[j] == confirm_row(
                            subs0[j],
                            subscriber_id,
                        ));
                        if j != i {
                            assert(subs1[j] == subs0[j]);
                            if subs0[j].id == subscriber_id {
                                // two distinct rows would share an id
                                assert(false);
                            }
                        }
                    }
                    assert(subs1 =~= confirm_in(subs0, subscriber_id));
                    assert forall|a: int, b: int|
                        0 <= a < b < subs1.len() implies subs1[a].id != subs1[b].id by {
                        assert(subs1[a].id == subs0[a].id);
                        assert(subs1[b].id == subs0[b].id);
                    }
                    assert forall|k: int| 0 <= k < self.tokens().len() implies id_known(
                        subs1,
                        (#[trigger] self.tokens()[k]).subscriber_id,
                    ) by {
                        let t_id = self.tokens()[k].subscriber_id;
                        assert(id_known(subs0, t_id));
                        let w = choose|w: int|
                            0 <= w < subs0.len() && (#[trigger] subs0[w]).id == t_id;
                        assert(subs1[w].id == t_id);
                    }
                }
                return Ok(());
            }
            i += 1;
        }
        Err(PersistenceError::UnknownSubscriber)
    }
}

} // verus!

//! The subscription lifecycle: subscribe, verify, unsubscribe. Each handler
//! is a transition on the subscription store, stated as a spec-level
//! transition function and proved against it; the laws at the end relate the
//! transitions to one another.

use vstd::prelude::*;

verus! {

use crate::repository::SubscriberStore;
use crate::repository::StoreModel;
use crate::repository::SubscriberModel;
use crate::repository::TokenModel;
use crate::repository::email_present;
use crate::repository::token_lookup;
use crate::repository::sub_lookup;
use crate::repository::mark_verified;
use crate::repository::without_token;
use crate::repository::without_subscriber;
use crate::repository::keep_token;
use crate::repository::new_row_id;
use crate::subscriber::NewSubscriberPayload;
use crate::subscriber::Parameters;
use crate::subscriber::SubscribeFormData;
use crate::subscriber::is_valid_email;
use crate::service::generate_subcription_token;
use crate::service::is_token_char;
use crate::text::contains_seq;
use crate::text::str_contains;
use crate::text::str_eq;

/// What a subscribe request came to.
#[derive(Debug, PartialEq, Eq)]
pub enum SubscribeOutcome {
    /// The submitted email failed validation; nothing was stored.
    InvalidEmail,
    /// The address already has a row; nothing was stored.
    AlreadyRegistered,
    /// A pending subscriber and this verification token were stored.
    Subscribed { token: String },
}

/// What a verification request came to.
#[derive(Clone, Copy, Debug, PartialEq, Eq, Structural)]
pub enum VerifyOutcome {
    /// No token row holds the presented token.
    TokenNotFound,
    /// The token resolved to an id with no subscriber row.
    SubscriberMissing,
    /// The subscriber was verified before this call; nothing changed.
    AlreadyVerified,
    /// The subscriber's flag was flipped to verified by this call.
    NewlyVerified,
}

/// What an unsubscribe request came to.
#[derive(Clone, Copy, Debug, PartialEq, Eq, Structural)]
pub enum DeleteOutcome {
    /// No token row holds the presented token; treated as already deleted.
    AlreadyDeleted,
    /// The token row and its subscriber were removed.
    Deleted,
}

/// The store after a subscribe request was accepted: one pending subscriber
/// row and one token row bound to it.
pub open spec fn subscribe_insert(
    m: StoreModel,
    email: Seq<char>,
    referer: Seq<char>,
    id: Seq<char>,
    token: Seq<char>,
    at: int,
) -> StoreModel {
    StoreModel {
        subscriptions: m.subscriptions.push(
            SubscriberModel { id, email, referer, subscribed_at: at, is_verified: false },
        ),
        tokens: m.tokens.push(TokenModel { token, subscription_id: id }),
    }
}

/// The verify endpoint as a transition: resolve the token, read the flag,
/// and flip it if it was clear.
pub open spec fn verify_transition(m: StoreModel, token: Seq<char>) -> (StoreModel, VerifyOutcome) {
    match token_lookup(m.tokens, token) {
        None => (m, VerifyOutcome::TokenNotFound),
        Some(id) => match sub_lookup(m.subscriptions, id) {
            None => (m, VerifyOutcome::SubscriberMissing),
            Some(s) => if s.is_verified {
                (m, VerifyOutcome::AlreadyVerified)
            } else {
                (
                    StoreModel {
                        subscriptions: mark_verified(m.subscriptions, id),
                        tokens: m.tokens,
                    },
                    VerifyOutcome::NewlyVerified,
                )
            },
        },
    }
}

/// The unsubscribe endpoint as a transition: resolve the token, then drop
/// the token row and the subscriber row together.
pub open spec fn delete_transition(m: StoreModel, token: Seq<char>) -> (StoreModel, DeleteOutcome) {
    match token_lookup(m.tokens, token) {
        None => (m, DeleteOutcome::AlreadyDeleted),
        Some(id) => (
            StoreModel {
                subscriptions: without_subscriber(m.subscriptions, id),
                tokens: without_token(m.tokens, token),
            },
            DeleteOutcome::Deleted,
        ),
    }
}

/// The one origin the subscribe endpoint accepts requests from.
pub fn allowed_origin() -> (r: &'static str)
    ensures
        r@ == "https://mortenvistisen.com"@,
{
    "https://mortenvistisen.com"
}

/// The subscribe endpoint's boundary check: the origin header must equal
/// the allowed origin, and the referer header must mention it. A missing
/// header fails the check.
pub fn check_subscribe_headers(origin: Option<&str>, referer: Option<&str>) -> (r: bool)
    ensures
        r == (origin matches Some(o) && o@ == "https://mortenvistisen.com"@ && (
        referer matches Some(f) && contains_seq(f@, "https://mortenvistisen.com"@))),
{
    match (origin, referer) {
        (Some(o), Some(f)) => {
            let allowed = allowed_origin();
            str_eq(o, allowed) && str_contains(f, allowed)
        },
        _ => false,
    }
}

/// Handles a subscribe request: validate the email, refuse an address that
/// already has a row, otherwise insert a pending subscriber with a fresh id
/// and a fresh 25-character token. An address already present never gains a
/// second row or a second token.
pub fn subscribe(store: &mut SubscriberStore, form: SubscribeFormData) -> (r: SubscribeOutcome)
    ensures
        !is_valid_email(form.email@) ==> r is InvalidEmail && final(store)@ == old(store)@,
        is_valid_email(form.email@) && email_present(old(store)@.subscriptions, form.email@)
            ==> r is AlreadyRegistered && final(store)@ == old(store)@,
        is_valid_email(form.email@) && !email_present(old(store)@.subscriptions, form.email@) ==> (
        r matches SubscribeOutcome::Subscribed { token } && token@.len() == 25 && (forall|i: int|
            0 <= i < token@.len() ==> is_token_char(#[trigger] token@[i])) && (exists|
            id: Seq<char>,
            at: int,
        |
            #![auto]
            id.len() == 36 && final(store)@ == subscribe_insert(
                old(store)@,
                form.email@,
                form.referer@,
                id,
                token@,
                at,
            ))),
{
    let payload = match NewSubscriberPayload::try_from(form) {
        Ok(p) => p,
        Err(_) => {
            return SubscribeOutcome::InvalidEmail;
        },
    };
    if store.does_email_exists(&payload.email) {
        return SubscribeOutcome::AlreadyRegistered;
    }
    let new_sub_id = new_row_id();
    store.create_new_subscriber(&payload.email, payload.referer.as_str(), new_sub_id.as_str());
    let ghost mid = store@;
    let ghost at = choose|at: int|
        mid.subscriptions == old(store)@.subscriptions.push(
            SubscriberModel {
                id: new_sub_id@,
                email: payload.email@,
                referer: payload.referer@,
                subscribed_at: at,
                is_verified: false,
            },
        );
    let new_sub_token = generate_subcription_token();
    store.create_new_subscriber_token(new_sub_id.as_str(), new_sub_token.as_str());
    proof {
        assert(store@ == subscribe_insert(
            old(store)@,
            payload.email@,
            payload.referer@,
            new_sub_id@,
            new_sub_token@,
            at,
        ));
    }
    SubscribeOutcome::Subscribed { token: new_sub_token }
}

/// Handles a verification request; replaying it is harmless, see
/// `lemma_verify_idempotent`.
pub fn verify_subscription(store: &mut SubscriberStore, params: &Parameters) -> (r: VerifyOutcome)
    ensures
        (final(store)@, r) == verify_transition(old(store)@, params.token@),
{
    match store.get_subscriber_id_from_token(params.token.as_str()) {
        None => VerifyOutcome::TokenNotFound,
        Some(id) => match store.is_user_verified(id.as_str()) {
            None => VerifyOutcome::SubscriberMissing,
            Some(true) => VerifyOutcome::AlreadyVerified,
            Some(false) => {
                store.update_email_to_verified(id.as_str());
                VerifyOutcome::NewlyVerified
            },
        },
    }
}

/// Handles an unsubscribe request: an unknown token reads as already
/// deleted, a known one removes the token row and its subscriber.
pub fn delete_subscriber(store: &mut SubscriberStore, params: &Parameters) -> (r: DeleteOutcome)
    ensures
        (final(store)@, r) == delete_transition(old(store)@, params.token@),
{
    match store.get_subscriber_id_from_token(params.token.as_str()) {
        None => DeleteOutcome::AlreadyDeleted,
        Some(id) => {
            store.delete_subscriber_token(params.token.as_str());
            store.delete_subscriber(id.as_str());
            DeleteOutcome::Deleted
        },
    }
}

proof fn lemma_token_lookup_push_fresh(tokens: Seq<TokenModel>, row: TokenModel)
    requires
        token_lookup(tokens, row.token) is None,
    ensures
        token_lookup(tokens.push(row), row.token) == Some(row.subscription_id),
    decreases tokens.len(),
{
    if tokens.len() == 0 {
        assert(tokens.push(row)[0] == row);
    } else {
        assert(tokens.push(row)[0] == tokens[0]);
        assert(tokens.push(row).drop_first() =~= tokens.drop_first().push(row));
        lemma_token_lookup_push_fresh(tokens.drop_first(), row);
    }
}

proof fn lemma_sub_lookup_push_fresh(subs: Seq<SubscriberModel>, row: SubscriberModel)
    requires
        sub_lookup(subs, row.id) is None,
    ensures
        sub_lookup(subs.push(row), row.id) == Some(row),
    decreases subs.len(),
{
    if subs.len() == 0 {
        assert(subs.push(row)[0] == row);
    } else {
        assert(subs.push(row)[0] == subs[0]);
        assert(subs.push(row).drop_first() =~= subs.drop_first().push(row));
        lemma_sub_lookup_push_fresh(subs.drop_first(), row);
    }
}

proof fn lemma_sub_lookup_found(subs: Seq<SubscriberModel>, q: Seq<char>)
    ensures
        sub_lookup(subs, q) matches Some(s) ==> s.id == q,
    decreases subs.len(),
{
    if subs.len() > 0 && subs[0].id != q {
        lemma_sub_lookup_found(subs.drop_first(), q);
    }
}

proof fn lemma_sub_lookup_mark(subs: Seq<SubscriberModel>, id: Seq<char>, q: Seq<char>)
    ensures
        sub_lookup(mark_verified(subs, id), q) == match sub_lookup(subs, q) {
            None => None::<SubscriberModel>,
            Some(s) => Some(
                if s.id == id {
                    SubscriberModel { is_verified: true, ..s }
                } else {
                    s
                },
            ),
        },
    decreases subs.len(),
{
    if subs.len() == 0 {
        assert(mark_verified(subs, id) =~= Seq::<SubscriberModel>::empty());
    } else {
        assert(mark_verified(subs, id)[0] == (if subs[0].id == id {
            SubscriberModel { is_verified: true, ..subs[0] }
        } else {
            subs[0]
        }));
        assert(mark_verified(subs, id).drop_first() =~= mark_verified(subs.drop_first(), id));
        lemma_sub_lookup_mark(subs.drop_first(), id, q);
    }
}

proof fn lemma_token_lookup_none_when_absent(tokens: Seq<TokenModel>, token: Seq<char>)
    requires
        forall|i: int| 0 <= i < tokens.len() ==> #[trigger] tokens[i].token != token,
    ensures
        token_lookup(tokens, token) is None,
    decreases tokens.len(),
{
    if tokens.len() > 0 {
        assert(tokens.drop_first() =~= tokens.subrange(1, tokens.len() as int));
        lemma_token_lookup_none_when_absent(tokens.drop_first(), token);
    }
}

proof fn lemma_without_token_gone(tokens: Seq<TokenModel>, token: Seq<char>)
    ensures
        token_lookup(without_token(tokens, token), token) is None,
{
    let kept = without_token(tokens, token);
    assert forall|i: int| 0 <= i < kept.len() implies #[trigger] kept[i].token != token by {
        tokens.lemma_filter_pred(keep_token(token), i);
    }
    lemma_token_lookup_none_when_absent(kept, token);
}

/// Law: for any store, a subscribe accepted for an address (which the
/// handler performs exactly when the email is valid and not yet present),
/// followed at once by verification with the issued token, ends with that
/// subscriber verified and its referer equal to what was submitted. The
/// generated id and token are assumed not to collide with existing rows;
/// the generator makes such a collision overwhelmingly unlikely but cannot
/// exclude it.
pub proof fn lemma_subscribe_then_verify(
    m: StoreModel,
    email: Seq<char>,
    referer: Seq<char>,
    id: Seq<char>,
    token: Seq<char>,
    at: int,
)
    requires
        token_lookup(m.tokens, token) is None,
        sub_lookup(m.subscriptions, id) is None,
    ensures
        ({
            let m1 = subscribe_insert(m, email, referer, id, token, at);
            let (m2, o) = verify_transition(m1, token);
            &&& o == VerifyOutcome::NewlyVerified
            &&& sub_lookup(m2.subscriptions, id) == Some(
                SubscriberModel { id, email, referer, subscribed_at: at, is_verified: true },
            )
            &&& m2.tokens == m1.tokens
        }),
{
    let row = SubscriberModel { id, email, referer, subscribed_at: at, is_verified: false };
    let trow = TokenModel { token, subscription_id: id };
    let m1 = subscribe_insert(m, email, referer, id, token, at);
    lemma_token_lookup_push_fresh(m.tokens, trow);
    lemma_sub_lookup_push_fresh(m.subscriptions, row);
    lemma_sub_lookup_mark(m1.subscriptions, id, id);
}

/// Law: verification is idempotent. Running the verify transition a second
/// time with the same token changes nothing, and a second run after a
/// successful or already-verified first run reports "already verified".
pub proof fn lemma_verify_idempotent(m: StoreModel, token: Seq<char>)
    ensures
        ({
            let (m1, o1) = verify_transition(m, token);
            let (m2, o2) = verify_transition(m1, token);
            &&& m2 == m1
            &&& (o1 == VerifyOutcome::NewlyVerified || o1 == VerifyOutcome::AlreadyVerified)
                ==> o2 == VerifyOutcome::AlreadyVerified
            &&& o1 == VerifyOutcome::TokenNotFound ==> o2 == VerifyOutcome::TokenNotFound
            &&& o1 == VerifyOutcome::SubscriberMissing ==> o2 == VerifyOutcome::SubscriberMissing
        }),
{
    match token_lookup(m.tokens, token) {
        None => {},
        Some(id) => {
            lemma_sub_lookup_found(m.subscriptions, id);
            match sub_lookup(m.subscriptions, id) {
                None => {},
                Some(s) => {
                    if !s.is_verified {
                        lemma_sub_lookup_mark(m.subscriptions, id, id);
                    }
                },
            }
        },
    }
}

/// Each email address maps to at most one subscriber row.
pub open spec fn emails_unique(subs: Seq<SubscriberModel>) -> bool {
    forall|i: int, j: int|
        0 <= i < j < subs.len() ==> #[trigger] subs[i].email != #[trigger] subs[j].email
}

/// Law (data-model invariant): the existence check before the insert keeps
/// each email on at most one row, so an accepted subscribe request
/// preserves that invariant.
pub proof fn lemma_subscribe_keeps_emails_unique(
    m: StoreModel,
    email: Seq<char>,
    referer: Seq<char>,
    id: Seq<char>,
    token: Seq<char>,
    at: int,
)
    requires
        emails_unique(m.subscriptions),
        !email_present(m.subscriptions, email),
    ensures
        emails_unique(subscribe_insert(m, email, referer, id, token, at).subscriptions),
{
    let subs = subscribe_insert(m, email, referer, id, token, at).subscriptions;
    assert forall|i: int, j: int|
        0 <= i < j < subs.len() implies #[trigger] subs[i].email != #[trigger] subs[j].email by {
        if j == m.subscriptions.len() {
            assert(m.subscriptions[i].email != email);
        }
    }
}

/// Law (data-model invariant): verification rewrites only the verified
/// flag, so it preserves the one-row-per-email invariant.
pub proof fn lemma_verify_keeps_emails_unique(m: StoreModel, token: Seq<char>)
    requires
        emails_unique(m.subscriptions),
    ensures
        emails_unique(verify_transition(m, token).0.subscriptions),
{
    let subs = verify_transition(m, token).0.subscriptions;
    assert forall|i: int, j: int|
        0 <= i < j < subs.len() implies #[trigger] subs[i].email != #[trigger] subs[j].email by {
        assert(subs[i].email == m.subscriptions[i].email);
        assert(subs[j].email == m.subscriptions[j].email);
    }
}

/// Law: after an unsubscribe, the token is gone. Verifying with the same
/// token reads "token not found", and a second unsubscribe reads "already
/// deleted"; neither changes the store further.
pub proof fn lemma_delete_then_not_found(m: StoreModel, token: Seq<char>)
    ensures
        ({
            let (m1, o1) = delete_transition(m, token);
            &&& verify_transition(m1, token) == (m1, VerifyOutcome::TokenNotFound)
            &&& delete_transition(m1, token) == (m1, DeleteOutcome::AlreadyDeleted)
        }),
{
    match token_lookup(m.tokens, token) {
        None => {},
        Some(id) => {
            lemma_without_token_gone(m.tokens, token);
        },
    }
}

} // verus!

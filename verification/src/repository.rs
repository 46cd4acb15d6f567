//! The persistence layer: an in-memory image of the `subscriptions`,
//! `subscription_token` and `user` tables, with one operation per
//! parameterized statement of the relational store.

use vstd::prelude::*;

verus! {

use crate::subscriber::Email;
use crate::text::str_eq;

/// A `subscriptions` row, as the contracts see it.
pub struct SubscriberModel {
    pub id: Seq<char>,
    pub email: Seq<char>,
    pub referer: Seq<char>,
    pub subscribed_at: int,
    pub is_verified: bool,
}

/// A `subscription_token` row, as the contracts see it.
pub struct TokenModel {
    pub token: Seq<char>,
    pub subscription_id: Seq<char>,
}

/// The two subscription tables together.
pub struct StoreModel {
    pub subscriptions: Seq<SubscriberModel>,
    pub tokens: Seq<TokenModel>,
}

/// A `subscriptions` row.
pub struct Subscriber {
    pub id: String,
    pub email: String,
    pub referer: String,
    pub subscribed_at: i64,
    pub is_verified: bool,
}

impl View for Subscriber {
    type V = SubscriberModel;

    open spec fn view(&self) -> SubscriberModel {
        SubscriberModel {
            id: self.id@,
            email: self.email@,
            referer: self.referer@,
            subscribed_at: self.subscribed_at as int,
            is_verified: self.is_verified,
        }
    }
}

/// A `subscription_token` row.
pub struct SubscriptionToken {
    pub subscription_token: String,
    pub subscription_id: String,
}

impl View for SubscriptionToken {
    type V = TokenModel;

    open spec fn view(&self) -> TokenModel {
        TokenModel { token: self.subscription_token@, subscription_id: self.subscription_id@ }
    }
}

/// Some row holds this email address.
pub open spec fn email_present(subs: Seq<SubscriberModel>, email: Seq<char>) -> bool {
    exists|i: int| 0 <= i < subs.len() && #[trigger] subs[i].email == email
}

/// The subscriber id of the first row holding this token, if any.
pub open spec fn token_lookup(tokens: Seq<TokenModel>, token: Seq<char>) -> Option<Seq<char>>
    decreases tokens.len(),
{
    if tokens.len() == 0 {
        None
    } else if tokens[0].token == token {
        Some(tokens[0].subscription_id)
    } else {
        token_lookup(tokens.drop_first(), token)
    }
}

/// The first subscriber row with this id, if any.
pub open spec fn sub_lookup(subs: Seq<SubscriberModel>, id: Seq<char>) -> Option<SubscriberModel>
    decreases subs.len(),
{
    if subs.len() == 0 {
        None
    } else if subs[0].id == id {
        Some(subs[0])
    } else {
        sub_lookup(subs.drop_first(), id)
    }
}

/// Every row with this id flipped to verified; all other rows unchanged.
pub open spec fn mark_verified(subs: Seq<SubscriberModel>, id: Seq<char>) -> Seq<SubscriberModel> {
    Seq::new(
        subs.len(),
        |i: int|
            if subs[i].id == id {
                SubscriberModel { is_verified: true, ..subs[i] }
            } else {
                subs[i]
            },
    )
}

/// Keeps the token rows that do not hold this token.
pub open spec fn keep_token(token: Seq<char>) -> spec_fn(TokenModel) -> bool {
    |r: TokenModel| r.token != token
}

/// Keeps the subscriber rows that do not hold this id.
pub open spec fn keep_sub(id: Seq<char>) -> spec_fn(SubscriberModel) -> bool {
    |s: SubscriberModel| s.id != id
}

/// The token rows that survive deleting this token.
pub open spec fn without_token(tokens: Seq<TokenModel>, token: Seq<char>) -> Seq<TokenModel> {
    tokens.filter(keep_token(token))
}

/// The subscriber rows that survive deleting this id.
pub open spec fn without_subscriber(subs: Seq<SubscriberModel>, id: Seq<char>) -> Seq<
    SubscriberModel,
> {
    subs.filter(keep_sub(id))
}

/// Relies on chrono's `Utc::now`: the subscription timestamp, about which
/// nothing is assumed.
#[verifier::external_body]
fn now_timestamp() -> i64 {
    chrono::Utc::now().timestamp()
}

/// Relies on uuid's `Uuid::new_v4` and its hyphenated `Display` form: a
/// fresh random identifier rendered as 36 characters.
#[verifier::external_body]
pub(crate) fn new_row_id() -> (r: String)
    ensures
        r@.len() == 36,
{
    uuid::Uuid::new_v4().to_string()
}

/// The in-memory image of the two subscription tables.
pub struct SubscriberStore {
    subscriptions: Vec<Subscriber>,
    tokens: Vec<SubscriptionToken>,
}

impl View for SubscriberStore {
    type V = StoreModel;

    closed spec fn view(&self) -> StoreModel {
        StoreModel {
            subscriptions: Seq::new(self.subscriptions@.len(), |i: int| self.subscriptions@[i]@),
            tokens: Seq::new(self.tokens@.len(), |i: int| self.tokens@[i]@),
        }
    }
}

impl SubscriberStore {
    /// An empty store.
    pub fn new() -> (r: SubscriberStore)
        ensures
            r@.subscriptions.len() == 0,
            r@.tokens.len() == 0,
    {
        let r = SubscriberStore { subscriptions: Vec::new(), tokens: Vec::new() };
        proof {
            assert(r@.subscriptions =~= Seq::<SubscriberModel>::empty());
            assert(r@.tokens =~= Seq::<TokenModel>::empty());
        }
        r
    }

    /// How many subscriber rows the store holds.
    pub fn subscription_count(&self) -> (r: usize)
        ensures
            r == self@.subscriptions.len(),
    {
        self.subscriptions.len()
    }

    /// How many token rows the store holds.
    pub fn token_count(&self) -> (r: usize)
        ensures
            r == self@.tokens.len(),
    {
        self.tokens.len()
    }

    /// `select EXISTS(select email from subscriptions where email = $1)`.
    pub fn does_email_exists(&self, email: &Email) -> (r: bool)
        ensures
            r == email_present(self@.subscriptions, email@),
    {
        let n = self.subscriptions.len();
        let mut i: usize = 0;
        while i < n
            invariant
                n == self.subscriptions@.len(),
                i <= n,
                forall|j: int| 0 <= j < i ==> self@.subscriptions[j].email != email@,
            decreases n - i,
        {
            if str_eq(self.subscriptions[i].email.as_str(), email.as_ref()) {
                proof {
                    assert(self@.subscriptions[i as int].email == email@);
                }
                return true;
            }
            i += 1;
        }
        false
    }

    /// `INSERT INTO subscriptions ... VALUES (id, email, referer, now, false)`.
    pub fn create_new_subscriber(
        &mut self,
        new_subscriber: &Email,
        referer: &str,
        subscriber_id: &str,
    )
        ensures
            exists|at: int|
                final(self)@.subscriptions == old(self)@.subscriptions.push(
                    SubscriberModel {
                        id: subscriber_id@,
                        email: new_subscriber@,
                        referer: referer@,
                        subscribed_at: at,
                        is_verified: false,
                    },
                ),
            final(self)@.tokens == old(self)@.tokens,
    {
        let at = now_timestamp();
        let row = Subscriber {
            id: subscriber_id.to_owned(),
            email: new_subscriber.as_ref().to_owned(),
            referer: referer.to_owned(),
            subscribed_at: at,
            is_verified: false,
        };
        self.subscriptions.push(row);
        proof {
            assert(self@.subscriptions =~= old(self)@.subscriptions.push(
                SubscriberModel {
                    id: subscriber_id@,
                    email: new_subscriber@,
                    referer: referer@,
                    subscribed_at: at as int,
                    is_verified: false,
                },
            ));
            assert(self@.tokens =~= old(self)@.tokens);
        }
    }

    /// `INSERT INTO subscription_token ... VALUES (token, subscription_id)`.
    pub fn create_new_subscriber_token(&mut self, subscriber_id: &str, token: &str)
        ensures
            final(self)@.tokens == old(self)@.tokens.push(
                TokenModel { token: token@, subscription_id: subscriber_id@ },
            ),
            final(self)@.subscriptions == old(self)@.subscriptions,
    {
        let row = SubscriptionToken {
            subscription_token: token.to_owned(),
            subscription_id: subscriber_id.to_owned(),
        };
        self.tokens.push(row);
        proof {
            assert(self@.tokens =~= old(self)@.tokens.push(
                TokenModel { token: token@, subscription_id: subscriber_id@ },
            ));
            assert(self@.subscriptions =~= old(self)@.subscriptions);
        }
    }

    /// `select subscription_id from subscription_token where subscription_token = $1`,
    /// returning the first match, as a single-row select does.
    pub fn get_subscriber_id_from_token(&self, tkn: &str) -> (r: Option<String>)
        ensures
            match token_lookup(self@.tokens, tkn@) {
                Some(id) => r matches Some(s) && s@ == id,
                None => r is None,
            },
    {
        let n = self.tokens.len();
        let mut i: usize = 0;
        proof {
            assert(self@.tokens.skip(0) =~= self@.tokens);
        }
        while i < n
            invariant
                n == self.tokens@.len(),
                i <= n,
                token_lookup(self@.tokens, tkn@) == token_lookup(self@.tokens.skip(i as int), tkn@),
            decreases n - i,
        {
            proof {
                assert(self@.tokens.skip(i as int)[0] == self@.tokens[i as int]);
            }
            if str_eq(self.tokens[i].subscription_token.as_str(), tkn) {
                return Some(self.tokens[i].subscription_id.clone());
            }
            proof {
                assert(self@.tokens.skip(i as int).drop_first() =~= self@.tokens.skip(i + 1));
            }
            i += 1;
        }
        proof {
            assert(self@.tokens.skip(n as int) =~= Seq::<TokenModel>::empty());
        }
        None
    }

    /// `select is_verified from subscriptions where id = $1` on the first
    /// matching row; `None` when no row matches.
    pub fn is_user_verified(&self, subscriber_id: &str) -> (r: Option<bool>)
        ensures
            match sub_lookup(self@.subscriptions, subscriber_id@) {
                Some(s) => r == Some(s.is_verified),
                None => r is None,
            },
    {
        let n = self.subscriptions.len();
        let mut i: usize = 0;
        proof {
            assert(self@.subscriptions.skip(0) =~= self@.subscriptions);
        }
        while i < n
            invariant
                n == self.subscriptions@.len(),
                i <= n,
                sub_lookup(self@.subscriptions, subscriber_id@) == sub_lookup(
                    self@.subscriptions.skip(i as int),
                    subscriber_id@,
                ),
            decreases n - i,
        {
            proof {
                assert(self@.subscriptions.skip(i as int)[0] == self@.subscriptions[i as int]);
            }
            if str_eq(self.subscriptions[i].id.as_str(), subscriber_id) {
                return Some(self.subscriptions[i].is_verified);
            }
            proof {
                assert(self@.subscriptions.skip(i as int).drop_first() =~= self@.subscriptions.skip(
                    i + 1,
                ));
            }
            i += 1;
        }
        proof {
            assert(self@.subscriptions.skip(n as int) =~= Seq::<SubscriberModel>::empty());
        }
        None
    }

    /// `select * from subscriptions where id = $1` on the first matching
    /// row; `None` when no row matches.
    pub fn get_subscriber(&self, subscriber_id: &str) -> (r: Option<&Subscriber>)
        ensures
            match sub_lookup(self@.subscriptions, subscriber_id@) {
                Some(s) => r matches Some(row) && row@ == s,
                None => r is None,
            },
    {
        let n = self.subscriptions.len();
        let mut i: usize = 0;
        proof {
            assert(self@.subscriptions.skip(0) =~= self@.subscriptions);
        }
        while i < n
            invariant
                n == self.subscriptions@.len(),
                i <= n,
                sub_lookup(self@.subscriptions, subscriber_id@) == sub_lookup(
                    self@.subscriptions.skip(i as int),
                    subscriber_id@,
                ),
            decreases n - i,
        {
            proof {
                assert(self@.subscriptions.skip(i as int)[0] == self@.subscriptions[i as int]);
            }
            if str_eq(self.subscriptions[i].id.as_str(), subscriber_id) {
                return Some(&self.subscriptions[i]);
            }
            proof {
                assert(self@.subscriptions.skip(i as int).drop_first() =~= self@.subscriptions.skip(
                    i + 1,
                ));
            }
            i += 1;
        }
        proof {
            assert(self@.subscriptions.skip(n as int) =~= Seq::<SubscriberModel>::empty());
        }
        None
    }

    /// `UPDATE subscriptions set is_verified = true where id = $1`.
    pub fn update_email_to_verified(&mut self, id: &str)
        ensures
            final(self)@.subscriptions == mark_verified(old(self)@.subscriptions, id@),
            final(self)@.tokens == old(self)@.tokens,
    {
        let n = self.subscriptions.len();
        let mut i: usize = 0;
        while i < n
            invariant
                n == self.subscriptions@.len(),
                n == old(self)@.subscriptions.len(),
                i <= n,
                self@.tokens == old(self)@.tokens,
                forall|j: int|
                    i <= j < n ==> self@.subscriptions[j] == #[trigger] old(
                        self,
                    )@.subscriptions[j],
                forall|j: int|
                    0 <= j < i ==> self@.subscriptions[j] == #[trigger] mark_verified(
                        old(self)@.subscriptions,
                        id@,
                    )[j],
            decreases n - i,
        {
            if str_eq(self.subscriptions[i].id.as_str(), id) {
                let ghost prev = self.subscriptions@;
                let row = self.subscriptions.remove(i);
                let updated = Subscriber { is_verified: true, ..row };
                self.subscriptions.insert(i, updated);
                proof {
                    assert(self.subscriptions@ =~= prev.update(i as int, updated));
                    assert(row@ == old(self)@.subscriptions[i as int]);
                    assert(updated@ == (SubscriberModel {
                        is_verified: true,
                        ..old(self)@.subscriptions[i as int]
                    }));
                    assert(self@.subscriptions[i as int] == mark_verified(
                        old(self)@.subscriptions,
                        id@,
                    )[i as int]);
                    assert(forall|j: int|
                        0 <= j < n && j != i ==> self.subscriptions@[j] == prev[j]);
                    assert(forall|j: int|
                        0 <= j < i ==> self@.subscriptions[j] == #[trigger] mark_verified(
                            old(self)@.subscriptions,
                            id@,
                        )[j]);
                }
            } else {
                proof {
                    assert(self@.subscriptions[i as int].id != id@);
                    assert(self@.subscriptions[i as int] == mark_verified(
                        old(self)@.subscriptions,
                        id@,
                    )[i as int]);
                }
            }
            i += 1;
        }
        proof {
            assert(self@.subscriptions =~= mark_verified(old(self)@.subscriptions, id@));
        }
    }

    /// `DELETE from subscriptions where id = $1`.
    pub fn delete_subscriber(&mut self, id: &str)
        ensures
            final(self)@.subscriptions == without_subscriber(old(self)@.subscriptions, id@),
            final(self)@.tokens == old(self)@.tokens,
    {
        let ghost orig = old(self)@.subscriptions;
        let mut i: usize = 0;
        let ghost mut k: int = 0;
        proof {
            reveal(Seq::<_>::filter);
            assert(orig.take(0).filter(keep_sub(id@)) =~= Seq::<SubscriberModel>::empty());
            assert(self@.subscriptions.take(0) =~= Seq::<SubscriberModel>::empty());
            assert(self@.subscriptions.skip(0) =~= orig.skip(0));
        }
        while i < self.subscriptions.len()
            invariant
                0 <= i as int <= self.subscriptions@.len(),
                i as int <= k <= orig.len(),
                orig == old(self)@.subscriptions,
                self@.tokens == old(self)@.tokens,
                self@.subscriptions.take(i as int) == orig.take(k).filter(keep_sub(id@)),
                self@.subscriptions.skip(i as int) == orig.skip(k),
            decreases orig.len() - k,
        {
            proof {
                assert(self@.subscriptions.skip(i as int).len() == self@.subscriptions.len() - i);
                assert(orig.skip(k).len() == orig.len() - k);
                assert(k < orig.len());
                assert(self@.subscriptions.skip(i as int)[0] == self@.subscriptions[i as int]);
                assert(orig.skip(k)[0] == orig[k]);
                assert(orig.take(k + 1).drop_last() =~= orig.take(k));
                assert(orig.take(k + 1).last() == orig[k]);
            }
            if str_eq(self.subscriptions[i].id.as_str(), id) {
                proof {
                    reveal(Seq::<_>::filter);
                    assert(!keep_sub(id@)(orig[k]));
                    assert(orig.take(k + 1).filter(keep_sub(id@)) =~= orig.take(k).filter(
                        keep_sub(id@),
                    ));
                }
                let ghost prevm = self@.subscriptions;
                let _ = self.subscriptions.remove(i);
                proof {
                    k = k + 1;
                    assert(self@.subscriptions =~= prevm.remove(i as int));
                    assert(self@.subscriptions.take(i as int) =~= prevm.take(i as int));
                    assert(prevm.skip(i as int).drop_first() =~= prevm.skip(i + 1));
                    assert(orig.skip(k - 1).drop_first() =~= orig.skip(k));
                    assert(self@.subscriptions.skip(i as int) =~= prevm.skip(i + 1));
                    assert(self@.subscriptions.take(i as int) =~= orig.take(k).filter(
                        keep_sub(id@),
                    ));
                    assert(self@.subscriptions.skip(i as int) =~= orig.skip(k));
                }
            } else {
                proof {
                    reveal(Seq::<_>::filter);
                    assert(keep_sub(id@)(orig[k]));
                    assert(orig.take(k + 1).filter(keep_sub(id@)) =~= orig.take(k).filter(
                        keep_sub(id@),
                    ).push(orig[k]));
                }
                i += 1;
                proof {
                    k = k + 1;
                    assert(self@.subscriptions.take(i as int) =~= self@.subscriptions.take(
                        i - 1,
                    ).push(self@.subscriptions[i - 1]));
                    assert(self@.subscriptions.skip(i - 1).drop_first() =~= self@.subscriptions.skip(
                        i as int,
                    ));
                    assert(orig.skip(k - 1).drop_first() =~= orig.skip(k));
                    assert(self@.subscriptions.take(i as int) =~= orig.take(k).filter(
                        keep_sub(id@),
                    ));
                    assert(self@.subscriptions.skip(i as int) =~= orig.skip(k));
                }
            }
        }
        proof {
            assert(orig.skip(k).len() == 0);
            assert(k == orig.len());
            assert(orig.take(k) =~= orig);
            assert(self@.subscriptions.take(i as int) =~= self@.subscriptions);
            assert(self@.subscriptions =~= without_subscriber(old(self)@.subscriptions, id@));
        }
    }

    /// `DELETE from subscription_token where subscription_token = $1`.
    pub fn delete_subscriber_token(&mut self, tkn: &str)
        ensures
            final(self)@.tokens == without_token(old(self)@.tokens, tkn@),
            final(self)@.subscriptions == old(self)@.subscriptions,
    {
        let ghost orig = old(self)@.tokens;
        let mut i: usize = 0;
        let ghost mut k: int = 0;
        proof {
            reveal(Seq::<_>::filter);
            assert(orig.take(0).filter(keep_token(tkn@)) =~= Seq::<TokenModel>::empty());
            assert(self@.tokens.take(0) =~= Seq::<TokenModel>::empty());
            assert(self@.tokens.skip(0) =~= orig.skip(0));
        }
        while i < self.tokens.len()
            invariant
                0 <= i as int <= self.tokens@.len(),
                i as int <= k <= orig.len(),
                orig == old(self)@.tokens,
                self@.subscriptions == old(self)@.subscriptions,
                self@.tokens.take(i as int) == orig.take(k).filter(keep_token(tkn@)),
                self@.tokens.skip(i as int) == orig.skip(k),
            decreases orig.len() - k,
        {
            proof {
                assert(self@.tokens.skip(i as int).len() == self@.tokens.len() - i);
                assert(orig.skip(k).len() == orig.len() - k);
                assert(k < orig.len());
                assert(self@.tokens.skip(i as int)[0] == self@.tokens[i as int]);
                assert(orig.skip(k)[0] == orig[k]);
                assert(orig.take(k + 1).drop_last() =~= orig.take(k));
                assert(orig.take(k + 1).last() == orig[k]);
            }
            if str_eq(self.tokens[i].subscription_token.as_str(), tkn) {
                proof {
                    reveal(Seq::<_>::filter);
                    assert(!keep_token(tkn@)(orig[k]));
                    assert(orig.take(k + 1).filter(keep_token(tkn@)) =~= orig.take(k).filter(
                        keep_token(tkn@),
                    ));
                }
                let ghost prevm = self@.tokens;
                let _ = self.tokens.remove(i);
                proof {
                    k = k + 1;
                    assert(self@.tokens =~= prevm.remove(i as int));
                    assert(self@.tokens.take(i as int) =~= prevm.take(i as int));
                    assert(prevm.skip(i as int).drop_first() =~= prevm.skip(i + 1));
                    assert(orig.skip(k - 1).drop_first() =~= orig.skip(k));
                    assert(self@.tokens.skip(i as int) =~= prevm.skip(i + 1));
                    assert(self@.tokens.take(i as int) =~= orig.take(k).filter(keep_token(tkn@)));
                    assert(self@.tokens.skip(i as int) =~= orig.skip(k));
                }
            } else {
                proof {
                    reveal(Seq::<_>::filter);
                    assert(keep_token(tkn@)(orig[k]));
                    assert(orig.take(k + 1).filter(keep_token(tkn@)) =~= orig.take(k).filter(
                        keep_token(tkn@),
                    ).push(orig[k]));
                }
                i += 1;
                proof {
                    k = k + 1;
                    assert(self@.tokens.take(i as int) =~= self@.tokens.take(i - 1).push(
                        self@.tokens[i - 1],
                    ));
                    assert(self@.tokens.skip(i - 1).drop_first() =~= self@.tokens.skip(i as int));
                    assert(orig.skip(k - 1).drop_first() =~= orig.skip(k));
                    assert(self@.tokens.take(i as int) =~= orig.take(k).filter(keep_token(tkn@)));
                    assert(self@.tokens.skip(i as int) =~= orig.skip(k));
                }
            }
        }
        proof {
            assert(orig.skip(k).len() == 0);
            assert(k == orig.len());
            assert(orig.take(k) =~= orig);
            assert(self@.tokens.take(i as int) =~= self@.tokens);
            assert(self@.tokens =~= without_token(old(self)@.tokens, tkn@));
        }
    }
}

/// A `user` row, as the contracts see it.
pub struct UserModel {
    pub id: Seq<char>,
    pub email: Seq<char>,
    pub hashed_password: Seq<char>,
}

/// A `user` row: an admin account.
pub struct User {
    pub id: String,
    pub email: String,
    pub hashed_password: String,
}

impl View for User {
    type V = UserModel;

    open spec fn view(&self) -> UserModel {
        UserModel { id: self.id@, email: self.email@, hashed_password: self.hashed_password@ }
    }
}

/// Some user row holds this email address.
pub open spec fn user_present(users: Seq<UserModel>, email: Seq<char>) -> bool {
    exists|i: int| 0 <= i < users.len() && #[trigger] users[i].email == email
}

/// The first user row with this email, if any.
pub open spec fn user_lookup(users: Seq<UserModel>, email: Seq<char>) -> Option<UserModel>
    decreases users.len(),
{
    if users.len() == 0 {
        None
    } else if users[0].email == email {
        Some(users[0])
    } else {
        user_lookup(users.drop_first(), email)
    }
}

/// The in-memory image of the `user` table.
pub struct UserStore {
    users: Vec<User>,
}

impl View for UserStore {
    type V = Seq<UserModel>;

    closed spec fn view(&self) -> Seq<UserModel> {
        Seq::new(self.users@.len(), |i: int| self.users@[i]@)
    }
}

impl UserStore {
    /// An empty user table.
    pub fn new() -> (r: UserStore)
        ensures
            r@.len() == 0,
    {
        UserStore { users: Vec::new() }
    }

    /// `INSERT INTO "user" (id, email, hashed_password) VALUES ($1, $2, $3)`
    /// with a freshly generated id.
    pub fn create_new_user(&mut self, email: &Email, hashed_password: &str)
        ensures
            exists|id: Seq<char>|
                #![auto]
                id.len() == 36 && final(self)@ == old(self)@.push(
                    UserModel { id, email: email@, hashed_password: hashed_password@ },
                ),
    {
        let id = new_row_id();
        let row = User {
            id,
            email: email.as_ref().to_owned(),
            hashed_password: hashed_password.to_owned(),
        };
        let ghost idv = row.id@;
        self.users.push(row);
        proof {
            assert(self@ =~= old(self)@.push(
                UserModel { id: idv, email: email@, hashed_password: hashed_password@ },
            ));
        }
    }

    /// `select hashed_password from "user" where email = $1` on the first
    /// matching row; `None` when no row matches.
    pub fn get_user_hashed_password(&self, email: &Email) -> (r: Option<String>)
        ensures
            match user_lookup(self@, email@) {
                Some(u) => r matches Some(h) && h@ == u.hashed_password,
                None => r is None,
            },
    {
        let n = self.users.len();
        let mut i: usize = 0;
        proof {
            assert(self@.skip(0) =~= self@);
        }
        while i < n
            invariant
                n == self.users@.len(),
                i <= n,
                user_lookup(self@, email@) == user_lookup(self@.skip(i as int), email@),
            decreases n - i,
        {
            proof {
                assert(self@.skip(i as int)[0] == self@[i as int]);
            }
            if str_eq(self.users[i].email.as_str(), email.as_ref()) {
                return Some(self.users[i].hashed_password.clone());
            }
            proof {
                assert(self@.skip(i as int).drop_first() =~= self@.skip(i + 1));
            }
            i += 1;
        }
        proof {
            assert(self@.skip(n as int) =~= Seq::<UserModel>::empty());
        }
        None
    }

    /// `select EXISTS(select email from "user" where email = $1)`.
    pub fn does_user_exists(&self, email: &Email) -> (r: bool)
        ensures
            r == user_present(self@, email@),
    {
        let n = self.users.len();
        let mut i: usize = 0;
        while i < n
            invariant
                n == self.users@.len(),
                i <= n,
                forall|j: int| 0 <= j < i ==> self@[j].email != email@,
            decreases n - i,
        {
            if str_eq(self.users[i].email.as_str(), email.as_ref()) {
                proof {
                    assert(self@[i as int].email == email@);
                }
                return true;
            }
            i += 1;
        }
        false
    }
}

} // verus!

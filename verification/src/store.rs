//! The credential store: users and personal access tokens.
//!
//! The store keeps its rows in memory and is specified against a ghost
//! view of those rows. Timestamps are modeled as whole seconds since the
//! Unix epoch and are supplied by the caller of each mutating operation.

use vstd::prelude::*;

verus! {

/// An identity record. Read-only from the credential subsystem's
/// perspective except at account-creation time.
pub struct User {
    pub id: i32,
    pub first_name: String,
    pub last_name: String,
    pub email: String,
    pub password_hash: String,
    pub created_at: u64,
    pub updated_at: u64,
}

/// The caller-supplied part of a new identity record.
pub struct NewUser {
    pub first_name: String,
    pub last_name: String,
    pub email: String,
    pub password_hash: String,
}

/// A personal access token row: a long-lived opaque credential pair. It
/// is usable for authentication iff `disabled` is false and both `token`
/// and `secret` match the presented values exactly.
pub struct PersonalAccessToken {
    pub id: i32,
    pub name: String,
    pub token: String,
    pub secret: String,
    pub user_id: i32,
    pub disabled: bool,
    pub created_at: u64,
    pub updated_at: u64,
}

/// The caller-supplied part of a new personal access token row.
pub struct NewPersonalAccessToken {
    pub name: String,
    pub user_id: i32,
    pub token: String,
    pub secret: String,
}

/// Ghost image of a `User` row.
pub ghost struct UserView {
    pub id: i32,
    pub first_name: Seq<char>,
    pub last_name: Seq<char>,
    pub email: Seq<char>,
    pub password_hash: Seq<char>,
    pub created_at: u64,
    pub updated_at: u64,
}

/// Ghost image of a `PersonalAccessToken` row.
pub ghost struct PatView {
    pub id: i32,
    pub name: Seq<char>,
    pub token: Seq<char>,
    pub secret: Seq<char>,
    pub user_id: i32,
    pub disabled: bool,
    pub created_at: u64,
    pub updated_at: u64,
}

/// Ghost image of the whole store.
pub ghost struct StoreView {
    pub users: Seq<UserView>,
    pub pats: Seq<PatView>,
    pub next_user_id: i32,
    pub next_pat_id: i32,
}

impl View for User {
    type V = UserView;

    open spec fn view(&self) -> UserView {
        UserView {
            id: self.id,
            first_name: self.first_name@,
            last_name: self.last_name@,
            email: self.email@,
            password_hash: self.password_hash@,
            created_at: self.created_at,
            updated_at: self.updated_at,
        }
    }
}

impl View for PersonalAccessToken {
    type V = PatView;

    open spec fn view(&self) -> PatView {
        PatView {
            id: self.id,
            name: self.name@,
            token: self.token@,
            secret: self.secret@,
            user_id: self.user_id,
            disabled: self.disabled,
            created_at: self.created_at,
            updated_at: self.updated_at,
        }
    }
}

/// Lookup and lifecycle of users and personal access tokens, the
/// persistence interface the credential subsystem is written against.
/// Passed explicitly into every component that needs it.
pub struct CredentialStore {
    users: Vec<User>,
    pats: Vec<PersonalAccessToken>,
    next_user_id: i32,
    next_pat_id: i32,
}

impl View for CredentialStore {
    type V = StoreView;

    closed spec fn view(&self) -> StoreView {
        StoreView {
            users: self.users@.map_values(|u: User| u@),
            pats: self.pats@.map_values(|p: PersonalAccessToken| p@),
            next_user_id: self.next_user_id,
            next_pat_id: self.next_pat_id,
        }
    }
}

/// Whether a stored row authenticates the presented credential pair: both
/// parts match and the row is not disabled.
pub open spec fn pat_matches_active(p: PatView, token: Seq<char>, secret: Seq<char>) -> bool {
    p.token == token && p.secret == secret && !p.disabled
}

/// `i` is the position of the first user row with this email address.
pub open spec fn is_first_user_match(users: Seq<UserView>, email: Seq<char>, i: int) -> bool {
    &&& 0 <= i < users.len()
    &&& users[i].email == email
    &&& forall|j: int| 0 <= j < i ==> users[j].email != email
}

/// `i` is the position of the first active row matching the pair.
pub open spec fn is_first_active_pat_match(
    pats: Seq<PatView>,
    token: Seq<char>,
    secret: Seq<char>,
    i: int,
) -> bool {
    &&& 0 <= i < pats.len()
    &&& pat_matches_active(pats[i], token, secret)
    &&& forall|j: int| 0 <= j < i ==> !pat_matches_active(pats[j], token, secret)
}

/// How many user rows carry this email address.
pub open spec fn count_users_with_email(users: Seq<UserView>, email: Seq<char>) -> nat
    decreases users.len(),
{
    if users.len() == 0 {
        0
    } else {
        (if users.last().email == email {
            1nat
        } else {
            0nat
        }) + count_users_with_email(users.drop_last(), email)
    }
}

/// How many rows carry this public token.
pub open spec fn count_pats_with_token(pats: Seq<PatView>, token: Seq<char>) -> nat
    decreases pats.len(),
{
    if pats.len() == 0 {
        0
    } else {
        (if pats.last().token == token {
            1nat
        } else {
            0nat
        }) + count_pats_with_token(pats.drop_last(), token)
    }
}

/// A row after the disable operation touched it: disabled, with the
/// update time bumped and every other field kept.
pub open spec fn disabled_at(p: PatView, now: u64) -> PatView {
    PatView {
        id: p.id,
        name: p.name,
        token: p.token,
        secret: p.secret,
        user_id: p.user_id,
        disabled: true,
        created_at: p.created_at,
        updated_at: now,
    }
}

/// The whole table after disabling every row whose public token matches.
pub open spec fn spec_disable_pats(pats: Seq<PatView>, token: Seq<char>, now: u64) -> Seq<PatView> {
    pats.map_values(
        |p: PatView|
            if p.token == token {
                disabled_at(p, now)
            } else {
                p
            },
    )
}

proof fn lemma_count_users_take_step(users: Seq<UserView>, email: Seq<char>, i: int)
    requires
        0 <= i < users.len(),
    ensures
        count_users_with_email(users.take(i + 1), email) == count_users_with_email(
            users.take(i),
            email,
        ) + (if users[i].email == email {
            1nat
        } else {
            0nat
        }),
{
    assert(users.take(i + 1).drop_last() =~= users.take(i));
    assert(users.take(i + 1).last() == users[i]);
}

proof fn lemma_count_pats_take_step(pats: Seq<PatView>, token: Seq<char>, i: int)
    requires
        0 <= i < pats.len(),
    ensures
        count_pats_with_token(pats.take(i + 1), token) == count_pats_with_token(pats.take(i), token)
            + (if pats[i].token == token {
            1nat
        } else {
            0nat
        }),
{
    assert(pats.take(i + 1).drop_last() =~= pats.take(i));
    assert(pats.take(i + 1).last() == pats[i]);
}

proof fn lemma_count_users_at_least_one(users: Seq<UserView>, email: Seq<char>, i: int)
    requires
        0 <= i < users.len(),
        users[i].email == email,
    ensures
        count_users_with_email(users, email) >= 1,
    decreases users.len(),
{
    if i < users.len() - 1 {
        lemma_count_users_at_least_one(users.drop_last(), email, i);
    }
}

proof fn lemma_count_users_at_least_two(users: Seq<UserView>, email: Seq<char>, i: int, j: int)
    requires
        0 <= i < j < users.len(),
        users[i].email == email,
        users[j].email == email,
    ensures
        count_users_with_email(users, email) >= 2,
    decreases users.len(),
{
    if j == users.len() - 1 {
        lemma_count_users_at_least_one(users.drop_last(), email, i);
    } else {
        lemma_count_users_at_least_two(users.drop_last(), email, i, j);
    }
}

/// With exactly one row carrying the address, any two matching positions
/// are the same position.
pub proof fn lemma_count_one_unique(users: Seq<UserView>, email: Seq<char>, i: int, j: int)
    requires
        count_users_with_email(users, email) == 1,
        0 <= i < users.len(),
        users[i].email == email,
        0 <= j < users.len(),
        users[j].email == email,
    ensures
        i == j,
{
    if i < j {
        lemma_count_users_at_least_two(users, email, i, j);
    } else if j < i {
        lemma_count_users_at_least_two(users, email, j, i);
    }
}

/// Disabling leaves every public token in place, so a second pass counts
/// the same rows.
proof fn lemma_count_pats_disable_preserved(pats: Seq<PatView>, token: Seq<char>, now: u64)
    ensures
        count_pats_with_token(spec_disable_pats(pats, token, now), token) == count_pats_with_token(
            pats,
            token,
        ),
    decreases pats.len(),
{
    if pats.len() > 0 {
        lemma_count_pats_disable_preserved(pats.drop_last(), token, now);
        assert(spec_disable_pats(pats, token, now).drop_last() =~= spec_disable_pats(
            pats.drop_last(),
            token,
            now,
        ));
        assert(spec_disable_pats(pats, token, now).last() == (if pats.last().token == token {
            disabled_at(pats.last(), now)
        } else {
            pats.last()
        }));
    }
}

/// Disabling a public token is idempotent: a second disable pass, at the
/// same time or any later one, neither changes the table further (for the
/// same time) nor moves any row out of its terminal disabled state, and
/// it still reports the same number of affected rows.
pub proof fn lemma_disable_pat_idempotent(pats: Seq<PatView>, token: Seq<char>, now: u64)
    ensures
        spec_disable_pats(spec_disable_pats(pats, token, now), token, now) == spec_disable_pats(
            pats,
            token,
            now,
        ),
        count_pats_with_token(spec_disable_pats(pats, token, now), token) == count_pats_with_token(
            pats,
            token,
        ),
        forall|i: int, later: u64|
            0 <= i < pats.len() ==> (#[trigger] spec_disable_pats(
                spec_disable_pats(pats, token, now),
                token,
                later,
            )[i]).disabled == spec_disable_pats(pats, token, now)[i].disabled,
{
    assert(spec_disable_pats(spec_disable_pats(pats, token, now), token, now) =~= spec_disable_pats(
        pats,
        token,
        now,
    ));
    lemma_count_pats_disable_preserved(pats, token, now);
    assert forall|i: int, later: u64| 0 <= i < pats.len() implies (#[trigger] spec_disable_pats(
        spec_disable_pats(pats, token, now),
        token,
        later,
    )[i]).disabled == spec_disable_pats(pats, token, now)[i].disabled by {
        assert(spec_disable_pats(pats, token, now)[i] == (if pats[i].token == token {
            disabled_at(pats[i], now)
        } else {
            pats[i]
        }));
    }
}

impl CredentialStore {
    proof fn lemma_view_lens(&self)
        ensures
            self@.users.len() == self.users@.len(),
            self@.pats.len() == self.pats@.len(),
    {
    }

    proof fn lemma_user_view_index(&self, i: int)
        requires
            0 <= i < self.users@.len(),
        ensures
            self@.users.len() == self.users@.len(),
            self@.users[i] == self.users@[i]@,
    {
    }

    proof fn lemma_pat_view_index(&self, i: int)
        requires
            0 <= i < self.pats@.len(),
        ensures
            self@.pats.len() == self.pats@.len(),
            self@.pats[i] == self.pats@[i]@,
    {
    }

    /// An empty store.
    pub fn new() -> (r: Self)
        ensures
            r@.users == Seq::<UserView>::empty(),
            r@.pats == Seq::<PatView>::empty(),
            r@.next_user_id == 1,
            r@.next_pat_id == 1,
    {
        let r = CredentialStore { users: Vec::new(), pats: Vec::new(), next_user_id: 1, next_pat_id: 1 };
        proof {
            assert(r@.users =~= Seq::<UserView>::empty());
            assert(r@.pats =~= Seq::<PatView>::empty());
        }
        r
    }

    /// Append a new identity record, assigning it the next user id and
    /// the given creation time.
    pub fn add_user(&mut self, new_user: NewUser, now: u64) -> (r: i32)
        requires
            old(self)@.next_user_id < i32::MAX,
        ensures
            r == old(self)@.next_user_id,
            final(self)@.users == old(self)@.users.push(
                UserView {
                    id: old(self)@.next_user_id,
                    first_name: new_user.first_name@,
                    last_name: new_user.last_name@,
                    email: new_user.email@,
                    password_hash: new_user.password_hash@,
                    created_at: now,
                    updated_at: now,
                },
            ),
            final(self)@.pats == old(self)@.pats,
            final(self)@.next_user_id == old(self)@.next_user_id + 1,
            final(self)@.next_pat_id == old(self)@.next_pat_id,
    {
        let id = self.next_user_id;
        let row = User {
            id,
            first_name: new_user.first_name,
            last_name: new_user.last_name,
            email: new_user.email,
            password_hash: new_user.password_hash,
            created_at: now,
            updated_at: now,
        };
        self.users.push(row);
        self.next_user_id = self.next_user_id + 1;
        proof {
            assert(self@.users =~= old(self)@.users.push(
                UserView {
                    id: old(self)@.next_user_id,
                    first_name: new_user.first_name@,
                    last_name: new_user.last_name@,
                    email: new_user.email@,
                    password_hash: new_user.password_hash@,
                    created_at: now,
                    updated_at: now,
                },
            ));
            assert(self@.pats =~= old(self)@.pats);
        }
        id
    }

    /// Whether any identity record carries this email address.
    pub fn email_exists(&self, email: &str) -> (r: bool)
        ensures
            r == exists|i: int|
                0 <= i < self@.users.len() && (#[trigger] self@.users[i]).email == email@,
    {
        let email_owned: String = email.to_owned();
        let n = self.users.len();
        let mut i: usize = 0;
        while i < n
            invariant
                n == self.users.len(),
                i <= n,
                email_owned@ == email@,
                forall|j: int| 0 <= j < i ==> (#[trigger] self@.users[j]).email != email@,
            decreases n - i,
        {
            proof {
                self.lemma_user_view_index(i as int);
            }
            if self.users[i].email == email_owned {
                return true;
            }
            i += 1;
        }
        false
    }

    /// The id of the first identity record with this email address.
    pub fn find_user_id_by_email(&self, email: &str) -> (r: Option<i32>)
        ensures
            match r {
                Some(id) => exists|i: int|
                    #[trigger] is_first_user_match(self@.users, email@, i) && self@.users[i].id
                        == id,
                None => forall|j: int|
                    0 <= j < self@.users.len() ==> (#[trigger] self@.users[j]).email != email@,
            },
    {
        let email_owned: String = email.to_owned();
        let n = self.users.len();
        let mut i: usize = 0;
        while i < n
            invariant
                n == self.users.len(),
                i <= n,
                email_owned@ == email@,
                forall|j: int| 0 <= j < i ==> (#[trigger] self@.users[j]).email != email@,
            decreases n - i,
        {
            proof {
                self.lemma_user_view_index(i as int);
            }
            if self.users[i].email == email_owned {
                proof {
                    assert(is_first_user_match(self@.users, email@, i as int));
                }
                return Some(self.users[i].id);
            }
            i += 1;
        }
        None
    }

    /// The id and stored password hash of the user with this email
    /// address, provided exactly one record matches; `None` when zero or
    /// several match, so that a duplicated address never authenticates.
    pub fn find_user_password_hash(&self, email: &str) -> (r: Option<(i32, String)>)
        ensures
            match r {
                Some(f) => count_users_with_email(self@.users, email@) == 1 && exists|i: int|
                    0 <= i < self@.users.len() && (#[trigger] self@.users[i]).email == email@
                        && self@.users[i].id == f.0 && self@.users[i].password_hash == f.1@,
                None => count_users_with_email(self@.users, email@) != 1,
            },
    {
        let email_owned: String = email.to_owned();
        let n = self.users.len();
        let mut i: usize = 0;
        let mut count: usize = 0;
        let mut found: Option<(i32, String)> = None;
        while i < n
            invariant
                n == self.users.len(),
                i <= n,
                email_owned@ == email@,
                count <= i,
                count == count_users_with_email(self@.users.take(i as int), email@),
                match found {
                    Some(f) => exists|k: int|
                        0 <= k < i && (#[trigger] self@.users[k]).email == email@
                            && self@.users[k].id == f.0 && self@.users[k].password_hash == f.1@,
                    None => count == 0,
                },
            decreases n - i,
        {
            proof {
                self.lemma_user_view_index(i as int);
                lemma_count_users_take_step(self@.users, email@, i as int);
            }
            if self.users[i].email == email_owned {
                if count == 0 {
                    found = Some((self.users[i].id, self.users[i].password_hash.clone()));
                }
                count += 1;
            }
            i += 1;
        }
        proof {
            assert(self@.users.take(n as int) =~= self@.users);
        }
        if count == 1 {
            found
        } else {
            None
        }
    }

    /// Look a personal access token up by its public token and secret.
    /// The lookup succeeds iff some stored row matches both parts exactly
    /// and is not disabled; disabled and nonexistent rows are
    /// indistinguishable to the caller by design. On success the owning
    /// user's id and the stored public token are returned.
    pub fn find_active_pat_by_token_and_secret(&self, token: &str, secret: &str) -> (r: Option<
        (i32, String),
    >)
        ensures
            r is Some <==> exists|i: int|
                0 <= i < self@.pats.len() && pat_matches_active(
                    #[trigger] self@.pats[i],
                    token@,
                    secret@,
                ),
            match r {
                Some(f) => exists|i: int|
                    #[trigger] is_first_active_pat_match(self@.pats, token@, secret@, i)
                        && self@.pats[i].user_id == f.0 && self@.pats[i].token == f.1@,
                None => true,
            },
    {
        let token_owned: String = token.to_owned();
        let secret_owned: String = secret.to_owned();
        let n = self.pats.len();
        let mut i: usize = 0;
        while i < n
            invariant
                n == self.pats.len(),
                i <= n,
                token_owned@ == token@,
                secret_owned@ == secret@,
                forall|j: int|
                    0 <= j < i ==> !pat_matches_active(#[trigger] self@.pats[j], token@, secret@),
            decreases n - i,
        {
            proof {
                self.lemma_pat_view_index(i as int);
            }
            if self.pats[i].token == token_owned && self.pats[i].secret == secret_owned
                && !self.pats[i].disabled {
                proof {
                    assert(is_first_active_pat_match(self@.pats, token@, secret@, i as int));
                }
                return Some((self.pats[i].user_id, self.pats[i].token.clone()));
            }
            i += 1;
        }
        None
    }

    /// Append a new personal access token row, enabled, with the next
    /// token id and the given creation time. Reports the number of rows
    /// added, which is always one.
    pub fn insert_pat(&mut self, new_pat: NewPersonalAccessToken, now: u64) -> (r: usize)
        requires
            old(self)@.next_pat_id < i32::MAX,
        ensures
            r == 1,
            final(self)@.pats == old(self)@.pats.push(
                PatView {
                    id: old(self)@.next_pat_id,
                    name: new_pat.name@,
                    token: new_pat.token@,
                    secret: new_pat.secret@,
                    user_id: new_pat.user_id,
                    disabled: false,
                    created_at: now,
                    updated_at: now,
                },
            ),
            final(self)@.users == old(self)@.users,
            final(self)@.next_pat_id == old(self)@.next_pat_id + 1,
            final(self)@.next_user_id == old(self)@.next_user_id,
    {
        let id = self.next_pat_id;
        let row = PersonalAccessToken {
            id,
            name: new_pat.name,
            token: new_pat.token,
            secret: new_pat.secret,
            user_id: new_pat.user_id,
            disabled: false,
            created_at: now,
            updated_at: now,
        };
        self.pats.push(row);
        self.next_pat_id = self.next_pat_id + 1;
        proof {
            assert(self@.pats =~= old(self)@.pats.push(
                PatView {
                    id: old(self)@.next_pat_id,
                    name: new_pat.name@,
                    token: new_pat.token@,
                    secret: new_pat.secret@,
                    user_id: new_pat.user_id,
                    disabled: false,
                    created_at: now,
                    updated_at: now,
                },
            ));
            assert(self@.users =~= old(self)@.users);
        }
        1
    }

    /// Disable every row whose public token matches, bumping its update
    /// time; rows never leave the store. Reports how many rows matched,
    /// whether or not they were already disabled.
    pub fn disable_pat(&mut self, token: &str, now: u64) -> (r: usize)
        ensures
            final(self)@.pats == spec_disable_pats(old(self)@.pats, token@, now),
            final(self)@.users == old(self)@.users,
            final(self)@.next_user_id == old(self)@.next_user_id,
            final(self)@.next_pat_id == old(self)@.next_pat_id,
            r == count_pats_with_token(old(self)@.pats, token@),
    {
        let token_owned: String = token.to_owned();
        let n = self.pats.len();
        let mut i: usize = 0;
        let mut count: usize = 0;
        while i < n
            invariant
                n == self.pats.len(),
                i <= n,
                token_owned@ == token@,
                count <= i,
                count == count_pats_with_token(old(self)@.pats.take(i as int), token@),
                self@.users == old(self)@.users,
                self@.next_user_id == old(self)@.next_user_id,
                self@.next_pat_id == old(self)@.next_pat_id,
                old(self)@.pats.len() == n,
                forall|j: int|
                    0 <= j < i ==> (#[trigger] self.pats@[j])@ == spec_disable_pats(
                        old(self)@.pats,
                        token@,
                        now,
                    )[j],
                forall|j: int| i <= j < n ==> (#[trigger] self.pats@[j])@ == old(self)@.pats[j],
            decreases n - i,
        {
            proof {
                lemma_count_pats_take_step(old(self)@.pats, token@, i as int);
            }
            if self.pats[i].token == token_owned {
                let updated = PersonalAccessToken {
                    id: self.pats[i].id,
                    name: self.pats[i].name.clone(),
                    token: self.pats[i].token.clone(),
                    secret: self.pats[i].secret.clone(),
                    user_id: self.pats[i].user_id,
                    disabled: true,
                    created_at: self.pats[i].created_at,
                    updated_at: now,
                };
                proof {
                    assert(updated@ == disabled_at(old(self)@.pats[i as int], now));
                }
                self.pats.set(i, updated);
                count += 1;
            }
            i += 1;
        }
        proof {
            assert(old(self)@.pats.take(n as int) =~= old(self)@.pats);
            assert forall|j: int| 0 <= j < n implies #[trigger] self@.pats[j] == spec_disable_pats(
                old(self)@.pats,
                token@,
                now,
            )[j] by {
                self.lemma_pat_view_index(j);
            }
            self.lemma_view_lens();
            assert(self@.pats.len() == n);
            assert(self@.pats =~= spec_disable_pats(old(self)@.pats, token@, now));
        }
        count
    }
}

} // verus!

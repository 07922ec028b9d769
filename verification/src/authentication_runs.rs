//! Logins that run against a store, and what holds of every such run.
//!
//! A run records the states that a login went through and the tables that
//! the store held meanwhile. Whoever drives the login, and however often it
//! has to draw a candidate key again, what is stated here of runs holds of
//! what that driver did.

use crate::authentication::login_ended;
use crate::authentication::login_outcome;
use crate::authentication::login_request;
use crate::authentication::login_step;
use crate::authentication::LoginView;
use crate::database::DatabaseError;
use crate::hasher::argon2_accepts;
use crate::hasher::is_digest_of;
use crate::keygen::api_keys_are_hashable;
use crate::keygen::is_api_key;
use crate::models::UserLoginView;
use crate::models::UserView;
use crate::store::answering_keeps_the_table;
use crate::store::is_user_table;
use crate::store::key_taken;
use crate::store::row_by_email;
use crate::store::rows_after;
use crate::store::store_reply;
use crate::store::with_api_key;
use vstd::prelude::*;

verus! {

/// Whether `states` and `tables` record a login that is driven against a
/// store: each state follows from the one before on the reply that the store
/// gave to its request, and each table is what the store held after that reply.
pub open spec fn is_login_run(states: Seq<LoginView>, tables: Seq<Seq<UserView>>) -> bool {
    &&& states.len() == tables.len()
    &&& forall|i: int|
        0 <= i && i + 1 < states.len() ==> {
            let request = login_request(#[trigger] states[i]);
            &&& login_step(states[i], store_reply(tables[i], request), states[i + 1])
            &&& tables[i + 1] == rows_after(tables[i], request)
        }
}

/// However a login is driven against a store, the store goes on holding a
/// user table with as many rows as before.
pub proof fn login_run_keeps_the_table(
    states: Seq<LoginView>,
    tables: Seq<Seq<UserView>>,
    at: int,
)
    requires
        is_login_run(states, tables),
        0 <= at < states.len(),
        is_user_table(tables[0]),
    ensures
        is_user_table(tables[at]),
        tables[at].len() == tables[0].len(),
    decreases at,
{
    if at > 0 {
        login_run_keeps_the_table(states, tables, at - 1);
        answering_keeps_the_table(tables[at - 1], login_request(states[at - 1]));
    }
}

/// How many steps a login in `state` is from its end at most, as long as no
/// candidate key is taken.
pub open spec fn login_steps_left(state: LoginView) -> nat {
    match state {
        LoginView::Received { login } => 5,
        LoginView::Found { login, user } => 4,
        LoginView::Verified { id, candidate } => 3,
        LoginView::KeyIssued { id, key } => 2,
        LoginView::KeyHashed { id, key, digest } => 1,
        LoginView::NotFound => 1,
        LoginView::Rotated { key } => 0,
        LoginView::Rejected => 0,
        LoginView::Failed { error } => 0,
    }
}

/// Whether the store has called no candidate key taken in the first `steps`
/// steps of the run.
pub open spec fn no_candidate_was_taken(
    states: Seq<LoginView>,
    tables: Seq<Seq<UserView>>,
    steps: int,
) -> bool {
    forall|i: int|
        0 <= i < steps && i < states.len() ==> (#[trigger] states[i]
            matches LoginView::Verified { id, candidate } ==> !key_taken(tables[i], candidate))
}

/// A login comes one step nearer to its end with every step, unless the
/// store calls a candidate key taken.
///
/// After `at` steps without a taken candidate, the login is `at` steps
/// nearer to its end than it was, or has ended. A login that has just come in
/// has therefore ended after five steps.
pub proof fn login_makes_progress(states: Seq<LoginView>, tables: Seq<Seq<UserView>>, at: int)
    requires
        is_login_run(states, tables),
        0 <= at < states.len(),
        no_candidate_was_taken(states, tables, at),
    ensures
        login_steps_left(states[at]) + at <= login_steps_left(states[0]) || login_ended(states[at]),
        login_steps_left(states[at]) == 0 <==> login_ended(states[at]),
    decreases at,
{
    if at > 0 {
        login_makes_progress(states, tables, at - 1);
    }
}

/// Whether `login` is to be refused by a store that holds `table`: no user has
/// the email address, or the password is not the one of the user who has it.
pub open spec fn is_refused(table: Seq<UserView>, login: UserLoginView) -> bool {
    match row_by_email(table, login.email) {
        Some(user) => !argon2_accepts(login.password, user.pasword),
        None => true,
    }
}

/// How far a login that is to be refused has come in `state`.
pub open spec fn refused_login_progress(
    login: UserLoginView,
    first: Seq<UserView>,
    state: LoginView,
    table: Seq<UserView>,
) -> bool {
    &&& table == first
    &&& match state {
        LoginView::Received { login: held } => held == login,
        LoginView::Found { login: held, user } => held == login && row_by_email(first, login.email)
            == Some(user),
        LoginView::NotFound => row_by_email(first, login.email) is None,
        LoginView::Rejected => true,
        _ => false,
    }
}

/// The login that is to be refused, at each point of its run.
proof fn refused_login_run(
    login: UserLoginView,
    states: Seq<LoginView>,
    tables: Seq<Seq<UserView>>,
    at: int,
)
    requires
        is_login_run(states, tables),
        0 <= at < states.len(),
        states[0] == (LoginView::Received { login }),
        is_refused(tables[0], login),
    ensures
        refused_login_progress(login, tables[0], states[at], tables[at]),
    decreases at,
{
    if at > 0 {
        refused_login_run(login, states, tables, at - 1);
    }
}

/// A login with an email address that no user has and a login with a wrong
/// password fail alike.
///
/// However such a login is driven against the store: no key is issued, the
/// store stays as it is, and if the login ends, it ends in the one state
/// `Rejected`, whose outcome is `Unauthorized`, whichever of the two it was.
pub proof fn refused_logins_fail_alike(
    login: UserLoginView,
    states: Seq<LoginView>,
    tables: Seq<Seq<UserView>>,
)
    requires
        is_login_run(states, tables),
        states.len() > 0,
        states[0] == (LoginView::Received { login }),
        is_refused(tables[0], login),
    ensures
        tables.last() == tables[0],
        login_ended(states.last()) ==> states.last() == LoginView::Rejected,
        login_ended(states.last()) ==> login_outcome(states.last()) == Some(
            Err::<Seq<char>, DatabaseError>(DatabaseError::Unauthorized),
        ),
{
    refused_login_run(login, states, tables, states.len() - 1);
}

/// How far a login of `user` with the right password has come in `state`,
/// against a store that held the table `first` when the login came in and
/// holds `table` now.
pub open spec fn accepted_login_progress(
    login: UserLoginView,
    user: UserView,
    first: Seq<UserView>,
    state: LoginView,
    table: Seq<UserView>,
) -> bool {
    match state {
        LoginView::Received { login: held } => held == login && table == first,
        LoginView::Found { login: held, user: found } => held == login && found == user && table
            == first,
        LoginView::NotFound => false,
        LoginView::Verified { id, candidate } => id == user.id && is_api_key(candidate) && table
            == first,
        LoginView::KeyIssued { id, key } => {
            &&& id == user.id
            &&& is_api_key(key)
            &&& !key_taken(first, key)
            &&& table == first
        },
        LoginView::KeyHashed { id, key, digest } => {
            &&& id == user.id
            &&& is_api_key(key)
            &&& !key_taken(first, key)
            &&& is_digest_of(key, digest)
            &&& table == first
        },
        LoginView::Rotated { key } => {
            &&& is_api_key(key)
            &&& !key_taken(first, key)
            &&& is_digest_of(key, table[user.id - 1].api_key)
            &&& table == first.update(user.id - 1, with_api_key(user, table[user.id - 1].api_key))
        },
        LoginView::Rejected => false,
        LoginView::Failed { error } => false,
    }
}

/// The login with the right password, at each point of its run.
proof fn accepted_login_run(
    login: UserLoginView,
    user: UserView,
    states: Seq<LoginView>,
    tables: Seq<Seq<UserView>>,
    at: int,
)
    requires
        is_login_run(states, tables),
        0 <= at < states.len(),
        states[0] == (LoginView::Received { login }),
        is_user_table(tables[0]),
        row_by_email(tables[0], login.email) == Some(user),
        !is_refused(tables[0], login),
    ensures
        accepted_login_progress(login, user, tables[0], states[at], tables[at]),
    decreases at,
{
    if at > 0 {
        accepted_login_run(login, user, states, tables, at - 1);
        if let LoginView::KeyIssued { id, key } = states[at - 1] {
            api_keys_are_hashable(key);
        }
    }
}

/// A login with the right password puts a fresh key in place of the old one.
///
/// The login is that of `user`, whom the store finds by the email address,
/// and it is not to be refused: the password is accepted for the digest that
/// the store holds. However the login is driven against the store, and
/// however often a candidate key was taken: it is never rejected and never
/// fails, for a key is always short enough to be hashed and the store always
/// answers. Once the
/// key is rotated, the key that is handed out has the shape of an API key and
/// was no user's key before: no digest that the store held accepts it, the
/// user's old digest no more than any other, so that it is not the key that
/// the user had. The user's row holds a digest of the new key, which is
/// accepted for it and is another than the old digest, and the store differs
/// from what it was in the key column of that row alone. Until then the
/// store is as it was.
pub proof fn accepted_login_rotates_the_key(
    login: UserLoginView,
    user: UserView,
    states: Seq<LoginView>,
    tables: Seq<Seq<UserView>>,
)
    requires
        is_login_run(states, tables),
        states.len() > 0,
        states[0] == (LoginView::Received { login }),
        is_user_table(tables[0]),
        row_by_email(tables[0], login.email) == Some(user),
        !is_refused(tables[0], login),
    ensures
        !(states.last() is Rejected),
        !(states.last() is Failed),
        match states.last() {
            LoginView::Rotated { key } => {
                &&& is_api_key(key)
                &&& !key_taken(tables[0], key)
                &&& !argon2_accepts(key, user.api_key)
                &&& tables.last()[user.id - 1].api_key != user.api_key
                &&& is_digest_of(key, tables.last()[user.id - 1].api_key)
                &&& tables.last() == tables[0].update(
                    user.id - 1,
                    with_api_key(user, tables.last()[user.id - 1].api_key),
                )
            },
            _ => tables.last() == tables[0],
        },
{
    accepted_login_run(login, user, states, tables, states.len() - 1);
}

} // verus!

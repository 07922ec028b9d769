//! Registrations that run against a store, and what holds of every such run.
//!
//! A run records the states that a registration went through and the tables
//! that the store held meanwhile. Whoever drives the registration, and
//! however often it has to draw a candidate key again, what is stated here of
//! runs holds of what that driver did.

use crate::database::DatabaseError;
use crate::hasher::is_digest_of;
use crate::hasher::is_hashable;
use crate::keygen::api_keys_are_hashable;
use crate::keygen::is_api_key;
use crate::models::NewUserView;
use crate::models::UserView;
use crate::registration::registration_ended;
use crate::registration::registration_request;
use crate::registration::registration_step;
use crate::registration::RegistrationView;
use crate::store::answering_keeps_the_table;
use crate::store::email_taken;
use crate::store::is_user_table;
use crate::store::key_taken;
use crate::store::rows_after;
use crate::store::store_reply;
use crate::store::username_taken;
use crate::user::is_hashed_user;
use crate::user::RegistrationError;
use crate::user::UserError;
use vstd::prelude::*;

verus! {

/// Whether `states` and `tables` record a registration that is driven against
/// a store: each state follows from the one before on the reply that the store
/// gave to its request, and each table is what the store held after that reply.
pub open spec fn is_registration_run(
    states: Seq<RegistrationView>,
    tables: Seq<Seq<UserView>>,
) -> bool {
    &&& states.len() == tables.len()
    &&& forall|i: int|
        0 <= i && i + 1 < states.len() ==> {
            let request = registration_request(#[trigger] states[i]);
            &&& registration_step(states[i], store_reply(tables[i], request), states[i + 1])
            &&& tables[i + 1] == rows_after(tables[i], request)
        }
}

/// However a registration is driven against a store, the store goes on
/// holding a user table: no username and no email address ever stands in two
/// rows.
pub proof fn registration_run_keeps_the_table(
    states: Seq<RegistrationView>,
    tables: Seq<Seq<UserView>>,
    at: int,
)
    requires
        is_registration_run(states, tables),
        0 <= at < states.len(),
        is_user_table(tables[0]),
        tables[0].len() + at <= i32::MAX,
    ensures
        is_user_table(tables[at]),
        tables[at].len() <= tables[0].len() + at,
    decreases at,
{
    if at > 0 {
        registration_run_keeps_the_table(states, tables, at - 1);
        answering_keeps_the_table(tables[at - 1], registration_request(states[at - 1]));
    }
}

/// How far a registration of `request` has come in `state`, against a store
/// that held `first` when the registration came in and holds `table` now,
/// where `first` had neither the username nor the email address: nothing but
/// a password that is too long stops it, the store changes only by the one
/// row, the row holds what was asked for, with a digest of the password and a
/// digest of the key, and the key is no other user's.
pub open spec fn fresh_registration_progress(
    request: NewUserView,
    first: Seq<UserView>,
    state: RegistrationView,
    table: Seq<UserView>,
) -> bool {
    match state {
        RegistrationView::Received { request: held } => held == request && table == first,
        RegistrationView::PasswordHashed { user, candidate } => {
            &&& is_hashed_user(request, user)
            &&& is_api_key(candidate)
            &&& table == first
        },
        RegistrationView::KeyIssued { user, key } => {
            &&& is_hashed_user(request, user)
            &&& is_api_key(key)
            &&& !key_taken(first, key)
            &&& table == first
        },
        RegistrationView::KeyHashed { record, key } => {
            &&& record.username == request.username
            &&& record.email == request.email
            &&& is_digest_of(request.password, record.password)
            &&& is_api_key(key)
            &&& !key_taken(first, key)
            &&& is_digest_of(key, record.api_key)
            &&& table == first
        },
        RegistrationView::Persisted { row, key } => {
            &&& row.username == request.username
            &&& row.email == request.email
            &&& is_digest_of(request.password, row.pasword)
            &&& is_api_key(key)
            &&& !key_taken(first, key)
            &&& is_digest_of(key, row.api_key)
            &&& table == first.push(row)
        },
        RegistrationView::Rejected { error } => {
            &&& error == RegistrationError::User(UserError::HashError)
            &&& !is_hashable(request.password)
            &&& table == first
        },
    }
}

/// The registration of a fresh username and email address, at each point of
/// its run.
proof fn fresh_registration_run(
    request: NewUserView,
    states: Seq<RegistrationView>,
    tables: Seq<Seq<UserView>>,
    at: int,
)
    requires
        is_registration_run(states, tables),
        0 <= at < states.len(),
        states[0] == (RegistrationView::Received { request }),
        !username_taken(tables[0], request.username),
        !email_taken(tables[0], request.email),
    ensures
        fresh_registration_progress(request, tables[0], states[at], tables[at]),
    decreases at,
{
    if at > 0 {
        fresh_registration_run(request, states, tables, at - 1);
        if let RegistrationView::KeyIssued { user, key } = states[at - 1] {
            api_keys_are_hashable(key);
        }
    }
}

/// Registering a username and an email address that the store does not hold
/// succeeds, unless the password is too long to be hashed.
///
/// However the registration is driven against the store, and however often a
/// candidate key was taken: it is rejected only for a password of more bytes
/// than the hasher takes, whatever else the password, the username and the
/// email address hold, and never for a conflict or for its key. Once it is
/// persisted, the store holds one row more, the row has the username and the
/// email address that were asked for, and it holds a digest of the password
/// and a digest of the key that is handed out. A digest of a secret is
/// accepted for the secret. The key has the shape of an API key, and it is no
/// other user's key: no digest that the store held before accepts it. Until
/// the registration is persisted, and if it is rejected, the store is as it
/// was.
pub proof fn fresh_registration_succeeds(
    request: NewUserView,
    states: Seq<RegistrationView>,
    tables: Seq<Seq<UserView>>,
)
    requires
        is_registration_run(states, tables),
        states.len() > 0,
        states[0] == (RegistrationView::Received { request }),
        !username_taken(tables[0], request.username),
        !email_taken(tables[0], request.email),
    ensures
        match states.last() {
            RegistrationView::Persisted { row, key } => {
                &&& row.username == request.username
                &&& row.email == request.email
                &&& is_digest_of(request.password, row.pasword)
                &&& is_api_key(key)
                &&& !key_taken(tables[0], key)
                &&& is_digest_of(key, row.api_key)
                &&& tables.last() == tables[0].push(row)
            },
            RegistrationView::Rejected { error } => {
                &&& error == RegistrationError::User(UserError::HashError)
                &&& !is_hashable(request.password)
                &&& tables.last() == tables[0]
            },
            _ => tables.last() == tables[0],
        },
{
    fresh_registration_run(request, states, tables, states.len() - 1);
}

/// How many steps a registration in `state` is from its end at most, as long
/// as no candidate key is taken.
pub open spec fn registration_steps_left(state: RegistrationView) -> nat {
    match state {
        RegistrationView::Received { request } => 4,
        RegistrationView::PasswordHashed { user, candidate } => 3,
        RegistrationView::KeyIssued { user, key } => 2,
        RegistrationView::KeyHashed { record, key } => 1,
        RegistrationView::Persisted { row, key } => 0,
        RegistrationView::Rejected { error } => 0,
    }
}

/// Whether the store has called no candidate key taken in the first `steps`
/// steps of the run.
pub open spec fn no_candidate_was_taken(
    states: Seq<RegistrationView>,
    tables: Seq<Seq<UserView>>,
    steps: int,
) -> bool {
    forall|i: int|
        0 <= i < steps && i < states.len() ==> (#[trigger] states[i]
            matches RegistrationView::PasswordHashed { user, candidate } ==> !key_taken(
            tables[i],
            candidate,
        ))
}

/// A registration comes one step nearer to its end with every step, unless
/// the store calls a candidate key taken.
///
/// After `at` steps without a taken candidate, the registration is `at`
/// steps nearer to its end than it was, or has ended. A registration that has
/// just come in has therefore ended after four steps.
pub proof fn registration_makes_progress(
    states: Seq<RegistrationView>,
    tables: Seq<Seq<UserView>>,
    at: int,
)
    requires
        is_registration_run(states, tables),
        0 <= at < states.len(),
        no_candidate_was_taken(states, tables, at),
    ensures
        registration_steps_left(states[at]) + at <= registration_steps_left(states[0])
            || registration_ended(states[at]),
        registration_steps_left(states[at]) == 0 <==> registration_ended(states[at]),
    decreases at,
{
    if at > 0 {
        registration_makes_progress(states, tables, at - 1);
    }
}

/// The failure that a registration of `request` ends in where `table` holds
/// its username or its email address: the username is looked at first.
pub open spec fn expected_conflict(table: Seq<UserView>, request: NewUserView) -> DatabaseError {
    if username_taken(table, request.username) {
        DatabaseError::UserameExists
    } else {
        DatabaseError::EmailExists
    }
}

/// How far a registration of `request` has come in `state`, against a store
/// that holds its username or its email address already: the store stays as
/// it is, and the registration does not get past the insertion.
pub open spec fn taken_registration_progress(
    request: NewUserView,
    first: Seq<UserView>,
    state: RegistrationView,
    table: Seq<UserView>,
) -> bool {
    &&& table == first
    &&& match state {
        RegistrationView::Received { request: held } => held == request,
        RegistrationView::PasswordHashed { user, candidate } => user.username == request.username
            && user.email == request.email && is_hashable(request.password) && is_api_key(
            candidate,
        ),
        RegistrationView::KeyIssued { user, key } => user.username == request.username
            && user.email == request.email && is_hashable(request.password) && is_api_key(key),
        RegistrationView::KeyHashed { record, key } => record.username == request.username
            && record.email == request.email && is_hashable(request.password),
        RegistrationView::Persisted { row, key } => false,
        RegistrationView::Rejected { error } => if is_hashable(request.password) {
            error == RegistrationError::Database(expected_conflict(first, request))
        } else {
            error == RegistrationError::User(UserError::HashError)
        },
    }
}

/// The registration of a taken username or email address, at each point of
/// its run.
proof fn taken_registration_run(
    request: NewUserView,
    states: Seq<RegistrationView>,
    tables: Seq<Seq<UserView>>,
    at: int,
)
    requires
        is_registration_run(states, tables),
        0 <= at < states.len(),
        states[0] == (RegistrationView::Received { request }),
        username_taken(tables[0], request.username) || email_taken(tables[0], request.email),
    ensures
        taken_registration_progress(request, tables[0], states[at], tables[at]),
    decreases at,
{
    if at > 0 {
        taken_registration_run(request, states, tables, at - 1);
        if let RegistrationView::KeyIssued { user, key } = states[at - 1] {
            api_keys_are_hashable(key);
        }
    }
}

/// Registering a username or an email address that the store holds already
/// fails, and leaves the store as it is.
///
/// However the registration is driven against the store: it is never
/// persisted. If it ends, it is rejected for the username where that is
/// taken and for the email address where only that is taken, unless the
/// password is too long to be hashed: then it is rejected for the password.
pub proof fn taken_registration_is_rejected(
    request: NewUserView,
    states: Seq<RegistrationView>,
    tables: Seq<Seq<UserView>>,
)
    requires
        is_registration_run(states, tables),
        states.len() > 0,
        states[0] == (RegistrationView::Received { request }),
        username_taken(tables[0], request.username) || email_taken(tables[0], request.email),
    ensures
        tables.last() == tables[0],
        !(states.last() is Persisted),
        states.last() matches RegistrationView::Rejected { error } ==> error == (if is_hashable(
            request.password,
        ) {
            RegistrationError::Database(expected_conflict(tables[0], request))
        } else {
            RegistrationError::User(UserError::HashError)
        }),
{
    taken_registration_run(request, states, tables, states.len() - 1);
}

/// A conflict that a registration reports is real, and a registration
/// reports nothing else of the store.
///
/// However the registration is driven against the store: if it is rejected
/// because the username exists, the store holds the username; if it is
/// rejected because the email address exists, the store holds the email
/// address and not the username; and it is rejected for nothing else but a
/// password that is too long to be hashed.
pub proof fn reported_conflicts_are_real(
    request: NewUserView,
    states: Seq<RegistrationView>,
    tables: Seq<Seq<UserView>>,
)
    requires
        is_registration_run(states, tables),
        states.len() > 0,
        states[0] == (RegistrationView::Received { request }),
    ensures
        states.last() matches RegistrationView::Rejected { error } ==> match error {
            RegistrationError::Database(DatabaseError::UserameExists) => username_taken(
                tables[0],
                request.username,
            ),
            RegistrationError::Database(DatabaseError::EmailExists) => email_taken(
                tables[0],
                request.email,
            ) && !username_taken(tables[0], request.username),
            RegistrationError::User(UserError::HashError) => !is_hashable(request.password),
            _ => false,
        },
{
    if username_taken(tables[0], request.username) || email_taken(tables[0], request.email) {
        taken_registration_is_rejected(request, states, tables);
    } else {
        fresh_registration_succeeds(request, states, tables);
    }
}

/// Of two registrations of one username, the first succeeds and the second
/// is rejected for the username, whatever the email addresses are.
///
/// The first run starts on a store that holds neither its username nor its
/// email address and ends persisted. The second run starts on the store as
/// the first left it and asks for the same username: it is never persisted,
/// leaves the store as it found it, and if it ends, it is rejected for the
/// username, unless its password is too long to be hashed.
pub proof fn same_username_twice(
    first: NewUserView,
    first_states: Seq<RegistrationView>,
    first_tables: Seq<Seq<UserView>>,
    second: NewUserView,
    second_states: Seq<RegistrationView>,
    second_tables: Seq<Seq<UserView>>,
)
    requires
        is_registration_run(first_states, first_tables),
        first_states.len() > 0,
        first_states[0] == (RegistrationView::Received { request: first }),
        !username_taken(first_tables[0], first.username),
        !email_taken(first_tables[0], first.email),
        first_states.last() is Persisted,
        is_registration_run(second_states, second_tables),
        second_states.len() > 0,
        second_states[0] == (RegistrationView::Received { request: second }),
        second_tables[0] == first_tables.last(),
        second.username == first.username,
    ensures
        !(second_states.last() is Persisted),
        second_tables.last() == first_tables.last(),
        second_states.last() matches RegistrationView::Rejected { error } ==> error == (if is_hashable(
            second.password,
        ) {
            RegistrationError::Database(DatabaseError::UserameExists)
        } else {
            RegistrationError::User(UserError::HashError)
        }),
{
    fresh_registration_succeeds(first, first_states, first_tables);
    let table = first_tables.last();
    assert(table[table.len() - 1].username == first.username);
    taken_registration_is_rejected(second, second_states, second_tables);
}

} // verus!

//! Two registrations that run against one store at the same time.
//!
//! The store answers one request at a time; in which order the two
//! registrations get their turns is open. Whatever the order, of two
//! registrations that ask for one username, or for one email address, one at
//! most is persisted.

use crate::database::DatabaseError;
use crate::hasher::is_hashable;
use crate::keygen::api_keys_are_hashable;
use crate::keygen::is_api_key;
use crate::models::NewUserView;
use crate::models::UserView;
use crate::registration::registration_ended;
use crate::registration::registration_request;
use crate::registration::registration_step;
use crate::registration::RegistrationView;
use crate::registration_runs::expected_conflict;
use crate::store::answering_keeps_the_table;
use crate::store::email_taken;
use crate::store::is_user_table;
use crate::store::rows_after;
use crate::store::store_reply;
use crate::store::username_taken;
use crate::user::RegistrationError;
use crate::user::UserError;
use vstd::prelude::*;

verus! {

/// Whether `left`, `right` and `tables` record two registrations that are
/// driven against one store at the same time: at each step one of the two
/// gets the store's reply to its request and moves on, while the other stays
/// where it is.
pub open spec fn is_joint_run(
    left: Seq<RegistrationView>,
    right: Seq<RegistrationView>,
    tables: Seq<Seq<UserView>>,
) -> bool {
    &&& left.len() == tables.len()
    &&& right.len() == tables.len()
    &&& forall|i: int|
        0 <= i && i + 1 < tables.len() ==> {
            let asked_left = registration_request(left[i]);
            let asked_right = registration_request(right[i]);
            ||| {
                &&& registration_step(
                    left[i],
                    store_reply(#[trigger] tables[i], asked_left),
                    left[i + 1],
                )
                &&& tables[i + 1] == rows_after(tables[i], asked_left)
                &&& right[i + 1] == right[i]
            }
            ||| {
                &&& registration_step(right[i], store_reply(tables[i], asked_right), right[i + 1])
                &&& tables[i + 1] == rows_after(tables[i], asked_right)
                &&& left[i + 1] == left[i]
            }
        }
}

/// However two registrations are interleaved, the store goes on holding a
/// user table: no username and no email address ever stands in two rows.
pub proof fn joint_run_keeps_the_table(
    left: Seq<RegistrationView>,
    right: Seq<RegistrationView>,
    tables: Seq<Seq<UserView>>,
    at: int,
)
    requires
        is_joint_run(left, right, tables),
        0 <= at < tables.len(),
        is_user_table(tables[0]),
        tables[0].len() + at <= i32::MAX,
    ensures
        is_user_table(tables[at]),
        tables[at].len() <= tables[0].len() + at,
    decreases at,
{
    if at > 0 {
        joint_run_keeps_the_table(left, right, tables, at - 1);
        answering_keeps_the_table(tables[at - 1], registration_request(left[at - 1]));
        answering_keeps_the_table(tables[at - 1], registration_request(right[at - 1]));
    }
}

/// Whether a registration of `request` in `state` still waits for its user to
/// be stored, or has given up because the password is too long to be hashed.
pub open spec fn is_waiting(state: RegistrationView, request: NewUserView) -> bool {
    match state {
        RegistrationView::Received { request: held } => held == request,
        RegistrationView::PasswordHashed { user, candidate } => user.username == request.username
            && user.email == request.email && is_api_key(candidate),
        RegistrationView::KeyIssued { user, key } => user.username == request.username
            && user.email == request.email && is_api_key(key),
        RegistrationView::KeyHashed { record, key } => record.username == request.username
            && record.email == request.email,
        RegistrationView::Persisted { row, key } => false,
        RegistrationView::Rejected { error } => error == RegistrationError::User(
            UserError::HashError,
        ) && !is_hashable(request.password),
    }
}

/// Whether a registration of `request` in `state` has won the race: its user
/// is the one row that `table` holds more than `first`.
pub open spec fn has_won(
    state: RegistrationView,
    request: NewUserView,
    first: Seq<UserView>,
    table: Seq<UserView>,
) -> bool {
    &&& state matches RegistrationView::Persisted { row, key }
    &&& row.username == request.username
    &&& row.email == request.email
    &&& table == first.push(row)
}

/// Whether a registration of `request` in `state` has lost the race against
/// the one whose row `table` holds: it still waits, or it has been rejected
/// for what that row has taken.
pub open spec fn has_lost(
    state: RegistrationView,
    request: NewUserView,
    table: Seq<UserView>,
) -> bool {
    ||| is_waiting(state, request)
    ||| state == (RegistrationView::Rejected {
        error: RegistrationError::Database(expected_conflict(table, request)),
    })
}

/// How far two registrations that ask for one username or for one email
/// address have come: the store holds what it held and both wait, or it
/// holds one row more, which one of them has stored, and the other has lost.
pub open spec fn race_progress(
    one: NewUserView,
    other: NewUserView,
    first: Seq<UserView>,
    left: RegistrationView,
    right: RegistrationView,
    table: Seq<UserView>,
) -> bool {
    ||| table == first && is_waiting(left, one) && is_waiting(right, other)
    ||| has_won(left, one, first, table) && has_lost(right, other, table)
    ||| has_won(right, other, first, table) && has_lost(left, one, table)
}

/// Whether the two requests cannot both be granted.
pub open spec fn collide(one: NewUserView, other: NewUserView) -> bool {
    one.username == other.username || one.email == other.email
}

/// Neither request collides with a row of `table`.
pub open spec fn both_are_fresh(table: Seq<UserView>, one: NewUserView, other: NewUserView) -> bool {
    &&& !username_taken(table, one.username)
    &&& !email_taken(table, one.email)
    &&& !username_taken(table, other.username)
    &&& !email_taken(table, other.email)
}

/// One step of one of the two registrations, while the other stays where it
/// is.
proof fn race_step(
    mine: NewUserView,
    yours: NewUserView,
    first: Seq<UserView>,
    mover: RegistrationView,
    stayer: RegistrationView,
    table: Seq<UserView>,
    moved: RegistrationView,
)
    requires
        collide(mine, yours),
        both_are_fresh(first, mine, yours),
        race_progress(mine, yours, first, mover, stayer, table),
        registration_step(mover, store_reply(table, registration_request(mover)), moved),
    ensures
        race_progress(
            mine,
            yours,
            first,
            moved,
            stayer,
            rows_after(table, registration_request(mover)),
        ),
{
    if mover is KeyHashed && table != first {
        let last = table[table.len() - 1];
        assert(last.username == yours.username && last.email == yours.email);
    }
    if let RegistrationView::KeyIssued { user, key } = mover {
        api_keys_are_hashable(key);
    }
}

/// The two registrations at each point of their run.
proof fn race_run(
    one: NewUserView,
    other: NewUserView,
    left: Seq<RegistrationView>,
    right: Seq<RegistrationView>,
    tables: Seq<Seq<UserView>>,
    at: int,
)
    requires
        is_joint_run(left, right, tables),
        0 <= at < tables.len(),
        left[0] == (RegistrationView::Received { request: one }),
        right[0] == (RegistrationView::Received { request: other }),
        collide(one, other),
        both_are_fresh(tables[0], one, other),
    ensures
        race_progress(one, other, tables[0], left[at], right[at], tables[at]),
    decreases at,
{
    if at > 0 {
        race_run(one, other, left, right, tables, at - 1);
        let table = tables[at - 1];
        let asked = registration_request(left[at - 1]);
        if registration_step(left[at - 1], store_reply(table, asked), left[at]) && tables[at]
            == rows_after(table, asked) && right[at] == right[at - 1] {
            race_step(one, other, tables[0], left[at - 1], right[at - 1], table, left[at]);
        } else {
            race_step(other, one, tables[0], right[at - 1], left[at - 1], table, right[at]);
        }
    }
}

/// Of two registrations that ask for one username or for one email address
/// at the same time, one at most succeeds, and the other is rejected for
/// what the first has taken.
///
/// Neither request collides with what the store holds. However the steps of
/// the two are interleaved, as long as the store answers one request at a
/// time: the two are never both persisted; once one is persisted, the store
/// holds its row and no other new row; and once both have ended, then, unless
/// a password is too long to be hashed, one is persisted and the other is
/// rejected, for the username if the two share it, and else for the email
/// address.
pub proof fn colliding_registrations_at_the_same_time(
    one: NewUserView,
    other: NewUserView,
    left: Seq<RegistrationView>,
    right: Seq<RegistrationView>,
    tables: Seq<Seq<UserView>>,
)
    requires
        is_joint_run(left, right, tables),
        tables.len() > 0,
        left[0] == (RegistrationView::Received { request: one }),
        right[0] == (RegistrationView::Received { request: other }),
        collide(one, other),
        both_are_fresh(tables[0], one, other),
    ensures
        !(left.last() is Persisted && right.last() is Persisted),
        left.last() matches RegistrationView::Persisted { row, key } ==> tables.last()
            == tables[0].push(row),
        right.last() matches RegistrationView::Persisted { row, key } ==> tables.last()
            == tables[0].push(row),
        !(left.last() is Persisted) && !(right.last() is Persisted) ==> tables.last() == tables[0],
        ({
            let conflict = RegistrationView::Rejected {
                error: RegistrationError::Database(
                    if one.username == other.username {
                        DatabaseError::UserameExists
                    } else {
                        DatabaseError::EmailExists
                    },
                ),
            };
            registration_ended(left.last()) && registration_ended(right.last()) && is_hashable(
                one.password,
            ) && is_hashable(other.password) ==> {
                ||| left.last() is Persisted && right.last() == conflict
                ||| right.last() is Persisted && left.last() == conflict
            }
        }),
{
    race_run(one, other, left, right, tables, tables.len() - 1);
    let table = tables.last();
    if table != tables[0] {
        let last = table[table.len() - 1];
        assert(last.username == one.username || last.username == other.username);
    }
}

/// Of two registrations of one username that are under way at the same time,
/// one at most succeeds, and the other is rejected because the username
/// exists.
///
/// The two ask for one username and for two email addresses, none of which
/// the store holds. However their steps are interleaved, as long as the store
/// answers one request at a time: the two are never both persisted, and once
/// both have ended, then, unless a password is too long to be hashed, one is
/// persisted and the other is rejected because the username exists.
pub proof fn same_username_at_the_same_time(
    one: NewUserView,
    other: NewUserView,
    left: Seq<RegistrationView>,
    right: Seq<RegistrationView>,
    tables: Seq<Seq<UserView>>,
)
    requires
        is_joint_run(left, right, tables),
        tables.len() > 0,
        left[0] == (RegistrationView::Received { request: one }),
        right[0] == (RegistrationView::Received { request: other }),
        one.username == other.username,
        one.email != other.email,
        both_are_fresh(tables[0], one, other),
    ensures
        !(left.last() is Persisted && right.last() is Persisted),
        ({
            let username_exists = RegistrationView::Rejected {
                error: RegistrationError::Database(DatabaseError::UserameExists),
            };
            registration_ended(left.last()) && registration_ended(right.last()) && is_hashable(
                one.password,
            ) && is_hashable(other.password) ==> {
                ||| left.last() is Persisted && right.last() == username_exists
                ||| right.last() is Persisted && left.last() == username_exists
            }
        }),
{
    colliding_registrations_at_the_same_time(one, other, left, right, tables);
}

} // verus!

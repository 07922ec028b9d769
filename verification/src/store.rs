//! The user record store as the workflows see it: the questions they put to
//! it, the answers it owes, and a store in memory that answers by the book.
//!
//! A store is a table of users in which no two rows share a username or an
//! email address. It inserts a row if neither is taken and says which one was
//! if not, finds a row by email address, tells whether a candidate key is
//! some user's key already, and overwrites the key column of one row.
//!
//! The key column holds digests, each under a salt of its own, so a key is
//! not found there by comparing texts: a candidate is some user's key if that
//! user's digest accepts it.
//!
//! A store that cannot answer says so with the reply `Failed`. The store that
//! this contract describes always answers.

use crate::database::ConflictField;
use crate::database::UpdateFailure;
use crate::hasher::argon2_accepts;
use crate::hasher::verify;
use crate::models::NewUserWithApiKey;
use crate::models::NewUserWithApiKeyView;
use crate::models::User;
use crate::models::UserView;
use vstd::prelude::*;

verus! {

/// What a workflow needs from the store before it can go on.
#[derive(Clone, Debug)]
pub enum StoreRequest {
    /// Nothing: the workflow can go on by itself, or has ended.
    Nothing,
    /// The user with this email address.
    FindByEmail { email: String },
    /// Whether this candidate is the key of some user.
    KeyLookup { candidate: String },
    /// The insertion of this user.
    Insert { record: NewUserWithApiKey },
    /// The replacement of the key column of the user with this id.
    UpdateApiKey { id: i32, api_key: String },
}

/// What the store answers.
#[derive(Debug)]
pub enum StoreReply {
    /// Nothing was asked.
    Nothing,
    /// The user that was looked for, if there is one.
    Found(Option<User>),
    /// Whether the candidate is taken.
    KeyLookup { taken: bool },
    /// The row that was inserted, or the column that collided.
    Inserted(Result<User, ConflictField>),
    /// Whether the key column was overwritten.
    Updated(Result<(), UpdateFailure>),
    /// The store failed to answer what it was asked.
    Failed,
}

/// A `StoreRequest` as mathematical text.
pub enum StoreRequestView {
    Nothing,
    FindByEmail { email: Seq<char> },
    KeyLookup { candidate: Seq<char> },
    Insert { record: NewUserWithApiKeyView },
    UpdateApiKey { id: int, api_key: Seq<char> },
}

/// A `StoreReply` as mathematical text.
pub enum StoreReplyView {
    Nothing,
    Found(Option<UserView>),
    KeyLookup { taken: bool },
    Inserted(Result<UserView, ConflictField>),
    Updated(Result<(), UpdateFailure>),
    Failed,
}

impl View for StoreRequest {
    type V = StoreRequestView;

    open spec fn view(&self) -> StoreRequestView {
        match self {
            StoreRequest::Nothing => StoreRequestView::Nothing,
            StoreRequest::FindByEmail { email } => StoreRequestView::FindByEmail { email: email@ },
            StoreRequest::KeyLookup { candidate } => StoreRequestView::KeyLookup {
                candidate: candidate@,
            },
            StoreRequest::Insert { record } => StoreRequestView::Insert { record: record@ },
            StoreRequest::UpdateApiKey { id, api_key } => StoreRequestView::UpdateApiKey {
                id: *id as int,
                api_key: api_key@,
            },
        }
    }
}

impl View for StoreReply {
    type V = StoreReplyView;

    open spec fn view(&self) -> StoreReplyView {
        match self {
            StoreReply::Nothing => StoreReplyView::Nothing,
            StoreReply::Found(user) => StoreReplyView::Found(
                match user {
                    Some(user) => Some(user@),
                    None => None,
                },
            ),
            StoreReply::KeyLookup { taken } => StoreReplyView::KeyLookup { taken: *taken },
            StoreReply::Inserted(outcome) => StoreReplyView::Inserted(
                match outcome {
                    Ok(user) => Ok(user@),
                    Err(field) => Err(*field),
                },
            ),
            StoreReply::Updated(outcome) => StoreReplyView::Updated(*outcome),
            StoreReply::Failed => StoreReplyView::Failed,
        }
    }
}

/// Whether some row of `rows` has the username.
pub open spec fn username_taken(rows: Seq<UserView>, username: Seq<char>) -> bool {
    exists|i: int| 0 <= i < rows.len() && (#[trigger] rows[i]).username == username
}

/// Whether some row of `rows` has the email address.
pub open spec fn email_taken(rows: Seq<UserView>, email: Seq<char>) -> bool {
    exists|i: int| 0 <= i < rows.len() && (#[trigger] rows[i]).email == email
}

/// Whether `candidate` is the key of some user in `rows`: whether the digest
/// in the key column of some row accepts it.
pub open spec fn key_taken(rows: Seq<UserView>, candidate: Seq<char>) -> bool {
    exists|i: int| 0 <= i < rows.len() && argon2_accepts(candidate, (#[trigger] rows[i]).api_key)
}

/// Whether one of `digests` accepts `candidate`.
pub open spec fn accepted_by_one(candidate: Seq<char>, digests: Seq<String>) -> bool {
    exists|i: int| 0 <= i < digests.len() && argon2_accepts(candidate, (#[trigger] digests[i])@)
}

/// Whether `candidate` is taken, given the digests of a store's key column:
/// whether one of them accepts it. Every digest is tried in turn.
pub fn key_is_taken(candidate: &str, digests: &Vec<String>) -> (taken: bool)
    ensures
        taken == accepted_by_one(candidate@, digests@),
{
    let mut at: usize = 0;
    while at < digests.len()
        invariant
            at <= digests.len(),
            forall|i: int| 0 <= i < at ==> !argon2_accepts(candidate@, (#[trigger] digests@[i])@),
        decreases digests.len() - at,
    {
        if verify(candidate, digests[at].as_str()) {
            return true;
        }
        at = at + 1;
    }
    false
}

/// What makes `rows` a user table: the row at position `i` has id `i + 1`, no
/// two rows share a username, no two share an email address, and the ids fit
/// their type.
pub open spec fn is_user_table(rows: Seq<UserView>) -> bool {
    &&& rows.len() <= i32::MAX
    &&& forall|i: int| 0 <= i < rows.len() ==> (#[trigger] rows[i]).id == i + 1
    &&& forall|i: int, j: int|
        0 <= i < j < rows.len() ==> (#[trigger] rows[i]).username != (#[trigger] rows[j]).username
    &&& forall|i: int, j: int|
        0 <= i < j < rows.len() ==> (#[trigger] rows[i]).email != (#[trigger] rows[j]).email
}

/// The column on which inserting `record` into `rows` collides, the username
/// before the email address; `None` if it collides on neither.
pub open spec fn insert_conflict(rows: Seq<UserView>, record: NewUserWithApiKeyView) -> Option<
    ConflictField,
> {
    if username_taken(rows, record.username) {
        Some(ConflictField::Username)
    } else if email_taken(rows, record.email) {
        Some(ConflictField::Email)
    } else {
        None
    }
}

/// The row that `record` becomes when it is inserted into `rows`.
pub open spec fn inserted_row(rows: Seq<UserView>, record: NewUserWithApiKeyView) -> UserView {
    UserView {
        id: rows.len() as int + 1,
        username: record.username,
        email: record.email,
        pasword: record.password,
        api_key: record.api_key,
    }
}

/// The row of `rows` with the email address, if there is one.
pub open spec fn row_by_email(rows: Seq<UserView>, email: Seq<char>) -> Option<UserView> {
    if email_taken(rows, email) {
        Some(rows[choose|i: int| 0 <= i < rows.len() && (#[trigger] rows[i]).email == email])
    } else {
        None
    }
}

/// The row of `rows` with the username, if there is one.
pub open spec fn row_by_username(rows: Seq<UserView>, username: Seq<char>) -> Option<UserView> {
    if username_taken(rows, username) {
        Some(rows[choose|i: int| 0 <= i < rows.len() && (#[trigger] rows[i]).username == username])
    } else {
        None
    }
}

/// `row` with `api_key` in its key column.
pub open spec fn with_api_key(row: UserView, api_key: Seq<char>) -> UserView {
    UserView { api_key, ..row }
}

/// What a store that holds `rows` answers to `request`.
pub open spec fn store_reply(rows: Seq<UserView>, request: StoreRequestView) -> StoreReplyView {
    match request {
        StoreRequestView::Nothing => StoreReplyView::Nothing,
        StoreRequestView::FindByEmail { email } => StoreReplyView::Found(row_by_email(rows, email)),
        StoreRequestView::KeyLookup { candidate } => StoreReplyView::KeyLookup {
            taken: key_taken(rows, candidate),
        },
        StoreRequestView::Insert { record } => StoreReplyView::Inserted(
            match insert_conflict(rows, record) {
                Some(field) => Err(field),
                None => Ok(inserted_row(rows, record)),
            },
        ),
        StoreRequestView::UpdateApiKey { id, api_key } => StoreReplyView::Updated(
            if 1 <= id <= rows.len() {
                Ok(())
            } else {
                Err(UpdateFailure)
            },
        ),
    }
}

/// What a store that held `rows` holds once it has answered `request`.
pub open spec fn rows_after(rows: Seq<UserView>, request: StoreRequestView) -> Seq<UserView> {
    match request {
        StoreRequestView::Insert { record } => if insert_conflict(rows, record) is None {
            rows.push(inserted_row(rows, record))
        } else {
            rows
        },
        StoreRequestView::UpdateApiKey { id, api_key } => if 1 <= id <= rows.len() {
            rows.update(id - 1, with_api_key(rows[id - 1], api_key))
        } else {
            rows
        },
        _ => rows,
    }
}

/// In a user table, a username names one row at most, and so does an email
/// address.
pub proof fn names_are_unique(rows: Seq<UserView>, i: int, j: int)
    requires
        is_user_table(rows),
        0 <= i < rows.len(),
        0 <= j < rows.len(),
        rows[i].username == rows[j].username || rows[i].email == rows[j].email,
    ensures
        i == j,
{
}

/// Whatever a store is asked, what it holds stays a user table: ids go on
/// counting from one, and no username and no email address comes to stand in
/// two rows.
pub proof fn answering_keeps_the_table(rows: Seq<UserView>, request: StoreRequestView)
    requires
        is_user_table(rows),
        request is Insert ==> rows.len() < i32::MAX,
    ensures
        is_user_table(rows_after(rows, request)),
{
}

} // verus!

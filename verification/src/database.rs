//! The failures of the credential workflows and of the user record store.

use vstd::prelude::*;

verus! {

/// Every way in which registering a user or logging one in can fail.
#[derive(Clone, Copy, Debug, PartialEq, Eq, Structural)]
pub enum DatabaseError {
    /// The environment names no store to connect to.
    NoUrl,
    /// The connection pool could not open its minimum number of connections.
    PoolMinumumConnection,
    /// No connection became free in time.
    ConnectionTimeout,
    /// Another user already has the username.
    UserameExists,
    /// Another user already has the email address.
    EmailExists,
    /// A secret could not be hashed.
    HashError,
    /// No such user, or the password is wrong; the two are not told apart.
    Unauthorized,
    /// The password was right, but the rotated key could not be stored.
    UpdateError,
    /// The store failed to answer, for no reason that has a kind of its own.
    QueryError,
}

impl DatabaseError {
    /// The text shown for each failure.
    pub open spec fn message(self) -> Seq<char> {
        match self {
            DatabaseError::NoUrl => "There is no database url in the enviroment."@,
            DatabaseError::PoolMinumumConnection => "Pool is unable to open minumum connections."@,
            DatabaseError::ConnectionTimeout => "Connection timeout."@,
            DatabaseError::UserameExists => "Username exists choose another one."@,
            DatabaseError::EmailExists => "Email exists choose another one."@,
            DatabaseError::HashError => "Unable to hash api key."@,
            DatabaseError::Unauthorized => "Unauthorized"@,
            DatabaseError::UpdateError => "Cannot update the api key."@,
            DatabaseError::QueryError => "Cannot query the database."@,
        }
    }

    /// The failure as text.
    pub fn to_string(&self) -> (text: String)
        ensures
            text@ == self.message(),
    {
        match self {
            DatabaseError::NoUrl => "There is no database url in the enviroment.".to_owned(),
            DatabaseError::PoolMinumumConnection => "Pool is unable to open minumum connections.".to_owned(),
            DatabaseError::ConnectionTimeout => "Connection timeout.".to_owned(),
            DatabaseError::UserameExists => "Username exists choose another one.".to_owned(),
            DatabaseError::EmailExists => "Email exists choose another one.".to_owned(),
            DatabaseError::HashError => "Unable to hash api key.".to_owned(),
            DatabaseError::Unauthorized => "Unauthorized".to_owned(),
            DatabaseError::UpdateError => "Cannot update the api key.".to_owned(),
            DatabaseError::QueryError => "Cannot query the database.".to_owned(),
        }
    }
}

/// The unique column on which an insert into the user table collided.
#[derive(Clone, Copy, Debug, PartialEq, Eq, Structural)]
pub enum ConflictField {
    Username,
    Email,
}

/// The store could not overwrite the field it was asked to overwrite.
#[derive(Clone, Copy, Debug, PartialEq, Eq, Structural)]
pub struct UpdateFailure;

/// The workflow failure that stands for a collision on `field`.
pub open spec fn conflict_error(field: ConflictField) -> DatabaseError {
    match field {
        ConflictField::Username => DatabaseError::UserameExists,
        ConflictField::Email => DatabaseError::EmailExists,
    }
}

impl ConflictField {
    /// The workflow failure that stands for a collision on this column.
    pub fn error(self) -> (error: DatabaseError)
        ensures
            error == conflict_error(self),
    {
        match self {
            ConflictField::Username => DatabaseError::UserameExists,
            ConflictField::Email => DatabaseError::EmailExists,
        }
    }
}

/// The ASCII code of `:`.
pub const COLON: u8 = 0x3a;

/// The ASCII code of `.`.
pub const DOT: u8 = 0x2e;

/// What follows the first `mark` in `text`; `None` where `text` holds no
/// `mark`.
pub open spec fn after_first(text: Seq<u8>, mark: u8) -> Option<Seq<u8>>
    decreases text.len(),
{
    if text.len() == 0 {
        None
    } else if text[0] == mark {
        Some(text.skip(1))
    } else {
        after_first(text.skip(1), mark)
    }
}

/// The word `username` in ASCII.
pub open spec fn username_word() -> Seq<u8> {
    seq![0x75u8, 0x73u8, 0x65u8, 0x72u8, 0x6eu8, 0x61u8, 0x6du8, 0x65u8]
}

/// The word `email` in ASCII.
pub open spec fn email_word() -> Seq<u8> {
    seq![0x65u8, 0x6du8, 0x61u8, 0x69u8, 0x6cu8]
}

/// The unique column that a store's message about a failed insert names.
///
/// Such a message reads `UNIQUE constraint failed: users.username`: the column
/// is what follows the first `.` after the first `:`. Where that is the word
/// `username`, the username collided; where it is the word `email`, the email
/// address. Any other message names no unique column: the insert failed for
/// another reason than a conflict.
pub open spec fn named_conflict(message: Seq<u8>) -> Option<ConflictField> {
    match after_first(message, COLON) {
        Some(table_and_column) => match after_first(table_and_column, DOT) {
            Some(column) => if column == username_word() {
                Some(ConflictField::Username)
            } else if column == email_word() {
                Some(ConflictField::Email)
            } else {
                None
            },
            None => None,
        },
        None => None,
    }
}

/// What follows the first `mark` in `text`.
fn rest_after(text: &[u8], mark: u8) -> (rest: Option<&[u8]>)
    ensures
        match rest {
            Some(bytes) => after_first(text@, mark) == Some(bytes@),
            None => after_first(text@, mark) is None,
        },
{
    let mut at: usize = 0;
    assert(text@.skip(0) == text@);
    while at < text.len()
        invariant
            at <= text.len(),
            after_first(text@, mark) == after_first(text@.skip(at as int), mark),
        decreases text.len() - at,
    {
        if text[at] == mark {
            let rest = vstd::slice::slice_subrange(text, at + 1, text.len());
            return Some(rest);
        }
        assert(text@.skip(at as int).skip(1) == text@.skip(at + 1));
        at = at + 1;
    }
    None
}

/// Whether `text` is the word `username`.
fn is_username_word(text: &[u8]) -> (same: bool)
    ensures
        same == (text@ == username_word()),
{
    let same = text.len() == 8 && text[0] == 0x75 && text[1] == 0x73 && text[2] == 0x65 && text[3]
        == 0x72 && text[4] == 0x6e && text[5] == 0x61 && text[6] == 0x6d && text[7] == 0x65;
    assert(same ==> text@ =~= username_word());
    same
}

/// Whether `text` is the word `email`.
fn is_email_word(text: &[u8]) -> (same: bool)
    ensures
        same == (text@ == email_word()),
{
    let same = text.len() == 5 && text[0] == 0x65 && text[1] == 0x6d && text[2] == 0x61 && text[3]
        == 0x69 && text[4] == 0x6c;
    assert(same ==> text@ =~= email_word());
    same
}

/// The unique column that a store's message about a failed insert names, if
/// it names one.
pub fn conflict_field(message: &[u8]) -> (field: Option<ConflictField>)
    ensures
        field == named_conflict(message@),
{
    match rest_after(message, COLON) {
        Some(table_and_column) => match rest_after(table_and_column, DOT) {
            Some(column) => if is_username_word(column) {
                Some(ConflictField::Username)
            } else if is_email_word(column) {
                Some(ConflictField::Email)
            } else {
                None
            },
            None => None,
        },
        None => None,
    }
}

} // verus!

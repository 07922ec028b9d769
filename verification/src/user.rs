//! The first step of a registration, hashing the password, and the last one,
//! the reply to the caller.

use crate::database::DatabaseError;
use crate::hasher::hash;
use crate::hasher::is_digest_of;
use crate::hasher::is_hashable;
use crate::models::NewUser;
use crate::models::NewUserView;
use crate::models::User;
use crate::models::UserView;
use crate::models::UserWithoutPassword;
use crate::models::UserWithoutPasswordView;
use vstd::prelude::*;
use vstd::string::StringExecFns;

verus! {

/// Why a registration could not begin.
#[derive(Clone, Copy, Debug, PartialEq, Eq, Structural)]
pub enum UserError {
    /// The password could not be hashed.
    HashError,
}

impl UserError {
    /// The text shown for the failure.
    pub open spec fn message(self) -> Seq<char> {
        "Unable to hash the password."@
    }

    /// The failure as text.
    pub fn to_string(&self) -> (text: String)
        ensures
            text@ == self.message(),
    {
        "Unable to hash the password.".to_owned()
    }
}

/// Whether `hashed` is `new_user` with a digest of the password in place of
/// the password.
pub open spec fn is_hashed_user(new_user: NewUserView, hashed: NewUserView) -> bool {
    &&& hashed.username == new_user.username
    &&& hashed.email == new_user.email
    &&& is_digest_of(new_user.password, hashed.password)
}

/// Replaces the password of `new_user` by a digest of it, under a salt drawn
/// for this call. Hashing succeeds whatever the password holds, unless the
/// password is too long; what comes back is then the user with the digest,
/// and else the failure `HashError`.
pub fn hash_user(new_user: &NewUser) -> (hashed: Result<NewUser, UserError>)
    ensures
        hashed is Ok <==> is_hashable(new_user@.password),
        match hashed {
            Ok(made) => is_hashed_user(new_user@, made@),
            Err(error) => error == UserError::HashError,
        },
{
    match hash(new_user.password.as_str()) {
        Ok(digest) => Ok(
            NewUser {
                username: new_user.username.clone(),
                email: new_user.email.clone(),
                password: digest,
            },
        ),
        Err(_) => Err(UserError::HashError),
    }
}

/// Why a registration failed.
#[derive(Clone, Copy, Debug, PartialEq, Eq, Structural)]
pub enum RegistrationError {
    /// The password could not be hashed: the registration failed before it
    /// drew a key or asked the store for anything.
    User(UserError),
    /// The registration failed later: the key could not be hashed, or the
    /// store did not take the user.
    Database(DatabaseError),
}

impl RegistrationError {
    /// The text shown for the failure.
    pub open spec fn message(self) -> Seq<char> {
        match self {
            RegistrationError::User(error) => error.message(),
            RegistrationError::Database(error) => error.message(),
        }
    }

    /// The failure as text.
    pub fn to_string(&self) -> (text: String)
        ensures
            text@ == self.message(),
    {
        match self {
            RegistrationError::User(error) => error.to_string(),
            RegistrationError::Database(error) => error.to_string(),
        }
    }
}

/// What the caller of a registration is told.
#[derive(Debug)]
pub enum RegisterReply {
    /// The user was created: status 201, with the user as the body.
    Created(UserWithoutPassword),
    /// The username or the email address is taken: status 409.
    Conflict(String),
    /// The registration failed for another reason: status 500.
    InternalServerError(String),
}

/// A `RegisterReply` as mathematical text.
pub enum RegisterReplyView {
    Created(UserWithoutPasswordView),
    Conflict(Seq<char>),
    InternalServerError(Seq<char>),
}

impl View for RegisterReply {
    type V = RegisterReplyView;

    open spec fn view(&self) -> RegisterReplyView {
        match self {
            RegisterReply::Created(user) => RegisterReplyView::Created(user@),
            RegisterReply::Conflict(text) => RegisterReplyView::Conflict(text@),
            RegisterReply::InternalServerError(text) => RegisterReplyView::InternalServerError(
                text@,
            ),
        }
    }
}

/// The HTTP status that goes with `reply`.
pub open spec fn status_of(reply: RegisterReplyView) -> u16 {
    match reply {
        RegisterReplyView::Created(_) => 201,
        RegisterReplyView::Conflict(_) => 409,
        RegisterReplyView::InternalServerError(_) => 500,
    }
}

/// What the caller is told of a registration of `new_user` that ended in
/// `outcome`: the public fields of the stored user with the key in plain
/// text, which taken name stood in the way, or the text of the failure, which
/// for a password that could not be hashed is another than for a key.
pub open spec fn reply_to(
    outcome: Result<(UserView, Seq<char>), RegistrationError>,
    new_user: NewUserView,
) -> RegisterReplyView {
    match outcome {
        Ok((user, key)) => RegisterReplyView::Created(
            UserWithoutPasswordView { username: user.username, email: user.email, api_key: key },
        ),
        Err(RegistrationError::Database(DatabaseError::UserameExists)) => RegisterReplyView::Conflict(
            "This username exists: "@ + new_user.username,
        ),
        Err(RegistrationError::Database(DatabaseError::EmailExists)) => RegisterReplyView::Conflict(
            "This email exists: "@ + new_user.email,
        ),
        Err(error) => RegisterReplyView::InternalServerError(error.message()),
    }
}

impl RegisterReply {
    /// The HTTP status that goes with the reply.
    pub fn status(&self) -> (code: u16)
        ensures
            code == status_of(self@),
    {
        match self {
            RegisterReply::Created(_) => 201,
            RegisterReply::Conflict(_) => 409,
            RegisterReply::InternalServerError(_) => 500,
        }
    }
}

/// The reply to the caller who asked to register `new_user`, once the
/// registration has ended in `outcome`.
pub fn register_reply(
    outcome: Result<(User, String), RegistrationError>,
    new_user: &NewUser,
) -> (reply: RegisterReply)
    ensures
        reply@ == reply_to(
            match outcome {
                Ok((user, key)) => Ok((user@, key@)),
                Err(error) => Err(error),
            },
            new_user@,
        ),
{
    match outcome {
        Ok((user, key)) => RegisterReply::Created(
            UserWithoutPassword { username: user.username, email: user.email, api_key: key },
        ),
        Err(RegistrationError::Database(DatabaseError::UserameExists)) => RegisterReply::Conflict(
            "This username exists: ".to_owned().concat(new_user.username.as_str()),
        ),
        Err(RegistrationError::Database(DatabaseError::EmailExists)) => RegisterReply::Conflict(
            "This email exists: ".to_owned().concat(new_user.email.as_str()),
        ),
        Err(error) => RegisterReply::InternalServerError(error.to_string()),
    }
}

} // verus!

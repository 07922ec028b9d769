//! The records that travel through registration and login.

use vstd::prelude::*;

verus! {

/// What a caller sends to register: a username, an email address and a
/// password. Once the password has been hashed, the same shape carries the
/// hash in `password`.
#[derive(Clone, Debug)]
pub struct NewUser {
    pub username: String,
    pub email: String,
    pub password: String,
}

/// A user ready to be stored: the password hash and the hash of the API key
/// that was issued for the user.
#[derive(Clone, Debug)]
pub struct NewUserWithApiKey {
    pub username: String,
    pub email: String,
    pub password: String,
    pub api_key: String,
}

/// A stored user. `pasword` holds the password hash and `api_key` the hash of
/// the one key that is currently valid for the user.
#[derive(Clone, Debug)]
pub struct User {
    pub id: i32,
    pub username: String,
    pub email: String,
    pub pasword: String,
    pub api_key: String,
}

/// What a caller gets back from a registration: the public fields of the new
/// user and the API key in plain text, shown this once.
#[derive(Clone, Debug)]
pub struct UserWithoutPassword {
    pub username: String,
    pub email: String,
    pub api_key: String,
}

/// What a caller sends to log in.
#[derive(Clone, Debug)]
pub struct UserLogin {
    pub email: String,
    pub password: String,
}

/// A `NewUser` as mathematical text.
pub struct NewUserView {
    pub username: Seq<char>,
    pub email: Seq<char>,
    pub password: Seq<char>,
}

/// A `NewUserWithApiKey` as mathematical text.
pub struct NewUserWithApiKeyView {
    pub username: Seq<char>,
    pub email: Seq<char>,
    pub password: Seq<char>,
    pub api_key: Seq<char>,
}

/// A `User` as mathematical text.
pub struct UserView {
    pub id: int,
    pub username: Seq<char>,
    pub email: Seq<char>,
    pub pasword: Seq<char>,
    pub api_key: Seq<char>,
}

/// A `UserWithoutPassword` as mathematical text.
pub struct UserWithoutPasswordView {
    pub username: Seq<char>,
    pub email: Seq<char>,
    pub api_key: Seq<char>,
}

/// A `UserLogin` as mathematical text.
pub struct UserLoginView {
    pub email: Seq<char>,
    pub password: Seq<char>,
}

impl View for NewUser {
    type V = NewUserView;

    open spec fn view(&self) -> NewUserView {
        NewUserView { username: self.username@, email: self.email@, password: self.password@ }
    }
}

impl View for NewUserWithApiKey {
    type V = NewUserWithApiKeyView;

    open spec fn view(&self) -> NewUserWithApiKeyView {
        NewUserWithApiKeyView {
            username: self.username@,
            email: self.email@,
            password: self.password@,
            api_key: self.api_key@,
        }
    }
}

impl View for User {
    type V = UserView;

    open spec fn view(&self) -> UserView {
        UserView {
            id: self.id as int,
            username: self.username@,
            email: self.email@,
            pasword: self.pasword@,
            api_key: self.api_key@,
        }
    }
}

impl View for UserWithoutPassword {
    type V = UserWithoutPasswordView;

    open spec fn view(&self) -> UserWithoutPasswordView {
        UserWithoutPasswordView {
            username: self.username@,
            email: self.email@,
            api_key: self.api_key@,
        }
    }
}

impl View for UserLogin {
    type V = UserLoginView;

    open spec fn view(&self) -> UserLoginView {
        UserLoginView { email: self.email@, password: self.password@ }
    }
}

impl User {
    /// A copy of the user, field by field.
    pub fn duplicate(&self) -> (copy: User)
        ensures
            copy@ == self@,
    {
        User {
            id: self.id,
            username: self.username.clone(),
            email: self.email.clone(),
            pasword: self.pasword.clone(),
            api_key: self.api_key.clone(),
        }
    }
}

} // verus!

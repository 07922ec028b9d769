//! The login workflow as a state machine.
//!
//! A login is received, finds its user or does not, has its password verified
//! or is rejected, and has a new key issued, hashed and put in place of the
//! old one. An unknown email address and a wrong password end in the same
//! state. The machine decides; its driver carries each request to the store
//! and the reply back:
//!
//! ```text
//! Received -> Found -> Verified -> KeyIssued -> KeyHashed -> Rotated
//!     |         |    (again while       |            |
//!     v         v   the key is taken)   v            v
//! NotFound -> Rejected                Failed       Failed
//! ```

use crate::authentication_runs::is_login_run;
use crate::database::DatabaseError;
use crate::hasher::argon2_accepts;
use crate::hasher::hash_api_key;
use crate::hasher::is_digest_of;
use crate::hasher::is_hashable;
use crate::hasher::verify;
use crate::keygen::generate_api_key;
use crate::keygen::api_keys_are_hashable;
use crate::keygen::is_api_key;
use crate::memory::MemoryStore;
use crate::models::User;
use crate::models::UserLogin;
use crate::models::UserLoginView;
use crate::models::UserView;
use crate::store::rows_after;
use crate::store::store_reply;
use crate::store::StoreReply;
use crate::store::StoreReplyView;
use crate::store::StoreRequest;
use crate::store::StoreRequestView;
use vstd::prelude::*;

verus! {

/// Where a login stands.
#[derive(Debug)]
pub enum Login {
    /// The request has come in, and waits for the store to look the email
    /// address up.
    Received { login: UserLogin },
    /// The store holds a user with the email address.
    Found { login: UserLogin, user: User },
    /// The store holds no user with the email address.
    NotFound,
    /// The password is the user's, and a candidate key waits for the store to
    /// say whether it is taken.
    Verified { id: i32, candidate: String },
    /// The store knows no such key: it is the user's new key.
    KeyIssued { id: i32, key: String },
    /// The key is hashed, and the digest waits for the store to put it in
    /// place of the old one.
    KeyHashed { id: i32, key: String, digest: String },
    /// The store holds the new digest. `key` is the new key in plain text, to
    /// be shown once.
    Rotated { key: String },
    /// No such user, or the password is wrong.
    Rejected,
    /// The login failed for another reason than the email address or the
    /// password: the store did not answer, or the key could not be rotated.
    Failed { error: DatabaseError },
}

/// A `Login` as mathematical text.
pub enum LoginView {
    Received { login: UserLoginView },
    Found { login: UserLoginView, user: UserView },
    NotFound,
    Verified { id: int, candidate: Seq<char> },
    KeyIssued { id: int, key: Seq<char> },
    KeyHashed { id: int, key: Seq<char>, digest: Seq<char> },
    Rotated { key: Seq<char> },
    Rejected,
    Failed { error: DatabaseError },
}

impl View for Login {
    type V = LoginView;

    open spec fn view(&self) -> LoginView {
        match self {
            Login::Received { login } => LoginView::Received { login: login@ },
            Login::Found { login, user } => LoginView::Found { login: login@, user: user@ },
            Login::NotFound => LoginView::NotFound,
            Login::Verified { id, candidate } => LoginView::Verified {
                id: *id as int,
                candidate: candidate@,
            },
            Login::KeyIssued { id, key } => LoginView::KeyIssued { id: *id as int, key: key@ },
            Login::KeyHashed { id, key, digest } => LoginView::KeyHashed {
                id: *id as int,
                key: key@,
                digest: digest@,
            },
            Login::Rotated { key } => LoginView::Rotated { key: key@ },
            Login::Rejected => LoginView::Rejected,
            Login::Failed { error } => LoginView::Failed { error: *error },
        }
    }
}

/// What a login in `state` asks of the store.
pub open spec fn login_request(state: LoginView) -> StoreRequestView {
    match state {
        LoginView::Received { login } => StoreRequestView::FindByEmail { email: login.email },
        LoginView::Verified { id, candidate } => StoreRequestView::KeyLookup { candidate },
        LoginView::KeyHashed { id, key, digest } => StoreRequestView::UpdateApiKey {
            id,
            api_key: digest,
        },
        _ => StoreRequestView::Nothing,
    }
}

/// Whether a login in `state` has ended.
pub open spec fn login_ended(state: LoginView) -> bool {
    state is Rotated || state is Rejected || state is Failed
}

/// What a login that has ended in `state` hands to the caller: the new key in
/// plain text, or the failure.
pub open spec fn login_outcome(state: LoginView) -> Option<Result<Seq<char>, DatabaseError>> {
    match state {
        LoginView::Rotated { key } => Some(Ok(key)),
        LoginView::Rejected => Some(Err(DatabaseError::Unauthorized)),
        LoginView::Failed { error } => Some(Err(error)),
        _ => None,
    }
}

/// What holds of a login at every step: the candidate, and later the key, has
/// the shape of an API key, and the digest to store is a digest of the key.
pub open spec fn login_invariant(state: LoginView) -> bool {
    match state {
        LoginView::Verified { id, candidate } => is_api_key(candidate),
        LoginView::KeyIssued { id, key } => is_api_key(key),
        LoginView::KeyHashed { id, key, digest } => is_api_key(key) && is_digest_of(key, digest),
        LoginView::Rotated { key } => is_api_key(key),
        _ => true,
    }
}

/// Whether a login in state `before` that gets `reply` can be in state `after`
/// next.
///
/// Two steps draw at random, a candidate key or a salt: there `after` is one
/// of many states. Hashing fails on a key that is too long and on no other.
/// A store that fails to answer ends the login, as a failed update where the
/// new digest was to be stored. A reply to a question that the state did not
/// ask leaves the state as it is, and so does any reply once the login has
/// ended.
pub open spec fn login_step(before: LoginView, reply: StoreReplyView, after: LoginView) -> bool {
    match before {
        LoginView::Received { login } => match reply {
            StoreReplyView::Found(Some(user)) => after == (LoginView::Found { login, user }),
            StoreReplyView::Found(None) => after == LoginView::NotFound,
            StoreReplyView::Failed => after == (LoginView::Failed {
                error: DatabaseError::QueryError,
            }),
            _ => after == before,
        },
        LoginView::Found { login, user } => if argon2_accepts(login.password, user.pasword) {
            &&& after matches LoginView::Verified { id, candidate }
            &&& id == user.id
            &&& is_api_key(candidate)
        } else {
            after == LoginView::Rejected
        },
        LoginView::NotFound => after == LoginView::Rejected,
        LoginView::Verified { id, candidate } => match reply {
            StoreReplyView::KeyLookup { taken } => if taken {
                &&& after matches LoginView::Verified { id: same, candidate: next }
                &&& same == id
                &&& is_api_key(next)
            } else {
                after == (LoginView::KeyIssued { id, key: candidate })
            },
            StoreReplyView::Failed => after == (LoginView::Failed {
                error: DatabaseError::QueryError,
            }),
            _ => after == before,
        },
        LoginView::KeyIssued { id, key } => if is_hashable(key) {
            &&& after matches LoginView::KeyHashed { id: same, key: issued, digest }
            &&& same == id
            &&& issued == key
            &&& is_digest_of(key, digest)
        } else {
            after == (LoginView::Failed { error: DatabaseError::HashError })
        },
        LoginView::KeyHashed { id, key, digest } => match reply {
            StoreReplyView::Updated(Ok(_)) => after == (LoginView::Rotated { key }),
            StoreReplyView::Updated(Err(_)) => after == (LoginView::Failed {
                error: DatabaseError::UpdateError,
            }),
            StoreReplyView::Failed => after == (LoginView::Failed {
                error: DatabaseError::UpdateError,
            }),
            _ => after == before,
        },
        LoginView::Rotated { key } => after == before,
        LoginView::Rejected => after == before,
        LoginView::Failed { error } => after == before,
    }
}

impl Login {
    /// A login that has just come in.
    pub fn received(login: UserLogin) -> (state: Login)
        ensures
            state@ == (LoginView::Received { login: login@ }),
            login_invariant(state@),
    {
        Login::Received { login }
    }

    /// What the login asks of the store before its next step.
    pub fn request(&self) -> (request: StoreRequest)
        ensures
            request@ == login_request(self@),
    {
        match self {
            Login::Received { login } => StoreRequest::FindByEmail { email: login.email.clone() },
            Login::Verified { candidate, .. } => StoreRequest::KeyLookup {
                candidate: candidate.clone(),
            },
            Login::KeyHashed { id, digest, .. } => StoreRequest::UpdateApiKey {
                id: *id,
                api_key: digest.clone(),
            },
            _ => StoreRequest::Nothing,
        }
    }

    /// Whether the login has ended.
    pub fn has_ended(&self) -> (ended: bool)
        ensures
            ended == login_ended(self@),
    {
        match self {
            Login::Rotated { .. } => true,
            Login::Rejected => true,
            Login::Failed { .. } => true,
            _ => false,
        }
    }

    /// The next state of the login, given the store's reply to its request.
    pub fn advance(self, reply: StoreReply) -> (after: Login)
        ensures
            login_step(self@, reply@, after@),
            login_invariant(self@) ==> login_invariant(after@),
    {
        match self {
            Login::Received { login } => match reply {
                StoreReply::Found(Some(user)) => Login::Found { login, user },
                StoreReply::Found(None) => Login::NotFound,
                StoreReply::Failed => Login::Failed { error: DatabaseError::QueryError },
                _ => Login::Received { login },
            },
            Login::Found { login, user } => {
                if verify(login.password.as_str(), user.pasword.as_str()) {
                    Login::Verified { id: user.id, candidate: generate_api_key() }
                } else {
                    Login::Rejected
                }
            },
            Login::NotFound => Login::Rejected,
            Login::Verified { id, candidate } => match reply {
                StoreReply::KeyLookup { taken } => if taken {
                    Login::Verified { id, candidate: generate_api_key() }
                } else {
                    Login::KeyIssued { id, key: candidate }
                },
                StoreReply::Failed => Login::Failed { error: DatabaseError::QueryError },
                _ => Login::Verified { id, candidate },
            },
            Login::KeyIssued { id, key } => match hash_api_key(&key) {
                Ok(digest) => Login::KeyHashed { id, key, digest },
                Err(error) => Login::Failed { error },
            },
            Login::KeyHashed { id, key, digest } => match reply {
                StoreReply::Updated(Ok(_)) => Login::Rotated { key },
                StoreReply::Updated(Err(_)) => Login::Failed { error: DatabaseError::UpdateError },
                StoreReply::Failed => Login::Failed { error: DatabaseError::UpdateError },
                _ => Login::KeyHashed { id, key, digest },
            },
            Login::Rotated { key } => Login::Rotated { key },
            Login::Rejected => Login::Rejected,
            Login::Failed { error } => Login::Failed { error },
        }
    }

    /// Drives the login against a store in memory, for `steps` steps at most,
    /// and hands back the state that it has come to. What was done is a run
    /// of the login against the store; it is as long as `steps` allows, unless
    /// the login ended before.
    pub fn run(self, store: &mut MemoryStore, steps: usize) -> (end: Login)
        ensures
            exists|states: Seq<LoginView>, tables: Seq<Seq<UserView>>|
                {
                    &&& #[trigger] is_login_run(states, tables)
                    &&& 0 < states.len() <= steps + 1
                    &&& states[0] == self@
                    &&& tables[0] == old(store)@
                    &&& states.last() == end@
                    &&& tables.last() == final(store)@
                    &&& login_ended(end@) || states.len() == steps + 1
                },
    {
        let mut state = self;
        let mut done: usize = 0;
        let ghost mut states: Seq<LoginView> = seq![self@];
        let ghost mut tables: Seq<Seq<UserView>> = seq![store@];
        while done < steps && !state.has_ended()
            invariant
                done <= steps,
                is_login_run(states, tables),
                states.len() == done + 1,
                states[0] == self@,
                tables[0] == old(store)@,
                states.last() == state@,
                tables.last() == store@,
            decreases steps - done,
        {
            let request = state.request();
            let reply = store.answer(request);
            state = state.advance(reply);
            proof {
                let longer = states.push(state@);
                let later = tables.push(store@);
                assert forall|i: int| 0 <= i && i + 1 < longer.len() implies {
                    let request = login_request(#[trigger] longer[i]);
                    &&& login_step(longer[i], store_reply(later[i], request), longer[i + 1])
                    &&& later[i + 1] == rows_after(later[i], request)
                } by {}
                states = longer;
                tables = later;
            }
            done = done + 1;
        }
        state
    }

    /// What a login that has ended hands to the caller: the new key in plain
    /// text, or the failure. `None` before the end.
    pub fn outcome(self) -> (outcome: Option<Result<String, DatabaseError>>)
        ensures
            match login_outcome(self@) {
                Some(Ok(key)) => outcome matches Some(Ok(text)) && text@ == key,
                Some(Err(error)) => outcome == Some(Err::<String, DatabaseError>(error)),
                None => outcome is None,
            },
    {
        match self {
            Login::Rotated { key } => Some(Ok(key)),
            Login::Rejected => Some(Err(DatabaseError::Unauthorized)),
            Login::Failed { error } => Some(Err(error)),
            _ => None,
        }
    }
}

/// A key that a login has issued is hashed, whatever it holds: a login that
/// keeps its invariant never fails for the key's digest.
pub proof fn issued_keys_are_hashed(before: LoginView, reply: StoreReplyView, after: LoginView)
    requires
        before is KeyIssued,
        login_invariant(before),
        login_step(before, reply, after),
    ensures
        after is KeyHashed,
{
    api_keys_are_hashable(before->KeyIssued_key);
}

/// Every step of a login keeps its invariant.
pub proof fn login_step_keeps_invariant(before: LoginView, reply: StoreReplyView, after: LoginView)
    requires
        login_invariant(before),
        login_step(before, reply, after),
    ensures
        login_invariant(after),
{
}

} // verus!

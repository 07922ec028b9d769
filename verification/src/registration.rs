//! The registration workflow as a state machine.
//!
//! A registration is received, has its password hashed and a candidate key
//! drawn, has the key issued once the store knows no such key, has the key
//! hashed, and is persisted by the store or rejected. The machine decides; its
//! driver carries each request to the store and the reply back:
//!
//! ```text
//! Received -> PasswordHashed -> KeyIssued -> KeyHashed -> Persisted
//!     |         (again while         |            |
//!     |       the key is taken)      |            |
//!     +------------------------------+------------+------> Rejected
//! ```

use crate::database::conflict_error;
use crate::database::ConflictField;
use crate::database::DatabaseError;
use crate::hasher::hash_api_key;
use crate::hasher::is_digest_of;
use crate::hasher::is_hashable;
use crate::keygen::generate_api_key;
use crate::keygen::api_keys_are_hashable;
use crate::keygen::is_api_key;
use crate::memory::MemoryStore;
use crate::models::NewUser;
use crate::models::NewUserView;
use crate::models::NewUserWithApiKey;
use crate::models::NewUserWithApiKeyView;
use crate::models::User;
use crate::models::UserView;
use crate::registration_runs::is_registration_run;
use crate::store::rows_after;
use crate::store::store_reply;
use crate::store::StoreReply;
use crate::store::StoreReplyView;
use crate::store::StoreRequest;
use crate::store::StoreRequestView;
use crate::user::hash_user;
use crate::user::is_hashed_user;
use crate::user::RegistrationError;
use crate::user::UserError;
use vstd::prelude::*;

verus! {

/// Where a registration stands.
#[derive(Debug)]
pub enum Registration {
    /// The request has come in; nothing has been done.
    Received { request: NewUser },
    /// The password is hashed, and a candidate key waits for the store to say
    /// whether it is taken.
    PasswordHashed { user: NewUser, candidate: String },
    /// The store knows no such key: it is the user's.
    KeyIssued { user: NewUser, key: String },
    /// The key is hashed, and the record waits for the store to insert it.
    KeyHashed { record: NewUserWithApiKey, key: String },
    /// The store holds the user. `key` is the key in plain text, to be shown
    /// once.
    Persisted { row: User, key: String },
    /// The registration failed.
    Rejected { error: RegistrationError },
}

/// A `Registration` as mathematical text.
pub enum RegistrationView {
    Received { request: NewUserView },
    PasswordHashed { user: NewUserView, candidate: Seq<char> },
    KeyIssued { user: NewUserView, key: Seq<char> },
    KeyHashed { record: NewUserWithApiKeyView, key: Seq<char> },
    Persisted { row: UserView, key: Seq<char> },
    Rejected { error: RegistrationError },
}

impl View for Registration {
    type V = RegistrationView;

    open spec fn view(&self) -> RegistrationView {
        match self {
            Registration::Received { request } => RegistrationView::Received { request: request@ },
            Registration::PasswordHashed { user, candidate } => RegistrationView::PasswordHashed {
                user: user@,
                candidate: candidate@,
            },
            Registration::KeyIssued { user, key } => RegistrationView::KeyIssued {
                user: user@,
                key: key@,
            },
            Registration::KeyHashed { record, key } => RegistrationView::KeyHashed {
                record: record@,
                key: key@,
            },
            Registration::Persisted { row, key } => RegistrationView::Persisted {
                row: row@,
                key: key@,
            },
            Registration::Rejected { error } => RegistrationView::Rejected { error: *error },
        }
    }
}

/// What a registration in `state` asks of the store.
pub open spec fn registration_request(state: RegistrationView) -> StoreRequestView {
    match state {
        RegistrationView::PasswordHashed { user, candidate } => StoreRequestView::KeyLookup {
            candidate,
        },
        RegistrationView::KeyHashed { record, key } => StoreRequestView::Insert { record },
        _ => StoreRequestView::Nothing,
    }
}

/// Whether a registration in `state` has ended.
pub open spec fn registration_ended(state: RegistrationView) -> bool {
    state is Persisted || state is Rejected
}

/// What a registration that has ended in `state` hands to the caller: the
/// stored user and the key in plain text, or the failure.
pub open spec fn registration_outcome(state: RegistrationView) -> Option<
    Result<(UserView, Seq<char>), RegistrationError>,
> {
    match state {
        RegistrationView::Persisted { row, key } => Some(Ok((row, key))),
        RegistrationView::Rejected { error } => Some(Err(error)),
        _ => None,
    }
}

/// What holds of a registration at every step: the candidate, and later the
/// key, has the shape of an API key, and the record to store holds a digest of
/// the key.
pub open spec fn registration_invariant(state: RegistrationView) -> bool {
    match state {
        RegistrationView::Received { request } => true,
        RegistrationView::PasswordHashed { user, candidate } => is_api_key(candidate),
        RegistrationView::KeyIssued { user, key } => is_api_key(key),
        RegistrationView::KeyHashed { record, key } => is_api_key(key) && is_digest_of(
            key,
            record.api_key,
        ),
        RegistrationView::Persisted { row, key } => is_api_key(key),
        RegistrationView::Rejected { error } => true,
    }
}

/// The state of a registration that the store failed to answer.
pub open spec fn store_failed() -> RegistrationView {
    RegistrationView::Rejected { error: RegistrationError::Database(DatabaseError::QueryError) }
}

/// Whether a registration in state `before` that gets `reply` can be in state
/// `after` next.
///
/// Two steps draw at random, a salt or a candidate key: there `after` is one
/// of many states. Hashing fails on a secret that is too long and on no
/// other. A store that fails to answer ends the registration. A reply to a
/// question that the state did not ask leaves the state as it is, and so does
/// any reply once the registration has ended.
pub open spec fn registration_step(
    before: RegistrationView,
    reply: StoreReplyView,
    after: RegistrationView,
) -> bool {
    match before {
        RegistrationView::Received { request } => if is_hashable(request.password) {
            &&& after matches RegistrationView::PasswordHashed { user, candidate }
            &&& is_hashed_user(request, user)
            &&& is_api_key(candidate)
        } else {
            after == (RegistrationView::Rejected {
                error: RegistrationError::User(UserError::HashError),
            })
        },
        RegistrationView::PasswordHashed { user, candidate } => match reply {
            StoreReplyView::KeyLookup { taken } => if taken {
                &&& after matches RegistrationView::PasswordHashed { user: same, candidate: next }
                &&& same == user
                &&& is_api_key(next)
            } else {
                after == (RegistrationView::KeyIssued { user, key: candidate })
            },
            StoreReplyView::Failed => after == store_failed(),
            _ => after == before,
        },
        RegistrationView::KeyIssued { user, key } => if is_hashable(key) {
            &&& after matches RegistrationView::KeyHashed { record, key: same }
            &&& same == key
            &&& record.username == user.username
            &&& record.email == user.email
            &&& record.password == user.password
            &&& is_digest_of(key, record.api_key)
        } else {
            after == (RegistrationView::Rejected {
                error: RegistrationError::Database(DatabaseError::HashError),
            })
        },
        RegistrationView::KeyHashed { record, key } => match reply {
            StoreReplyView::Inserted(Ok(row)) => after == (RegistrationView::Persisted { row, key }),
            StoreReplyView::Inserted(Err(field)) => after == (RegistrationView::Rejected {
                error: RegistrationError::Database(conflict_error(field)),
            }),
            StoreReplyView::Failed => after == store_failed(),
            _ => after == before,
        },
        RegistrationView::Persisted { row, key } => after == before,
        RegistrationView::Rejected { error } => after == before,
    }
}

impl Registration {
    /// A registration that has just come in.
    pub fn received(request: NewUser) -> (state: Registration)
        ensures
            state@ == (RegistrationView::Received { request: request@ }),
            registration_invariant(state@),
    {
        Registration::Received { request }
    }

    /// What the registration asks of the store before its next step.
    pub fn request(&self) -> (request: StoreRequest)
        ensures
            request@ == registration_request(self@),
    {
        match self {
            Registration::PasswordHashed { candidate, .. } => StoreRequest::KeyLookup {
                candidate: candidate.clone(),
            },
            Registration::KeyHashed { record, .. } => StoreRequest::Insert {
                record: NewUserWithApiKey {
                    username: record.username.clone(),
                    email: record.email.clone(),
                    password: record.password.clone(),
                    api_key: record.api_key.clone(),
                },
            },
            _ => StoreRequest::Nothing,
        }
    }

    /// Whether the registration has ended.
    pub fn has_ended(&self) -> (ended: bool)
        ensures
            ended == registration_ended(self@),
    {
        match self {
            Registration::Persisted { .. } => true,
            Registration::Rejected { .. } => true,
            _ => false,
        }
    }

    /// The next state of the registration, given the store's reply to its
    /// request.
    pub fn advance(self, reply: StoreReply) -> (after: Registration)
        ensures
            registration_step(self@, reply@, after@),
            registration_invariant(self@) ==> registration_invariant(after@),
    {
        match self {
            Registration::Received { request } => match hash_user(&request) {
                Ok(user) => Registration::PasswordHashed { user, candidate: generate_api_key() },
                Err(error) => Registration::Rejected { error: RegistrationError::User(error) },
            },
            Registration::PasswordHashed { user, candidate } => match reply {
                StoreReply::KeyLookup { taken } => if taken {
                    Registration::PasswordHashed { user, candidate: generate_api_key() }
                } else {
                    Registration::KeyIssued { user, key: candidate }
                },
                StoreReply::Failed => Registration::Rejected {
                    error: RegistrationError::Database(DatabaseError::QueryError),
                },
                _ => Registration::PasswordHashed { user, candidate },
            },
            Registration::KeyIssued { user, key } => match hash_api_key(&key) {
                Ok(digest) => Registration::KeyHashed {
                    record: NewUserWithApiKey {
                        username: user.username,
                        email: user.email,
                        password: user.password,
                        api_key: digest,
                    },
                    key,
                },
                Err(error) => Registration::Rejected { error: RegistrationError::Database(error) },
            },
            Registration::KeyHashed { record, key } => match reply {
                StoreReply::Inserted(Ok(row)) => Registration::Persisted { row, key },
                StoreReply::Inserted(Err(field)) => Registration::Rejected {
                    error: RegistrationError::Database(field.error()),
                },
                StoreReply::Failed => Registration::Rejected {
                    error: RegistrationError::Database(DatabaseError::QueryError),
                },
                _ => Registration::KeyHashed { record, key },
            },
            Registration::Persisted { row, key } => Registration::Persisted { row, key },
            Registration::Rejected { error } => Registration::Rejected { error },
        }
    }

    /// Drives the registration against a store in memory, for `steps` steps
    /// at most, and hands back the state that it has come to. What was done
    /// is a run of the registration against the store; it is as long as
    /// `steps` allows, unless the registration ended before.
    pub fn run(self, store: &mut MemoryStore, steps: usize) -> (end: Registration)
        requires
            old(store)@.len() < i32::MAX,
        ensures
            exists|states: Seq<RegistrationView>, tables: Seq<Seq<UserView>>|
                {
                    &&& #[trigger] is_registration_run(states, tables)
                    &&& 0 < states.len() <= steps + 1
                    &&& states[0] == self@
                    &&& tables[0] == old(store)@
                    &&& states.last() == end@
                    &&& tables.last() == final(store)@
                    &&& registration_ended(end@) || states.len() == steps + 1
                },
    {
        let mut state = self;
        let mut done: usize = 0;
        let ghost mut states: Seq<RegistrationView> = seq![self@];
        let ghost mut tables: Seq<Seq<UserView>> = seq![store@];
        while done < steps && !state.has_ended()
            invariant
                done <= steps,
                is_registration_run(states, tables),
                states.len() == done + 1,
                states[0] == self@,
                tables[0] == old(store)@,
                states.last() == state@,
                tables.last() == store@,
                registration_ended(state@) || store@.len() < i32::MAX,
            decreases steps - done,
        {
            let request = state.request();
            let reply = store.answer(request);
            state = state.advance(reply);
            proof {
                let longer = states.push(state@);
                let later = tables.push(store@);
                assert forall|i: int| 0 <= i && i + 1 < longer.len() implies {
                    let request = registration_request(#[trigger] longer[i]);
                    &&& registration_step(longer[i], store_reply(later[i], request), longer[i + 1])
                    &&& later[i + 1] == rows_after(later[i], request)
                } by {}
                states = longer;
                tables = later;
            }
            done = done + 1;
        }
        state
    }

    /// What a registration that has ended hands to the caller: the stored
    /// user and the key in plain text, or the failure. `None` before the end.
    pub fn outcome(self) -> (outcome: Option<Result<(User, String), RegistrationError>>)
        ensures
            match registration_outcome(self@) {
                Some(Ok((row, key))) => outcome matches Some(Ok((user, text))) && user@ == row
                    && text@ == key,
                Some(Err(error)) => outcome == Some(
                    Err::<(User, String), RegistrationError>(error),
                ),
                None => outcome is None,
            },
    {
        match self {
            Registration::Persisted { row, key } => Some(Ok((row, key))),
            Registration::Rejected { error } => Some(Err(error)),
            _ => None,
        }
    }
}

/// A key that a registration has issued is hashed, whatever it holds: a
/// registration that keeps its invariant is never rejected for the key's
/// digest.
pub proof fn issued_keys_are_hashed(
    before: RegistrationView,
    reply: StoreReplyView,
    after: RegistrationView,
)
    requires
        before is KeyIssued,
        registration_invariant(before),
        registration_step(before, reply, after),
    ensures
        after is KeyHashed,
{
    api_keys_are_hashable(before->KeyIssued_key);
}

/// Every step of a registration keeps its invariant.
pub proof fn registration_step_keeps_invariant(
    before: RegistrationView,
    reply: StoreReplyView,
    after: RegistrationView,
)
    requires
        registration_invariant(before),
        registration_step(before, reply, after),
    ensures
        registration_invariant(after),
{
}

/// A registration is rejected for a taken username or email address only when
/// the store has just said so in reply to the insertion.
pub proof fn conflicts_come_from_the_store(
    before: RegistrationView,
    reply: StoreReplyView,
    after: RegistrationView,
    field: ConflictField,
)
    requires
        registration_step(before, reply, after),
        after == (RegistrationView::Rejected {
            error: RegistrationError::Database(conflict_error(field)),
        }),
        before != after,
    ensures
        before is KeyHashed,
        reply == StoreReplyView::Inserted(Err(field)),
{
}

} // verus!

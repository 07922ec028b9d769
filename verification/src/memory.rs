//! A user record store in memory. It answers every question as the store
//! contract says, and serves where one process holds all users: in tests, in
//! examples, behind a single worker.

use crate::database::ConflictField;
use crate::database::UpdateFailure;
use crate::hasher::argon2_accepts;
use crate::hasher::verify;
use crate::models::NewUserWithApiKey;
use crate::models::User;
use crate::models::UserView;
use crate::store::answering_keeps_the_table;
use crate::store::insert_conflict;
use crate::store::inserted_row;
use crate::store::is_user_table;
use crate::store::key_taken;
use crate::store::row_by_email;
use crate::store::row_by_username;
use crate::store::rows_after;
use crate::store::store_reply;
use crate::store::with_api_key;
use crate::store::StoreReply;
use crate::store::StoreRequest;
use crate::store::StoreRequestView;
use vstd::prelude::*;

verus! {

/// The columns of the user table in which a text is looked for.
#[derive(Clone, Copy, Debug, PartialEq, Eq, Structural)]
enum Column {
    Username,
    Email,
}

/// What `row` holds in `column`.
spec fn cell(row: UserView, column: Column) -> Seq<char> {
    match column {
        Column::Username => row.username,
        Column::Email => row.email,
    }
}

/// Whether some row of `rows` holds `value` in `column`.
spec fn holds(rows: Seq<UserView>, column: Column, value: Seq<char>) -> bool {
    exists|i: int| 0 <= i < rows.len() && cell(#[trigger] rows[i], column) == value
}

/// A user table in memory, rows in the order in which they were inserted.
pub struct MemoryStore {
    rows: Vec<User>,
}

impl View for MemoryStore {
    type V = Seq<UserView>;

    closed spec fn view(&self) -> Seq<UserView> {
        self.rows@.map_values(|user: User| user@)
    }
}

impl MemoryStore {
    #[verifier::type_invariant]
    spec fn holds_a_user_table(self) -> bool {
        is_user_table(self@)
    }

    /// A store without users.
    pub fn new() -> (store: MemoryStore)
        ensures
            store@ == Seq::<UserView>::empty(),
            is_user_table(store@),
    {
        MemoryStore { rows: Vec::new() }
    }

    /// The number of users.
    pub fn len(&self) -> (count: usize)
        ensures
            count == self@.len(),
            is_user_table(self@),
    {
        proof {
            use_type_invariant(self);
        }
        self.rows.len()
    }

    /// The position of the first row that holds `value` in `column`.
    fn position(&self, column: Column, value: &String) -> (at: Option<usize>)
        ensures
            match at {
                Some(i) => i < self@.len() && cell(self@[i as int], column) == value@,
                None => !holds(self@, column, value@),
            },
    {
        let mut at: usize = 0;
        while at < self.rows.len()
            invariant
                at <= self.rows.len(),
                self@.len() == self.rows.len(),
                forall|i: int| 0 <= i < at ==> cell(#[trigger] self@[i], column) != value@,
            decreases self.rows.len() - at,
        {
            let row = &self.rows[at];
            let same = match column {
                Column::Username => row.username == *value,
                Column::Email => row.email == *value,
            };
            if same {
                return Some(at);
            }
            at = at + 1;
        }
        None
    }

    /// The user with the email address, if there is one.
    pub fn find_by_email(&self, email: &str) -> (found: Option<User>)
        ensures
            match found {
                Some(user) => row_by_email(self@, email@) == Some(user@),
                None => row_by_email(self@, email@) is None,
            },
    {
        proof {
            use_type_invariant(self);
        }
        let wanted = email.to_owned();
        match self.position(Column::Email, &wanted) {
            Some(at) => {
                Some(self.rows[at].duplicate())
            },
            None => None,
        }
    }

    /// The user with the username, if there is one.
    pub fn find_by_username(&self, username: &str) -> (found: Option<User>)
        ensures
            match found {
                Some(user) => row_by_username(self@, username@) == Some(user@),
                None => row_by_username(self@, username@) is None,
            },
    {
        proof {
            use_type_invariant(self);
        }
        let wanted = username.to_owned();
        match self.position(Column::Username, &wanted) {
            Some(at) => {
                Some(self.rows[at].duplicate())
            },
            None => None,
        }
    }

    /// Whether `candidate` is the key of some user: whether the digest in the
    /// key column of some user accepts it. Every digest is tried in turn.
    pub fn api_key_exists(&self, candidate: &str) -> (taken: bool)
        ensures
            taken == key_taken(self@, candidate@),
    {
        let mut at: usize = 0;
        while at < self.rows.len()
            invariant
                at <= self.rows.len(),
                self@.len() == self.rows.len(),
                forall|i: int| 0 <= i < at ==> !argon2_accepts(candidate@, (#[trigger] self@[i]).api_key),
            decreases self.rows.len() - at,
        {
            if verify(candidate, self.rows[at].api_key.as_str()) {
                assert(argon2_accepts(candidate@, self@[at as int].api_key));
                return true;
            }
            at = at + 1;
        }
        false
    }

    /// Inserts `record` as a new user, unless its username or its email
    /// address is taken; then the store stays as it is, and the answer names
    /// the column, the username before the email address.
    pub fn insert(&mut self, record: NewUserWithApiKey) -> (outcome: Result<User, ConflictField>)
        requires
            old(self)@.len() < i32::MAX,
        ensures
            match insert_conflict(old(self)@, record@) {
                Some(field) => outcome == Err::<User, ConflictField>(field) && final(self)@ == old(
                    self,
                )@,
                None => outcome matches Ok(user) && user@ == inserted_row(old(self)@, record@)
                    && final(self)@ == old(self)@.push(user@),
            },
            is_user_table(final(self)@),
    {
        proof {
            use_type_invariant(&*self);
        }
        if self.position(Column::Username, &record.username).is_some() {
            return Err(ConflictField::Username);
        }
        if self.position(Column::Email, &record.email).is_some() {
            return Err(ConflictField::Email);
        }
        let count = self.rows.len();
        let id = (count + 1) as i32;
        let user = User {
            id,
            username: record.username.clone(),
            email: record.email.clone(),
            pasword: record.password.clone(),
            api_key: record.api_key.clone(),
        };
        let inserted = user.duplicate();
        let ghost before = self@;
        // The rows leave the store while they change, so that the store holds
        // a user table at every moment.
        let mut rows: Vec<User> = Vec::new();
        core::mem::swap(&mut self.rows, &mut rows);
        rows.push(user);
        proof {
            let after = rows@.map_values(|user: User| user@);
            assert(after =~= before.push(inserted@));
            answering_keeps_the_table(before, StoreRequestView::Insert { record: record@ });
        }
        core::mem::swap(&mut self.rows, &mut rows);
        Ok(inserted)
    }

    /// Overwrites the key column of the user with the id. Where no user has
    /// the id, the store stays as it is.
    pub fn update_api_key(&mut self, id: i32, api_key: String) -> (outcome: Result<
        (),
        UpdateFailure,
    >)
        ensures
            1 <= id <= old(self)@.len() ==> outcome == Ok::<(), UpdateFailure>(()) && final(self)@
                == old(self)@.update(id - 1, with_api_key(old(self)@[id - 1], api_key@)),
            !(1 <= id <= old(self)@.len()) ==> outcome == Err::<(), UpdateFailure>(UpdateFailure)
                && final(self)@ == old(self)@,
            is_user_table(final(self)@),
    {
        proof {
            use_type_invariant(&*self);
        }
        if id < 1 || id as usize > self.rows.len() {
            return Err(UpdateFailure);
        }
        let at = (id - 1) as usize;
        let row = &self.rows[at];
        let updated = User {
            id: row.id,
            username: row.username.clone(),
            email: row.email.clone(),
            pasword: row.pasword.clone(),
            api_key,
        };
        let ghost before = self@;
        let ghost changed = updated@;
        let mut rows: Vec<User> = Vec::new();
        core::mem::swap(&mut self.rows, &mut rows);
        rows.set(at, updated);
        proof {
            let after = rows@.map_values(|user: User| user@);
            assert(after =~= before.update(at as int, changed));
            answering_keeps_the_table(
                before,
                StoreRequestView::UpdateApiKey { id: id as int, api_key: api_key@ },
            );
        }
        core::mem::swap(&mut self.rows, &mut rows);
        Ok(())
    }

    /// Answers `request` as the store contract says.
    pub fn answer(&mut self, request: StoreRequest) -> (reply: StoreReply)
        requires
            request is Insert ==> old(self)@.len() < i32::MAX,
        ensures
            reply@ == store_reply(old(self)@, request@),
            final(self)@ == rows_after(old(self)@, request@),
            is_user_table(final(self)@),
    {
        proof {
            use_type_invariant(&*self);
        }
        match request {
            StoreRequest::Nothing => StoreReply::Nothing,
            StoreRequest::FindByEmail { email } => StoreReply::Found(
                self.find_by_email(email.as_str()),
            ),
            StoreRequest::KeyLookup { candidate } => StoreReply::KeyLookup {
                taken: self.api_key_exists(candidate.as_str()),
            },
            StoreRequest::Insert { record } => StoreReply::Inserted(self.insert(record)),
            StoreRequest::UpdateApiKey { id, api_key } => StoreReply::Updated(
                self.update_api_key(id, api_key),
            ),
        }
    }
}

} // verus!

use credentials::database::{ConflictField, DatabaseError, UpdateFailure};
use credentials::hasher::{hash, verify};
use credentials::keygen::has_key_shape;
use credentials::memory::MemoryStore;
use credentials::models::{NewUser, NewUserWithApiKey, User};
use credentials::registration::Registration;
use credentials::store::{StoreReply, StoreRequest};
use credentials::user::{RegistrationError, UserError};

fn new_user(username: &str, email: &str, password: &str) -> NewUser {
    NewUser {
        username: username.to_string(),
        email: email.to_string(),
        password: password.to_string(),
    }
}

fn record() -> NewUserWithApiKey {
    NewUserWithApiKey {
        username: "alice".to_string(),
        email: "a@x.com".to_string(),
        password: "password digest".to_string(),
        api_key: "key digest".to_string(),
    }
}

fn row() -> User {
    User {
        id: 4,
        username: "alice".to_string(),
        email: "a@x.com".to_string(),
        pasword: "password digest".to_string(),
        api_key: "key digest".to_string(),
    }
}

const KEY: &str = "abcdefghijklmnopqrstuvwxyz012345";

#[test]
fn a_received_registration_asks_nothing_and_has_not_ended() {
    let state = Registration::received(new_user("alice", "a@x.com", "pw123"));
    assert!(matches!(state, Registration::Received { .. }));
    assert!(matches!(state.request(), StoreRequest::Nothing));
    assert!(!state.has_ended());
    assert!(state.outcome().is_none());
}

#[test]
fn received_hashes_the_password_and_draws_a_candidate() {
    let state = Registration::received(new_user("alice", "a@x.com", "pw123"));
    match state.advance(StoreReply::Nothing) {
        Registration::PasswordHashed { user, candidate } => {
            assert_eq!(user.username, "alice");
            assert_eq!(user.email, "a@x.com");
            assert!(verify("pw123", &user.password));
            assert!(has_key_shape(&candidate));
        }
        other => panic!("unexpected state {:?}", other),
    }
}

#[test]
fn a_candidate_is_looked_up() {
    let state = Registration::PasswordHashed {
        user: new_user("alice", "a@x.com", "password digest"),
        candidate: KEY.to_string(),
    };
    assert!(!state.has_ended());
    match state.request() {
        StoreRequest::KeyLookup { candidate } => assert_eq!(candidate, KEY),
        other => panic!("unexpected request {:?}", other),
    }
}

#[test]
fn a_taken_candidate_is_drawn_again() {
    let state = Registration::PasswordHashed {
        user: new_user("alice", "a@x.com", "password digest"),
        candidate: KEY.to_string(),
    };
    match state.advance(StoreReply::KeyLookup { taken: true }) {
        Registration::PasswordHashed { user, candidate } => {
            assert_eq!(user.username, "alice");
            assert_eq!(user.email, "a@x.com");
            assert_eq!(user.password, "password digest");
            assert!(has_key_shape(&candidate));
            assert_ne!(candidate, KEY);
        }
        other => panic!("unexpected state {:?}", other),
    }
}

#[test]
fn a_free_candidate_is_issued() {
    let state = Registration::PasswordHashed {
        user: new_user("alice", "a@x.com", "password digest"),
        candidate: KEY.to_string(),
    };
    match state.advance(StoreReply::KeyLookup { taken: false }) {
        Registration::KeyIssued { user, key } => {
            assert_eq!(user.username, "alice");
            assert_eq!(user.password, "password digest");
            assert_eq!(key, KEY);
        }
        other => panic!("unexpected state {:?}", other),
    }
}

#[test]
fn a_reply_to_another_question_leaves_the_registration() {
    let state = Registration::PasswordHashed {
        user: new_user("alice", "a@x.com", "password digest"),
        candidate: KEY.to_string(),
    };
    let state = state.advance(StoreReply::Nothing);
    let state = state.advance(StoreReply::Inserted(Ok(row())));
    let state = state.advance(StoreReply::Found(None));
    let state = state.advance(StoreReply::Updated(Err(UpdateFailure)));
    match state {
        Registration::PasswordHashed { user, candidate } => {
            assert_eq!(user.username, "alice");
            assert_eq!(candidate, KEY);
        }
        other => panic!("unexpected state {:?}", other),
    }
    let waiting = Registration::KeyHashed { record: record(), key: KEY.to_string() };
    let waiting = waiting.advance(StoreReply::Nothing);
    let waiting = waiting.advance(StoreReply::KeyLookup { taken: false });
    match waiting {
        Registration::KeyHashed { record, key } => {
            assert_eq!(record.api_key, "key digest");
            assert_eq!(key, KEY);
        }
        other => panic!("unexpected state {:?}", other),
    }
}

#[test]
fn an_issued_key_is_hashed_into_the_record() {
    let state = Registration::KeyIssued {
        user: new_user("alice", "a@x.com", "password digest"),
        key: KEY.to_string(),
    };
    assert!(matches!(state.request(), StoreRequest::Nothing));
    match state.advance(StoreReply::Nothing) {
        Registration::KeyHashed { record, key } => {
            assert_eq!(record.username, "alice");
            assert_eq!(record.email, "a@x.com");
            assert_eq!(record.password, "password digest");
            assert_eq!(key, KEY);
            assert_ne!(record.api_key, KEY);
            assert!(verify(KEY, &record.api_key));
        }
        other => panic!("unexpected state {:?}", other),
    }
}

#[test]
fn a_hashed_record_is_to_be_inserted() {
    let state = Registration::KeyHashed { record: record(), key: KEY.to_string() };
    assert!(!state.has_ended());
    match state.request() {
        StoreRequest::Insert { record } => {
            assert_eq!(record.username, "alice");
            assert_eq!(record.email, "a@x.com");
            assert_eq!(record.password, "password digest");
            assert_eq!(record.api_key, "key digest");
        }
        other => panic!("unexpected request {:?}", other),
    }
}

#[test]
fn an_inserted_record_is_persisted() {
    let state = Registration::KeyHashed { record: record(), key: KEY.to_string() };
    let state = state.advance(StoreReply::Inserted(Ok(row())));
    assert!(state.has_ended());
    assert!(matches!(state.request(), StoreRequest::Nothing));
    let (user, key) = state.outcome().unwrap().unwrap();
    assert_eq!(user.id, 4);
    assert_eq!(user.username, "alice");
    assert_eq!(user.api_key, "key digest");
    assert_eq!(key, KEY);
}

#[test]
fn a_username_conflict_rejects() {
    let state = Registration::KeyHashed { record: record(), key: KEY.to_string() };
    let state = state.advance(StoreReply::Inserted(Err(ConflictField::Username)));
    assert!(state.has_ended());
    assert!(matches!(state, Registration::Rejected { error: RegistrationError::Database(DatabaseError::UserameExists) }));
    assert_eq!(state.outcome().unwrap().unwrap_err(), RegistrationError::Database(DatabaseError::UserameExists));
}

#[test]
fn an_email_conflict_rejects() {
    let state = Registration::KeyHashed { record: record(), key: KEY.to_string() };
    let state = state.advance(StoreReply::Inserted(Err(ConflictField::Email)));
    assert!(matches!(state, Registration::Rejected { error: RegistrationError::Database(DatabaseError::EmailExists) }));
    assert_eq!(state.outcome().unwrap().unwrap_err(), RegistrationError::Database(DatabaseError::EmailExists));
}

#[test]
fn an_ended_registration_stays_as_it_is() {
    let persisted = Registration::Persisted { row: row(), key: KEY.to_string() };
    let persisted = persisted.advance(StoreReply::Inserted(Err(ConflictField::Email)));
    let persisted = persisted.advance(StoreReply::KeyLookup { taken: true });
    match persisted {
        Registration::Persisted { row, key } => {
            assert_eq!(row.id, 4);
            assert_eq!(key, KEY);
        }
        other => panic!("unexpected state {:?}", other),
    }
    let rejected = Registration::Rejected { error: RegistrationError::User(UserError::HashError) };
    let rejected = rejected.advance(StoreReply::Inserted(Ok(row())));
    assert!(matches!(rejected, Registration::Rejected { error: RegistrationError::User(UserError::HashError) }));
}

#[test]
fn a_fresh_registration_is_persisted_in_four_steps() {
    let mut store = MemoryStore::new();
    let end = Registration::received(new_user("alice", "a@x.com", "pw123")).run(&mut store, 4);
    let (user, key) = end.outcome().unwrap().unwrap();
    assert_eq!(user.id, 1);
    assert_eq!(user.username, "alice");
    assert_eq!(user.email, "a@x.com");
    assert!(has_key_shape(&key));
    assert!(verify("pw123", &user.pasword));
    assert!(verify(&key, &user.api_key));
    let stored = store.find_by_email("a@x.com").unwrap();
    assert_eq!(stored.id, 1);
    assert_eq!(stored.api_key, user.api_key);
    assert_eq!(stored.pasword, user.pasword);
    assert_ne!(stored.api_key, key);
    assert_ne!(stored.pasword, "pw123");
    assert_eq!(store.len(), 1);
}

#[test]
fn a_run_stops_when_its_steps_are_used_up() {
    let mut store = MemoryStore::new();
    let start = Registration::received(new_user("alice", "a@x.com", "pw123"));
    let unmoved = start.run(&mut store, 0);
    assert!(matches!(unmoved, Registration::Received { .. }));
    let halfway = unmoved.run(&mut store, 3);
    assert!(matches!(halfway, Registration::KeyHashed { .. }));
    assert!(!halfway.has_ended());
    assert_eq!(store.len(), 0);
    let end = halfway.run(&mut store, 100);
    assert!(matches!(end, Registration::Persisted { .. }));
    assert_eq!(store.len(), 1);
}

#[test]
fn the_same_username_twice_is_taken_the_second_time() {
    let mut store = MemoryStore::new();
    let first = Registration::received(new_user("alice", "a@x.com", "pw123")).run(&mut store, 10);
    assert!(matches!(first, Registration::Persisted { .. }));
    let second = Registration::received(new_user("alice", "b@y.com", "pw456")).run(&mut store, 10);
    assert_eq!(second.outcome().unwrap().unwrap_err(), RegistrationError::Database(DatabaseError::UserameExists));
    assert_eq!(store.len(), 1);
    assert!(store.find_by_email("b@y.com").is_none());
}

#[test]
fn the_same_email_twice_is_taken_the_second_time() {
    let mut store = MemoryStore::new();
    let first = Registration::received(new_user("alice", "a@x.com", "pw123")).run(&mut store, 10);
    assert!(matches!(first, Registration::Persisted { .. }));
    let second = Registration::received(new_user("bob", "a@x.com", "pw456")).run(&mut store, 10);
    assert_eq!(second.outcome().unwrap().unwrap_err(), RegistrationError::Database(DatabaseError::EmailExists));
    assert_eq!(store.len(), 1);
    assert!(store.find_by_username("bob").is_none());
}

#[test]
fn two_users_get_two_keys() {
    let mut store = MemoryStore::new();
    let alice = Registration::received(new_user("alice", "a@x.com", "pw123")).run(&mut store, 10);
    let bob = Registration::received(new_user("bob", "b@y.com", "pw123")).run(&mut store, 10);
    let (alice, alice_key) = alice.outcome().unwrap().unwrap();
    let (bob, bob_key) = bob.outcome().unwrap().unwrap();
    assert_eq!(alice.id, 1);
    assert_eq!(bob.id, 2);
    assert_ne!(alice_key, bob_key);
    assert_ne!(alice.pasword, bob.pasword);
    assert!(!verify(&alice_key, &bob.api_key));
    assert!(!verify(&bob_key, &alice.api_key));
}

#[test]
fn a_candidate_that_the_store_holds_is_not_issued() {
    let mut store = MemoryStore::new();
    store
        .insert(NewUserWithApiKey {
            username: "carol".to_string(),
            email: "c@z.com".to_string(),
            password: "password digest".to_string(),
            api_key: hash(KEY).unwrap(),
        })
        .unwrap();
    let state = Registration::PasswordHashed {
        user: new_user("alice", "a@x.com", "password digest"),
        candidate: KEY.to_string(),
    };
    let (_, key) = state.run(&mut store, 10).outcome().unwrap().unwrap();
    assert_ne!(key, KEY);
    assert!(has_key_shape(&key));
    assert!(!verify(&key, &store.find_by_username("carol").unwrap().api_key));
}

fn step(state: Registration, store: &mut MemoryStore) -> Registration {
    let reply = store.answer(state.request());
    state.advance(reply)
}

#[test]
fn two_registrations_of_one_username_step_by_step_in_turn() {
    let mut store = MemoryStore::new();
    let mut left = Registration::received(new_user("alice", "a@x.com", "pw123"));
    let mut right = Registration::received(new_user("alice", "b@y.com", "pw456"));
    let mut steps = 0;
    while !(left.has_ended() && right.has_ended()) {
        left = step(left, &mut store);
        right = step(right, &mut store);
        steps += 1;
        assert!(steps <= 20);
    }
    assert!(matches!(left, Registration::Persisted { .. }));
    assert!(matches!(right, Registration::Rejected { error: RegistrationError::Database(DatabaseError::UserameExists) }));
    assert_eq!(store.len(), 1);
    assert_eq!(store.find_by_username("alice").unwrap().email, "a@x.com");
}

#[test]
fn the_registration_that_inserts_first_wins() {
    let mut store = MemoryStore::new();
    let mut early = Registration::received(new_user("alice", "a@x.com", "pw123"));
    let mut late = Registration::received(new_user("alice", "b@y.com", "pw456"));
    for _ in 0..3 {
        early = step(early, &mut store);
    }
    assert!(matches!(early, Registration::KeyHashed { .. }));
    late = late.run(&mut store, 10);
    assert!(matches!(late, Registration::Persisted { .. }));
    early = step(early, &mut store);
    assert!(matches!(early, Registration::Rejected { error: RegistrationError::Database(DatabaseError::UserameExists) }));
    assert_eq!(store.len(), 1);
    assert_eq!(store.find_by_username("alice").unwrap().email, "b@y.com");
}

#[test]
fn two_registrations_of_one_email_step_by_step_in_turn() {
    let mut store = MemoryStore::new();
    let mut left = Registration::received(new_user("alice", "a@x.com", "pw123"));
    let mut right = Registration::received(new_user("bob", "a@x.com", "pw456"));
    let mut steps = 0;
    while !(left.has_ended() && right.has_ended()) {
        right = step(right, &mut store);
        left = step(left, &mut store);
        steps += 1;
        assert!(steps <= 20);
    }
    assert!(matches!(right, Registration::Persisted { .. }));
    assert!(matches!(left, Registration::Rejected { error: RegistrationError::Database(DatabaseError::EmailExists) }));
    assert_eq!(store.len(), 1);
    assert_eq!(store.find_by_email("a@x.com").unwrap().username, "bob");
}

#[test]
fn a_store_that_fails_to_answer_ends_the_registration() {
    let looking = Registration::PasswordHashed {
        user: new_user("alice", "a@x.com", "password digest"),
        candidate: KEY.to_string(),
    };
    let looking = looking.advance(StoreReply::Failed);
    assert!(looking.has_ended());
    assert_eq!(
        looking.outcome().unwrap().unwrap_err(),
        RegistrationError::Database(DatabaseError::QueryError)
    );
    let inserting = Registration::KeyHashed { record: record(), key: KEY.to_string() };
    let inserting = inserting.advance(StoreReply::Failed);
    assert_eq!(
        inserting.outcome().unwrap().unwrap_err(),
        RegistrationError::Database(DatabaseError::QueryError)
    );
}

#[test]
fn a_failed_store_does_not_stop_what_needs_no_store() {
    let state = Registration::received(new_user("alice", "a@x.com", "pw123"));
    let state = state.advance(StoreReply::Failed);
    assert!(matches!(state, Registration::PasswordHashed { .. }));
    let issued = Registration::KeyIssued {
        user: new_user("alice", "a@x.com", "password digest"),
        key: KEY.to_string(),
    };
    assert!(matches!(issued.advance(StoreReply::Failed), Registration::KeyHashed { .. }));
}

#[test]
fn a_password_of_any_content_is_registered() {
    let mut store = MemoryStore::new();
    let end = Registration::received(new_user("alice", "a@x.com", "")).run(&mut store, 4);
    assert!(matches!(end, Registration::Persisted { .. }));
    let end = Registration::received(new_user("bob", "b@y.com", "p\u{e4}ss \u{1f511}")).run(&mut store, 4);
    let (bob, _) = end.outcome().unwrap().unwrap();
    assert!(verify("p\u{e4}ss \u{1f511}", &bob.pasword));
}

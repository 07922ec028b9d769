use credentials::authentication::Login;
use credentials::database::{ConflictField, DatabaseError, UpdateFailure};
use credentials::hasher::{hash, verify};
use credentials::keygen::has_key_shape;
use credentials::memory::MemoryStore;
use credentials::models::{NewUser, User, UserLogin};
use credentials::registration::Registration;
use credentials::store::{StoreReply, StoreRequest};
use credentials::user::RegistrationError;

fn login(email: &str, password: &str) -> UserLogin {
    UserLogin { email: email.to_string(), password: password.to_string() }
}

fn alice_with_password(password: &str) -> User {
    User {
        id: 3,
        username: "alice".to_string(),
        email: "a@x.com".to_string(),
        pasword: hash(password).unwrap(),
        api_key: "old key digest".to_string(),
    }
}

fn registered(store: &mut MemoryStore, username: &str, email: &str, password: &str) -> (User, String) {
    let request = NewUser {
        username: username.to_string(),
        email: email.to_string(),
        password: password.to_string(),
    };
    Registration::received(request).run(store, 10).outcome().unwrap().unwrap()
}

const KEY: &str = "abcdefghijklmnopqrstuvwxyz012345";

#[test]
fn a_received_login_looks_the_email_up() {
    let state = Login::received(login("a@x.com", "pw123"));
    assert!(!state.has_ended());
    match state.request() {
        StoreRequest::FindByEmail { email } => assert_eq!(email, "a@x.com"),
        other => panic!("unexpected request {:?}", other),
    }
    assert!(state.outcome().is_none());
}

#[test]
fn a_user_is_found_or_not() {
    let found = Login::received(login("a@x.com", "pw123"))
        .advance(StoreReply::Found(Some(alice_with_password("pw123"))));
    match found {
        Login::Found { login, user } => {
            assert_eq!(login.email, "a@x.com");
            assert_eq!(login.password, "pw123");
            assert_eq!(user.id, 3);
        }
        other => panic!("unexpected state {:?}", other),
    }
    let missing = Login::received(login("a@x.com", "pw123")).advance(StoreReply::Found(None));
    assert!(matches!(missing, Login::NotFound));
    assert!(!missing.has_ended());
    assert!(matches!(missing.request(), StoreRequest::Nothing));
}

#[test]
fn the_right_password_is_verified() {
    let state = Login::Found { login: login("a@x.com", "pw123"), user: alice_with_password("pw123") };
    assert!(matches!(state.request(), StoreRequest::Nothing));
    match state.advance(StoreReply::Nothing) {
        Login::Verified { id, candidate } => {
            assert_eq!(id, 3);
            assert!(has_key_shape(&candidate));
        }
        other => panic!("unexpected state {:?}", other),
    }
}

#[test]
fn a_wrong_password_and_an_unknown_email_are_rejected_alike() {
    let wrong = Login::Found { login: login("a@x.com", "pw456"), user: alice_with_password("pw123") }
        .advance(StoreReply::Nothing);
    let unknown = Login::NotFound.advance(StoreReply::Nothing);
    assert!(matches!(wrong, Login::Rejected));
    assert!(matches!(unknown, Login::Rejected));
    assert!(wrong.has_ended());
    assert!(unknown.has_ended());
    assert_eq!(wrong.outcome(), Some(Err(DatabaseError::Unauthorized)));
    assert_eq!(unknown.outcome(), Some(Err(DatabaseError::Unauthorized)));
}

#[test]
fn a_stored_text_that_is_no_digest_rejects() {
    let mut user = alice_with_password("pw123");
    user.pasword = "pw123".to_string();
    let state = Login::Found { login: login("a@x.com", "pw123"), user }.advance(StoreReply::Nothing);
    assert!(matches!(state, Login::Rejected));
}

#[test]
fn a_taken_candidate_is_drawn_again_and_a_free_one_issued() {
    let state = Login::Verified { id: 3, candidate: KEY.to_string() };
    match state.request() {
        StoreRequest::KeyLookup { candidate } => assert_eq!(candidate, KEY),
        other => panic!("unexpected request {:?}", other),
    }
    let state = state.advance(StoreReply::KeyLookup { taken: true });
    let next = match state {
        Login::Verified { id, candidate } => {
            assert_eq!(id, 3);
            assert!(has_key_shape(&candidate));
            assert_ne!(candidate, KEY);
            candidate
        }
        other => panic!("unexpected state {:?}", other),
    };
    let state = Login::Verified { id: 3, candidate: next.clone() };
    match state.advance(StoreReply::KeyLookup { taken: false }) {
        Login::KeyIssued { id, key } => {
            assert_eq!(id, 3);
            assert_eq!(key, next);
        }
        other => panic!("unexpected state {:?}", other),
    }
}

#[test]
fn an_issued_key_is_hashed_and_its_digest_is_to_be_stored() {
    let state = Login::KeyIssued { id: 3, key: KEY.to_string() }.advance(StoreReply::Nothing);
    match state.request() {
        StoreRequest::UpdateApiKey { id, api_key } => {
            assert_eq!(id, 3);
            assert!(verify(KEY, &api_key));
        }
        other => panic!("unexpected request {:?}", other),
    }
    match state {
        Login::KeyHashed { id, key, digest } => {
            assert_eq!(id, 3);
            assert_eq!(key, KEY);
            assert_ne!(digest, KEY);
            assert!(verify(KEY, &digest));
        }
        other => panic!("unexpected state {:?}", other),
    }
}

#[test]
fn a_stored_digest_rotates_the_key() {
    let state = Login::KeyHashed { id: 3, key: KEY.to_string(), digest: "digest".to_string() };
    let state = state.advance(StoreReply::Updated(Ok(())));
    assert!(state.has_ended());
    assert_eq!(state.outcome(), Some(Ok(KEY.to_string())));
}

#[test]
fn a_failed_update_fails_the_rotation() {
    let state = Login::KeyHashed { id: 3, key: KEY.to_string(), digest: "digest".to_string() };
    let state = state.advance(StoreReply::Updated(Err(UpdateFailure)));
    assert!(state.has_ended());
    assert!(matches!(state, Login::Failed { error: DatabaseError::UpdateError }));
    assert_eq!(state.outcome(), Some(Err(DatabaseError::UpdateError)));
}

#[test]
fn a_reply_to_another_question_leaves_the_login() {
    let state = Login::received(login("a@x.com", "pw123"));
    let state = state.advance(StoreReply::Nothing);
    let state = state.advance(StoreReply::KeyLookup { taken: false });
    let state = state.advance(StoreReply::Updated(Ok(())));
    let state = state.advance(StoreReply::Inserted(Err(ConflictField::Email)));
    assert!(matches!(state, Login::Received { .. }));
    let state = Login::Verified { id: 3, candidate: KEY.to_string() };
    let state = state.advance(StoreReply::Found(None));
    let state = state.advance(StoreReply::Updated(Ok(())));
    match state {
        Login::Verified { id, candidate } => {
            assert_eq!(id, 3);
            assert_eq!(candidate, KEY);
        }
        other => panic!("unexpected state {:?}", other),
    }
    let state = Login::KeyHashed { id: 3, key: KEY.to_string(), digest: "digest".to_string() };
    let state = state.advance(StoreReply::KeyLookup { taken: true });
    assert!(matches!(state, Login::KeyHashed { .. }));
}

#[test]
fn an_ended_login_stays_as_it_is() {
    let rotated = Login::Rotated { key: KEY.to_string() }.advance(StoreReply::Updated(Err(UpdateFailure)));
    assert_eq!(rotated.outcome(), Some(Ok(KEY.to_string())));
    let rejected = Login::Rejected.advance(StoreReply::Found(Some(alice_with_password("pw123"))));
    assert!(matches!(rejected, Login::Rejected));
    let failed = Login::Failed { error: DatabaseError::HashError }.advance(StoreReply::Updated(Ok(())));
    assert_eq!(failed.outcome(), Some(Err(DatabaseError::HashError)));
}

#[test]
fn a_correct_login_rotates_the_key_in_five_steps() {
    let mut store = MemoryStore::new();
    let (alice, first_key) = registered(&mut store, "alice", "a@x.com", "pw123");
    let (bob, _) = registered(&mut store, "bob", "b@y.com", "pw456");
    let end = Login::received(login("a@x.com", "pw123")).run(&mut store, 5);
    let new_key = end.outcome().unwrap().unwrap();
    assert!(has_key_shape(&new_key));
    assert_ne!(new_key, first_key);
    let stored = store.find_by_email("a@x.com").unwrap();
    assert_eq!(stored.id, alice.id);
    assert_eq!(stored.username, "alice");
    assert_eq!(stored.pasword, alice.pasword);
    assert_ne!(stored.api_key, alice.api_key);
    assert!(verify(&new_key, &stored.api_key));
    assert!(!verify(&first_key, &stored.api_key));
    let other = store.find_by_email("b@y.com").unwrap();
    assert_eq!(other.api_key, bob.api_key);
    assert_eq!(store.len(), 2);
}

#[test]
fn a_login_does_not_hand_out_the_key_of_another_user() {
    let mut store = MemoryStore::new();
    let (alice, _) = registered(&mut store, "alice", "a@x.com", "pw123");
    let (_, bob_key) = registered(&mut store, "bob", "b@y.com", "pw456");
    let state = Login::Verified { id: alice.id, candidate: bob_key.clone() };
    let new_key = state.run(&mut store, 10).outcome().unwrap().unwrap();
    assert_ne!(new_key, bob_key);
    assert!(has_key_shape(&new_key));
    assert!(verify(&bob_key, &store.find_by_email("b@y.com").unwrap().api_key));
    assert!(verify(&new_key, &store.find_by_email("a@x.com").unwrap().api_key));
}

#[test]
fn a_wrong_password_leaves_the_store_as_it_is() {
    let mut store = MemoryStore::new();
    let (alice, first_key) = registered(&mut store, "alice", "a@x.com", "pw123");
    let end = Login::received(login("a@x.com", "pw124")).run(&mut store, 10);
    assert_eq!(end.outcome(), Some(Err(DatabaseError::Unauthorized)));
    let stored = store.find_by_email("a@x.com").unwrap();
    assert_eq!(stored.api_key, alice.api_key);
    assert!(verify(&first_key, &stored.api_key));
}

#[test]
fn an_unknown_email_is_unauthorized() {
    let mut store = MemoryStore::new();
    registered(&mut store, "alice", "a@x.com", "pw123");
    let end = Login::received(login("b@y.com", "pw123")).run(&mut store, 10);
    assert_eq!(end.outcome(), Some(Err(DatabaseError::Unauthorized)));
    let by_name = Login::received(login("alice", "pw123")).run(&mut store, 10);
    assert_eq!(by_name.outcome(), Some(Err(DatabaseError::Unauthorized)));
}

#[test]
fn a_login_run_stops_when_its_steps_are_used_up() {
    let mut store = MemoryStore::new();
    let (alice, _) = registered(&mut store, "alice", "a@x.com", "pw123");
    let halfway = Login::received(login("a@x.com", "pw123")).run(&mut store, 4);
    assert!(matches!(halfway, Login::KeyHashed { .. }));
    assert_eq!(store.find_by_email("a@x.com").unwrap().api_key, alice.api_key);
    let end = halfway.run(&mut store, 1);
    assert!(matches!(end, Login::Rotated { .. }));
    assert_ne!(store.find_by_email("a@x.com").unwrap().api_key, alice.api_key);
}

#[test]
fn register_twice_then_login() {
    let mut store = MemoryStore::new();
    let first = Registration::received(NewUser {
        username: "alice".to_string(),
        email: "a@x.com".to_string(),
        password: "pw123".to_string(),
    })
    .run(&mut store, 10);
    let (_, first_key) = first.outcome().unwrap().unwrap();
    assert_eq!(first_key.len(), 32);
    let second = Registration::received(NewUser {
        username: "alice".to_string(),
        email: "b@y.com".to_string(),
        password: "pw456".to_string(),
    })
    .run(&mut store, 10);
    assert_eq!(
        second.outcome().unwrap().unwrap_err(),
        RegistrationError::Database(DatabaseError::UserameExists)
    );
    let logged_in = Login::received(login("a@x.com", "pw123")).run(&mut store, 10);
    let second_key = logged_in.outcome().unwrap().unwrap();
    assert_eq!(second_key.len(), 32);
    assert_ne!(second_key, first_key);
}

#[test]
fn a_store_that_fails_to_answer_fails_the_login() {
    let finding = Login::received(login("a@x.com", "pw123")).advance(StoreReply::Failed);
    assert_eq!(finding.outcome(), Some(Err(DatabaseError::QueryError)));
    let looking = Login::Verified { id: 3, candidate: KEY.to_string() }.advance(StoreReply::Failed);
    assert_eq!(looking.outcome(), Some(Err(DatabaseError::QueryError)));
    let storing = Login::KeyHashed { id: 3, key: KEY.to_string(), digest: "digest".to_string() }
        .advance(StoreReply::Failed);
    assert_eq!(storing.outcome(), Some(Err(DatabaseError::UpdateError)));
}
